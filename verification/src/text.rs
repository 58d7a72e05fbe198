//! Text renderings of numbers, identifiers and points in time.
use vstd::prelude::*;
use vstd::arithmetic::power::pow;

verus! {

/// The character of a decimal digit.
pub open spec fn decimal_digit(d: int) -> char {
    ((d + 48) as u32) as char
}

/// The decimal rendering of a natural number, without leading zeros.
pub open spec fn decimal_text(n: nat) -> Seq<char>
    decreases n,
{
    if n < 10 {
        seq![decimal_digit(n as int)]
    } else {
        decimal_text(n / 10) + seq![decimal_digit((n % 10) as int)]
    }
}

/// The one-character text of a decimal digit.
fn digit_str(d: u64) -> (s: &'static str)
    requires
        d < 10,
    ensures
        s@ == seq![decimal_digit(d as int)],
{
    if d == 0 {
        proof { reveal_strlit("0"); }
        "0"
    } else if d == 1 {
        proof { reveal_strlit("1"); }
        "1"
    } else if d == 2 {
        proof { reveal_strlit("2"); }
        "2"
    } else if d == 3 {
        proof { reveal_strlit("3"); }
        "3"
    } else if d == 4 {
        proof { reveal_strlit("4"); }
        "4"
    } else if d == 5 {
        proof { reveal_strlit("5"); }
        "5"
    } else if d == 6 {
        proof { reveal_strlit("6"); }
        "6"
    } else if d == 7 {
        proof { reveal_strlit("7"); }
        "7"
    } else if d == 8 {
        proof { reveal_strlit("8"); }
        "8"
    } else {
        proof { reveal_strlit("9"); }
        "9"
    }
}

/// Renders an unsigned integer in decimal: its digits, most significant
/// first, without sign or leading zeros.
pub fn u64_text(n: u64) -> (res: String)
    ensures
        res@ == decimal_text(n as nat),
    decreases n,
{
    if n < 10 {
        String::from_str(digit_str(n))
    } else {
        let mut text = u64_text(n / 10);
        text.append(digit_str(n % 10));
        text
    }
}

/// The character of a lower-case hexadecimal digit.
pub open spec fn hex_digit(d: int) -> char {
    if d < 10 {
        ((d + 48) as u32) as char
    } else {
        ((d + 87) as u32) as char
    }
}

/// The `k`-th hexadecimal digit of a 128-bit value, counted from the most significant one.
pub open spec fn nibble(x: u128, k: int) -> int {
    (x as int / pow(16, (31 - k) as nat)) % 16
}

/// Whether position `j` of a hyphenated identifier holds a hyphen.
pub open spec fn is_hyphen_position(j: int) -> bool {
    j == 8 || j == 13 || j == 18 || j == 23
}

/// The number of hyphens before position `j` of a hyphenated identifier.
pub open spec fn hyphens_before(j: int) -> int {
    if j <= 8 {
        0
    } else if j <= 13 {
        1
    } else if j <= 18 {
        2
    } else if j <= 23 {
        3
    } else {
        4
    }
}

/// The hyphenated rendering of a 128-bit identifier: its 32 lower-case
/// hexadecimal digits, most significant first, in groups of 8, 4, 4, 4 and 12
/// separated by hyphens.
pub open spec fn hyphenated_text(x: u128) -> Seq<char> {
    Seq::new(
        36,
        |j: int|
            if is_hyphen_position(j) {
                '-'
            } else {
                hex_digit(nibble(x, j - hyphens_before(j)))
            },
    )
}

/// Renders a 128-bit identifier in its hyphenated form.
///
/// Calls `uuid::Uuid::from_u128`, which takes the value's bytes most
/// significant first, and the `Display` of `Uuid::to_hyphenated`, which writes
/// them as lower-case hexadecimal digits grouped 8-4-4-4-12 with hyphens at
/// positions 8, 13, 18 and 23.
#[verifier::external_body]
pub(crate) fn uuid_text(id: u128) -> (res: String)
    ensures
        res@ == hyphenated_text(id),
{
    uuid::Uuid::from_u128(id).to_hyphenated().to_string()
}

/// The offset of Japan Standard Time from UTC, in seconds.
pub const JST_OFFSET_SECONDS: i32 = 32400;

/// The text that `format("%F %T")` gives for the instant `secs` seconds after
/// the Unix epoch, seen at `offset_secs` seconds east of UTC: the local date
/// and time of day as `YYYY-MM-DD HH:MM:SS`.
pub uninterp spec fn date_time_text(secs: int, offset_secs: int) -> Seq<char>;

/// Whether an instant lies between the start of the second day of year
/// -262143 and the end of the day before the last of year 262142, UTC.
/// chrono represents the dates from the first day of year -262143 to the last
/// of year 262142; a day is kept clear at either end, so that the local date at
/// an offset of less than a day stays among them.
pub open spec fn renderable_time(secs: int) -> bool {
    -8_334_601_142_400 <= secs <= 8_210_266_790_399
}

/// Renders an instant as a local date and time.
///
/// Builds the offset with `chrono::FixedOffset::east_opt` and the instant with
/// `chrono::DateTime::from_timestamp`, then calls `with_timezone` and
/// `format("%F %T")`. It returns `None` where chrono refuses the offset or the
/// instant; otherwise the text is named `date_time_text` of the two
/// arguments. The contract claims a text for an offset of less than a day
/// either way (the bound `east_opt` checks) and an instant that
/// `renderable_time` accepts (`from_timestamp` refuses only an instant whose
/// day, counted from the epoch's day 719163 of the common era, falls outside
/// the years -262143 to 262142).
#[verifier::external_body]
pub(crate) fn format_date_time(secs: i64, offset_secs: i32) -> (res: Option<String>)
    ensures
        res matches Some(s) ==> s@ == date_time_text(secs as int, offset_secs as int),
        -86_400 < offset_secs < 86_400 && renderable_time(secs as int) ==> res is Some,
{
    let offset = chrono::FixedOffset::east_opt(offset_secs)?;
    let time = chrono::DateTime::from_timestamp(secs, 0)?;
    Some(time.with_timezone(&offset).format("%F %T").to_string())
}

} // verus!
