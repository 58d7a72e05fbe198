//! Rendering of tables as CSV text.
use vstd::prelude::*;
use vstd::utf8::encode_utf8;

verus! {

/// A csv writer over a byte vector, kept in a private field: its contents
/// are known only through `csv_records`, the records written so far, and
/// `csv_at_record_start`, whether no record is half written.
#[verifier::external_body]
pub struct CsvWriter {
    inner: csv::Writer<Vec<u8>>,
}

/// Whether a field must be written between quotes: it holds a comma, a
/// quote, a carriage return or a line feed.
pub open spec fn needs_quotes(field: Seq<char>) -> bool {
    exists|i: int| 0 <= i < field.len() && (field[i] == ',' || field[i] == '"' || field[i] == '\r' || field[i] == '\n')
}

/// A field with each quote doubled.
pub open spec fn double_quotes(field: Seq<char>) -> Seq<char>
    decreases field.len(),
{
    if field.len() == 0 {
        seq![]
    } else {
        (if field[0] == '"' { seq!['"', '"'] } else { seq![field[0]] }) + double_quotes(field.drop_first())
    }
}

/// A field as it is written.
pub open spec fn encode_field(field: Seq<char>) -> Seq<char> {
    if needs_quotes(field) {
        seq!['"'] + double_quotes(field) + seq!['"']
    } else {
        field
    }
}

/// The written fields of a record, separated by commas.
pub open spec fn join_fields(fields: Seq<Seq<char>>) -> Seq<char>
    decreases fields.len(),
{
    if fields.len() == 0 {
        seq![]
    } else if fields.len() == 1 {
        encode_field(fields[0])
    } else {
        join_fields(fields.drop_last()) + seq![','] + encode_field(fields.last())
    }
}

/// A record as it is written: its joined fields (two quotes where they
/// would be empty), then CR LF.
pub open spec fn encode_record(fields: Seq<Seq<char>>) -> Seq<char> {
    let body = join_fields(fields);
    (if body.len() == 0 { seq!['"', '"'] } else { body }) + seq!['\r', '\n']
}

/// A table as it is written: its records one after the other.
pub open spec fn encode_table(records: Seq<Seq<Seq<char>>>) -> Seq<char>
    decreases records.len(),
{
    if records.len() == 0 {
        seq![]
    } else {
        encode_table(records.drop_last()) + encode_record(records.last())
    }
}

/// Whether every record of a table has as many fields as the first.
pub open spec fn uniform_width(records: Seq<Seq<Seq<char>>>) -> bool {
    forall|i: int| 0 <= i < records.len() ==> #[trigger] records[i].len() == records[0].len()
}

/// The records a csv writer over a byte vector has taken, each as its fields.
pub uninterp spec fn csv_records(writer: CsvWriter) -> Seq<Seq<Seq<char>>>;

/// Whether a csv writer over a byte vector stands between records: no field
/// of an unfinished record is pending in it.
pub uninterp spec fn csv_at_record_start(writer: CsvWriter) -> bool;

/// Makes a csv writer over an empty byte vector, with CR LF record
/// terminators: calls `csv::WriterBuilder::new`, `terminator` and
/// `from_writer`. The contract claims that the writer has taken no record.
#[verifier::external_body]
fn new_csv_writer() -> (writer: CsvWriter)
    ensures
        csv_records(writer) == Seq::<Seq<Seq<char>>>::empty(),
        csv_at_record_start(writer),
{
    CsvWriter { inner: csv::WriterBuilder::new().terminator(csv::Terminator::CRLF).from_writer(Vec::new()) }
}

/// Writes one record: calls `csv::Writer::write_record`, and gives the
/// message of the error it reports. The contract claims that a success adds
/// the record to those taken, and that a record is refused exactly when its
/// number of fields differs from the first record's (the writer is not
/// flexible, and writing into a vector of bytes does not fail).
#[verifier::external_body]
fn write_csv_record(writer: &mut CsvWriter, record: &Vec<String>) -> (res: Result<(), String>)
    requires
        csv_at_record_start(*old(writer)),
    ensures
        res is Ok <==> !(csv_records(*old(writer)).len() > 0 && record.len() != csv_records(*old(writer))[0].len()),
        res is Ok ==> csv_records(*final(writer)) == csv_records(*old(writer)).push(record.deep_view()),
        res is Ok ==> csv_at_record_start(*final(writer)),
{
    match writer.inner.write_record(record.iter()) {
        Ok(()) => Ok(()),
        Err(err) => Err(err.to_string()),
    }
}

/// Flushes a csv writer and gives its bytes: calls `csv::Writer::into_inner`,
/// and gives the message of the error it reports. The csv writer quotes a
/// field exactly when it holds a comma, a quote, CR or LF, doubles the quotes
/// inside it, separates fields with commas, writes two quotes for a record
/// with no bytes, and ends each record with CR LF; the contract claims that
/// the bytes given are those of the records taken, and that flushing into a
/// vector of bytes does not fail.
#[verifier::external_body]
fn csv_bytes(writer: CsvWriter) -> (res: Result<Vec<u8>, String>)
    requires
        csv_at_record_start(writer),
    ensures
        res is Ok,
        res matches Ok(bytes) ==> bytes@ == encode_utf8(encode_table(csv_records(writer))),
{
    match writer.inner.into_inner() {
        Ok(bytes) => Ok(bytes),
        Err(err) => Err(err.to_string()),
    }
}

/// Writes a table as CSV with CR LF record terminators and returns its bytes,
/// or the message of the error the writer reported. A table is refused
/// exactly when its records differ in their number of fields.
pub fn write_table(records: &Vec<Vec<String>>) -> (res: Result<Vec<u8>, String>)
    ensures
        res is Ok <==> uniform_width(records.deep_view()),
        res matches Ok(bytes) ==> bytes@ == encode_utf8(encode_table(records.deep_view())),
{
    let ghost all = records.deep_view();
    let mut writer = new_csv_writer();
    let mut i: usize = 0;
    while i < records.len()
        invariant
            i <= records.len(),
            all == records.deep_view(),
            all.len() == records.len(),
            csv_at_record_start(writer),
            csv_records(writer) == all.take(i as int),
            forall|k: int| 0 <= k < i ==> #[trigger] all[k].len() == all[0].len(),
        decreases records.len() - i,
    {
        let ghost before = csv_records(writer);
        assert(records[i as int].deep_view() == all[i as int]);
        match write_csv_record(&mut writer, &records[i]) {
            Ok(()) => {},
            Err(e) => {
                proof {
                    assert(before[0] == all[0]);
                    assert(all[i as int].len() != all[0].len());
                }
                return Err(e);
            },
        }
        assert(all.take(i + 1) =~= all.take(i as int).push(all[i as int]));
        proof {
            if i > 0 {
                assert(before[0] == all[0]);
            }
        }
        i = i + 1;
    }
    assert(all.take(i as int) =~= all);
    csv_bytes(writer)
}

} // verus!
