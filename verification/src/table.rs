//! Choosing the columns of a table.
use vstd::prelude::*;

verus! {

/// The values whose column is chosen, in column order.
#[verifier::opaque]
pub open spec fn select<A>(chosen: Seq<bool>, values: Seq<A>) -> Seq<A>
    decreases chosen.len(),
{
    if chosen.len() == 0 || values.len() == 0 {
        seq![]
    } else {
        let rest = select(chosen.drop_last(), values.drop_last());
        if chosen.last() {
            rest.push(values.last())
        } else {
            rest
        }
    }
}

/// The number of chosen columns.
pub open spec fn count_chosen(chosen: Seq<bool>) -> nat
    decreases chosen.len(),
{
    if chosen.len() == 0 {
        0
    } else {
        count_chosen(chosen.drop_last()) + (if chosen.last() { 1nat } else { 0nat })
    }
}

/// Selecting from a row as long as the choice gives as many values as columns are chosen.
pub proof fn lemma_select_len<A>(chosen: Seq<bool>, values: Seq<A>)
    requires
        values.len() == chosen.len(),
    ensures
        select(chosen, values).len() == count_chosen(chosen),
    decreases chosen.len(),
{
    reveal(select);
    if chosen.len() > 0 {
        lemma_select_len(chosen.drop_last(), values.drop_last());
    }
}

/// Two rows that agree on the chosen columns give the same selection.
pub proof fn lemma_select_agree<A>(chosen: Seq<bool>, a: Seq<A>, b: Seq<A>)
    requires
        a.len() == chosen.len(),
        b.len() == chosen.len(),
        forall|i: int| 0 <= i < chosen.len() && #[trigger] chosen[i] ==> a[i] == b[i],
    ensures
        select(chosen, a) == select(chosen, b),
    decreases chosen.len(),
{
    reveal(select);
    if chosen.len() > 0 {
        let n = chosen.len() - 1;
        assert forall|i: int| 0 <= i < n && #[trigger] chosen.drop_last()[i] implies a.drop_last()[i] == b.drop_last()[i] by {
            assert(chosen[i]);
        }
        lemma_select_agree(chosen.drop_last(), a.drop_last(), b.drop_last());
    }
}

/// Whether two rows of as many values as columns agree on the chosen columns.
pub open spec fn agree_on<A>(chosen: Seq<bool>, a: Seq<A>, b: Seq<A>) -> bool {
    &&& a.len() == chosen.len()
    &&& b.len() == chosen.len()
    &&& forall|i: int| 0 <= i < chosen.len() && #[trigger] chosen[i] ==> a[i] == b[i]
}

/// Rows that agree on their parts agree as a whole.
pub proof fn lemma_agree_concat<A>(c1: Seq<bool>, a1: Seq<A>, b1: Seq<A>, c2: Seq<bool>, a2: Seq<A>, b2: Seq<A>)
    requires
        agree_on(c1, a1, b1),
        agree_on(c2, a2, b2),
    ensures
        agree_on(c1 + c2, a1 + a2, b1 + b2),
{
    let c = c1 + c2;
    assert forall|i: int| 0 <= i < c.len() && #[trigger] c[i] implies (a1 + a2)[i] == (b1 + b2)[i] by {
        if i < c1.len() {
            assert(c1[i]);
        } else {
            assert(c2[i - c1.len()]);
        }
    }
}

/// Appends the values of one row to another.
pub fn append_values(row: &mut Vec<String>, more: Vec<String>)
    ensures
        final(row).deep_view() == old(row).deep_view() + more.deep_view(),
{
    let ghost before = row.deep_view();
    let mut more = more;
    let ghost added = more.deep_view();
    let ghost before_vals = row@;
    let ghost more_vals = more@;
    row.append(&mut more);
    assert(row@ == before_vals + more_vals);
    assert(row.deep_view() =~= before + added);
}

/// The parts of a row one after the other.
pub open spec fn concat_parts<A>(parts: Seq<Seq<A>>) -> Seq<A>
    decreases parts.len(),
{
    if parts.len() == 0 {
        seq![]
    } else {
        concat_parts(parts.drop_last()) + parts.last()
    }
}

/// Rows made of parts of the same lengths have the same length.
pub proof fn lemma_concat_parts_len<A, B>(a: Seq<Seq<A>>, b: Seq<Seq<B>>)
    requires
        a.len() == b.len(),
        forall|k: int| 0 <= k < a.len() ==> #[trigger] a[k].len() == b[k].len(),
    ensures
        concat_parts(a).len() == concat_parts(b).len(),
    decreases a.len(),
{
    if a.len() > 0 {
        assert forall|k: int| 0 <= k < a.len() - 1 implies #[trigger] a.drop_last()[k].len() == b.drop_last()[k].len() by {
            assert(a[k].len() == b[k].len());
        }
        lemma_concat_parts_len(a.drop_last(), b.drop_last());
        assert(a.last().len() == b[b.len() - 1].len());
    }
}

/// Appends a value to a row.
pub fn push_value(row: &mut Vec<String>, value: String)
    ensures
        final(row).deep_view() == old(row).deep_view().push(value@),
{
    let ghost before = row.deep_view();
    row.push(value);
    assert(row.deep_view() =~= before.push(value@));
}

/// Keeps the values whose column is chosen.
pub fn select_values(chosen: &Vec<bool>, values: Vec<String>) -> (res: Vec<String>)
    requires
        values.len() == chosen.len(),
    ensures
        res.deep_view() == select(chosen@, values.deep_view()),
{
    reveal(select);
    let ghost all = values.deep_view();
    let mut res: Vec<String> = Vec::new();
    let mut rest = values;
    let mut i: usize = 0;
    while i < chosen.len()
        invariant
            i <= chosen.len(),
            chosen.len() == all.len(),
            rest.len() == chosen.len() - i,
            rest.deep_view() =~= all.skip(i as int),
            res.deep_view() == select(chosen@.take(i as int), all.take(i as int)),
        decreases chosen.len() - i,
    {
        proof {
            reveal(select);
        }
        let ghost prev = rest.deep_view();
        let ghost prev_vals = rest@;
        assert(prev[0] == prev_vals[0].deep_view());
        let v = rest.remove(0);
        assert(v == prev_vals[0]);
        assert(rest.deep_view() =~= prev.drop_first());
        assert(v@ == all[i as int]);
        assert(chosen@.take(i + 1).drop_last() =~= chosen@.take(i as int));
        assert(all.take(i + 1).drop_last() =~= all.take(i as int));
        if chosen[i] {
            res.push(v);
        }
        i = i + 1;
    }
    assert(chosen@.take(i as int) =~= chosen@);
    assert(all.take(i as int) =~= all);
    res
}

} // verus!
