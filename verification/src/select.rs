//! Keeping the records that have a keyword.

use crate::decode::views;
use crate::record::{lemma_empty_keyword, Manufacturer, Record};
use vstd::prelude::*;

verus! {

/// The records that have `keyword`, in the order in which they stand in
/// `records`.
pub open spec fn selected(records: Seq<Record>, keyword: Seq<char>) -> Seq<Record> {
    records.filter(|record: Record| record.has(keyword))
}

/// `positions` places `part` inside `whole`: the items of `part` stand in
/// `whole` at these positions, which strictly increase.
pub open spec fn placed(positions: Seq<int>, part: Seq<Record>, whole: Seq<Record>) -> bool {
    &&& positions.len() == part.len()
    &&& forall|k: int|
        0 <= k < positions.len() ==> 0 <= #[trigger] positions[k] < whole.len()
            && whole[positions[k]] == part[k]
    &&& forall|j: int, k: int|
        0 <= j < k < positions.len() ==> #[trigger] positions[j] < #[trigger] positions[k]
}

/// Selecting from a list with one more record at its end.
pub proof fn lemma_selected_push(records: Seq<Record>, last: Record, keyword: Seq<char>)
    ensures
        selected(records.push(last), keyword) == if last.has(keyword) {
            selected(records, keyword).push(last)
        } else {
            selected(records, keyword)
        },
{
    reveal(Seq::filter);
    assert(records.push(last).drop_last() =~= records);
}

/// Selection keeps the order of the list and nothing else decides it: the
/// selected records are the records at the positions that have the keyword,
/// taken from the first such position to the last. The positions are
/// returned.
pub proof fn lemma_selected_keeps_order(records: Seq<Record>, keyword: Seq<char>) -> (positions:
    Seq<int>)
    ensures
        placed(positions, selected(records, keyword), records),
        forall|i: int|
            0 <= i < records.len() ==> (#[trigger] records[i].has(keyword) <==> positions.contains(
                i,
            )),
    decreases records.len(),
{
    if records.len() == 0 {
        reveal(Seq::filter);
        Seq::empty()
    } else {
        let rest = records.drop_last();
        let last = records.last();
        let end = records.len() - 1;
        let before = lemma_selected_keeps_order(rest, keyword);
        lemma_selected_push(rest, last, keyword);
        assert(rest.push(last) =~= records);
        let positions = if last.has(keyword) {
            before.push(end)
        } else {
            before
        };
        assert forall|i: int| 0 <= i < records.len() implies (#[trigger] records[i].has(keyword)
            <==> positions.contains(i)) by {
            if i < end {
                assert(rest[i] == records[i]);
                if before.contains(i) {
                    let k = choose|k: int| 0 <= k < before.len() && before[k] == i;
                    assert(positions[k] == i);
                }
                if positions.contains(i) {
                    let k = choose|k: int| 0 <= k < positions.len() && positions[k] == i;
                    assert(before[k] == i);
                }
            } else {
                if last.has(keyword) {
                    assert(positions[positions.len() - 1] == i);
                }
                if positions.contains(i) {
                    let k = choose|k: int| 0 <= k < positions.len() && positions[k] == i;
                    if k < before.len() {
                        assert(before[k] < rest.len());
                    }
                }
            }
        }
        positions
    }
}

/// Every record is selected by the empty keyword.
pub proof fn lemma_empty_keyword_selects_all(records: Seq<Record>)
    ensures
        selected(records, Seq::<char>::empty()) == records,
    decreases records.len(),
{
    let keyword = Seq::<char>::empty();
    if records.len() == 0 {
        reveal(Seq::filter);
    } else {
        let rest = records.drop_last();
        let last = records.last();
        lemma_empty_keyword_selects_all(rest);
        lemma_selected_push(rest, last, keyword);
        lemma_empty_keyword(last);
        assert(rest.push(last) =~= records);
    }
}

/// Nothing is selected exactly when no record has the keyword.
pub proof fn lemma_selected_none(records: Seq<Record>, keyword: Seq<char>)
    ensures
        selected(records, keyword).len() == 0 <==> forall|i: int|
            0 <= i < records.len() ==> !(#[trigger] records[i].has(keyword)),
{
    let positions = lemma_selected_keeps_order(records, keyword);
    if positions.len() > 0 {
        assert(records[positions[0]].has(keyword)) by {
            assert(positions.contains(positions[0]));
        }
    }
    if exists|i: int| 0 <= i < records.len() && #[trigger] records[i].has(keyword) {
        let i = choose|i: int| 0 <= i < records.len() && #[trigger] records[i].has(keyword);
        assert(positions.contains(i));
    }
}

/// Keeps the records that have `keyword`. Their relative order is that of
/// `records`.
pub fn select<'a>(records: &Vec<Manufacturer<'a>>, keyword: &str) -> (found: Vec<Manufacturer<'a>>)
    ensures
        views(found@) == selected(views(records@), keyword@),
{
    let mut found: Vec<Manufacturer<'a>> = Vec::new();
    let mut i: usize = 0;
    proof {
        reveal(Seq::filter);
        assert(records@.take(0) =~= Seq::empty());
        assert(views(records@.take(0)) =~= Seq::empty());
        assert(views(found@) =~= Seq::empty());
    }
    while i < records.len()
        invariant
            i <= records.len(),
            views(found@) == selected(views(records@.take(i as int)), keyword@),
        decreases records.len() - i,
    {
        let candidate = records[i];
        proof {
            let seen = records@.take(i as int);
            assert(records@.take(i + 1) =~= seen.push(candidate));
            assert(views(seen.push(candidate)) =~= views(seen).push(candidate@));
            assert(views(found@.push(candidate)) =~= views(found@).push(candidate@));
            lemma_selected_push(views(seen), candidate@, keyword@);
        }
        if candidate.has(keyword) {
            found.push(candidate);
        }
        i += 1;
    }
    assert(records@.take(records.len() as int) =~= records@);
    found
}

} // verus!
