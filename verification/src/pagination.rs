//! Cursor pagination over a record set: filter first, then cut the page.
//!
//! A cursor is the decimal text of a position in the filtered sequence: the
//! position after the last item of the page that issued it.

use vstd::prelude::*;
use crate::model::{same_record, same_records, Deployment};
use crate::text::{
    all_digits, decimal, decimal_value, format_decimal, lemma_decimal_round_trip, parse_decimal,
    text_of,
};

verus! {

/// The page size used where a request names none.
pub const DEFAULT_LIMIT: usize = 10;

/// Whether a record passes the branch filter: every record passes an absent
/// filter, and a present one asks for the exact branch name.
pub open spec fn in_branch(d: Deployment, branch: Option<Seq<char>>) -> bool {
    match branch {
        None => true,
        Some(b) => d.branch@ == b,
    }
}

/// An optional position as a mathematical number.
pub open spec fn position_of(p: Option<usize>) -> Option<nat> {
    match p {
        None => None,
        Some(n) => Some(n as nat),
    }
}

/// The records that pass the filter, in the order of the record set.
pub open spec fn matching(records: Seq<Deployment>, branch: Option<Seq<char>>) -> Seq<Deployment>
    decreases records.len(),
{
    if records.len() == 0 {
        Seq::<Deployment>::empty()
    } else if in_branch(records.last(), branch) {
        matching(records.drop_last(), branch).push(records.last())
    } else {
        matching(records.drop_last(), branch)
    }
}

/// The page of at most `limit` items that starts at position `start`.
pub open spec fn page_at(m: Seq<Deployment>, start: nat, limit: nat) -> Seq<Deployment> {
    let lo = if start <= m.len() {
        start as int
    } else {
        m.len() as int
    };
    let hi = if start + limit <= m.len() {
        (start + limit) as int
    } else {
        m.len() as int
    };
    m.subrange(lo, hi)
}

/// The position that the next page starts at: present if and only if the
/// page at `start` is full.
pub open spec fn next_start(m: Seq<Deployment>, start: nat, limit: nat) -> Option<nat> {
    if page_at(m, start, limit).len() == limit {
        Some(start + limit)
    } else {
        None
    }
}

/// All pages from `start` on, one after the other, following the cursor of
/// each page to the next until a page comes without one.
pub open spec fn pages_from(m: Seq<Deployment>, start: nat, limit: nat) -> Seq<Deployment>
    decreases m.len() - start,
{
    if limit > 0 && start + limit <= m.len() {
        page_at(m, start, limit) + pages_from(m, start + limit, limit)
    } else {
        page_at(m, start, limit)
    }
}

/// The number of pages that a full pass from `start` reads, the last one
/// (which comes without a cursor) included.
pub open spec fn page_count_from(len: nat, start: nat, limit: nat) -> nat
    decreases len - start,
{
    if limit > 0 && start + limit <= len {
        1 + page_count_from(len, start + limit, limit)
    } else {
        1
    }
}

/// The position that a cursor text denotes, if it is well formed.
pub open spec fn cursor_position(cursor: Seq<char>) -> Option<nat> {
    if all_digits(cursor) && decimal_value(cursor) <= usize::MAX {
        Some(decimal_value(cursor))
    } else {
        None
    }
}

/// One page of a listing.
#[derive(Clone, Debug, PartialEq, Eq)]
pub struct Page {
    /// Copies of the records of the page, in order.
    pub items: Vec<Deployment>,
    /// Where the next page starts, if this one is full.
    pub next: Option<usize>,
}

/// Adding a record to the set adds it to the matching records if and only if
/// it passes the filter.
pub proof fn lemma_matching_step(records: Seq<Deployment>, branch: Option<Seq<char>>, i: int)
    requires
        0 <= i < records.len(),
    ensures
        matching(records.take(i + 1), branch) == (if in_branch(records[i], branch) {
            matching(records.take(i), branch).push(records[i])
        } else {
            matching(records.take(i), branch)
        }),
{
    assert(records.take(i + 1).drop_last() =~= records.take(i));
    assert(records.take(i + 1).last() == records[i]);
}

/// Reads the page that starts at position `start` of the records that pass
/// the branch filter.
pub fn list(records: &Vec<Deployment>, branch: &Option<String>, limit: usize, start: usize) -> (p:
    Page)
    ensures
        same_records(
            p.items@,
            page_at(
                matching(records@, text_of(*branch)),
                start as nat,
                limit as nat,
            ),
        ),
        p.next.is_some() <==> p.items@.len() == limit,
        position_of(p.next) == next_start(
            matching(records@, text_of(*branch)),
            start as nat,
            limit as nat,
        ),
{
    let ghost filter = text_of(*branch);
    let mut items: Vec<Deployment> = Vec::new();
    let mut seen: usize = 0;
    let mut i: usize = 0;
    proof {
        assert(records@.take(0) =~= Seq::<Deployment>::empty());
    }
    while i < records.len()
        invariant
            0 <= i <= records.len(),
            filter == text_of(*branch),
            seen == matching(records@.take(i as int), filter).len(),
            seen <= i,
            same_records(
                items@,
                page_at(matching(records@.take(i as int), filter), start as nat, limit as nat),
            ),
        decreases records.len() - i,
    {
        let passes = match branch {
            None => true,
            Some(b) => records[i].branch == *b,
        };
        proof {
            lemma_matching_step(records@, filter, i as int);
        }
        let ghost before = matching(records@.take(i as int), filter);
        let ghost after = matching(records@.take(i + 1), filter);
        assert(passes == in_branch(records@[i as int], filter));
        if passes {
            if seen >= start && seen - start < limit {
                let copy = records[i].duplicate();
                let ghost old_items = items@;
                items.push(copy);
                proof {
                    let want = page_at(after, start as nat, limit as nat);
                    let had = page_at(before, start as nat, limit as nat);
                    assert(want =~= had.push(records@[i as int]));
                    assert forall|k: int| 0 <= k < items@.len() implies same_record(
                        #[trigger] items@[k],
                        want[k],
                    ) by {
                        if k < old_items.len() {
                            assert(items@[k] == old_items[k]);
                            assert(same_record(old_items[k], had[k]));
                        }
                    }
                }
            } else {
                proof {
                    assert(page_at(after, start as nat, limit as nat) =~= page_at(
                        before,
                        start as nat,
                        limit as nat,
                    ));
                }
            }
            seen = seen + 1;
        }
        i = i + 1;
    }
    proof {
        assert(records@.take(records.len() as int) =~= records@);
    }
    let next = if items.len() == limit {
        Some(start + limit)
    } else {
        None
    };
    Page { items, next }
}

/// Reads a cursor: the position it denotes, or `None` for a malformed one.
pub fn decode_cursor(cursor: &str) -> (p: Option<usize>)
    ensures
        position_of(p) == cursor_position(cursor@),
{
    parse_decimal(cursor)
}

/// Writes the cursor for a position.
pub fn encode_cursor(position: usize) -> (c: String)
    ensures
        c@ == decimal(position as nat),
        cursor_position(c@) == Some(position as nat),
{
    proof {
        lemma_decimal_round_trip(position as nat);
    }
    format_decimal(position)
}

/// A full pass reads every matching record exactly once and in order:
/// whatever the page size, the pages from the first position on, one after
/// the other, are the matching records themselves.
pub proof fn lemma_pages_cover_exactly(m: Seq<Deployment>, limit: nat)
    requires
        limit > 0,
    ensures
        pages_from(m, 0, limit) == m,
{
    lemma_pages_from(m, 0, limit);
    assert(m.skip(0) =~= m);
}

/// The pages from any position on, one after the other, are the matching
/// records from that position on.
pub proof fn lemma_pages_from(m: Seq<Deployment>, start: nat, limit: nat)
    requires
        limit > 0,
        start <= m.len(),
    ensures
        pages_from(m, start, limit) == m.skip(start as int),
    decreases m.len() - start,
{
    if start + limit <= m.len() {
        lemma_pages_from(m, start + limit, limit);
        assert(page_at(m, start, limit) + m.skip((start + limit) as int) =~= m.skip(start as int));
    } else {
        assert(page_at(m, start, limit) =~= m.skip(start as int));
    }
}

/// Each page but the last is full and carries a cursor; the last carries
/// none. The cursor follows the step that a full pass takes.
pub proof fn lemma_cursor_follows_pass(m: Seq<Deployment>, start: nat, limit: nat)
    requires
        limit > 0,
    ensures
        next_start(m, start, limit).is_some() <==> start + limit <= m.len(),
        next_start(m, start, limit).is_some() ==> next_start(m, start, limit) == Some(
            start + limit,
        ),
{
}

/// The number of pages of a full pass over `len` records: one more than the
/// number of full pages.
pub proof fn lemma_page_count(len: nat, start: nat, limit: nat)
    requires
        limit > 0,
        start <= len,
    ensures
        page_count_from(len, start, limit) == (len - start) / (limit as int) + 1,
    decreases len - start,
{
    if start + limit <= len {
        lemma_page_count(len, start + limit, limit);
        vstd::arithmetic::div_mod::lemma_div_plus_one((len - start - limit) as int, limit as int);
    } else {
        vstd::arithmetic::div_mod::lemma_basic_div((len - start) as int, limit as int);
    }
}

/// The same cursor against the same records gives the same page.
pub proof fn lemma_same_cursor_same_page(
    records: Seq<Deployment>,
    branch: Option<Seq<char>>,
    cursor: Seq<char>,
    limit: nat,
    a: Seq<Deployment>,
    b: Seq<Deployment>,
)
    requires
        cursor_position(cursor).is_some(),
        same_records(
            a,
            page_at(matching(records, branch), cursor_position(cursor).unwrap(), limit),
        ),
        same_records(
            b,
            page_at(matching(records, branch), cursor_position(cursor).unwrap(), limit),
        ),
    ensures
        same_records(a, b),
{
}

/// No two records carry the same id.
pub open spec fn distinct_ids(records: Seq<Deployment>) -> bool {
    forall|i: int, j: int|
        0 <= i < j < records.len() ==> (#[trigger] records[i]).id@ != (#[trigger] records[j]).id@
}

/// Every matching record is a record of the set and passes the filter.
pub proof fn lemma_matching_members(records: Seq<Deployment>, branch: Option<Seq<char>>, i: int)
    requires
        0 <= i < matching(records, branch).len(),
    ensures
        in_branch(matching(records, branch)[i], branch),
        exists|p: int| 0 <= p < records.len() && #[trigger] records[p] == matching(records, branch)[i],
    decreases records.len(),
{
    if records.len() > 0 {
        let rest = matching(records.drop_last(), branch);
        if i < rest.len() {
            lemma_matching_members(records.drop_last(), branch, i);
            let p = choose|p: int|
                0 <= p < records.drop_last().len() && #[trigger] records.drop_last()[p] == rest[i];
            assert(records[p] == matching(records, branch)[i]);
        } else {
            assert(records[records.len() - 1] == matching(records, branch)[i]);
        }
    }
}

/// The matching records keep the order of the set: of two matching
/// records, the one that comes first in the page order comes first in the
/// set.
pub proof fn lemma_matching_keeps_order(
    records: Seq<Deployment>,
    branch: Option<Seq<char>>,
    i: int,
    j: int,
)
    requires
        0 <= i < j < matching(records, branch).len(),
    ensures
        exists|p: int, q: int|
            0 <= p < q < records.len() && #[trigger] records[p] == matching(records, branch)[i]
                && #[trigger] records[q] == matching(records, branch)[j],
    decreases records.len(),
{
    if records.len() > 0 {
        let front = records.drop_last();
        let rest = matching(front, branch);
        let m = matching(records, branch);
        if j < rest.len() {
            lemma_matching_keeps_order(front, branch, i, j);
            let (p, q) = choose|p: int, q: int|
                0 <= p < q < front.len() && #[trigger] front[p] == rest[i] && #[trigger] front[q]
                    == rest[j];
            assert(records[p] == m[i] && records[q] == m[j]);
        } else {
            lemma_matching_members(front, branch, i);
            let p = choose|p: int| 0 <= p < front.len() && #[trigger] front[p] == rest[i];
            let q = records.len() - 1;
            assert(records[p] == m[i] && records[q] == m[j]);
        }
    }
}

/// Where no two records of the set share an id, no two matching records
/// do: a full pass, which reads the matching records themselves, reads no
/// id twice.
pub proof fn lemma_matching_keeps_ids_distinct(records: Seq<Deployment>, branch: Option<Seq<char>>)
    requires
        distinct_ids(records),
    ensures
        distinct_ids(matching(records, branch)),
    decreases records.len(),
{
    if records.len() > 0 {
        let front = records.drop_last();
        assert(distinct_ids(front)) by {
            assert forall|i: int, j: int| 0 <= i < j < front.len() implies (#[trigger] front[i]).id@
                != (#[trigger] front[j]).id@ by {
                assert(front[i] == records[i] && front[j] == records[j]);
            }
        }
        lemma_matching_keeps_ids_distinct(front, branch);
        let rest = matching(front, branch);
        let m = matching(records, branch);
        assert forall|i: int, j: int| 0 <= i < j < m.len() implies (#[trigger] m[i]).id@ != (
        #[trigger] m[j]).id@ by {
            if j < rest.len() {
                assert(m[i] == rest[i] && m[j] == rest[j]);
            } else {
                lemma_matching_members(front, branch, i);
                let p = choose|p: int| 0 <= p < front.len() && #[trigger] front[p] == rest[i];
                assert(records[p] == rest[i]);
                assert(m[j] == records[records.len() - 1]);
            }
        }
    }
}

/// Records that join the set at its end join the matching records at their
/// end: the matching records of the grown set are those of the set as it
/// was, followed by those of the newcomers.
pub proof fn lemma_matching_of_grown_set(
    records: Seq<Deployment>,
    newcomers: Seq<Deployment>,
    branch: Option<Seq<char>>,
)
    ensures
        matching(records + newcomers, branch) == matching(records, branch) + matching(
            newcomers,
            branch,
        ),
    decreases newcomers.len(),
{
    if newcomers.len() == 0 {
        assert(records + newcomers =~= records);
        assert(matching(records, branch) + matching(newcomers, branch) =~= matching(
            records,
            branch,
        ));
    } else {
        lemma_matching_of_grown_set(records, newcomers.drop_last(), branch);
        assert((records + newcomers).drop_last() =~= records + newcomers.drop_last());
        assert((records + newcomers).last() == newcomers.last());
        assert(matching(records + newcomers, branch) =~= matching(records, branch) + matching(
            newcomers,
            branch,
        ));
    }
}

/// A page that was full stays as it was when records join the set at its
/// end: a pass that goes on with a cursor issued before reads no record a
/// second time.
pub proof fn lemma_full_page_survives_growth(
    records: Seq<Deployment>,
    newcomers: Seq<Deployment>,
    branch: Option<Seq<char>>,
    start: nat,
    limit: nat,
)
    requires
        start + limit <= matching(records, branch).len(),
    ensures
        page_at(matching(records + newcomers, branch), start, limit) == page_at(
            matching(records, branch),
            start,
            limit,
        ),
{
    lemma_matching_of_grown_set(records, newcomers, branch);
    assert(page_at(matching(records + newcomers, branch), start, limit) =~= page_at(
        matching(records, branch),
        start,
        limit,
    ));
}

} // verus!
