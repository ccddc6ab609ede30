//! Tags as exclusive labels: within one environment a tag points at no more
//! than one deployment, and moving it detaches it from the prior holder.

use vstd::prelude::*;
use crate::model::{later, Deployment, Timestamp};

verus! {

/// The texts of a list of tags, in order.
pub open spec fn texts(tags: Seq<String>) -> Seq<Seq<char>> {
    Seq::new(tags.len(), |i: int| tags[i]@)
}

/// Whether the tag is among the texts.
pub open spec fn among(tags: Seq<String>, tag: Seq<char>) -> bool {
    exists|i: int| 0 <= i < tags.len() && (#[trigger] tags[i])@ == tag
}

/// Whether the record carries the tag.
pub open spec fn holds_tag(d: Deployment, tag: Seq<char>) -> bool {
    among(d.deployment_tags@, tag)
}

/// The texts of the tags that are left when every occurrence of `tag` is
/// taken out, in order.
pub open spec fn texts_without(tags: Seq<String>, tag: Seq<char>) -> Seq<Seq<char>>
    decreases tags.len(),
{
    if tags.len() == 0 {
        Seq::<Seq<char>>::empty()
    } else if tags.last()@ == tag {
        texts_without(tags.drop_last(), tag)
    } else {
        texts_without(tags.drop_last(), tag).push(tags.last()@)
    }
}

/// Two records of the same environment: the scope within which a tag is
/// exclusive.
pub open spec fn same_scope(a: Deployment, b: Deployment) -> bool {
    a.environment_id@ == b.environment_id@
}

/// `after` differs from `before` in its tags and its time of update at most.
pub open spec fn same_but_tags(after: Deployment, before: Deployment) -> bool {
    after == (Deployment {
        deployment_tags: after.deployment_tags,
        updated_at: after.updated_at,
        ..before
    })
}

/// What attaching the tag at time `now` makes of the record it is applied
/// to: a record that holds it already stays as it is; any other gets the
/// tag as its last one.
pub open spec fn tag_attached(before: Deployment, tag: Seq<char>, now: Timestamp, after: Deployment)
    -> bool {
    &&& same_but_tags(after, before)
    &&& if holds_tag(before, tag) {
        texts(after.deployment_tags@) == texts(before.deployment_tags@) && after.updated_at
            == before.updated_at
    } else {
        texts(after.deployment_tags@) == texts(before.deployment_tags@).push(tag)
            && after.updated_at == later(before.updated_at, now)
    }
}

/// What moving the tag to `target` at time `now` makes of any other record:
/// a holder of the tag in the target's environment loses it; every other
/// record stays as it is.
pub open spec fn tag_detached(
    before: Deployment,
    target: Deployment,
    tag: Seq<char>,
    now: Timestamp,
    after: Deployment,
) -> bool {
    if same_scope(before, target) && holds_tag(before, tag) {
        &&& same_but_tags(after, before)
        &&& texts(after.deployment_tags@) == texts_without(before.deployment_tags@, tag)
        &&& after.updated_at == later(before.updated_at, now)
    } else {
        after == before
    }
}

/// The record set after the tag was moved to the record at `k`.
pub open spec fn tag_moved(
    before: Seq<Deployment>,
    after: Seq<Deployment>,
    k: int,
    tag: Seq<char>,
    now: Timestamp,
) -> bool {
    &&& 0 <= k < before.len()
    &&& before.len() == after.len()
    &&& tag_attached(before[k], tag, now, after[k])
    &&& forall|j: int|
        0 <= j < before.len() && j != k ==> tag_detached(
            #[trigger] before[j],
            before[k],
            tag,
            now,
            after[j],
        )
}

/// Whether the record at `j` is another record of the environment of the
/// record at `k` and holds the tag.
pub open spec fn other_holder(records: Seq<Deployment>, k: int, tag: Seq<char>, j: int) -> bool {
    &&& 0 <= j < records.len()
    &&& 0 <= k < records.len()
    &&& j != k
    &&& same_scope(records[j], records[k])
    &&& holds_tag(records[j], tag)
}

/// Whether the record at `j` is the first other holder of the tag: the one
/// that a move of the tag to `k` reports.
pub open spec fn is_prior_holder(records: Seq<Deployment>, k: int, tag: Seq<char>, j: int) -> bool {
    &&& other_holder(records, k, tag, j)
    &&& forall|i: int| 0 <= i < j ==> !#[trigger] other_holder(records, k, tag, i)
}

/// Whether the record at `k` holds the tag and no other record of its
/// environment does.
pub open spec fn sole_holder(records: Seq<Deployment>, k: int, tag: Seq<char>) -> bool {
    &&& 0 <= k < records.len()
    &&& holds_tag(records[k], tag)
    &&& forall|j: int| 0 <= j < records.len() ==> !#[trigger] other_holder(records, k, tag, j)
}

/// Whether the record carries the tag.
pub fn carries_tag(d: &Deployment, tag: &String) -> (b: bool)
    ensures
        b == holds_tag(*d, tag@),
{
    let mut i: usize = 0;
    while i < d.deployment_tags.len()
        invariant
            0 <= i <= d.deployment_tags.len(),
            forall|j: int| 0 <= j < i ==> (#[trigger] d.deployment_tags@[j])@ != tag@,
        decreases d.deployment_tags.len() - i,
    {
        if d.deployment_tags[i] == *tag {
            return true;
        }
        i = i + 1;
    }
    false
}

/// A copy of the tags without any occurrence of `tag`, the others in order.
pub fn strip_tag(tags: &Vec<String>, tag: &String) -> (r: Vec<String>)
    ensures
        texts(r@) == texts_without(tags@, tag@),
{
    let mut r: Vec<String> = Vec::new();
    let mut i: usize = 0;
    proof {
        assert(tags@.take(0) =~= Seq::<String>::empty());
        assert(texts(r@) =~= texts_without(tags@.take(0), tag@));
    }
    while i < tags.len()
        invariant
            0 <= i <= tags.len(),
            texts(r@) == texts_without(tags@.take(i as int), tag@),
        decreases tags.len() - i,
    {
        proof {
            assert(tags@.take(i + 1).drop_last() =~= tags@.take(i as int));
            assert(tags@.take(i + 1).last() == tags@[i as int]);
        }
        if tags[i] != *tag {
            let ghost had = r@;
            r.push(tags[i].clone());
            proof {
                assert(texts(r@) =~= texts(had).push(tags@[i as int]@));
            }
        }
        i = i + 1;
    }
    proof {
        assert(tags@.take(tags.len() as int) =~= tags@);
    }
    r
}

/// What is left when a tag is taken out holds the tag no more, and holds
/// every other tag that was there.
pub proof fn lemma_without_drops_tag(tags: Seq<String>, tag: Seq<char>)
    ensures
        !texts_without(tags, tag).contains(tag),
        forall|t: Seq<char>|
            t != tag ==> (#[trigger] texts_without(tags, tag).contains(t) <==> among(tags, t)),
    decreases tags.len(),
{
    if tags.len() > 0 {
        lemma_without_drops_tag(tags.drop_last(), tag);
        let rest = texts_without(tags.drop_last(), tag);
        let all = texts_without(tags, tag);
        assert forall|t: Seq<char>| t != tag implies (#[trigger] all.contains(t) <==> among(
            tags,
            t,
        )) by {
            if all.contains(t) {
                let i = choose|i: int| 0 <= i < all.len() && all[i] == t;
                if i < rest.len() {
                    assert(rest[i] == t);
                    assert(rest.contains(t));
                    let j = choose|j: int|
                        0 <= j < tags.drop_last().len() && (#[trigger] tags.drop_last()[j])@ == t;
                    assert(tags[j]@ == t);
                } else {
                    assert(tags[tags.len() - 1]@ == t);
                }
            }
            if among(tags, t) {
                let j = choose|j: int| 0 <= j < tags.len() && (#[trigger] tags[j])@ == t;
                if j < tags.len() - 1 {
                    assert(tags.drop_last()[j]@ == t);
                    assert(among(tags.drop_last(), t));
                    assert(rest.contains(t));
                    let i = choose|i: int| 0 <= i < rest.len() && rest[i] == t;
                    assert(all[i] == t);
                } else {
                    assert(all[all.len() - 1] == t);
                }
            }
        }
        if all.contains(tag) {
            let i = choose|i: int| 0 <= i < all.len() && all[i] == tag;
            if i < rest.len() {
                assert(rest[i] == tag);
                assert(rest.contains(tag));
            }
        }
    } else {
        assert forall|t: Seq<char>| t != tag implies (#[trigger] texts_without(tags, tag).contains(
            t,
        ) <==> among(tags, t)) by {}
    }
}

/// A list of tags holds a tag exactly if its texts contain it.
pub proof fn lemma_among_texts(tags: Seq<String>, tag: Seq<char>)
    ensures
        among(tags, tag) <==> texts(tags).contains(tag),
{
    if among(tags, tag) {
        let i = choose|i: int| 0 <= i < tags.len() && (#[trigger] tags[i])@ == tag;
        assert(texts(tags)[i] == tag);
    }
    if texts(tags).contains(tag) {
        let i = choose|i: int| 0 <= i < texts(tags).len() && texts(tags)[i] == tag;
        assert(tags[i]@ == tag);
    }
}

/// After a tag was moved to a record, that record is its sole holder
/// within its environment.
pub proof fn lemma_moved_tag_has_sole_holder(
    before: Seq<Deployment>,
    after: Seq<Deployment>,
    k: int,
    tag: Seq<char>,
    now: Timestamp,
)
    requires
        tag_moved(before, after, k, tag, now),
    ensures
        sole_holder(after, k, tag),
{
    lemma_among_texts(before[k].deployment_tags@, tag);
    lemma_among_texts(after[k].deployment_tags@, tag);
    if !holds_tag(before[k], tag) {
        let t = texts(before[k].deployment_tags@).push(tag);
        assert(t[t.len() - 1] == tag);
    }
    assert forall|j: int| 0 <= j < after.len() implies !#[trigger] other_holder(
        after,
        k,
        tag,
        j,
    ) by {
        if j != k && same_scope(after[j], after[k]) {
            assert(tag_detached(before[j], before[k], tag, now, after[j]));
            if same_scope(before[j], before[k]) && holds_tag(before[j], tag) {
                lemma_without_drops_tag(before[j].deployment_tags@, tag);
                lemma_among_texts(after[j].deployment_tags@, tag);
            }
        }
    }
}

/// Of two moves of the same tag within one environment, one after the
/// other, the later one wins: its record is the sole holder, the record of
/// the earlier move holds the tag no more, and the later move finds the
/// earlier record as the prior holder.
pub proof fn lemma_later_move_wins(
    s0: Seq<Deployment>,
    s1: Seq<Deployment>,
    s2: Seq<Deployment>,
    a: int,
    b: int,
    tag: Seq<char>,
    t1: Timestamp,
    t2: Timestamp,
)
    requires
        tag_moved(s0, s1, a, tag, t1),
        tag_moved(s1, s2, b, tag, t2),
        a != b,
        same_scope(s0[a], s0[b]),
    ensures
        sole_holder(s2, b, tag),
        !holds_tag(s2[a], tag),
        is_prior_holder(s1, b, tag, a),
{
    lemma_moved_tag_has_sole_holder(s0, s1, a, tag, t1);
    lemma_moved_tag_has_sole_holder(s1, s2, b, tag, t2);
    assert(tag_detached(s0[b], s0[a], tag, t1, s1[b]));
    assert(same_scope(s1[a], s1[b]));
    assert(other_holder(s1, b, tag, a));
    assert forall|i: int| 0 <= i < a implies !#[trigger] other_holder(s1, b, tag, i) by {
        if other_holder(s1, b, tag, i) {
            assert(other_holder(s1, a, tag, i));
        }
    }
    assert(tag_detached(s1[a], s1[b], tag, t2, s2[a]));
    assert(same_scope(s2[a], s2[b]));
    assert(!other_holder(s2, b, tag, a));
}

/// Moving a tag to the record that holds it already, as a retried request
/// does, changes no record: not its tags, not its time of update, nor
/// anything else.
pub proof fn lemma_repeated_move_changes_nothing(
    s0: Seq<Deployment>,
    s1: Seq<Deployment>,
    s2: Seq<Deployment>,
    k: int,
    tag: Seq<char>,
    t1: Timestamp,
    t2: Timestamp,
)
    requires
        tag_moved(s0, s1, k, tag, t1),
        tag_moved(s1, s2, k, tag, t2),
    ensures
        s2.len() == s1.len(),
        forall|j: int|
            0 <= j < s1.len() ==> same_but_tags(#[trigger] s2[j], s1[j]) && s2[j].updated_at
                == s1[j].updated_at && texts(s2[j].deployment_tags@) == texts(
                s1[j].deployment_tags@,
            ),
{
    lemma_moved_tag_has_sole_holder(s0, s1, k, tag, t1);
    assert forall|j: int| 0 <= j < s1.len() implies same_but_tags(#[trigger] s2[j], s1[j])
        && s2[j].updated_at == s1[j].updated_at && texts(s2[j].deployment_tags@) == texts(
        s1[j].deployment_tags@,
    ) by {
        if j != k {
            assert(!other_holder(s1, k, tag, j));
            assert(tag_detached(s1[j], s1[k], tag, t2, s2[j]));
        }
    }
}

} // verus!
