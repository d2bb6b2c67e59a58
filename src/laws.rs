use vstd::prelude::*;

use crate::handlers::{later, merged};
use crate::models::{GuideView, UpdateGuideRequest};
use crate::store::{has_id, ids_unique, index_of, lemma_index_of_unique, lookup};

verus! {

/// The identities of a sequence of guides, in order.
pub open spec fn ids_of(s: Seq<GuideView>) -> Seq<u128> {
    s.map_values(|g: GuideView| g.id)
}

/// A guide stored by a create is found again, unchanged, under the identity
/// that the create gave it.
pub proof fn lemma_create_then_get(before: Seq<GuideView>, g: GuideView)
    requires
        ids_unique(before),
        !has_id(before, g.id),
    ensures
        ids_unique(before.push(g)),
        lookup(before.push(g), g.id) == Some(g),
{
    let after = before.push(g);
    assert forall|i: int, j: int| 0 <= i < j < after.len() implies #[trigger] after[i].id
        != #[trigger] after[j].id by {
        if j == before.len() {
            assert(before[i].id != g.id);
        } else {
            assert(before[i].id != before[j].id);
        }
    }
    lemma_index_of_unique(after, g.id, before.len() as int);
}

/// A collection of N guides with unique identities holds N distinct
/// identities.
pub proof fn lemma_distinct_identities(s: Seq<GuideView>)
    requires
        ids_unique(s),
    ensures
        ids_of(s).to_set().len() == s.len(),
{
    let ids = ids_of(s);
    assert forall|i: int, j: int|
        0 <= i < ids.len() && 0 <= j < ids.len() && i != j implies ids[i] != ids[j] by {
        if i < j {
            assert(s[i].id != s[j].id);
        } else {
            assert(s[j].id != s[i].id);
        }
    }
    ids.unique_seq_to_set();
}

/// An update that carries only a title changes the title and the update
/// time, and leaves the identity, image, tags, content and creation time.
pub proof fn lemma_title_only_update(current: GuideView, req: UpdateGuideRequest, now: i64)
    requires
        req.title is Some,
        req.main_image is None,
        req.tags is None,
        req.content is None,
    ensures
        ({
            let r = merged(current, req, now);
            &&& r.title == req.title.unwrap()@
            &&& r.id == current.id
            &&& r.main_image == current.main_image
            &&& r.tags == current.tags
            &&& r.content == current.content
            &&& r.created_at == current.created_at
            &&& r.updated_at == later(now, later(current.updated_at, current.created_at))
            &&& r.updated_at >= current.updated_at
        }),
{
}

/// Identities handed out by successive creates, each absent from the
/// collection when it was made, differ from one another and from every
/// identity stored before the first of them.
pub proof fn lemma_creates_distinct(s: Seq<GuideView>, gs: Seq<GuideView>)
    requires
        forall|k: int| 0 <= k < gs.len() ==> !has_id(s + gs.subrange(0, k), #[trigger] gs[k].id),
    ensures
        forall|i: int, j: int| 0 <= i < j < gs.len() ==> #[trigger] gs[i].id != #[trigger] gs[j].id,
        forall|i: int| 0 <= i < gs.len() ==> !has_id(s, #[trigger] gs[i].id),
{
    assert forall|i: int, j: int| 0 <= i < j < gs.len() implies #[trigger] gs[i].id
        != #[trigger] gs[j].id by {
        let before = s + gs.subrange(0, j);
        assert(!has_id(before, gs[j].id));
        assert(before[s.len() + i] == gs[i]);
    }
    assert forall|i: int| 0 <= i < gs.len() implies !has_id(s, #[trigger] gs[i].id) by {
        let before = s + gs.subrange(0, i);
        assert(!has_id(before, gs[i].id));
        if has_id(s, gs[i].id) {
            let m = choose|m: int| 0 <= m < s.len() && #[trigger] s[m].id == gs[i].id;
            assert(before[m] == s[m]);
        }
    }
}

/// After the guide with identity `id` is deleted, no guide has that identity:
/// a lookup finds nothing, and a second delete fails.
pub proof fn lemma_delete_then_get(before: Seq<GuideView>, id: u128)
    requires
        ids_unique(before),
        has_id(before, id),
    ensures
        !has_id(before.remove(index_of(before, id)), id),
        lookup(before.remove(index_of(before, id)), id) is None,
{
    let k = index_of(before, id);
    let after = before.remove(k);
    if has_id(after, id) {
        let j = choose|j: int| 0 <= j < after.len() && #[trigger] after[j].id == id;
        if j < k {
            assert(before[j].id != before[k].id);
        } else {
            assert(before[k].id != before[j + 1].id);
        }
    }
}

/// What one successful repository operation did to the collection.
pub enum Effect {
    /// A guide was created.
    Insert(GuideView),
    /// The guide with this identity was replaced by this one.
    Replace(u128, GuideView),
    /// The guide with this identity was deleted.
    Remove(u128),
}

/// The operation could succeed on collection `s`, as its contract says.
pub open spec fn allowed(s: Seq<GuideView>, e: Effect) -> bool {
    match e {
        Effect::Insert(g) => !has_id(s, g.id),
        Effect::Replace(id, g) => has_id(s, id) && g.id == id,
        Effect::Remove(id) => has_id(s, id),
    }
}

/// The collection after the operation, as its contract says.
pub open spec fn apply(s: Seq<GuideView>, e: Effect) -> Seq<GuideView> {
    match e {
        Effect::Insert(g) => s.push(g),
        Effect::Replace(id, g) => s.update(index_of(s, id), g),
        Effect::Remove(id) => s.remove(index_of(s, id)),
    }
}

/// Every operation of the sequence could succeed where it came.
pub open spec fn run_allowed(s: Seq<GuideView>, es: Seq<Effect>) -> bool
    decreases es.len(),
{
    if es.len() == 0 {
        true
    } else {
        run_allowed(s, es.drop_last()) && allowed(run(s, es.drop_last()), es.last())
    }
}

/// The collection after the operations, one after another.
pub open spec fn run(s: Seq<GuideView>, es: Seq<Effect>) -> Seq<GuideView>
    decreases es.len(),
{
    if es.len() == 0 {
        s
    } else {
        apply(run(s, es.drop_last()), es.last())
    }
}

/// How many of the operations are creates.
pub open spec fn creates(es: Seq<Effect>) -> nat
    decreases es.len(),
{
    if es.len() == 0 {
        0
    } else {
        creates(es.drop_last()) + if es.last() is Insert {
            1nat
        } else {
            0nat
        }
    }
}

/// How many of the operations are deletes.
pub open spec fn deletes(es: Seq<Effect>) -> nat
    decreases es.len(),
{
    if es.len() == 0 {
        0
    } else {
        deletes(es.drop_last()) + if es.last() is Remove {
            1nat
        } else {
            0nat
        }
    }
}

/// Whatever order the successful operations took under the lock, identities
/// stay unique, and the collection ends with as many guides as it started
/// with, plus the creates, minus the deletes.
pub proof fn lemma_run_counts(s: Seq<GuideView>, es: Seq<Effect>)
    requires
        ids_unique(s),
        run_allowed(s, es),
    ensures
        ids_unique(run(s, es)),
        run(s, es).len() + deletes(es) == s.len() + creates(es),
    decreases es.len(),
{
    if es.len() > 0 {
        let init = es.drop_last();
        let e = es.last();
        lemma_run_counts(s, init);
        let before = run(s, init);
        match e {
            Effect::Insert(g) => {
                lemma_create_then_get(before, g);
            },
            Effect::Replace(id, g) => {
                let k = index_of(before, id);
                let after = before.update(k, g);
                assert forall|i: int, j: int| 0 <= i < j < after.len() implies #[trigger] after[i].id
                    != #[trigger] after[j].id by {
                    assert(before[i].id != before[j].id);
                }
            },
            Effect::Remove(id) => {
                let k = index_of(before, id);
                let after = before.remove(k);
                assert forall|a: int, b: int| 0 <= a < b < after.len() implies #[trigger] after[a].id
                    != #[trigger] after[b].id by {
                    if a < k {
                        if b < k {
                            assert(before[a].id != before[b].id);
                        } else {
                            assert(before[a].id != before[b + 1].id);
                        }
                    } else {
                        assert(before[a + 1].id != before[b + 1].id);
                    }
                }
            },
        }
    }
}


/// No operation of the run removes guide `id`, and each replacement of it
/// keeps its creation time and does not move its update time back.
pub open spec fn keeps_record(s: Seq<GuideView>, es: Seq<Effect>, id: u128) -> bool
    decreases es.len(),
{
    if es.len() == 0 {
        true
    } else {
        let cur = run(s, es.drop_last());
        let old_g = cur[index_of(cur, id)];
        &&& keeps_record(s, es.drop_last(), id)
        &&& match es.last() {
            Effect::Remove(x) => x != id,
            Effect::Replace(x, h) => x == id ==> h.created_at == old_g.created_at && h.updated_at
                >= old_g.updated_at,
            Effect::Insert(_) => true,
        }
    }
}

/// A created guide stays findable through any run of operations that does not
/// delete it and whose updates of it follow the merge rule: its identity and
/// creation time are kept, and its update time never goes back.
pub proof fn lemma_record_kept(s: Seq<GuideView>, es: Seq<Effect>, id: u128)
    requires
        ids_unique(s),
        run_allowed(s, es),
        has_id(s, id),
        keeps_record(s, es, id),
    ensures
        has_id(run(s, es), id),
        lookup(run(s, es), id) matches Some(r) && r.id == id && r.created_at == s[index_of(
            s,
            id,
        )].created_at && r.updated_at >= s[index_of(s, id)].updated_at,
    decreases es.len(),
{
    if es.len() == 0 {
        let k = index_of(s, id);
        lemma_index_of_unique(s, id, k);
    } else {
        let init = es.drop_last();
        lemma_record_kept(s, init, id);
        lemma_run_counts(s, init);
        lemma_run_counts(s, es);
        let cur = run(s, init);
        let next = run(s, es);
        let k = index_of(cur, id);
        lemma_index_of_unique(cur, id, k);
        match es.last() {
            Effect::Insert(g) => {
                assert(next[k] == cur[k]);
                lemma_index_of_unique(next, id, k);
            },
            Effect::Replace(x, h) => {
                let kx = index_of(cur, x);
                if x == id {
                    lemma_index_of_unique(next, id, k);
                } else {
                    lemma_index_of_unique(cur, x, kx);
                    assert(kx != k);
                    assert(next[k] == cur[k]);
                    lemma_index_of_unique(next, id, k);
                }
            },
            Effect::Remove(x) => {
                let kx = index_of(cur, x);
                lemma_index_of_unique(cur, x, kx);
                assert(kx != k);
                if k < kx {
                    assert(next[k] == cur[k]);
                    lemma_index_of_unique(next, id, k);
                } else {
                    assert(next[k - 1] == cur[k]);
                    lemma_index_of_unique(next, id, k - 1);
                }
            },
        }
    }
}

} // verus!
