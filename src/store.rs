use vstd::prelude::*;

use crate::error::Error;
use crate::models::{Guide, GuideView};
use crate::outside::{fresh_id, now_micros};

verus! {

/// No two guides of the sequence share an identity.
pub open spec fn ids_unique(s: Seq<GuideView>) -> bool {
    forall|i: int, j: int| 0 <= i < j < s.len() ==> #[trigger] s[i].id != #[trigger] s[j].id
}

/// Some guide of the sequence has identity `id`.
pub open spec fn has_id(s: Seq<GuideView>, id: u128) -> bool {
    exists|i: int| 0 <= i < s.len() && #[trigger] s[i].id == id
}

/// The position of the guide with identity `id` (meaningful when `has_id`).
pub open spec fn index_of(s: Seq<GuideView>, id: u128) -> int {
    choose|i: int| 0 <= i < s.len() && #[trigger] s[i].id == id
}

/// The guide with identity `id`, if there is one.
pub open spec fn lookup(s: Seq<GuideView>, id: u128) -> Option<GuideView> {
    if has_id(s, id) {
        Some(s[index_of(s, id)])
    } else {
        None
    }
}

/// `g` with its identity replaced by `id`.
pub open spec fn with_id(g: GuideView, id: u128) -> GuideView {
    GuideView { id, ..g }
}

/// `g` stored under identity `id`, created and updated at `now`.
pub open spec fn stamped(g: GuideView, id: u128, now: i64) -> GuideView {
    GuideView { id, created_at: now, updated_at: now, ..g }
}

/// Every guide of the sequence was updated no earlier than it was created.
pub open spec fn times_ordered(s: Seq<GuideView>) -> bool {
    forall|i: int| 0 <= i < s.len() ==> #[trigger] s[i].created_at <= s[i].updated_at
}

/// In a sequence of unique identities, the guide found for an identity is the
/// one at any position that holds it.
pub proof fn lemma_index_of_unique(s: Seq<GuideView>, id: u128, k: int)
    requires
        ids_unique(s),
        0 <= k < s.len(),
        s[k].id == id,
    ensures
        has_id(s, id),
        index_of(s, id) == k,
        lookup(s, id) == Some(s[k]),
{
    assert(has_id(s, id));
    let j = index_of(s, id);
    if j != k {
        if j < k {
            assert(s[j].id != s[k].id);
        } else {
            assert(s[k].id != s[j].id);
        }
    }
}

/// The in-memory collection of guides, in order of insertion.
pub struct Store {
    guides: Vec<Guide>,
}

impl View for Store {
    type V = Seq<GuideView>;

    closed spec fn view(&self) -> Seq<GuideView> {
        self.guides@.map_values(|g: Guide| g@)
    }
}

impl Store {
    /// Every guide of the store has an identity of its own.
    pub open spec fn wf(&self) -> bool {
        ids_unique(self@)
    }

    /// An empty store.
    pub fn new() -> (r: Store)
        ensures
            r.wf(),
            r@ == Seq::<GuideView>::empty(),
    {
        let r = Store { guides: Vec::new() };
        assert(r@ =~= Seq::<GuideView>::empty());
        r
    }

    /// Where the guide with identity `id` stands, if any.
    fn position(&self, id: u128) -> (r: Option<usize>)
        requires
            self.wf(),
        ensures
            r matches Some(i) ==> i < self@.len() && index_of(self@, id) == i && has_id(
                self@,
                id,
            ),
            r is None ==> !has_id(self@, id),
    {
        let mut i: usize = 0;
        while i < self.guides.len()
            invariant
                self.wf(),
                i <= self.guides@.len(),
                self@.len() == self.guides@.len(),
                forall|k: int| 0 <= k < i ==> #[trigger] self@[k].id != id,
            decreases self.guides@.len() - i,
        {
            assert(self@[i as int] == self.guides@[i as int]@);
            if self.guides[i].id == id {
                proof {
                    lemma_index_of_unique(self@, id, i as int);
                }
                return Some(i);
            }
            i = i + 1;
        }
        None
    }

    /// A snapshot of every guide, in order of insertion.
    pub fn get_guides(&self) -> (r: Vec<Guide>)
        ensures
            r@.map_values(|g: Guide| g@) == self@,
    {
        let mut r: Vec<Guide> = Vec::new();
        let mut i: usize = 0;
        while i < self.guides.len()
            invariant
                i <= self.guides@.len(),
                r@.map_values(|g: Guide| g@) == self@.subrange(0, i as int),
            decreases self.guides@.len() - i,
        {
            let g = self.guides[i].clone();
            let ghost before = r@;
            r.push(g);
            assert(r@.map_values(|g: Guide| g@) =~= before.map_values(|g: Guide| g@).push(g@));
            assert(self@.subrange(0, i + 1) =~= self@.subrange(0, i as int).push(self@[i as int]));
            i = i + 1;
        }
        assert(self@.subrange(0, self@.len() as int) =~= self@);
        r
    }

    /// The guide with identity `id`; `GuideNotFound` when there is none.
    pub fn get_guide(&self, id: u128) -> (r: Result<Guide, Error>)
        requires
            self.wf(),
        ensures
            has_id(self@, id) <==> r is Ok,
            r matches Ok(g) ==> lookup(self@, id) == Some(g@),
            r matches Err(e) ==> e is GuideNotFound,
    {
        match self.position(id) {
            Some(i) => Ok(self.guides[i].clone()),
            None => Err(Error::GuideNotFound),
        }
    }

    /// Adds `guide` under identity `id`, created and updated at `now`. Fails,
    /// changing nothing, when that identity is taken already.
    pub fn insert_with_id(&mut self, id: u128, now: i64, guide: Guide) -> (r: Result<Guide, Error>)
        requires
            old(self).wf(),
        ensures
            final(self).wf(),
            !has_id(old(self)@, id) <==> r is Ok,
            r matches Ok(g) ==> g@ == stamped(guide@, id, now) && final(self)@ == old(self)@.push(
                g@,
            ),
            r matches Err(e) ==> e is InternalServerError && final(self)@ == old(self)@,
    {
        if self.position(id).is_some() {
            return Err(Error::InternalServerError(String::from_str("identity already in use")));
        }
        let mut guide = guide;
        guide.id = id;
        guide.created_at = now;
        guide.updated_at = now;
        let stored = guide.clone();
        let ghost before = self.guides@;
        self.guides.push(stored);
        assert(self@ =~= before.map_values(|g: Guide| g@).push(guide@));
        proof {
            assert forall|i: int, j: int| 0 <= i < j < self@.len() implies #[trigger] self@[i].id
                != #[trigger] self@[j].id by {
                if j == self@.len() - 1 {
                    assert(old(self)@[i].id != id);
                }
            }
        }
        Ok(guide)
    }

    /// Adds `guide` under a freshly drawn random identity, created and updated
    /// at the current time, and returns what was stored; the identity that the
    /// caller put in `guide` is ignored. The draw comes from the outside: only
    /// when it hits an identity in use (so never on an empty store) does nothing
    /// change and an internal error come back.
    pub fn create_guide(&mut self, guide: Guide) -> (r: Result<Guide, Error>)
        requires
            old(self).wf(),
        ensures
            final(self).wf(),
            old(self)@.len() == 0 ==> r is Ok,
            r matches Ok(g) ==> {
                &&& !has_id(old(self)@, g.id)
                &&& g@ == stamped(guide@, g.id, g.created_at)
                &&& g.created_at == g.updated_at
                &&& final(self)@ == old(self)@.push(g@)
            },
            r matches Err(e) ==> e is InternalServerError && final(self)@ == old(self)@
                && old(self)@.len() > 0,
    {
        let id = fresh_id();
        let now = now_micros();
        self.insert_with_id(id, now, guide)
    }

    /// Replaces the whole guide with identity `id` by `update`, which keeps that
    /// identity. `GuideNotFound`, changing nothing, when there is no such guide.
    pub fn update_guide(&mut self, id: u128, update: Guide) -> (r: Result<Guide, Error>)
        requires
            old(self).wf(),
        ensures
            final(self).wf(),
            has_id(old(self)@, id) <==> r is Ok,
            r matches Ok(g) ==> g@ == with_id(update@, id) && final(self)@ == old(self)@.update(
                index_of(old(self)@, id),
                g@,
            ),
            r matches Err(e) ==> e is GuideNotFound && final(self)@ == old(self)@,
    {
        match self.position(id) {
            Some(i) => {
                let mut update = update;
                update.id = id;
                let stored = update.clone();
                let ghost before = self.guides@;
                self.guides.set(i, stored);
                assert(self@ =~= before.map_values(|g: Guide| g@).update(i as int, update@));
                proof {
                    assert forall|a: int, b: int| 0 <= a < b < self@.len() implies #[trigger] self@[a].id
                        != #[trigger] self@[b].id by {
                        assert(old(self)@[a].id != old(self)@[b].id);
                    }
                }
                Ok(update)
            },
            None => Err(Error::GuideNotFound),
        }
    }

    /// Removes the guide with identity `id`. `GuideNotFound`, changing nothing,
    /// when there is no such guide.
    pub fn delete_guide(&mut self, id: u128) -> (r: Result<(), Error>)
        requires
            old(self).wf(),
        ensures
            final(self).wf(),
            has_id(old(self)@, id) <==> r is Ok,
            r is Ok ==> final(self)@ == old(self)@.remove(index_of(old(self)@, id)),
            r matches Err(e) ==> e is GuideNotFound && final(self)@ == old(self)@,
    {
        match self.position(id) {
            Some(i) => {
                let ghost before = self.guides@;
                self.guides.remove(i);
                assert(self@ =~= before.map_values(|g: Guide| g@).remove(i as int));
                proof {
                    assert forall|a: int, b: int| 0 <= a < b < self@.len() implies #[trigger] self@[a].id
                        != #[trigger] self@[b].id by {
                        if a < i {
                            if b < i {
                                assert(old(self)@[a].id != old(self)@[b].id);
                            } else {
                                assert(old(self)@[a].id != old(self)@[b + 1].id);
                            }
                        } else {
                            assert(old(self)@[a + 1].id != old(self)@[b + 1].id);
                        }
                    }
                }
                Ok(())
            },
            None => Err(Error::GuideNotFound),
        }
    }
}

} // verus!
