use vstd::prelude::*;

use crate::error::Error;
use crate::models::{
    clone_sections, clone_texts, section_views, texts, CreateGuideRequest, Guide, GuideView,
    UpdateGuideRequest,
};
use crate::outside::now_micros;
use crate::store::{has_id, index_of, lookup, times_ordered, Store};

verus! {

/// The largest request body accepted, in bytes.
pub const BODY_LIMIT: usize = 1024 * 16;

/// Accepts a request body of `len` bytes; a larger one is `InvalidInput`.
pub fn check_body_len(len: usize) -> (r: Result<(), Error>)
    ensures
        r is Ok <==> len <= BODY_LIMIT,
        r matches Err(e) ==> e is InvalidInput,
{
    if len > BODY_LIMIT {
        Err(Error::InvalidInput(String::from_str("request body is too large")))
    } else {
        Ok(())
    }
}

/// The guide that a create request describes. Its identity and times are
/// left at zero: the store assigns the real ones.
pub fn guide_from_request(req: CreateGuideRequest) -> (r: Guide)
    ensures
        r.id == 0,
        r.title@ == req.title@,
        r.main_image@ == req.main_image@,
        texts(r.tags@) == texts(req.tags@),
        section_views(r.content@) == section_views(req.content@),
        r.created_at == 0,
        r.updated_at == 0,
{
    Guide {
        id: 0,
        title: req.title,
        main_image: req.main_image,
        tags: req.tags,
        content: req.content,
        created_at: 0,
        updated_at: 0,
    }
}

/// The later of two instants.
pub open spec fn later(a: i64, b: i64) -> i64 {
    if a < b {
        b
    } else {
        a
    }
}

/// What `current` becomes under `req` at time `now`: each field that the
/// request carries replaces the current one, the others stay.
pub open spec fn merged(current: GuideView, req: UpdateGuideRequest, now: i64) -> GuideView {
    GuideView {
        id: current.id,
        title: match req.title {
            Some(t) => t@,
            None => current.title,
        },
        main_image: match req.main_image {
            Some(m) => m@,
            None => current.main_image,
        },
        tags: match req.tags {
            Some(t) => texts(t@),
            None => current.tags,
        },
        content: match req.content {
            Some(c) => section_views(c@),
            None => current.content,
        },
        created_at: current.created_at,
        updated_at: later(now, later(current.updated_at, current.created_at)),
    }
}

/// Applies an update request to `current` at time `now`. The identity and the
/// creation time are kept; the update time becomes `now`, but never falls
/// before the creation time nor before the previous update time.
pub fn merge_update(current: &Guide, req: UpdateGuideRequest, now: i64) -> (r: Guide)
    ensures
        r@ == merged(current@, req, now),
{
    let ghost req0 = req;
    let title = match req.title {
        Some(t) => t,
        None => current.title.clone(),
    };
    let main_image = match req.main_image {
        Some(m) => m,
        None => current.main_image.clone(),
    };
    let tags = match req.tags {
        Some(t) => t,
        None => clone_texts(&current.tags),
    };
    let content = match req.content {
        Some(c) => c,
        None => clone_sections(&current.content),
    };
    let floor = if current.updated_at < current.created_at {
        current.created_at
    } else {
        current.updated_at
    };
    let updated_at = if now < floor {
        floor
    } else {
        now
    };
    Guide {
        id: current.id,
        title,
        main_image,
        tags,
        content,
        created_at: current.created_at,
        updated_at,
    }
}

/// Handles a create request whose body was `body_len` bytes long. An oversized
/// body is `InvalidInput` and leaves the store as it was; otherwise the guide is
/// stamped with the current time and stored under a fresh identity.
pub fn create_guide(store: &mut Store, body_len: usize, req: CreateGuideRequest) -> (r: Result<
    Guide,
    Error,
>)
    requires
        old(store).wf(),
    ensures
        final(store).wf(),
        body_len > BODY_LIMIT ==> (r matches Err(e) && e is InvalidInput),
        r is Err ==> final(store)@ == old(store)@,
        r matches Ok(g) ==> {
            &&& body_len <= BODY_LIMIT
            &&& !has_id(old(store)@, g.id)
            &&& final(store)@ == old(store)@.push(g@)
            &&& g.title@ == req.title@
            &&& g.main_image@ == req.main_image@
            &&& texts(g.tags@) == texts(req.tags@)
            &&& section_views(g.content@) == section_views(req.content@)
            &&& g.created_at == g.updated_at
        },
        body_len <= BODY_LIMIT && old(store)@.len() == 0 ==> r is Ok,
        times_ordered(old(store)@) ==> times_ordered(final(store)@),
        r matches Err(e) ==> (body_len > BODY_LIMIT && e is InvalidInput) || (body_len
            <= BODY_LIMIT && e is InternalServerError),
{
    check_body_len(body_len)?;
    let guide = guide_from_request(req);
    let r = store.create_guide(guide);
    proof {
        if r is Ok {
            lemma_push_times_ordered(old(store)@, final(store)@.last());
            assert(old(store)@.push(final(store)@.last()) == final(store)@);
        }
    }
    r
}

/// Appending a guide updated no earlier than created keeps the times ordered.
pub proof fn lemma_push_times_ordered(s: Seq<GuideView>, g: GuideView)
    requires
        g.created_at <= g.updated_at,
    ensures
        times_ordered(s) ==> times_ordered(s.push(g)),
{
    if times_ordered(s) {
        assert forall|i: int| 0 <= i < s.push(g).len() implies #[trigger] s.push(g)[i].created_at
            <= s.push(g)[i].updated_at by {
            if i < s.len() {
                assert(s[i].created_at <= s[i].updated_at);
            }
        }
    }
}

/// Every guide of the store, in order of insertion.
pub fn get_guides(store: &Store) -> (r: Vec<Guide>)
    ensures
        r@.map_values(|g: Guide| g@) == store@,
{
    store.get_guides()
}

/// The guide with identity `id`; `GuideNotFound` when there is none.
pub fn get_guide(store: &Store, id: u128) -> (r: Result<Guide, Error>)
    requires
        store.wf(),
    ensures
        has_id(store@, id) <==> r is Ok,
        r matches Ok(g) ==> lookup(store@, id) == Some(g@),
        r matches Err(e) ==> e is GuideNotFound,
{
    store.get_guide(id)
}

/// Handles an update request of `body_len` bytes for the guide `id`: the
/// request's fields are merged into the current guide at time `now`, which is
/// then stored whole. An oversized body is `InvalidInput`, an unknown identity
/// `GuideNotFound`; either way the store is left as it was.
pub fn update_guide_at(
    store: &mut Store,
    id: u128,
    body_len: usize,
    req: UpdateGuideRequest,
    now: i64,
) -> (r: Result<Guide, Error>)
    requires
        old(store).wf(),
    ensures
        final(store).wf(),
        r is Ok <==> body_len <= BODY_LIMIT && has_id(old(store)@, id),
        times_ordered(old(store)@) ==> times_ordered(final(store)@),
        r matches Err(e) ==> final(store)@ == old(store)@ && (if body_len > BODY_LIMIT {
            e is InvalidInput
        } else {
            e is GuideNotFound
        }),
        r matches Ok(g) ==> {
            let current = old(store)@[index_of(old(store)@, id)];
            &&& g@ == merged(current, req, now)
            &&& g.created_at == current.created_at
            &&& g.updated_at >= current.updated_at
            &&& final(store)@ == old(store)@.update(index_of(old(store)@, id), g@)
        },
{
    check_body_len(body_len)?;
    let current = store.get_guide(id)?;
    let updated = merge_update(&current, req, now);
    let r = store.update_guide(id, updated);
    proof {
        if r is Ok {
            assert(has_id(old(store)@, id));
            let s = old(store)@;
            let k = index_of(s, id);
            assert(final(store)@ == s.update(k, final(store)@[k]));
            assert forall|i: int| 0 <= i < final(store)@.len() && times_ordered(s) implies
                #[trigger] final(store)@[i].created_at <= final(store)@[i].updated_at by {
                if i != k {
                    assert(s[i].created_at <= s[i].updated_at);
                }
            }
        }
    }
    r
}

/// `update_guide_at` at the current time.
pub fn update_guide(store: &mut Store, id: u128, body_len: usize, req: UpdateGuideRequest) -> (r:
    Result<Guide, Error>)
    requires
        old(store).wf(),
    ensures
        final(store).wf(),
        r is Ok <==> body_len <= BODY_LIMIT && has_id(old(store)@, id),
        times_ordered(old(store)@) ==> times_ordered(final(store)@),
        r matches Err(e) ==> final(store)@ == old(store)@ && (if body_len > BODY_LIMIT {
            e is InvalidInput
        } else {
            e is GuideNotFound
        }),
        r matches Ok(g) ==> {
            let current = old(store)@[index_of(old(store)@, id)];
            &&& exists|now: i64| g@ == merged(current, req, now)
            &&& g.created_at == current.created_at
            &&& g.updated_at >= current.updated_at
            &&& final(store)@ == old(store)@.update(index_of(old(store)@, id), g@)
        },
{
    let now = now_micros();
    update_guide_at(store, id, body_len, req, now)
}

/// Removes the guide with identity `id`; `GuideNotFound` when there is none.
pub fn delete_guide(store: &mut Store, id: u128) -> (r: Result<(), Error>)
    requires
        old(store).wf(),
    ensures
        final(store).wf(),
        has_id(old(store)@, id) <==> r is Ok,
        r is Ok ==> final(store)@ == old(store)@.remove(index_of(old(store)@, id)),
        r matches Err(e) ==> e is GuideNotFound && final(store)@ == old(store)@,
{
    store.delete_guide(id)
}

} // verus!
