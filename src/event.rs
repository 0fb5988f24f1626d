//! Event records and the decisions of the event repository.
//!
//! The caller makes the storage round-trips of each repository operation;
//! the functions here check what goes in and decide, from the answers, what
//! the operation returns.
use vstd::prelude::*;

use crate::error::{look_up, looked_up, settle, settled, storage_kind, Error, StorageFault};
use crate::patch::{nested_patch, patched, replace, replaced, Patch};

verus! {

/// A geographic coordinate, held as the bit pattern of its IEEE 754
/// single-precision value so that it is stored and compared bit for bit.
#[derive(Clone, Copy, Debug, PartialEq, Eq, Structural)]
pub struct Coordinate {
    pub bits: u32,
}

/// A stored event. `id` and `created_at` are assigned on insert; `edited_at`
/// is absent until the first update.
#[derive(Clone, Debug, PartialEq, Eq)]
pub struct Event {
    pub id: i64,
    pub title: String,
    pub description: Option<String>,
    pub color: Option<String>,
    pub start_date: i64,
    pub end_date: i64,
    pub location_lng: Option<Coordinate>,
    pub location_lat: Option<Coordinate>,
    pub created_at: i64,
    pub edited_at: Option<i64>,
}

/// The fields of a new event. `created_at` is assigned by `post`, never
/// taken from the client.
#[derive(Clone, Debug, PartialEq, Eq)]
pub struct PostEvent {
    pub title: String,
    pub description: Option<String>,
    pub color: Option<String>,
    pub start_date: i64,
    pub end_date: i64,
    pub location_lng: Option<Coordinate>,
    pub location_lat: Option<Coordinate>,
    pub created_at: i64,
}

/// A sparse update of an event. `None` on a non-nullable field leaves it as
/// it is; the nullable fields distinguish absent from null. The server-owned
/// fields (`id`, `created_at`, `edited_at`) cannot be written.
#[derive(Clone, Debug, PartialEq, Eq)]
pub struct PutEvent {
    pub title: Option<String>,
    pub description: Patch<String>,
    pub color: Patch<String>,
    pub start_date: Option<i64>,
    pub end_date: Option<i64>,
    pub location_lng: Patch<Coordinate>,
    pub location_lat: Patch<Coordinate>,
}

/// The error for an empty title.
pub open spec fn empty_title() -> Error {
    Error::EmptyField { field: "title" }
}

/// The row that storage holds after inserting `req` under the generated `id`.
pub open spec fn inserted(req: PostEvent, id: i64) -> Event {
    Event {
        id,
        title: req.title,
        description: req.description,
        color: req.color,
        start_date: req.start_date,
        end_date: req.end_date,
        location_lng: req.location_lng,
        location_lat: req.location_lat,
        created_at: req.created_at,
        edited_at: None,
    }
}

/// The state of `e` after `p` is merged into it at time `now`: each present
/// field overwrites, each absent one stays, and `edited_at` becomes `now`.
pub open spec fn merged(e: Event, p: PutEvent, now: i64) -> Event {
    Event {
        id: e.id,
        title: replaced(p.title, e.title),
        description: patched(p.description, e.description),
        color: patched(p.color, e.color),
        start_date: replaced(p.start_date, e.start_date),
        end_date: replaced(p.end_date, e.end_date),
        location_lng: patched(p.location_lng, e.location_lng),
        location_lat: patched(p.location_lat, e.location_lat),
        created_at: e.created_at,
        edited_at: Some(now),
    }
}

/// Whether a patch changes no field at all.
pub open spec fn is_empty_patch(p: PutEvent) -> bool {
    &&& p.title is None
    &&& p.description is Absent
    &&& p.color is Absent
    &&& p.start_date is None
    &&& p.end_date is None
    &&& p.location_lng is Absent
    &&& p.location_lat is Absent
}

/// The result of creating `req` at time `now`, as far as it is decided
/// before storage: the row to insert, stamped with `now`.
pub open spec fn post_checked(req: PostEvent, now: i64) -> Result<PostEvent, Error> {
    if req.title@.len() == 0 {
        Err(empty_title())
    } else {
        Ok(PostEvent { created_at: now, ..req })
    }
}

/// The result of updating the event found by the lookup `existing` with `p`.
pub open spec fn put_result(
    existing: Result<Option<Event>, StorageFault>,
    p: PutEvent,
    now: i64,
) -> Result<Event, Error> {
    if p.title matches Some(t) && t@.len() == 0 {
        Err(empty_title())
    } else {
        match looked_up(existing) {
            Ok(e) => Ok(merged(e, p, now)),
            Err(err) => Err(err),
        }
    }
}

/// The result of deleting by id, from the count of removed rows: no row
/// to delete is success too.
pub open spec fn delete_result(deleted: Result<usize, StorageFault>) -> Result<(), Error> {
    match deleted {
        Ok(_) | Err(StorageFault::NoRow) => Ok(()),
        Err(_) => Err(Error::StorageError),
    }
}

/// The row that a lookup by `id` finds in a table keyed by id.
pub open spec fn row_at(table: Map<i64, Event>, id: i64) -> Option<Event> {
    if table.contains_key(id) {
        Some(table[id])
    } else {
        None
    }
}

impl PutEvent {
    /// The patch that changes nothing but the edit time.
    pub open spec fn empty_spec() -> PutEvent {
        PutEvent {
            title: None,
            description: Patch::Absent,
            color: Patch::Absent,
            start_date: None,
            end_date: None,
            location_lng: Patch::Absent,
            location_lat: Patch::Absent,
        }
    }

    /// The patch that changes nothing but the edit time.
    pub fn empty() -> (r: PutEvent)
        ensures
            r == PutEvent::empty_spec(),
            is_empty_patch(r),
    {
        PutEvent {
            title: None,
            description: Patch::Absent,
            color: Patch::Absent,
            start_date: None,
            end_date: None,
            location_lng: Patch::Absent,
            location_lat: Patch::Absent,
        }
    }

    /// Merges this patch into the stored event `e` at time `now`.
    pub fn apply(self, e: Event, now: i64) -> (r: Event)
        ensures
            r == merged(e, self, now),
    {
        Event {
            id: e.id,
            title: replace(self.title, e.title),
            description: self.description.apply(e.description),
            color: self.color.apply(e.color),
            start_date: replace(self.start_date, e.start_date),
            end_date: replace(self.end_date, e.end_date),
            location_lng: self.location_lng.apply(e.location_lng),
            location_lat: self.location_lat.apply(e.location_lat),
            created_at: e.created_at,
            edited_at: Some(now),
        }
    }
}

/// Lists all events: the rows as storage returned them, or the classified
/// fault.
pub fn get_all(rows: Result<Vec<Event>, StorageFault>) -> (r: Result<Vec<Event>, Error>)
    ensures
        r == settled(rows),
{
    settle(rows)
}

/// Gets one event from the answer of the lookup by id: the row, `NotFound`
/// when there is none, or the classified fault.
pub fn get_by_id(row: Result<Option<Event>, StorageFault>) -> (r: Result<Event, Error>)
    ensures
        r == looked_up(row),
{
    look_up(row)
}

/// Checks a new event before it reaches storage (its title must not be
/// empty) and assigns `created_at = now`. On success the result is the row
/// to insert.
pub fn post(req: PostEvent, now: i64) -> (r: Result<PostEvent, Error>)
    ensures
        r == post_checked(req, now),
{
    if req.title.as_str().is_empty() {
        Err(Error::EmptyField { field: "title" })
    } else {
        Ok(PostEvent { created_at: now, ..req })
    }
}

/// Deletes by id: succeeds however many rows (zero or one) were removed.
pub fn delete_by_id(deleted: Result<usize, StorageFault>) -> (r: Result<(), Error>)
    ensures
        r == delete_result(deleted),
{
    match deleted {
        Ok(_) | Err(StorageFault::NoRow) => Ok(()),
        Err(_) => Err(Error::StorageError),
    }
}

/// Updates the event that the lookup `existing` found: an empty title is
/// refused, no row is `NotFound`, and otherwise the result is the stored
/// event with `patch` merged in and `edited_at` set to `now`. The result is
/// the full row to be written back.
pub fn put(existing: Result<Option<Event>, StorageFault>, patch: PutEvent, now: i64) -> (r:
    Result<Event, Error>)
    ensures
        r == put_result(existing, patch, now),
{
    let empty_title = match &patch.title {
        Some(t) => t.as_str().is_empty(),
        None => false,
    };
    if empty_title {
        return Err(Error::EmptyField { field: "title" });
    }
    match look_up(existing) {
        Ok(e) => Ok(patch.apply(e, now)),
        Err(err) => Err(err),
    }
}

/// Finishes an update once the merged row was written back: a write that
/// touched no row means the event was deleted meanwhile.
pub fn put_written(written: Result<usize, StorageFault>, row: Event) -> (r: Result<Event, Error>)
    ensures
        r == (match written {
            Ok(0) => Err(Error::NotFound),
            Ok(_) => Ok(row),
            Err(f) => Err(storage_kind(f)),
        }),
{
    match written {
        Ok(0) => Err(Error::NotFound),
        Ok(_) => Ok(row),
        Err(f) => Err(Error::from_storage(f)),
    }
}

/// Creating a valid event at time `now` and then getting it by the id that
/// storage gave it returns the input as sent, with that id, `created_at`
/// equal to `now` and no `edited_at`.
pub proof fn lemma_create_then_get(table: Map<i64, Event>, req: PostEvent, now: i64, id: i64)
    requires
        req.title@.len() > 0,
    ensures
        post_checked(req, now) is Ok,
        ({
            let row = post_checked(req, now)->Ok_0;
            let got = looked_up(
                Ok::<Option<Event>, StorageFault>(row_at(table.insert(id, inserted(row, id)), id)),
            );
            &&& got is Ok
            &&& got->Ok_0.id == id
            &&& got->Ok_0.title == req.title
            &&& got->Ok_0.description == req.description
            &&& got->Ok_0.color == req.color
            &&& got->Ok_0.start_date == req.start_date
            &&& got->Ok_0.end_date == req.end_date
            &&& got->Ok_0.location_lng == req.location_lng
            &&& got->Ok_0.location_lat == req.location_lat
            &&& got->Ok_0.created_at == now
            &&& got->Ok_0.edited_at is None
        }),
{
}

/// Updating an existing event with an empty patch changes nothing but
/// `edited_at`, which becomes the time of the update; when the clock has
/// moved on since the event was created and last edited, the new stamp is
/// later than both.
pub proof fn lemma_empty_update_only_stamps(e: Event, p: PutEvent, now: i64)
    requires
        is_empty_patch(p),
    ensures
        put_result(Ok(Some(e)), p, now) == Ok::<Event, Error>(
            Event { edited_at: Some(now), ..e },
        ),
        now > e.created_at && (e.edited_at matches Some(t) ==> now > t) ==> ({
            let stamp = put_result(Ok(Some(e)), p, now)->Ok_0.edited_at->Some_0;
            &&& stamp > e.created_at
            &&& e.edited_at matches Some(t) ==> stamp > t
        }),
{
}

/// Updating an existing event with a patch that holds only a (non-empty)
/// title changes the title and `edited_at`, and nothing else.
pub proof fn lemma_title_update(e: Event, p: PutEvent, now: i64)
    requires
        p == (PutEvent { title: p.title, ..PutEvent::empty_spec() }),
        p.title matches Some(t) && t@.len() > 0,
    ensures
        put_result(Ok(Some(e)), p, now) == Ok::<Event, Error>(
            Event { title: p.title->Some_0, edited_at: Some(now), ..e },
        ),
{
}

/// Deleting an id that no row has succeeds, whether storage reports no
/// removed row or no row at all, and a later lookup of that id is
/// `NotFound`.
pub proof fn lemma_delete_missing_then_get(table: Map<i64, Event>, id: i64, removed: usize)
    requires
        !table.contains_key(id),
    ensures
        delete_result(Ok(removed)) == Ok::<(), Error>(()),
        delete_result(Err(StorageFault::NoRow)) == Ok::<(), Error>(()),
        looked_up(Ok::<Option<Event>, StorageFault>(row_at(table.remove(id), id))) == Err::<
            Event,
            Error,
        >(Error::NotFound),
{
}

} // verus!
