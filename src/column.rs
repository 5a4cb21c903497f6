//! Identifier and timestamp injection for persistable entities.
//!
//! An entity type opts into identifier injection by implementing [`HasUuid`]
//! and into timestamp injection by implementing [`HasTimestamps`]. Both rest on
//! [`Audited`], which exposes the audit columns of a value to contracts, so
//! that each setter states that it changes its own column and nothing else.
use vstd::prelude::*;

verus! {

/// A point in time: whole seconds since the Unix epoch and the nanoseconds
/// past that second.
#[derive(Clone, Copy, Debug, PartialEq, Eq, Structural)]
pub struct Timestamp {
    pub secs: i64,
    pub nanos: u32,
}

impl Timestamp {
    /// The instant as a count of nanoseconds since the epoch.
    pub open spec fn instant(self) -> int {
        self.secs as int * 1_000_000_000 + self.nanos as int
    }
}

/// The audit columns of an entity as contracts see them.
pub struct AuditFields {
    pub uuid: Option<Seq<char>>,
    pub created_at: Option<Timestamp>,
    pub updated_at: Option<Timestamp>,
}

impl AuditFields {
    pub open spec fn with_uuid(self, uuid: Seq<char>) -> AuditFields {
        AuditFields { uuid: Some(uuid), ..self }
    }

    pub open spec fn with_created_at(self, date: Timestamp) -> AuditFields {
        AuditFields { created_at: Some(date), ..self }
    }

    pub open spec fn with_updated_at(self, date: Timestamp) -> AuditFields {
        AuditFields { updated_at: Some(date), ..self }
    }
}

/// What timestamp injection makes of the audit columns `a`, with `now` read
/// once: `created_at` is set on insert only, `updated_at` always.
pub open spec fn timestamps_applied(a: AuditFields, insert: bool, now: Timestamp) -> AuditFields {
    AuditFields {
        uuid: a.uuid,
        created_at: if insert { Some(now) } else { a.created_at },
        updated_at: Some(now),
    }
}

pub open spec fn is_lower_hex_digit(c: char) -> bool {
    ('0' <= c && c <= '9') || ('a' <= c && c <= 'f')
}

/// `s` is a random (version 4) uuid in its hyphenated lowercase text form,
/// such as `67e55044-10b1-426f-9247-bb680e5fe0c8`.
pub open spec fn is_v4_uuid_text(s: Seq<char>) -> bool {
    &&& s.len() == 36
    &&& forall|i: int|
        0 <= i < 36 ==> if i == 8 || i == 13 || i == 18 || i == 23 {
            s[i] == '-'
        } else {
            is_lower_hex_digit(#[trigger] s[i])
        }
    &&& s[14] == '4'
    &&& (s[19] == '8' || s[19] == '9' || s[19] == 'a' || s[19] == 'b')
}

/// A value whose audit columns contracts can speak of.
pub trait Audited {
    spec fn audit(&self) -> AuditFields;
}

/// An entity type with a surrogate identifier column.
pub trait HasUuid: Audited {
    /// Stores `uuid` as the identifier and leaves the other audit columns.
    fn set_uuid(&mut self, uuid: String)
        ensures
            final(self).audit() == old(self).audit().with_uuid(uuid@),
    ;
}

/// An entity type with `created_at` and `updated_at` columns.
pub trait HasTimestamps: Audited {
    /// Stores `date` as the creation time and leaves the other audit columns.
    fn set_created_at(&mut self, date: Timestamp)
        ensures
            final(self).audit() == old(self).audit().with_created_at(date),
    ;

    /// Stores `date` as the modification time and leaves the other audit columns.
    fn set_updated_at(&mut self, date: Timestamp)
        ensures
            final(self).audit() == old(self).audit().with_updated_at(date),
    ;
}

/// Relies on `uuid::Uuid::new_v4` and its `Display` impl: a freshly drawn
/// random uuid, written as 36 lowercase hex digits and hyphens with the
/// version digit `4` and the variant bits `10`.
#[verifier::external_body]
fn new_uuid_text() -> (r: String)
    ensures
        is_v4_uuid_text(r@),
{
    uuid::Uuid::new_v4().to_string()
}

/// Relies on `chrono::Utc::now`: the current wall-clock time, of which
/// nothing is promised.
#[verifier::external_body]
fn utc_now() -> (r: Timestamp) {
    let now = chrono::Utc::now();
    Timestamp { secs: now.timestamp(), nanos: now.timestamp_subsec_nanos() }
}

/// On insert, gives `model` a freshly generated identifier; on update,
/// returns it untouched.
pub fn apply_uuid<U: HasUuid>(model: U, insert: bool) -> (r: U)
    ensures
        insert ==> r.audit().uuid is Some,
        insert ==> is_v4_uuid_text(r.audit().uuid.unwrap()),
        insert ==> r.audit() == model.audit().with_uuid(r.audit().uuid.unwrap()),
        !insert ==> r.audit() == model.audit(),
{
    let mut this = model;
    if insert {
        this.set_uuid(new_uuid_text());
    }
    this
}

/// Timestamp injection with the clock reading `now` given: on insert both
/// `created_at` and `updated_at` become `now`, on update only `updated_at`.
pub fn apply_timestamps_at<T: HasTimestamps>(model: T, insert: bool, now: Timestamp) -> (r: T)
    ensures
        r.audit() == timestamps_applied(model.audit(), insert, now),
        insert ==> r.audit().created_at == r.audit().updated_at,
{
    let mut this = model;
    if insert {
        this.set_created_at(now);
    }
    this.set_updated_at(now);
    this
}

/// Timestamp injection that reads the clock once and uses that one reading
/// for every column it sets.
pub fn apply_timestamps<T: HasTimestamps>(model: T, insert: bool) -> (r: T)
    ensures
        r.audit().updated_at is Some,
        r.audit() == timestamps_applied(model.audit(), insert, r.audit().updated_at.unwrap()),
        insert ==> r.audit().created_at == r.audit().updated_at,
{
    let now = utc_now();
    apply_timestamps_at(model, insert, now)
}

/// Identifier then timestamp injection with the clock reading `now` given.
pub fn apply_uuid_and_timestamps_at<T: HasUuid + HasTimestamps>(
    model: T,
    insert: bool,
    now: Timestamp,
) -> (r: T)
    ensures
        insert ==> r.audit().uuid is Some,
        insert ==> is_v4_uuid_text(r.audit().uuid.unwrap()),
        insert ==> r.audit() == timestamps_applied(
            model.audit().with_uuid(r.audit().uuid.unwrap()),
            true,
            now,
        ),
        insert ==> r.audit().created_at == Some(now) && r.audit().updated_at == Some(now),
        !insert ==> r.audit() == timestamps_applied(model.audit(), false, now),
{
    let mut this = model;
    if insert {
        this.set_uuid(new_uuid_text());
        this.set_created_at(now);
    }
    this.set_updated_at(now);
    this
}

/// Identifier then timestamp injection that reads the clock once and uses
/// that one reading for both timestamp columns.
pub fn apply_uuid_and_timestamps<T: HasUuid + HasTimestamps>(model: T, insert: bool) -> (r: T)
    ensures
        r.audit().updated_at is Some,
        insert ==> r.audit().uuid is Some,
        insert ==> is_v4_uuid_text(r.audit().uuid.unwrap()),
        insert ==> r.audit() == timestamps_applied(
            model.audit().with_uuid(r.audit().uuid.unwrap()),
            true,
            r.audit().updated_at.unwrap(),
        ),
        insert ==> r.audit().created_at == r.audit().updated_at,
        !insert ==> r.audit() == timestamps_applied(
            model.audit(),
            false,
            r.audit().updated_at.unwrap(),
        ),
{
    let now = utc_now();
    apply_uuid_and_timestamps_at(model, insert, now)
}

/// Inserting at `t1` and then updating at a later `t2` leaves both timestamps
/// equal after the insert, keeps `created_at` through the update, and moves
/// `updated_at` strictly forward.
pub proof fn lemma_update_after_insert(a: AuditFields, t1: Timestamp, t2: Timestamp)
    requires
        t1.instant() < t2.instant(),
    ensures
        ({
            let inserted = timestamps_applied(a, true, t1);
            let updated = timestamps_applied(inserted, false, t2);
            &&& inserted.created_at == inserted.updated_at
            &&& updated.created_at == inserted.created_at
            &&& updated.updated_at.unwrap().instant() > inserted.updated_at.unwrap().instant()
        }),
{
}

/// The three audit columns held as plain values, for an entity type to embed
/// or to use as is.
#[derive(Clone, Debug, PartialEq, Eq)]
pub struct AuditColumns {
    pub uuid: Option<String>,
    pub created_at: Option<Timestamp>,
    pub updated_at: Option<Timestamp>,
}

impl AuditColumns {
    /// Columns of an entity not yet persisted: all unset.
    pub fn new() -> (r: AuditColumns)
        ensures
            r.audit() == (AuditFields { uuid: None, created_at: None, updated_at: None }),
    {
        AuditColumns { uuid: None, created_at: None, updated_at: None }
    }
}

impl Audited for AuditColumns {
    open spec fn audit(&self) -> AuditFields {
        AuditFields {
            uuid: match self.uuid {
                Some(s) => Some(s@),
                None => None,
            },
            created_at: self.created_at,
            updated_at: self.updated_at,
        }
    }
}

impl HasUuid for AuditColumns {
    fn set_uuid(&mut self, uuid: String) {
        self.uuid = Some(uuid);
    }
}

impl HasTimestamps for AuditColumns {
    fn set_created_at(&mut self, date: Timestamp) {
        self.created_at = Some(date);
    }

    fn set_updated_at(&mut self, date: Timestamp) {
        self.updated_at = Some(date);
    }
}

} // verus!
