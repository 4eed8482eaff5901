//! The persistence operation's verified half: identifier and timestamp
//! assignment, construction of the row that the storage collaborator
//! persists, and translation of the storage outcome.
//!
//! The storage round-trip itself (the insert statement over a pooled
//! connection) is transport and lives outside the library; it receives a
//! finished `SubscriptionRecord` and reports back success or a diagnostic
//! detail.

use vstd::prelude::*;
use crate::domain::NewSubscriber;
use crate::error::Error;

verus! {

/// The row shape of the subscription store: a 128-bit identifier, the
/// subscriber's texts unchanged, and the UTC subscription time in
/// microseconds since the epoch.
#[derive(Debug)]
pub struct SubscriptionRecord {
    pub id: u128,
    pub email: String,
    pub name: String,
    pub subscribed_at_micros: i64,
}

impl SubscriptionRecord {
    /// The record carries exactly the subscriber's email and name texts.
    pub open spec fn matches_subscriber(&self, subscriber: &NewSubscriber) -> bool {
        self.email@ == subscriber.email@ && self.name@ == subscriber.name@
    }
}

/// Relies on uuid::Uuid::new_v4: the value is random except for the version
/// and variant bits, which are OR'd in as a nonzero constant, so the 128-bit
/// value is never zero. Nothing more holds of every outcome.
#[verifier::external_body]
fn fresh_record_id() -> (id: u128)
    ensures
        id != 0,
{
    uuid::Uuid::new_v4().as_u128()
}

/// Relies on chrono::Utc::now: the current UTC time, converted to
/// microseconds since the epoch. The result depends on the clock, so
/// nothing is promised of it.
#[verifier::external_body]
fn current_time_micros() -> i64 {
    chrono::Utc::now().timestamp_micros()
}

/// Builds the stored row from a subscriber and the generated identifier and
/// timestamp: the subscriber's texts are carried over unchanged.
pub fn make_record(subscriber: &NewSubscriber, id: u128, subscribed_at_micros: i64) -> (r:
    SubscriptionRecord)
    ensures
        r.id == id,
        r.subscribed_at_micros == subscribed_at_micros,
        r.matches_subscriber(subscriber),
{
    SubscriptionRecord {
        id,
        email: String::from_str(subscriber.email.as_ref()),
        name: String::from_str(subscriber.name.as_ref()),
        subscribed_at_micros,
    }
}

/// The first half of the persistence operation: generates a fresh nonzero
/// identifier, captures the current time, and builds the row to store. The
/// subscriber's texts are carried over unchanged.
pub fn prepare_record(subscriber: &NewSubscriber) -> (r: SubscriptionRecord)
    ensures
        r.id != 0,
        r.matches_subscriber(subscriber),
{
    let id = fresh_record_id();
    let subscribed_at_micros = current_time_micros();
    make_record(subscriber, id, subscribed_at_micros)
}

/// The second half of the persistence operation: translates the storage
/// collaborator's outcome. Success passes through; any storage failure is
/// wrapped as `Persistence`, keeping the diagnostic detail for server-side
/// logs.
pub fn settle_insert(outcome: Result<(), String>) -> (r: Result<(), Error>)
    ensures
        r is Ok <==> outcome is Ok,
        outcome is Err ==> r is Err && r->Err_0 is Persistence && r->Err_0->Persistence_0@
            == outcome->Err_0@,
{
    match outcome {
        Ok(()) => Ok(()),
        Err(detail) => Err(Error::Persistence(detail)),
    }
}

/// The library's half of the persistence round trip: a record built from a
/// subscriber that was parsed out of a raw request stores exactly the email
/// and name texts that the request carried — parsing wrapped them unchanged,
/// and building the row carried them over unchanged.
pub proof fn lemma_stored_texts_match_request(
    request: crate::routes::Subscription,
    subscriber: NewSubscriber,
    record: SubscriptionRecord,
)
    requires
        subscriber.name@ == request.name@,
        subscriber.email@ == request.email@,
        record.matches_subscriber(&subscriber),
    ensures
        record.email@ == request.email@,
        record.name@ == request.name@,
{
}

} // verus!
