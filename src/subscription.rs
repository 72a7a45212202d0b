//! The record that an accepted submission becomes.

use vstd::prelude::*;

use crate::form::FormData;

verus! {

/// The bits of a UUID that hold its version and its variant.
pub const VERSION_VARIANT_MASK: u128 = 0xF000_C000_0000_0000_0000;

/// Version 4 (random) with the RFC 4122 variant, in those bits.
pub const VERSION_4_RFC4122: u128 = 0x4000_8000_0000_0000_0000;

/// The id is a random (version 4) UUID of the RFC 4122 variant.
pub open spec fn is_random_uuid(id: u128) -> bool {
    id & VERSION_VARIANT_MASK == VERSION_4_RFC4122
}

/// A subscription record: a fresh id, the submitted email and name verbatim,
/// and the instant of capture in microseconds since the Unix epoch (UTC).
#[derive(Clone, Debug)]
pub struct Subscription {
    pub id: u128,
    pub email: String,
    pub name: String,
    pub subscribed_at: i64,
}

/// Relies on `uuid::Uuid::new_v4` and `Uuid::as_u128`: a random UUID whose
/// version nibble is 4 and whose variant bits are `10`.
#[verifier::external_body]
pub(crate) fn random_uuid() -> (r: u128)
    ensures
        is_random_uuid(r),
{
    uuid::Uuid::new_v4().as_u128()
}

/// Relies on `chrono::Utc::now` and `DateTime::timestamp_micros`: the current
/// instant; nothing is known of its value.
#[verifier::external_body]
pub(crate) fn now_micros() -> (r: i64) {
    chrono::Utc::now().timestamp_micros()
}

/// Makes the record for an accepted submission from the id and the instant
/// that were drawn for it.
pub fn subscription_at(form: FormData, id: u128, subscribed_at: i64) -> (r: Subscription)
    ensures
        r.id == id,
        r.subscribed_at == subscribed_at,
        r.email@ == form.email@,
        r.name@ == form.name@,
{
    Subscription { id, email: form.email, name: form.name, subscribed_at }
}

/// Makes the record for an accepted submission, with a newly generated id and
/// the current time.
pub fn new_subscription(form: FormData) -> (r: Subscription)
    ensures
        r.email@ == form.email@,
        r.name@ == form.name@,
        is_random_uuid(r.id),
{
    let id = random_uuid();
    let subscribed_at = now_micros();
    subscription_at(form, id, subscribed_at)
}

} // verus!
