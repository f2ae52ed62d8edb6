//! What the library takes from outside itself: fresh identifiers, the
//! current time, and opaque JSON payloads. Nothing in this file is proved;
//! each contract below is taken on trust from the crate that does the work.

use vstd::prelude::*;

verus! {

/// A JSON document (`serde_json::Value`). The library never looks inside
/// one; it only stores it, copies it and hands it back.
#[verifier::external_type_specification]
#[verifier::external_body]
pub struct ExJsonValue(serde_json::Value);

/// The version field of an identifier: bits 76 to 79.
pub open spec fn id_version(id: u128) -> u128 {
    (id >> 76u128) & 0xfu128
}

/// The variant field of an identifier: bits 62 and 63.
pub open spec fn id_variant(id: u128) -> u128 {
    (id >> 62u128) & 0x3u128
}

/// Draws a random identifier with `uuid::Uuid::new_v4` and takes its 128-bit
/// value with `Uuid::as_u128`. Two calls may return anything at all; the
/// one thing claimed is what `new_v4` sets by masking: version 4 and the
/// RFC 4122 variant. `new_v4` panics when the operating system cannot
/// supply random bytes.
#[verifier::external_body]
pub(crate) fn fresh_id() -> (id: u128)
    ensures
        id_version(id) == 4,
        id_variant(id) == 2,
{
    uuid::Uuid::new_v4().as_u128()
}

/// Reads the clock with `chrono::Utc::now` and converts the instant with
/// `DateTime::timestamp_micros` to microseconds since the Unix epoch.
/// Nothing is claimed of the value. `Utc::now` panics when the system clock
/// is set before the epoch.
#[verifier::external_body]
pub(crate) fn now_micros() -> (t: i64)
{
    chrono::Utc::now().timestamp_micros()
}

/// Copies a JSON document with `<serde_json::Value as Clone>::clone`, which
/// is derived: the copy is the same document.
#[verifier::external_body]
pub(crate) fn clone_json(v: &serde_json::Value) -> (r: serde_json::Value)
    ensures
        r == *v,
{
    v.clone()
}

} // verus!
