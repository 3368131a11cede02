use vstd::prelude::*;

verus! {

/// Relies on uuid's `Uuid::new_v4` and its hyphenated `Display`: a fresh
/// random identifier, written as 36 characters.
#[verifier::external_body]
pub(crate) fn fresh_uuid() -> (r: String)
    ensures
        r@.len() == 36,
{
    uuid::Uuid::new_v4().to_string()
}

/// Relies on bson's `ObjectId::new` and `ObjectId::to_hex`: a fresh object
/// identifier, written as 24 hexadecimal digits.
#[verifier::external_body]
pub(crate) fn fresh_object_id() -> (r: String)
    ensures
        r@.len() == 24,
{
    mongodb::bson::oid::ObjectId::new().to_hex()
}

} // verus!
