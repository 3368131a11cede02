use vstd::prelude::*;
use crate::error::{is_forbidden, is_invalid_input, is_not_found, AppError};

verus! {

/// Relied on as an opaque value: a MongoDB object identifier.
#[verifier::external_type_specification]
#[verifier::external_body]
pub struct ExObjectId(mongodb::bson::oid::ObjectId);

/// Whether `c` is a hexadecimal digit, in either case.
pub open spec fn is_hex_digit(c: char) -> bool {
    ('0' <= c && c <= '9') || ('a' <= c && c <= 'f') || ('A' <= c && c <= 'F')
}

/// Whether `s` writes an object identifier: 24 hexadecimal digits.
pub open spec fn is_object_id_text(s: Seq<char>) -> bool {
    s.len() == 24 && forall|i: int| 0 <= i < s.len() ==> is_hex_digit(#[trigger] s[i])
}

/// Relies on bson's `ObjectId::parse_str`, which hex-decodes the text and
/// accepts it when it decodes to exactly 12 bytes.
#[verifier::external_body]
pub(crate) fn parse_object_id(s: &str) -> (r: Option<mongodb::bson::oid::ObjectId>)
    ensures
        r is Some <==> is_object_id_text(s@),
{
    mongodb::bson::oid::ObjectId::parse_str(s).ok()
}

/// Reads the product identifier of a request path.
pub fn parse_product_id(s: &str) -> (r: Result<mongodb::bson::oid::ObjectId, AppError>)
    ensures
        r is Ok <==> is_object_id_text(s@),
        r is Err ==> is_invalid_input(r->Err_0, "Invalid product id"@),
{
    match parse_object_id(s) {
        Some(id) => Ok(id),
        None => Err(AppError::invalid_input("Invalid product id")),
    }
}

/// Reads the vendor identifier of a request path.
pub fn parse_vendor_id(s: &str) -> (r: Result<mongodb::bson::oid::ObjectId, AppError>)
    ensures
        r is Ok <==> is_object_id_text(s@),
        r is Err ==> is_invalid_input(r->Err_0, "Invalid vendor ID"@),
{
    match parse_object_id(s) {
        Some(id) => Ok(id),
        None => Err(AppError::invalid_input("Invalid vendor ID")),
    }
}

/// Reads the vendor identifier a session cookie carries; a cookie that holds
/// none was not issued by this server.
pub fn session_vendor_id(s: &str) -> (r: Result<mongodb::bson::oid::ObjectId, AppError>)
    ensures
        r is Ok <==> is_object_id_text(s@),
        r is Err ==> r matches Err(AppError::InternalError),
{
    match parse_object_id(s) {
        Some(id) => Ok(id),
        None => Err(AppError::InternalError),
    }
}

/// The answer to a lookup of a product by identifier and owner: found, it
/// is owned; not found, the vendor is refused, whether the product is
/// missing or another's.
pub fn verify_ownership(found: Result<bool, mongodb::error::Error>) -> (r: Result<(), AppError>)
    ensures
        found matches Ok(true) ==> r is Ok,
        found matches Ok(false) ==> r is Err && is_forbidden(
            r->Err_0,
            "You do not have authorization for this product"@,
        ),
        found is Err ==> r matches Err(AppError::Database(_)),
{
    match found {
        Ok(true) => Ok(()),
        Ok(false) => Err(AppError::forbidden("You do not have authorization for this product")),
        Err(e) => Err(AppError::Database(e)),
    }
}

/// The answer to an update of one product filtered by identifier and,
/// where given, owner: it took effect when exactly one product matched.
pub fn update_result(matched: Result<u64, mongodb::error::Error>) -> (r: Result<(), AppError>)
    ensures
        matched matches Ok(n) && n == 1 ==> r is Ok,
        matched matches Ok(n) && n != 1 ==> r is Err && is_forbidden(
            r->Err_0,
            "You do not have permissions for this product"@,
        ),
        matched is Err ==> r matches Err(AppError::Database(_)),
{
    match matched {
        Ok(n) => if n == 1 {
            Ok(())
        } else {
            Err(AppError::forbidden("You do not have permissions for this product"))
        },
        Err(e) => Err(AppError::Database(e)),
    }
}

/// The answer to the removal of a price from a product: it took effect when
/// exactly one product matched.
pub fn price_delete_result(matched: Result<u64, mongodb::error::Error>) -> (r: Result<(), AppError>)
    ensures
        matched matches Ok(n) && n == 1 ==> r is Ok,
        matched matches Ok(n) && n != 1 ==> r is Err && is_forbidden(
            r->Err_0,
            "Invalid permisssions for this product"@,
        ),
        matched is Err ==> r matches Err(AppError::Database(_)),
{
    match matched {
        Ok(n) => if n == 1 {
            Ok(())
        } else {
            Err(AppError::forbidden("Invalid permisssions for this product"))
        },
        Err(e) => Err(AppError::Database(e)),
    }
}

/// The answer to the deletion of a product filtered by identifier and owner.
pub fn delete_result(found: Result<bool, mongodb::error::Error>) -> (r: Result<(), AppError>)
    ensures
        found matches Ok(true) ==> r is Ok,
        found matches Ok(false) ==> r is Err && is_forbidden(
            r->Err_0,
            "You do not have authorization for this product"@,
        ),
        found is Err ==> r matches Err(AppError::Database(_)),
{
    match found {
        Ok(true) => Ok(()),
        Ok(false) => Err(AppError::forbidden("You do not have authorization for this product")),
        Err(e) => Err(AppError::Database(e)),
    }
}

/// The answer to a lookup of one document: the document when found, else a
/// not-found error with `missing` as its message.
pub fn found_or<T>(found: Result<Option<T>, mongodb::error::Error>, missing: &str) -> (r: Result<
    T,
    AppError,
>)
    ensures
        found matches Ok(Some(v)) ==> r == Ok::<T, AppError>(v),
        found matches Ok(None) ==> r is Err && is_not_found(r->Err_0, missing@),
        found is Err ==> r matches Err(AppError::Database(_)),
{
    match found {
        Ok(Some(v)) => Ok(v),
        Ok(None) => Err(AppError::not_found(missing)),
        Err(e) => Err(AppError::Database(e)),
    }
}

} // verus!
