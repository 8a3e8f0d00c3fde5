//! The trusted boundary to the extended-attribute store and to UTF-8
//! decoding. Everything else in the crate is verified against the
//! contracts stated here.

use vstd::prelude::*;

verus! {

/// `std::io::Error`, declared so that a store failure can travel through
/// verified code. Verified code treats a value of it as opaque.
#[verifier::external_type_specification]
#[verifier::external_body]
pub struct ExIoError(std::io::Error);

/// The error a write reports when the store refuses a key write:
/// permission denied, unsupported filesystem, attribute size limit,
/// missing path.
#[derive(Debug)]
pub struct StoreError {
    /// The error the extended-attribute store reported.
    pub io: std::io::Error,
}

/// Relies on `xattr::get`: returns the raw bytes stored under `key` on the
/// object at `path`, or `None` when the key is not present there. A
/// store-level failure (missing path, permission denied, unsupported
/// filesystem) is folded into `None` as well: no key is mandatory, so a
/// read never fails as a whole. The result depends on the state of the
/// filesystem, so nothing is promised of it; verified callers must hold
/// for every value that may come back.
#[verifier::external_body]
pub(crate) fn xattr_get_raw(path: &str, key: &str) -> Option<Vec<u8>> {
    xattr::get(path, key).ok().flatten()
}

/// Relies on `xattr::set`: stores `value` under `key` on the object at
/// `path`, handing back the store's own error on failure. Whether the call
/// succeeds depends on the filesystem alone, so nothing is promised of the
/// outcome.
#[verifier::external_body]
pub(crate) fn xattr_set_raw(path: &str, key: &str, value: &Vec<u8>) -> Result<
    (),
    std::io::Error,
> {
    xattr::set(path, key, value.as_slice())
}

/// Relies on `String::from_utf8`: yields the decoded text exactly when the
/// bytes are a valid UTF-8 encoding, and `None` otherwise.
#[verifier::external_body]
pub(crate) fn utf8_to_string(bytes: Vec<u8>) -> (r: Option<String>)
    ensures
        r is Some <==> vstd::utf8::valid_utf8(bytes@),
        r matches Some(s) ==> s@ == vstd::utf8::decode_utf8(bytes@),
{
    String::from_utf8(bytes).ok()
}

} // verus!
