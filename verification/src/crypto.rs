//! The one cryptographic primitive the catalog leans on.
//!
//! The keyed digest is computed by an outside library; its result is a
//! function of key and data alone, so it is given a name that contracts
//! can speak of without spelling the algorithm out.

use vstd::prelude::*;

verus! {

/// The largest data length handed to the digest; far below the
/// algorithm's own input limit, so the call cannot fail.
pub const HMAC_MAX_DATA_LEN: usize = 0x1000_0000;

/// The HMAC-SHA256 tag of `data` under `key`: a function of the two
/// arguments alone, 32 bytes long.
pub uninterp spec fn hmac_sha256_of(key: Seq<u8>, data: Seq<u8>) -> Seq<u8>;

/// Relies on ring::hmac: `Key::new(HMAC_SHA256, key)` accepts keys of any
/// length, and `sign` returns the HMAC-SHA256 tag of the data, 32 bytes,
/// depending on key and data alone.
#[verifier::external_body]
pub fn hmac_sha256(key: &Vec<u8>, data: &Vec<u8>) -> (r: Vec<u8>)
    requires
        data@.len() <= HMAC_MAX_DATA_LEN,
    ensures
        r@ == hmac_sha256_of(key@, data@),
        r@.len() == 32,
{
    let k = ring::hmac::Key::new(ring::hmac::HMAC_SHA256, key.as_slice());
    let tag = ring::hmac::sign(&k, data.as_slice());
    tag.as_ref().to_vec()
}

} // verus!
