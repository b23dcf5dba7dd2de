//! Identity of an iOS screen.

use vstd::prelude::*;
use crate::strings::{decimal, push_decimal};

verus! {

/// The 128-bit value (big-endian) of the name-based SHA-1 UUID that
/// `uuid::Uuid::new_v5` derives from `name` in the OID namespace.
pub uninterp spec fn uuid_v5_oid(name: Seq<u8>) -> u128;

/// `Uuid::new_v5(&Uuid::NAMESPACE_OID, name).as_u128()`.
///
/// Claims: the value is the named function of the name bytes, with the
/// version nibble 5 (SHA-1) and the RFC 4122 variant bits, which
/// `Builder::from_sha1_bytes` sets.
#[verifier::external_body]
fn oid_uuid_v5(name: &[u8]) -> (r: u128)
    ensures
        r == uuid_v5_oid(name@),
        (r >> 76u128) & 0xFu128 == 5,
        (r >> 62u128) & 0x3u128 == 2,
{
    uuid::Uuid::new_v5(&uuid::Uuid::NAMESPACE_OID, name).as_u128()
}

/// The name a screen's UUID is derived from: its size in points and its
/// native scale in percent.
pub open spec fn display_key(width_pt: u32, height_pt: u32, scale_percent: u32) -> Seq<char> {
    "ios-screen-w"@ + decimal(width_pt as nat) + "-h"@ + decimal(height_pt as nat) + "-s"@ + decimal(
        scale_percent as nat,
    )
}

/// UUID (as a big-endian 128-bit value) of a screen of `width_pt` ×
/// `height_pt` points at `scale_percent` percent native scale: the same
/// physical display always gets the same UUID.
pub fn display_uuid(width_pt: u32, height_pt: u32, scale_percent: u32) -> (r: u128)
    ensures
        r == uuid_v5_oid(vstd::utf8::encode_utf8(display_key(width_pt, height_pt, scale_percent))),
        (r >> 76u128) & 0xFu128 == 5,
{
    let mut key = String::from_str("ios-screen-w");
    push_decimal(&mut key, width_pt);
    key.append("-h");
    push_decimal(&mut key, height_pt);
    key.append("-s");
    push_decimal(&mut key, scale_percent);
    assert(key@ =~= display_key(width_pt, height_pt, scale_percent));
    oid_uuid_v5(key.as_str().as_bytes())
}

} // verus!
