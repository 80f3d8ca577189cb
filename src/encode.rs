//! Byte encodings of scalar values used by the row columns and the checkpoint.
use vstd::prelude::*;
use crate::model::ObjectRef;

verus! {

/// The low `k` bytes of `n`, most significant first.
pub open spec fn be_bytes(n: nat, k: nat) -> Seq<u8>
    decreases k,
{
    if k == 0 {
        Seq::empty()
    } else {
        be_bytes(n / 256, (k - 1) as nat).push((n % 256) as u8)
    }
}

/// The low `k` bytes of `n`, least significant first.
pub open spec fn le_bytes(n: nat, k: nat) -> Seq<u8>
    decreases k,
{
    if k == 0 {
        Seq::empty()
    } else {
        seq![(n % 256) as u8] + le_bytes(n / 256, (k - 1) as nat)
    }
}

/// The decimal digits of `n` in ASCII, without leading zeros.
pub open spec fn decimal(n: nat) -> Seq<u8>
    decreases n,
{
    if n < 10 {
        seq![(48 + n) as u8]
    } else {
        decimal(n / 10).push((48 + n % 10) as u8)
    }
}

/// The low `k` bytes of `n`, most significant first.
pub fn be_bytes_of(n: u128, k: usize) -> (r: Vec<u8>)
    ensures
        r@ == be_bytes(n as nat, k as nat),
    decreases k,
{
    if k == 0 {
        Vec::new()
    } else {
        let mut r = be_bytes_of(n / 256, k - 1);
        r.push((n % 256) as u8);
        r
    }
}

/// The decimal digits of `n` in ASCII.
pub fn decimal_of(n: u64) -> (r: Vec<u8>)
    ensures
        r@ == decimal(n as nat),
    decreases n,
{
    if n < 10 {
        let mut r = Vec::new();
        r.push((48 + n) as u8);
        r
    } else {
        let mut r = decimal_of(n / 10);
        r.push((48 + n % 10) as u8);
        r
    }
}

/// `n` in unsigned LEB128: seven bits per byte, least significant first, the
/// high bit set on every byte but the last.
pub open spec fn uleb128(n: nat) -> Seq<u8>
    decreases n,
{
    if n < 128 {
        seq![n as u8]
    } else {
        seq![(n % 128 + 128) as u8] + uleb128(n / 128)
    }
}

/// The longest byte sequence that the binary canonical serialization accepts.
pub const MAX_SEQUENCE_LENGTH: usize = 2147483647;

/// Whether an object reference can be serialized.
pub open spec fn ref_encodable(r: ObjectRef) -> bool {
    r.object_id@.len() <= MAX_SEQUENCE_LENGTH && r.digest@.len() <= MAX_SEQUENCE_LENGTH
}

/// The serialized form of an object reference: its id, version and digest in
/// order, each byte sequence prefixed by its length.
pub open spec fn ref_bytes(r: ObjectRef) -> Seq<u8> {
    uleb128(r.object_id@.len() as nat) + r.object_id@ + le_bytes(r.version as nat, 8) + uleb128(
        r.digest@.len() as nat,
    ) + r.digest@
}

/// Declares bcs::Error, the error that bcs::to_bytes returns, as an opaque type.
#[verifier::external_type_specification]
#[verifier::external_body]
pub struct ExBcsError(bcs::Error);

/// Relies on bcs::to_bytes on a tuple (bytes, u64, bytes): it writes the
/// fields in order, a byte vector as its ULEB128 length then its bytes, a u64
/// as eight little-endian bytes, and refuses a byte vector longer than
/// bcs::MAX_SEQUENCE_LENGTH.
#[verifier::external_body]
pub(crate) fn bcs_object_ref(r: &ObjectRef) -> (out: Result<Vec<u8>, bcs::Error>)
    ensures
        out is Ok <==> ref_encodable(*r),
        out matches Ok(b) ==> b@ == ref_bytes(*r),
{
    bcs::to_bytes(&(&r.object_id, r.version, &r.digest))
}

} // verus!
