//! Verified interpretation of RLP items.
//!
//! The primitive queries of `rlp_prim` hand back raw item bytes and payload
//! bytes.  Everything that gives those bytes a meaning — scalar values,
//! fixed-width addresses and storage keys, canonical-form checks — is
//! verified here, with the exact conditions under which each interpretation
//! succeeds.

use vstd::prelude::*;

use crate::rlp_prim::rlp_item_at;
use crate::rlp_prim::rlp_item_at_of;
use crate::rlp_prim::rlp_payload;
use crate::rlp_prim::rlp_payload_of;
use crate::types::zero_address_seq;
use crate::types::Address;
use crate::types::H256;
use crate::types::U256;

verus! {

/// Why a byte buffer failed to decode as the RLP structure a decoder
/// expected.  This is the library's own taxonomy; every structural failure
/// of a transaction decoder is reported through it.
#[derive(Clone, Copy, Debug, PartialEq, Eq, Structural)]
pub enum DecoderError {
    /// The buffer does not encode a list where a list is required.
    RlpExpectedToBeList,
    /// An item is a list where a byte-string is required.
    RlpExpectedToBeData,
    /// A list does not have the arity its format mandates.
    RlpIncorrectListLen,
    /// A value is not in canonical form (a needless long form or a scalar
    /// with leading zero bytes).
    RlpInvalidIndirection,
    /// A scalar payload is longer than the integer width it must fit.
    RlpIsTooBig,
    /// A fixed-width field has a payload of the wrong length.
    RlpInvalidLength,
    /// The buffer is truncated or an item in it is malformed.
    RlpIsTooShort,
}

/// The big-endian value of a byte string.
pub open spec fn be_val(s: Seq<u8>) -> int
    decreases s.len(),
{
    if s.len() == 0 {
        0
    } else {
        be_val(s.drop_last()) * 256 + s.last()
    }
}

/// 256 to the power `n`.
pub open spec fn pow256(n: nat) -> int
    decreases n,
{
    if n == 0 {
        1
    } else {
        256 * pow256((n - 1) as nat)
    }
}

pub proof fn lemma_pow256_pos(n: nat)
    ensures
        pow256(n) >= 1,
    decreases n,
{
    if n > 0 {
        lemma_pow256_pos((n - 1) as nat);
    }
}

pub proof fn lemma_pow256_mono(a: nat, b: nat)
    requires
        a <= b,
    ensures
        pow256(a) <= pow256(b),
    decreases b,
{
    if a < b {
        lemma_pow256_mono(a, (b - 1) as nat);
        lemma_pow256_pos((b - 1) as nat);
    }
}

pub proof fn lemma_be_val_bound(s: Seq<u8>)
    ensures
        0 <= be_val(s) < pow256(s.len()),
    decreases s.len(),
{
    if s.len() > 0 {
        lemma_be_val_bound(s.drop_last());
    }
}

/// Reading one more byte multiplies the prefix value by 256 and adds it.
pub proof fn lemma_be_val_take_step(s: Seq<u8>, i: int)
    requires
        0 <= i < s.len(),
    ensures
        be_val(s.take(i + 1)) == be_val(s.take(i)) * 256 + s[i],
{
    assert(s.take(i + 1).drop_last() =~= s.take(i));
    assert(s.take(i + 1).last() == s[i]);
}

/// The byte string left-padded with zeroes to 32 bytes.
pub open spec fn pad32(s: Seq<u8>) -> Seq<u8> {
    Seq::new(32, |i: int| if i < 32 - s.len() { 0u8 } else { s[i - (32 - s.len())] })
}

/// The payload of an RLP item that must be a byte-string, with the
/// canonical-form check on needless one-byte long forms.  Mirrors what the
/// decoding primitive enforces before interpreting any byte-string value.
pub open spec fn decode_value_spec(item: Seq<u8>) -> Result<Seq<u8>, DecoderError> {
    if item.len() == 0 {
        Err(DecoderError::RlpIsTooShort)
    } else if item[0] >= 0xc0 {
        Err(DecoderError::RlpExpectedToBeData)
    } else {
        match rlp_payload_of(item) {
            None => Err(DecoderError::RlpIsTooShort),
            Some(p) => if item[0] == 0x81 && p.len() == 1 && p[0] < 0x80 {
                Err(DecoderError::RlpInvalidIndirection)
            } else {
                Ok(p)
            },
        }
    }
}

/// A `u64` scalar: at most eight payload bytes, no leading zero byte.
pub open spec fn decode_u64_spec(item: Seq<u8>) -> Result<u64, DecoderError> {
    match decode_value_spec(item) {
        Err(e) => Err(e),
        Ok(p) => if p.len() == 0 {
            Ok(0u64)
        } else if p.len() > 8 {
            Err(DecoderError::RlpIsTooBig)
        } else if p[0] == 0 {
            Err(DecoderError::RlpInvalidIndirection)
        } else {
            Ok(be_val(p) as u64)
        },
    }
}

/// A 256-bit scalar: no leading zero byte, at most 32 payload bytes; the
/// result is the payload left-padded to 32 bytes.
pub open spec fn decode_u256_spec(item: Seq<u8>) -> Result<Seq<u8>, DecoderError> {
    match decode_value_spec(item) {
        Err(e) => Err(e),
        Ok(p) => if p.len() > 0 && p[0] == 0 {
            Err(DecoderError::RlpInvalidIndirection)
        } else if p.len() <= 32 {
            Ok(pad32(p))
        } else {
            Err(DecoderError::RlpIsTooBig)
        },
    }
}

/// A 20-byte address: the payload must be exactly 20 bytes.
pub open spec fn decode_address_spec(item: Seq<u8>) -> Result<Seq<u8>, DecoderError> {
    match decode_value_spec(item) {
        Err(e) => Err(e),
        Ok(p) => if p.len() == 20 {
            Ok(p)
        } else {
            Err(DecoderError::RlpInvalidLength)
        },
    }
}

/// A 32-byte storage key: the payload must be exactly 32 bytes.
pub open spec fn decode_h256_spec(item: Seq<u8>) -> Result<Seq<u8>, DecoderError> {
    match decode_value_spec(item) {
        Err(e) => Err(e),
        Ok(p) => if p.len() == 32 {
            Ok(p)
        } else {
            Err(DecoderError::RlpInvalidLength)
        },
    }
}

/// A `u8` scalar: at most one payload byte, which must not be zero.
pub open spec fn decode_u8_spec(item: Seq<u8>) -> Result<u8, DecoderError> {
    match decode_value_spec(item) {
        Err(e) => Err(e),
        Ok(p) => if p.len() == 0 {
            Ok(0u8)
        } else if p.len() > 1 {
            Err(DecoderError::RlpIsTooBig)
        } else if p[0] == 0 {
            Err(DecoderError::RlpInvalidIndirection)
        } else {
            Ok(p[0])
        },
    }
}

/// The raw encoding of item `i` of the list encoded by `s`, as a decoder
/// failure when the primitive reports none.
pub open spec fn item_at_spec(s: Seq<u8>, i: usize) -> Result<Seq<u8>, DecoderError> {
    match rlp_item_at_of(s, i) {
        None => Err(DecoderError::RlpIsTooShort),
        Some(item) => Ok(item),
    }
}

/// Field `i` of the list encoded by `s`, read as a 256-bit scalar.
pub open spec fn u256_at_spec(s: Seq<u8>, i: usize) -> Result<Seq<u8>, DecoderError> {
    match item_at_spec(s, i) {
        Err(e) => Err(e),
        Ok(item) => decode_u256_spec(item),
    }
}

/// Field `i` of the list encoded by `s`, read as a `u64` scalar.
pub open spec fn u64_at_spec(s: Seq<u8>, i: usize) -> Result<u64, DecoderError> {
    match item_at_spec(s, i) {
        Err(e) => Err(e),
        Ok(item) => decode_u64_spec(item),
    }
}

/// Field `i` of the list encoded by `s`, read as a `u8` scalar.
pub open spec fn u8_at_spec(s: Seq<u8>, i: usize) -> Result<u8, DecoderError> {
    match item_at_spec(s, i) {
        Err(e) => Err(e),
        Ok(item) => decode_u8_spec(item),
    }
}

/// Field `i` of the list encoded by `s`, read as an uninterpreted
/// byte-string.
pub open spec fn bytes_at_spec(s: Seq<u8>, i: usize) -> Result<Seq<u8>, DecoderError> {
    match item_at_spec(s, i) {
        Err(e) => Err(e),
        Ok(item) => decode_value_spec(item),
    }
}

/// Field `i` of the list encoded by `s`, read as a 20-byte address.
pub open spec fn address_at_spec(s: Seq<u8>, i: usize) -> Result<Seq<u8>, DecoderError> {
    match item_at_spec(s, i) {
        Err(e) => Err(e),
        Ok(item) => decode_address_spec(item),
    }
}

/// Field `i` of the list encoded by `s`, read as a 32-byte storage key.
pub open spec fn h256_at_spec(s: Seq<u8>, i: usize) -> Result<Seq<u8>, DecoderError> {
    match item_at_spec(s, i) {
        Err(e) => Err(e),
        Ok(item) => decode_h256_spec(item),
    }
}

/// The recipient field at index `i`: an empty byte-string or the all-zero
/// address mean "no recipient"; an empty list is malformed; anything else
/// must be a 20-byte address.
pub open spec fn extract_to_spec(s: Seq<u8>, i: usize) -> Result<Option<Seq<u8>>, DecoderError> {
    match item_at_spec(s, i) {
        Err(e) => Err(e),
        Ok(item) => if item.len() >= 1 && (item[0] == 0x80 || item[0] == 0xc0) {
            if item[0] == 0x80 {
                Ok(None)
            } else {
                Err(DecoderError::RlpExpectedToBeData)
            }
        } else {
            match decode_address_spec(item) {
                Err(e) => Err(e),
                Ok(a) => if a == zero_address_seq() {
                    Ok(None)
                } else {
                    Ok(Some(a))
                },
            }
        },
    }
}

/// Extracts the payload of a byte-string item, rejecting lists and
/// non-canonical one-byte long forms.
pub(crate) fn decode_bytes(item: &Vec<u8>) -> (r: Result<Vec<u8>, DecoderError>)
    ensures
        match r {
            Ok(v) => decode_value_spec(item@) == Ok::<Seq<u8>, DecoderError>(v@),
            Err(e) => decode_value_spec(item@) == Err::<Seq<u8>, DecoderError>(e),
        },
{
    if item.len() == 0 {
        return Err(DecoderError::RlpIsTooShort);
    }
    if item[0] >= 0xc0 {
        return Err(DecoderError::RlpExpectedToBeData);
    }
    let p = match rlp_payload(item.as_slice()) {
        Some(p) => p,
        None => {
            return Err(DecoderError::RlpIsTooShort);
        },
    };
    if item[0] == 0x81 && p.len() == 1 && p[0] < 0x80 {
        return Err(DecoderError::RlpInvalidIndirection);
    }
    Ok(p)
}

/// Decodes a `u64` scalar field.
pub(crate) fn decode_u64(item: &Vec<u8>) -> (r: Result<u64, DecoderError>)
    ensures
        r == decode_u64_spec(item@),
{
    let p = match decode_bytes(item) {
        Ok(p) => p,
        Err(e) => {
            return Err(e);
        },
    };
    if p.len() == 0 {
        return Ok(0);
    }
    if p.len() > 8 {
        return Err(DecoderError::RlpIsTooBig);
    }
    if p[0] == 0 {
        return Err(DecoderError::RlpInvalidIndirection);
    }
    let mut acc: u64 = 0;
    let mut i: usize = 0;
    proof {
        assert(p@.take(0) =~= Seq::<u8>::empty());
    }
    while i < p.len()
        invariant
            i <= p@.len() <= 8,
            acc == be_val(p@.take(i as int)),
        decreases p@.len() - i,
    {
        proof {
            lemma_be_val_bound(p@.take(i as int));
            lemma_pow256_mono(i as nat, 7);
            assert(pow256(7) == 0x100_0000_0000_0000) by {
                reveal_with_fuel(pow256, 8);
            }
            lemma_be_val_take_step(p@, i as int);
        }
        acc = acc * 256 + (p[i] as u64);
        i = i + 1;
    }
    proof {
        assert(p@.take(p@.len() as int) =~= p@);
        lemma_be_val_bound(p@);
        lemma_pow256_mono(p@.len(), 8);
        assert(pow256(8) == 0x1_0000_0000_0000_0000) by {
            reveal_with_fuel(pow256, 9);
        }
    }
    Ok(acc)
}

/// Decodes a 256-bit scalar field into its 32-byte big-endian form.
pub(crate) fn decode_u256(item: &Vec<u8>) -> (r: Result<U256, DecoderError>)
    ensures
        match r {
            Ok(v) => decode_u256_spec(item@) == Ok::<Seq<u8>, DecoderError>(v@),
            Err(e) => decode_u256_spec(item@) == Err::<Seq<u8>, DecoderError>(e),
        },
{
    let p = match decode_bytes(item) {
        Ok(p) => p,
        Err(e) => {
            return Err(e);
        },
    };
    if p.len() > 0 && p[0] == 0 {
        return Err(DecoderError::RlpInvalidIndirection);
    }
    if p.len() > 32 {
        return Err(DecoderError::RlpIsTooBig);
    }
    let mut bytes = [0u8; 32];
    let offset: usize = 32 - p.len();
    let mut j: usize = 0;
    while j < p.len()
        invariant
            j <= p@.len() <= 32,
            offset == 32 - p@.len(),
            bytes@.len() == 32,
            forall|k: int| 0 <= k < offset ==> bytes@[k] == 0u8,
            forall|k: int| 0 <= k < j ==> bytes@[offset + k] == p@[k],
        decreases p@.len() - j,
    {
        bytes[offset + j] = p[j];
        j = j + 1;
    }
    proof {
        assert(bytes@ =~= pad32(p@));
    }
    Ok(U256 { bytes })
}

/// Decodes a 20-byte address field.
pub(crate) fn decode_address(item: &Vec<u8>) -> (r: Result<Address, DecoderError>)
    ensures
        match r {
            Ok(v) => decode_address_spec(item@) == Ok::<Seq<u8>, DecoderError>(v@),
            Err(e) => decode_address_spec(item@) == Err::<Seq<u8>, DecoderError>(e),
        },
{
    let p = match decode_bytes(item) {
        Ok(p) => p,
        Err(e) => {
            return Err(e);
        },
    };
    if p.len() != 20 {
        return Err(DecoderError::RlpInvalidLength);
    }
    let mut bytes = [0u8; 20];
    let mut j: usize = 0;
    while j < 20
        invariant
            j <= 20,
            p@.len() == 20,
            bytes@.len() == 20,
            forall|k: int| 0 <= k < j ==> bytes@[k] == p@[k],
        decreases 20 - j,
    {
        bytes[j] = p[j];
        j = j + 1;
    }
    proof {
        assert(bytes@ =~= p@);
    }
    Ok(Address { bytes })
}

/// Decodes a `u8` scalar field.
pub(crate) fn decode_u8(item: &Vec<u8>) -> (r: Result<u8, DecoderError>)
    ensures
        r == decode_u8_spec(item@),
{
    let p = match decode_bytes(item) {
        Ok(p) => p,
        Err(e) => {
            return Err(e);
        },
    };
    if p.len() == 0 {
        return Ok(0);
    }
    if p.len() > 1 {
        return Err(DecoderError::RlpIsTooBig);
    }
    if p[0] == 0 {
        return Err(DecoderError::RlpInvalidIndirection);
    }
    Ok(p[0])
}

/// Fetches the raw encoding of item `i` of a list.
pub(crate) fn item_at(bytes: &[u8], i: usize) -> (r: Result<Vec<u8>, DecoderError>)
    ensures
        match r {
            Ok(v) => item_at_spec(bytes@, i) == Ok::<Seq<u8>, DecoderError>(v@) && v@.len() >= 1,
            Err(e) => item_at_spec(bytes@, i) == Err::<Seq<u8>, DecoderError>(e),
        },
{
    match rlp_item_at(bytes, i) {
        Some(v) => Ok(v),
        None => Err(DecoderError::RlpIsTooShort),
    }
}

/// Reads field `i` of a list as a 256-bit scalar.
pub(crate) fn u256_at(bytes: &[u8], i: usize) -> (r: Result<U256, DecoderError>)
    ensures
        match r {
            Ok(v) => u256_at_spec(bytes@, i) == Ok::<Seq<u8>, DecoderError>(v@),
            Err(e) => u256_at_spec(bytes@, i) == Err::<Seq<u8>, DecoderError>(e),
        },
{
    match item_at(bytes, i) {
        Ok(item) => decode_u256(&item),
        Err(e) => Err(e),
    }
}

/// Reads field `i` of a list as a `u64` scalar.
pub(crate) fn u64_at(bytes: &[u8], i: usize) -> (r: Result<u64, DecoderError>)
    ensures
        r == u64_at_spec(bytes@, i),
{
    match item_at(bytes, i) {
        Ok(item) => decode_u64(&item),
        Err(e) => Err(e),
    }
}

/// Reads field `i` of a list as a `u8` scalar.
pub(crate) fn u8_at(bytes: &[u8], i: usize) -> (r: Result<u8, DecoderError>)
    ensures
        r == u8_at_spec(bytes@, i),
{
    match item_at(bytes, i) {
        Ok(item) => decode_u8(&item),
        Err(e) => Err(e),
    }
}

/// Reads field `i` of a list as an uninterpreted byte-string.
pub(crate) fn bytes_at(bytes: &[u8], i: usize) -> (r: Result<Vec<u8>, DecoderError>)
    ensures
        match r {
            Ok(v) => bytes_at_spec(bytes@, i) == Ok::<Seq<u8>, DecoderError>(v@),
            Err(e) => bytes_at_spec(bytes@, i) == Err::<Seq<u8>, DecoderError>(e),
        },
{
    match item_at(bytes, i) {
        Ok(item) => decode_bytes(&item),
        Err(e) => Err(e),
    }
}

/// Reads field `i` of a list as a 20-byte address.
pub(crate) fn address_at(bytes: &[u8], i: usize) -> (r: Result<Address, DecoderError>)
    ensures
        match r {
            Ok(v) => address_at_spec(bytes@, i) == Ok::<Seq<u8>, DecoderError>(v@),
            Err(e) => address_at_spec(bytes@, i) == Err::<Seq<u8>, DecoderError>(e),
        },
{
    match item_at(bytes, i) {
        Ok(item) => decode_address(&item),
        Err(e) => Err(e),
    }
}

/// Reads field `i` of a list as a 32-byte storage key.
pub(crate) fn h256_at(bytes: &[u8], i: usize) -> (r: Result<H256, DecoderError>)
    ensures
        match r {
            Ok(v) => h256_at_spec(bytes@, i) == Ok::<Seq<u8>, DecoderError>(v@),
            Err(e) => h256_at_spec(bytes@, i) == Err::<Seq<u8>, DecoderError>(e),
        },
{
    match item_at(bytes, i) {
        Ok(item) => decode_h256(&item),
        Err(e) => Err(e),
    }
}

/// Extracts the optional recipient at field `i` of a list.
///
/// An empty byte-string field and a recipient equal to the all-zero address
/// both mean "no recipient"; an empty field marked as a list is malformed.
pub fn rlp_extract_to(bytes: &[u8], index: usize) -> (r: Result<Option<Address>, DecoderError>)
    ensures
        match r {
            Ok(Some(a)) => extract_to_spec(bytes@, index) == Ok::<Option<Seq<u8>>, DecoderError>(
                Some(a@),
            ),
            Ok(None) => extract_to_spec(bytes@, index) == Ok::<Option<Seq<u8>>, DecoderError>(
                None,
            ),
            Err(e) => extract_to_spec(bytes@, index) == Err::<Option<Seq<u8>>, DecoderError>(e),
        },
{
    let item = match item_at(bytes, index) {
        Ok(v) => v,
        Err(e) => {
            return Err(e);
        },
    };
    if item[0] == 0x80 || item[0] == 0xc0 {
        if item[0] == 0x80 {
            Ok(None)
        } else {
            Err(DecoderError::RlpExpectedToBeData)
        }
    } else {
        let addr = match decode_address(&item) {
            Ok(a) => a,
            Err(e) => {
                return Err(e);
            },
        };
        if addr.is_zero() {
            Ok(None)
        } else {
            Ok(Some(addr))
        }
    }
}

/// Decodes a 32-byte storage key.
pub(crate) fn decode_h256(item: &Vec<u8>) -> (r: Result<H256, DecoderError>)
    ensures
        match r {
            Ok(v) => decode_h256_spec(item@) == Ok::<Seq<u8>, DecoderError>(v@),
            Err(e) => decode_h256_spec(item@) == Err::<Seq<u8>, DecoderError>(e),
        },
{
    let p = match decode_bytes(item) {
        Ok(p) => p,
        Err(e) => {
            return Err(e);
        },
    };
    if p.len() != 32 {
        return Err(DecoderError::RlpInvalidLength);
    }
    let mut bytes = [0u8; 32];
    let mut j: usize = 0;
    while j < 32
        invariant
            j <= 32,
            p@.len() == 32,
            bytes@.len() == 32,
            forall|k: int| 0 <= k < j ==> bytes@[k] == p@[k],
        decreases 32 - j,
    {
        bytes[j] = p[j];
        j = j + 1;
    }
    proof {
        assert(bytes@ =~= p@);
    }
    Ok(H256 { bytes })
}

} // verus!
