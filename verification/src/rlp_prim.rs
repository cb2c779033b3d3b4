//! The boundary to the outside RLP decoding primitive.
//!
//! The raw grammar work — counting the items of a list, locating the item at
//! an index, and splitting an item into header and payload — is done by the
//! `rlp` crate and is consumed here, not reimplemented.  Each query is a pure
//! function of the bytes it is given, so its result is given a name, and the
//! wrapper below each name promises no more than that the call returns the
//! named value.  Everything that interprets the returned bytes is verified
//! code in the rest of the crate.

use vstd::prelude::*;

verus! {

/// The number of well-formed items of the RLP list encoded by `s`, or `None`
/// when `s` does not encode a list.
pub uninterp spec fn rlp_count_of(s: Seq<u8>) -> Option<usize>;

/// The raw encoding (header and payload) of item `i` of the RLP list encoded
/// by `s`, or `None` when `s` is not a list or has no well-formed item `i`.
pub uninterp spec fn rlp_item_at_of(s: Seq<u8>, i: usize) -> Option<Seq<u8>>;

/// The payload carried by the RLP item encoded by `s` (its bytes after the
/// header), or `None` when the header is malformed or truncated.
pub uninterp spec fn rlp_payload_of(s: Seq<u8>) -> Option<Seq<u8>>;

/// Relies on `rlp::Rlp::item_count`: it returns `Ok(n)` with the number of
/// decodable items exactly when the bytes encode a list, and an error
/// otherwise.  The result depends on the bytes alone.
#[verifier::external_body]
pub(crate) fn rlp_item_count(bytes: &[u8]) -> (r: Option<usize>)
    ensures
        r == rlp_count_of(bytes@),
{
    rlp::Rlp::new(bytes).item_count().ok()
}

/// Relies on `rlp::Rlp::at` and `rlp::Rlp::as_raw`: `at(i)` returns the view
/// covering exactly the header and payload of item `i` of a list, and an
/// error when the bytes are not a list or the item is missing or malformed.
/// An item's raw encoding is never empty, since its header is at least one
/// byte.  The result depends on the bytes alone.
#[verifier::external_body]
pub(crate) fn rlp_item_at(bytes: &[u8], i: usize) -> (r: Option<Vec<u8>>)
    ensures
        r matches Some(v) ==> rlp_item_at_of(bytes@, i) == Some(v@) && v@.len() >= 1,
        r is None ==> rlp_item_at_of(bytes@, i) is None,
{
    rlp::Rlp::new(bytes).at(i).ok().map(|item| item.as_raw().to_vec())
}

/// Relies on `rlp::Rlp::data`: it parses the item's header and returns the
/// payload bytes after it, or an error when the header is malformed or claims
/// more bytes than are present.  The result depends on the bytes alone.
#[verifier::external_body]
pub(crate) fn rlp_payload(bytes: &[u8]) -> (r: Option<Vec<u8>>)
    ensures
        r matches Some(v) ==> rlp_payload_of(bytes@) == Some(v@),
        r is None ==> rlp_payload_of(bytes@) is None,
{
    rlp::Rlp::new(bytes).data().ok().map(|payload| payload.to_vec())
}

} // verus!
