//! The untyped legacy transaction format: a bare nine-item RLP list with no
//! envelope byte, carrying its optional chain id inside the signature's `v`
//! field as the replay-protection rules define.

use vstd::prelude::*;

use crate::codec::bytes_at;
use crate::codec::bytes_at_spec;
use crate::codec::extract_to_spec;
use crate::codec::rlp_extract_to;
use crate::codec::u256_at;
use crate::codec::u256_at_spec;
use crate::codec::u64_at;
use crate::codec::u64_at_spec;
use crate::codec::DecoderError;
use crate::rlp_encode::append_scalar32;
use crate::rlp_encode::append_str_item;
use crate::rlp_encode::append_to;
use crate::rlp_encode::append_u64_scalar;
use crate::rlp_encode::rlp_enc_bytes;
use crate::rlp_encode::rlp_enc_list_payload;
use crate::rlp_encode::rlp_enc_scalar_bytes;
use crate::rlp_encode::rlp_enc_to;
use crate::rlp_encode::rlp_enc_u64;
use crate::rlp_encode::wrap_list;
use crate::rlp_prim::rlp_count_of;
use crate::rlp_prim::rlp_item_count;
use crate::transaction::vrs_to_arr;
use crate::types::Address;
use crate::types::U256;
use crate::types::Wei;

verus! {

/// The unsigned body of a legacy transaction.
#[derive(Clone, Debug, PartialEq, Eq)]
pub struct TransactionLegacy {
    pub nonce: U256,
    pub gas_price: U256,
    pub gas_limit: U256,
    pub to: Option<Address>,
    pub value: Wei,
    pub data: Vec<u8>,
}

pub struct TransactionLegacyView {
    pub nonce: Seq<u8>,
    pub gas_price: Seq<u8>,
    pub gas_limit: Seq<u8>,
    pub to: Option<Seq<u8>>,
    pub value: Seq<u8>,
    pub data: Seq<u8>,
}

impl View for TransactionLegacy {
    type V = TransactionLegacyView;

    open spec fn view(&self) -> TransactionLegacyView {
        TransactionLegacyView {
            nonce: self.nonce@,
            gas_price: self.gas_price@,
            gas_limit: self.gas_limit@,
            to: match self.to {
                Some(a) => Some(a@),
                None => None,
            },
            value: self.value@,
            data: self.data@,
        }
    }
}

/// A legacy transaction together with its signature, whose `v` field may
/// carry a chain id.
#[derive(Clone, Debug, PartialEq, Eq)]
pub struct LegacyEthSignedTransaction {
    pub transaction: TransactionLegacy,
    pub v: u64,
    pub r: U256,
    pub s: U256,
}

pub struct LegacyEthSignedTransactionView {
    pub transaction: TransactionLegacyView,
    pub v: u64,
    pub r: Seq<u8>,
    pub s: Seq<u8>,
}

impl View for LegacyEthSignedTransaction {
    type V = LegacyEthSignedTransactionView;

    open spec fn view(&self) -> LegacyEthSignedTransactionView {
        LegacyEthSignedTransactionView {
            transaction: self.transaction@,
            v: self.v,
            r: self.r@,
            s: self.s@,
        }
    }
}

/// The chain id carried by a legacy `v` value: `v >= 35` encodes
/// `35 + 2 * chain_id + parity`, while smaller values predate replay
/// protection and carry none.
pub open spec fn chain_id_spec(v: u64) -> Option<u64> {
    if v >= 35 {
        Some(((v - 35) / 2) as u64)
    } else {
        None
    }
}

/// The single-byte recovery indicator of a legacy `v` value: the parity
/// extracted from a replay-protected `v`, or `v` itself truncated to a byte
/// when no chain id is carried.
pub open spec fn intrinsic_v_spec(v: u64) -> u8 {
    match chain_id_spec(v) {
        Some(chain_id) => (v - 35 - chain_id * 2) as u8,
        None => v as u8,
    }
}

/// The decoding of a legacy transaction: a nine-item list holding nonce,
/// gas price, gas limit, recipient, value, data, and the signature triple.
pub open spec fn legacy_decode_spec(s: Seq<u8>) -> Result<
    LegacyEthSignedTransactionView,
    DecoderError,
> {
    if rlp_count_of(s) is None {
        Err(DecoderError::RlpExpectedToBeList)
    } else if rlp_count_of(s) != Some(9usize) {
        Err(DecoderError::RlpIncorrectListLen)
    } else {
        match u256_at_spec(s, 0) {
            Err(e) => Err(e),
            Ok(nonce) => match u256_at_spec(s, 1) {
                Err(e) => Err(e),
                Ok(gas_price) => match u256_at_spec(s, 2) {
                    Err(e) => Err(e),
                    Ok(gas_limit) => match extract_to_spec(s, 3) {
                        Err(e) => Err(e),
                        Ok(to) => match u256_at_spec(s, 4) {
                            Err(e) => Err(e),
                            Ok(value) => match bytes_at_spec(s, 5) {
                                Err(e) => Err(e),
                                Ok(data) => match u64_at_spec(s, 6) {
                                    Err(e) => Err(e),
                                    Ok(v) => match u256_at_spec(s, 7) {
                                        Err(e) => Err(e),
                                        Ok(r) => match u256_at_spec(s, 8) {
                                            Err(e) => Err(e),
                                            Ok(sv) => Ok(
                                                LegacyEthSignedTransactionView {
                                                    transaction: TransactionLegacyView {
                                                        nonce,
                                                        gas_price,
                                                        gas_limit,
                                                        to,
                                                        value,
                                                        data,
                                                    },
                                                    v,
                                                    r,
                                                    s: sv,
                                                },
                                            ),
                                        },
                                    },
                                },
                            },
                        },
                    },
                },
            },
        }
    }
}

impl LegacyEthSignedTransaction {
    /// Decodes the nine-field RLP list of a legacy transaction.
    pub fn decode(bytes: &[u8]) -> (r: Result<LegacyEthSignedTransaction, DecoderError>)
        ensures
            match r {
                Ok(t) => legacy_decode_spec(bytes@) == Ok::<
                    LegacyEthSignedTransactionView,
                    DecoderError,
                >(t@),
                Err(e) => legacy_decode_spec(bytes@) == Err::<
                    LegacyEthSignedTransactionView,
                    DecoderError,
                >(e),
            },
    {
        let n = match rlp_item_count(bytes) {
            Some(n) => n,
            None => {
                return Err(DecoderError::RlpExpectedToBeList);
            },
        };
        if n != 9 {
            return Err(DecoderError::RlpIncorrectListLen);
        }
        let nonce = match u256_at(bytes, 0) {
            Ok(v) => v,
            Err(e) => {
                return Err(e);
            },
        };
        let gas_price = match u256_at(bytes, 1) {
            Ok(v) => v,
            Err(e) => {
                return Err(e);
            },
        };
        let gas_limit = match u256_at(bytes, 2) {
            Ok(v) => v,
            Err(e) => {
                return Err(e);
            },
        };
        let to = match rlp_extract_to(bytes, 3) {
            Ok(v) => v,
            Err(e) => {
                return Err(e);
            },
        };
        let value = match u256_at(bytes, 4) {
            Ok(v) => v,
            Err(e) => {
                return Err(e);
            },
        };
        let data = match bytes_at(bytes, 5) {
            Ok(v) => v,
            Err(e) => {
                return Err(e);
            },
        };
        let v = match u64_at(bytes, 6) {
            Ok(v) => v,
            Err(e) => {
                return Err(e);
            },
        };
        let r = match u256_at(bytes, 7) {
            Ok(v) => v,
            Err(e) => {
                return Err(e);
            },
        };
        let s = match u256_at(bytes, 8) {
            Ok(v) => v,
            Err(e) => {
                return Err(e);
            },
        };
        Ok(
            LegacyEthSignedTransaction {
                transaction: TransactionLegacy { nonce, gas_price, gas_limit, to, value, data },
                v,
                r,
                s,
            },
        )
    }

    /// The chain id encoded in the `v` field, if replay protection encoded
    /// one.
    pub fn chain_id(&self) -> (r: Option<u64>)
        ensures
            r == chain_id_spec(self.v),
    {
        if self.v >= 35 {
            Some((self.v - 35) / 2)
        } else {
            None
        }
    }

    /// The single-byte recovery indicator reconstructed from `v`.
    pub fn intrinsic_v(&self) -> (r: u8)
        ensures
            r == intrinsic_v_spec(self.v),
    {
        match self.chain_id() {
            Some(chain_id) => {
                proof {
                    assert(self.v - 35 - chain_id * 2 < 2);
                }
                (self.v - 35 - chain_id * 2) as u8
            },
            None => self.v as u8,
        }
    }

    /// The exact byte string whose hash was originally signed: the unsigned
    /// fields re-encoded as one list, with the chain id and two empty
    /// scalars appended when `v` carries replay protection.
    pub fn signing_data(&self) -> (out: Vec<u8>)
        ensures
            out@ == legacy_signing_data_spec(self@),
    {
        let mut items: Vec<u8> = Vec::new();
        append_scalar32(&mut items, &self.transaction.nonce);
        append_scalar32(&mut items, &self.transaction.gas_price);
        append_scalar32(&mut items, &self.transaction.gas_limit);
        append_to(&mut items, &self.transaction.to);
        append_scalar32(&mut items, &self.transaction.value);
        append_str_item(&mut items, self.transaction.data.as_slice());
        match self.chain_id() {
            Some(c) => {
                append_u64_scalar(&mut items, c);
                append_u64_scalar(&mut items, 0);
                append_u64_scalar(&mut items, 0);
            },
            None => {},
        }
        proof {
            assert(items@ =~= legacy_signing_items_spec(self@));
        }
        wrap_list(items)
    }

    /// Derives the signing message and the canonical 65-byte signature and
    /// delegates to the injected signature-recovery capability; whatever
    /// that capability answers on exactly those two values is returned.
    pub fn sender<F: Fn(Vec<u8>, [u8; 65]) -> Option<Address>>(&self, recover: F) -> (r: Option<
        Address,
    >)
        requires
            forall|m: Vec<u8>, sg: [u8; 65]| #[trigger] call_requires(recover, (m, sg)),
        ensures
            exists|m: Vec<u8>, sg: [u8; 65]|
                m@ == legacy_signing_data_spec(self@) && sg@ == self.r@ + self.s@ + seq![
                    intrinsic_v_spec(self.v),
                ] && #[trigger] call_ensures(recover, (m, sg), r),
    {
        let message = self.signing_data();
        let signature = vrs_to_arr(self.intrinsic_v(), self.r, self.s);
        let ghost gm = message;
        let ghost gs = signature;
        let result = recover(message, signature);
        proof {
            assert(call_ensures(recover, (gm, gs), result));
        }
        result
    }
}

/// The concatenated encodings of the fields a legacy signature covers.
pub open spec fn legacy_signing_items_spec(t: LegacyEthSignedTransactionView) -> Seq<u8> {
    rlp_enc_scalar_bytes(t.transaction.nonce) + rlp_enc_scalar_bytes(t.transaction.gas_price)
        + rlp_enc_scalar_bytes(t.transaction.gas_limit) + rlp_enc_to(t.transaction.to)
        + rlp_enc_scalar_bytes(t.transaction.value) + rlp_enc_bytes(t.transaction.data) + match chain_id_spec(
        t.v,
    ) {
        Some(c) => rlp_enc_u64(c) + rlp_enc_u64(0) + rlp_enc_u64(0),
        None => Seq::<u8>::empty(),
    }
}

/// The signing message of a legacy transaction: its covered fields as one
/// RLP list.
pub open spec fn legacy_signing_data_spec(t: LegacyEthSignedTransactionView) -> Seq<u8> {
    rlp_enc_list_payload(legacy_signing_items_spec(t))
}

} // verus!
