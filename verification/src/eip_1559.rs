//! The fee-market transaction format: type byte `0x02`, which replaces the
//! single gas price with a priority fee and a fee cap.

use vstd::prelude::*;

use crate::codec::bytes_at;
use crate::codec::bytes_at_spec;
use crate::codec::extract_to_spec;
use crate::codec::rlp_extract_to;
use crate::codec::u256_at;
use crate::codec::u256_at_spec;
use crate::codec::u64_at;
use crate::codec::u64_at_spec;
use crate::codec::u8_at;
use crate::codec::u8_at_spec;
use crate::codec::DecoderError;
use crate::eip_2930::access_list_at_spec;
use crate::eip_2930::decode_access_list;
use crate::eip_2930::AccessTuple;
use crate::eip_2930::AccessTupleView;
use crate::rlp_encode::append_access_list;
use crate::rlp_encode::append_scalar32;
use crate::rlp_encode::append_str_item;
use crate::rlp_encode::append_to;
use crate::rlp_encode::append_u64_scalar;
use crate::rlp_encode::push_all;
use crate::rlp_encode::rlp_enc_access_list;
use crate::rlp_encode::rlp_enc_bytes;
use crate::rlp_encode::rlp_enc_list_payload;
use crate::rlp_encode::rlp_enc_scalar_bytes;
use crate::rlp_encode::rlp_enc_to;
use crate::rlp_encode::rlp_enc_u64;
use crate::rlp_encode::wrap_list;
use crate::rlp_prim::rlp_count_of;
use crate::rlp_prim::rlp_item_count;
use crate::transaction::vrs_to_arr;
use crate::types::Address;
use crate::types::U256;
use crate::types::Wei;

verus! {

/// The leading envelope byte that selects this format.
pub const TYPE_BYTE: u8 = 0x02;

/// The unsigned body of a fee-market transaction.
#[derive(Clone, Debug, PartialEq, Eq)]
pub struct Transaction1559 {
    pub chain_id: u64,
    pub nonce: U256,
    pub max_priority_fee_per_gas: U256,
    pub max_fee_per_gas: U256,
    pub gas_limit: U256,
    pub to: Option<Address>,
    pub value: Wei,
    pub data: Vec<u8>,
    pub access_list: Vec<AccessTuple>,
}

pub struct Transaction1559View {
    pub chain_id: u64,
    pub nonce: Seq<u8>,
    pub max_priority_fee_per_gas: Seq<u8>,
    pub max_fee_per_gas: Seq<u8>,
    pub gas_limit: Seq<u8>,
    pub to: Option<Seq<u8>>,
    pub value: Seq<u8>,
    pub data: Seq<u8>,
    pub access_list: Seq<AccessTupleView>,
}

impl View for Transaction1559 {
    type V = Transaction1559View;

    open spec fn view(&self) -> Transaction1559View {
        Transaction1559View {
            chain_id: self.chain_id,
            nonce: self.nonce@,
            max_priority_fee_per_gas: self.max_priority_fee_per_gas@,
            max_fee_per_gas: self.max_fee_per_gas@,
            gas_limit: self.gas_limit@,
            to: match self.to {
                Some(a) => Some(a@),
                None => None,
            },
            value: self.value@,
            data: self.data@,
            access_list: self.access_list@.map_values(|t: AccessTuple| t@),
        }
    }
}

/// A fee-market transaction together with its signature.
#[derive(Clone, Debug, PartialEq, Eq)]
pub struct SignedTransaction1559 {
    pub transaction: Transaction1559,
    /// The recovery indicator of the signature.
    pub parity: u8,
    pub r: U256,
    pub s: U256,
}

pub struct SignedTransaction1559View {
    pub transaction: Transaction1559View,
    pub parity: u8,
    pub r: Seq<u8>,
    pub s: Seq<u8>,
}

impl View for SignedTransaction1559 {
    type V = SignedTransaction1559View;

    open spec fn view(&self) -> SignedTransaction1559View {
        SignedTransaction1559View {
            transaction: self.transaction@,
            parity: self.parity,
            r: self.r@,
            s: self.s@,
        }
    }
}

/// The decoding of a fee-market transaction body: a twelve-item list holding
/// chain id, nonce, the two fee fields, gas limit, recipient, value, data,
/// access list, and the signature triple.
pub open spec fn eip1559_decode_spec(s: Seq<u8>) -> Result<SignedTransaction1559View, DecoderError> {
    if rlp_count_of(s) is None {
        Err(DecoderError::RlpExpectedToBeList)
    } else if rlp_count_of(s) != Some(12usize) {
        Err(DecoderError::RlpIncorrectListLen)
    } else {
        match u64_at_spec(s, 0) {
            Err(e) => Err(e),
            Ok(chain_id) => match u256_at_spec(s, 1) {
                Err(e) => Err(e),
                Ok(nonce) => match u256_at_spec(s, 2) {
                    Err(e) => Err(e),
                    Ok(max_priority_fee_per_gas) => match u256_at_spec(s, 3) {
                        Err(e) => Err(e),
                        Ok(max_fee_per_gas) => match u256_at_spec(s, 4) {
                            Err(e) => Err(e),
                            Ok(gas_limit) => match extract_to_spec(s, 5) {
                                Err(e) => Err(e),
                                Ok(to) => match u256_at_spec(s, 6) {
                                    Err(e) => Err(e),
                                    Ok(value) => match bytes_at_spec(s, 7) {
                                        Err(e) => Err(e),
                                        Ok(data) => match access_list_at_spec(s, 8) {
                                            Err(e) => Err(e),
                                            Ok(access_list) => match u8_at_spec(s, 9) {
                                                Err(e) => Err(e),
                                                Ok(parity) => match u256_at_spec(s, 10) {
                                                    Err(e) => Err(e),
                                                    Ok(r) => match u256_at_spec(s, 11) {
                                                        Err(e) => Err(e),
                                                        Ok(sv) => Ok(
                                                            SignedTransaction1559View {
                                                                transaction: Transaction1559View {
                                                                    chain_id,
                                                                    nonce,
                                                                    max_priority_fee_per_gas,
                                                                    max_fee_per_gas,
                                                                    gas_limit,
                                                                    to,
                                                                    value,
                                                                    data,
                                                                    access_list,
                                                                },
                                                                parity,
                                                                r,
                                                                s: sv,
                                                            },
                                                        ),
                                                    },
                                                },
                                            },
                                        },
                                    },
                                },
                            },
                        },
                    },
                },
            },
        }
    }
}

impl SignedTransaction1559 {
    /// Decodes the twelve-field RLP body of a fee-market transaction.
    pub fn decode(bytes: &[u8]) -> (r: Result<SignedTransaction1559, DecoderError>)
        ensures
            match r {
                Ok(t) => eip1559_decode_spec(bytes@) == Ok::<SignedTransaction1559View, DecoderError>(
                    t@,
                ),
                Err(e) => eip1559_decode_spec(bytes@) == Err::<
                    SignedTransaction1559View,
                    DecoderError,
                >(e),
            },
    {
        let n = match rlp_item_count(bytes) {
            Some(n) => n,
            None => {
                return Err(DecoderError::RlpExpectedToBeList);
            },
        };
        if n != 12 {
            return Err(DecoderError::RlpIncorrectListLen);
        }
        let chain_id = match u64_at(bytes, 0) {
            Ok(v) => v,
            Err(e) => {
                return Err(e);
            },
        };
        let nonce = match u256_at(bytes, 1) {
            Ok(v) => v,
            Err(e) => {
                return Err(e);
            },
        };
        let max_priority_fee_per_gas = match u256_at(bytes, 2) {
            Ok(v) => v,
            Err(e) => {
                return Err(e);
            },
        };
        let max_fee_per_gas = match u256_at(bytes, 3) {
            Ok(v) => v,
            Err(e) => {
                return Err(e);
            },
        };
        let gas_limit = match u256_at(bytes, 4) {
            Ok(v) => v,
            Err(e) => {
                return Err(e);
            },
        };
        let to = match rlp_extract_to(bytes, 5) {
            Ok(v) => v,
            Err(e) => {
                return Err(e);
            },
        };
        let value = match u256_at(bytes, 6) {
            Ok(v) => v,
            Err(e) => {
                return Err(e);
            },
        };
        let data = match bytes_at(bytes, 7) {
            Ok(v) => v,
            Err(e) => {
                return Err(e);
            },
        };
        let access_list = match decode_access_list(bytes, 8) {
            Ok(v) => v,
            Err(e) => {
                return Err(e);
            },
        };
        let parity = match u8_at(bytes, 9) {
            Ok(v) => v,
            Err(e) => {
                return Err(e);
            },
        };
        let r = match u256_at(bytes, 10) {
            Ok(v) => v,
            Err(e) => {
                return Err(e);
            },
        };
        let s = match u256_at(bytes, 11) {
            Ok(v) => v,
            Err(e) => {
                return Err(e);
            },
        };
        Ok(
            SignedTransaction1559 {
                transaction: Transaction1559 {
                    chain_id,
                    nonce,
                    max_priority_fee_per_gas,
                    max_fee_per_gas,
                    gas_limit,
                    to,
                    value,
                    data,
                    access_list,
                },
                parity,
                r,
                s,
            },
        )
    }

    /// The exact byte string whose hash was originally signed: the type
    /// byte followed by the unsigned fields re-encoded as one list.
    pub fn signing_data(&self) -> (out: Vec<u8>)
        ensures
            out@ == eip1559_signing_data_spec(self@),
    {
        let mut items: Vec<u8> = Vec::new();
        append_u64_scalar(&mut items, self.transaction.chain_id);
        append_scalar32(&mut items, &self.transaction.nonce);
        append_scalar32(&mut items, &self.transaction.max_priority_fee_per_gas);
        append_scalar32(&mut items, &self.transaction.max_fee_per_gas);
        append_scalar32(&mut items, &self.transaction.gas_limit);
        append_to(&mut items, &self.transaction.to);
        append_scalar32(&mut items, &self.transaction.value);
        append_str_item(&mut items, self.transaction.data.as_slice());
        append_access_list(&mut items, &self.transaction.access_list);
        proof {
            assert(items@ =~= eip1559_signing_items_spec(self@.transaction));
        }
        let wrapped = wrap_list(items);
        let mut out: Vec<u8> = Vec::new();
        out.push(TYPE_BYTE);
        push_all(&mut out, wrapped.as_slice());
        proof {
            assert(out@ =~= eip1559_signing_data_spec(self@));
        }
        out
    }

    /// Derives the signing message and the canonical 65-byte signature and
    /// delegates to the injected signature-recovery capability; whatever
    /// that capability answers on exactly those two values is returned.
    pub fn sender<F: Fn(Vec<u8>, [u8; 65]) -> Option<Address>>(&self, recover: F) -> (r: Option<
        Address,
    >)
        requires
            forall|m: Vec<u8>, sg: [u8; 65]| #[trigger] call_requires(recover, (m, sg)),
        ensures
            exists|m: Vec<u8>, sg: [u8; 65]|
                m@ == eip1559_signing_data_spec(self@) && sg@ == self.r@ + self.s@ + seq![
                    self.parity,
                ] && #[trigger] call_ensures(recover, (m, sg), r),
    {
        let message = self.signing_data();
        let signature = vrs_to_arr(self.parity, self.r, self.s);
        let ghost gm = message;
        let ghost gs = signature;
        let result = recover(message, signature);
        proof {
            assert(call_ensures(recover, (gm, gs), result));
        }
        result
    }
}

/// The concatenated encodings of the fields a fee-market signature covers.
pub open spec fn eip1559_signing_items_spec(t: Transaction1559View) -> Seq<u8> {
    rlp_enc_u64(t.chain_id) + rlp_enc_scalar_bytes(t.nonce) + rlp_enc_scalar_bytes(
        t.max_priority_fee_per_gas,
    ) + rlp_enc_scalar_bytes(t.max_fee_per_gas) + rlp_enc_scalar_bytes(t.gas_limit) + rlp_enc_to(
        t.to,
    ) + rlp_enc_scalar_bytes(t.value) + rlp_enc_bytes(t.data) + rlp_enc_access_list(t.access_list)
}

/// The signing message of a fee-market transaction: the type byte, then its
/// covered fields as one RLP list.
pub open spec fn eip1559_signing_data_spec(t: SignedTransaction1559View) -> Seq<u8> {
    seq![0x02u8] + rlp_enc_list_payload(eip1559_signing_items_spec(t.transaction))
}

} // verus!
