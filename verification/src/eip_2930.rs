//! The access-list transaction format: type byte `0x01`.

use vstd::prelude::*;

use crate::codec::address_at;
use crate::codec::address_at_spec;
use crate::codec::bytes_at;
use crate::codec::bytes_at_spec;
use crate::codec::extract_to_spec;
use crate::codec::h256_at;
use crate::codec::h256_at_spec;
use crate::codec::item_at;
use crate::codec::item_at_spec;
use crate::codec::rlp_extract_to;
use crate::codec::u256_at;
use crate::codec::u256_at_spec;
use crate::codec::u64_at;
use crate::codec::u64_at_spec;
use crate::codec::u8_at;
use crate::codec::u8_at_spec;
use crate::codec::DecoderError;
use crate::rlp_encode::append_access_list;
use crate::rlp_encode::append_scalar32;
use crate::rlp_encode::append_str_item;
use crate::rlp_encode::append_to;
use crate::rlp_encode::append_u64_scalar;
use crate::rlp_encode::push_all;
use crate::rlp_encode::rlp_enc_access_list;
use crate::rlp_encode::rlp_enc_bytes;
use crate::rlp_encode::rlp_enc_list_payload;
use crate::rlp_encode::rlp_enc_scalar_bytes;
use crate::rlp_encode::rlp_enc_to;
use crate::rlp_encode::rlp_enc_u64;
use crate::rlp_encode::wrap_list;
use crate::rlp_prim::rlp_count_of;
use crate::rlp_prim::rlp_item_count;
use crate::transaction::vrs_to_arr;
use crate::types::Address;
use crate::types::H256;
use crate::types::U256;
use crate::types::Wei;

verus! {

/// The leading envelope byte that selects this format.
pub const TYPE_BYTE: u8 = 0x01;

/// One access-list entry: an address and the storage keys declared for it.
///
/// Order is significant and duplicates are permitted; every entry and every
/// key is charged independently.
#[derive(Clone, Debug, PartialEq, Eq)]
pub struct AccessTuple {
    pub address: Address,
    pub storage_keys: Vec<H256>,
}

pub struct AccessTupleView {
    pub address: Seq<u8>,
    pub storage_keys: Seq<Seq<u8>>,
}

impl View for AccessTuple {
    type V = AccessTupleView;

    open spec fn view(&self) -> AccessTupleView {
        AccessTupleView {
            address: self.address@,
            storage_keys: self.storage_keys@.map_values(|k: H256| k@),
        }
    }
}

/// The storage keys of an access-list entry: field 1 of the entry, which
/// must be a list of 32-byte keys.
pub open spec fn storage_keys_spec(entry: Seq<u8>) -> Result<Seq<Seq<u8>>, DecoderError> {
    match item_at_spec(entry, 1) {
        Err(e) => Err(e),
        Ok(ks) => match rlp_count_of(ks) {
            None => Err(DecoderError::RlpExpectedToBeList),
            Some(m) => key_entries_spec(ks, m as int),
        },
    }
}

/// The first `m` keys of the key list encoded by `ks`.
pub open spec fn key_entries_spec(ks: Seq<u8>, m: int) -> Result<Seq<Seq<u8>>, DecoderError>
    decreases m,
{
    if m <= 0 {
        Ok(Seq::empty())
    } else {
        match key_entries_spec(ks, m - 1) {
            Err(e) => Err(e),
            Ok(pre) => match h256_at_spec(ks, (m - 1) as usize) {
                Err(e) => Err(e),
                Ok(k) => Ok(pre.push(k)),
            },
        }
    }
}

/// Entry `j` of the access list encoded by `al`: a list holding an address
/// and a list of storage keys.
pub open spec fn access_entry_spec(al: Seq<u8>, j: usize) -> Result<AccessTupleView, DecoderError> {
    match item_at_spec(al, j) {
        Err(e) => Err(e),
        Ok(entry) => match address_at_spec(entry, 0) {
            Err(e) => Err(e),
            Ok(addr) => match storage_keys_spec(entry) {
                Err(e) => Err(e),
                Ok(keys) => Ok(AccessTupleView { address: addr, storage_keys: keys }),
            },
        },
    }
}

/// The first `n` entries of the access list encoded by `al`.
pub open spec fn access_entries_spec(al: Seq<u8>, n: int) -> Result<Seq<AccessTupleView>, DecoderError>
    decreases n,
{
    if n <= 0 {
        Ok(Seq::empty())
    } else {
        match access_entries_spec(al, n - 1) {
            Err(e) => Err(e),
            Ok(pre) => match access_entry_spec(al, (n - 1) as usize) {
                Err(e) => Err(e),
                Ok(t) => Ok(pre.push(t)),
            },
        }
    }
}

/// Field `i` of the list encoded by `s`, read as a whole access list.
pub open spec fn access_list_at_spec(s: Seq<u8>, i: usize) -> Result<
    Seq<AccessTupleView>,
    DecoderError,
> {
    match item_at_spec(s, i) {
        Err(e) => Err(e),
        Ok(al) => match rlp_count_of(al) {
            None => Err(DecoderError::RlpExpectedToBeList),
            Some(n) => access_entries_spec(al, n as int),
        },
    }
}

/// A key list whose first `j` keys decode but whose key `j` fails reports
/// that first failure, however many keys follow.
proof fn lemma_key_entries_propagate(ks: Seq<u8>, j: usize, m: int, e: DecoderError)
    requires
        j < m,
        key_entries_spec(ks, j as int) is Ok,
        h256_at_spec(ks, j) == Err::<Seq<u8>, DecoderError>(e),
    ensures
        key_entries_spec(ks, m) == Err::<Seq<Seq<u8>>, DecoderError>(e),
    decreases m,
{
    if m > j + 1 {
        lemma_key_entries_propagate(ks, j, m - 1, e);
    }
}

/// An access list whose first `j` entries decode but whose entry `j` fails
/// reports that first failure, however many entries follow.
proof fn lemma_access_entries_propagate(al: Seq<u8>, j: usize, n: int, e: DecoderError)
    requires
        j < n,
        access_entries_spec(al, j as int) is Ok,
        access_entry_spec(al, j) == Err::<AccessTupleView, DecoderError>(e),
    ensures
        access_entries_spec(al, n) == Err::<Seq<AccessTupleView>, DecoderError>(e),
    decreases n,
{
    if n > j + 1 {
        lemma_access_entries_propagate(al, j, n - 1, e);
    }
}

/// Decodes the storage-key list of one access-list entry.
fn decode_storage_keys(entry: &[u8]) -> (r: Result<Vec<H256>, DecoderError>)
    ensures
        match r {
            Ok(v) => storage_keys_spec(entry@) == Ok::<Seq<Seq<u8>>, DecoderError>(
                v@.map_values(|k: H256| k@),
            ),
            Err(e) => storage_keys_spec(entry@) == Err::<Seq<Seq<u8>>, DecoderError>(e),
        },
{
    let ks = match item_at(entry, 1) {
        Ok(v) => v,
        Err(e) => {
            return Err(e);
        },
    };
    let m = match rlp_item_count(ks.as_slice()) {
        Some(m) => m,
        None => {
            return Err(DecoderError::RlpExpectedToBeList);
        },
    };
    let mut keys: Vec<H256> = Vec::new();
    let mut j: usize = 0;
    proof {
        assert(keys@.map_values(|k: H256| k@) =~= Seq::<Seq<u8>>::empty());
    }
    while j < m
        invariant
            j <= m,
            item_at_spec(entry@, 1) == Ok::<Seq<u8>, DecoderError>(ks@),
            rlp_count_of(ks@) == Some(m),
            key_entries_spec(ks@, j as int) == Ok::<Seq<Seq<u8>>, DecoderError>(
                keys@.map_values(|k: H256| k@),
            ),
        decreases m - j,
    {
        let k = match h256_at(ks.as_slice(), j) {
            Ok(k) => k,
            Err(e) => {
                proof {
                    lemma_key_entries_propagate(ks@, j, m as int, e);
                }
                return Err(e);
            },
        };
        let ghost pre = keys@.map_values(|kk: H256| kk@);
        keys.push(k);
        proof {
            assert(keys@.map_values(|kk: H256| kk@) =~= pre.push(k@));
        }
        j = j + 1;
    }
    Ok(keys)
}

/// Decodes entry `j` of an access list.
fn decode_access_entry(al: &[u8], j: usize) -> (r: Result<AccessTuple, DecoderError>)
    ensures
        match r {
            Ok(t) => access_entry_spec(al@, j) == Ok::<AccessTupleView, DecoderError>(t@),
            Err(e) => access_entry_spec(al@, j) == Err::<AccessTupleView, DecoderError>(e),
        },
{
    let entry = match item_at(al, j) {
        Ok(v) => v,
        Err(e) => {
            return Err(e);
        },
    };
    let address = match address_at(entry.as_slice(), 0) {
        Ok(a) => a,
        Err(e) => {
            return Err(e);
        },
    };
    let storage_keys = match decode_storage_keys(entry.as_slice()) {
        Ok(k) => k,
        Err(e) => {
            return Err(e);
        },
    };
    Ok(AccessTuple { address, storage_keys })
}

/// Decodes field `i` of a list as a whole access list.
pub(crate) fn decode_access_list(bytes: &[u8], index: usize) -> (r: Result<
    Vec<AccessTuple>,
    DecoderError,
>)
    ensures
        match r {
            Ok(v) => access_list_at_spec(bytes@, index) == Ok::<Seq<AccessTupleView>, DecoderError>(
                v@.map_values(|t: AccessTuple| t@),
            ),
            Err(e) => access_list_at_spec(bytes@, index) == Err::<
                Seq<AccessTupleView>,
                DecoderError,
            >(e),
        },
{
    let al = match item_at(bytes, index) {
        Ok(v) => v,
        Err(e) => {
            return Err(e);
        },
    };
    let n = match rlp_item_count(al.as_slice()) {
        Some(n) => n,
        None => {
            return Err(DecoderError::RlpExpectedToBeList);
        },
    };
    let mut entries: Vec<AccessTuple> = Vec::new();
    let mut j: usize = 0;
    proof {
        assert(entries@.map_values(|t: AccessTuple| t@) =~= Seq::<AccessTupleView>::empty());
    }
    while j < n
        invariant
            j <= n,
            item_at_spec(bytes@, index) == Ok::<Seq<u8>, DecoderError>(al@),
            rlp_count_of(al@) == Some(n),
            access_entries_spec(al@, j as int) == Ok::<Seq<AccessTupleView>, DecoderError>(
                entries@.map_values(|t: AccessTuple| t@),
            ),
        decreases n - j,
    {
        let entry = match decode_access_entry(al.as_slice(), j) {
            Ok(t) => t,
            Err(e) => {
                proof {
                    lemma_access_entries_propagate(al@, j, n as int, e);
                }
                return Err(e);
            },
        };
        let ghost pre = entries@.map_values(|t: AccessTuple| t@);
        entries.push(entry);
        proof {
            assert(entries@.map_values(|t: AccessTuple| t@) =~= pre.push(entry@));
        }
        j = j + 1;
    }
    Ok(entries)
}

/// The unsigned body of an access-list transaction.
#[derive(Clone, Debug, PartialEq, Eq)]
pub struct Transaction2930 {
    pub chain_id: u64,
    pub nonce: U256,
    pub gas_price: U256,
    pub gas_limit: U256,
    pub to: Option<Address>,
    pub value: Wei,
    pub data: Vec<u8>,
    pub access_list: Vec<AccessTuple>,
}

pub struct Transaction2930View {
    pub chain_id: u64,
    pub nonce: Seq<u8>,
    pub gas_price: Seq<u8>,
    pub gas_limit: Seq<u8>,
    pub to: Option<Seq<u8>>,
    pub value: Seq<u8>,
    pub data: Seq<u8>,
    pub access_list: Seq<AccessTupleView>,
}

impl View for Transaction2930 {
    type V = Transaction2930View;

    open spec fn view(&self) -> Transaction2930View {
        Transaction2930View {
            chain_id: self.chain_id,
            nonce: self.nonce@,
            gas_price: self.gas_price@,
            gas_limit: self.gas_limit@,
            to: match self.to {
                Some(a) => Some(a@),
                None => None,
            },
            value: self.value@,
            data: self.data@,
            access_list: self.access_list@.map_values(|t: AccessTuple| t@),
        }
    }
}

/// An access-list transaction together with its signature.
#[derive(Clone, Debug, PartialEq, Eq)]
pub struct SignedTransaction2930 {
    pub transaction: Transaction2930,
    /// The recovery indicator of the signature.
    pub parity: u8,
    pub r: U256,
    pub s: U256,
}

pub struct SignedTransaction2930View {
    pub transaction: Transaction2930View,
    pub parity: u8,
    pub r: Seq<u8>,
    pub s: Seq<u8>,
}

impl View for SignedTransaction2930 {
    type V = SignedTransaction2930View;

    open spec fn view(&self) -> SignedTransaction2930View {
        SignedTransaction2930View {
            transaction: self.transaction@,
            parity: self.parity,
            r: self.r@,
            s: self.s@,
        }
    }
}

/// The decoding of an access-list transaction body: an eleven-item list
/// holding chain id, nonce, gas price, gas limit, recipient, value, data,
/// access list, and the signature triple.
pub open spec fn eip2930_decode_spec(s: Seq<u8>) -> Result<SignedTransaction2930View, DecoderError> {
    if rlp_count_of(s) is None {
        Err(DecoderError::RlpExpectedToBeList)
    } else if rlp_count_of(s) != Some(11usize) {
        Err(DecoderError::RlpIncorrectListLen)
    } else {
        match u64_at_spec(s, 0) {
            Err(e) => Err(e),
            Ok(chain_id) => match u256_at_spec(s, 1) {
                Err(e) => Err(e),
                Ok(nonce) => match u256_at_spec(s, 2) {
                    Err(e) => Err(e),
                    Ok(gas_price) => match u256_at_spec(s, 3) {
                        Err(e) => Err(e),
                        Ok(gas_limit) => match extract_to_spec(s, 4) {
                            Err(e) => Err(e),
                            Ok(to) => match u256_at_spec(s, 5) {
                                Err(e) => Err(e),
                                Ok(value) => match bytes_at_spec(s, 6) {
                                    Err(e) => Err(e),
                                    Ok(data) => match access_list_at_spec(s, 7) {
                                        Err(e) => Err(e),
                                        Ok(access_list) => match u8_at_spec(s, 8) {
                                            Err(e) => Err(e),
                                            Ok(parity) => match u256_at_spec(s, 9) {
                                                Err(e) => Err(e),
                                                Ok(r) => match u256_at_spec(s, 10) {
                                                    Err(e) => Err(e),
                                                    Ok(sv) => Ok(
                                                        SignedTransaction2930View {
                                                            transaction: Transaction2930View {
                                                                chain_id,
                                                                nonce,
                                                                gas_price,
                                                                gas_limit,
                                                                to,
                                                                value,
                                                                data,
                                                                access_list,
                                                            },
                                                            parity,
                                                            r,
                                                            s: sv,
                                                        },
                                                    ),
                                                },
                                            },
                                        },
                                    },
                                },
                            },
                        },
                    },
                },
            },
        }
    }
}

impl SignedTransaction2930 {
    /// Decodes the eleven-field RLP body of an access-list transaction.
    pub fn decode(bytes: &[u8]) -> (r: Result<SignedTransaction2930, DecoderError>)
        ensures
            match r {
                Ok(t) => eip2930_decode_spec(bytes@) == Ok::<SignedTransaction2930View, DecoderError>(
                    t@,
                ),
                Err(e) => eip2930_decode_spec(bytes@) == Err::<
                    SignedTransaction2930View,
                    DecoderError,
                >(e),
            },
    {
        let n = match rlp_item_count(bytes) {
            Some(n) => n,
            None => {
                return Err(DecoderError::RlpExpectedToBeList);
            },
        };
        if n != 11 {
            return Err(DecoderError::RlpIncorrectListLen);
        }
        let chain_id = match u64_at(bytes, 0) {
            Ok(v) => v,
            Err(e) => {
                return Err(e);
            },
        };
        let nonce = match u256_at(bytes, 1) {
            Ok(v) => v,
            Err(e) => {
                return Err(e);
            },
        };
        let gas_price = match u256_at(bytes, 2) {
            Ok(v) => v,
            Err(e) => {
                return Err(e);
            },
        };
        let gas_limit = match u256_at(bytes, 3) {
            Ok(v) => v,
            Err(e) => {
                return Err(e);
            },
        };
        let to = match rlp_extract_to(bytes, 4) {
            Ok(v) => v,
            Err(e) => {
                return Err(e);
            },
        };
        let value = match u256_at(bytes, 5) {
            Ok(v) => v,
            Err(e) => {
                return Err(e);
            },
        };
        let data = match bytes_at(bytes, 6) {
            Ok(v) => v,
            Err(e) => {
                return Err(e);
            },
        };
        let access_list = match decode_access_list(bytes, 7) {
            Ok(v) => v,
            Err(e) => {
                return Err(e);
            },
        };
        let parity = match u8_at(bytes, 8) {
            Ok(v) => v,
            Err(e) => {
                return Err(e);
            },
        };
        let r = match u256_at(bytes, 9) {
            Ok(v) => v,
            Err(e) => {
                return Err(e);
            },
        };
        let s = match u256_at(bytes, 10) {
            Ok(v) => v,
            Err(e) => {
                return Err(e);
            },
        };
        Ok(
            SignedTransaction2930 {
                transaction: Transaction2930 {
                    chain_id,
                    nonce,
                    gas_price,
                    gas_limit,
                    to,
                    value,
                    data,
                    access_list,
                },
                parity,
                r,
                s,
            },
        )
    }

    /// The exact byte string whose hash was originally signed: the type
    /// byte followed by the unsigned fields re-encoded as one list.
    pub fn signing_data(&self) -> (out: Vec<u8>)
        ensures
            out@ == eip2930_signing_data_spec(self@),
    {
        let mut items: Vec<u8> = Vec::new();
        append_u64_scalar(&mut items, self.transaction.chain_id);
        append_scalar32(&mut items, &self.transaction.nonce);
        append_scalar32(&mut items, &self.transaction.gas_price);
        append_scalar32(&mut items, &self.transaction.gas_limit);
        append_to(&mut items, &self.transaction.to);
        append_scalar32(&mut items, &self.transaction.value);
        append_str_item(&mut items, self.transaction.data.as_slice());
        append_access_list(&mut items, &self.transaction.access_list);
        proof {
            assert(items@ =~= eip2930_signing_items_spec(self@.transaction));
        }
        let wrapped = wrap_list(items);
        let mut out: Vec<u8> = Vec::new();
        out.push(TYPE_BYTE);
        push_all(&mut out, wrapped.as_slice());
        proof {
            assert(out@ =~= eip2930_signing_data_spec(self@));
        }
        out
    }

    /// Derives the signing message and the canonical 65-byte signature and
    /// delegates to the injected signature-recovery capability; whatever
    /// that capability answers on exactly those two values is returned.
    pub fn sender<F: Fn(Vec<u8>, [u8; 65]) -> Option<Address>>(&self, recover: F) -> (r: Option<
        Address,
    >)
        requires
            forall|m: Vec<u8>, sg: [u8; 65]| #[trigger] call_requires(recover, (m, sg)),
        ensures
            exists|m: Vec<u8>, sg: [u8; 65]|
                m@ == eip2930_signing_data_spec(self@) && sg@ == self.r@ + self.s@ + seq![
                    self.parity,
                ] && #[trigger] call_ensures(recover, (m, sg), r),
    {
        let message = self.signing_data();
        let signature = vrs_to_arr(self.parity, self.r, self.s);
        let ghost gm = message;
        let ghost gs = signature;
        let result = recover(message, signature);
        proof {
            assert(call_ensures(recover, (gm, gs), result));
        }
        result
    }
}

/// The concatenated encodings of the fields an access-list signature
/// covers.
pub open spec fn eip2930_signing_items_spec(t: Transaction2930View) -> Seq<u8> {
    rlp_enc_u64(t.chain_id) + rlp_enc_scalar_bytes(t.nonce) + rlp_enc_scalar_bytes(t.gas_price)
        + rlp_enc_scalar_bytes(t.gas_limit) + rlp_enc_to(t.to) + rlp_enc_scalar_bytes(t.value)
        + rlp_enc_bytes(t.data) + rlp_enc_access_list(t.access_list)
}

/// The signing message of an access-list transaction: the type byte, then
/// its covered fields as one RLP list.
pub open spec fn eip2930_signing_data_spec(t: SignedTransaction2930View) -> Seq<u8> {
    seq![0x01u8] + rlp_enc_list_payload(eip2930_signing_items_spec(t.transaction))
}

} // verus!
