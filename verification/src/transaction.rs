//! The typed-transaction envelope: classification of raw payloads, the
//! normalization of every decoded variant into one canonical shape, and the
//! intrinsic-gas calculation over that shape.

use vstd::prelude::*;

use crate::codec::DecoderError;
use crate::eip_1559;
use crate::eip_1559::SignedTransaction1559;
use crate::eip_1559::SignedTransaction1559View;
use crate::eip_2930;
use crate::eip_2930::eip2930_decode_spec;
use crate::eip_2930::AccessTuple;
use crate::eip_2930::SignedTransaction2930;
use crate::eip_2930::SignedTransaction2930View;
use crate::legacy::legacy_decode_spec;
use crate::legacy::LegacyEthSignedTransaction;
use crate::legacy::LegacyEthSignedTransactionView;
use crate::types::Address;
use crate::types::GasConfig;
use crate::types::U256;
use crate::types::Wei;

verus! {

/// Why a raw payload was rejected without yielding a transaction.
#[derive(Clone, Copy, Debug, PartialEq, Eq, Structural)]
pub enum ParseTransactionError {
    /// The leading byte is in the reserved range `0x00..=0x7f` but selects
    /// no known format.
    UnknownTransactionType,
    /// The leading byte is `0xff`, which the envelope standard permanently
    /// excludes.
    ReservedSentinel,
    /// The selected decoder rejected the payload's structure.
    RlpDecodeError(DecoderError),
}

impl core::convert::From<DecoderError> for ParseTransactionError {
    fn from(e: DecoderError) -> (r: ParseTransactionError) {
        ParseTransactionError::RlpDecodeError(e)
    }
}

impl vstd::std_specs::convert::FromSpecImpl<DecoderError> for ParseTransactionError {
    open spec fn obeys_from_spec() -> bool {
        true
    }

    open spec fn from_spec(e: DecoderError) -> ParseTransactionError {
        ParseTransactionError::RlpDecodeError(e)
    }
}

impl ParseTransactionError {
    /// The fixed ASCII identifier of this rejection, for a host-level
    /// message.
    pub fn as_ref(&self) -> (r: &'static str)
        ensures
            r@ == match self {
                ParseTransactionError::UnknownTransactionType => "ERR_UNKNOWN_TX_TYPE"@,
                ParseTransactionError::ReservedSentinel => "ERR_RESERVED_LEADING_TX_BYTE"@,
                ParseTransactionError::RlpDecodeError(_) => "ERR_TX_RLP_DECODE"@,
            },
    {
        match self {
            ParseTransactionError::UnknownTransactionType => "ERR_UNKNOWN_TX_TYPE",
            ParseTransactionError::ReservedSentinel => "ERR_RESERVED_LEADING_TX_BYTE",
            ParseTransactionError::RlpDecodeError(_) => "ERR_TX_RLP_DECODE",
        }
    }
}

/// The typed transaction envelope: exactly one decoded variant per payload.
#[derive(Debug, PartialEq, Eq)]
pub enum EthTransactionKind {
    Legacy(LegacyEthSignedTransaction),
    Eip2930(SignedTransaction2930),
    Eip1559(SignedTransaction1559),
}

pub enum EthTransactionKindView {
    Legacy(LegacyEthSignedTransactionView),
    Eip2930(SignedTransaction2930View),
    Eip1559(SignedTransaction1559View),
}

impl View for EthTransactionKind {
    type V = EthTransactionKindView;

    open spec fn view(&self) -> EthTransactionKindView {
        match self {
            EthTransactionKind::Legacy(t) => EthTransactionKindView::Legacy(t@),
            EthTransactionKind::Eip2930(t) => EthTransactionKindView::Eip2930(t@),
            EthTransactionKind::Eip1559(t) => EthTransactionKindView::Eip1559(t@),
        }
    }
}

/// The classification and decoding of a raw payload, checked in order:
/// the access-list type byte, the fee-market type byte (when that format is
/// enabled), the reserved range `0x00..=0x7f`, the excluded sentinel `0xff`,
/// and otherwise the whole payload as an untyped legacy list.
pub open spec fn decode_transaction_spec(s: Seq<u8>, fee_market_enabled: bool) -> Result<
    EthTransactionKindView,
    ParseTransactionError,
> {
    if s.len() >= 1 && s[0] == 0x01 {
        match eip2930_decode_spec(s.subrange(1, s.len() as int)) {
            Ok(t) => Ok(EthTransactionKindView::Eip2930(t)),
            Err(e) => Err(ParseTransactionError::RlpDecodeError(e)),
        }
    } else if s.len() >= 1 && fee_market_enabled && s[0] == 0x02 {
        match eip_1559::eip1559_decode_spec(s.subrange(1, s.len() as int)) {
            Ok(t) => Ok(EthTransactionKindView::Eip1559(t)),
            Err(e) => Err(ParseTransactionError::RlpDecodeError(e)),
        }
    } else if s.len() >= 1 && s[0] <= 0x7f {
        Err(ParseTransactionError::UnknownTransactionType)
    } else if s.len() >= 1 && s[0] == 0xff {
        Err(ParseTransactionError::ReservedSentinel)
    } else {
        match legacy_decode_spec(s) {
            Ok(t) => Ok(EthTransactionKindView::Legacy(t)),
            Err(e) => Err(ParseTransactionError::RlpDecodeError(e)),
        }
    }
}

/// Classifies and decodes a raw payload into exactly one tagged variant.
///
/// The discriminating byte is examined once, before any RLP decoding; the
/// recognized discriminators depend on whether the fee-market generation is
/// enabled.  The result is a function of the payload and the flag alone.
pub fn decode_transaction(bytes: &[u8], fee_market_enabled: bool) -> (r: Result<
    EthTransactionKind,
    ParseTransactionError,
>)
    requires
        bytes@.len() >= 1,
    ensures
        match r {
            Ok(k) => decode_transaction_spec(bytes@, fee_market_enabled) == Ok::<
                EthTransactionKindView,
                ParseTransactionError,
            >(k@),
            Err(e) => decode_transaction_spec(bytes@, fee_market_enabled) == Err::<
                EthTransactionKindView,
                ParseTransactionError,
            >(e),
        },
{
    if bytes[0] == eip_2930::TYPE_BYTE {
        let body = vstd::slice::slice_subrange(bytes, 1, bytes.len());
        match SignedTransaction2930::decode(body) {
            Ok(t) => Ok(EthTransactionKind::Eip2930(t)),
            Err(e) => Err(ParseTransactionError::RlpDecodeError(e)),
        }
    } else if fee_market_enabled && bytes[0] == eip_1559::TYPE_BYTE {
        let body = vstd::slice::slice_subrange(bytes, 1, bytes.len());
        match SignedTransaction1559::decode(body) {
            Ok(t) => Ok(EthTransactionKind::Eip1559(t)),
            Err(e) => Err(ParseTransactionError::RlpDecodeError(e)),
        }
    } else if bytes[0] <= 0x7f {
        Err(ParseTransactionError::UnknownTransactionType)
    } else if bytes[0] == 0xff {
        Err(ParseTransactionError::ReservedSentinel)
    } else {
        match LegacyEthSignedTransaction::decode(bytes) {
            Ok(t) => Ok(EthTransactionKind::Legacy(t)),
            Err(e) => Err(ParseTransactionError::RlpDecodeError(e)),
        }
    }
}

impl EthTransactionKind {
    /// Classifies and decodes a raw payload with the fee-market format
    /// enabled.
    pub fn try_from(bytes: &[u8]) -> (r: Result<EthTransactionKind, ParseTransactionError>)
        requires
            bytes@.len() >= 1,
        ensures
            match r {
                Ok(k) => decode_transaction_spec(bytes@, true) == Ok::<
                    EthTransactionKindView,
                    ParseTransactionError,
                >(k@),
                Err(e) => decode_transaction_spec(bytes@, true) == Err::<
                    EthTransactionKindView,
                    ParseTransactionError,
                >(e),
            },
    {
        decode_transaction(bytes, true)
    }

    /// Derives this variant's signing message and 65-byte signature and
    /// delegates to the injected signature-recovery capability; whatever
    /// that capability answers on exactly those two values is returned.
    pub fn sender<F: Fn(Vec<u8>, [u8; 65]) -> Option<Address>>(&self, recover: F) -> (r: Option<
        Address,
    >)
        requires
            forall|m: Vec<u8>, sg: [u8; 65]| #[trigger] call_requires(recover, (m, sg)),
        ensures
            match self {
                EthTransactionKind::Legacy(tx) => exists|m: Vec<u8>, sg: [u8; 65]|
                    m@ == crate::legacy::legacy_signing_data_spec(tx@) && sg@ == tx.r@ + tx.s@
                        + seq![crate::legacy::intrinsic_v_spec(tx.v)] && #[trigger] call_ensures(
                        recover,
                        (m, sg),
                        r,
                    ),
                EthTransactionKind::Eip2930(tx) => exists|m: Vec<u8>, sg: [u8; 65]|
                    m@ == crate::eip_2930::eip2930_signing_data_spec(tx@) && sg@ == tx.r@ + tx.s@
                        + seq![tx.parity] && #[trigger] call_ensures(recover, (m, sg), r),
                EthTransactionKind::Eip1559(tx) => exists|m: Vec<u8>, sg: [u8; 65]|
                    m@ == crate::eip_1559::eip1559_signing_data_spec(tx@) && sg@ == tx.r@ + tx.s@
                        + seq![tx.parity] && #[trigger] call_ensures(recover, (m, sg), r),
            },
    {
        match self {
            EthTransactionKind::Legacy(tx) => tx.sender(recover),
            EthTransactionKind::Eip2930(tx) => tx.sender(recover),
            EthTransactionKind::Eip1559(tx) => tx.sender(recover),
        }
    }
}

/// Builds the canonical 65-byte signature layout `r ‖ s ‖ v` handed to the
/// signature-recovery primitive.
pub fn vrs_to_arr(v: u8, r: U256, s: U256) -> (out: [u8; 65])
    ensures
        out@ == r@ + s@ + seq![v],
{
    let mut result = [0u8; 65];
    let mut i: usize = 0;
    while i < 32
        invariant
            i <= 32,
            result@.len() == 65,
            forall|k: int| 0 <= k < i ==> result@[k] == r@[k],
        decreases 32 - i,
    {
        result[i] = r.bytes[i];
        i = i + 1;
    }
    let mut j: usize = 0;
    while j < 32
        invariant
            j <= 32,
            result@.len() == 65,
            forall|k: int| 0 <= k < 32 ==> result@[k] == r@[k],
            forall|k: int| 0 <= k < j ==> result@[32 + k] == s@[k],
        decreases 32 - j,
    {
        result[32 + j] = s.bytes[j];
        j = j + 1;
    }
    result[64] = v;
    proof {
        assert(result@ =~= r@ + s@ + seq![v]);
    }
    result
}

/// The canonical transaction shape every decoded variant is projected onto.
///
/// Formats with a single gas price populate both fee fields with it, and
/// formats that predate access lists get an empty one, so downstream fee
/// logic can treat every transaction as a fee-market transaction.
#[derive(Debug, PartialEq, Eq)]
pub struct NormalizedEthTransaction {
    /// The recovered sender, when the external recovery primitive produced
    /// one.
    pub address: Option<Address>,
    pub chain_id: Option<u64>,
    pub nonce: U256,
    pub gas_limit: U256,
    pub max_priority_fee_per_gas: U256,
    pub max_fee_per_gas: U256,
    pub to: Option<Address>,
    pub value: Wei,
    pub data: Vec<u8>,
    pub access_list: Vec<AccessTuple>,
}

impl NormalizedEthTransaction {
    /// Projects a decoded variant onto the canonical shape.
    ///
    /// Sender recovery is an external cryptographic capability; the caller
    /// passes the address it recovered (or `None` when recovery failed) and
    /// every other field is taken from the variant itself.
    pub fn from_kind(kind: EthTransactionKind, sender: Option<Address>) -> (r:
        NormalizedEthTransaction)
        ensures
            r.address == sender,
            match kind {
                EthTransactionKind::Legacy(tx) => {
                    &&& r.chain_id is None
                    &&& r.nonce == tx.transaction.nonce
                    &&& r.gas_limit == tx.transaction.gas_limit
                    &&& r.max_priority_fee_per_gas == tx.transaction.gas_price
                    &&& r.max_fee_per_gas == tx.transaction.gas_price
                    &&& r.to == tx.transaction.to
                    &&& r.value == tx.transaction.value
                    &&& r.data@ == tx.transaction.data@
                    &&& r.access_list@.len() == 0
                },
                EthTransactionKind::Eip2930(tx) => {
                    &&& r.chain_id == Some(tx.transaction.chain_id)
                    &&& r.nonce == tx.transaction.nonce
                    &&& r.gas_limit == tx.transaction.gas_limit
                    &&& r.max_priority_fee_per_gas == tx.transaction.gas_price
                    &&& r.max_fee_per_gas == tx.transaction.gas_price
                    &&& r.to == tx.transaction.to
                    &&& r.value == tx.transaction.value
                    &&& r.data@ == tx.transaction.data@
                    &&& r.access_list@ == tx.transaction.access_list@
                },
                EthTransactionKind::Eip1559(tx) => {
                    &&& r.chain_id == Some(tx.transaction.chain_id)
                    &&& r.nonce == tx.transaction.nonce
                    &&& r.gas_limit == tx.transaction.gas_limit
                    &&& r.max_priority_fee_per_gas == tx.transaction.max_priority_fee_per_gas
                    &&& r.max_fee_per_gas == tx.transaction.max_fee_per_gas
                    &&& r.to == tx.transaction.to
                    &&& r.value == tx.transaction.value
                    &&& r.data@ == tx.transaction.data@
                    &&& r.access_list@ == tx.transaction.access_list@
                },
            },
    {
        match kind {
            EthTransactionKind::Legacy(tx) => NormalizedEthTransaction {
                address: sender,
                chain_id: None,
                nonce: tx.transaction.nonce,
                gas_limit: tx.transaction.gas_limit,
                max_priority_fee_per_gas: tx.transaction.gas_price,
                max_fee_per_gas: tx.transaction.gas_price,
                to: tx.transaction.to,
                value: tx.transaction.value,
                data: tx.transaction.data,
                access_list: Vec::new(),
            },
            EthTransactionKind::Eip2930(tx) => NormalizedEthTransaction {
                address: sender,
                chain_id: Some(tx.transaction.chain_id),
                nonce: tx.transaction.nonce,
                gas_limit: tx.transaction.gas_limit,
                max_priority_fee_per_gas: tx.transaction.gas_price,
                max_fee_per_gas: tx.transaction.gas_price,
                to: tx.transaction.to,
                value: tx.transaction.value,
                data: tx.transaction.data,
                access_list: tx.transaction.access_list,
            },
            EthTransactionKind::Eip1559(tx) => NormalizedEthTransaction {
                address: sender,
                chain_id: Some(tx.transaction.chain_id),
                nonce: tx.transaction.nonce,
                gas_limit: tx.transaction.gas_limit,
                max_priority_fee_per_gas: tx.transaction.max_priority_fee_per_gas,
                max_fee_per_gas: tx.transaction.max_fee_per_gas,
                to: tx.transaction.to,
                value: tx.transaction.value,
                data: tx.transaction.data,
                access_list: tx.transaction.access_list,
            },
        }
    }
}

/// How many bytes of `s` are zero.
pub open spec fn count_zero_bytes(s: Seq<u8>) -> int
    decreases s.len(),
{
    if s.len() == 0 {
        0
    } else {
        count_zero_bytes(s.drop_last()) + if s.last() == 0 {
            1int
        } else {
            0int
        }
    }
}

/// The total number of storage keys declared across an access list.
pub open spec fn total_storage_keys(al: Seq<AccessTuple>) -> int
    decreases al.len(),
{
    if al.len() == 0 {
        0
    } else {
        total_storage_keys(al.drop_last()) + al.last().storage_keys@.len()
    }
}

/// The intrinsic-gas formula as an unbounded integer: the base cost for a
/// call or a creation, plus the per-byte data costs, plus the per-entry and
/// per-key access-list costs.
pub open spec fn intrinsic_gas_int(tx: NormalizedEthTransaction, cfg: GasConfig) -> int {
    let base = if tx.to is None {
        cfg.gas_transaction_create
    } else {
        cfg.gas_transaction_call
    };
    let zeros = count_zero_bytes(tx.data@);
    let non_zeros = tx.data@.len() - zeros;
    base + zeros * cfg.gas_transaction_zero_data + non_zeros * cfg.gas_transaction_non_zero_data
        + tx.access_list@.len() * cfg.gas_access_list_address + total_storage_keys(tx.access_list@)
        * cfg.gas_access_list_storage_key
}

/// What `intrinsic_gas` returns: the formula's value when every checked
/// step fits the gas accumulator, and no result when any step overflows.
/// Counting the storage keys is itself a checked sum, so a total beyond the
/// accumulator's width fails even when its cost per key is zero.
pub open spec fn intrinsic_gas_spec(tx: NormalizedEthTransaction, cfg: GasConfig) -> Option<u64> {
    if total_storage_keys(tx.access_list@) <= u64::MAX && intrinsic_gas_int(tx, cfg) <= u64::MAX {
        Some(intrinsic_gas_int(tx, cfg) as u64)
    } else {
        None
    }
}

impl NormalizedEthTransaction {
    /// The minimum gas this transaction must pay before any execution,
    /// under the given cost table; `None` when a checked step overflows.
    pub fn intrinsic_gas(&self, config: &GasConfig) -> (r: Option<u64>)
        ensures
            r == intrinsic_gas_spec(*self, *config),
    {
        let is_contract_creation = self.to.is_none();

        let base_gas = if is_contract_creation {
            config.gas_transaction_create
        } else {
            config.gas_transaction_call
        };

        let mut num_zero_bytes: usize = 0;
        let mut i: usize = 0;
        proof {
            assert(self.data@.take(0) =~= Seq::<u8>::empty());
        }
        while i < self.data.len()
            invariant
                i <= self.data@.len(),
                num_zero_bytes <= i,
                num_zero_bytes == count_zero_bytes(self.data@.take(i as int)),
            decreases self.data@.len() - i,
        {
            proof {
                assert(self.data@.take(i + 1).drop_last() =~= self.data@.take(i as int));
            }
            if self.data[i] == 0 {
                num_zero_bytes = num_zero_bytes + 1;
            }
            i = i + 1;
        }
        proof {
            assert(self.data@.take(self.data@.len() as int) =~= self.data@);
        }
        let num_non_zero_bytes: usize = self.data.len() - num_zero_bytes;

        let gas_zero_bytes = match (num_zero_bytes as u64).checked_mul(
            config.gas_transaction_zero_data,
        ) {
            Some(g) => g,
            None => {
                proof {
                    lemma_gas_terms_nonneg(*self, *config);
                }
                return None;
            },
        };
        let gas_non_zero_bytes = match (num_non_zero_bytes as u64).checked_mul(
            config.gas_transaction_non_zero_data,
        ) {
            Some(g) => g,
            None => {
                proof {
                    lemma_gas_terms_nonneg(*self, *config);
                }
                return None;
            },
        };

        let gas_access_list_address = match (self.access_list.len() as u64).checked_mul(
            config.gas_access_list_address,
        ) {
            Some(g) => g,
            None => {
                proof {
                    lemma_gas_terms_nonneg(*self, *config);
                }
                return None;
            },
        };

        let mut total_keys: u64 = 0;
        let mut j: usize = 0;
        proof {
            assert(self.access_list@.take(0) =~= Seq::<AccessTuple>::empty());
        }
        while j < self.access_list.len()
            invariant
                j <= self.access_list@.len(),
                total_keys == total_storage_keys(self.access_list@.take(j as int)),
            decreases self.access_list@.len() - j,
        {
            proof {
                assert(self.access_list@.take(j + 1).drop_last() =~= self.access_list@.take(
                    j as int,
                ));
                lemma_total_storage_keys_prefix_le(self.access_list@, j + 1);
            }
            let entry_keys = self.access_list[j].storage_keys.len();
            total_keys = match total_keys.checked_add(entry_keys as u64) {
                Some(t) => t,
                None => {
                    proof {
                        lemma_gas_terms_nonneg(*self, *config);
                    }
                    return None;
                },
            };
            j = j + 1;
        }
        proof {
            assert(self.access_list@.take(self.access_list@.len() as int) =~= self.access_list@);
        }
        let gas_access_list_storage = match total_keys.checked_mul(
            config.gas_access_list_storage_key,
        ) {
            Some(g) => g,
            None => {
                proof {
                    lemma_gas_terms_nonneg(*self, *config);
                }
                return None;
            },
        };

        let step1 = match base_gas.checked_add(gas_zero_bytes) {
            Some(g) => g,
            None => {
                proof {
                    lemma_gas_terms_nonneg(*self, *config);
                }
                return None;
            },
        };
        let step2 = match step1.checked_add(gas_non_zero_bytes) {
            Some(g) => g,
            None => {
                proof {
                    lemma_gas_terms_nonneg(*self, *config);
                }
                return None;
            },
        };
        let step3 = match step2.checked_add(gas_access_list_address) {
            Some(g) => g,
            None => {
                proof {
                    lemma_gas_terms_nonneg(*self, *config);
                }
                return None;
            },
        };
        match step3.checked_add(gas_access_list_storage) {
            Some(g) => Some(g),
            None => {
                proof {
                    lemma_gas_terms_nonneg(*self, *config);
                }
                None
            },
        }
    }
}

/// Every term of the intrinsic-gas formula is non-negative, so the formula
/// is at least as large as each of its terms.
proof fn lemma_gas_terms_nonneg(tx: NormalizedEthTransaction, cfg: GasConfig)
    ensures
        count_zero_bytes(tx.data@) >= 0,
        total_storage_keys(tx.access_list@) >= 0,
        count_zero_bytes(tx.data@) * cfg.gas_transaction_zero_data >= 0,
        (tx.data@.len() - count_zero_bytes(tx.data@)) * cfg.gas_transaction_non_zero_data >= 0,
        tx.access_list@.len() * cfg.gas_access_list_address >= 0,
        total_storage_keys(tx.access_list@) * cfg.gas_access_list_storage_key >= 0,
        count_zero_bytes(tx.data@) <= tx.data@.len(),
{
    lemma_count_zero_bytes_bounds(tx.data@);
    lemma_total_storage_keys_nonneg(tx.access_list@);
    vstd::arithmetic::mul::lemma_mul_nonnegative(
        count_zero_bytes(tx.data@),
        cfg.gas_transaction_zero_data as int,
    );
    vstd::arithmetic::mul::lemma_mul_nonnegative(
        tx.data@.len() - count_zero_bytes(tx.data@),
        cfg.gas_transaction_non_zero_data as int,
    );
    vstd::arithmetic::mul::lemma_mul_nonnegative(
        tx.access_list@.len() as int,
        cfg.gas_access_list_address as int,
    );
    vstd::arithmetic::mul::lemma_mul_nonnegative(
        total_storage_keys(tx.access_list@),
        cfg.gas_access_list_storage_key as int,
    );
}

/// The zero-byte count is between zero and the data length.
pub proof fn lemma_count_zero_bytes_bounds(s: Seq<u8>)
    ensures
        0 <= count_zero_bytes(s) <= s.len(),
    decreases s.len(),
{
    if s.len() > 0 {
        lemma_count_zero_bytes_bounds(s.drop_last());
    }
}

proof fn lemma_total_storage_keys_nonneg(al: Seq<AccessTuple>)
    ensures
        total_storage_keys(al) >= 0,
    decreases al.len(),
{
    if al.len() > 0 {
        lemma_total_storage_keys_nonneg(al.drop_last());
    }
}

/// Decoding is deterministic: the contract of `decode_transaction` pins its
/// result to a function of the payload and the flag alone, so two results of
/// decoding the same bytes are identical, error kind included.
pub proof fn lemma_decode_deterministic(
    s: Seq<u8>,
    fee_market_enabled: bool,
    r1: Result<EthTransactionKindView, ParseTransactionError>,
    r2: Result<EthTransactionKindView, ParseTransactionError>,
)
    requires
        r1 == decode_transaction_spec(s, fee_market_enabled),
        r2 == decode_transaction_spec(s, fee_market_enabled),
    ensures
        r1 == r2,
{
}

/// Every single byte in the reserved range `0x00..=0x7f` that selects no
/// enabled format dispatches to `UnknownTransactionType`, and the sentinel
/// byte `0xff` dispatches to `ReservedSentinel`.
pub proof fn lemma_discriminator_completeness(x: u8, fee_market_enabled: bool)
    ensures
        x <= 0x7f && x != 0x01 && !(fee_market_enabled && x == 0x02)
            ==> decode_transaction_spec(seq![x], fee_market_enabled) == Err::<
            EthTransactionKindView,
            ParseTransactionError,
        >(ParseTransactionError::UnknownTransactionType),
        decode_transaction_spec(seq![0xff], fee_market_enabled) == Err::<
            EthTransactionKindView,
            ParseTransactionError,
        >(ParseTransactionError::ReservedSentinel),
{
}

/// A payload bearing the access-list type byte either fails or decodes to
/// the access-list variant, never to another one, whatever follows the
/// discriminator.
pub proof fn lemma_access_list_discriminator(s: Seq<u8>, fee_market_enabled: bool)
    requires
        s.len() >= 1,
        s[0] == 0x01,
    ensures
        decode_transaction_spec(s, fee_market_enabled) matches Ok(k) ==> k is Eip2930,
{
}

/// A decoded recipient is never the all-zero address: that value is
/// normalized to "no recipient", exactly as an empty recipient field is.
pub proof fn lemma_zero_address_normalizes(s: Seq<u8>, i: usize)
    ensures
        crate::codec::extract_to_spec(s, i) matches Ok(to) ==> (to matches Some(a) ==> a
            != crate::types::zero_address_seq()),
{
}

/// Splitting data concatenates its zero-byte counts.
pub proof fn lemma_count_zero_bytes_append(s1: Seq<u8>, s2: Seq<u8>)
    ensures
        count_zero_bytes(s1 + s2) == count_zero_bytes(s1) + count_zero_bytes(s2),
    decreases s2.len(),
{
    if s2.len() == 0 {
        assert(s1 + s2 =~= s1);
    } else {
        assert((s1 + s2).drop_last() =~= s1 + s2.drop_last());
        lemma_count_zero_bytes_append(s1, s2.drop_last());
    }
}

/// Splitting an access list adds its storage-key totals.
pub proof fn lemma_total_storage_keys_append(al1: Seq<AccessTuple>, al2: Seq<AccessTuple>)
    ensures
        total_storage_keys(al1 + al2) == total_storage_keys(al1) + total_storage_keys(al2),
    decreases al2.len(),
{
    if al2.len() == 0 {
        assert(al1 + al2 =~= al1);
    } else {
        assert((al1 + al2).drop_last() =~= al1 + al2.drop_last());
        lemma_total_storage_keys_append(al1, al2.drop_last());
    }
}

/// Intrinsic gas is monotonically non-decreasing in the zero-byte count,
/// the non-zero-byte count, the access-list entry count and the storage-key
/// total, holding the creation-or-call distinction fixed; and where the
/// larger transaction is priced at all, the smaller one is priced no higher.
pub proof fn lemma_intrinsic_gas_monotonic(
    tx1: NormalizedEthTransaction,
    tx2: NormalizedEthTransaction,
    cfg: GasConfig,
)
    requires
        tx1.to is None <==> tx2.to is None,
        count_zero_bytes(tx1.data@) <= count_zero_bytes(tx2.data@),
        tx1.data@.len() - count_zero_bytes(tx1.data@) <= tx2.data@.len() - count_zero_bytes(
            tx2.data@,
        ),
        tx1.access_list@.len() <= tx2.access_list@.len(),
        total_storage_keys(tx1.access_list@) <= total_storage_keys(tx2.access_list@),
    ensures
        intrinsic_gas_int(tx1, cfg) <= intrinsic_gas_int(tx2, cfg),
        intrinsic_gas_spec(tx2, cfg) matches Some(g2) ==> (intrinsic_gas_spec(tx1, cfg)
            matches Some(g1) && g1 <= g2),
{
    lemma_gas_terms_nonneg(tx1, cfg);
    lemma_gas_terms_nonneg(tx2, cfg);
    vstd::arithmetic::mul::lemma_mul_inequality(
        count_zero_bytes(tx1.data@),
        count_zero_bytes(tx2.data@),
        cfg.gas_transaction_zero_data as int,
    );
    vstd::arithmetic::mul::lemma_mul_inequality(
        tx1.data@.len() - count_zero_bytes(tx1.data@),
        tx2.data@.len() - count_zero_bytes(tx2.data@),
        cfg.gas_transaction_non_zero_data as int,
    );
    vstd::arithmetic::mul::lemma_mul_inequality(
        tx1.access_list@.len() as int,
        tx2.access_list@.len() as int,
        cfg.gas_access_list_address as int,
    );
    vstd::arithmetic::mul::lemma_mul_inequality(
        total_storage_keys(tx1.access_list@),
        total_storage_keys(tx2.access_list@),
        cfg.gas_access_list_storage_key as int,
    );
}

/// Intrinsic gas is monotonically non-decreasing in the length of the data:
/// extending the data of a transaction never lowers its price, and cannot
/// turn a failing computation into a successful one.
pub proof fn lemma_intrinsic_gas_monotonic_in_data(
    tx1: NormalizedEthTransaction,
    tx2: NormalizedEthTransaction,
    cfg: GasConfig,
    ext: Seq<u8>,
)
    requires
        tx1.to is None <==> tx2.to is None,
        tx2.data@ == tx1.data@ + ext,
        tx1.access_list@ == tx2.access_list@,
    ensures
        intrinsic_gas_int(tx1, cfg) <= intrinsic_gas_int(tx2, cfg),
        intrinsic_gas_spec(tx2, cfg) matches Some(g2) ==> (intrinsic_gas_spec(tx1, cfg)
            matches Some(g1) && g1 <= g2),
{
    lemma_count_zero_bytes_append(tx1.data@, ext);
    lemma_count_zero_bytes_bounds(ext);
    lemma_intrinsic_gas_monotonic(tx1, tx2, cfg);
}

/// Intrinsic gas is monotonically non-decreasing in the access list:
/// appending entries never lowers the price, and cannot turn a failing
/// computation into a successful one.
pub proof fn lemma_intrinsic_gas_monotonic_in_access_list(
    tx1: NormalizedEthTransaction,
    tx2: NormalizedEthTransaction,
    cfg: GasConfig,
    ext: Seq<AccessTuple>,
)
    requires
        tx1.to is None <==> tx2.to is None,
        tx1.data@ == tx2.data@,
        tx2.access_list@ == tx1.access_list@ + ext,
    ensures
        intrinsic_gas_int(tx1, cfg) <= intrinsic_gas_int(tx2, cfg),
        intrinsic_gas_spec(tx2, cfg) matches Some(g2) ==> (intrinsic_gas_spec(tx1, cfg)
            matches Some(g1) && g1 <= g2),
{
    lemma_total_storage_keys_append(tx1.access_list@, ext);
    lemma_total_storage_keys_nonneg(ext);
    lemma_intrinsic_gas_monotonic(tx1, tx2, cfg);
}

/// A base cost that already nearly exhausts the gas accumulator overflows
/// as soon as any data byte must be charged: the computation yields no
/// result rather than a wrapped value.
pub proof fn lemma_intrinsic_gas_overflow(tx: NormalizedEthTransaction, cfg: GasConfig)
    requires
        tx.data@.len() >= 1,
        (if tx.to is None {
            cfg.gas_transaction_create
        } else {
            cfg.gas_transaction_call
        }) + cfg.gas_transaction_zero_data > u64::MAX,
        (if tx.to is None {
            cfg.gas_transaction_create
        } else {
            cfg.gas_transaction_call
        }) + cfg.gas_transaction_non_zero_data > u64::MAX,
    ensures
        intrinsic_gas_spec(tx, cfg) is None,
{
    lemma_gas_terms_nonneg(tx, cfg);
    let zeros = count_zero_bytes(tx.data@);
    let non_zeros = tx.data@.len() - zeros;
    if zeros >= 1 {
        vstd::arithmetic::mul::lemma_mul_inequality(
            1,
            zeros,
            cfg.gas_transaction_zero_data as int,
        );
    } else {
        vstd::arithmetic::mul::lemma_mul_inequality(
            1,
            non_zeros,
            cfg.gas_transaction_non_zero_data as int,
        );
    }
}

/// A prefix of an access list declares at most as many storage keys as the
/// whole list.
proof fn lemma_total_storage_keys_prefix_le(al: Seq<AccessTuple>, j: int)
    requires
        0 <= j <= al.len(),
    ensures
        total_storage_keys(al.take(j)) <= total_storage_keys(al),
    decreases al.len() - j,
{
    if j < al.len() {
        assert(al.take(j + 1).drop_last() =~= al.take(j));
        lemma_total_storage_keys_prefix_le(al, j + 1);
        assert(al.take(al.len() as int) =~= al);
    } else {
        assert(al.take(j) =~= al);
    }
}

} // verus!
