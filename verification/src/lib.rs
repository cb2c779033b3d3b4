//! Decoding, classification and normalization of Ethereum-style
//! transactions, together with the intrinsic-gas calculation that a
//! downstream execution engine charges before running them.
//!
//! A raw payload flows strictly downward: its leading byte classifies it,
//! the selected per-format decoder turns it into one tagged variant, the
//! normalizer projects every variant onto one canonical shape, and the gas
//! calculator prices that shape under a caller-supplied cost table.

pub mod codec;
pub mod eip_1559;
pub mod eip_2930;
pub mod json;
pub mod legacy;
pub mod rlp_encode;
pub mod rlp_prim;
pub mod transaction;
pub mod types;

pub use codec::DecoderError;
pub use eip_2930::AccessTuple;
pub use json::JsonError;
pub use transaction::decode_transaction;
pub use transaction::vrs_to_arr;
pub use transaction::EthTransactionKind;
pub use transaction::NormalizedEthTransaction;
pub use transaction::ParseTransactionError;
pub use types::Address;
pub use types::GasConfig;
pub use types::H256;
pub use types::U256;
pub use types::Wei;
