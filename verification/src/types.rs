use vstd::prelude::*;

verus! {

/// A 20-byte account address.
#[derive(Clone, Copy, Debug, PartialEq, Eq)]
pub struct Address {
    pub bytes: [u8; 20],
}

impl View for Address {
    type V = Seq<u8>;

    open spec fn view(&self) -> Seq<u8> {
        self.bytes@
    }
}

/// The all-zero address as a byte sequence.
pub open spec fn zero_address_seq() -> Seq<u8> {
    Seq::new(20, |i: int| 0u8)
}

impl Address {
    pub fn new(bytes: [u8; 20]) -> (r: Address)
        ensures
            r@ == bytes@,
    {
        Address { bytes }
    }

    /// The all-zero address, which is never a valid recipient.
    pub fn zero() -> (r: Address)
        ensures
            r@ == zero_address_seq(),
    {
        let bytes = [0u8; 20];
        proof {
            assert(bytes@ =~= zero_address_seq());
        }
        Address { bytes }
    }

    pub fn is_zero(&self) -> (r: bool)
        ensures
            r == (self@ == zero_address_seq()),
    {
        let mut i: usize = 0;
        while i < 20
            invariant
                i <= 20,
                forall|j: int| 0 <= j < i ==> self.bytes@[j] == 0u8,
            decreases 20 - i,
        {
            if self.bytes[i] != 0 {
                return false;
            }
            i = i + 1;
        }
        proof {
            assert(self@ =~= zero_address_seq());
        }
        true
    }
}

/// An unsigned 256-bit scalar, stored as its 32-byte big-endian encoding.
#[derive(Clone, Copy, Debug, PartialEq, Eq)]
pub struct U256 {
    pub bytes: [u8; 32],
}

impl View for U256 {
    type V = Seq<u8>;

    open spec fn view(&self) -> Seq<u8> {
        self.bytes@
    }
}

impl U256 {
    pub fn new(bytes: [u8; 32]) -> (r: U256)
        ensures
            r@ == bytes@,
    {
        U256 { bytes }
    }

    pub fn zero() -> (r: U256)
        ensures
            r@ == Seq::new(32, |i: int| 0u8),
    {
        let bytes = [0u8; 32];
        proof {
            assert(bytes@ =~= Seq::new(32, |i: int| 0u8));
        }
        U256 { bytes }
    }

    /// The 32-byte big-endian encoding of the scalar.
    pub fn to_big_endian(&self) -> (r: [u8; 32])
        ensures
            r@ == self@,
    {
        self.bytes
    }
}

/// An amount of the base currency, as a 256-bit scalar.
pub type Wei = U256;

/// A 32-byte storage key.
#[derive(Clone, Copy, Debug, PartialEq, Eq)]
pub struct H256 {
    pub bytes: [u8; 32],
}

impl View for H256 {
    type V = Seq<u8>;

    open spec fn view(&self) -> Seq<u8> {
        self.bytes@
    }
}

impl H256 {
    pub fn new(bytes: [u8; 32]) -> (r: H256)
        ensures
            r@ == bytes@,
    {
        H256 { bytes }
    }
}

/// The per-operation gas costs that intrinsic-gas metering reads.
///
/// The table is supplied by the caller; it mirrors the cost fields of the
/// execution engine's configuration that this library consumes.
#[derive(Clone, Copy, Debug, PartialEq, Eq, Structural)]
pub struct GasConfig {
    /// Base cost of a contract-creating transaction.
    pub gas_transaction_create: u64,
    /// Base cost of a call transaction.
    pub gas_transaction_call: u64,
    /// Cost per zero byte of transaction data.
    pub gas_transaction_zero_data: u64,
    /// Cost per non-zero byte of transaction data.
    pub gas_transaction_non_zero_data: u64,
    /// Cost per declared access-list address.
    pub gas_access_list_address: u64,
    /// Cost per declared access-list storage key.
    pub gas_access_list_storage_key: u64,
}

} // verus!
