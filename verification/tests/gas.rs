use ethtx::AccessTuple;
use ethtx::Address;
use ethtx::GasConfig;
use ethtx::NormalizedEthTransaction;
use ethtx::H256;
use ethtx::U256;

fn zero_costs() -> GasConfig {
    GasConfig {
        gas_transaction_create: 0,
        gas_transaction_call: 0,
        gas_transaction_zero_data: 0,
        gas_transaction_non_zero_data: 0,
        gas_access_list_address: 0,
        gas_access_list_storage_key: 0,
    }
}

fn plain_tx(to: Option<Address>, data: Vec<u8>, access_list: Vec<AccessTuple>) -> NormalizedEthTransaction {
    NormalizedEthTransaction {
        address: None,
        chain_id: None,
        nonce: U256::zero(),
        gas_limit: U256::zero(),
        max_priority_fee_per_gas: U256::zero(),
        max_fee_per_gas: U256::zero(),
        to,
        value: U256::zero(),
        data,
        access_list,
    }
}

#[test]
fn test_intrinsic_gas_call_base() {
    let tx = plain_tx(Some(Address::new([0x35; 20])), vec![], vec![]);
    let config = GasConfig { gas_transaction_call: 21000, ..zero_costs() };
    assert_eq!(tx.intrinsic_gas(&config), Some(21000));
}

#[test]
fn test_intrinsic_gas_create_base() {
    let tx = plain_tx(None, vec![], vec![]);
    let config = GasConfig { gas_transaction_create: 53000, ..zero_costs() };
    assert_eq!(tx.intrinsic_gas(&config), Some(53000));
}

#[test]
fn test_intrinsic_gas_data_bytes() {
    let tx = plain_tx(
        Some(Address::new([0x35; 20])),
        vec![0, 0, 0, 7, 9],
        vec![],
    );
    let config = GasConfig {
        gas_transaction_call: 21000,
        gas_transaction_zero_data: 4,
        gas_transaction_non_zero_data: 16,
        ..zero_costs()
    };
    assert_eq!(tx.intrinsic_gas(&config), Some(21000 + 3 * 4 + 2 * 16));
    assert_eq!(tx.intrinsic_gas(&config), Some(21044));
}

#[test]
fn test_intrinsic_gas_access_list() {
    let entry1 = AccessTuple {
        address: Address::new([0xaa; 20]),
        storage_keys: vec![H256::new([0x01; 32])],
    };
    let entry2 = AccessTuple {
        address: Address::new([0xbb; 20]),
        storage_keys: vec![
            H256::new([0x02; 32]),
            H256::new([0x03; 32]),
            H256::new([0x04; 32]),
        ],
    };
    let tx = plain_tx(Some(Address::new([0x35; 20])), vec![], vec![entry1, entry2]);
    let config = GasConfig {
        gas_transaction_call: 21000,
        gas_access_list_address: 2400,
        gas_access_list_storage_key: 1900,
        ..zero_costs()
    };
    assert_eq!(tx.intrinsic_gas(&config), Some(21000 + 2 * 2400 + 4 * 1900));
    assert_eq!(tx.intrinsic_gas(&config), Some(33400));
}

#[test]
fn test_intrinsic_gas_overflow_returns_none() {
    let tx = plain_tx(Some(Address::new([0x35; 20])), vec![0x01], vec![]);
    let config = GasConfig {
        gas_transaction_call: u64::MAX,
        gas_transaction_zero_data: 1,
        gas_transaction_non_zero_data: 1,
        ..zero_costs()
    };
    assert_eq!(tx.intrinsic_gas(&config), None);

    let tx = plain_tx(None, vec![0x00], vec![]);
    let config = GasConfig {
        gas_transaction_create: u64::MAX,
        gas_transaction_zero_data: 1,
        gas_transaction_non_zero_data: 1,
        ..zero_costs()
    };
    assert_eq!(tx.intrinsic_gas(&config), None);
}

#[test]
fn test_intrinsic_gas_monotonic_in_data() {
    let config = GasConfig {
        gas_transaction_call: 21000,
        gas_transaction_zero_data: 4,
        gas_transaction_non_zero_data: 16,
        ..zero_costs()
    };
    let to = Some(Address::new([0x35; 20]));
    let mut previous = plain_tx(to, vec![], vec![]).intrinsic_gas(&config).unwrap();
    let mut data = vec![];
    for byte in [0u8, 5, 0, 9, 1, 0] {
        data.push(byte);
        let gas = plain_tx(to, data.clone(), vec![]).intrinsic_gas(&config).unwrap();
        assert!(gas >= previous);
        previous = gas;
    }
}

#[test]
fn test_intrinsic_gas_monotonic_in_access_list() {
    let config = GasConfig {
        gas_transaction_call: 21000,
        gas_access_list_address: 2400,
        gas_access_list_storage_key: 1900,
        ..zero_costs()
    };
    let to = Some(Address::new([0x35; 20]));
    let mut entries = vec![];
    let mut previous = plain_tx(to, vec![], entries.clone()).intrinsic_gas(&config).unwrap();
    for keys in [0usize, 1, 3] {
        entries.push(AccessTuple {
            address: Address::new([0xaa; 20]),
            storage_keys: vec![H256::new([0x01; 32]); keys],
        });
        let gas = plain_tx(to, vec![], entries.clone()).intrinsic_gas(&config).unwrap();
        assert!(gas >= previous);
        previous = gas;
    }
}

#[test]
fn test_vrs_to_arr_layout() {
    let mut r_bytes = [0u8; 32];
    r_bytes[0] = 0xaa;
    r_bytes[31] = 0xab;
    let mut s_bytes = [0u8; 32];
    s_bytes[0] = 0xba;
    s_bytes[31] = 0xbb;
    let out = ethtx::vrs_to_arr(27, U256::new(r_bytes), U256::new(s_bytes));
    assert_eq!(out[0], 0xaa);
    assert_eq!(out[31], 0xab);
    assert_eq!(out[32], 0xba);
    assert_eq!(out[63], 0xbb);
    assert_eq!(out[64], 27);
}

#[test]
fn test_address_zero_is_all_zero_bytes() {
    let zero = Address::zero();
    assert_eq!(zero.bytes, [0u8; 20]);
    assert!(zero.is_zero());
    assert!(!Address::new([0x01; 20]).is_zero());
}
