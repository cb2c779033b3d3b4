use ethtx::DecoderError;
use ethtx::EthTransactionKind;
use ethtx::GasConfig;
use ethtx::NormalizedEthTransaction;
use ethtx::ParseTransactionError;

fn hex_to_bytes(s: &str) -> Vec<u8> {
    let digits: Vec<u8> = s
        .bytes()
        .map(|c| match c {
            b'0'..=b'9' => c - b'0',
            b'a'..=b'f' => c - b'a' + 10,
            b'A'..=b'F' => c - b'A' + 10,
            _ => panic!("not a hex digit"),
        })
        .collect();
    digits.chunks(2).map(|p| p[0] * 16 + p[1]).collect()
}

fn u256_bytes_from_u64(v: u64) -> [u8; 32] {
    let mut out = [0u8; 32];
    out[24..32].copy_from_slice(&v.to_be_bytes());
    out
}

// The replay-protection example transaction of the standard that introduced
// chain ids: nonce 9, gas price 20 gwei, gas limit 21000, one ether to
// 0x3535...35, empty data, signed for chain 1.
const SIGNED_TX_HEX: &str = "f86c098504a817c800825208943535353535353535353535353535353535353535880de0b6b3a76400008025a028ef61340bd939bc2195fe537567866003e1a15d3c71ff63e1590620aa636276a067cbe9d8997f761aecb703304b3800ccf555c9f3dc64214b297fb1966a3b6d83";
const SIGNING_DATA_HEX: &str =
    "ec098504a817c800825208943535353535353535353535353535353535353535880de0b6b3a764000080018080";

#[test]
fn test_decode_replay_protected_legacy_transaction() {
    let bytes = hex_to_bytes(SIGNED_TX_HEX);
    let kind = EthTransactionKind::try_from(bytes.as_slice()).unwrap();
    let tx = match kind {
        EthTransactionKind::Legacy(tx) => tx,
        _ => panic!("expected the legacy variant"),
    };
    assert_eq!(tx.transaction.nonce.bytes, u256_bytes_from_u64(9));
    assert_eq!(
        tx.transaction.gas_price.bytes,
        u256_bytes_from_u64(20_000_000_000)
    );
    assert_eq!(tx.transaction.gas_limit.bytes, u256_bytes_from_u64(21000));
    assert_eq!(
        tx.transaction.to.map(|a| a.bytes.to_vec()),
        Some(vec![0x35u8; 20])
    );
    assert_eq!(
        tx.transaction.value.bytes,
        u256_bytes_from_u64(1_000_000_000_000_000_000)
    );
    assert!(tx.transaction.data.is_empty());
    assert_eq!(tx.v, 37);
    assert_eq!(tx.chain_id(), Some(1));
    assert_eq!(tx.intrinsic_v(), 0);
    assert_eq!(
        tx.r.bytes.to_vec(),
        hex_to_bytes("28ef61340bd939bc2195fe537567866003e1a15d3c71ff63e1590620aa636276")
    );
    assert_eq!(
        tx.s.bytes.to_vec(),
        hex_to_bytes("67cbe9d8997f761aecb703304b3800ccf555c9f3dc64214b297fb1966a3b6d83")
    );
}

#[test]
fn test_legacy_signing_data_matches_standard_example() {
    let bytes = hex_to_bytes(SIGNED_TX_HEX);
    let kind = EthTransactionKind::try_from(bytes.as_slice()).unwrap();
    let tx = match kind {
        EthTransactionKind::Legacy(tx) => tx,
        _ => panic!("expected the legacy variant"),
    };
    assert_eq!(tx.signing_data(), hex_to_bytes(SIGNING_DATA_HEX));
}

#[test]
fn test_pre_replay_protection_signing_data_has_no_chain_id_fields() {
    let mut signed = rlp::RlpStream::new_list(9);
    signed.append(&3u64); // nonce
    signed.append(&1_000u64); // gas price
    signed.append(&21000u64); // gas limit
    signed.append(&vec![0x35u8; 20]); // to
    signed.append(&0u64); // value
    signed.append(&vec![0x01u8, 0x02]); // data
    signed.append(&27u64); // v without a chain id
    signed.append(&vec![0x11u8; 32]);
    signed.append(&vec![0x22u8; 32]);
    let kind = EthTransactionKind::try_from(signed.out().to_vec().as_slice()).unwrap();
    let tx = match kind {
        EthTransactionKind::Legacy(tx) => tx,
        _ => panic!("expected the legacy variant"),
    };
    assert_eq!(tx.chain_id(), None);
    assert_eq!(tx.intrinsic_v(), 27);

    // Without replay protection the signing message is the six unsigned
    // fields alone.
    let mut unsigned = rlp::RlpStream::new_list(6);
    unsigned.append(&3u64);
    unsigned.append(&1_000u64);
    unsigned.append(&21000u64);
    unsigned.append(&vec![0x35u8; 20]);
    unsigned.append(&0u64);
    unsigned.append(&vec![0x01u8, 0x02]);
    assert_eq!(tx.signing_data(), unsigned.out().to_vec());
}

#[test]
fn test_sender_delegates_to_recovery() {
    let bytes = hex_to_bytes(SIGNED_TX_HEX);
    let kind = EthTransactionKind::try_from(bytes.as_slice()).unwrap();
    let expected_message = hex_to_bytes(SIGNING_DATA_HEX);
    let recovered = ethtx::Address::new([0xabu8; 20]);
    let sender = kind.sender(|message: Vec<u8>, signature: [u8; 65]| {
        assert_eq!(message, expected_message);
        assert_eq!(signature[64], 0); // the recovery indicator for v = 37
        Some(recovered)
    });
    assert_eq!(sender, Some(recovered));

    let failed = kind.sender(|_message: Vec<u8>, _signature: [u8; 65]| None);
    assert_eq!(failed, None);
}

#[test]
fn test_zero_address_recipient_normalizes_to_none() {
    let mut s = rlp::RlpStream::new_list(9);
    s.append(&0u64);
    s.append(&1u64);
    s.append(&21000u64);
    s.append(&vec![0u8; 20]); // the all-zero address
    s.append(&0u64);
    s.append(&Vec::<u8>::new());
    s.append(&27u64);
    s.append(&vec![0x11u8; 32]);
    s.append(&vec![0x22u8; 32]);
    let kind = EthTransactionKind::try_from(s.out().to_vec().as_slice()).unwrap();
    match kind {
        EthTransactionKind::Legacy(tx) => assert_eq!(tx.transaction.to, None),
        _ => panic!("expected the legacy variant"),
    }
}

#[test]
fn test_empty_recipient_means_contract_creation() {
    let mut s = rlp::RlpStream::new_list(9);
    s.append(&0u64);
    s.append(&1u64);
    s.append(&53000u64);
    s.append(&Vec::<u8>::new()); // empty "to" byte-string
    s.append(&0u64);
    s.append(&vec![0x60u8, 0x60]);
    s.append(&27u64);
    s.append(&vec![0x11u8; 32]);
    s.append(&vec![0x22u8; 32]);
    let kind = EthTransactionKind::try_from(s.out().to_vec().as_slice()).unwrap();
    match kind {
        EthTransactionKind::Legacy(tx) => assert_eq!(tx.transaction.to, None),
        _ => panic!("expected the legacy variant"),
    }
}

#[test]
fn test_empty_list_recipient_is_rejected() {
    let mut s = rlp::RlpStream::new_list(9);
    s.append(&0u64);
    s.append(&1u64);
    s.append(&21000u64);
    s.begin_list(0); // an empty list where a byte-string is required
    s.append(&0u64);
    s.append(&Vec::<u8>::new());
    s.append(&27u64);
    s.append(&vec![0x11u8; 32]);
    s.append(&vec![0x22u8; 32]);
    let err = EthTransactionKind::try_from(s.out().to_vec().as_slice()).unwrap_err();
    assert_eq!(
        err,
        ParseTransactionError::RlpDecodeError(DecoderError::RlpExpectedToBeData)
    );
    assert_eq!(err.as_ref(), "ERR_TX_RLP_DECODE");
}

#[test]
fn test_wrong_arity_is_rejected() {
    let mut s = rlp::RlpStream::new_list(8);
    s.append(&0u64);
    s.append(&1u64);
    s.append(&21000u64);
    s.append(&vec![0x35u8; 20]);
    s.append(&0u64);
    s.append(&Vec::<u8>::new());
    s.append(&27u64);
    s.append(&vec![0x11u8; 32]);
    let err = EthTransactionKind::try_from(s.out().to_vec().as_slice()).unwrap_err();
    assert_eq!(
        err,
        ParseTransactionError::RlpDecodeError(DecoderError::RlpIncorrectListLen)
    );
}

#[test]
fn test_non_list_payload_is_rejected() {
    // 0x85 "hello": a plain byte-string, not a list.
    let bytes = vec![0x85u8, b'h', b'e', b'l', b'l', b'o'];
    let err = EthTransactionKind::try_from(bytes.as_slice()).unwrap_err();
    assert_eq!(
        err,
        ParseTransactionError::RlpDecodeError(DecoderError::RlpExpectedToBeList)
    );
}

#[test]
fn test_oversized_v_scalar_is_rejected() {
    let mut s = rlp::RlpStream::new_list(9);
    s.append(&0u64);
    s.append(&1u64);
    s.append(&21000u64);
    s.append(&vec![0x35u8; 20]);
    s.append(&0u64);
    s.append(&Vec::<u8>::new());
    s.append(&vec![0x01u8; 9]); // nine bytes cannot fit the u64 field `v`
    s.append(&vec![0x11u8; 32]);
    s.append(&vec![0x22u8; 32]);
    let err = EthTransactionKind::try_from(s.out().to_vec().as_slice()).unwrap_err();
    assert_eq!(
        err,
        ParseTransactionError::RlpDecodeError(DecoderError::RlpIsTooBig)
    );
}

#[test]
fn test_scalar_with_leading_zero_is_rejected() {
    let mut s = rlp::RlpStream::new_list(9);
    s.append_raw(&[0x82, 0x00, 0x09], 1); // nonce 9 with a leading zero byte
    s.append(&1u64);
    s.append(&21000u64);
    s.append(&vec![0x35u8; 20]);
    s.append(&0u64);
    s.append(&Vec::<u8>::new());
    s.append(&27u64);
    s.append(&vec![0x11u8; 32]);
    s.append(&vec![0x22u8; 32]);
    let err = EthTransactionKind::try_from(s.out().to_vec().as_slice()).unwrap_err();
    assert_eq!(
        err,
        ParseTransactionError::RlpDecodeError(DecoderError::RlpInvalidIndirection)
    );
}

#[test]
fn test_decode_access_list_contents() {
    let addr1 = vec![0xaau8; 20];
    let addr2 = vec![0xbbu8; 20];
    let key1 = vec![0x01u8; 32];
    let key2 = vec![0x02u8; 32];
    let key3 = vec![0x03u8; 32];
    let key4 = vec![0x04u8; 32];
    let mut s = rlp::RlpStream::new_list(11);
    s.append(&1u64);
    s.append(&0u64);
    s.append(&1u64);
    s.append(&21000u64);
    s.append(&vec![0x35u8; 20]);
    s.append(&0u64);
    s.append(&Vec::<u8>::new());
    s.begin_list(2);
    s.begin_list(2);
    s.append(&addr1);
    s.begin_list(1);
    s.append(&key1);
    s.begin_list(2);
    s.append(&addr2);
    s.begin_list(3);
    s.append(&key2);
    s.append(&key3);
    s.append(&key4);
    s.append(&0u64);
    s.append(&vec![0x11u8; 32]);
    s.append(&vec![0x22u8; 32]);
    let mut payload = vec![0x01u8];
    payload.extend(s.out().to_vec());
    let kind = EthTransactionKind::try_from(payload.as_slice()).unwrap();
    let tx = match kind {
        EthTransactionKind::Eip2930(tx) => tx,
        _ => panic!("expected the access-list variant"),
    };
    assert_eq!(tx.transaction.chain_id, 1);
    assert_eq!(tx.transaction.access_list.len(), 2);
    assert_eq!(tx.transaction.access_list[0].address.bytes.to_vec(), addr1);
    assert_eq!(tx.transaction.access_list[0].storage_keys.len(), 1);
    assert_eq!(
        tx.transaction.access_list[0].storage_keys[0].bytes.to_vec(),
        key1
    );
    assert_eq!(tx.transaction.access_list[1].address.bytes.to_vec(), addr2);
    assert_eq!(tx.transaction.access_list[1].storage_keys.len(), 3);
    assert_eq!(
        tx.transaction.access_list[1].storage_keys[2].bytes.to_vec(),
        key4
    );
    assert_eq!(tx.parity, 0);
}

#[test]
fn test_storage_key_of_wrong_length_is_rejected() {
    let mut s = rlp::RlpStream::new_list(11);
    s.append(&1u64);
    s.append(&0u64);
    s.append(&1u64);
    s.append(&21000u64);
    s.append(&vec![0x35u8; 20]);
    s.append(&0u64);
    s.append(&Vec::<u8>::new());
    s.begin_list(1);
    s.begin_list(2);
    s.append(&vec![0xaau8; 20]);
    s.begin_list(1);
    s.append(&vec![0x01u8; 31]); // one byte short of a storage key
    s.append(&0u64);
    s.append(&vec![0x11u8; 32]);
    s.append(&vec![0x22u8; 32]);
    let mut payload = vec![0x01u8];
    payload.extend(s.out().to_vec());
    let err = EthTransactionKind::try_from(payload.as_slice()).unwrap_err();
    assert_eq!(
        err,
        ParseTransactionError::RlpDecodeError(DecoderError::RlpInvalidLength)
    );
}

#[test]
fn test_access_list_signing_data_matches_rlp_crate_encoding() {
    let addr = vec![0xaau8; 20];
    let key = vec![0x07u8; 32];
    let mut body = rlp::RlpStream::new_list(11);
    body.append(&5u64); // chain id
    body.append(&2u64); // nonce
    body.append(&1_000u64); // gas price
    body.append(&21000u64); // gas limit
    body.append(&vec![0x35u8; 20]); // to
    body.append(&9u64); // value
    body.append(&vec![0xdeu8, 0xad]); // data
    body.begin_list(1);
    body.begin_list(2);
    body.append(&addr);
    body.begin_list(1);
    body.append(&key);
    body.append(&1u64); // parity
    body.append(&vec![0x11u8; 32]);
    body.append(&vec![0x22u8; 32]);
    let mut payload = vec![0x01u8];
    payload.extend(body.out().to_vec());
    let kind = EthTransactionKind::try_from(payload.as_slice()).unwrap();
    let tx = match kind {
        EthTransactionKind::Eip2930(tx) => tx,
        _ => panic!("expected the access-list variant"),
    };

    // The signing message re-encodes the unsigned fields: the same list
    // without the signature triple, behind the type byte.
    let mut unsigned = rlp::RlpStream::new_list(8);
    unsigned.append(&5u64);
    unsigned.append(&2u64);
    unsigned.append(&1_000u64);
    unsigned.append(&21000u64);
    unsigned.append(&vec![0x35u8; 20]);
    unsigned.append(&9u64);
    unsigned.append(&vec![0xdeu8, 0xad]);
    unsigned.begin_list(1);
    unsigned.begin_list(2);
    unsigned.append(&addr);
    unsigned.begin_list(1);
    unsigned.append(&key);
    let mut expected = vec![0x01u8];
    expected.extend(unsigned.out().to_vec());
    assert_eq!(tx.signing_data(), expected);
}

#[test]
fn test_decode_and_price_fee_market_transaction() {
    let mut s = rlp::RlpStream::new_list(12);
    s.append(&5u64); // chain id
    s.append(&7u64); // nonce
    s.append(&1_000_000u64); // max priority fee
    s.append(&3_000_000u64); // max fee
    s.append(&30000u64); // gas limit
    s.append(&vec![0x44u8; 20]); // to
    s.append(&123u64); // value
    s.append(&vec![0u8, 0, 0, 1, 2]); // three zero bytes, two non-zero
    s.begin_list(1);
    s.begin_list(2);
    s.append(&vec![0xaau8; 20]);
    s.begin_list(2);
    s.append(&vec![0x01u8; 32]);
    s.append(&vec![0x02u8; 32]);
    s.append(&1u64); // parity
    s.append(&vec![0x11u8; 32]);
    s.append(&vec![0x22u8; 32]);
    let mut payload = vec![0x02u8];
    payload.extend(s.out().to_vec());

    let kind = EthTransactionKind::try_from(payload.as_slice()).unwrap();
    let tx = match &kind {
        EthTransactionKind::Eip1559(tx) => tx,
        _ => panic!("expected the fee-market variant"),
    };
    assert_eq!(tx.transaction.chain_id, 5);
    assert_eq!(
        tx.transaction.max_priority_fee_per_gas.bytes,
        u256_bytes_from_u64(1_000_000)
    );
    assert_eq!(
        tx.transaction.max_fee_per_gas.bytes,
        u256_bytes_from_u64(3_000_000)
    );
    assert_eq!(tx.parity, 1);

    let normalized = NormalizedEthTransaction::from_kind(kind, None);
    assert_eq!(normalized.address, None);
    assert_eq!(normalized.chain_id, Some(5));
    assert_eq!(
        normalized.max_priority_fee_per_gas.bytes,
        u256_bytes_from_u64(1_000_000)
    );
    assert_eq!(
        normalized.max_fee_per_gas.bytes,
        u256_bytes_from_u64(3_000_000)
    );
    assert_eq!(normalized.access_list.len(), 1);

    let config = GasConfig {
        gas_transaction_create: 53000,
        gas_transaction_call: 21000,
        gas_transaction_zero_data: 4,
        gas_transaction_non_zero_data: 16,
        gas_access_list_address: 2400,
        gas_access_list_storage_key: 1900,
    };
    // 21000 + 3 zero bytes + 2 non-zero bytes + 1 address + 2 storage keys.
    assert_eq!(
        normalized.intrinsic_gas(&config),
        Some(21000 + 3 * 4 + 2 * 16 + 2400 + 2 * 1900)
    );
}

#[test]
fn test_normalization_unifies_pricing() {
    let bytes = hex_to_bytes(SIGNED_TX_HEX);
    let kind = EthTransactionKind::try_from(bytes.as_slice()).unwrap();
    let sender = ethtx::Address::new([0xcdu8; 20]);
    let normalized = NormalizedEthTransaction::from_kind(kind, Some(sender));
    assert_eq!(normalized.address, Some(sender));
    assert_eq!(normalized.chain_id, None);
    assert_eq!(
        normalized.max_priority_fee_per_gas.bytes,
        u256_bytes_from_u64(20_000_000_000)
    );
    assert_eq!(
        normalized.max_fee_per_gas.bytes,
        u256_bytes_from_u64(20_000_000_000)
    );
    assert!(normalized.access_list.is_empty());
    assert_eq!(normalized.nonce.bytes, u256_bytes_from_u64(9));
}
