use ethtx::decode_transaction;
use ethtx::EthTransactionKind;
use ethtx::ParseTransactionError;

fn u256_bytes_from_u64(v: u64) -> [u8; 32] {
    let mut out = [0u8; 32];
    out[24..32].copy_from_slice(&v.to_be_bytes());
    out
}

fn simple_legacy_bytes() -> Vec<u8> {
    let mut s = rlp::RlpStream::new_list(9);
    s.append(&9u64); // nonce
    s.append(&20_000_000_000u64); // gas price
    s.append(&21000u64); // gas limit
    s.append(&vec![0x35u8; 20]); // to
    s.append(&1_000_000_000u64); // value
    s.append(&Vec::<u8>::new()); // data
    s.append(&37u64); // v
    s.append(&vec![0x28u8; 32]); // r
    s.append(&vec![0x67u8; 32]); // s
    s.out().to_vec()
}

fn simple_2930_body() -> Vec<u8> {
    let mut s = rlp::RlpStream::new_list(11);
    s.append(&1u64); // chain id
    s.append(&0u64); // nonce
    s.append(&20_000_000_000u64); // gas price
    s.append(&21000u64); // gas limit
    s.append(&vec![0x35u8; 20]); // to
    s.append(&0u64); // value
    s.append(&Vec::<u8>::new()); // data
    s.begin_list(0); // access list
    s.append(&0u64); // parity
    s.append(&vec![0x28u8; 32]); // r
    s.append(&vec![0x67u8; 32]); // s
    s.out().to_vec()
}

fn simple_1559_body() -> Vec<u8> {
    let mut s = rlp::RlpStream::new_list(12);
    s.append(&1u64); // chain id
    s.append(&0u64); // nonce
    s.append(&1_000_000_000u64); // max priority fee
    s.append(&2_000_000_000u64); // max fee
    s.append(&21000u64); // gas limit
    s.append(&vec![0x35u8; 20]); // to
    s.append(&0u64); // value
    s.append(&Vec::<u8>::new()); // data
    s.begin_list(0); // access list
    s.append(&1u64); // parity
    s.append(&vec![0x28u8; 32]); // r
    s.append(&vec![0x67u8; 32]); // s
    s.out().to_vec()
}

#[test]
fn test_discriminator_completeness() {
    for x in 0u8..=0x7f {
        if x == 0x01 || x == 0x02 {
            continue;
        }
        let err = EthTransactionKind::try_from(&[x][..]).unwrap_err();
        assert_eq!(err, ParseTransactionError::UnknownTransactionType);
    }
    let err = EthTransactionKind::try_from(&[0xffu8][..]).unwrap_err();
    assert_eq!(err, ParseTransactionError::ReservedSentinel);
}

#[test]
fn test_decode_deterministic() {
    let good = simple_legacy_bytes();
    let first = EthTransactionKind::try_from(good.as_slice());
    let second = EthTransactionKind::try_from(good.as_slice());
    assert_eq!(first, second);

    let bad = vec![0x01u8, 0xc0];
    let first = EthTransactionKind::try_from(bad.as_slice());
    let second = EthTransactionKind::try_from(bad.as_slice());
    assert!(first.is_err());
    assert_eq!(first, second);
}

#[test]
fn test_access_list_payload_yields_access_list_variant() {
    let mut payload = vec![0x01u8];
    payload.extend(simple_2930_body());
    let kind = EthTransactionKind::try_from(payload.as_slice()).unwrap();
    assert!(matches!(kind, EthTransactionKind::Eip2930(_)));
}

#[test]
fn test_fee_market_payload_yields_fee_market_variant() {
    let mut payload = vec![0x02u8];
    payload.extend(simple_1559_body());
    let kind = EthTransactionKind::try_from(payload.as_slice()).unwrap();
    assert!(matches!(kind, EthTransactionKind::Eip1559(_)));
}

#[test]
fn test_fee_market_disabled_rejects_its_type_byte() {
    let mut payload = vec![0x02u8];
    payload.extend(simple_1559_body());
    let err = decode_transaction(payload.as_slice(), false).unwrap_err();
    assert_eq!(err, ParseTransactionError::UnknownTransactionType);
}

#[test]
fn test_legacy_payload_yields_legacy_variant() {
    let bytes = simple_legacy_bytes();
    assert!(bytes[0] > 0x7f && bytes[0] != 0xff);
    let kind = EthTransactionKind::try_from(bytes.as_slice()).unwrap();
    match kind {
        EthTransactionKind::Legacy(tx) => {
            assert_eq!(tx.v, 37);
            assert_eq!(tx.transaction.nonce.bytes, u256_bytes_from_u64(9));
        },
        _ => panic!("expected the legacy variant"),
    }
}

#[test]
fn test_error_identifiers() {
    assert_eq!(
        ParseTransactionError::UnknownTransactionType.as_ref(),
        "ERR_UNKNOWN_TX_TYPE"
    );
    assert_eq!(
        ParseTransactionError::ReservedSentinel.as_ref(),
        "ERR_RESERVED_LEADING_TX_BYTE"
    );
    let err = EthTransactionKind::try_from(&[0x01u8][..]).unwrap_err();
    assert_eq!(err.as_ref(), "ERR_TX_RLP_DECODE");
}
