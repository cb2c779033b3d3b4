use ethtx::JsonError;

#[test]
fn test_json_type_array() {}

#[test]
fn test_json_error_identifiers() {
    assert_eq!(JsonError::NotJsonType.as_ref(), "ERR_NOT_A_JSON_TYPE");
    assert_eq!(JsonError::MissingValue.as_ref(), "ERR_JSON_MISSING_VALUE");
    assert_eq!(JsonError::InvalidU8.as_ref(), "ERR_FAILED_PARSE_U8");
    assert_eq!(JsonError::InvalidU64.as_ref(), "ERR_FAILED_PARSE_U64");
    assert_eq!(JsonError::InvalidU128.as_ref(), "ERR_FAILED_PARSE_U128");
    assert_eq!(JsonError::InvalidBool.as_ref(), "ERR_FAILED_PARSE_BOOL");
    assert_eq!(JsonError::InvalidString.as_ref(), "ERR_FAILED_PARSE_STRING");
    assert_eq!(JsonError::InvalidArray.as_ref(), "ERR_FAILED_PARSE_ARRAY");
    assert_eq!(
        JsonError::ExpectedStringGotNumber.as_ref(),
        "ERR_EXPECTED_STRING_GOT_NUMBER"
    );
    assert_eq!(JsonError::OutOfRangeU8.as_ref(), "ERR_OUT_OF_RANGE_U8");
    assert_eq!(JsonError::OutOfRangeU64.as_ref(), "ERR_OUT_OF_RANGE_U64");
}
