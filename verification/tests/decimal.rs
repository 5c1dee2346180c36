use bandwidth_hero::decimal::{format_signed, format_unsigned};

#[test]
fn unsigned_values() {
    assert_eq!(format_unsigned(0), b"0".to_vec());
    assert_eq!(format_unsigned(7), b"7".to_vec());
    assert_eq!(format_unsigned(10), b"10".to_vec());
    assert_eq!(format_unsigned(12345), b"12345".to_vec());
    assert_eq!(format_unsigned(1000000), b"1000000".to_vec());
    assert_eq!(format_unsigned(u128::MAX), u128::MAX.to_string().into_bytes());
}

#[test]
fn signed_values() {
    assert_eq!(format_signed(0), b"0".to_vec());
    assert_eq!(format_signed(42), b"42".to_vec());
    assert_eq!(format_signed(-1), b"-1".to_vec());
    assert_eq!(format_signed(-70), b"-70".to_vec());
    assert_eq!(format_signed(i128::MAX), i128::MAX.to_string().into_bytes());
    assert_eq!(format_signed(i128::MIN), i128::MIN.to_string().into_bytes());
}
