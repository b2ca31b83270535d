use raytracer::text::decimal_bytes;

#[test]
fn single_digits() {
    assert_eq!(decimal_bytes(0), b"0".to_vec());
    assert_eq!(decimal_bytes(7), b"7".to_vec());
    assert_eq!(decimal_bytes(9), b"9".to_vec());
}

#[test]
fn multiple_digits() {
    assert_eq!(decimal_bytes(10), b"10".to_vec());
    assert_eq!(decimal_bytes(255), b"255".to_vec());
    assert_eq!(decimal_bytes(1920), b"1920".to_vec());
    assert_eq!(decimal_bytes(100000), b"100000".to_vec());
}
