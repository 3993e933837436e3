use steel_plate::num::parse_u32;
use steel_plate::num::u32_to_dec;
use steel_plate::response::json_total;

#[test]
fn parse_simple() {
    assert_eq!(parse_u32(b"0"), Some(0));
    assert_eq!(parse_u32(b"5"), Some(5));
    assert_eq!(parse_u32(b"42"), Some(42));
    assert_eq!(parse_u32(b"099"), Some(99));
}

#[test]
fn parse_plus_sign() {
    assert_eq!(parse_u32(b"+7"), Some(7));
    assert_eq!(parse_u32(b"+"), None);
    assert_eq!(parse_u32(b"++1"), None);
}

#[test]
fn parse_rejects_garbage() {
    assert_eq!(parse_u32(b""), None);
    assert_eq!(parse_u32(b"abc"), None);
    assert_eq!(parse_u32(b"1a"), None);
    assert_eq!(parse_u32(b"-1"), None);
    assert_eq!(parse_u32(b" 5"), None);
    assert_eq!(parse_u32(b"5 "), None);
    assert_eq!(parse_u32(b"1.5"), None);
}

#[test]
fn parse_bounds() {
    assert_eq!(parse_u32(b"4294967295"), Some(u32::MAX));
    assert_eq!(parse_u32(b"4294967296"), None);
    assert_eq!(parse_u32(b"99999999999999999999"), None);
}

#[test]
fn format_digits() {
    assert_eq!(u32_to_dec(0), b"0".to_vec());
    assert_eq!(u32_to_dec(7), b"7".to_vec());
    assert_eq!(u32_to_dec(105), b"105".to_vec());
    assert_eq!(u32_to_dec(u32::MAX), b"4294967295".to_vec());
}

#[test]
fn format_then_parse_round_trips() {
    for n in [0u32, 1, 9, 10, 99, 100, 12345, u32::MAX] {
        assert_eq!(parse_u32(&u32_to_dec(n)), Some(n));
    }
}

#[test]
fn json_body_exact() {
    assert_eq!(json_total(5), b"{\"total\": 5}".to_vec());
    assert_eq!(json_total(0), b"{\"total\": 0}".to_vec());
    assert_eq!(json_total(4294967295), b"{\"total\": 4294967295}".to_vec());
}
