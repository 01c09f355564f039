use intel_pstate::text::{bool_to_bytes, parse_trimmed_u8, u8_to_dec};

#[test]
fn parse_accepts_plain_digits() {
    assert_eq!(parse_trimmed_u8(&b"0".to_vec()), Some(0));
    assert_eq!(parse_trimmed_u8(&b"1".to_vec()), Some(1));
    assert_eq!(parse_trimmed_u8(&b"42".to_vec()), Some(42));
    assert_eq!(parse_trimmed_u8(&b"255".to_vec()), Some(255));
}

#[test]
fn parse_trims_surrounding_whitespace() {
    assert_eq!(parse_trimmed_u8(&b"42\n".to_vec()), Some(42));
    assert_eq!(parse_trimmed_u8(&b" \t 42 \r\n".to_vec()), Some(42));
}

#[test]
fn parse_accepts_a_leading_plus_sign() {
    assert_eq!(parse_trimmed_u8(&b"+17".to_vec()), Some(17));
    assert_eq!(parse_trimmed_u8(&b"+0\n".to_vec()), Some(0));
}

#[test]
fn parse_accepts_leading_zeros() {
    assert_eq!(parse_trimmed_u8(&b"007".to_vec()), Some(7));
    assert_eq!(parse_trimmed_u8(&b"00000000000000255".to_vec()), Some(255));
}

#[test]
fn parse_rejects_values_out_of_range() {
    assert_eq!(parse_trimmed_u8(&b"256".to_vec()), None);
    assert_eq!(parse_trimmed_u8(&b"1000".to_vec()), None);
    assert_eq!(parse_trimmed_u8(&b"00000000000000256".to_vec()), None);
}

#[test]
fn parse_rejects_non_numeric_text() {
    assert_eq!(parse_trimmed_u8(&b"".to_vec()), None);
    assert_eq!(parse_trimmed_u8(&b"\n".to_vec()), None);
    assert_eq!(parse_trimmed_u8(&b"abc".to_vec()), None);
    assert_eq!(parse_trimmed_u8(&b"+".to_vec()), None);
    assert_eq!(parse_trimmed_u8(&b"++1".to_vec()), None);
    assert_eq!(parse_trimmed_u8(&b"-1".to_vec()), None);
    assert_eq!(parse_trimmed_u8(&b"4 2".to_vec()), None);
    assert_eq!(parse_trimmed_u8(&b"42x".to_vec()), None);
    assert_eq!(parse_trimmed_u8(&b"0x10".to_vec()), None);
}

#[test]
fn decimal_text_is_canonical() {
    assert_eq!(u8_to_dec(0), b"0".to_vec());
    assert_eq!(u8_to_dec(7), b"7".to_vec());
    assert_eq!(u8_to_dec(10), b"10".to_vec());
    assert_eq!(u8_to_dec(99), b"99".to_vec());
    assert_eq!(u8_to_dec(100), b"100".to_vec());
    assert_eq!(u8_to_dec(255), b"255".to_vec());
}

#[test]
fn boolean_text_is_one_or_zero() {
    assert_eq!(bool_to_bytes(true), b"1".to_vec());
    assert_eq!(bool_to_bytes(false), b"0".to_vec());
}

#[test]
fn parse_reads_back_every_rendered_value() {
    let mut v: u8 = 0;
    loop {
        assert_eq!(parse_trimmed_u8(&u8_to_dec(v)), Some(v));
        if v == 255 {
            break;
        }
        v += 1;
    }
}
