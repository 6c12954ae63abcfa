use readelf_rs::numeral::{
    code_label_string, decimal_string, hex_string, push_decimal, push_hex, push_hex_dump,
    push_hex_pair,
};

#[test]
fn decimal_numerals() {
    assert_eq!(decimal_string(0), "0");
    assert_eq!(decimal_string(7), "7");
    assert_eq!(decimal_string(9), "9");
    assert_eq!(decimal_string(10), "10");
    assert_eq!(decimal_string(99), "99");
    assert_eq!(decimal_string(100), "100");
    assert_eq!(decimal_string(140200), "140200");
    assert_eq!(decimal_string(1234567890), "1234567890");
    assert_eq!(decimal_string(u64::MAX), "18446744073709551615");
}

#[test]
fn hexadecimal_numerals() {
    assert_eq!(hex_string(0), "0");
    assert_eq!(hex_string(9), "9");
    assert_eq!(hex_string(10), "a");
    assert_eq!(hex_string(15), "f");
    assert_eq!(hex_string(16), "10");
    assert_eq!(hex_string(0x401020), "401020");
    assert_eq!(hex_string(0x9999), "9999");
    assert_eq!(hex_string(0xdeadbeef), "deadbeef");
    assert_eq!(hex_string(0x0123456789abcdef), "123456789abcdef");
    assert_eq!(hex_string(u64::MAX), "ffffffffffffffff");
}

#[test]
fn numerals_agree_with_the_standard_library() {
    let mut n: u64 = 1;
    for _ in 0..64 {
        for v in [n - 1, n, n + 1] {
            assert_eq!(decimal_string(v), format!("{}", v));
            assert_eq!(hex_string(v), format!("{:x}", v));
        }
        n = n.wrapping_mul(2);
    }
}

#[test]
fn numerals_are_appended() {
    let mut out = String::from("n = ");
    push_decimal(&mut out, 52);
    out.push_str(", 0x");
    push_hex(&mut out, 52);
    assert_eq!(out, "n = 52, 0x34");
}

#[test]
fn a_byte_has_two_hex_digits() {
    let mut out = String::new();
    push_hex_pair(&mut out, 0x00);
    push_hex_pair(&mut out, 0x0a);
    push_hex_pair(&mut out, 0x7f);
    push_hex_pair(&mut out, 0xff);
    assert_eq!(out, "000a7fff");
    for b in 0..=255u8 {
        let mut out = String::new();
        push_hex_pair(&mut out, b);
        assert_eq!(out, format!("{:02x}", b));
    }
}

#[test]
fn hex_dumps() {
    let mut out = String::new();
    push_hex_dump(&mut out, &[]);
    assert_eq!(out, "");
    push_hex_dump(&mut out, &[0x7f]);
    assert_eq!(out, "7f");
    let mut out = String::from("[");
    push_hex_dump(&mut out, &[0x7f, 0x45, 0x4c, 0x46, 0x00, 0x0f]);
    out.push(']');
    assert_eq!(out, "[7f 45 4c 46 00 0f]");
}

#[test]
fn labels_of_codes() {
    assert_eq!(code_label_string("<unknown>", 0x9999), "<unknown>: (0x9999)");
    assert_eq!(code_label_string("<unknown>", 0), "<unknown>: (0x0)");
    assert_eq!(code_label_string("OS-specific", 0xfe0a), "OS-specific: (0xfe0a)");
    assert_eq!(code_label_string("", 0xffff), ": (0xffff)");
}
