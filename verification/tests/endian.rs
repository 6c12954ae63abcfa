use readelf_rs::endian::{
    push_u16, push_u32, push_u64, push_uint, read_u16, read_u32, read_u64, read_uint, Endianness,
};

#[test]
fn byte_order_codes() {
    assert_eq!(Endianness::Little.code(), 1);
    assert_eq!(Endianness::Big.code(), 2);
    assert_eq!(Endianness::from_code(1), Some(Endianness::Little));
    assert_eq!(Endianness::from_code(2), Some(Endianness::Big));
    assert_eq!(Endianness::from_code(0), None);
    assert_eq!(Endianness::from_code(3), None);
    assert_eq!(Endianness::from_code(255), None);
}

#[test]
fn reads_in_little_endian() {
    let bytes = [0x01, 0x02, 0x03, 0x04, 0x05, 0x06, 0x07, 0x08, 0x09];
    assert_eq!(read_u16(&bytes, 0, Endianness::Little), 0x0201);
    assert_eq!(read_u16(&bytes, 7, Endianness::Little), 0x0908);
    assert_eq!(read_u32(&bytes, 1, Endianness::Little), 0x05040302);
    assert_eq!(read_u64(&bytes, 0, Endianness::Little), 0x0807060504030201);
    assert_eq!(read_u64(&bytes, 1, Endianness::Little), 0x0908070605040302);
}

#[test]
fn reads_in_big_endian() {
    let bytes = [0x01, 0x02, 0x03, 0x04, 0x05, 0x06, 0x07, 0x08, 0x09];
    assert_eq!(read_u16(&bytes, 0, Endianness::Big), 0x0102);
    assert_eq!(read_u16(&bytes, 7, Endianness::Big), 0x0809);
    assert_eq!(read_u32(&bytes, 1, Endianness::Big), 0x02030405);
    assert_eq!(read_u64(&bytes, 0, Endianness::Big), 0x0102030405060708);
    assert_eq!(read_u64(&bytes, 1, Endianness::Big), 0x0203040506070809);
}

#[test]
fn reads_of_any_width() {
    let bytes = [0xaa, 0xbb, 0xcc, 0xdd, 0xee];
    assert_eq!(read_uint(&bytes, 2, 0, Endianness::Little), 0);
    assert_eq!(read_uint(&bytes, 5, 0, Endianness::Big), 0);
    assert_eq!(read_uint(&bytes, 4, 1, Endianness::Little), 0xee);
    assert_eq!(read_uint(&bytes, 4, 1, Endianness::Big), 0xee);
    assert_eq!(read_uint(&bytes, 1, 3, Endianness::Little), 0xddccbb);
    assert_eq!(read_uint(&bytes, 1, 3, Endianness::Big), 0xbbccdd);
    assert_eq!(read_uint(&bytes, 0, 5, Endianness::Little), 0xeeddccbbaa);
    assert_eq!(read_uint(&bytes, 0, 5, Endianness::Big), 0xaabbccddee);
}

#[test]
fn reads_the_largest_values() {
    let bytes = [0xffu8; 8];
    for order in [Endianness::Little, Endianness::Big] {
        assert_eq!(read_u16(&bytes, 0, order), u16::MAX);
        assert_eq!(read_u32(&bytes, 0, order), u32::MAX);
        assert_eq!(read_u64(&bytes, 0, order), u64::MAX);
    }
}

#[test]
fn reads_agree_with_the_standard_library() {
    let bytes = [0x10, 0x32, 0x54, 0x76, 0x98, 0xba, 0xdc, 0xfe];
    assert_eq!(read_u16(&bytes, 0, Endianness::Little), u16::from_le_bytes([0x10, 0x32]));
    assert_eq!(read_u16(&bytes, 0, Endianness::Big), u16::from_be_bytes([0x10, 0x32]));
    assert_eq!(
        read_u32(&bytes, 4, Endianness::Little),
        u32::from_le_bytes([0x98, 0xba, 0xdc, 0xfe])
    );
    assert_eq!(read_u32(&bytes, 4, Endianness::Big), u32::from_be_bytes([0x98, 0xba, 0xdc, 0xfe]));
    assert_eq!(read_u64(&bytes, 0, Endianness::Little), u64::from_le_bytes(bytes));
    assert_eq!(read_u64(&bytes, 0, Endianness::Big), u64::from_be_bytes(bytes));
}

#[test]
fn writes_in_little_endian() {
    let mut out = vec![0xee];
    push_u16(&mut out, 0x0201, Endianness::Little);
    push_u32(&mut out, 0x06050403, Endianness::Little);
    push_u64(&mut out, 0x0e0d0c0b0a090807, Endianness::Little);
    assert_eq!(
        out,
        vec![0xee, 0x01, 0x02, 0x03, 0x04, 0x05, 0x06, 0x07, 0x08, 0x09, 0x0a, 0x0b, 0x0c, 0x0d, 0x0e]
    );
}

#[test]
fn writes_in_big_endian() {
    let mut out = vec![0xee];
    push_u16(&mut out, 0x0102, Endianness::Big);
    push_u32(&mut out, 0x03040506, Endianness::Big);
    push_u64(&mut out, 0x0708090a0b0c0d0e, Endianness::Big);
    assert_eq!(
        out,
        vec![0xee, 0x01, 0x02, 0x03, 0x04, 0x05, 0x06, 0x07, 0x08, 0x09, 0x0a, 0x0b, 0x0c, 0x0d, 0x0e]
    );
}

#[test]
fn writes_of_any_width_keep_the_low_bytes() {
    let mut out = Vec::new();
    push_uint(&mut out, 0x1122334455667788, 0, Endianness::Little);
    assert_eq!(out, Vec::<u8>::new());
    push_uint(&mut out, 0x1122334455667788, 3, Endianness::Little);
    assert_eq!(out, vec![0x88, 0x77, 0x66]);
    push_uint(&mut out, 0x1122334455667788, 3, Endianness::Big);
    assert_eq!(out, vec![0x88, 0x77, 0x66, 0x66, 0x77, 0x88]);
    let mut out = Vec::new();
    push_uint(&mut out, 5, 8, Endianness::Big);
    assert_eq!(out, vec![0, 0, 0, 0, 0, 0, 0, 5]);
}

#[test]
fn what_is_written_is_read_back() {
    for order in [Endianness::Little, Endianness::Big] {
        for v in [0u64, 1, 0xff, 0x100, 0xdead_beef, u64::MAX - 1, u64::MAX] {
            let mut out = Vec::new();
            push_u64(&mut out, v, order);
            assert_eq!(out.len(), 8);
            assert_eq!(read_u64(&out, 0, order), v);
        }
        for v in [0u16, 1, 0x1234, u16::MAX] {
            let mut out = vec![7, 7, 7];
            push_u16(&mut out, v, order);
            assert_eq!(out.len(), 5);
            assert_eq!(read_u16(&out, 3, order), v);
        }
        for v in [0u32, 1, 0x12345678, u32::MAX] {
            let mut out = Vec::new();
            push_u32(&mut out, v, order);
            assert_eq!(out.len(), 4);
            assert_eq!(read_u32(&out, 0, order), v);
        }
    }
}

#[test]
fn byte_order_of_a_probe() {
    assert_eq!(Endianness::of_probe(1), Endianness::Little);
    assert_eq!(Endianness::of_probe(256), Endianness::Big);
    assert_eq!(Endianness::of_probe(u16::from_le_bytes([1, 0])), Endianness::Little);
    assert_eq!(Endianness::of_probe(u16::from_be_bytes([1, 0])), Endianness::Big);
    assert_eq!(Endianness::of_probe(u16::from_ne_bytes([1, 0])), Endianness::native());
}
