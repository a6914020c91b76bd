use sg3::{
    decode_text, inquiry, text_field, PeripheralDeviceType, PeripheralQualifier, Sg3Error,
    StdInquiry,
};

fn sample_response() -> Vec<u8> {
    let mut buf = vec![0u8; 96];
    buf[0] = 0x65;
    buf[1] = 0xc0;
    buf[2] = 0x06;
    buf[3] = 0x32;
    buf[4] = 91;
    buf[5] = 0xf9;
    buf[6] = 0x51;
    buf[7] = 0x32;
    buf[8..16].copy_from_slice(b"ACME    ");
    buf[16..32].copy_from_slice(b"Rocket Disk 9000");
    buf[32..36].copy_from_slice(b"1.0b");
    buf
}

fn sample() -> StdInquiry {
    inquiry(sample_response()).unwrap()
}

#[test]
fn test_inquiry() {
    let mut buf = vec![0u8; 96];
    buf[3] = 2;
    inquiry(buf).unwrap();
}

#[test]
fn inquiry_keeps_the_response() {
    let inq = sample();
    assert_eq!(inq.as_buf(), &sample_response()[..]);
    assert_eq!(inq.as_buf().len(), 96);
}

#[test]
fn inquiry_rejects_format_3() {
    let mut buf = sample_response();
    buf[3] = 3;
    assert_eq!(inquiry(buf).err(), Some(Sg3Error::UnsupportedFormat));
}

#[test]
fn inquiry_rejects_every_format_but_2() {
    for format in 0u8..16 {
        for high in [0x00u8, 0x30, 0xf0] {
            let mut buf = sample_response();
            buf[3] = high | format;
            let r = inquiry(buf);
            if format == 2 {
                assert_eq!(r.unwrap().response_data_format(), 2);
            } else {
                assert_eq!(r.err(), Some(Sg3Error::UnsupportedFormat));
            }
        }
    }
}

#[test]
fn inquiry_rejects_a_zero_filled_buffer() {
    assert_eq!(inquiry(vec![0u8; 96]).err(), Some(Sg3Error::UnsupportedFormat));
}

#[test]
fn inquiry_rejects_a_short_response() {
    assert_eq!(inquiry(Vec::new()).err(), Some(Sg3Error::Truncated));
    let mut buf = sample_response();
    buf.truncate(95);
    assert_eq!(inquiry(buf).err(), Some(Sg3Error::Truncated));
}

#[test]
fn inquiry_rejects_a_long_response() {
    let mut buf = sample_response();
    buf.push(0);
    assert_eq!(inquiry(buf).err(), Some(Sg3Error::MalformedResponse));
}

#[test]
fn peripheral_byte_of_the_standard_data() {
    let inq = sample();
    assert_eq!(inq.peripheral_qualifier(), PeripheralQualifier::NotCapable);
    assert_eq!(inq.peripheral_device_type(), PeripheralDeviceType::CdDvd);
}

#[test]
fn peripheral_byte_over_all_values() {
    for b in 0u8..=255 {
        let mut buf = sample_response();
        buf[0] = b;
        let inq = inquiry(buf).unwrap();
        assert_eq!(inq.peripheral_qualifier(), sg3::to_qualifier(b >> 5));
        assert_eq!(inq.peripheral_device_type(), sg3::to_device_type(b & 0x1f));
    }
}

#[test]
fn flags_that_are_set() {
    let inq = sample();
    assert_eq!(inq.rmb(), 1);
    assert_eq!(inq.lu_cong(), 1);
    assert_eq!(inq.version(), 6);
    assert_eq!(inq.norm_aca(), 1);
    assert_eq!(inq.hi_sup(), 1);
    assert_eq!(inq.response_data_format(), 2);
    assert_eq!(inq.sccs(), 1);
    assert_eq!(inq.acc(), 1);
    assert_eq!(inq.tpgs(), 3);
    assert_eq!(inq.third_party_copy(), 1);
    assert_eq!(inq.protect(), 1);
    assert_eq!(inq.enc_serv(), 1);
    assert_eq!(inq.multi_p(), 1);
    assert_eq!(inq.addr16(), 1);
    assert_eq!(inq.wbus16(), 1);
    assert_eq!(inq.sync(), 1);
    assert_eq!(inq.cmd_que(), 1);
}

#[test]
fn flags_that_are_clear() {
    let mut buf = vec![0u8; 96];
    buf[1] = !0xc0;
    buf[3] = 0x02 | 0xc0;
    buf[5] = !0xf9;
    buf[6] = !0x51;
    buf[7] = !0x32;
    let inq = inquiry(buf).unwrap();
    assert_eq!(inq.rmb(), 0);
    assert_eq!(inq.lu_cong(), 0);
    assert_eq!(inq.version(), 0);
    assert_eq!(inq.norm_aca(), 0);
    assert_eq!(inq.hi_sup(), 0);
    assert_eq!(inq.sccs(), 0);
    assert_eq!(inq.acc(), 0);
    assert_eq!(inq.tpgs(), 0);
    assert_eq!(inq.third_party_copy(), 0);
    assert_eq!(inq.protect(), 0);
    assert_eq!(inq.enc_serv(), 0);
    assert_eq!(inq.multi_p(), 0);
    assert_eq!(inq.addr16(), 0);
    assert_eq!(inq.wbus16(), 0);
    assert_eq!(inq.sync(), 0);
    assert_eq!(inq.cmd_que(), 0);
}

#[test]
fn tpgs_takes_two_bits() {
    for (byte, want) in [(0x00u8, 0u8), (0x10, 1), (0x20, 2), (0x30, 3), (0xcf, 0), (0xef, 2)] {
        let mut buf = sample_response();
        buf[5] = byte;
        assert_eq!(inquiry(buf).unwrap().tpgs(), want);
    }
}

#[test]
fn hi_sup_and_sync_read_bit_4() {
    let inq = sample();
    assert_eq!(inq.as_buf()[3] & 0x10, 0x10);
    assert_eq!(inq.as_buf()[7] & 0x10, 0x10);
    assert_eq!(inq.hi_sup(), 1);
    assert_eq!(inq.sync(), 1);
    let mut buf = sample_response();
    buf[3] = 0x02;
    buf[7] = 0x22;
    let inq = inquiry(buf).unwrap();
    assert_eq!(inq.hi_sup(), 0);
    assert_eq!(inq.sync(), 0);
    let mut buf = sample_response();
    buf[3] = 0x12;
    buf[7] = 0x10;
    let inq = inquiry(buf).unwrap();
    assert_eq!(inq.hi_sup(), 1);
    assert_eq!(inq.norm_aca(), 0);
    assert_eq!(inq.sync(), 1);
    assert_eq!(inq.wbus16(), 0);
    assert_eq!(inq.cmd_que(), 0);
    let mut buf = sample_response();
    buf[3] = 0xe2;
    buf[7] = 0xef;
    let inq = inquiry(buf).unwrap();
    assert_eq!(inq.hi_sup(), 0);
    assert_eq!(inq.sync(), 0);
}

#[test]
fn text_fields() {
    let inq = sample();
    assert_eq!(inq.vendor(), Ok("ACME    "));
    assert_eq!(inq.product_id(), Ok("Rocket Disk 9000"));
    assert_eq!(inq.product_revision(), Ok("1.0b"));
}

#[test]
fn text_fields_keep_nul_bytes() {
    let mut buf = vec![0u8; 96];
    buf[3] = 2;
    let inq = inquiry(buf).unwrap();
    assert_eq!(inq.vendor(), Ok("\0\0\0\0\0\0\0\0"));
    assert_eq!(inq.product_revision(), Ok("\0\0\0\0"));
}

#[test]
fn text_fields_take_multi_byte_text() {
    let mut buf = sample_response();
    buf[32..36].copy_from_slice(&[0xc3, 0xa9, 0xc3, 0xa9]);
    let inq = inquiry(buf).unwrap();
    assert_eq!(inq.product_revision(), Ok("\u{e9}\u{e9}"));
}

#[test]
fn invalid_text_is_a_decode_error() {
    let mut buf = sample_response();
    buf[8] = 0xff;
    buf[31] = 0xc3;
    buf[32] = 0x80;
    let inq = inquiry(buf).unwrap();
    assert_eq!(inq.vendor(), Err(Sg3Error::TextDecode));
    assert_eq!(inq.product_id(), Err(Sg3Error::TextDecode));
    assert_eq!(inq.product_revision(), Err(Sg3Error::TextDecode));
}

#[test]
fn text_field_on_its_own() {
    assert_eq!(text_field(b"abc"), Ok("abc"));
    assert_eq!(text_field(b""), Ok(""));
    assert_eq!(text_field(&[0x61, 0x80]), Err(Sg3Error::TextDecode));
    assert_eq!(decode_text(b"abc"), Some("abc"));
    assert_eq!(decode_text(&[0xe2, 0x82]), None);
}
