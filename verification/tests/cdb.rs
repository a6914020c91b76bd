use sg3::{
    standard_inquiry_cdb, vpd_inquiry_cdb, INQUIRY_OPCODE, STD_INQUIRY_LEN, VPD80_BUFFER_LEN,
    VPD83_BUFFER_LEN, VPD_DEVICE_IDENTIFICATION, VPD_UNIT_SERIAL_NUMBER,
};

#[test]
fn standard_cdb_for_96_bytes() {
    assert_eq!(standard_inquiry_cdb(96), [0x12, 0, 0, 0, 96, 0]);
}

#[test]
fn standard_cdb_for_the_library_buffer() {
    assert_eq!(STD_INQUIRY_LEN, 96);
    assert_eq!(standard_inquiry_cdb(STD_INQUIRY_LEN as u8), [0x12, 0, 0, 0, 96, 0]);
}

#[test]
fn standard_cdb_length_edges() {
    assert_eq!(standard_inquiry_cdb(0), [0x12, 0, 0, 0, 0, 0]);
    assert_eq!(standard_inquiry_cdb(255), [0x12, 0, 0, 0, 255, 0]);
}

#[test]
fn vpd_cdb_for_page_83_and_1024_bytes() {
    assert_eq!(vpd_inquiry_cdb(0x83, 1024), [0x12, 1, 0x83, 0x04, 0x00, 0]);
}

#[test]
fn vpd_cdb_for_page_80_and_96_bytes() {
    assert_eq!(VPD80_BUFFER_LEN, 96);
    assert_eq!(
        vpd_inquiry_cdb(VPD_UNIT_SERIAL_NUMBER, VPD80_BUFFER_LEN as u16),
        [0x12, 1, 0x80, 0x00, 0x60, 0]
    );
}

#[test]
fn vpd_cdb_length_is_big_endian() {
    assert_eq!(vpd_inquiry_cdb(0x83, 0x1234), [0x12, 1, 0x83, 0x12, 0x34, 0]);
    assert_eq!(vpd_inquiry_cdb(0x83, 0x00ff), [0x12, 1, 0x83, 0x00, 0xff, 0]);
    assert_eq!(vpd_inquiry_cdb(0x83, 0xff00), [0x12, 1, 0x83, 0xff, 0x00, 0]);
    assert_eq!(vpd_inquiry_cdb(0x00, 0xffff), [0x12, 1, 0x00, 0xff, 0xff, 0]);
    assert_eq!(vpd_inquiry_cdb(0xff, 0), [0x12, 1, 0xff, 0, 0, 0]);
}

#[test]
fn vpd_cdb_length_reads_back() {
    for len in [0u16, 1, 255, 256, 1024, 0x1234, 0xfffe, 0xffff] {
        let cdb = vpd_inquiry_cdb(VPD_DEVICE_IDENTIFICATION, len);
        assert_eq!(u16::from(cdb[3]) * 256 + u16::from(cdb[4]), len);
    }
}

#[test]
fn named_constants() {
    assert_eq!(INQUIRY_OPCODE, 0x12);
    assert_eq!(VPD_UNIT_SERIAL_NUMBER, 0x80);
    assert_eq!(VPD_DEVICE_IDENTIFICATION, 0x83);
    assert_eq!(VPD83_BUFFER_LEN, 1024);
}
