//! SCSI INQUIRY codec for the Linux SCSI generic (sg) pass-through interface.
//!
//! The crate builds the six-byte command descriptor blocks of the INQUIRY
//! command and decodes the three responses it supports: the standard inquiry
//! data, the Unit Serial Number page (`0x80`) and the Device Identification
//! page (`0x83`). It performs no I/O: a caller sends the command block through
//! its transport and hands the filled response buffer back.
//!
//! The functions are verified against contracts stated over the bytes of the
//! buffer they read or write. Four private functions of [`wire`] are trusted
//! instead: they call `byteorder` and the standard library for big-endian
//! integers and UTF-8 text, and their contracts state what those callees are
//! documented to do. What a lossy decoder makes of invalid UTF-8 is named
//! there, not defined.

pub mod error;
pub mod codes;
pub mod wire;
pub mod cdb;
pub mod standard;
pub mod vpd80;
pub mod vpd83;

pub use crate::error::{Sg3Error, Sg3Result};
pub use crate::codes::{
    to_association, to_designator_type, to_device_type, to_protocol, to_qualifier, Association,
    DesignatorType, PeripheralDeviceType, PeripheralQualifier, ProtocolIdentifier,
};
pub use crate::cdb::{
    standard_inquiry_cdb, vpd_inquiry_cdb, INQUIRY_OPCODE, VPD_DEVICE_IDENTIFICATION,
    VPD_UNIT_SERIAL_NUMBER,
};
pub use crate::wire::{
    be_u16, be_u16_bytes, decode_text, is_text, text_field, text_of, utf8_lossy,
};
pub use crate::standard::{
    inquiry, std_inquiry_of, StdInquiry, RESPONSE_DATA_FORMAT, STD_INQUIRY_LEN,
};
pub use crate::vpd80::{
    inquiry_vpd_80, serial_number_len, serial_number_of, InquiryVpd80, VPD80_BUFFER_LEN,
    VPD80_HEADER_LEN,
};
pub use crate::vpd83::{
    des_desc, des_descs, descriptor_len, descriptor_of, descriptor_views, descriptors_of,
    designator_of, designator_text, inquiry_vpd_83, is_nul_cut, is_text_code, slice_to_null, to_designator,
    until_nul, vpd83_of, DesignationDescriptor, DesignationDescriptorView, Designator,
    DesignatorView, InquiryVpd83, InquiryVpd83View, DESCRIPTOR_HEADER_LEN, PAGE_HEADER_LEN,
    VPD83_BUFFER_LEN,
};
