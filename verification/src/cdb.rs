//! The command descriptor blocks of the INQUIRY command.

use crate::wire::{be_u16, be_u16_bytes, write_be_u16};
use vstd::prelude::*;

verus! {

/// The operation code of INQUIRY.
pub const INQUIRY_OPCODE: u8 = 0x12;

/// The page code of the Unit Serial Number page.
pub const VPD_UNIT_SERIAL_NUMBER: u8 = 0x80;

/// The page code of the Device Identification page.
pub const VPD_DEVICE_IDENTIFICATION: u8 = 0x83;

/// Builds the command block that asks for the standard inquiry data, with
/// room for `alloc_len` bytes of response.
pub fn standard_inquiry_cdb(alloc_len: u8) -> (cdb: [u8; 6])
    ensures
        cdb@ == seq![0x12u8, 0u8, 0u8, 0u8, alloc_len, 0u8],
{
    let cdb: [u8; 6] = [INQUIRY_OPCODE, 0, 0, 0, alloc_len, 0];
    assert(cdb@ =~= seq![0x12u8, 0u8, 0u8, 0u8, alloc_len, 0u8]);
    cdb
}

/// Builds the command block that asks for the vital product data page
/// `page`, with room for `alloc_len` bytes of response: the EVPD bit is set
/// and the allocation length is stored in big-endian order.
pub fn vpd_inquiry_cdb(page: u8, alloc_len: u16) -> (cdb: [u8; 6])
    ensures
        cdb@ == seq![0x12u8, 1u8, page] + be_u16_bytes(alloc_len) + seq![0u8],
        cdb@ == seq![
            0x12u8,
            1u8,
            page,
            (alloc_len as int / 256) as u8,
            (alloc_len as int % 256) as u8,
            0u8,
        ],
        be_u16(cdb@[3], cdb@[4]) == alloc_len,
{
    let len = write_be_u16(alloc_len);
    let cdb: [u8; 6] = [INQUIRY_OPCODE, 1, page, len[0], len[1], 0];
    assert(cdb@ =~= seq![0x12u8, 1u8, page] + be_u16_bytes(alloc_len) + seq![0u8]);
    cdb
}

} // verus!
