//! The Unit Serial Number page (`0x80`): a four-byte header and the serial
//! number as text.

use crate::codes::{to_device_type, to_qualifier, PeripheralDeviceType, PeripheralQualifier};
use crate::error::{Sg3Error, Sg3Result};
use crate::wire::{be_u16, is_text, read_be_u16, text_field, text_of};
use vstd::prelude::*;
use vstd::slice::slice_subrange;

verus! {

/// The length of the buffer to offer for the Unit Serial Number page.
pub const VPD80_BUFFER_LEN: usize = 96;

/// The length of the page header: peripheral byte, page code and the
/// big-endian length of the serial number.
pub const VPD80_HEADER_LEN: usize = 4;

/// The response to an INQUIRY for the Unit Serial Number page.
///
/// A value holds at least the four bytes of the header: [`inquiry_vpd_80`]
/// makes no other. Whether the serial number that the header announces is
/// all there is checked when it is read.
pub struct InquiryVpd80 {
    buf: Vec<u8>,
}

impl View for InquiryVpd80 {
    type V = Seq<u8>;

    /// The bytes of the response.
    closed spec fn view(&self) -> Seq<u8> {
        self.buf@
    }
}

/// The length of the serial number that the header of a page announces.
pub open spec fn serial_number_len(page: Seq<u8>) -> int {
    be_u16(page[2], page[3]) as int
}

/// The serial number of a page: the announced number of bytes behind the
/// header, as text. It is `Truncated` where the page ends before they do,
/// and `TextDecode` where they are not valid UTF-8.
pub open spec fn serial_number_of(page: Seq<u8>) -> Result<Seq<char>, Sg3Error> {
    if 4 + serial_number_len(page) > page.len() {
        Err(Sg3Error::Truncated)
    } else {
        text_of(page.subrange(4, 4 + serial_number_len(page)))
    }
}

/// Takes the response to an INQUIRY for the Unit Serial Number page. Fails
/// with `Truncated` where the response is shorter than the page header.
pub fn inquiry_vpd_80(response: Vec<u8>) -> (r: Sg3Result<InquiryVpd80>)
    ensures
        match r {
            Ok(page) => response@.len() >= 4 && page@ == response@,
            Err(e) => response@.len() < 4 && e == Sg3Error::Truncated,
        },
{
    if response.len() < VPD80_HEADER_LEN {
        return Err(Sg3Error::Truncated);
    }
    Ok(InquiryVpd80 { buf: response })
}

impl InquiryVpd80 {
    #[verifier::type_invariant]
    spec fn well_formed(self) -> bool {
        self.buf@.len() >= 4
    }

    /// The raw response.
    pub fn as_buf(&self) -> (r: &[u8])
        ensures
            r@ == self@,
            r@.len() >= 4,
    {
        proof {
            use_type_invariant(self);
        }
        self.buf.as_slice()
    }

    /// The peripheral qualifier: the high three bits of byte 0.
    pub fn peripheral_qualifier(&self) -> (r: PeripheralQualifier)
        ensures
            r == PeripheralQualifier::from_code((self@[0] as int / 32) as u8),
    {
        proof {
            use_type_invariant(self);
        }
        let b: u8 = self.buf[0];
        assert(b >> 5 == b / 32) by (bit_vector);
        to_qualifier(b >> 5)
    }

    /// The peripheral device type: the low five bits of byte 0.
    pub fn peripheral_device_type(&self) -> (r: PeripheralDeviceType)
        ensures
            r == PeripheralDeviceType::from_code((self@[0] as int % 32) as u8),
    {
        proof {
            use_type_invariant(self);
        }
        let b: u8 = self.buf[0];
        assert(b & 0x1f == b % 32) by (bit_vector);
        to_device_type(b & 0x1f)
    }

    /// The unit serial number: the bytes behind the header, as many as the
    /// header announces, as text.
    pub fn serial_number(&self) -> (r: Sg3Result<&str>)
        ensures
            is_text(r, serial_number_of(self@)),
            4 + serial_number_len(self@) > self@.len() ==> r == Err::<&str, Sg3Error>(
                Sg3Error::Truncated,
            ),
    {
        proof {
            use_type_invariant(self);
        }
        let buf = self.buf.as_slice();
        let length: usize = read_be_u16(slice_subrange(buf, 2, 4)) as usize;
        if buf.len() - VPD80_HEADER_LEN < length {
            return Err(Sg3Error::Truncated);
        }
        text_field(slice_subrange(buf, VPD80_HEADER_LEN, VPD80_HEADER_LEN + length))
    }
}

} // verus!
