//! The standard inquiry data: a fixed buffer of 96 bytes read through
//! accessors, one for each field.

use crate::codes::{to_device_type, to_qualifier, PeripheralDeviceType, PeripheralQualifier};
use crate::error::{Sg3Error, Sg3Result};
use crate::wire::{is_text, text_field, text_of};
use vstd::prelude::*;
use vstd::slice::slice_subrange;

verus! {

/// The length of the standard inquiry data, which is also the allocation
/// length to ask for.
pub const STD_INQUIRY_LEN: usize = 96;

/// The only response data format that is decoded.
pub const RESPONSE_DATA_FORMAT: u8 = 2;

/// The standard inquiry data of a device.
///
/// A value holds exactly [`STD_INQUIRY_LEN`] bytes whose response data format
/// is [`RESPONSE_DATA_FORMAT`]: [`inquiry`] makes no other.
pub struct StdInquiry {
    buf: Vec<u8>,
}

impl View for StdInquiry {
    type V = Seq<u8>;

    /// The bytes of the response.
    closed spec fn view(&self) -> Seq<u8> {
        self.buf@
    }
}

/// What a response to a standard INQUIRY decodes to: its own bytes, if there
/// are 96 of them and they announce response data format 2.
pub open spec fn std_inquiry_of(response: Seq<u8>) -> Result<Seq<u8>, Sg3Error> {
    if response.len() < 96 {
        Err(Sg3Error::Truncated)
    } else if response.len() > 96 {
        Err(Sg3Error::MalformedResponse)
    } else if response[3] as int % 16 != 2 {
        Err(Sg3Error::UnsupportedFormat)
    } else {
        Ok(response)
    }
}

/// Decodes the response to a standard INQUIRY.
///
/// The response must fill the 96 bytes that were asked for, no more and no
/// less, and its response data format must be 2.
pub fn inquiry(response: Vec<u8>) -> (r: Sg3Result<StdInquiry>)
    ensures
        match r {
            Ok(inq) => std_inquiry_of(response@) == Ok::<Seq<u8>, Sg3Error>(inq@),
            Err(e) => std_inquiry_of(response@) == Err::<Seq<u8>, Sg3Error>(e),
        },
        response@.len() == 96 && response@[3] as int % 16 != 2 ==> r == Err::<
            StdInquiry,
            Sg3Error,
        >(Sg3Error::UnsupportedFormat),
{
    if response.len() < STD_INQUIRY_LEN {
        return Err(Sg3Error::Truncated);
    }
    if response.len() > STD_INQUIRY_LEN {
        return Err(Sg3Error::MalformedResponse);
    }
    let b3: u8 = response[3];
    proof {
        assert(b3 & 0x0f == b3 % 16) by (bit_vector);
    }
    if b3 & 0x0f != RESPONSE_DATA_FORMAT {
        return Err(Sg3Error::UnsupportedFormat);
    }
    Ok(StdInquiry { buf: response })
}

impl StdInquiry {
    #[verifier::type_invariant]
    spec fn well_formed(self) -> bool {
        self.buf@.len() == 96 && self.buf@[3] as int % 16 == 2
    }

    /// The raw response.
    pub fn as_buf(&self) -> (r: &[u8])
        ensures
            r@ == self@,
            r@.len() == 96,
            r@[3] as int % 16 == 2,
    {
        proof {
            use_type_invariant(self);
        }
        self.buf.as_slice()
    }

    /// The peripheral qualifier: the high three bits of byte 0.
    pub fn peripheral_qualifier(&self) -> (r: PeripheralQualifier)
        ensures
            r == PeripheralQualifier::from_code((self@[0] as int / 32) as u8),
            r != PeripheralQualifier::Reserved || self@[0] as int / 32 == 2,
    {
        proof {
            use_type_invariant(self);
        }
        let b: u8 = self.buf[0];
        assert(b >> 5 == b / 32) by (bit_vector);
        to_qualifier(b >> 5)
    }

    /// The peripheral device type: the low five bits of byte 0.
    pub fn peripheral_device_type(&self) -> (r: PeripheralDeviceType)
        ensures
            r == PeripheralDeviceType::from_code((self@[0] as int % 32) as u8),
    {
        proof {
            use_type_invariant(self);
        }
        let b: u8 = self.buf[0];
        assert(b & 0x1f == b % 32) by (bit_vector);
        to_device_type(b & 0x1f)
    }

    /// RMB, the removable medium bit: bit 7 of byte 1.
    pub fn rmb(&self) -> (r: u8)
        ensures
            r == self@[1] as int / 128,
    {
        proof {
            use_type_invariant(self);
        }
        let b: u8 = self.buf[1];
        assert((b & 0x80) >> 7 == b / 128) by (bit_vector);
        (b & 0x80) >> 7
    }

    /// LU_CONG, the logical unit conglomerate bit: bit 6 of byte 1.
    pub fn lu_cong(&self) -> (r: u8)
        ensures
            r == (self@[1] as int / 64) % 2,
    {
        proof {
            use_type_invariant(self);
        }
        let b: u8 = self.buf[1];
        assert((b & 0x40) >> 6 == (b / 64) % 2) by (bit_vector);
        (b & 0x40) >> 6
    }

    /// The version of the command set that the device claims: byte 2.
    pub fn version(&self) -> (r: u8)
        ensures
            r == self@[2],
    {
        proof {
            use_type_invariant(self);
        }
        self.buf[2]
    }

    /// NORM_ACA, the normal ACA bit: bit 5 of byte 3.
    pub fn norm_aca(&self) -> (r: u8)
        ensures
            r == (self@[3] as int / 32) % 2,
    {
        proof {
            use_type_invariant(self);
        }
        let b: u8 = self.buf[3];
        assert((b & 0x20) >> 5 == (b / 32) % 2) by (bit_vector);
        (b & 0x20) >> 5
    }

    /// HI_SUP, the hierarchical addressing support bit: bit 4 of byte 3.
    pub fn hi_sup(&self) -> (r: u8)
        ensures
            r == (self@[3] as int / 16) % 2,
    {
        proof {
            use_type_invariant(self);
        }
        let b: u8 = self.buf[3];
        assert((b & 0x10) >> 4 == (b / 16) % 2) by (bit_vector);
        (b & 0x10) >> 4
    }

    /// The response data format: the low four bits of byte 3. It is 2 in
    /// every value of this type.
    pub fn response_data_format(&self) -> (r: u8)
        ensures
            r == self@[3] as int % 16,
            r == 2,
    {
        proof {
            use_type_invariant(self);
        }
        let b: u8 = self.buf[3];
        assert(b & 0x0f == b % 16) by (bit_vector);
        b & 0x0f
    }

    /// SCCS, the embedded storage array controller bit: bit 7 of byte 5.
    pub fn sccs(&self) -> (r: u8)
        ensures
            r == self@[5] as int / 128,
    {
        proof {
            use_type_invariant(self);
        }
        let b: u8 = self.buf[5];
        assert((b & 0x80) >> 7 == b / 128) by (bit_vector);
        (b & 0x80) >> 7
    }

    /// ACC, the access controls coordinator bit: bit 6 of byte 5.
    pub fn acc(&self) -> (r: u8)
        ensures
            r == (self@[5] as int / 64) % 2,
    {
        proof {
            use_type_invariant(self);
        }
        let b: u8 = self.buf[5];
        assert((b & 0x40) >> 6 == (b / 64) % 2) by (bit_vector);
        (b & 0x40) >> 6
    }

    /// TPGS, the target port group support field: bits 5 and 4 of byte 5.
    pub fn tpgs(&self) -> (r: u8)
        ensures
            r == (self@[5] as int / 16) % 4,
    {
        proof {
            use_type_invariant(self);
        }
        let b: u8 = self.buf[5];
        assert((b & 0x30) >> 4 == (b / 16) % 4) by (bit_vector);
        (b & 0x30) >> 4
    }

    /// 3PC, the third-party copy bit: bit 3 of byte 5.
    pub fn third_party_copy(&self) -> (r: u8)
        ensures
            r == (self@[5] as int / 8) % 2,
    {
        proof {
            use_type_invariant(self);
        }
        let b: u8 = self.buf[5];
        assert((b & 0x08) >> 3 == (b / 8) % 2) by (bit_vector);
        (b & 0x08) >> 3
    }

    /// PROTECT, the protection information bit: bit 0 of byte 5.
    pub fn protect(&self) -> (r: u8)
        ensures
            r == self@[5] as int % 2,
    {
        proof {
            use_type_invariant(self);
        }
        let b: u8 = self.buf[5];
        assert(b & 0x01 == b % 2) by (bit_vector);
        b & 0x01
    }

    /// ENC_SERV, the enclosure services bit: bit 6 of byte 6.
    pub fn enc_serv(&self) -> (r: u8)
        ensures
            r == (self@[6] as int / 64) % 2,
    {
        proof {
            use_type_invariant(self);
        }
        let b: u8 = self.buf[6];
        assert((b & 0x40) >> 6 == (b / 64) % 2) by (bit_vector);
        (b & 0x40) >> 6
    }

    /// MULTI_P, the multiple port bit: bit 4 of byte 6.
    pub fn multi_p(&self) -> (r: u8)
        ensures
            r == (self@[6] as int / 16) % 2,
    {
        proof {
            use_type_invariant(self);
        }
        let b: u8 = self.buf[6];
        assert((b & 0x10) >> 4 == (b / 16) % 2) by (bit_vector);
        (b & 0x10) >> 4
    }

    /// ADDR16, the wide addressing bit: bit 0 of byte 6.
    pub fn addr16(&self) -> (r: u8)
        ensures
            r == self@[6] as int % 2,
    {
        proof {
            use_type_invariant(self);
        }
        let b: u8 = self.buf[6];
        assert(b & 0x01 == b % 2) by (bit_vector);
        b & 0x01
    }

    /// WBUS16, the wide bus bit: bit 5 of byte 7.
    pub fn wbus16(&self) -> (r: u8)
        ensures
            r == (self@[7] as int / 32) % 2,
    {
        proof {
            use_type_invariant(self);
        }
        let b: u8 = self.buf[7];
        assert((b & 0x20) >> 5 == (b / 32) % 2) by (bit_vector);
        (b & 0x20) >> 5
    }

    /// SYNC, the synchronous data transfer bit: bit 4 of byte 7.
    pub fn sync(&self) -> (r: u8)
        ensures
            r == (self@[7] as int / 16) % 2,
    {
        proof {
            use_type_invariant(self);
        }
        let b: u8 = self.buf[7];
        assert((b & 0x10) >> 4 == (b / 16) % 2) by (bit_vector);
        (b & 0x10) >> 4
    }

    /// CMDQUE, the command queuing bit: bit 1 of byte 7.
    pub fn cmd_que(&self) -> (r: u8)
        ensures
            r == (self@[7] as int / 2) % 2,
    {
        proof {
            use_type_invariant(self);
        }
        let b: u8 = self.buf[7];
        assert((b & 0x02) >> 1 == (b / 2) % 2) by (bit_vector);
        (b & 0x02) >> 1
    }

    /// The T10 vendor identification: bytes 8 to 15, as text.
    pub fn vendor(&self) -> (r: Sg3Result<&str>)
        ensures
            is_text(r, text_of(self@.subrange(8, 16))),
    {
        proof {
            use_type_invariant(self);
        }
        text_field(slice_subrange(self.buf.as_slice(), 8, 16))
    }

    /// The product identification: bytes 16 to 31, as text.
    pub fn product_id(&self) -> (r: Sg3Result<&str>)
        ensures
            is_text(r, text_of(self@.subrange(16, 32))),
    {
        proof {
            use_type_invariant(self);
        }
        text_field(slice_subrange(self.buf.as_slice(), 16, 32))
    }

    /// The product revision level: bytes 32 to 35, as text.
    pub fn product_revision(&self) -> (r: Sg3Result<&str>)
        ensures
            is_text(r, text_of(self@.subrange(32, 36))),
    {
        proof {
            use_type_invariant(self);
        }
        text_field(slice_subrange(self.buf.as_slice(), 32, 36))
    }
}

} // verus!
