//! The Device Identification page (`0x83`): a four-byte header and a
//! sequence of designation descriptors, each with its own length.

use crate::codes::{
    to_association, to_designator_type, to_device_type, to_protocol, to_qualifier, Association,
    DesignatorType, PeripheralDeviceType, PeripheralQualifier, ProtocolIdentifier,
};
use crate::error::{Sg3Error, Sg3Result};
use crate::wire::{be_u16, lossy_string, read_be_u16, utf8_lossy};
use vstd::prelude::*;
use vstd::slice::{slice_subrange, slice_to_vec};
use vstd::utf8::*;

verus! {

/// The identifier that a designation descriptor carries.
#[derive(Debug)]
pub enum Designator {
    /// An identifier kept as the bytes the device sent.
    Binary(Vec<u8>),
    /// An identifier sent as text, cut at its first NUL.
    String(String),
}

/// What a [`Designator`] holds, as sequences.
pub enum DesignatorView {
    Binary(Seq<u8>),
    String(Seq<char>),
}

impl View for Designator {
    type V = DesignatorView;

    open spec fn view(&self) -> DesignatorView {
        match self {
            Designator::Binary(bytes) => DesignatorView::Binary(bytes@),
            Designator::String(text) => DesignatorView::String(text@),
        }
    }
}

/// Whether `n` is where the text in `bytes` ends: no byte before it is NUL,
/// and the byte at it, if there is one, is.
pub open spec fn is_nul_cut(bytes: Seq<u8>, n: int) -> bool {
    &&& 0 <= n <= bytes.len()
    &&& forall|i: int| 0 <= i < n ==> bytes[i] != 0
    &&& n < bytes.len() ==> bytes[n] == 0
}

/// The bytes before the first NUL, or all of them where none is NUL.
pub open spec fn until_nul(bytes: Seq<u8>) -> Seq<u8> {
    bytes.subrange(0, choose|n: int| is_nul_cut(bytes, n))
}

/// The text ends in one place only.
pub proof fn lemma_nul_cut_unique(bytes: Seq<u8>, n: int, m: int)
    requires
        is_nul_cut(bytes, n),
        is_nul_cut(bytes, m),
    ensures
        n == m,
        until_nul(bytes) == bytes.subrange(0, n),
{
    if n < m {
        assert(bytes[n] == 0);
    }
    if m < n {
        assert(bytes[m] == 0);
    }
    let c = choose|c: int| is_nul_cut(bytes, c);
    if c < n {
        assert(bytes[c] == 0);
    }
    if n < c {
        assert(bytes[n] == 0);
    }
}

/// Whether a code set value announces a designator sent as text.
pub open spec fn is_text_code(code: u8) -> bool {
    code == 2 || code == 3
}

/// The text that a text designator reads: what the bytes before the first
/// NUL encode where they are valid UTF-8, and what a lossy decoder makes of
/// them where they are not.
pub open spec fn designator_text(data: Seq<u8>) -> Seq<char> {
    if valid_utf8(until_nul(data)) {
        decode_utf8(until_nul(data))
    } else {
        utf8_lossy(until_nul(data))
    }
}

/// The designator that a payload stands for under a code set value: its
/// text for the text codes, the payload itself for every other code.
pub open spec fn designator_of(code: u8, data: Seq<u8>) -> DesignatorView {
    if is_text_code(code) {
        DesignatorView::String(designator_text(data))
    } else {
        DesignatorView::Binary(data)
    }
}

/// Returns the bytes before the first NUL, or the whole slice where it holds
/// none.
pub fn slice_to_null(slc: &[u8]) -> (r: &[u8])
    ensures
        is_nul_cut(slc@, r@.len() as int),
        r@ == slc@.subrange(0, r@.len() as int),
        r@ == until_nul(slc@),
{
    let mut i: usize = 0;
    while i < slc.len()
        invariant
            i <= slc@.len(),
            forall|j: int| 0 <= j < i ==> slc@[j] != 0,
        decreases slc@.len() - i,
    {
        if slc[i] == 0 {
            let r = slice_subrange(slc, 0, i);
            proof {
                lemma_nul_cut_unique(slc@, i as int, i as int);
            }
            return r;
        }
        i += 1;
    }
    proof {
        lemma_nul_cut_unique(slc@, slc@.len() as int, slc@.len() as int);
        assert(slc@.subrange(0, slc@.len() as int) =~= slc@);
    }
    slc
}

/// Builds the designator of a descriptor from its code set value and its
/// payload. Text is decoded leniently: an invalid sequence becomes U+FFFD.
pub fn to_designator(code: u8, data: &[u8]) -> (r: Designator)
    ensures
        r@ == designator_of(code, data@),
        !is_text_code(code) ==> r@ == DesignatorView::Binary(data@),
        is_text_code(code) && valid_utf8(until_nul(data@)) ==> r@ == DesignatorView::String(
            decode_utf8(until_nul(data@)),
        ),
        is_text_code(code) && !valid_utf8(until_nul(data@)) ==> r@ == DesignatorView::String(
            utf8_lossy(until_nul(data@)),
        ),
{
    if code == 2 || code == 3 {
        Designator::String(lossy_string(slice_to_null(data)))
    } else {
        Designator::Binary(slice_to_vec(data))
    }
}

/// One designation descriptor of the page.
#[derive(Debug)]
pub struct DesignationDescriptor {
    pub protocol: ProtocolIdentifier,
    pub association: Association,
    pub designator_type: DesignatorType,
    pub designator: Designator,
}

/// What a [`DesignationDescriptor`] holds.
pub struct DesignationDescriptorView {
    pub protocol: ProtocolIdentifier,
    pub association: Association,
    pub designator_type: DesignatorType,
    pub designator: DesignatorView,
}

impl View for DesignationDescriptor {
    type V = DesignationDescriptorView;

    open spec fn view(&self) -> DesignationDescriptorView {
        DesignationDescriptorView {
            protocol: self.protocol,
            association: self.association,
            designator_type: self.designator_type,
            designator: self.designator@,
        }
    }
}

/// The views of a sequence of descriptors, in the same order.
pub open spec fn descriptor_views(ds: Seq<DesignationDescriptor>) -> Seq<
    DesignationDescriptorView,
> {
    Seq::new(ds.len(), |i: int| ds[i]@)
}

/// The decoded Device Identification page.
#[derive(Debug)]
pub struct InquiryVpd83 {
    pub qualifier: PeripheralQualifier,
    pub device_type: PeripheralDeviceType,
    pub descriptors: Vec<DesignationDescriptor>,
}

/// What an [`InquiryVpd83`] holds.
pub struct InquiryVpd83View {
    pub qualifier: PeripheralQualifier,
    pub device_type: PeripheralDeviceType,
    pub descriptors: Seq<DesignationDescriptorView>,
}

impl View for InquiryVpd83 {
    type V = InquiryVpd83View;

    open spec fn view(&self) -> InquiryVpd83View {
        InquiryVpd83View {
            qualifier: self.qualifier,
            device_type: self.device_type,
            descriptors: descriptor_views(self.descriptors@),
        }
    }
}

/// The length of the buffer to offer for the Device Identification page.
pub const VPD83_BUFFER_LEN: usize = 1024;

/// The length of a descriptor's header: code byte, flag byte, a reserved
/// byte and the length of the designator.
pub const DESCRIPTOR_HEADER_LEN: usize = 4;

/// The length of the page header: peripheral byte, page code and the
/// big-endian length of the descriptor region.
pub const PAGE_HEADER_LEN: usize = 4;

/// The number of bytes that the descriptor at the front of `input` takes,
/// header included, if `input` holds all of it.
pub open spec fn descriptor_len(input: Seq<u8>) -> Option<int> {
    if input.len() >= 4 && input.len() >= 4 + input[3] {
        Some(4 + input[3])
    } else {
        None
    }
}

/// The descriptor that `bytes` encode, where `bytes` are exactly its header
/// and its designator.
///
/// Byte 0 holds the protocol code (high four bits) and the code set (low four
/// bits); byte 1 holds the PIV bit (bit 7), the association (bits 5 and 4)
/// and the designator type (low four bits).
pub open spec fn descriptor_of(bytes: Seq<u8>) -> DesignationDescriptorView {
    let association = Association::from_code(((bytes[1] as int / 16) % 4) as u8);
    DesignationDescriptorView {
        protocol: ProtocolIdentifier::resolve(
            (bytes[0] as int / 16) as u8,
            association,
            (bytes[1] as int / 128) as u8,
        ),
        association,
        designator_type: DesignatorType::from_code((bytes[1] as int % 16) as u8),
        designator: designator_of(
            (bytes[0] as int % 16) as u8,
            bytes.subrange(4, bytes.len() as int),
        ),
    }
}

/// The descriptors that a region encodes, in the order of their appearance:
/// none for the empty region, and `None` where the region ends inside a
/// descriptor.
pub open spec fn descriptors_of(region: Seq<u8>) -> Option<Seq<DesignationDescriptorView>>
    decreases region.len(),
{
    if region.len() == 0 {
        Some(Seq::empty())
    } else {
        match descriptor_len(region) {
            None => None,
            Some(n) => match descriptors_of(region.subrange(n, region.len() as int)) {
                None => None,
                Some(rest) => Some(seq![descriptor_of(region.subrange(0, n))] + rest),
            },
        }
    }
}

/// What the page in `buf` decodes to, or the error that ends the decoding.
/// The checks are made in the order of the bytes.
pub open spec fn vpd83_of(buf: Seq<u8>) -> Result<InquiryVpd83View, Sg3Error> {
    if buf.len() < 2 {
        Err(Sg3Error::Truncated)
    } else if buf[1] != 0x83 {
        Err(Sg3Error::MalformedResponse)
    } else if buf.len() < 4 || buf.len() < 4 + be_u16(buf[2], buf[3]) {
        Err(Sg3Error::Truncated)
    } else {
        match descriptors_of(buf.subrange(4, 4 + be_u16(buf[2], buf[3]))) {
            None => Err(Sg3Error::Truncated),
            Some(descriptors) => Ok(
                InquiryVpd83View {
                    qualifier: PeripheralQualifier::from_code((buf[0] as int / 32) as u8),
                    device_type: PeripheralDeviceType::from_code((buf[0] as int % 32) as u8),
                    descriptors,
                },
            ),
        }
    }
}

/// Decodes the designation descriptor at the front of `input` and returns it
/// with the number of bytes it takes. Fails with `Truncated` where `input`
/// ends before the descriptor does.
pub fn des_desc(input: &[u8]) -> (r: Sg3Result<(DesignationDescriptor, usize)>)
    ensures
        match r {
            Ok((d, n)) => descriptor_len(input@) == Some(n as int) && d@ == descriptor_of(
                input@.subrange(0, n as int),
            ),
            Err(e) => descriptor_len(input@) is None && e == Sg3Error::Truncated,
        },
{
    if input.len() < DESCRIPTOR_HEADER_LEN {
        return Err(Sg3Error::Truncated);
    }
    let b0: u8 = input[0];
    let b1: u8 = input[1];
    let len: usize = input[3] as usize;
    if input.len() - DESCRIPTOR_HEADER_LEN < len {
        return Err(Sg3Error::Truncated);
    }
    let n: usize = DESCRIPTOR_HEADER_LEN + len;
    let payload = slice_subrange(input, DESCRIPTOR_HEADER_LEN, n);
    proof {
        assert(b0 >> 4 == b0 / 16) by (bit_vector);
        assert(b0 & 0x0f == b0 % 16) by (bit_vector);
        assert(b1 >> 7 == b1 / 128) by (bit_vector);
        assert((b1 >> 4) & 0x03 == (b1 / 16) % 4) by (bit_vector);
        assert(b1 & 0x0f == b1 % 16) by (bit_vector);
        let bytes = input@.subrange(0, n as int);
        assert(bytes.subrange(4, bytes.len() as int) =~= input@.subrange(4, n as int));
    }
    let association = to_association((b1 >> 4) & 0x03);
    let d = DesignationDescriptor {
        protocol: to_protocol(b0 >> 4, association, b1 >> 7),
        association,
        designator_type: to_designator_type(b1 & 0x0f),
        designator: to_designator(b0 & 0x0f, payload),
    };
    Ok((d, n))
}

/// Decodes a descriptor region: every descriptor in it, in the order of
/// appearance, none left out. Fails with `Truncated`, and returns no
/// descriptor at all, where the region ends inside a descriptor.
pub fn des_descs(region: &[u8]) -> (r: Sg3Result<Vec<DesignationDescriptor>>)
    ensures
        match r {
            Ok(ds) => descriptors_of(region@) == Some(descriptor_views(ds@)),
            Err(e) => descriptors_of(region@) is None && e == Sg3Error::Truncated,
        },
{
    let mut out: Vec<DesignationDescriptor> = Vec::new();
    let mut pos: usize = 0;
    proof {
        assert(region@.subrange(0, region@.len() as int) =~= region@);
        assert(descriptor_views(out@) =~= Seq::empty());
    }
    while pos < region.len()
        invariant
            pos <= region@.len(),
            descriptors_of(region@) == match descriptors_of(
                region@.subrange(pos as int, region@.len() as int),
            ) {
                None => None,
                Some(rest) => Some(descriptor_views(out@) + rest),
            },
        decreases region@.len() - pos,
    {
        let rest = slice_subrange(region, pos, region.len());
        let ghost before = descriptor_views(out@);
        match des_desc(rest) {
            Err(e) => {
                return Err(e);
            },
            Ok((d, n)) => {
                proof {
                    assert(rest@.subrange(n as int, rest@.len() as int) =~= region@.subrange(
                        pos + n,
                        region@.len() as int,
                    ));
                    let tail = descriptors_of(region@.subrange(pos + n, region@.len() as int));
                    if let Some(more) = tail {
                        assert(descriptor_views(out@.push(d)) + more =~= before + (seq![d@]
                            + more));
                    }
                }
                out.push(d);
                pos += n;
            },
        }
    }
    proof {
        assert(descriptor_views(out@) + Seq::empty() =~= descriptor_views(out@));
    }
    Ok(out)
}

/// Decodes the response to an INQUIRY for the Device Identification page.
///
/// The page code must be `0x83`, else the response is malformed. The header
/// announces the length of the descriptor region; a buffer that ends before
/// the header or the region does, or a region that ends inside a descriptor,
/// is truncated. Bytes behind the region are not read.
pub fn inquiry_vpd_83(response: &[u8]) -> (r: Sg3Result<InquiryVpd83>)
    ensures
        match r {
            Ok(page) => vpd83_of(response@) == Ok::<InquiryVpd83View, Sg3Error>(page@),
            Err(e) => vpd83_of(response@) == Err::<InquiryVpd83View, Sg3Error>(e),
        },
        response@.len() >= 4 && response@[1] == 0x83 && 4 + be_u16(response@[2], response@[3])
            > response@.len() ==> r matches Err(Sg3Error::Truncated),
{
    if response.len() < 2 {
        return Err(Sg3Error::Truncated);
    }
    if response[1] != 0x83 {
        return Err(Sg3Error::MalformedResponse);
    }
    if response.len() < PAGE_HEADER_LEN {
        return Err(Sg3Error::Truncated);
    }
    let b0: u8 = response[0];
    let declared: usize = read_be_u16(slice_subrange(response, 2, 4)) as usize;
    if response.len() - PAGE_HEADER_LEN < declared {
        return Err(Sg3Error::Truncated);
    }
    let region = slice_subrange(response, PAGE_HEADER_LEN, PAGE_HEADER_LEN + declared);
    proof {
        assert(b0 >> 5 == b0 / 32) by (bit_vector);
        assert(b0 & 0x1f == b0 % 32) by (bit_vector);
    }
    match des_descs(region) {
        Err(e) => Err(e),
        Ok(descriptors) => Ok(
            InquiryVpd83 {
                qualifier: to_qualifier(b0 >> 5),
                device_type: to_device_type(b0 & 0x1f),
                descriptors,
            },
        ),
    }
}

/// A page whose header announces a descriptor region that reaches past the
/// end of the buffer is truncated: no descriptor of it is decoded.
pub proof fn lemma_region_past_end(buf: Seq<u8>)
    requires
        buf.len() >= 4,
        buf[1] == 0x83,
        4 + be_u16(buf[2], buf[3]) > buf.len(),
    ensures
        vpd83_of(buf) == Err::<InquiryVpd83View, Sg3Error>(Sg3Error::Truncated),
{
}

/// A region that holds one descriptor and nothing else decodes to that
/// descriptor alone.
pub proof fn lemma_single_descriptor(bytes: Seq<u8>)
    requires
        descriptor_len(bytes) == Some(bytes.len() as int),
    ensures
        descriptors_of(bytes) == Some(seq![descriptor_of(bytes)]),
{
    let n = bytes.len() as int;
    assert(bytes.subrange(0, n) =~= bytes);
    assert(descriptors_of(bytes.subrange(n, n)) == Some(
        Seq::<DesignationDescriptorView>::empty(),
    ));
    assert(seq![descriptor_of(bytes)] + Seq::<DesignationDescriptorView>::empty() =~= seq![
        descriptor_of(bytes),
    ]);
}

/// Decoding keeps the order of appearance and leaves nothing out: where a
/// region `a` decodes, the region `a + b` decodes to the descriptors of `a`
/// followed by those of `b`, and fails exactly where `b` fails.
pub proof fn lemma_descriptors_concat(a: Seq<u8>, b: Seq<u8>)
    requires
        descriptors_of(a) is Some,
    ensures
        descriptors_of(a + b) == match descriptors_of(b) {
            None => None,
            Some(db) => Some(descriptors_of(a)->Some_0 + db),
        },
    decreases a.len(),
{
    if a.len() == 0 {
        assert(a + b =~= b);
        if let Some(db) = descriptors_of(b) {
            assert(Seq::<DesignationDescriptorView>::empty() + db =~= db);
        }
    } else {
        let n = descriptor_len(a)->Some_0;
        let ab = a + b;
        let tail = a.subrange(n, a.len() as int);
        assert(ab[3] == a[3]);
        assert(descriptor_len(ab) == Some(n));
        assert(ab.subrange(0, n) =~= a.subrange(0, n));
        assert(ab.subrange(n, ab.len() as int) =~= tail + b);
        lemma_descriptors_concat(tail, b);
        if let Some(db) = descriptors_of(b) {
            let first = seq![descriptor_of(a.subrange(0, n))];
            let dt = descriptors_of(tail)->Some_0;
            assert(first + (dt + db) =~= (first + dt) + db);
        }
    }
}

} // verus!
