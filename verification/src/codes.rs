//! The enumerated fields of INQUIRY responses and their decoders.
//!
//! Each decoder is a total function from the raw code, already shifted and
//! masked down to its field, to a closed set of variants. Codes that the
//! standard reserves decode to an explicit `Reserved` variant.

use vstd::prelude::*;

verus! {

/// How the addressed logical unit relates to the peripheral device
/// (three-bit field).
#[derive(Debug, Clone, Copy, PartialEq, Eq, Structural)]
pub enum PeripheralQualifier {
    Connected,
    NotConnected,
    Reserved,
    NotCapable,
    VS,
}

/// The kind of peripheral device (five-bit field).
#[derive(Debug, Clone, Copy, PartialEq, Eq, Structural)]
pub enum PeripheralDeviceType {
    DirectAccess,
    SequentialAccess,
    Printer,
    Processor,
    WriteOnce,
    CdDvd,
    Obsolete,
    OpticalMemory,
    MediaChanger,
    StorageArrayController,
    EnclosureServices,
    SimplifiedDirectAccess,
    OpticalCardReader,
    ObjectBasedStorage,
    AutomationDriveInterface,
    Reserved,
}

/// The transport protocol a designation descriptor belongs to (four-bit
/// field, read only where [`ProtocolIdentifier::applies`] holds).
#[derive(Debug, Clone, Copy, PartialEq, Eq, Structural)]
pub enum ProtocolIdentifier {
    Fcp,
    Spi,
    Ssa,
    Sbp,
    Srp,
    IScsi,
    Spl,
    Adt,
    Acs,
    Uas,
    Sop,
    Reserved,
    Unspecified,
}

/// What a designation descriptor identifies (two-bit field).
#[derive(Debug, Clone, Copy, PartialEq, Eq, Structural)]
pub enum Association {
    AddressedLogicalUnit,
    TargetPort,
    ScsiTargetDevice,
    Reserved,
}

/// The format of a designator (four-bit field).
#[derive(Debug, Clone, Copy, PartialEq, Eq, Structural)]
pub enum DesignatorType {
    VS,
    T10VendorId,
    Eui64,
    Naa,
    RelativeTargetPortIdentifier,
    TargetPortGroup,
    LogicalUnitGroup,
    Md5LogicalUnitIdentifier,
    ScsiNameString,
    ProtocolSpecificPortIdentifier,
    Reserved,
}

impl PeripheralQualifier {
    /// The qualifier that a code stands for. Codes 4 to 7 are vendor
    /// specific; a code that does not fit in three bits is `Reserved`.
    pub open spec fn from_code(code: u8) -> PeripheralQualifier {
        if code == 0 {
            PeripheralQualifier::Connected
        } else if code == 1 {
            PeripheralQualifier::NotConnected
        } else if code == 3 {
            PeripheralQualifier::NotCapable
        } else if 4 <= code <= 7 {
            PeripheralQualifier::VS
        } else {
            PeripheralQualifier::Reserved
        }
    }
}

impl Association {
    /// The association that a code stands for.
    pub open spec fn from_code(code: u8) -> Association {
        if code == 0 {
            Association::AddressedLogicalUnit
        } else if code == 1 {
            Association::TargetPort
        } else if code == 2 {
            Association::ScsiTargetDevice
        } else {
            Association::Reserved
        }
    }
}

impl DesignatorType {
    /// The designator type that a code stands for.
    pub open spec fn from_code(code: u8) -> DesignatorType {
        if code == 0 {
            DesignatorType::VS
        } else if code == 1 {
            DesignatorType::T10VendorId
        } else if code == 2 {
            DesignatorType::Eui64
        } else if code == 3 {
            DesignatorType::Naa
        } else if code == 4 {
            DesignatorType::RelativeTargetPortIdentifier
        } else if code == 5 {
            DesignatorType::TargetPortGroup
        } else if code == 6 {
            DesignatorType::LogicalUnitGroup
        } else if code == 7 {
            DesignatorType::Md5LogicalUnitIdentifier
        } else if code == 8 {
            DesignatorType::ScsiNameString
        } else if code == 9 {
            DesignatorType::ProtocolSpecificPortIdentifier
        } else {
            DesignatorType::Reserved
        }
    }
}

impl ProtocolIdentifier {
    /// Whether a descriptor's protocol identifier field is to be read at all:
    /// its PIV bit is set and it describes a target port or a target device.
    pub open spec fn applies(assoc: Association, piv: u8) -> bool {
        piv != 0 && (assoc == Association::TargetPort || assoc == Association::ScsiTargetDevice)
    }

    /// The protocol that a code stands for in a descriptor whose protocol
    /// identifier field applies.
    pub open spec fn from_code(code: u8) -> ProtocolIdentifier {
        if code == 0x0 {
            ProtocolIdentifier::Fcp
        } else if code == 0x1 {
            ProtocolIdentifier::Spi
        } else if code == 0x2 {
            ProtocolIdentifier::Ssa
        } else if code == 0x3 {
            ProtocolIdentifier::Sbp
        } else if code == 0x4 {
            ProtocolIdentifier::Srp
        } else if code == 0x5 {
            ProtocolIdentifier::IScsi
        } else if code == 0x6 {
            ProtocolIdentifier::Spl
        } else if code == 0x7 {
            ProtocolIdentifier::Adt
        } else if code == 0x8 {
            ProtocolIdentifier::Acs
        } else if code == 0x9 {
            ProtocolIdentifier::Uas
        } else if code == 0xa {
            ProtocolIdentifier::Sop
        } else if code <= 0xe {
            ProtocolIdentifier::Reserved
        } else {
            ProtocolIdentifier::Unspecified
        }
    }

    /// The protocol of a descriptor: what the code stands for where the field
    /// applies, `Reserved` where it does not, whatever the code.
    pub open spec fn resolve(code: u8, assoc: Association, piv: u8) -> ProtocolIdentifier {
        if Self::applies(assoc, piv) {
            Self::from_code(code)
        } else {
            ProtocolIdentifier::Reserved
        }
    }
}

impl PeripheralDeviceType {
    /// The device type that a code stands for.
    pub open spec fn from_code(code: u8) -> PeripheralDeviceType {
        if code == 0x00 {
            PeripheralDeviceType::DirectAccess
        } else if code == 0x01 {
            PeripheralDeviceType::SequentialAccess
        } else if code == 0x02 {
            PeripheralDeviceType::Printer
        } else if code == 0x03 {
            PeripheralDeviceType::Processor
        } else if code == 0x04 {
            PeripheralDeviceType::WriteOnce
        } else if code == 0x05 {
            PeripheralDeviceType::CdDvd
        } else if code == 0x07 {
            PeripheralDeviceType::OpticalMemory
        } else if code == 0x08 {
            PeripheralDeviceType::MediaChanger
        } else if code == 0x06 || 0x09 <= code <= 0x0b {
            PeripheralDeviceType::Obsolete
        } else if code == 0x0c {
            PeripheralDeviceType::StorageArrayController
        } else if code == 0x0d {
            PeripheralDeviceType::EnclosureServices
        } else if code == 0x0e {
            PeripheralDeviceType::SimplifiedDirectAccess
        } else if code == 0x0f {
            PeripheralDeviceType::OpticalCardReader
        } else if code == 0x11 {
            PeripheralDeviceType::ObjectBasedStorage
        } else if code == 0x12 {
            PeripheralDeviceType::AutomationDriveInterface
        } else {
            PeripheralDeviceType::Reserved
        }
    }
}

/// Decodes a peripheral device type code.
pub fn to_device_type(i: u8) -> (r: PeripheralDeviceType)
    ensures
        r == PeripheralDeviceType::from_code(i),
{
    match i {
        0 => PeripheralDeviceType::DirectAccess,
        1 => PeripheralDeviceType::SequentialAccess,
        2 => PeripheralDeviceType::Printer,
        3 => PeripheralDeviceType::Processor,
        4 => PeripheralDeviceType::WriteOnce,
        5 => PeripheralDeviceType::CdDvd,
        6 => PeripheralDeviceType::Obsolete,
        7 => PeripheralDeviceType::OpticalMemory,
        8 => PeripheralDeviceType::MediaChanger,
        0x9..=0xb => PeripheralDeviceType::Obsolete,
        0xc => PeripheralDeviceType::StorageArrayController,
        0xd => PeripheralDeviceType::EnclosureServices,
        0xe => PeripheralDeviceType::SimplifiedDirectAccess,
        0xf => PeripheralDeviceType::OpticalCardReader,
        0x10 => PeripheralDeviceType::Reserved,
        0x11 => PeripheralDeviceType::ObjectBasedStorage,
        0x12 => PeripheralDeviceType::AutomationDriveInterface,
        _ => PeripheralDeviceType::Reserved,
    }
}

/// Decodes a peripheral qualifier code.
pub fn to_qualifier(i: u8) -> (r: PeripheralQualifier)
    ensures
        r == PeripheralQualifier::from_code(i),
{
    match i {
        0 => PeripheralQualifier::Connected,
        1 => PeripheralQualifier::NotConnected,
        2 => PeripheralQualifier::Reserved,
        3 => PeripheralQualifier::NotCapable,
        4..=7 => PeripheralQualifier::VS,
        _ => PeripheralQualifier::Reserved,
    }
}

/// Decodes an association code.
pub fn to_association(i: u8) -> (r: Association)
    ensures
        r == Association::from_code(i),
{
    match i {
        0 => Association::AddressedLogicalUnit,
        1 => Association::TargetPort,
        2 => Association::ScsiTargetDevice,
        _ => Association::Reserved,
    }
}

/// Decodes a designator type code.
pub fn to_designator_type(i: u8) -> (r: DesignatorType)
    ensures
        r == DesignatorType::from_code(i),
{
    match i {
        0 => DesignatorType::VS,
        1 => DesignatorType::T10VendorId,
        2 => DesignatorType::Eui64,
        3 => DesignatorType::Naa,
        4 => DesignatorType::RelativeTargetPortIdentifier,
        5 => DesignatorType::TargetPortGroup,
        6 => DesignatorType::LogicalUnitGroup,
        7 => DesignatorType::Md5LogicalUnitIdentifier,
        8 => DesignatorType::ScsiNameString,
        9 => DesignatorType::ProtocolSpecificPortIdentifier,
        _ => DesignatorType::Reserved,
    }
}

/// Resolves the protocol identifier of a designation descriptor from its raw
/// code, its association and its PIV bit.
pub fn to_protocol(ident: u8, assoc: Association, piv: u8) -> (r: ProtocolIdentifier)
    ensures
        r == ProtocolIdentifier::resolve(ident, assoc, piv),
        piv == 0 ==> r == ProtocolIdentifier::Reserved,
{
    if piv == 0 || !(assoc == Association::TargetPort || assoc == Association::ScsiTargetDevice) {
        return ProtocolIdentifier::Reserved;
    }
    match ident {
        0 => ProtocolIdentifier::Fcp,
        1 => ProtocolIdentifier::Spi,
        2 => ProtocolIdentifier::Ssa,
        3 => ProtocolIdentifier::Sbp,
        4 => ProtocolIdentifier::Srp,
        5 => ProtocolIdentifier::IScsi,
        6 => ProtocolIdentifier::Spl,
        7 => ProtocolIdentifier::Adt,
        8 => ProtocolIdentifier::Acs,
        9 => ProtocolIdentifier::Uas,
        0xa => ProtocolIdentifier::Sop,
        0xb..=0xe => ProtocolIdentifier::Reserved,
        _ => ProtocolIdentifier::Unspecified,
    }
}

/// Over the three-bit domain the qualifier table has no gap: codes 0, 1 and 3
/// have a variant each, 2 alone is reserved, and 4 to 7 are vendor specific.
pub proof fn lemma_qualifier_three_bit(code: u8)
    requires
        code <= 7,
    ensures
        PeripheralQualifier::from_code(code) == PeripheralQualifier::Connected <==> code == 0,
        PeripheralQualifier::from_code(code) == PeripheralQualifier::NotConnected <==> code == 1,
        PeripheralQualifier::from_code(code) == PeripheralQualifier::Reserved <==> code == 2,
        PeripheralQualifier::from_code(code) == PeripheralQualifier::NotCapable <==> code == 3,
        PeripheralQualifier::from_code(code) == PeripheralQualifier::VS <==> 4 <= code,
{
}

/// Over the five-bit domain the device type table has no gap: `Obsolete`
/// stands for 6 and 9 to 0xb, `Reserved` for 0x10 and for 0x13 to 0x1f, and
/// each other code has a variant that no other code has.
pub proof fn lemma_device_type_five_bit(code: u8, other: u8)
    requires
        code <= 0x1f,
        other <= 0x1f,
    ensures
        PeripheralDeviceType::from_code(code) == PeripheralDeviceType::Obsolete <==> code == 6 || 9
            <= code <= 0xb,
        PeripheralDeviceType::from_code(code) == PeripheralDeviceType::Reserved <==> code == 0x10
            || 0x13 <= code,
        PeripheralDeviceType::from_code(code) == PeripheralDeviceType::from_code(other) && code
            != other ==> PeripheralDeviceType::from_code(code) == PeripheralDeviceType::Obsolete
            || PeripheralDeviceType::from_code(code) == PeripheralDeviceType::Reserved,
{
}

/// With the PIV bit clear the protocol is `Reserved`, whatever the code and
/// the association; so it is for an association other than target port and
/// target device, whatever the code and the PIV bit.
pub proof fn lemma_protocol_needs_piv(code: u8, assoc: Association, piv: u8)
    ensures
        ProtocolIdentifier::resolve(code, assoc, 0) == ProtocolIdentifier::Reserved,
        assoc != Association::TargetPort && assoc != Association::ScsiTargetDevice
            ==> ProtocolIdentifier::resolve(code, assoc, piv) == ProtocolIdentifier::Reserved,
        ProtocolIdentifier::applies(assoc, piv) ==> ProtocolIdentifier::resolve(code, assoc, piv)
            == ProtocolIdentifier::from_code(code),
{
}

} // verus!
