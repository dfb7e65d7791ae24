//! The records that a decoded buffer is made of, the errors that end a
//! decoding, and the mathematical value of each.

use crate::cursor::unread;
use crate::flags::EIRFlags;
use crate::flags::FlagSet;
use bytes::Bytes;
use vstd::prelude::*;

verus! {

/// A device name and whether it is the complete name or a shortened one.
#[derive(Debug)]
pub struct EIRName {
    name: String,
    complete: bool,
}

impl EIRName {
    /// The text of the name.
    pub closed spec fn text(&self) -> Seq<char> {
        self.name@
    }

    /// Whether the name is complete.
    pub closed spec fn is_complete(&self) -> bool {
        self.complete
    }

    /// A shortened name.
    pub fn short_name(name: String) -> (r: Self)
        ensures
            r.text() == name@,
            !r.is_complete(),
    {
        EIRName { name: name, complete: false }
    }

    /// A complete name.
    pub fn complete_name(name: String) -> (r: Self)
        ensures
            r.text() == name@,
            r.is_complete(),
    {
        EIRName { name: name, complete: true }
    }

    /// The text of the name.
    pub fn name(&self) -> (text: &str)
        ensures
            text@ == self.text(),
    {
        self.name.as_str()
    }

    /// Whether the name is complete.
    pub fn complete(&self) -> (complete: bool)
        ensures
            complete == self.is_complete(),
    {
        self.complete
    }
}

/// Vendor-specific data: the company identifier and the octets that follow it.
#[derive(Debug)]
pub struct ManufacturerSpecificData {
    company_identifier_code: u16,
    data: Bytes,
}

/// The mathematical value of a `ManufacturerSpecificData`.
pub struct VendorData {
    pub company_identifier_code: u16,
    pub data: Seq<u8>,
}

impl View for ManufacturerSpecificData {
    type V = VendorData;

    closed spec fn view(&self) -> VendorData {
        VendorData { company_identifier_code: self.company_identifier_code, data: unread(self.data) }
    }
}

/// One decoded record.
///
/// `Uuid16` is the list of 16-bit service identifiers. The variants `Uuid32`,
/// `Uuid128`, `TxPowerLevel`, `Uri` and `ManufacturerSpecificData` are reserved:
/// the decoder recognizes their blocks and produces no record for them.
#[derive(Debug)]
pub enum EIR {
    Flags(FlagSet),
    Uuid16(Vec<u16>),
    Uuid32(Vec<u32>),
    Uuid128(Vec<u128>),
    Name(String, bool),
    TxPowerLevel(Vec<i8>),
    Uri(Vec<String>),
    ManufacturerSpecificData(Vec<ManufacturerSpecificData>),
}

/// The mathematical value of an `EIR`.
pub enum Record {
    Flags(Set<EIRFlags>),
    Uuid16(Seq<u16>),
    Uuid32(Seq<u32>),
    Uuid128(Seq<u128>),
    Name(Seq<char>, bool),
    TxPowerLevel(Seq<i8>),
    Uri(Seq<Seq<char>>),
    ManufacturerSpecificData(Seq<VendorData>),
}

impl View for EIR {
    type V = Record;

    open spec fn view(&self) -> Record {
        match self {
            EIR::Flags(set) => Record::Flags(set@),
            EIR::Uuid16(ids) => Record::Uuid16(ids@),
            EIR::Uuid32(ids) => Record::Uuid32(ids@),
            EIR::Uuid128(ids) => Record::Uuid128(ids@),
            EIR::Name(text, complete) => Record::Name(text@, *complete),
            EIR::TxPowerLevel(levels) => Record::TxPowerLevel(levels@),
            EIR::Uri(uris) => Record::Uri(Seq::new(uris@.len(), |i: int| uris@[i]@)),
            EIR::ManufacturerSpecificData(items) => Record::ManufacturerSpecificData(
                Seq::new(items@.len(), |i: int| items@[i]@),
            ),
        }
    }
}

/// The values of the records of `items`, in order.
pub open spec fn records_of(items: Seq<EIR>) -> Seq<Record> {
    Seq::new(items.len(), |i: int| items[i]@)
}

/// Why a buffer could not be decoded.
#[derive(Debug, Copy, Clone, Eq, PartialEq, Structural)]
pub enum EIRError {
    /// More than one flag block found.
    RepeatedFlag,
    /// More than one name block found.
    RepeatedName,
    /// A block whose data must be a whole number of units has `len` octets.
    UnexpectedDataLength { len: usize },
    /// Text that must be valid UTF-8 is not. No block is decoded that strictly
    /// yet.
    InvalidURI,
}

} // verus!
