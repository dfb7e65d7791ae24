//! The block format, and what a buffer of blocks decodes to.
//!
//! A buffer is a run of blocks. Each block is a length octet, a type octet and
//! the data; the length counts the type octet and the data. A length of zero
//! ends the buffer, whatever follows it.

use crate::cursor::le_u16;
use crate::flags::flags_of;
use crate::record::EIRError;
use crate::record::Record;
use crate::text::lossy_text;
use vstd::prelude::*;

verus! {

/// The type codes that the format defines.
#[derive(Debug, Copy, Clone, Eq, PartialEq, Structural)]
#[non_exhaustive]
pub enum EIRDataTypes {
    Flags,
    UUID16Incomplete,
    UUID16Complete,
    UUID32Incomplete,
    UUID32Complete,
    UUID128Incomplete,
    UUID128Complete,
    NameShort,
    NameComplete,
    TxPowerLevel,
    URI,
    ManufacturerSpecificData,
}

impl EIRDataTypes {
    /// The type octet that stands for this data type.
    pub open spec fn code(self) -> u8 {
        match self {
            EIRDataTypes::Flags => 0x01,
            EIRDataTypes::UUID16Incomplete => 0x02,
            EIRDataTypes::UUID16Complete => 0x03,
            EIRDataTypes::UUID32Incomplete => 0x04,
            EIRDataTypes::UUID32Complete => 0x05,
            EIRDataTypes::UUID128Incomplete => 0x06,
            EIRDataTypes::UUID128Complete => 0x07,
            EIRDataTypes::NameShort => 0x08,
            EIRDataTypes::NameComplete => 0x09,
            EIRDataTypes::TxPowerLevel => 0x0A,
            EIRDataTypes::URI => 0x24,
            EIRDataTypes::ManufacturerSpecificData => 0xFF,
        }
    }

    /// The data type that the type octet `code` stands for, if it stands for
    /// one.
    pub fn from_u8(code: u8) -> (data_type: Option<EIRDataTypes>)
        ensures
            match data_type {
                Some(t) => t.code() == code,
                None => forall|t: EIRDataTypes| t.code() != code,
            },
    {
        match code {
            0x01 => Some(EIRDataTypes::Flags),
            0x02 => Some(EIRDataTypes::UUID16Incomplete),
            0x03 => Some(EIRDataTypes::UUID16Complete),
            0x04 => Some(EIRDataTypes::UUID32Incomplete),
            0x05 => Some(EIRDataTypes::UUID32Complete),
            0x06 => Some(EIRDataTypes::UUID128Incomplete),
            0x07 => Some(EIRDataTypes::UUID128Complete),
            0x08 => Some(EIRDataTypes::NameShort),
            0x09 => Some(EIRDataTypes::NameComplete),
            0x0A => Some(EIRDataTypes::TxPowerLevel),
            0x24 => Some(EIRDataTypes::URI),
            0xFF => Some(EIRDataTypes::ManufacturerSpecificData),
            _ => None,
        }
    }
}

/// What tells the variants of `Record` apart.
pub enum RecordKind {
    Flags,
    Uuid16,
    Uuid32,
    Uuid128,
    Name,
    TxPowerLevel,
    Uri,
    ManufacturerSpecificData,
}

/// The kind of `record`.
pub open spec fn kind_of(record: Record) -> RecordKind {
    match record {
        Record::Flags(_) => RecordKind::Flags,
        Record::Uuid16(_) => RecordKind::Uuid16,
        Record::Uuid32(_) => RecordKind::Uuid32,
        Record::Uuid128(_) => RecordKind::Uuid128,
        Record::Name(_, _) => RecordKind::Name,
        Record::TxPowerLevel(_) => RecordKind::TxPowerLevel,
        Record::Uri(_) => RecordKind::Uri,
        Record::ManufacturerSpecificData(_) => RecordKind::ManufacturerSpecificData,
    }
}

/// The index of the first record of `kind` in `records`, if there is one.
pub open spec fn position(records: Seq<Record>, kind: RecordKind) -> Option<int>
    decreases records.len(),
{
    if records.len() == 0 {
        None
    } else {
        match position(records.drop_last(), kind) {
            Some(i) => Some(i),
            None => if kind_of(records.last()) == kind {
                Some(records.len() - 1)
            } else {
                None
            },
        }
    }
}

/// Where the first block of `bytes` ends: after as many octets as its length
/// octet counts, or at the end of `bytes` if that comes first.
pub open spec fn block_end(bytes: Seq<u8>) -> int
    recommends
        bytes.len() >= 2,
        bytes[0] != 0,
{
    if 1 + bytes[0] <= bytes.len() {
        1 + bytes[0]
    } else {
        bytes.len() as int
    }
}

/// The data of the first block of `bytes`: what lies between its type octet
/// and its end.
pub open spec fn block_data(bytes: Seq<u8>) -> Seq<u8>
    recommends
        bytes.len() >= 2,
        bytes[0] != 0,
{
    bytes.subrange(2, block_end(bytes))
}

/// The 16-bit service identifiers that `data` holds, two octets each, low
/// octet first.
pub open spec fn service_ids(data: Seq<u8>) -> Seq<u16>
    recommends
        data.len() % 2 == 0,
{
    Seq::new(data.len() / 2, |i: int| le_u16(data[2 * i], data[2 * i + 1]))
}

/// `records` with `ids` added to its list of 16-bit service identifiers. The
/// list keeps the place it has; where there is none yet, it is put last.
pub open spec fn add_service_ids(records: Seq<Record>, ids: Seq<u16>) -> Seq<Record> {
    match position(records, RecordKind::Uuid16) {
        Some(i) => records.update(i, Record::Uuid16(records[i]->Uuid16_0 + ids)),
        None => records.push(Record::Uuid16(ids)),
    }
}

/// The kind of record that a block of type `code` gives or adds to, if it
/// gives one.
pub open spec fn block_kind(code: u8) -> Option<RecordKind> {
    if code == 0x01 {
        Some(RecordKind::Flags)
    } else if code == 0x02 || code == 0x03 {
        Some(RecordKind::Uuid16)
    } else if code == 0x08 || code == 0x09 {
        Some(RecordKind::Name)
    } else {
        None
    }
}

/// The three ways in which decoding ends.
pub enum Decoding {
    /// Every block was accepted; these are the records.
    Records(Seq<Record>),
    /// A block was rejected with this error.
    Error(EIRError),
    /// A block needs an octet that lies beyond the end of the buffer: the type
    /// octet after a length octet, or the one octet of a first Flags block.
    ReadsPastEnd,
}

/// What becomes of `records` when a block of type `code` with `data` follows.
pub open spec fn add_block(records: Seq<Record>, code: u8, data: Seq<u8>) -> Decoding {
    if code == 0x01 {
        if position(records, RecordKind::Flags) is Some {
            Decoding::Error(EIRError::RepeatedFlag)
        } else if data.len() == 0 {
            Decoding::ReadsPastEnd
        } else {
            Decoding::Records(records.push(Record::Flags(flags_of(data[0]))))
        }
    } else if code == 0x02 || code == 0x03 {
        if data.len() % 2 != 0 {
            Decoding::Error(EIRError::UnexpectedDataLength { len: data.len() as usize })
        } else {
            Decoding::Records(add_service_ids(records, service_ids(data)))
        }
    } else if code == 0x08 || code == 0x09 {
        if position(records, RecordKind::Name) is Some {
            Decoding::Error(EIRError::RepeatedName)
        } else {
            Decoding::Records(records.push(Record::Name(lossy_text(data), code == 0x09)))
        }
    } else {
        Decoding::Records(records)
    }
}

/// What `bytes` decodes to when `records` have been decoded before it.
pub open spec fn decode_from(bytes: Seq<u8>, records: Seq<Record>) -> Decoding
    decreases bytes.len(),
{
    if bytes.len() == 0 || bytes[0] == 0 {
        Decoding::Records(records)
    } else if bytes.len() < 2 {
        Decoding::ReadsPastEnd
    } else {
        match add_block(records, bytes[1], block_data(bytes)) {
            Decoding::Records(next) => decode_from(bytes.skip(block_end(bytes)), next),
            Decoding::Error(e) => Decoding::Error(e),
            Decoding::ReadsPastEnd => Decoding::ReadsPastEnd,
        }
    }
}

/// What a whole buffer decodes to.
pub open spec fn decode(bytes: Seq<u8>) -> Decoding {
    decode_from(bytes, Seq::empty())
}

/// A position that `position` gives is an index of `records`, and the record
/// there is of the kind asked for.
pub proof fn lemma_position_in_range(records: Seq<Record>, kind: RecordKind)
    ensures
        match position(records, kind) {
            Some(i) => 0 <= i < records.len() && kind_of(records[i]) == kind,
            None => forall|j: int| 0 <= j < records.len() ==> kind_of(#[trigger] records[j]) != kind,
        },
    decreases records.len(),
{
    if records.len() > 0 {
        lemma_position_in_range(records.drop_last(), kind);
        if position(records.drop_last(), kind) is None {
            assert forall|j: int| 0 <= j < records.len() - 1 implies kind_of(
                #[trigger] records[j],
            ) != kind by {
                assert(records.drop_last()[j] == records[j]);
            }
        }
    }
}

/// A record put last is found only where no earlier record is of its kind.
pub proof fn lemma_position_push(records: Seq<Record>, record: Record, kind: RecordKind)
    ensures
        position(records.push(record), kind) == match position(records, kind) {
            Some(i) => Some(i),
            None => if kind_of(record) == kind {
                Some(records.len() as int)
            } else {
                None
            },
        },
{
    assert(records.push(record).drop_last() =~= records);
}

/// A record replaced by one of its own kind leaves every position as it was.
pub proof fn lemma_position_update(records: Seq<Record>, at: int, record: Record, kind: RecordKind)
    requires
        0 <= at < records.len(),
        kind_of(record) == kind_of(records[at]),
    ensures
        position(records.update(at, record), kind) == position(records, kind),
    decreases records.len(),
{
    let updated = records.update(at, record);
    if at == records.len() - 1 {
        assert(updated.drop_last() =~= records.drop_last());
    } else {
        lemma_position_update(records.drop_last(), at, record, kind);
        assert(updated.drop_last() =~= records.drop_last().update(at, record));
    }
}

/// An accepted block adds at most one record, of the kind that its type code
/// stands for; every record that was found before is found at the same place
/// after it.
pub proof fn lemma_add_block_positions(
    records: Seq<Record>,
    code: u8,
    data: Seq<u8>,
    kind: RecordKind,
)
    requires
        add_block(records, code, data) is Records,
    ensures
        position(add_block(records, code, data)->Records_0, kind) == match position(records, kind) {
            Some(i) => Some(i),
            None => if block_kind(code) == Some(kind) {
                Some(records.len() as int)
            } else {
                None
            },
        },
{
    let next = add_block(records, code, data)->Records_0;
    if code == 0x01 {
        lemma_position_push(records, Record::Flags(flags_of(data[0])), kind);
    } else if code == 0x02 || code == 0x03 {
        lemma_position_in_range(records, RecordKind::Uuid16);
        match position(records, RecordKind::Uuid16) {
            Some(i) => {
                lemma_position_update(records, i, next[i], kind);
            },
            None => {
                lemma_position_push(records, Record::Uuid16(service_ids(data)), kind);
            },
        }
    } else if code == 0x08 || code == 0x09 {
        lemma_position_push(records, Record::Name(lossy_text(data), code == 0x09), kind);
    }
}

} // verus!
