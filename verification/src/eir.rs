//! The decoder: one pass over a cursor, block by block.

use crate::cursor::available;
use crate::cursor::cap;
use crate::cursor::data_advance;
use crate::cursor::data_bytes;
use crate::cursor::data_get_u16_le;
use crate::cursor::data_get_u8;
use crate::cursor::data_has_remaining;
use crate::cursor::data_remaining;
use crate::cursor::get_u8;
use crate::cursor::has_remaining;
use crate::cursor::inner_unread;
use crate::cursor::into_inner;
use crate::cursor::le_u16;
use crate::cursor::peek;
use crate::cursor::take;
use crate::cursor::unread;
use crate::cursor::window;
use crate::flags::flags_of;
pub use crate::flags::EIRFlags;
pub use crate::flags::FlagSet;
use crate::format::add_block;
use crate::format::add_service_ids;
use crate::format::block_data;
use crate::format::block_end;
use crate::format::decode;
use crate::format::decode_from;
use crate::format::lemma_add_block_positions;
use crate::format::lemma_position_in_range;
use crate::format::position;
use crate::format::service_ids;
use crate::format::Decoding;
use crate::format::EIRDataTypes;
use crate::format::RecordKind;
use crate::record::records_of;
use crate::record::Record;
pub use crate::record::EIRError;
pub use crate::record::EIRName;
pub use crate::record::ManufacturerSpecificData;
pub use crate::record::EIR;
use crate::text::text_from_utf8_lossy;
use bytes::buf::ext::Take;
use bytes::Bytes;
use vstd::prelude::*;

verus! {

/// What `res` says of a decoding: the records by their values, or the error.
pub open spec fn outcome(res: Result<Vec<EIR>, EIRError>) -> Decoding {
    match res {
        Ok(items) => Decoding::Records(records_of(items@)),
        Err(e) => Decoding::Error(e),
    }
}

/// Appends `ids` to the list of service identifiers that `items` holds at
/// `idx`.
fn extend_service_list(items: &mut Vec<EIR>, idx: usize, ids: Vec<u16>)
    requires
        idx < old(items)@.len(),
        old(items)@[idx as int] is Uuid16,
    ensures
        records_of(final(items)@) == records_of(old(items)@).update(
            idx as int,
            Record::Uuid16(records_of(old(items)@)[idx as int]->Uuid16_0 + ids@),
        ),
{
    let mut ids = ids;
    let ghost added = ids@;
    match &mut items[idx] {
        EIR::Uuid16(list) => {
            list.append(&mut ids);
        },
        _ => {},
    }
    assert(records_of(items@) =~= records_of(old(items)@).update(
        idx as int,
        Record::Uuid16(records_of(old(items)@)[idx as int]->Uuid16_0 + added),
    ));
}

/// Reads the 16-bit service identifiers that `data` gives access to, all of
/// them, which leaves nothing to read.
fn read_service_ids(data: &mut Take<Bytes>) -> (ids: Vec<u16>)
    requires
        available(*old(data)) % 2 == 0,
    ensures
        ids@ == service_ids(window(*old(data))),
        inner_unread(*final(data)) == inner_unread(*old(data)).skip(available(*old(data)) as int),
        cap(*final(data)) == cap(*old(data)) - available(*old(data)),
{
    let ghost all = window(*data);
    let ghost start = inner_unread(*data);
    let ghost limit = cap(*data);
    let mut ids: Vec<u16> = Vec::new();
    while data_has_remaining(data)
        invariant
            all.len() % 2 == 0,
            all == start.subrange(0, all.len() as int),
            all.len() <= start.len(),
            all.len() <= limit,
            2 * ids@.len() + available(*data) == all.len(),
            inner_unread(*data) == start.skip(2 * ids@.len() as int),
            cap(*data) == limit - 2 * ids@.len(),
            forall|i: int| 0 <= i < ids@.len() ==> ids@[i] == le_u16(all[2 * i], all[2 * i + 1]),
        decreases available(*data),
    {
        ids.push(data_get_u16_le(data));
    }
    ids
}

/// Parses Extended Inquiry Response (EIR) data.
///
/// The buffer is read block by block up to its end or to the first length
/// octet that is zero. The records come in the order in which their blocks
/// first appear; all blocks of 16-bit service identifiers fill one record. A
/// second Flags block, a second name block, or a block of 16-bit service
/// identifiers with an odd number of data octets ends the decoding with an
/// error. Blocks of any other type are passed over.
///
/// A buffer that ends right after a length octet, or whose first Flags block
/// has no data, cannot be read: `requires` leaves it out. `try_parse_eir`
/// takes every buffer.
pub fn parse_eir(buf: Bytes) -> (res: Result<Vec<EIR>, EIRError>)
    requires
        decode(unread(buf)) !is ReadsPastEnd,
    ensures
        outcome(res) == decode(unread(buf)),
{
    let ghost input = unread(buf);
    let mut cur = buf;
    let mut eir: Vec<EIR> = Vec::new();
    let mut has_flag = false;
    let mut has_name = false;
    let mut uuid16_idx: Option<usize> = None;
    assert(records_of(eir@) =~= Seq::<Record>::empty());

    while has_remaining(&cur)
        invariant_except_break
            decode_from(unread(cur), records_of(eir@)) == decode(input),
        invariant
            input == unread(buf),
            decode(input) !is ReadsPastEnd,
            has_flag == position(records_of(eir@), RecordKind::Flags) is Some,
            has_name == position(records_of(eir@), RecordKind::Name) is Some,
            match uuid16_idx {
                Some(i) => position(records_of(eir@), RecordKind::Uuid16) == Some(i as int),
                None => position(records_of(eir@), RecordKind::Uuid16) is None,
            },
        ensures
            decode(input) == Decoding::Records(records_of(eir@)),
        decreases unread(cur).len(),
    {
        let ghost bytes = unread(cur);
        let ghost before = records_of(eir@);
        let len = get_u8(&mut cur);
        if len == 0 {
            break ;
        }
        // data types are all 1 octet

        let data_type = get_u8(&mut cur);
        let mut data = take(cur, (len - 1) as usize);
        let ghost block = block_data(bytes);
        assert(window(data) =~= block);

        match EIRDataTypes::from_u8(data_type) {
            Some(EIRDataTypes::Flags) => {
                if has_flag {
                    return Err(EIRError::RepeatedFlag);
                }
                has_flag = true;
                let octet = data_get_u8(&mut data);
                eir.push(EIR::Flags(FlagSet::from_bits_truncate(octet)));
                assert(records_of(eir@) =~= before.push(Record::Flags(flags_of(octet))));
            },
            Some(EIRDataTypes::UUID16Incomplete) | Some(EIRDataTypes::UUID16Complete) => {
                let n = data_remaining(&data);
                if n % 2 != 0 {
                    return Err(EIRError::UnexpectedDataLength { len: n });
                }
                proof {
                    lemma_position_in_range(before, RecordKind::Uuid16);
                }
                if uuid16_idx.is_none() {
                    uuid16_idx = Some(eir.len());
                    eir.push(EIR::Uuid16(Vec::new()));
                }
                let idx = uuid16_idx.unwrap();
                let ids = read_service_ids(&mut data);
                extend_service_list(&mut eir, idx, ids);
                assert(records_of(eir@) =~= add_service_ids(before, service_ids(block)));
            },
            Some(EIRDataTypes::UUID32Incomplete) | Some(EIRDataTypes::UUID32Complete) => {},
            Some(EIRDataTypes::UUID128Incomplete) | Some(EIRDataTypes::UUID128Complete) => {},
            Some(EIRDataTypes::NameShort) => {
                if has_name {
                    return Err(EIRError::RepeatedName);
                }
                has_name = true;
                let text = text_from_utf8_lossy(data_bytes(&data));
                eir.push(EIR::Name(text, false));
                assert(records_of(eir@) =~= before.push(Record::Name(text@, false)));
            },
            Some(EIRDataTypes::NameComplete) => {
                if has_name {
                    return Err(EIRError::RepeatedName);
                }
                has_name = true;
                let text = text_from_utf8_lossy(data_bytes(&data));
                eir.push(EIR::Name(text, true));
                assert(records_of(eir@) =~= before.push(Record::Name(text@, true)));
            },
            Some(EIRDataTypes::TxPowerLevel) => {},
            Some(EIRDataTypes::URI) => {},
            Some(EIRDataTypes::ManufacturerSpecificData) => {},
            None => {
                // Skip unknown data
                assert(EIRDataTypes::Flags.code() != data_type);
                assert(EIRDataTypes::UUID16Incomplete.code() != data_type);
                assert(EIRDataTypes::UUID16Complete.code() != data_type);
                assert(EIRDataTypes::NameShort.code() != data_type);
                assert(EIRDataTypes::NameComplete.code() != data_type);
            },
        }
        proof {
            lemma_add_block_positions(before, data_type, block, RecordKind::Flags);
            lemma_add_block_positions(before, data_type, block, RecordKind::Name);
            lemma_add_block_positions(before, data_type, block, RecordKind::Uuid16);
        }
        let rest = data_remaining(&data);
        data_advance(&mut data, rest);
        cur = into_inner(data);
        assert(unread(cur) =~= bytes.skip(block_end(bytes)));
    }

    Ok(eir)
}

/// Whether `bytes` can be decoded without a read beyond its end: no length
/// octet but zero is its last octet, and its first Flags block, if decoding
/// gets that far, has data.
pub fn reads_in_bounds(bytes: &[u8]) -> (ok: bool)
    ensures
        ok == decode(bytes@) !is ReadsPastEnd,
{
    let mut at: usize = 0;
    let mut has_flag = false;
    let mut has_name = false;
    let ghost mut records = Seq::<Record>::empty();
    assert(bytes@.skip(0) =~= bytes@);
    while at < bytes.len()
        invariant
            at <= bytes.len(),
            decode_from(bytes@.skip(at as int), records) == decode(bytes@),
            has_flag == position(records, RecordKind::Flags) is Some,
            has_name == position(records, RecordKind::Name) is Some,
        decreases bytes.len() - at,
    {
        let ghost rest = bytes@.skip(at as int);
        let left = bytes.len() - at;
        let len = bytes[at];
        if len == 0 {
            return true;
        }
        if left < 2 {
            return false;
        }
        let code = bytes[at + 1];
        let end = if (len as usize) < left {
            at + 1 + len as usize
        } else {
            bytes.len()
        };
        let data_len = end - at - 2;
        match EIRDataTypes::from_u8(code) {
            Some(EIRDataTypes::Flags) => {
                if has_flag {
                    return true;
                }
                if data_len == 0 {
                    return false;
                }
                has_flag = true;
            },
            Some(EIRDataTypes::UUID16Incomplete) | Some(EIRDataTypes::UUID16Complete) => {
                if data_len % 2 != 0 {
                    return true;
                }
            },
            Some(EIRDataTypes::NameShort) | Some(EIRDataTypes::NameComplete) => {
                if has_name {
                    return true;
                }
                has_name = true;
            },
            Some(_) => {},
            None => {
                assert(EIRDataTypes::Flags.code() != code);
                assert(EIRDataTypes::UUID16Incomplete.code() != code);
                assert(EIRDataTypes::UUID16Complete.code() != code);
                assert(EIRDataTypes::NameShort.code() != code);
                assert(EIRDataTypes::NameComplete.code() != code);
            },
        }
        proof {
            lemma_add_block_positions(records, code, block_data(rest), RecordKind::Flags);
            lemma_add_block_positions(records, code, block_data(rest), RecordKind::Name);
            records = add_block(records, code, block_data(rest))->Records_0;
            assert(rest.skip(block_end(rest)) =~= bytes@.skip(end as int));
        }
        at = end;
    }
    true
}

/// Parses Extended Inquiry Response (EIR) data, whatever the buffer holds.
///
/// The result is `None` for a buffer that cannot be read to its end, and what
/// `parse_eir` gives for every other.
pub fn try_parse_eir(buf: Bytes) -> (res: Option<Result<Vec<EIR>, EIRError>>)
    ensures
        match res {
            Some(r) => outcome(r) == decode(unread(buf)),
            None => decode(unread(buf)) is ReadsPastEnd,
        },
{
    if reads_in_bounds(peek(&buf)) {
        Some(parse_eir(buf))
    } else {
        None
    }
}

} // verus!
