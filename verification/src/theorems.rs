//! What holds of every decoding.

use crate::format::add_block;
use crate::format::block_data;
use crate::format::block_end;
use crate::format::block_kind;
use crate::format::decode;
use crate::format::decode_from;
use crate::format::kind_of;
use crate::format::lemma_add_block_positions;
use crate::format::lemma_position_in_range;
use crate::format::position;
use crate::format::service_ids;
use crate::format::Decoding;
use crate::format::RecordKind;
use crate::record::EIRError;
use crate::record::Record;
use crate::text::ascii_chars;
use crate::text::lossy_text;
use crate::text::theorem_ascii_text;
use vstd::prelude::*;

verus! {

/// A whole block: the length octet, the type octet `code` and `data`.
pub open spec fn block(code: u8, data: Seq<u8>) -> Seq<u8>
    recommends
        data.len() <= 254,
{
    seq![(data.len() + 1) as u8, code] + data
}

/// Whether `bytes` is a run of whole blocks and nothing else.
pub open spec fn whole_blocks(bytes: Seq<u8>) -> bool
    decreases bytes.len(),
{
    bytes.len() == 0 || (bytes[0] != 0 && 1 + bytes[0] <= bytes.len() && whole_blocks(
        bytes.skip(1 + bytes[0]),
    ))
}

/// No two of `records` are of one kind.
pub open spec fn one_of_each_kind(records: Seq<Record>) -> bool {
    forall|i: int, j: int|
        0 <= i < records.len() && 0 <= j < records.len() && kind_of(records[i]) == kind_of(
            records[j],
        ) ==> i == j
}

/// Decoding a buffer that begins with a whole block is decoding what follows
/// the block, with the block's record added; or it ends with the block, where
/// the block is rejected or cannot be read.
pub proof fn theorem_whole_block(code: u8, data: Seq<u8>, rest: Seq<u8>, records: Seq<Record>)
    requires
        data.len() <= 254,
    ensures
        decode_from(block(code, data) + rest, records) == match add_block(records, code, data) {
            Decoding::Records(next) => decode_from(rest, next),
            Decoding::Error(e) => Decoding::Error(e),
            Decoding::ReadsPastEnd => Decoding::ReadsPastEnd,
        },
{
    let bytes = block(code, data) + rest;
    assert(block_data(bytes) =~= data);
    assert(bytes.skip(block_end(bytes)) =~= rest);
}

/// The data of a block lies inside the buffer and inside the extent that the
/// block's length octet declares.
pub proof fn theorem_block_data_within_block(bytes: Seq<u8>)
    requires
        bytes.len() >= 2,
        bytes[0] != 0,
    ensures
        2 <= block_end(bytes) <= bytes.len(),
        block_end(bytes) <= 1 + bytes[0],
        block_data(bytes).len() == block_end(bytes) - 2,
        forall|i: int| 0 <= i < block_data(bytes).len() ==> block_data(bytes)[i] == bytes[2 + i],
{
}

/// A block that the buffer cuts short is decoded with the data that is there,
/// and is the last block.
pub proof fn theorem_cut_short_block(bytes: Seq<u8>, records: Seq<Record>)
    requires
        bytes.len() >= 2,
        1 + bytes[0] > bytes.len(),
    ensures
        decode_from(bytes, records) == add_block(records, bytes[1], bytes.skip(2)),
{
    reveal_with_fuel(decode_from, 2);
    assert(block_data(bytes) =~= bytes.skip(2));
}

/// An empty buffer decodes to no record.
pub proof fn theorem_empty_buffer()
    ensures
        decode(Seq::empty()) == Decoding::Records(Seq::empty()),
{
}

/// A buffer that is one name block decodes to one name record: the text of
/// the block's data, complete where the block's type says so. The text of
/// ASCII data is its characters.
pub proof fn theorem_single_name(code: u8, data: Seq<u8>)
    requires
        code == 0x08 || code == 0x09,
        data.len() <= 254,
    ensures
        decode(block(code, data)) == Decoding::Records(
            seq![Record::Name(lossy_text(data), code == 0x09)],
        ),
        (forall|i: int| 0 <= i < data.len() ==> data[i] < 128) ==> lossy_text(data) == ascii_chars(
            data,
        ),
{
    theorem_whole_block(code, data, Seq::empty(), Seq::empty());
    assert(Seq::<Record>::empty().push(Record::Name(lossy_text(data), code == 0x09))
        =~= seq![Record::Name(lossy_text(data), code == 0x09)]);
    if forall|i: int| 0 <= i < data.len() ==> data[i] < 128 {
        theorem_ascii_text(data);
    }
}

/// Two Flags blocks in sequence are rejected as a repeated flag, whatever
/// their data, what was decoded before them and what follows them. The second
/// block begins `tail`; it need not be whole.
pub proof fn theorem_repeated_flag(first: Seq<u8>, tail: Seq<u8>, records: Seq<Record>)
    requires
        1 <= first.len() <= 254,
        tail.len() >= 2,
        tail[0] != 0,
        tail[1] == 0x01,
    ensures
        decode_from(block(0x01, first) + tail, records) == Decoding::Error(
            EIRError::RepeatedFlag,
        ),
{
    theorem_whole_block(0x01, first, tail, records);
    if position(records, RecordKind::Flags) is None {
        lemma_add_block_positions(records, 0x01, first, RecordKind::Flags);
    }
}

/// Two name blocks in sequence, short or complete, are rejected as a repeated
/// name. The second block begins `tail`; it need not be whole.
pub proof fn theorem_repeated_name(code: u8, first: Seq<u8>, tail: Seq<u8>, records: Seq<Record>)
    requires
        code == 0x08 || code == 0x09,
        first.len() <= 254,
        tail.len() >= 2,
        tail[0] != 0,
        tail[1] == 0x08 || tail[1] == 0x09,
    ensures
        decode_from(block(code, first) + tail, records) == Decoding::Error(
            EIRError::RepeatedName,
        ),
{
    theorem_whole_block(code, first, tail, records);
    if position(records, RecordKind::Name) is None {
        lemma_add_block_positions(records, code, first, RecordKind::Name);
    }
}

/// A block of 16-bit service identifiers whose data has an odd number of
/// octets is rejected with that number, whether the block is whole or the
/// buffer ends inside it.
pub proof fn theorem_odd_service_ids(bytes: Seq<u8>, records: Seq<Record>)
    requires
        bytes.len() >= 2,
        bytes[0] != 0,
        bytes[1] == 0x02 || bytes[1] == 0x03,
        block_data(bytes).len() % 2 == 1,
    ensures
        decode_from(bytes, records) == Decoding::Error(
            EIRError::UnexpectedDataLength { len: block_data(bytes).len() as usize },
        ),
{
}

/// The identifiers of two runs of data, one after the other, are those of the
/// first run followed by those of the second.
pub proof fn theorem_service_ids_concat(first: Seq<u8>, second: Seq<u8>)
    requires
        first.len() % 2 == 0,
        second.len() % 2 == 0,
    ensures
        service_ids(first + second) == service_ids(first) + service_ids(second),
{
    assert(service_ids(first + second) =~= service_ids(first) + service_ids(second));
}

/// Two blocks of 16-bit service identifiers give one record, at the place of
/// the first block, with the identifiers of both in order.
pub proof fn theorem_service_ids_accumulate(
    first_code: u8,
    first: Seq<u8>,
    second_code: u8,
    second: Seq<u8>,
    rest: Seq<u8>,
    records: Seq<Record>,
)
    requires
        first_code == 0x02 || first_code == 0x03,
        second_code == 0x02 || second_code == 0x03,
        first.len() <= 254 && first.len() % 2 == 0,
        second.len() <= 254 && second.len() % 2 == 0,
        position(records, RecordKind::Uuid16) is None,
    ensures
        decode_from(block(first_code, first) + block(second_code, second) + rest, records)
            == decode_from(
            rest,
            records.push(Record::Uuid16(service_ids(first) + service_ids(second))),
        ),
{
    let tail = block(second_code, second) + rest;
    assert(block(first_code, first) + block(second_code, second) + rest =~= block(
        first_code,
        first,
    ) + tail);
    theorem_whole_block(first_code, first, tail, records);
    let next = records.push(Record::Uuid16(service_ids(first)));
    lemma_add_block_positions(records, first_code, first, RecordKind::Uuid16);
    theorem_whole_block(second_code, second, rest, next);
    assert(next.update(
        records.len() as int,
        Record::Uuid16(service_ids(first) + service_ids(second)),
    ) =~= records.push(Record::Uuid16(service_ids(first) + service_ids(second))));
}

/// A length octet of zero after whole blocks ends the buffer: what follows it
/// changes nothing.
pub proof fn theorem_zero_length_ends(blocks: Seq<u8>, garbage: Seq<u8>, records: Seq<Record>)
    requires
        whole_blocks(blocks),
    ensures
        decode_from(blocks + seq![0u8] + garbage, records) == decode_from(blocks, records),
    decreases blocks.len(),
{
    let bytes = blocks + seq![0u8] + garbage;
    if blocks.len() > 0 {
        let end = 1 + blocks[0];
        assert(block_data(bytes) =~= block_data(blocks));
        assert(bytes.skip(end) =~= blocks.skip(end) + seq![0u8] + garbage);
        match add_block(records, blocks[1], block_data(blocks)) {
            Decoding::Records(next) => {
                theorem_zero_length_ends(blocks.skip(end), garbage, next);
            },
            _ => {},
        }
    }
}

/// An accepted block keeps the records of distinct kinds.
proof fn lemma_add_block_one_of_each_kind(records: Seq<Record>, code: u8, data: Seq<u8>)
    requires
        one_of_each_kind(records),
        add_block(records, code, data) is Records,
    ensures
        one_of_each_kind(add_block(records, code, data)->Records_0),
{
    let next = add_block(records, code, data)->Records_0;
    match block_kind(code) {
        Some(kind) => {
            lemma_position_in_range(records, kind);
            assert forall|i: int, j: int|
                0 <= i < next.len() && 0 <= j < next.len() && kind_of(next[i]) == kind_of(
                    next[j],
                ) implies i == j by {}
        },
        None => {},
    }
}

/// The records of a decoding are of distinct kinds: at most one Flags record,
/// one name and one list of 16-bit service identifiers.
pub proof fn theorem_one_record_of_each_kind(bytes: Seq<u8>)
    ensures
        decode(bytes) is Records ==> one_of_each_kind(decode(bytes)->Records_0),
{
    lemma_decode_from_one_of_each_kind(bytes, Seq::empty());
}

proof fn lemma_decode_from_one_of_each_kind(bytes: Seq<u8>, records: Seq<Record>)
    requires
        one_of_each_kind(records),
    ensures
        decode_from(bytes, records) is Records ==> one_of_each_kind(
            decode_from(bytes, records)->Records_0,
        ),
    decreases bytes.len(),
{
    if bytes.len() >= 2 && bytes[0] != 0 {
        match add_block(records, bytes[1], block_data(bytes)) {
            Decoding::Records(next) => {
                lemma_add_block_one_of_each_kind(records, bytes[1], block_data(bytes));
                lemma_decode_from_one_of_each_kind(bytes.skip(block_end(bytes)), next);
            },
            _ => {},
        }
    }
}

} // verus!
