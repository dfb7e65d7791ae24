//! The byte cursor that the decoder reads from: `bytes::Bytes`, and the capped
//! sub-cursor `Take<Bytes>` that bounds the reads of one block.
//!
//! Verus does not look inside either type. What a cursor still holds is given a
//! name here, and each method the decoder calls is wrapped with the contract
//! that the `bytes` crate's source shows for it. None of these contracts is
//! proved.

use bytes::buf::ext::Take;
use bytes::buf::BufExt;
use bytes::Buf;
use bytes::Bytes;
use vstd::prelude::*;

verus! {

/// `bytes::Bytes`, as a type that Verus carries through without looking
/// inside.
#[verifier::external_type_specification]
#[verifier::external_body]
pub struct ExBytes(bytes::Bytes);

/// `bytes::buf::ext::Take`, as a type that Verus carries through without
/// looking inside.
#[verifier::external_type_specification]
#[verifier::external_body]
#[verifier::reject_recursive_types(T)]
pub struct ExTake<T>(bytes::buf::ext::Take<T>);

/// The octets that `buf` has not yet handed out, next octet first.
pub uninterp spec fn unread(buf: Bytes) -> Seq<u8>;

/// The octets that the cursor inside `data` has not yet handed out, next octet
/// first. `data` gives access to at most `cap(data)` of them.
pub uninterp spec fn inner_unread(data: Take<Bytes>) -> Seq<u8>;

/// The number of octets that `data` may still read from its inner cursor.
pub uninterp spec fn cap(data: Take<Bytes>) -> nat;

/// How many octets can be read through `data`.
pub open spec fn available(data: Take<Bytes>) -> nat {
    if inner_unread(data).len() <= cap(data) {
        inner_unread(data).len()
    } else {
        cap(data)
    }
}

/// The octets that can be read through `data`, next octet first.
pub open spec fn window(data: Take<Bytes>) -> Seq<u8> {
    inner_unread(data).subrange(0, available(data) as int)
}

/// The 16-bit value whose little-endian encoding is `lo`, `hi`.
pub open spec fn le_u16(lo: u8, hi: u8) -> u16 {
    (lo as int + 256 * (hi as int)) as u16
}

/// `Buf::has_remaining` on `Bytes`: true exactly when an octet is left.
#[verifier::external_body]
pub(crate) fn has_remaining(buf: &Bytes) -> (more: bool)
    ensures
        more == (unread(*buf).len() > 0),
{
    buf.has_remaining()
}

/// `Buf::get_u8` on `Bytes`: hands out the next octet and moves past it.
/// It panics on an empty cursor, which `requires` leaves out.
#[verifier::external_body]
pub(crate) fn get_u8(buf: &mut Bytes) -> (octet: u8)
    requires
        unread(*old(buf)).len() >= 1,
    ensures
        octet == unread(*old(buf))[0],
        unread(*final(buf)) == unread(*old(buf)).skip(1),
{
    buf.get_u8()
}

/// `Buf::bytes` on `Bytes`: all the unread octets as one slice; the cursor
/// stays where it is.
#[verifier::external_body]
pub(crate) fn peek(buf: &Bytes) -> (octets: &[u8])
    ensures
        octets@ == unread(*buf),
{
    buf.bytes()
}

/// `BufExt::take` on `Bytes`: wraps the cursor, unchanged, with `limit` as cap.
#[verifier::external_body]
pub(crate) fn take(buf: Bytes, limit: usize) -> (data: Take<Bytes>)
    ensures
        inner_unread(data) == unread(buf),
        cap(data) == limit,
{
    buf.take(limit)
}

/// `Buf::remaining` on `Take<Bytes>`: the smaller of the inner cursor's unread
/// count and the cap.
#[verifier::external_body]
pub(crate) fn data_remaining(data: &Take<Bytes>) -> (n: usize)
    ensures
        n == available(*data),
{
    data.remaining()
}

/// `Buf::has_remaining` on `Take<Bytes>`: true exactly when an octet can be read.
#[verifier::external_body]
pub(crate) fn data_has_remaining(data: &Take<Bytes>) -> (more: bool)
    ensures
        more == (available(*data) > 0),
{
    data.has_remaining()
}

/// `Buf::bytes` on `Take<Bytes>`: the readable octets as one slice; the cursor
/// stays where it is.
#[verifier::external_body]
pub(crate) fn data_bytes(data: &Take<Bytes>) -> (octets: &[u8])
    ensures
        octets@ == window(*data),
{
    data.bytes()
}

/// `Buf::get_u8` on `Take<Bytes>`: hands out the next octet, moves the inner
/// cursor past it and lowers the cap by one. It panics when nothing can be
/// read, which `requires` leaves out.
#[verifier::external_body]
pub(crate) fn data_get_u8(data: &mut Take<Bytes>) -> (octet: u8)
    requires
        available(*old(data)) >= 1,
    ensures
        octet == inner_unread(*old(data))[0],
        inner_unread(*final(data)) == inner_unread(*old(data)).skip(1),
        cap(*final(data)) == cap(*old(data)) - 1,
{
    data.get_u8()
}

/// `Buf::get_u16_le` on `Take<Bytes>`: hands out the next two octets as one
/// little-endian value, moves the inner cursor past them and lowers the cap by
/// two. It panics when fewer than two octets can be read, which `requires`
/// leaves out.
#[verifier::external_body]
pub(crate) fn data_get_u16_le(data: &mut Take<Bytes>) -> (value: u16)
    requires
        available(*old(data)) >= 2,
    ensures
        value == le_u16(inner_unread(*old(data))[0], inner_unread(*old(data))[1]),
        inner_unread(*final(data)) == inner_unread(*old(data)).skip(2),
        cap(*final(data)) == cap(*old(data)) - 2,
{
    data.get_u16_le()
}

/// `Buf::advance` on `Take<Bytes>`: moves the inner cursor `cnt` octets on and
/// lowers the cap by `cnt`. It panics when `cnt` exceeds the cap or the inner
/// cursor's unread count, which `requires` leaves out.
#[verifier::external_body]
pub(crate) fn data_advance(data: &mut Take<Bytes>, cnt: usize)
    requires
        cnt <= available(*old(data)),
    ensures
        inner_unread(*final(data)) == inner_unread(*old(data)).skip(cnt as int),
        cap(*final(data)) == cap(*old(data)) - cnt,
{
    data.advance(cnt)
}

/// `Take::into_inner`: gives the inner cursor back, where it now stands.
#[verifier::external_body]
pub(crate) fn into_inner(data: Take<Bytes>) -> (buf: Bytes)
    ensures
        unread(buf) == inner_unread(data),
{
    data.into_inner()
}

} // verus!
