//! Input events and their wire records.
//!
//! A record is what a 64-bit little-endian Linux kernel hands out for one
//! event: 24 bytes, that is the seconds and the microseconds of the timestamp
//! as signed 64-bit integers, the kind and the code as unsigned 16-bit
//! integers, and the value as a signed 32-bit integer, each least significant
//! byte first.
//!
//! `le32`, `le64`, `bytes32` and `bytes64` are opaque, to keep their arithmetic
//! out of proofs that do not ask for it: `reveal` them where it is wanted.

use vstd::prelude::*;
use crate::kbd::fault::Fault;

verus! {

/// The length of one event record, in bytes.
pub const EVENT_SIZE: usize = 24;

/// One event of an input device.
#[derive(Clone, Copy, Debug, PartialEq, Eq, Structural)]
pub struct InputEvent {
    /// Timestamp, whole seconds.
    pub tv_sec: i64,
    /// Timestamp, microseconds within the second.
    pub tv_usec: i64,
    /// The category of the event: key, relative motion, synchronisation, ...
    pub kind: u16,
    /// Which key or axis.
    pub code: u16,
    /// For a key event: 0 for a release, 1 for a press, 2 for a repeat.
    pub value: i32,
}

/// The unsigned number that the two bytes from `at` on hold.
pub open spec fn le16(bytes: Seq<u8>, at: int) -> int {
    bytes[at] + 0x100 * bytes[at + 1]
}

/// The unsigned number that the four bytes from `at` on hold.
#[verifier::opaque]
pub open spec fn le32(bytes: Seq<u8>, at: int) -> int {
    le16(bytes, at) + 0x1_0000 * le16(bytes, at + 2)
}

/// The unsigned number that the eight bytes from `at` on hold.
#[verifier::opaque]
pub open spec fn le64(bytes: Seq<u8>, at: int) -> int {
    le32(bytes, at) + 0x1_0000_0000 * le32(bytes, at + 4)
}

/// The signed reading of an unsigned 32-bit number in two's complement.
pub open spec fn signed32(u: int) -> int {
    if u < 0x8000_0000 {
        u
    } else {
        u - 0x1_0000_0000
    }
}

/// The signed reading of an unsigned 64-bit number in two's complement.
pub open spec fn signed64(u: int) -> int {
    if u < 0x8000_0000_0000_0000 {
        u
    } else {
        u - 0x1_0000_0000_0000_0000
    }
}

/// The unsigned 32-bit number that stands for `v` in two's complement.
pub open spec fn unsigned32(v: int) -> int {
    if v < 0 {
        v + 0x1_0000_0000
    } else {
        v
    }
}

/// The unsigned 64-bit number that stands for `v` in two's complement.
pub open spec fn unsigned64(v: int) -> int {
    if v < 0 {
        v + 0x1_0000_0000_0000_0000
    } else {
        v
    }
}

/// The two bytes of `u`, which is below 2^16.
pub open spec fn bytes16(u: int) -> Seq<u8> {
    seq![(u % 0x100) as u8, (u / 0x100) as u8]
}

/// The four bytes of `u`, which is below 2^32.
#[verifier::opaque]
pub open spec fn bytes32(u: int) -> Seq<u8> {
    bytes16(u % 0x1_0000) + bytes16(u / 0x1_0000)
}

/// The eight bytes of `u`, which is below 2^64.
#[verifier::opaque]
pub open spec fn bytes64(u: int) -> Seq<u8> {
    bytes32(u % 0x1_0000_0000) + bytes32(u / 0x1_0000_0000)
}

/// The event that a record of `EVENT_SIZE` bytes holds.
pub open spec fn decoded(bytes: Seq<u8>) -> InputEvent {
    InputEvent {
        tv_sec: signed64(le64(bytes, 0)) as i64,
        tv_usec: signed64(le64(bytes, 8)) as i64,
        kind: le16(bytes, 16) as u16,
        code: le16(bytes, 18) as u16,
        value: signed32(le32(bytes, 20)) as i32,
    }
}

/// The record of `EVENT_SIZE` bytes that holds `ev`.
pub open spec fn encoded(ev: InputEvent) -> Seq<u8> {
    bytes64(unsigned64(ev.tv_sec as int)) + bytes64(unsigned64(ev.tv_usec as int)) + bytes16(
        ev.kind as int,
    ) + bytes16(ev.code as int) + bytes32(unsigned32(ev.value as int))
}

fn read_u16(bytes: &[u8], at: usize) -> (v: u16)
    requires
        at + 2 <= bytes@.len() <= usize::MAX,
    ensures
        v == le16(bytes@, at as int),
{
    let low: u16 = bytes[at] as u16;
    let high: u16 = bytes[at + 1] as u16;
    low + 0x100 * high
}

fn read_u32(bytes: &[u8], at: usize) -> (v: u32)
    requires
        at + 4 <= bytes@.len() <= usize::MAX,
    ensures
        v == le32(bytes@, at as int),
{
    proof {
        reveal(le32);
    }
    let low: u32 = read_u16(bytes, at) as u32;
    let high: u32 = read_u16(bytes, at + 2) as u32;
    low + 0x1_0000 * high
}

fn read_u64(bytes: &[u8], at: usize) -> (v: u64)
    requires
        at + 8 <= bytes@.len() <= usize::MAX,
    ensures
        v == le64(bytes@, at as int),
{
    proof {
        reveal(le64);
    }
    let low: u64 = read_u32(bytes, at) as u64;
    let high: u64 = read_u32(bytes, at + 4) as u64;
    low + 0x1_0000_0000 * high
}

fn read_i32(bytes: &[u8], at: usize) -> (v: i32)
    requires
        at + 4 <= bytes@.len() <= usize::MAX,
    ensures
        v == signed32(le32(bytes@, at as int)),
{
    let u: u32 = read_u32(bytes, at);
    if u < 0x8000_0000 {
        u as i32
    } else {
        (u - 0x8000_0000) as i32 + i32::MIN
    }
}

fn read_i64(bytes: &[u8], at: usize) -> (v: i64)
    requires
        at + 8 <= bytes@.len() <= usize::MAX,
    ensures
        v == signed64(le64(bytes@, at as int)),
{
    let u: u64 = read_u64(bytes, at);
    if u < 0x8000_0000_0000_0000 {
        u as i64
    } else {
        (u - 0x8000_0000_0000_0000) as i64 + i64::MIN
    }
}

/// Decodes one event record.
///
/// Anything but exactly `EVENT_SIZE` bytes is a partial read.
pub fn decode_event(bytes: &[u8]) -> (decoding: Result<InputEvent, Fault>)
    ensures
        bytes@.len() == EVENT_SIZE ==> decoding == Ok::<InputEvent, Fault>(decoded(bytes@)),
        bytes@.len() != EVENT_SIZE ==> decoding == Err::<InputEvent, Fault>(Fault::PartialRead),
{
    if bytes.len() != EVENT_SIZE {
        return Err(Fault::PartialRead);
    }
    Ok(
        InputEvent {
            tv_sec: read_i64(bytes, 0),
            tv_usec: read_i64(bytes, 8),
            kind: read_u16(bytes, 16),
            code: read_u16(bytes, 18),
            value: read_i32(bytes, 20),
        },
    )
}

fn push_u16(out: &mut Vec<u8>, u: u16)
    ensures
        final(out)@ == old(out)@ + bytes16(u as int),
{
    out.push((u % 0x100) as u8);
    out.push((u / 0x100) as u8);
}

fn push_u32(out: &mut Vec<u8>, u: u32)
    ensures
        final(out)@ == old(out)@ + bytes32(u as int),
{
    proof {
        reveal(bytes32);
    }
    push_u16(out, (u % 0x1_0000) as u16);
    push_u16(out, (u / 0x1_0000) as u16);
}

fn push_u64(out: &mut Vec<u8>, u: u64)
    ensures
        final(out)@ == old(out)@ + bytes64(u as int),
{
    proof {
        reveal(bytes64);
    }
    push_u32(out, (u % 0x1_0000_0000) as u32);
    push_u32(out, (u / 0x1_0000_0000) as u32);
}

fn push_i32(out: &mut Vec<u8>, v: i32)
    ensures
        final(out)@ == old(out)@ + bytes32(unsigned32(v as int)),
{
    let u: u32 = if v < 0 {
        (v - i32::MIN) as u32 + 0x8000_0000
    } else {
        v as u32
    };
    push_u32(out, u);
}

fn push_i64(out: &mut Vec<u8>, v: i64)
    ensures
        final(out)@ == old(out)@ + bytes64(unsigned64(v as int)),
{
    let u: u64 = if v < 0 {
        (v - i64::MIN) as u64 + 0x8000_0000_0000_0000
    } else {
        v as u64
    };
    push_u64(out, u);
}

/// Encodes `ev` as one event record.
pub fn encode_event(ev: &InputEvent) -> (record: Vec<u8>)
    ensures
        record@ == encoded(*ev),
        record@.len() == EVENT_SIZE,
{
    let mut record: Vec<u8> = Vec::new();
    push_i64(&mut record, ev.tv_sec);
    push_i64(&mut record, ev.tv_usec);
    push_u16(&mut record, ev.kind);
    push_u16(&mut record, ev.code);
    push_i32(&mut record, ev.value);
    proof {
        lemma_decode_encoded(*ev);
    }
    record
}

/// Decoding the record of an event gives the event back.
pub proof fn lemma_decode_encoded(ev: InputEvent)
    ensures
        encoded(ev).len() == EVENT_SIZE,
        decoded(encoded(ev)) == ev,
{
    let record = encoded(ev);
    let seconds = unsigned64(ev.tv_sec as int);
    let micros = unsigned64(ev.tv_usec as int);
    let value = unsigned32(ev.value as int);
    lemma_le16_bytes16(ev.kind as int);
    lemma_le16_bytes16(ev.code as int);
    lemma_le32_bytes32(value);
    lemma_le64_bytes64(seconds);
    lemma_le64_bytes64(micros);
    assert(record.len() == 24);
    assert(le64(record, 0) == seconds) by {
        assert(record.subrange(0, 8) =~= bytes64(seconds));
        lemma_le64_window(record, 0);
    }
    assert(le64(record, 8) == micros) by {
        assert(record.subrange(8, 16) =~= bytes64(micros));
        lemma_le64_window(record, 8);
    }
    assert(le16(record, 16) == ev.kind) by {
        assert(record.subrange(16, 18) =~= bytes16(ev.kind as int));
        lemma_le16_window(record, 16);
    }
    assert(le16(record, 18) == ev.code) by {
        assert(record.subrange(18, 20) =~= bytes16(ev.code as int));
        lemma_le16_window(record, 18);
    }
    assert(le32(record, 20) == value) by {
        assert(record.subrange(20, 24) =~= bytes32(value));
        lemma_le32_window(record, 20);
    }
    assert(signed64(seconds) == ev.tv_sec);
    assert(signed64(micros) == ev.tv_usec);
    assert(signed32(value) == ev.value);
}

/// Encoding the event of a record gives the record back.
pub proof fn lemma_encode_decoded(bytes: Seq<u8>)
    requires
        bytes.len() == EVENT_SIZE,
    ensures
        encoded(decoded(bytes)) == bytes,
{
    let ev = decoded(bytes);
    let seconds = bytes.subrange(0, 8);
    let micros = bytes.subrange(8, 16);
    let kind = bytes.subrange(16, 18);
    let code = bytes.subrange(18, 20);
    let value = bytes.subrange(20, 24);
    assert(bytes64(unsigned64(ev.tv_sec as int)) == seconds) by {
        lemma_bytes64_le64(bytes, 0);
        assert(unsigned64(signed64(le64(bytes, 0))) == le64(bytes, 0));
    }
    assert(bytes64(unsigned64(ev.tv_usec as int)) == micros) by {
        lemma_bytes64_le64(bytes, 8);
        assert(unsigned64(signed64(le64(bytes, 8))) == le64(bytes, 8));
    }
    assert(bytes16(ev.kind as int) == kind) by {
        lemma_bytes16_le16(bytes, 16);
    }
    assert(bytes16(ev.code as int) == code) by {
        lemma_bytes16_le16(bytes, 18);
    }
    assert(bytes32(unsigned32(ev.value as int)) == value) by {
        lemma_bytes32_le32(bytes, 20);
        assert(unsigned32(signed32(le32(bytes, 20))) == le32(bytes, 20));
    }
    assert(encoded(ev) == seconds + micros + kind + code + value);
    assert(seconds + micros + kind + code + value =~= bytes);
}

/// Reading at an offset is reading the window from that offset at 0.
proof fn lemma_le16_window(bytes: Seq<u8>, at: int)
    requires
        0 <= at,
        at + 2 <= bytes.len(),
    ensures
        le16(bytes, at) == le16(bytes.subrange(at, at + 2), 0),
{
}

proof fn lemma_le32_window(bytes: Seq<u8>, at: int)
    requires
        0 <= at,
        at + 4 <= bytes.len(),
    ensures
        le32(bytes, at) == le32(bytes.subrange(at, at + 4), 0),
{
    reveal(le32);
    let window = bytes.subrange(at, at + 4);
    lemma_le16_window(bytes, at);
    lemma_le16_window(bytes, at + 2);
    lemma_le16_window(window, 0);
    lemma_le16_window(window, 2);
    assert(window.subrange(0, 2) =~= bytes.subrange(at, at + 2));
    assert(window.subrange(2, 4) =~= bytes.subrange(at + 2, at + 4));
}

proof fn lemma_le64_window(bytes: Seq<u8>, at: int)
    requires
        0 <= at,
        at + 8 <= bytes.len(),
    ensures
        le64(bytes, at) == le64(bytes.subrange(at, at + 8), 0),
{
    reveal(le64);
    let window = bytes.subrange(at, at + 8);
    lemma_le32_window(bytes, at);
    lemma_le32_window(bytes, at + 4);
    lemma_le32_window(window, 0);
    lemma_le32_window(window, 4);
    assert(window.subrange(0, 4) =~= bytes.subrange(at, at + 4));
    assert(window.subrange(4, 8) =~= bytes.subrange(at + 4, at + 8));
}

/// The bytes of a number hold that number.
proof fn lemma_le16_bytes16(u: int)
    requires
        0 <= u < 0x1_0000,
    ensures
        bytes16(u).len() == 2,
        le16(bytes16(u), 0) == u,
{
}

proof fn lemma_le32_bytes32(u: int)
    requires
        0 <= u < 0x1_0000_0000,
    ensures
        bytes32(u).len() == 4,
        le32(bytes32(u), 0) == u,
{
    reveal(le32);
    reveal(bytes32);
    let low = u % 0x1_0000;
    let high = u / 0x1_0000;
    let bytes = bytes32(u);
    lemma_le16_bytes16(low);
    lemma_le16_bytes16(high);
    assert(bytes.subrange(0, 2) =~= bytes16(low));
    assert(bytes.subrange(2, 4) =~= bytes16(high));
    lemma_le16_window(bytes, 0);
    lemma_le16_window(bytes, 2);
}

proof fn lemma_le64_bytes64(u: int)
    requires
        0 <= u < 0x1_0000_0000_0000_0000,
    ensures
        bytes64(u).len() == 8,
        le64(bytes64(u), 0) == u,
{
    reveal(le64);
    reveal(bytes64);
    let low = u % 0x1_0000_0000;
    let high = u / 0x1_0000_0000;
    let bytes = bytes64(u);
    lemma_le32_bytes32(low);
    lemma_le32_bytes32(high);
    assert(bytes.subrange(0, 4) =~= bytes32(low));
    assert(bytes.subrange(4, 8) =~= bytes32(high));
    lemma_le32_window(bytes, 0);
    lemma_le32_window(bytes, 4);
}

/// The number that bytes hold has these bytes.
proof fn lemma_bytes16_le16(bytes: Seq<u8>, at: int)
    requires
        0 <= at,
        at + 2 <= bytes.len(),
    ensures
        0 <= le16(bytes, at) < 0x1_0000,
        bytes16(le16(bytes, at)) =~= bytes.subrange(at, at + 2),
{
}

proof fn lemma_bytes32_le32(bytes: Seq<u8>, at: int)
    requires
        0 <= at,
        at + 4 <= bytes.len(),
    ensures
        0 <= le32(bytes, at) < 0x1_0000_0000,
        bytes32(le32(bytes, at)) =~= bytes.subrange(at, at + 4),
{
    reveal(le32);
    reveal(bytes32);
    let low = le16(bytes, at);
    let high = le16(bytes, at + 2);
    let u = le32(bytes, at);
    lemma_bytes16_le16(bytes, at);
    lemma_bytes16_le16(bytes, at + 2);
    assert(u == low + 0x1_0000 * high);
    assert(u % 0x1_0000 == low && u / 0x1_0000 == high);
    assert(bytes32(u) == bytes16(low) + bytes16(high));
    assert(bytes.subrange(at, at + 4) =~= bytes.subrange(at, at + 2) + bytes.subrange(
        at + 2,
        at + 4,
    ));
}

proof fn lemma_bytes64_le64(bytes: Seq<u8>, at: int)
    requires
        0 <= at,
        at + 8 <= bytes.len(),
    ensures
        0 <= le64(bytes, at) < 0x1_0000_0000_0000_0000,
        bytes64(le64(bytes, at)) =~= bytes.subrange(at, at + 8),
{
    reveal(le64);
    reveal(bytes64);
    let low = le32(bytes, at);
    let high = le32(bytes, at + 4);
    let u = le64(bytes, at);
    lemma_bytes32_le32(bytes, at);
    lemma_bytes32_le32(bytes, at + 4);
    assert(u == low + 0x1_0000_0000 * high);
    assert(u % 0x1_0000_0000 == low && u / 0x1_0000_0000 == high);
    assert(bytes64(u) == bytes32(low) + bytes32(high));
    assert(bytes.subrange(at, at + 8) =~= bytes.subrange(at, at + 4) + bytes.subrange(
        at + 4,
        at + 8,
    ));
}

} // verus!
