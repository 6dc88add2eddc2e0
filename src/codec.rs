//! Fixed-width wire records.
//!
//! A Done record is one byte (0 or 1). A Continue record is the budget in
//! milliseconds as an 8-byte little-endian unsigned integer.
use vstd::prelude::*;

verus! {

/// Number of bytes of a Done record on the wire.
pub const DONE_LEN: usize = 1;

/// Number of bytes of a Continue record on the wire.
pub const CONTINUE_LEN: usize = 8;

/// The Done record: a worker has finished the current round.
#[derive(Clone, Copy, Debug, PartialEq, Eq, Structural)]
pub struct SyncMessage {
    pub is_done: bool,
}

/// The Continue record: every worker sleeps `budget` milliseconds, then
/// starts the next round.
#[derive(Clone, Copy, Debug, PartialEq, Eq, Structural)]
pub struct SyncMessageStart {
    pub budget: u64,
}

/// Why a record could not be read.
#[derive(Clone, Copy, Debug, PartialEq, Eq, Structural)]
pub enum CodecError {
    /// Too few bytes, or a byte value that the record does not allow.
    MalformedRecord,
}

/// The bytes of a Done record.
pub open spec fn done_bytes(m: SyncMessage) -> Seq<u8> {
    seq![if m.is_done { 1u8 } else { 0u8 }]
}

/// The byte of `v` that starts at bit `shift`.
pub open spec fn byte_of(v: u64, shift: u64) -> u8 {
    ((v >> shift) & 0xff) as u8
}

/// The little-endian bytes of `v`.
pub open spec fn le_bytes(v: u64) -> Seq<u8> {
    seq![
        byte_of(v, 0), byte_of(v, 8), byte_of(v, 16), byte_of(v, 24),
        byte_of(v, 32), byte_of(v, 40), byte_of(v, 48), byte_of(v, 56),
    ]
}

/// The unsigned integer whose little-endian bytes start `b`.
pub open spec fn le_value(b: Seq<u8>) -> u64
    recommends
        b.len() >= 8,
{
    (b[0] as u64) | ((b[1] as u64) << 8u64) | ((b[2] as u64) << 16u64) | ((b[3] as u64) << 24u64)
        | ((b[4] as u64) << 32u64) | ((b[5] as u64) << 40u64) | ((b[6] as u64) << 48u64)
        | ((b[7] as u64) << 56u64)
}

/// The bytes of a Continue record.
pub open spec fn continue_bytes(m: SyncMessageStart) -> Seq<u8> {
    le_bytes(m.budget)
}

/// What a Done record reads as from the bytes `b`.
pub open spec fn done_of(b: Seq<u8>) -> Result<SyncMessage, CodecError> {
    if b.len() < DONE_LEN || b[0] > 1 {
        Err(CodecError::MalformedRecord)
    } else {
        Ok(SyncMessage { is_done: b[0] == 1 })
    }
}

/// What a Continue record reads as from the bytes `b`.
pub open spec fn continue_of(b: Seq<u8>) -> Result<SyncMessageStart, CodecError> {
    if b.len() < CONTINUE_LEN {
        Err(CodecError::MalformedRecord)
    } else {
        Ok(SyncMessageStart { budget: le_value(b) })
    }
}

/// Encodes a Done record.
pub fn encode_done(m: SyncMessage) -> (r: Vec<u8>)
    ensures
        r@ == done_bytes(m),
        r@.len() == DONE_LEN,
{
    let b: u8 = if m.is_done { 1 } else { 0 };
    vec![b]
}

/// Decodes a Done record from the first byte of `b`.
pub fn decode_done(b: &[u8]) -> (r: Result<SyncMessage, CodecError>)
    ensures
        r == done_of(b@),
{
    if b.len() < DONE_LEN || b[0] > 1 {
        Err(CodecError::MalformedRecord)
    } else {
        Ok(SyncMessage { is_done: b[0] == 1 })
    }
}

/// Encodes a Continue record.
pub fn encode_continue(m: SyncMessageStart) -> (r: Vec<u8>)
    ensures
        r@ == continue_bytes(m),
        r@.len() == CONTINUE_LEN,
{
    let v = m.budget;
    vec![
        ((v >> 0u64) & 0xff) as u8,
        ((v >> 8u64) & 0xff) as u8,
        ((v >> 16u64) & 0xff) as u8,
        ((v >> 24u64) & 0xff) as u8,
        ((v >> 32u64) & 0xff) as u8,
        ((v >> 40u64) & 0xff) as u8,
        ((v >> 48u64) & 0xff) as u8,
        ((v >> 56u64) & 0xff) as u8,
    ]
}

/// Decodes a Continue record from the first eight bytes of `b`.
pub fn decode_continue(b: &[u8]) -> (r: Result<SyncMessageStart, CodecError>)
    ensures
        r == continue_of(b@),
{
    if b.len() < CONTINUE_LEN {
        Err(CodecError::MalformedRecord)
    } else {
        let v: u64 = (b[0] as u64) | ((b[1] as u64) << 8u64) | ((b[2] as u64) << 16u64)
            | ((b[3] as u64) << 24u64) | ((b[4] as u64) << 32u64) | ((b[5] as u64) << 40u64)
            | ((b[6] as u64) << 48u64) | ((b[7] as u64) << 56u64);
        Ok(SyncMessageStart { budget: v })
    }
}

/// Decoding the bytes of a Continue record gives back its budget, for every
/// budget.
pub proof fn lemma_continue_round_trip(m: SyncMessageStart)
    ensures
        continue_of(continue_bytes(m)) == Ok::<SyncMessageStart, CodecError>(m),
{
    let v = m.budget;
    let b = le_bytes(v);
    assert(b.len() == 8);
    assert(le_value(b) == v) by {
        let b0 = ((v >> 0u64) & 0xff) as u8;
        let b1 = ((v >> 8u64) & 0xff) as u8;
        let b2 = ((v >> 16u64) & 0xff) as u8;
        let b3 = ((v >> 24u64) & 0xff) as u8;
        let b4 = ((v >> 32u64) & 0xff) as u8;
        let b5 = ((v >> 40u64) & 0xff) as u8;
        let b6 = ((v >> 48u64) & 0xff) as u8;
        let b7 = ((v >> 56u64) & 0xff) as u8;
        assert((b0 as u64) | ((b1 as u64) << 8u64) | ((b2 as u64) << 16u64) | ((b3 as u64) << 24u64)
            | ((b4 as u64) << 32u64) | ((b5 as u64) << 40u64) | ((b6 as u64) << 48u64)
            | ((b7 as u64) << 56u64) == v) by (bit_vector)
            requires
                b0 == ((v >> 0u64) & 0xff) as u8,
                b1 == ((v >> 8u64) & 0xff) as u8,
                b2 == ((v >> 16u64) & 0xff) as u8,
                b3 == ((v >> 24u64) & 0xff) as u8,
                b4 == ((v >> 32u64) & 0xff) as u8,
                b5 == ((v >> 40u64) & 0xff) as u8,
                b6 == ((v >> 48u64) & 0xff) as u8,
                b7 == ((v >> 56u64) & 0xff) as u8,
        ;
    }
}

/// Encoding the budget read from eight bytes gives back those eight bytes.
pub proof fn lemma_continue_bytes_round_trip(b: Seq<u8>)
    requires
        b.len() == CONTINUE_LEN,
    ensures
        continue_of(b) matches Ok(m) && continue_bytes(m) == b,
{
    let v = le_value(b);
    let (b0, b1, b2, b3, b4, b5, b6, b7) = (b[0], b[1], b[2], b[3], b[4], b[5], b[6], b[7]);
    assert(v == (b0 as u64) | ((b1 as u64) << 8u64) | ((b2 as u64) << 16u64) | ((b3 as u64) << 24u64)
        | ((b4 as u64) << 32u64) | ((b5 as u64) << 40u64) | ((b6 as u64) << 48u64)
        | ((b7 as u64) << 56u64));
    assert(
        ((v >> 0u64) & 0xff) as u8 == b0 && ((v >> 8u64) & 0xff) as u8 == b1 && ((v >> 16u64) & 0xff) as u8 == b2
        && ((v >> 24u64) & 0xff) as u8 == b3 && ((v >> 32u64) & 0xff) as u8 == b4
        && ((v >> 40u64) & 0xff) as u8 == b5 && ((v >> 48u64) & 0xff) as u8 == b6
        && ((v >> 56u64) & 0xff) as u8 == b7
    ) by (bit_vector)
        requires
            v == (b0 as u64) | ((b1 as u64) << 8u64) | ((b2 as u64) << 16u64) | ((b3 as u64) << 24u64)
                | ((b4 as u64) << 32u64) | ((b5 as u64) << 40u64) | ((b6 as u64) << 48u64)
                | ((b7 as u64) << 56u64),
    ;
    assert(le_bytes(v) =~= b);
}

/// Decoding the bytes of a Done record gives it back.
pub proof fn lemma_done_round_trip(m: SyncMessage)
    ensures
        done_of(done_bytes(m)) == Ok::<SyncMessage, CodecError>(m),
{
}

} // verus!
