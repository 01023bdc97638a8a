//! The vesting record, its fixed binary layout, and the slot that stores it.
//!
//! A record takes the first [`RECORD_LEN`] bytes of its storage slot:
//!
//! | offset | size | field                            |
//! |--------|------|----------------------------------|
//! | 0      | 32   | receiver                         |
//! | 32     | 32   | funder                           |
//! | 64     | 8    | amount, little-endian            |
//! | 72     | 8    | start time, little-endian signed |
//! | 80     | 8    | end time, little-endian signed   |
//!
//! The record holds no flag. A slot whose bytes are all zero is empty. Whether
//! the amount of a record has been released is kept in the slot behind the
//! record: the byte at [`RECORD_LEN`] is [`MARKER_RELEASED`] once it has. The
//! marker is not zero, so a slot that once held a record never reads as empty
//! again. A slot is given [`SLOT_LEN`] bytes; one that ends with the record is
//! made one byte longer when the amount is released.

use crate::endian::{
    i64_from_le, i64_le, lemma_i64_from_le_inverse, lemma_i64_le_inverse,
    lemma_u64_from_le_inverse, lemma_u64_le_inverse, lemma_u64_le_of_positive, read_i64, read_u64,
    u64_from_le, u64_le, write_i64, write_u64,
};
use crate::error::CodecError;
use vstd::prelude::*;

verus! {

/// The 32-byte name of an account or of a program.
pub type Identity = [u8; 32];

/// The number of bytes that a record takes in its slot.
pub const RECORD_LEN: usize = 88;

/// The number of bytes that a slot is given: the record, the release marker
/// behind it, and eight bytes to spare.
pub const SLOT_LEN: usize = 97;

/// The byte behind the record of a slot whose amount has been released.
pub const MARKER_RELEASED: u8 = 1;

/// The persisted schedule of one vesting.
#[derive(Clone, Copy, Debug, PartialEq, Eq)]
pub struct VestingState {
    /// Whether the record is present. Every record read from a buffer is;
    /// the layout has no byte for this flag.
    pub is_initialized: bool,
    /// Who may claim the amount.
    pub receiver: Identity,
    /// Who deposited the amount.
    pub funder: Identity,
    /// The amount locked.
    pub amount: u64,
    /// When the schedule was created.
    pub vesting_start: i64,
    /// The time after which the amount may be claimed.
    pub vesting_end: i64,
}

/// The mathematical model of a [`VestingState`].
pub ghost struct VestingRecord {
    pub active: bool,
    pub receiver: Seq<u8>,
    pub funder: Seq<u8>,
    pub amount: u64,
    pub start_time: i64,
    pub end_time: i64,
}

impl View for VestingState {
    type V = VestingRecord;

    open spec fn view(&self) -> VestingRecord {
        VestingRecord {
            active: self.is_initialized,
            receiver: self.receiver@,
            funder: self.funder@,
            amount: self.amount,
            start_time: self.vesting_start,
            end_time: self.vesting_end,
        }
    }
}

impl VestingRecord {
    /// Both parties are named by 32 bytes, as every record held in a
    /// [`VestingState`] is.
    pub open spec fn well_formed(self) -> bool {
        self.receiver.len() == 32 && self.funder.len() == 32
    }

    /// The record is present, locks something and unlocks after it starts.
    pub open spec fn valid(self) -> bool {
        self.well_formed() && self.active && self.amount > 0 && self.end_time > self.start_time
    }

    /// The same record, present.
    pub open spec fn present(self) -> VestingRecord {
        VestingRecord { active: true, ..self }
    }
}

/// The bytes that stand for `r` in a slot: its five fields, without its flag.
pub open spec fn encode(r: VestingRecord) -> Seq<u8> {
    r.receiver + r.funder + u64_le(r.amount) + i64_le(r.start_time) + i64_le(r.end_time)
}

/// The record that the first [`RECORD_LEN`] bytes of `b` stand for. A record
/// that is read is present.
pub open spec fn decode(b: Seq<u8>) -> VestingRecord
    recommends
        b.len() >= RECORD_LEN,
{
    VestingRecord {
        active: true,
        receiver: b.subrange(0, 32),
        funder: b.subrange(32, 64),
        amount: u64_from_le(b.skip(64)),
        start_time: i64_from_le(b.skip(72)),
        end_time: i64_from_le(b.skip(80)),
    }
}

/// Every byte of `b` is zero: the slot has never held a record.
pub open spec fn blank(b: Seq<u8>) -> bool {
    forall|i: int| 0 <= i < b.len() ==> b[i] == 0
}

/// The slot that stores `data` carries the release marker behind its record.
pub open spec fn released(data: Seq<u8>) -> bool {
    data.len() > RECORD_LEN && data[RECORD_LEN as int] == MARKER_RELEASED
}

/// What a slot that stored `data` stores once its amount has been released:
/// the release marker stands behind the record, and nothing else has changed.
pub open spec fn mark_released(data: Seq<u8>) -> Seq<u8>
    recommends
        data.len() >= RECORD_LEN,
{
    if data.len() > RECORD_LEN {
        data.update(RECORD_LEN as int, MARKER_RELEASED)
    } else {
        data.push(MARKER_RELEASED)
    }
}

/// Encoding fills the fixed layout, and decoding gives the record back as a
/// present one, whatever follows it in the slot.
pub proof fn lemma_decode_encode(r: VestingRecord, tail: Seq<u8>)
    requires
        r.well_formed(),
    ensures
        encode(r).len() == RECORD_LEN,
        decode(encode(r) + tail) == r.present(),
        r.active ==> decode(encode(r) + tail) == r,
{
    let b = encode(r) + tail;
    lemma_u64_le_inverse(r.amount);
    lemma_i64_le_inverse(r.start_time);
    lemma_i64_le_inverse(r.end_time);
    assert(b.subrange(0, 32) =~= r.receiver);
    assert(b.subrange(32, 64) =~= r.funder);
    assert(b.skip(64).take(8) =~= u64_le(r.amount));
    assert(b.skip(72).take(8) =~= i64_le(r.start_time));
    assert(b.skip(80).take(8) =~= i64_le(r.end_time));
    assert(u64_le(r.amount).take(8) =~= u64_le(r.amount));
    assert(i64_le(r.start_time).take(8) =~= i64_le(r.start_time));
    assert(i64_le(r.end_time).take(8) =~= i64_le(r.end_time));
}

/// Decoding loses nothing of the layout: encoding what was decoded gives the
/// first [`RECORD_LEN`] bytes back, whatever they are.
pub proof fn lemma_encode_decode(b: Seq<u8>)
    requires
        b.len() >= RECORD_LEN,
    ensures
        decode(b).well_formed(),
        encode(decode(b)) == b.take(RECORD_LEN as int),
{
    let r = decode(b);
    let amount = b.skip(64).take(8);
    let start = b.skip(72).take(8);
    let end = b.skip(80).take(8);
    assert(amount.take(8) =~= amount);
    assert(start.take(8) =~= start);
    assert(end.take(8) =~= end);
    lemma_u64_from_le_inverse(amount);
    lemma_i64_from_le_inverse(start);
    lemma_i64_from_le_inverse(end);
    assert(u64_le(r.amount) == amount);
    assert(i64_le(r.start_time) == start);
    assert(i64_le(r.end_time) == end);
    assert(encode(r) =~= b.take(RECORD_LEN as int));
}

/// What is decoded depends on the first [`RECORD_LEN`] bytes alone.
pub proof fn lemma_decode_reads_the_record_only(a: Seq<u8>, b: Seq<u8>)
    requires
        a.len() >= RECORD_LEN,
        b.len() >= RECORD_LEN,
        a.take(RECORD_LEN as int) == b.take(RECORD_LEN as int),
    ensures
        decode(a) == decode(b),
{
    lemma_encode_decode(a);
    lemma_encode_decode(b);
    lemma_decode_encode(decode(a), Seq::empty());
    lemma_decode_encode(decode(b), Seq::empty());
    assert(encode(decode(a)) + Seq::<u8>::empty() =~= encode(decode(a)));
    assert(encode(decode(b)) + Seq::<u8>::empty() =~= encode(decode(b)));
}

/// The encoding of a record that locks something has a byte that is not
/// zero, among those of the amount: a slot that holds such a record is not
/// empty.
pub proof fn lemma_locked_amount_shows(r: VestingRecord, tail: Seq<u8>)
    requires
        r.well_formed(),
        r.amount > 0,
    ensures
        exists|i: int| 64 <= i < 72 && encode(r)[i] != 0,
        !blank(encode(r) + tail),
{
    lemma_u64_le_inverse(r.amount);
    lemma_i64_le_inverse(r.start_time);
    lemma_i64_le_inverse(r.end_time);
    lemma_u64_le_of_positive(r.amount);
    let k = choose|k: int| 0 <= k < 8 && u64_le(r.amount)[k] != 0;
    assert(encode(r)[64 + k] == u64_le(r.amount)[k]);
    assert((encode(r) + tail)[64 + k] != 0);
}

/// Unpacking what was packed gives the same state, whatever follows the
/// record in the buffer.
pub proof fn lemma_round_trip(packed: VestingState, tail: Seq<u8>, unpacked: VestingState)
    requires
        packed.is_initialized,
        unpacked@ == decode(encode(packed@) + tail),
    ensures
        unpacked == packed,
{
    lemma_decode_encode(packed@, tail);
    lemma_view_injective(unpacked, packed);
}

/// Two states with the same model are the same state.
pub proof fn lemma_view_injective(s: VestingState, t: VestingState)
    requires
        s@ == t@,
    ensures
        s == t,
{
    assert(s.receiver =~= t.receiver);
    assert(s.funder =~= t.funder);
}

/// Tells whether every byte of `data` is zero.
pub fn is_blank(data: &[u8]) -> (r: bool)
    ensures
        r == blank(data@),
{
    let mut i: usize = 0;
    while i < data.len()
        invariant
            i <= data.len(),
            forall|j: int| 0 <= j < i ==> data@[j] == 0,
        decreases data.len() - i,
    {
        if data[i] != 0 {
            return false;
        }
        i = i + 1;
    }
    true
}

/// Tells whether the slot that stores `data` carries the release marker.
pub fn is_released(data: &[u8]) -> (r: bool)
    ensures
        r == released(data@),
{
    data.len() > RECORD_LEN && data[RECORD_LEN] == MARKER_RELEASED
}

/// The bytes of `bytes` as a vector.
pub(crate) fn to_vec(bytes: &[u8]) -> (v: Vec<u8>)
    ensures
        v@ == bytes@,
{
    let mut v: Vec<u8> = Vec::new();
    v.extend_from_slice(bytes);
    v
}

/// Copies `src` into `dst` from `at` on.
fn write_bytes(dst: &mut [u8], at: usize, src: &[u8])
    requires
        at + src.len() <= old(dst).len(),
    ensures
        final(dst)@.len() == old(dst)@.len(),
        final(dst)@ == old(dst)@.take(at as int) + src@ + old(dst)@.skip(at + src.len()),
{
    let mut i: usize = 0;
    while i < src.len()
        invariant
            i <= src.len(),
            at + src.len() <= old(dst).len(),
            dst.len() == old(dst).len(),
            dst@ == old(dst)@.take(at as int) + src@.take(i as int) + old(dst)@.skip(at + i),
        decreases src.len() - i,
    {
        dst[at + i] = src[i];
        proof {
            assert(dst@ =~= old(dst)@.take(at as int) + src@.take(i + 1) + old(dst)@.skip(
                at + i + 1,
            ));
        }
        i = i + 1;
    }
    proof {
        assert(src@.take(src.len() as int) =~= src@);
    }
}

/// Reads the identity stored in the 32 bytes of `src` from `at` on.
fn read_identity(src: &[u8], at: usize) -> (id: Identity)
    requires
        at + 32 <= src.len(),
    ensures
        id@ == src@.subrange(at as int, at + 32),
{
    let mut id: Identity = [0u8; 32];
    let mut i: usize = 0;
    while i < 32
        invariant
            i <= 32,
            at + 32 <= src.len(),
            forall|j: int| 0 <= j < i ==> id@[j] == src@[at + j],
        decreases 32 - i,
    {
        id[i] = src[at + i];
        i = i + 1;
    }
    proof {
        assert(id@ =~= src@.subrange(at as int, at + 32));
    }
    id
}

impl VestingState {
    /// The number of bytes that a slot is given.
    pub const LEN: usize = SLOT_LEN;

    /// Reads the record that the first [`RECORD_LEN`] bytes of `src` hold.
    /// Fails exactly when `src` is shorter than that.
    pub fn unpack_from_slice(src: &[u8]) -> (r: Result<VestingState, CodecError>)
        ensures
            r is Err <==> src@.len() < RECORD_LEN,
            r is Err ==> r == Err::<VestingState, CodecError>(CodecError::Truncated),
            r is Ok ==> r->Ok_0@ == decode(src@),
    {
        if src.len() < RECORD_LEN {
            return Err(CodecError::Truncated);
        }
        Ok(
            VestingState {
                is_initialized: true,
                receiver: read_identity(src, 0),
                funder: read_identity(src, 32),
                amount: read_u64(src, 64),
                vesting_start: read_i64(src, 72),
                vesting_end: read_i64(src, 80),
            },
        )
    }

    /// Writes the five fields over the first [`RECORD_LEN`] bytes of `dst`
    /// and leaves the rest as it was. Fails exactly when `dst` is shorter
    /// than that, and then writes nothing.
    pub fn pack_into_slice(&self, dst: &mut [u8]) -> (r: Result<(), CodecError>)
        ensures
            r is Err <==> old(dst)@.len() < RECORD_LEN,
            r is Err ==> r == Err::<(), CodecError>(CodecError::Truncated) && final(dst)@ == old(
                dst,
            )@,
            r is Ok ==> final(dst)@ == encode(self@) + old(dst)@.skip(RECORD_LEN as int),
    {
        if dst.len() < RECORD_LEN {
            return Err(CodecError::Truncated);
        }
        write_bytes(dst, 0, &self.receiver);
        write_bytes(dst, 32, &self.funder);
        write_u64(dst, 64, self.amount);
        write_i64(dst, 72, self.vesting_start);
        write_i64(dst, 80, self.vesting_end);
        proof {
            lemma_u64_le_inverse(self.amount);
            lemma_i64_le_inverse(self.vesting_start);
            lemma_i64_le_inverse(self.vesting_end);
            assert(dst@ =~= encode(self@) + old(dst)@.skip(RECORD_LEN as int));
        }
        Ok(())
    }

    /// Tells whether the record is present.
    pub fn is_initialized(&self) -> (r: bool)
        ensures
            r == self@.active,
    {
        self.is_initialized
    }
}

} // verus!
