//! The transaction envelope: the kernel record that a transaction or reply
//! command carries.
use crate::error::BinderError;
use crate::parcel::Parcel;
use crate::protocol::TransactionFlag;
use crate::wire::{le_bytes_u32, le_bytes_u64, le_u32, le_u64, lemma_u32_round_trip, lemma_u64_round_trip, u32_from_le, u32_to_le, u64_from_le, u64_to_le};
use vstd::prelude::*;

verus! {

/// The size of an envelope on the wire.
pub const TRANSACTION_DATA_SIZE: usize = 64;

/// The target of a reply: the transaction that is being answered.
pub const REPLY_TARGET: u64 = 0xffff_ffff;

/// The envelope of one transaction or reply. The target is a handle number
/// (outgoing) or an address (incoming); `data` and `offsets` are the
/// addresses of a parcel's buffer and offset table.
#[derive(Debug, Clone, Copy, PartialEq, Eq, Structural)]
pub struct BinderTransactionData {
    pub target: u64,
    pub cookie: u64,
    pub code: u32,
    pub flags: u32,
    pub sender_pid: i32,
    pub sender_euid: u32,
    pub data_size: u64,
    pub offsets_size: u64,
    pub data: u64,
    pub offsets: u64,
}

/// The 64 bytes of `t` on the wire.
pub open spec fn tx_bytes(t: BinderTransactionData) -> Seq<u8> {
    le_bytes_u64(t.target) + le_bytes_u64(t.cookie) + le_bytes_u32(t.code) + le_bytes_u32(t.flags) + le_bytes_u32(
        t.sender_pid as u32,
    ) + le_bytes_u32(t.sender_euid) + le_bytes_u64(t.data_size) + le_bytes_u64(t.offsets_size) + le_bytes_u64(
        t.data,
    ) + le_bytes_u64(t.offsets)
}

/// The envelope that the first 64 bytes of `b` hold.
pub open spec fn tx_decode(b: Seq<u8>) -> BinderTransactionData {
    BinderTransactionData {
        target: le_u64(b.subrange(0, 8)),
        cookie: le_u64(b.subrange(8, 16)),
        code: le_u32(b.subrange(16, 20)),
        flags: le_u32(b.subrange(20, 24)),
        sender_pid: le_u32(b.subrange(24, 28)) as i32,
        sender_euid: le_u32(b.subrange(28, 32)),
        data_size: le_u64(b.subrange(32, 40)),
        offsets_size: le_u64(b.subrange(40, 48)),
        data: le_u64(b.subrange(48, 56)),
        offsets: le_u64(b.subrange(56, 64)),
    }
}

/// Decoding the bytes of an envelope gives it back.
pub proof fn lemma_tx_round_trip(t: BinderTransactionData)
    ensures
        tx_bytes(t).len() == 64,
        tx_decode(tx_bytes(t)) == t,
{
    let b = tx_bytes(t);
    lemma_u64_round_trip(t.target);
    lemma_u64_round_trip(t.cookie);
    lemma_u32_round_trip(t.code);
    lemma_u32_round_trip(t.flags);
    lemma_u32_round_trip(t.sender_pid as u32);
    lemma_u32_round_trip(t.sender_euid);
    lemma_u64_round_trip(t.data_size);
    lemma_u64_round_trip(t.offsets_size);
    lemma_u64_round_trip(t.data);
    lemma_u64_round_trip(t.offsets);
    assert(b.subrange(0, 8) =~= le_bytes_u64(t.target));
    assert(b.subrange(8, 16) =~= le_bytes_u64(t.cookie));
    assert(b.subrange(16, 20) =~= le_bytes_u32(t.code));
    assert(b.subrange(20, 24) =~= le_bytes_u32(t.flags));
    assert(b.subrange(24, 28) =~= le_bytes_u32(t.sender_pid as u32));
    assert(b.subrange(28, 32) =~= le_bytes_u32(t.sender_euid));
    assert(b.subrange(32, 40) =~= le_bytes_u64(t.data_size));
    assert(b.subrange(40, 48) =~= le_bytes_u64(t.offsets_size));
    assert(b.subrange(48, 56) =~= le_bytes_u64(t.data));
    assert(b.subrange(56, 64) =~= le_bytes_u64(t.offsets));
    let pid = t.sender_pid;
    assert((pid as u32) as i32 == pid) by (bit_vector);
}

impl BinderTransactionData {
    /// The envelope of a transaction to `handle` with `flags` as given; a
    /// caller that accepts file descriptors sets the accept-fds flag.
    /// `data_size` and `offsets_count`
    /// are the sizes of the parcel whose buffer and table lie at `data` and
    /// `offsets`.
    pub fn new_transaction(
        handle: u32,
        code: u32,
        flags: TransactionFlag,
        data_size: usize,
        offsets_count: usize,
        data: u64,
        offsets: u64,
    ) -> (r: Self)
        requires
            offsets_count <= 0x1fff_ffff_ffff_ffff,
        ensures
            r == (BinderTransactionData {
                target: handle as u64,
                cookie: 0,
                code,
                flags: flags.bits,
                sender_pid: 0,
                sender_euid: 0,
                data_size: data_size as u64,
                offsets_size: (offsets_count * 8) as u64,
                data,
                offsets,
            }),
    {
        BinderTransactionData {
            target: handle as u64,
            cookie: 0,
            code,
            flags: flags.bits,
            sender_pid: 0,
            sender_euid: 0,
            data_size: data_size as u64,
            offsets_size: offsets_count as u64 * 8,
            data,
            offsets,
        }
    }

    /// The envelope of a reply to the transaction that is being served.
    pub fn new_reply(
        flags: TransactionFlag,
        data_size: usize,
        offsets_count: usize,
        data: u64,
        offsets: u64,
    ) -> (r: Self)
        requires
            offsets_count <= 0x1fff_ffff_ffff_ffff,
        ensures
            r == (BinderTransactionData {
                target: REPLY_TARGET,
                cookie: 0,
                code: 0,
                flags: flags.bits,
                sender_pid: 0,
                sender_euid: 0,
                data_size: data_size as u64,
                offsets_size: (offsets_count * 8) as u64,
                data,
                offsets,
            }),
    {
        BinderTransactionData {
            target: REPLY_TARGET,
            cookie: 0,
            code: 0,
            flags: flags.bits,
            sender_pid: 0,
            sender_euid: 0,
            data_size: data_size as u64,
            offsets_size: offsets_count as u64 * 8,
            data,
            offsets,
        }
    }

    /// The target as a handle number: its low 32 bits.
    pub fn handle(&self) -> (r: u32)
        ensures
            r == (self.target & 0xffff_ffff) as u32,
    {
        (self.target & 0xffff_ffff) as u32
    }

    /// The number of entries in the offset table that the envelope describes.
    pub fn offsets_count(&self) -> (r: u64)
        ensures
            r == self.offsets_size / 8,
    {
        self.offsets_size / 8
    }

    /// The 64 bytes of this envelope on the wire.
    pub fn to_bytes(&self) -> (r: Vec<u8>)
        ensures
            r@ == tx_bytes(*self),
    {
        let mut out = u64_to_le(self.target);
        let mut b = u64_to_le(self.cookie);
        out.append(&mut b);
        let mut b = u32_to_le(self.code);
        out.append(&mut b);
        let mut b = u32_to_le(self.flags);
        out.append(&mut b);
        let mut b = u32_to_le(self.sender_pid as u32);
        out.append(&mut b);
        let mut b = u32_to_le(self.sender_euid);
        out.append(&mut b);
        let mut b = u64_to_le(self.data_size);
        out.append(&mut b);
        let mut b = u64_to_le(self.offsets_size);
        out.append(&mut b);
        let mut b = u64_to_le(self.data);
        out.append(&mut b);
        let mut b = u64_to_le(self.offsets);
        out.append(&mut b);
        out
    }

    /// The envelope that the 64 bytes of `b` from `at` hold.
    pub fn from_bytes(b: &[u8], at: usize) -> (r: Self)
        requires
            at + 64 <= b@.len(),
        ensures
            r == tx_decode(b@.subrange(at as int, at + 64)),
    {
        let ghost s = b@.subrange(at as int, at + 64);
        let len = b.len();
        assert(at + 64 <= len);
        assert(s.subrange(0, 8) =~= b@.subrange(at as int, at + 8));
        assert(s.subrange(8, 16) =~= b@.subrange(at + 8, at + 16));
        assert(s.subrange(16, 20) =~= b@.subrange(at + 16, at + 20));
        assert(s.subrange(20, 24) =~= b@.subrange(at + 20, at + 24));
        assert(s.subrange(24, 28) =~= b@.subrange(at + 24, at + 28));
        assert(s.subrange(28, 32) =~= b@.subrange(at + 28, at + 32));
        assert(s.subrange(32, 40) =~= b@.subrange(at + 32, at + 40));
        assert(s.subrange(40, 48) =~= b@.subrange(at + 40, at + 48));
        assert(s.subrange(48, 56) =~= b@.subrange(at + 48, at + 56));
        assert(s.subrange(56, 64) =~= b@.subrange(at + 56, at + 64));
        BinderTransactionData {
            target: u64_from_le(b, at),
            cookie: u64_from_le(b, at + 8),
            code: u32_from_le(b, at + 16),
            flags: u32_from_le(b, at + 20),
            sender_pid: u32_from_le(b, at + 24) as i32,
            sender_euid: u32_from_le(b, at + 28),
            data_size: u64_from_le(b, at + 32),
            offsets_size: u64_from_le(b, at + 40),
            data: u64_from_le(b, at + 48),
            offsets: u64_from_le(b, at + 56),
        }
    }
}

impl Parcel {
    /// Reads an envelope at the cursor.
    pub fn read_transaction_data(&mut self) -> (r: Result<BinderTransactionData, BinderError>)
        ensures
            r is Ok <==> old(self).can_read(64),
            r matches Ok(t) ==> t == tx_decode(old(self).peek(64)) && old(self).read_past(final(self), 64),
            r is Err ==> r == Err::<BinderTransactionData, BinderError>(BinderError::NotEnoughData)
                && *final(self) == *old(self),
    {
        let raw = match self.read_aligned_data(TRANSACTION_DATA_SIZE) {
            Ok(v) => v,
            Err(e) => return Err(e),
        };
        assert(raw@.subrange(0, 64) =~= raw@);
        Ok(BinderTransactionData::from_bytes(raw.as_slice(), 0))
    }

    /// Writes the 64 bytes of `data` at the cursor.
    pub fn write_transaction_data(&mut self, data: &BinderTransactionData) -> (r: Result<(), BinderError>)
        ensures
            r is Ok <==> old(self).can_write(64),
            r is Ok ==> old(self).written(final(self), tx_bytes(*data)),
            r is Err ==> r == Err::<(), BinderError>(BinderError::BadValue) && *final(self) == *old(self),
    {
        let b = data.to_bytes();
        self.write_aligned_data(b.as_slice())
    }
}

} // verus!
