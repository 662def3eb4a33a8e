//! The parcel: a byte buffer with a cursor and a table of the offsets at
//! which flat objects are embedded.
use crate::error::BinderError;
use crate::wire::{
    le_bytes_u16, le_bytes_u32, le_bytes_u64, le_u16, le_u32, le_u64, pad_size, padded, u16_from_le, u16_to_le,
    u32_from_le, u32_to_le, u64_from_le, u64_to_le, zeros,
};
use vstd::prelude::*;
use vstd::slice::slice_to_vec;

pub mod blocks;
pub mod objects;
pub mod strings;

verus! {

/// `data` with `chunk` written at `pos`; the bytes between the end of `data`
/// and `pos`, if any, are zero.
pub open spec fn overwrite(data: Seq<u8>, pos: nat, chunk: Seq<u8>) -> Seq<u8> {
    let end = pos + chunk.len();
    let len = if data.len() > end {
        data.len()
    } else {
        end
    };
    Seq::new(
        len as nat,
        |j: int|
            if pos <= j < end {
                chunk[j - pos]
            } else if j < data.len() {
                data[j]
            } else {
                0u8
            },
    )
}

/// `bytes` followed by the zero bytes that bring its length to a multiple of four.
pub open spec fn pad_bytes(bytes: Seq<u8>) -> Seq<u8> {
    bytes + zeros((padded(bytes.len()) - bytes.len()) as nat)
}

/// The window of `overwrite(data, pos, chunk)` at `pos` holds `chunk`.
pub proof fn lemma_overwrite_window(data: Seq<u8>, pos: nat, chunk: Seq<u8>)
    ensures
        overwrite(data, pos, chunk).len() >= pos + chunk.len(),
        overwrite(data, pos, chunk).subrange(pos as int, (pos + chunk.len()) as int) == chunk,
{
    assert(overwrite(data, pos, chunk).subrange(pos as int, (pos + chunk.len()) as int) =~= chunk);
}

/// Writing `a` and then, right after it, `b` is writing `a + b`.
pub proof fn lemma_overwrite_concat(data: Seq<u8>, pos: nat, a: Seq<u8>, b: Seq<u8>)
    ensures
        overwrite(overwrite(data, pos, a), pos + a.len(), b) == overwrite(data, pos, a + b),
{
    assert(overwrite(overwrite(data, pos, a), pos + a.len(), b) =~= overwrite(data, pos, a + b));
}

/// A binary message: bytes, a cursor, and the ordered table of the offsets at
/// which flat objects are embedded.
#[derive(Debug)]
pub struct Parcel {
    data: Vec<u8>,
    objects: Vec<usize>,
    pos: usize,
    next_object_hint: usize,
    request_header_present: bool,
    work_source_request_header_pos: usize,
}

impl Parcel {
    /// The bytes of the buffer.
    pub closed spec fn bytes(&self) -> Seq<u8> {
        self.data@
    }

    /// The offset table.
    pub closed spec fn offsets_seq(&self) -> Seq<usize> {
        self.objects@
    }

    /// The cursor.
    pub closed spec fn cursor(&self) -> nat {
        self.pos as nat
    }

    /// The index into the offset table at which the next object lookup starts.
    pub closed spec fn hint(&self) -> nat {
        self.next_object_hint as nat
    }

    /// Where the work-source word of an interface token stands, once one was written.
    pub closed spec fn work_source_pos(&self) -> Option<nat> {
        if self.request_header_present {
            Some(self.work_source_request_header_pos as nat)
        } else {
            None
        }
    }

    /// The size of the content: the buffer, or the cursor where that is further.
    pub open spec fn size(&self) -> nat {
        if self.bytes().len() > self.cursor() {
            self.bytes().len()
        } else {
            self.cursor()
        }
    }

    /// The number of bytes between the cursor and the end of the buffer.
    pub open spec fn avail(&self) -> nat {
        if self.bytes().len() > self.cursor() {
            (self.bytes().len() - self.cursor()) as nat
        } else {
            0
        }
    }

    /// Whether `n` bytes, padded, can be read at the cursor.
    pub open spec fn can_read(&self, n: nat) -> bool {
        self.cursor() + padded(n) <= self.bytes().len()
    }

    /// Whether `n` bytes, padded, can be written at the cursor without the
    /// cursor leaving the range of `usize`.
    pub open spec fn can_write(&self, n: nat) -> bool {
        self.cursor() + padded(n) <= usize::MAX
    }

    /// `self` after `bytes`, padded, were written at the cursor.
    pub open spec fn written(&self, next: &Parcel, bytes: Seq<u8>) -> bool {
        &&& next.bytes() == overwrite(self.bytes(), self.cursor(), pad_bytes(bytes))
        &&& next.cursor() == self.cursor() + padded(bytes.len())
        &&& next.offsets_seq() == self.offsets_seq()
        &&& next.hint() == self.hint()
        &&& next.work_source_pos() == self.work_source_pos()
    }

    /// `next` is `self` with only the cursor moved, to `pos`.
    pub open spec fn moved(&self, next: &Parcel, pos: nat) -> bool {
        &&& next.bytes() == self.bytes()
        &&& next.cursor() == pos
        &&& next.offsets_seq() == self.offsets_seq()
        &&& next.hint() == self.hint()
        &&& next.work_source_pos() == self.work_source_pos()
    }

    /// `self` and `other` have the same offset table, lookup hint and header record.
    pub(crate) closed spec fn same_tables(&self, other: &Parcel) -> bool {
        &&& self.objects == other.objects
        &&& self.next_object_hint == other.next_object_hint
        &&& self.request_header_present == other.request_header_present
        &&& self.work_source_request_header_pos == other.work_source_request_header_pos
    }

    /// An empty parcel.
    pub fn new() -> (r: Self)
        ensures
            r.bytes().len() == 0,
            r.offsets_seq().len() == 0,
            r.cursor() == 0,
            r.hint() == 0,
            r.work_source_pos() is None,
            r.objects_ordered(),
    {
        Parcel::with_capacity(256)
    }

    /// An empty parcel whose buffer has room for `capacity` bytes.
    pub fn with_capacity(capacity: usize) -> (r: Self)
        ensures
            r.bytes().len() == 0,
            r.offsets_seq().len() == 0,
            r.cursor() == 0,
            r.hint() == 0,
            r.work_source_pos() is None,
            r.objects_ordered(),
    {
        Parcel {
            data: Vec::with_capacity(capacity),
            objects: Vec::new(),
            pos: 0,
            next_object_hint: 0,
            request_header_present: false,
            work_source_request_header_pos: 0,
        }
    }

    /// A parcel that holds `data`, with the cursor at its start and no objects.
    pub fn from_vec(data: Vec<u8>) -> (r: Self)
        ensures
            r.bytes() == data@,
            r.offsets_seq().len() == 0,
            r.cursor() == 0,
            r.hint() == 0,
            r.work_source_pos() is None,
            r.objects_ordered(),
    {
        Parcel {
            data,
            objects: Vec::new(),
            pos: 0,
            next_object_hint: 0,
            request_header_present: false,
            work_source_request_header_pos: 0,
        }
    }

    /// A parcel that holds a copy of `data`, with the cursor at its start and no objects.
    pub fn from_slice(data: &[u8]) -> (r: Self)
        ensures
            r.bytes() == data@,
            r.offsets_seq().len() == 0,
            r.cursor() == 0,
            r.hint() == 0,
            r.work_source_pos() is None,
    {
        Parcel::from_vec(slice_to_vec(data))
    }

    /// A parcel over a buffer that the driver delivered, with its offset table.
    pub fn from_ipc_parts(data: Vec<u8>, objects: Vec<usize>) -> (r: Self)
        ensures
            r.bytes() == data@,
            r.offsets_seq() == objects@,
            r.cursor() == 0,
            r.hint() == 0,
            r.work_source_pos() is None,
    {
        Parcel {
            data,
            objects,
            pos: 0,
            next_object_hint: 0,
            request_header_present: false,
            work_source_request_header_pos: 0,
        }
    }

    /// A parcel that holds copies of `data` and of the offset table `offsets`.
    pub fn from_data_and_offsets(data: &[u8], offsets: &[usize]) -> (r: Self)
        ensures
            r.bytes() == data@,
            r.offsets_seq() == offsets@,
            r.cursor() == 0,
            r.hint() == 0,
            r.work_source_pos() is None,
    {
        Parcel::from_ipc_parts(slice_to_vec(data), slice_to_vec(offsets))
    }

    /// Writes `bytes` at the cursor, followed by zero bytes up to the next
    /// multiple of four, and moves the cursor past them. Fails with `BadValue`,
    /// changing nothing, where the cursor would leave the range of `usize`.
    pub fn write_aligned_data(&mut self, bytes: &[u8]) -> (r: Result<(), BinderError>)
        ensures
            r is Ok <==> old(self).can_write(bytes@.len() as nat),
            r is Ok ==> old(self).written(final(self), bytes@),
            r is Err ==> r == Err::<(), BinderError>(BinderError::BadValue) && *final(self) == *old(self),
    {
        let n = bytes.len();
        let aligned = match pad_size(n) {
            Some(a) => a,
            None => return Err(BinderError::BadValue),
        };
        if self.pos > usize::MAX - aligned {
            return Err(BinderError::BadValue);
        }
        self.put(bytes, aligned);
        Ok(())
    }

    /// Writes `bytes` at the cursor followed by zero bytes up to `total`, and
    /// moves the cursor past them.
    pub(crate) fn put(&mut self, bytes: &[u8], total: usize)
        requires
            bytes@.len() <= total,
            old(self).cursor() + total <= usize::MAX,
        ensures
            final(self).bytes() == overwrite(
                old(self).bytes(),
                old(self).cursor(),
                bytes@ + zeros((total - bytes@.len()) as nat),
            ),
            final(self).cursor() == old(self).cursor() + total,
            final(self).same_tables(old(self)),
    {
        let n = bytes.len();
        let aligned = total;
        let pos = self.pos;
        let ghost old_data = self.data@;
        let ghost chunk = bytes@ + zeros((total - bytes@.len()) as nat);
        while self.data.len() < pos
            invariant
                pos == self.pos,
                self.same_tables(old(self)),
                old_data.len() <= self.data@.len(),
                self.data@.len() > old_data.len() ==> self.data@.len() <= pos,
                forall|j: int| 0 <= j < self.data@.len() ==> self.data@[j] == (if j < old_data.len() {
                    old_data[j]
                } else {
                    0u8
                }),
            decreases pos - self.data@.len(),
        {
            self.data.push(0u8);
        }
        let mut i: usize = 0;
        while i < aligned
            invariant
                pos == self.pos,
                self.same_tables(old(self)),
                pos + aligned <= usize::MAX,
                n == bytes@.len(),
                n <= aligned,
                chunk == bytes@ + zeros((total - bytes@.len()) as nat),
                chunk.len() == aligned,
                i <= aligned,
                self.data@.len() == if old_data.len() > pos + i {
                    old_data.len() as int
                } else {
                    pos + i
                },
                forall|j: int|
                    0 <= j < self.data@.len() ==> self.data@[j] == (if pos <= j < pos + i {
                        chunk[j - pos]
                    } else if j < old_data.len() {
                        old_data[j]
                    } else {
                        0u8
                    }),
            decreases aligned - i,
        {
            let b: u8 = if i < n {
                bytes[i]
            } else {
                0u8
            };
            if pos + i < self.data.len() {
                self.data.set(pos + i, b);
            } else {
                self.data.push(b);
            }
            i = i + 1;
        }
        self.pos = pos + aligned;
        assert(self.data@ =~= overwrite(old_data, pos as nat, chunk));
    }

    /// The `n` bytes at the cursor.
    pub open spec fn peek(&self, n: nat) -> Seq<u8> {
        self.bytes().subrange(self.cursor() as int, (self.cursor() + n) as int)
    }

    /// `next` is `self` after a read of `n` bytes, padded.
    pub open spec fn read_past(&self, next: &Parcel, n: nat) -> bool {
        self.moved(next, self.cursor() + padded(n))
    }

    /// Reads `len` bytes at the cursor and moves the cursor past them and
    /// their padding. Fails with `NotEnoughData`, changing nothing, where the
    /// buffer ends first.
    pub fn read_aligned_data(&mut self, len: usize) -> (r: Result<Vec<u8>, BinderError>)
        ensures
            r is Ok <==> old(self).can_read(len as nat),
            r matches Ok(v) ==> v@ == old(self).peek(len as nat) && old(self).read_past(final(self), len as nat),
            r is Err ==> r == Err::<Vec<u8>, BinderError>(BinderError::NotEnoughData) && *final(self) == *old(self),
    {
        let dlen = self.data.len();
        let aligned = match pad_size(len) {
            Some(a) => a,
            None => return Err(BinderError::NotEnoughData),
        };
        if self.pos > dlen || aligned > dlen - self.pos {
            return Err(BinderError::NotEnoughData);
        }
        let pos = self.pos;
        let mut out: Vec<u8> = Vec::with_capacity(len);
        let mut i: usize = 0;
        while i < len
            invariant
                pos == self.pos,
                pos + padded(len as nat) <= self.data@.len(),
                dlen == self.data@.len(),
                len <= padded(len as nat),
                i <= len,
                out@ == self.data@.subrange(pos as int, pos + i),
            decreases len - i,
        {
            out.push(self.data[pos + i]);
            i = i + 1;
            assert(out@ =~= self.data@.subrange(pos as int, pos + i));
        }
        self.pos = pos + aligned;
        Ok(out)
    }

    /// Reads a little-endian `u32` at the cursor.
    pub fn read_u32(&mut self) -> (r: Result<u32, BinderError>)
        ensures
            r is Ok <==> old(self).can_read(4),
            r matches Ok(v) ==> v == le_u32(old(self).peek(4)) && old(self).read_past(final(self), 4),
            r is Err ==> r == Err::<u32, BinderError>(BinderError::NotEnoughData) && *final(self) == *old(self),
    {
        let dlen = self.data.len();
        if self.pos > dlen || dlen - self.pos < 4 {
            return Err(BinderError::NotEnoughData);
        }
        let v = u32_from_le(self.data.as_slice(), self.pos);
        self.pos = self.pos + 4;
        Ok(v)
    }

    /// Reads a little-endian `i32` at the cursor.
    pub fn read_i32(&mut self) -> (r: Result<i32, BinderError>)
        ensures
            r is Ok <==> old(self).can_read(4),
            r matches Ok(v) ==> v == le_u32(old(self).peek(4)) as i32 && old(self).read_past(final(self), 4),
            r is Err ==> r == Err::<i32, BinderError>(BinderError::NotEnoughData) && *final(self) == *old(self),
    {
        match self.read_u32() {
            Ok(v) => Ok(v as i32),
            Err(e) => Err(e),
        }
    }

    /// Reads a little-endian `u64` at the cursor.
    pub fn read_u64(&mut self) -> (r: Result<u64, BinderError>)
        ensures
            r is Ok <==> old(self).can_read(8),
            r matches Ok(v) ==> v == le_u64(old(self).peek(8)) && old(self).read_past(final(self), 8),
            r is Err ==> r == Err::<u64, BinderError>(BinderError::NotEnoughData) && *final(self) == *old(self),
    {
        let dlen = self.data.len();
        if self.pos > dlen || dlen - self.pos < 8 {
            return Err(BinderError::NotEnoughData);
        }
        let v = u64_from_le(self.data.as_slice(), self.pos);
        self.pos = self.pos + 8;
        Ok(v)
    }

    /// Reads a pointer-sized value, eight bytes little-endian, at the cursor.
    pub fn read_usize(&mut self) -> (r: Result<u64, BinderError>)
        ensures
            r is Ok <==> old(self).can_read(8),
            r matches Ok(v) ==> v == le_u64(old(self).peek(8)) && old(self).read_past(final(self), 8),
            r is Err ==> r == Err::<u64, BinderError>(BinderError::NotEnoughData) && *final(self) == *old(self),
    {
        self.read_u64()
    }

    /// Reads an address, eight bytes little-endian, at the cursor.
    pub fn read_pointer(&mut self) -> (r: Result<u64, BinderError>)
        ensures
            r is Ok <==> old(self).can_read(8),
            r matches Ok(v) ==> v == le_u64(old(self).peek(8)) && old(self).read_past(final(self), 8),
            r is Err ==> r == Err::<u64, BinderError>(BinderError::NotEnoughData) && *final(self) == *old(self),
    {
        self.read_u64()
    }

    /// Reads a little-endian `u16` at the cursor, which takes a padded word.
    pub fn read_u16(&mut self) -> (r: Result<u16, BinderError>)
        ensures
            r is Ok <==> old(self).can_read(2),
            r matches Ok(v) ==> v == le_u16(old(self).peek(2)) && old(self).read_past(final(self), 2),
            r is Err ==> r == Err::<u16, BinderError>(BinderError::NotEnoughData) && *final(self) == *old(self),
    {
        let dlen = self.data.len();
        if self.pos > dlen || dlen - self.pos < 4 {
            return Err(BinderError::NotEnoughData);
        }
        let v = u16_from_le(self.data.as_slice(), self.pos);
        self.pos = self.pos + 4;
        Ok(v)
    }

    /// Reads a byte at the cursor, which takes a padded word.
    pub fn read_u8(&mut self) -> (r: Result<u8, BinderError>)
        ensures
            r is Ok <==> old(self).can_read(1),
            r matches Ok(v) ==> v == old(self).bytes()[old(self).cursor() as int] && old(self).read_past(final(self), 1),
            r is Err ==> r == Err::<u8, BinderError>(BinderError::NotEnoughData) && *final(self) == *old(self),
    {
        let dlen = self.data.len();
        if self.pos > dlen || dlen - self.pos < 4 {
            return Err(BinderError::NotEnoughData);
        }
        let v = self.data[self.pos];
        self.pos = self.pos + 4;
        Ok(v)
    }

    /// Reads a boolean, a word that is non-zero for `true`, at the cursor.
    pub fn read_bool(&mut self) -> (r: Result<bool, BinderError>)
        ensures
            r is Ok <==> old(self).can_read(4),
            r matches Ok(v) ==> v == (le_u32(old(self).peek(4)) != 0) && old(self).read_past(final(self), 4),
            r is Err ==> r == Err::<bool, BinderError>(BinderError::NotEnoughData) && *final(self) == *old(self),
    {
        match self.read_u32() {
            Ok(v) => Ok(v != 0),
            Err(e) => Err(e),
        }
    }

    /// Writes `v` as four little-endian bytes at the cursor.
    pub fn write_u32(&mut self, v: u32) -> (r: Result<(), BinderError>)
        ensures
            r is Ok <==> old(self).can_write(4),
            r is Ok ==> old(self).written(final(self), le_bytes_u32(v)),
            r is Err ==> r == Err::<(), BinderError>(BinderError::BadValue) && *final(self) == *old(self),
    {
        let b = u32_to_le(v);
        self.write_aligned_data(b.as_slice())
    }

    /// Writes `v` as four little-endian bytes at the cursor.
    pub fn write_i32(&mut self, v: i32) -> (r: Result<(), BinderError>)
        ensures
            r is Ok <==> old(self).can_write(4),
            r is Ok ==> old(self).written(final(self), le_bytes_u32(v as u32)),
            r is Err ==> r == Err::<(), BinderError>(BinderError::BadValue) && *final(self) == *old(self),
    {
        self.write_u32(v as u32)
    }

    /// Writes `v` as eight little-endian bytes at the cursor.
    pub fn write_u64(&mut self, v: u64) -> (r: Result<(), BinderError>)
        ensures
            r is Ok <==> old(self).can_write(8),
            r is Ok ==> old(self).written(final(self), le_bytes_u64(v)),
            r is Err ==> r == Err::<(), BinderError>(BinderError::BadValue) && *final(self) == *old(self),
    {
        let b = u64_to_le(v);
        self.write_aligned_data(b.as_slice())
    }

    /// Writes a pointer-sized value as eight little-endian bytes at the cursor.
    pub fn write_usize(&mut self, v: u64) -> (r: Result<(), BinderError>)
        ensures
            r is Ok <==> old(self).can_write(8),
            r is Ok ==> old(self).written(final(self), le_bytes_u64(v)),
            r is Err ==> r == Err::<(), BinderError>(BinderError::BadValue) && *final(self) == *old(self),
    {
        self.write_u64(v)
    }

    /// Writes `v` as two little-endian bytes and two bytes of padding.
    pub fn write_u16(&mut self, v: u16) -> (r: Result<(), BinderError>)
        ensures
            r is Ok <==> old(self).can_write(2),
            r is Ok ==> old(self).written(final(self), le_bytes_u16(v)),
            r is Err ==> r == Err::<(), BinderError>(BinderError::BadValue) && *final(self) == *old(self),
    {
        let b = u16_to_le(v);
        self.write_aligned_data(b.as_slice())
    }

    /// Writes `v` followed by three bytes of padding.
    pub fn write_u8(&mut self, v: u8) -> (r: Result<(), BinderError>)
        ensures
            r is Ok <==> old(self).can_write(1),
            r is Ok ==> old(self).written(final(self), seq![v]),
            r is Err ==> r == Err::<(), BinderError>(BinderError::BadValue) && *final(self) == *old(self),
    {
        let b: Vec<u8> = vec![v];
        proof {
            assert(b@ =~= seq![v]);
        }
        self.write_aligned_data(b.as_slice())
    }

    /// Writes `v` as the word 1 or 0.
    pub fn write_bool(&mut self, v: bool) -> (r: Result<(), BinderError>)
        ensures
            r is Ok <==> old(self).can_write(4),
            r is Ok ==> old(self).written(final(self), le_bytes_u32(if v { 1u32 } else { 0u32 })),
            r is Err ==> r == Err::<(), BinderError>(BinderError::BadValue) && *final(self) == *old(self),
    {
        self.write_u32(if v { 1u32 } else { 0u32 })
    }

    /// Writes the bytes of `data`, padded to a multiple of four.
    pub fn write(&mut self, data: &[u8]) -> (r: Result<(), BinderError>)
        ensures
            r is Ok <==> old(self).can_write(data@.len() as nat),
            r is Ok ==> old(self).written(final(self), data@),
            r is Err ==> r == Err::<(), BinderError>(BinderError::BadValue) && *final(self) == *old(self),
    {
        self.write_aligned_data(data)
    }

    /// Reads `size` bytes at the cursor; the cursor moves past their padding too.
    pub fn read(&mut self, size: usize) -> (r: Result<Vec<u8>, BinderError>)
        ensures
            r is Ok <==> old(self).can_read(size as nat),
            r matches Ok(v) ==> v@ == old(self).peek(size as nat) && old(self).read_past(final(self), size as nat),
            r is Err ==> r == Err::<Vec<u8>, BinderError>(BinderError::NotEnoughData) && *final(self) == *old(self),
    {
        self.read_aligned_data(size)
    }

    /// Reads `size` bytes at the cursor and moves the cursor by exactly `size`.
    pub fn read_without_alignment(&mut self, size: usize) -> (r: Result<Vec<u8>, BinderError>)
        ensures
            r is Ok <==> old(self).cursor() + size <= old(self).bytes().len(),
            r matches Ok(v) ==> v@ == old(self).peek(size as nat) && old(self).moved(final(self), (old(self).cursor() + size) as nat),
            r is Err ==> r == Err::<Vec<u8>, BinderError>(BinderError::NotEnoughData) && *final(self) == *old(self),
    {
        let dlen = self.data.len();
        if self.pos > dlen || size > dlen - self.pos {
            return Err(BinderError::NotEnoughData);
        }
        let pos = self.pos;
        let mut out: Vec<u8> = Vec::with_capacity(size);
        let mut i: usize = 0;
        while i < size
            invariant
                pos == self.pos,
                pos + size <= self.data@.len(),
                dlen == self.data@.len(),
                i <= size,
                out@ == self.data@.subrange(pos as int, pos + i),
            decreases size - i,
        {
            out.push(self.data[pos + i]);
            i = i + 1;
            assert(out@ =~= self.data@.subrange(pos as int, pos + i));
        }
        self.pos = pos + size;
        Ok(out)
    }

    /// The number of bytes between the cursor and the end of the buffer.
    pub fn data_avail(&self) -> (r: usize)
        ensures
            r == self.avail(),
    {
        if self.data.len() > self.pos {
            self.data.len() - self.pos
        } else {
            0
        }
    }

    /// The size of the content: the buffer, or the cursor where that is further.
    pub fn data_size(&self) -> (r: usize)
        ensures
            r == self.size(),
    {
        if self.data.len() > self.pos {
            self.data.len()
        } else {
            self.pos
        }
    }

    /// The cursor.
    pub fn data_position(&self) -> (r: usize)
        ensures
            r == self.cursor(),
    {
        self.pos
    }

    /// The cursor.
    pub fn position(&self) -> (r: usize)
        ensures
            r == self.cursor(),
    {
        self.pos
    }

    /// Moves the cursor to `pos`.
    pub fn set_data_position(&mut self, pos: usize)
        ensures
            old(self).moved(final(self), pos as nat),
    {
        self.pos = pos;
    }

    /// Moves the cursor back to the start; the bytes stay.
    pub fn reset_cursor(&mut self)
        ensures
            old(self).moved(final(self), 0),
    {
        self.pos = 0;
    }

    /// Whether bytes remain between the cursor and the end of the content.
    pub fn has_unread_data(&self) -> (r: bool)
        ensures
            r == (self.cursor() != self.size()),
    {
        self.pos != self.data_size()
    }

    /// The number of bytes between the cursor and the end of the content.
    pub fn unread_data_size(&self) -> (r: usize)
        ensures
            r == self.size() - self.cursor(),
    {
        self.data_size() - self.pos
    }

    /// The length of the buffer.
    pub fn len(&self) -> (r: usize)
        ensures
            r == self.bytes().len(),
    {
        self.data.len()
    }

    /// Whether the parcel holds no content.
    pub fn is_empty(&self) -> (r: bool)
        ensures
            r == (self.size() == 0),
    {
        self.data_size() == 0
    }

    /// The bytes of the buffer.
    pub fn as_slice(&self) -> (r: &[u8])
        ensures
            r@ == self.bytes(),
    {
        self.data.as_slice()
    }

    /// The bytes of the buffer, to be changed in place.
    pub fn as_slice_mut(&mut self) -> (r: &mut [u8])
        ensures
            r@ == old(self).bytes(),
            final(r)@ == final(self).bytes(),
            final(self).cursor() == old(self).cursor(),
            final(self).offsets_seq() == old(self).offsets_seq(),
            final(self).hint() == old(self).hint(),
            final(self).work_source_pos() == old(self).work_source_pos(),
    {
        self.data.as_mut_slice()
    }

    /// The offset table, to be changed in place.
    pub fn offsets_mut(&mut self) -> (r: &mut Vec<usize>)
        ensures
            r@ == old(self).offsets_seq(),
            final(r)@ == final(self).offsets_seq(),
            final(self).bytes() == old(self).bytes(),
            final(self).cursor() == old(self).cursor(),
            final(self).hint() == old(self).hint(),
            final(self).work_source_pos() == old(self).work_source_pos(),
    {
        &mut self.objects
    }

    /// The offset table.
    pub fn offsets(&self) -> (r: &[usize])
        ensures
            r@ == self.offsets_seq(),
    {
        self.objects.as_slice()
    }

    /// The number of entries in the offset table.
    pub fn offsets_len(&self) -> (r: usize)
        ensures
            r == self.offsets_seq().len(),
    {
        self.objects.len()
    }
}

impl Default for Parcel {
    fn default() -> (r: Self)
        ensures
            r.bytes().len() == 0,
            r.offsets_seq().len() == 0,
            r.cursor() == 0,
            r.hint() == 0,
            r.work_source_pos() is None,
            r.objects_ordered(),
    {
        Parcel::new()
    }
}

} // verus!
