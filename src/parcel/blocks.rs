//! Sized blocks, arrays, out-vector sizes and the size of the buffer.
use super::objects::{acquirable_before, in_objects, lemma_within_bounds, lemma_within_empty, object_at, objects_within, rebase};
use super::{lemma_overwrite_concat, lemma_overwrite_window, overwrite, pad_bytes, Parcel};
use crate::error::BinderError;
use crate::wire::{le_bytes_u32, le_u32, pad_size, padded, zeros};
use vstd::slice::{slice_subrange, slice_to_vec};
use vstd::pervasive::cloned;
use vstd::prelude::*;

verus! {

/// What reading a sized block at `pos` of `b` gives: the position of its
/// end, or the error.
pub open spec fn sized_end(b: Seq<u8>, at: nat) -> Result<nat, BinderError> {
    let pos = at as int;
    if pos + 4 > b.len() {
        Err(BinderError::NotEnoughData)
    } else {
        let n = le_u32(b.subrange(pos, pos + 4)) as i32;
        if n < 4 {
            Err(BinderError::BadValue)
        } else if pos + n > b.len() {
            Err(BinderError::NotEnoughData)
        } else {
            Ok((pos + n) as nat)
        }
    }
}

/// The words of an array of characters: each unit in a word of its own.
pub open spec fn chars_wire(u: Seq<u16>) -> Seq<u8>
    decreases u.len(),
{
    if u.len() == 0 {
        Seq::empty()
    } else {
        chars_wire(u.drop_last()) + le_bytes_u32(u.last() as u32)
    }
}

/// `data` cut or extended with zero bytes to `len`.
pub open spec fn resized(data: Seq<u8>, len: nat) -> Seq<u8> {
    if len <= data.len() {
        data.subrange(0, len as int)
    } else {
        data + zeros((len - data.len()) as nat)
    }
}

/// Relies on `Vec::capacity`: at least the length of the vector.
#[verifier::external_body]
fn vec_capacity(v: &Vec<u8>) -> (r: usize)
    ensures
        r >= v@.len(),
{
    v.capacity()
}

impl Parcel {
    /// Writes `sub` as a sized block: a word that holds the length of the
    /// block, four more than the length of the buffer of `sub`, then the
    /// content with its objects, as `append_from` copies it. A block longer
    /// than `i32::MAX`, or one that would take the cursor out of the range of
    /// `usize`, fails with `BadValue` and changes nothing.
    pub fn sized_write(&mut self, sub: &Parcel) -> (r: Result<(), BinderError>)
        ensures
            ({
                let n = sub.bytes().len() as int;
                let picked = objects_within(sub.offsets_seq(), 0, n);
                let fits = n + 4 <= 0x7fff_ffff && old(self).cursor() + 4 + n <= usize::MAX;
                &&& !fits ==> r == Err::<(), BinderError>(BinderError::BadValue) && *final(self) == *old(self)
                &&& r is Err ==> (r->Err_0 is BadValue || r->Err_0 is BadType || r->Err_0 is InvalidOperation
                    || r->Err_0 is NixError)
                &&& fits && acquirable_before(sub.bytes(), picked, picked.len() as int, true) ==> r is Ok
                &&& fits ==> forall|k: int|
                    0 <= k < picked.len() && acquirable_before(sub.bytes(), picked, k, true) ==> {
                        &&& #[trigger] object_at(sub.bytes(), picked, k) is None ==> r == Err::<(), BinderError>(
                            BinderError::BadType,
                        )
                        &&& (object_at(sub.bytes(), picked, k) matches Some(o) && !o.counted()) ==> r == Err::<
                            (),
                            BinderError,
                        >(BinderError::InvalidOperation)
                    }
                &&& r is Ok ==> {
                    &&& final(self).cursor() == old(self).cursor() + 4 + n
                    &&& final(self).bytes().len() == (if old(self).bytes().len() > final(self).cursor() {
                        old(self).bytes().len()
                    } else {
                        final(self).cursor()
                    })
                    &&& final(self).bytes().subrange(old(self).cursor() as int, (old(self).cursor() + 4) as int)
                        == le_bytes_u32((n + 4) as u32)
                    &&& final(self).offsets_seq() == old(self).offsets_seq() + rebase(
                        picked,
                        0,
                        (old(self).cursor() + 4) as int,
                    )
                    &&& picked.len() == 0 ==> final(self).bytes().subrange(
                        (old(self).cursor() + 4) as int,
                        (old(self).cursor() + 4 + n) as int,
                    ) == sub.bytes()
                }
            }),
    {
        let n = sub.len();
        if n > 0x7fff_fffb || self.pos > usize::MAX - 4 || n > usize::MAX - 4 - self.pos {
            return Err(BinderError::BadValue);
        }
        let ghost c = self.pos;
        let w = self.write_i32((n + 4) as i32);
        assert(w is Ok);
        proof {
            assert(pad_bytes(le_bytes_u32(((n + 4) as i32) as u32)) =~= le_bytes_u32(((n + 4) as i32) as u32));
            lemma_overwrite_window(old(self).bytes(), c as nat, le_bytes_u32(((n + 4) as i32) as u32));
        }
        let ghost mid = *self;
        let ghost after_prefix = self.data@;
        let r = self.append_from(sub, 0, n);
        proof {
            assert(sub.bytes().subrange(0, n as int) =~= sub.bytes());
            if n > 0 {
                let copy = overwrite(after_prefix, (c + 4) as nat, sub.bytes().subrange(0, n as int));
                let added = rebase(objects_within(sub.offsets_seq(), 0, n as int), 0, (c + 4) as int);
                assert forall|j: int| c <= j < c + 4 implies #[trigger] final(self).bytes()[j] == after_prefix[j] by {
                    if in_objects(added, j) {
                        let i = choose|i: int| 0 <= i < added.len() && #[trigger] added[i] <= j && j < added[i] + 24;
                        lemma_within_bounds(sub.offsets_seq(), 0, n as int, i);
                    }
                    assert(final(self).bytes()[j] == copy[j]);
                }
                assert(final(self).bytes().subrange(c as int, c + 4) =~= after_prefix.subrange(c as int, c + 4));
                if r is Ok && added.len() == 0 {
                    assert(final(self).bytes().subrange(c + 4, c + 4 + n) =~= sub.bytes());
                }
            } else {
                assert(objects_within(sub.offsets_seq(), 0, 0) =~= Seq::<usize>::empty()) by {
                    lemma_within_empty(sub.offsets_seq());
                }
                assert(rebase(objects_within(sub.offsets_seq(), 0, 0), 0, (c + 4) as int) =~= Seq::<usize>::empty());
                assert(final(self).offsets_seq() =~= old(self).offsets_seq() + Seq::<usize>::empty());
            }
        }
        r
    }

    /// Reads a sized block at the cursor: returns a parcel that holds the
    /// block after its length word, with the objects that lie in it, and
    /// moves the cursor to the end that the length word declares, however
    /// much of the block the caller goes on to read. A length below four
    /// fails with `BadValue`, one that reaches past the buffer with
    /// `NotEnoughData`.
    pub fn sized_read(&mut self) -> (r: Result<Parcel, BinderError>)
        ensures
            final(self).bytes() == old(self).bytes(),
            final(self).offsets_seq() == old(self).offsets_seq(),
            final(self).hint() == old(self).hint(),
            match sized_end(old(self).bytes(), old(self).cursor()) {
                Ok(end) => r is Ok && final(self).cursor() == end && r->Ok_0.bytes() == old(self).bytes().subrange(
                    (old(self).cursor() + 4) as int,
                    end as int,
                ) && r->Ok_0.offsets_seq() == rebase(
                    objects_within(old(self).offsets_seq(), (old(self).cursor() + 4) as int, end as int),
                    (old(self).cursor() + 4) as int,
                    0,
                ) && r->Ok_0.cursor() == 0,
                Err(e) => r is Err && r->Err_0 == e,
            },
    {
        let ghost b = self.data@;
        let start = self.pos;
        let size = match self.read_i32() {
            Ok(v) => v,
            Err(e) => return Err(e),
        };
        if size < 4 {
            return Err(BinderError::BadValue);
        }
        let dlen = self.data.len();
        if size as usize > dlen - start {
            return Err(BinderError::NotEnoughData);
        }
        let end = start + size as usize;
        let body = slice_to_vec(slice_subrange(self.data.as_slice(), start + 4, end));
        let inside = self.offsets_within(start + 4, end);
        let mut moved: Vec<usize> = Vec::new();
        let mut i: usize = 0;
        while i < inside.len()
            invariant
                i <= inside@.len(),
                forall|k: int| 0 <= k < inside@.len() ==> start + 4 <= #[trigger] inside@[k] && inside@[k] + 24 <= end,
                moved@ == rebase(inside@, start + 4, 0).take(i as int),
            decreases inside@.len() - i,
        {
            moved.push(inside[i] - (start + 4));
            i = i + 1;
            assert(moved@ =~= rebase(inside@, start + 4, 0).take(i as int));
        }
        assert(rebase(inside@, start + 4, 0).take(inside@.len() as int) =~= rebase(inside@, start + 4, 0));
        self.pos = end;
        Ok(Parcel::from_ipc_parts(body, moved))
    }
    /// Sets the length of the buffer to `new_len`, cutting it or extending it
    /// with zero bytes; a cursor past the new end moves to it.
    pub fn set_data_size(&mut self, new_len: usize)
        ensures
            final(self).bytes() == resized(old(self).bytes(), new_len as nat),
            final(self).cursor() == (if old(self).cursor() > new_len {
                new_len as nat
            } else {
                old(self).cursor()
            }),
            final(self).offsets_seq() == old(self).offsets_seq(),
            final(self).hint() == old(self).hint(),
            final(self).work_source_pos() == old(self).work_source_pos(),
    {
        self.data.resize(new_len, 0u8);
        assert(self.data@ =~= resized(old(self).data@, new_len as nat));
        if new_len < self.pos {
            self.pos = new_len;
        }
    }

    /// Sets the length of the buffer to `size`, cutting it or extending it
    /// with zero bytes; the cursor stays.
    pub fn resize_data(&mut self, size: usize)
        ensures
            final(self).bytes() == resized(old(self).bytes(), size as nat),
            final(self).cursor() == old(self).cursor(),
            final(self).offsets_seq() == old(self).offsets_seq(),
            final(self).hint() == old(self).hint(),
            final(self).work_source_pos() == old(self).work_source_pos(),
    {
        self.data.resize(size, 0u8);
        assert(self.data@ =~= resized(old(self).data@, size as nat));
    }

    /// Moves the cursor to the start and empties the offset table; the bytes
    /// stay, to be written over.
    pub fn clear_data(&mut self)
        ensures
            final(self).bytes() == old(self).bytes(),
            final(self).cursor() == 0,
            final(self).offsets_seq().len() == 0,
            final(self).hint() == old(self).hint(),
            final(self).work_source_pos() == old(self).work_source_pos(),
    {
        self.pos = 0;
        self.objects.clear();
    }

    /// The number of bytes the buffer can hold without growing.
    pub fn capacity(&self) -> (r: usize)
        ensures
            r >= self.bytes().len(),
    {
        vec_capacity(&self.data)
    }

    /// Writes `data` as an array: its length as a word, then, unless it is
    /// empty, its bytes padded to a multiple of four. An array longer than
    /// `i32::MAX`, or one that would take the cursor out of the range of
    /// `usize`, fails with `BadValue` and changes nothing.
    pub fn write_array(&mut self, data: &[u8]) -> (r: Result<(), BinderError>)
        ensures
            r is Ok <==> data@.len() <= 0x7fff_ffff && old(self).cursor() + 4 + padded(data@.len() as nat)
                <= usize::MAX,
            r is Err ==> r == Err::<(), BinderError>(BinderError::BadValue) && *final(self) == *old(self),
            r is Ok ==> {
                &&& final(self).bytes() == overwrite(
                    old(self).bytes(),
                    old(self).cursor(),
                    le_bytes_u32(data@.len() as u32) + pad_bytes(data@),
                )
                &&& final(self).cursor() == old(self).cursor() + 4 + padded(data@.len() as nat)
                &&& final(self).offsets_seq() == old(self).offsets_seq()
            },
    {
        let n = data.len();
        if n > 0x7fff_ffff || self.pos > usize::MAX - 4 {
            return Err(BinderError::BadValue);
        }
        let padded_len = match pad_size(n) {
            Some(p) => p,
            None => return Err(BinderError::BadValue),
        };
        if padded_len > usize::MAX - 4 - self.pos {
            return Err(BinderError::BadValue);
        }
        let ghost c = self.pos;
        let ghost d = self.data@;
        let w = self.write_i32(n as i32);
        assert(w is Ok);
        assert(pad_bytes(le_bytes_u32(n as u32)) =~= le_bytes_u32(n as u32));
        if n == 0 {
            assert(pad_bytes(data@) =~= Seq::<u8>::empty());
            assert(le_bytes_u32(n as u32) + pad_bytes(data@) =~= le_bytes_u32(n as u32));
            return Ok(());
        }
        let r = self.write_aligned_data(data);
        assert(r is Ok);
        proof {
            lemma_overwrite_concat(d, c as nat, le_bytes_u32(n as u32), pad_bytes(data@));
        }
        r
    }

    /// Reads an array of bytes written by `write_array`. A length below -1
    /// fails with `BadValue`; a length of -1 or 0 reads as `None`.
    pub fn read_array(&mut self) -> (r: Result<Option<Vec<u8>>, BinderError>)
        ensures
            final(self).bytes() == old(self).bytes(),
            final(self).offsets_seq() == old(self).offsets_seq(),
            !old(self).can_read(4) ==> r == Err::<Option<Vec<u8>>, BinderError>(BinderError::NotEnoughData),
            old(self).can_read(4) ==> {
                let n = le_u32(old(self).peek(4)) as i32;
                let c = old(self).cursor() + 4;
                if n < -1 {
                    r == Err::<Option<Vec<u8>>, BinderError>(BinderError::BadValue)
                } else if n <= 0 {
                    r matches Ok(None) && final(self).cursor() == c
                } else if c + padded(n as nat) > old(self).bytes().len() {
                    r == Err::<Option<Vec<u8>>, BinderError>(BinderError::NotEnoughData)
                } else {
                    &&& r matches Ok(Some(v)) && v@ == old(self).bytes().subrange(c as int, c + n)
                    &&& final(self).cursor() == c + padded(n as nat)
                }
            },
    {
        let n = match self.read_i32() {
            Ok(n) => n,
            Err(e) => return Err(e),
        };
        if n < -1 {
            return Err(BinderError::BadValue);
        }
        if n <= 0 {
            return Ok(None);
        }
        match self.read_aligned_data(n as usize) {
            Ok(v) => Ok(Some(v)),
            Err(e) => Err(e),
        }
    }

    /// Writes `units` as an array of characters, each in a word of its own,
    /// after the number of units as a word. An array longer than `i32::MAX`,
    /// or one that would take the cursor out of the range of `usize`, fails
    /// with `BadValue`.
    pub fn write_array_char(&mut self, units: &[u16]) -> (r: Result<(), BinderError>)
        ensures
            r is Ok <==> units@.len() <= 0x7fff_ffff && old(self).cursor() + 4 + 4 * units@.len() <= usize::MAX,
            r is Ok ==> {
                &&& final(self).bytes() == overwrite(
                    old(self).bytes(),
                    old(self).cursor(),
                    le_bytes_u32(units@.len() as u32) + chars_wire(units@),
                )
                &&& final(self).cursor() == old(self).cursor() + 4 + 4 * units@.len()
                &&& final(self).offsets_seq() == old(self).offsets_seq()
            },
            r is Err ==> r == Err::<(), BinderError>(BinderError::BadValue) && *final(self) == *old(self),
    {
        let n = units.len();
        if n > 0x7fff_ffff || n > (usize::MAX - 4) / 4 || self.pos > usize::MAX - (4 + 4 * n) {
            return Err(BinderError::BadValue);
        }
        let ghost c = self.pos;
        let ghost d = self.data@;
        let ghost head = le_bytes_u32(n as u32);
        let w = self.write_i32(n as i32);
        assert(w is Ok);
        assert(pad_bytes(head) =~= head);
        assert(chars_wire(units@.take(0)) =~= Seq::<u8>::empty());
        assert(head + chars_wire(units@.take(0)) =~= head);
        let mut i: usize = 0;
        while i < n
            invariant
                n == units@.len(),
                n <= 0x7fff_ffff,
                c + 4 + 4 * n <= usize::MAX,
                i <= n,
                head == le_bytes_u32(n as u32),
                head.len() == 4,
                chars_wire(units@.take(i as int)).len() == 4 * i,
                self.bytes() == overwrite(d, c as nat, head + chars_wire(units@.take(i as int))),
                self.cursor() == c + 4 + 4 * i,
                self.offsets_seq() == old(self).offsets_seq(),
            decreases n - i,
        {
            let ghost word = le_bytes_u32(units[i as int] as u32);
            let w = self.write_u32(units[i] as u32);
            assert(w is Ok);
            proof {
                assert(pad_bytes(word) =~= word);
                lemma_overwrite_concat(d, c as nat, head + chars_wire(units@.take(i as int)), word);
                assert(units@.take(i + 1).drop_last() =~= units@.take(i as int));
                assert(chars_wire(units@.take(i + 1)) == chars_wire(units@.take(i as int)) + word);
                assert(head + chars_wire(units@.take(i as int)) + word =~= head + chars_wire(units@.take(i + 1)));
            }
            i = i + 1;
        }
        assert(units@.take(n as int) =~= units@);
        Ok(())
    }

    /// Reads an array of characters written by `write_array_char`: each word
    /// gives one code unit, its low sixteen bits. A length below -1 fails with
    /// `BadValue`; a length of -1 or 0 reads as `None`.
    pub fn read_array_char(&mut self) -> (r: Result<Option<Vec<u16>>, BinderError>)
        ensures
            final(self).bytes() == old(self).bytes(),
            final(self).offsets_seq() == old(self).offsets_seq(),
            !old(self).can_read(4) ==> r == Err::<Option<Vec<u16>>, BinderError>(BinderError::NotEnoughData),
            old(self).can_read(4) ==> {
                let n = le_u32(old(self).peek(4)) as i32;
                let c = old(self).cursor() + 4;
                if n < -1 {
                    r == Err::<Option<Vec<u16>>, BinderError>(BinderError::BadValue)
                } else if n <= 0 {
                    r matches Ok(None) && final(self).cursor() == c
                } else if c + 4 * n > old(self).bytes().len() {
                    r == Err::<Option<Vec<u16>>, BinderError>(BinderError::NotEnoughData)
                } else {
                    &&& r matches Ok(Some(v)) && v@.len() == n && forall|k: int|
                        0 <= k < n ==> #[trigger] v@[k] == le_u32(
                            old(self).bytes().subrange(c + 4 * k, c + 4 * k + 4),
                        ) as u16
                    &&& final(self).cursor() == c + 4 * n
                }
            },
    {
        let n = match self.read_i32() {
            Ok(n) => n,
            Err(e) => return Err(e),
        };
        if n < -1 {
            return Err(BinderError::BadValue);
        }
        if n <= 0 {
            return Ok(None);
        }
        let dlen = self.data.len();
        if self.pos > dlen || n as usize > (dlen - self.pos) / 4 {
            return Err(BinderError::NotEnoughData);
        }
        let ghost b = self.data@;
        let ghost c = self.pos;
        let mut out: Vec<u16> = Vec::new();
        let mut i: usize = 0;
        while i < n as usize
            invariant
                0 < n,
                i <= n,
                self.data@ == b,
                self.objects@ == old(self).objects@,
                c + 4 * n <= b.len(),
                self.pos == c + 4 * i,
                out@.len() == i,
                forall|k: int| 0 <= k < i ==> #[trigger] out@[k] == le_u32(b.subrange(c + 4 * k, c + 4 * k + 4)) as u16,
            decreases n - i,
        {
            let w = match self.read_u32() {
                Ok(w) => w,
                Err(e) => return Err(e),
            };
            out.push(w as u16);
            i = i + 1;
        }
        Ok(Some(out))
    }

    /// Writes the length of `slice` as a word, or -1 for no slice. A slice
    /// longer than `i32::MAX` fails with `BadValue`.
    pub fn write_slice_size<T>(&mut self, slice: Option<&[T]>) -> (r: Result<(), BinderError>)
        ensures
            slice is Some && slice->0@.len() > 0x7fff_ffff ==> r == Err::<(), BinderError>(BinderError::BadValue)
                && *final(self) == *old(self),
            slice is Some && slice->0@.len() <= 0x7fff_ffff ==> (r is Ok <==> old(self).can_write(4)) && (r is Ok
                ==> old(self).written(final(self), le_bytes_u32(slice->0@.len() as u32))),
            slice is None ==> (r is Ok <==> old(self).can_write(4)) && (r is Ok ==> old(self).written(
                final(self),
                le_bytes_u32(-1i32 as u32),
            )),
            r is Err ==> r == Err::<(), BinderError>(BinderError::BadValue) && *final(self) == *old(self),
    {
        match slice {
            Some(s) => {
                if s.len() > 0x7fff_ffff {
                    return Err(BinderError::BadValue);
                }
                self.write_i32(s.len() as i32)
            },
            None => self.write_i32(-1),
        }
    }

    /// Reads a length and resizes `out_vec` to it, filling with `fill`. A
    /// negative length fails with `UnexpectedNull`.
    pub fn resize_out_vec<D: Clone>(&mut self, out_vec: &mut Vec<D>, fill: D) -> (r: Result<(), BinderError>)
        ensures
            !old(self).can_read(4) ==> r == Err::<(), BinderError>(BinderError::NotEnoughData) && *final(self)
                == *old(self),
            old(self).can_read(4) ==> old(self).read_past(final(self), 4),
            r is Err ==> *final(out_vec) == *old(out_vec),
            old(self).can_read(4) ==> {
                let n = le_u32(old(self).peek(4)) as i32;
                &&& n < 0 ==> r == Err::<(), BinderError>(BinderError::UnexpectedNull)
                &&& n >= 0 ==> {
                    &&& r is Ok
                    &&& final(out_vec)@.len() == n
                    &&& forall|i: int| 0 <= i < n && i < old(out_vec)@.len() ==> #[trigger] final(out_vec)@[i]
                        == old(out_vec)@[i]
                    &&& forall|i: int| old(out_vec)@.len() <= i < n ==> cloned(fill, #[trigger] final(out_vec)@[i])
                }
            },
    {
        let n = match self.read_i32() {
            Ok(n) => n,
            Err(e) => return Err(e),
        };
        if n < 0 {
            return Err(BinderError::UnexpectedNull);
        }
        out_vec.resize(n as usize, fill);
        Ok(())
    }

    /// Reads a length and sets `out_vec` to a vector of that length, filled
    /// with `fill`, or to `None` for a negative length.
    pub fn resize_nullable_out_vec<D: Clone>(&mut self, out_vec: &mut Option<Vec<D>>, fill: D) -> (r: Result<
        (),
        BinderError,
    >)
        ensures
            !old(self).can_read(4) ==> r == Err::<(), BinderError>(BinderError::NotEnoughData) && *final(self)
                == *old(self) && *final(out_vec) == *old(out_vec),
            old(self).can_read(4) ==> {
                let n = le_u32(old(self).peek(4)) as i32;
                &&& r is Ok
                &&& old(self).read_past(final(self), 4)
                &&& n < 0 ==> *final(out_vec) is None
                &&& n >= 0 ==> (*final(out_vec) matches Some(v) && v@.len() == n && forall|i: int|
                    0 <= i < n ==> cloned(fill, #[trigger] v@[i]))
            },
    {
        let n = match self.read_i32() {
            Ok(n) => n,
            Err(e) => return Err(e),
        };
        if n < 0 {
            *out_vec = None;
        } else {
            let mut v: Vec<D> = Vec::new();
            v.resize(n as usize, fill);
            *out_vec = Some(v);
        }
        Ok(())
    }
}

} // verus!
