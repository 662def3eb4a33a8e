//! Flat objects inside a parcel: the offset table, writing and reading
//! objects, copying ranges with their objects, and releasing them.
use super::{overwrite, pad_bytes, Parcel};
use crate::error::BinderError;
use crate::flat_object::{
    close_fd, dup_cloexec, flat_bytes, flat_decode, is_null_object, lemma_flat_round_trip, BinderFlatObject,
    BinderType,
};
use crate::wire::zeros;
use vstd::prelude::*;
use vstd::slice::slice_subrange;

verus! {

/// Whether `s` is strictly increasing.
pub open spec fn strictly_increasing(s: Seq<usize>) -> bool {
    forall|i: int, j: int| 0 <= i < j < s.len() ==> s[i] < s[j]
}

/// The entries of the offset table `offs` whose whole object lies in
/// `[lo, hi)`, in table order.
pub open spec fn objects_within(offs: Seq<usize>, lo: int, hi: int) -> Seq<usize>
    decreases offs.len(),
{
    if offs.len() == 0 {
        Seq::empty()
    } else {
        let rest = objects_within(offs.drop_last(), lo, hi);
        if lo <= offs.last() && offs.last() + 24 <= hi {
            rest.push(offs.last())
        } else {
            rest
        }
    }
}

/// Each offset of `offs` moved from a range that starts at `from` to one
/// that starts at `to`.
pub open spec fn rebase(offs: Seq<usize>, from: int, to: int) -> Seq<usize> {
    Seq::new(offs.len(), |i: int| (offs[i] - from + to) as usize)
}

/// The objects that `offs` lists do not overlap, and come in increasing order.
pub open spec fn spaced(offs: Seq<usize>) -> bool {
    forall|i: int, k: int| 0 <= i < k < offs.len() ==> offs[i] + 24 <= offs[k]
}

/// Whether byte `j` lies inside one of the objects that `offs` lists.
pub open spec fn in_objects(offs: Seq<usize>, j: int) -> bool {
    exists|i: int| 0 <= i < offs.len() && #[trigger] offs[i] <= j && j < offs[i] + 24
}

/// `o` with its descriptor replaced by `n`, which it owns.
pub open spec fn owned_dup(o: BinderFlatObject, n: i32) -> BinderFlatObject {
    BinderFlatObject { payload: n as u32 as u64, cookie: 1, ..o }
}

/// The object at `q` in `now` is the one at `q` in `copy`, acquired; a file
/// descriptor is replaced by a fresh duplicate that the copy owns.
pub open spec fn appended_object(copy: Seq<u8>, now: Seq<u8>, q: int) -> bool {
    match flat_decode(copy.subrange(q, q + 24)) {
        Some(o) => {
            &&& o.counted()
            &&& if o.binder_type == BinderType::Fd {
                exists|n: i32|
                    n >= 0 && n != o.spec_handle() as i32 && now.subrange(q, q + 24) == flat_bytes(
                        #[trigger] owned_dup(o, n),
                    )
            } else {
                now.subrange(q, q + 24) == copy.subrange(q, q + 24)
            }
        },
        None => false,
    }
}

/// No object fits in an empty range.
pub proof fn lemma_within_empty(offs: Seq<usize>)
    ensures
        objects_within(offs, 0, 0).len() == 0,
    decreases offs.len(),
{
    if offs.len() > 0 {
        lemma_within_empty(offs.drop_last());
    }
}

/// The object that entry `k` of the offset table `offs` points at in `b`.
pub open spec fn object_at(b: Seq<u8>, offs: Seq<usize>, k: int) -> Option<BinderFlatObject> {
    flat_decode(b.subrange(offs[k] as int, offs[k] + 24))
}

/// Every object that `offs` lists before entry `k` decodes and can be
/// acquired; with `plain`, none of them is a file descriptor.
pub open spec fn acquirable_before(b: Seq<u8>, offs: Seq<usize>, k: int, plain: bool) -> bool {
    forall|i: int|
        0 <= i < k ==> (#[trigger] object_at(b, offs, i) matches Some(o) && o.counted() && (plain ==> o.binder_type
            != BinderType::Fd))
}

/// What `append_from(other, offset, size)` promises of its result `r` and
/// of the parcel, `before` and `after` the call.
pub open spec fn append_outcome(
    before: Parcel,
    after: Parcel,
    other: Parcel,
    offset: int,
    size: int,
    r: Result<(), BinderError>,
) -> bool {
    let src = other.bytes();
    let picked = objects_within(other.offsets_seq(), offset, offset + size);
    let copy = overwrite(before.bytes(), before.cursor(), src.subrange(offset, offset + size));
    let added = rebase(picked, offset, before.cursor() as int);
    let fits = 0 < size <= 0x7fff_ffff && 0 <= offset && offset + size <= src.len() && before.cursor() + size
        <= usize::MAX;
    &&& size == 0 ==> r is Ok && after == before
    &&& size > 0 && !fits ==> r == Err::<(), BinderError>(BinderError::BadValue) && after == before
    &&& r is Err ==> (r->Err_0 is BadValue || r->Err_0 is BadType || r->Err_0 is InvalidOperation
        || r->Err_0 is NixError)
    &&& fits ==> {
        // Success is owed where no descriptor needs duplicating.
        &&& acquirable_before(src, picked, picked.len() as int, true) ==> r is Ok
        &&& spaced(added) && acquirable_before(src, picked, picked.len() as int, false) ==> (r is Ok || (r is Err
            && r->Err_0 is NixError))
        // The first object, in table order, that does not decode or cannot
        // be acquired decides the error.
        &&& forall|k: int|
            0 <= k < picked.len() && acquirable_before(src, picked, k, true) ==> {
                &&& #[trigger] object_at(src, picked, k) is None ==> r == Err::<(), BinderError>(
                    BinderError::BadType,
                )
                &&& (object_at(src, picked, k) matches Some(o) && !o.counted()) ==> r == Err::<(), BinderError>(
                    BinderError::InvalidOperation,
                )
            }
        &&& spaced(added) && r == Err::<(), BinderError>(BinderError::BadType) ==> exists|k: int|
            0 <= k < picked.len() && acquirable_before(src, picked, k, false) && #[trigger] object_at(src, picked, k)
                is None
        &&& spaced(added) && r == Err::<(), BinderError>(BinderError::InvalidOperation) ==> exists|k: int|
            0 <= k < picked.len() && acquirable_before(src, picked, k, false) && (#[trigger] object_at(
                src,
                picked,
                k,
            ) matches Some(o) && !o.counted())
        &&& spaced(added) && r is Err && r->Err_0 is NixError ==> exists|k: int|
            0 <= k < picked.len() && acquirable_before(src, picked, k, false) && (#[trigger] object_at(
                src,
                picked,
                k,
            ) matches Some(o) && o.binder_type == BinderType::Fd)
        // The bytes are copied, whatever the outcome; the objects listed are
        // those handled before any failure.
        &&& after.cursor() == before.cursor() + size
        &&& after.hint() == before.hint()
        &&& after.work_source_pos() == before.work_source_pos()
        &&& after.bytes().len() == copy.len()
        &&& forall|j: int|
            0 <= j < copy.len() && !in_objects(added, j) ==> #[trigger] after.bytes()[j] == copy[j]
        &&& r is Ok ==> after.offsets_seq() == before.offsets_seq() + added
        &&& r is Err ==> exists|k: int|
            0 <= k <= added.len() && after.offsets_seq() == before.offsets_seq() + #[trigger] added.take(k)
        &&& r is Ok && spaced(added) ==> forall|i: int|
            0 <= i < added.len() ==> appended_object(copy, after.bytes(), #[trigger] added[i] as int)
        &&& r is Ok && added.len() == 0 ==> after.bytes() == copy
    }
}

/// The window at `q` of the copy holds the object at `p` of the source.
pub proof fn lemma_copy_window(before: Seq<u8>, start: nat, src: Seq<u8>, offset: int, size: int, p: int)
    requires
        0 <= offset <= p,
        p + 24 <= offset + size <= src.len(),
    ensures
        ({
            let copy = overwrite(before, start, src.subrange(offset, offset + size));
            let q = p - offset + start;
            copy.subrange(q, q + 24) == src.subrange(p, p + 24)
        }),
{
    let copy = overwrite(before, start, src.subrange(offset, offset + size));
    let q = p - offset + start;
    assert(copy.subrange(q, q + 24) =~= src.subrange(p, p + 24));
}

/// The object that `write_file_descriptor` writes for `fd`.
pub open spec fn fd_object(fd: i32, take_ownership: bool) -> BinderFlatObject {
    BinderFlatObject {
        binder_type: BinderType::Fd,
        flags: 0x17f,
        payload: fd as u32 as u64,
        cookie: if take_ownership {
            1u64
        } else {
            0u64
        },
    }
}

/// The object at `q` in `now` is the one at `q` in `before` after its
/// release: a descriptor no longer owned; an unknown tag left as it was.
pub open spec fn released_at(before: Seq<u8>, now: Seq<u8>, q: int) -> bool {
    match flat_decode(before.subrange(q, q + 24)) {
        Some(o) => now.subrange(q, q + 24) == flat_bytes(
            if o.binder_type == BinderType::Fd {
                BinderFlatObject { cookie: 0, ..o }
            } else {
                o
            },
        ),
        None => now.subrange(q, q + 24) == before.subrange(q, q + 24),
    }
}

/// Every entry of `objects_within(offs, lo, hi)` lies, with its object, in `[lo, hi)`.
pub proof fn lemma_within_bounds(offs: Seq<usize>, lo: int, hi: int, i: int)
    requires
        0 <= i < objects_within(offs, lo, hi).len(),
    ensures
        lo <= objects_within(offs, lo, hi)[i],
        objects_within(offs, lo, hi)[i] + 24 <= hi,
    decreases offs.len(),
{
    if offs.len() > 0 {
        let rest = objects_within(offs.drop_last(), lo, hi);
        if i < rest.len() {
            lemma_within_bounds(offs.drop_last(), lo, hi, i);
        }
    }
}

impl Parcel {
    /// The offset table is strictly increasing, every entry is a multiple of
    /// four, every object lies before the cursor, and the cursor is a multiple
    /// of four inside the buffer.
    pub open spec fn objects_ordered(&self) -> bool {
        &&& strictly_increasing(self.offsets_seq())
        &&& forall|i: int| 0 <= i < self.offsets_seq().len() ==> #[trigger] self.offsets_seq()[i] % 4 == 0
            && self.offsets_seq()[i] + 24 <= self.cursor()
        &&& self.cursor() % 4 == 0
        &&& self.cursor() <= self.bytes().len()
    }

    /// Whether `write_object` records an object in the offset table: always
    /// where nulls are allowed, else only an object with an address.
    pub open spec fn registers(obj: BinderFlatObject, null_allowed: bool) -> bool {
        null_allowed || obj.payload != 0
    }

    /// Writes `obj` at the cursor. Unless it is a null object (no address)
    /// written with `null_allowed` false, it is acquired and its position
    /// appended to the offset table; a failed acquire leaves the bytes
    /// written and the table as it was.
    pub fn write_object(&mut self, obj: &BinderFlatObject, null_allowed: bool) -> (r: Result<(), BinderError>)
        ensures
            !old(self).can_write(24) ==> r == Err::<(), BinderError>(BinderError::BadValue) && *final(self)
                == *old(self),
            old(self).can_write(24) ==> {
                &&& final(self).bytes() == overwrite(old(self).bytes(), old(self).cursor(), flat_bytes(*obj))
                &&& final(self).cursor() == old(self).cursor() + 24
                &&& final(self).hint() == old(self).hint()
                &&& final(self).work_source_pos() == old(self).work_source_pos()
                &&& if Self::registers(*obj, null_allowed) && obj.counted() {
                    &&& r is Ok
                    &&& final(self).offsets_seq() == old(self).offsets_seq().push(old(self).cursor() as usize)
                } else if Self::registers(*obj, null_allowed) {
                    &&& r == Err::<(), BinderError>(BinderError::InvalidOperation)
                    &&& final(self).offsets_seq() == old(self).offsets_seq()
                } else {
                    &&& r is Ok
                    &&& final(self).offsets_seq() == old(self).offsets_seq()
                }
            },
            old(self).objects_ordered() ==> final(self).objects_ordered(),
    {
        let data_pos = self.pos;
        let bytes = obj.to_bytes();
        proof {
            lemma_flat_round_trip(*obj);
            assert(pad_bytes(bytes@) =~= bytes@);
        }
        match self.write_aligned_data(bytes.as_slice()) {
            Ok(()) => {},
            Err(e) => return Err(e),
        }
        if null_allowed || obj.pointer() != 0 {
            match obj.acquire() {
                Ok(()) => {},
                Err(e) => return Err(e),
            }
            self.objects.push(data_pos);
        }
        Ok(())
    }

    /// Appends the cursor to the offset table.
    pub fn push_object(&mut self)
        ensures
            final(self).offsets_seq() == old(self).offsets_seq().push(old(self).cursor() as usize),
            final(self).bytes() == old(self).bytes(),
            final(self).cursor() == old(self).cursor(),
            final(self).hint() == old(self).hint(),
            final(self).work_source_pos() == old(self).work_source_pos(),
    {
        self.objects.push(self.pos);
    }

    /// Finds `data_pos` in the offset table, starting at the hint and
    /// scanning forward, then backward; on a match the hint moves past it.
    fn find_object(&mut self, data_pos: usize) -> (found: bool)
        ensures
            found ==> exists|k: int|
                0 <= k < old(self).offsets_seq().len() && old(self).offsets_seq()[k] == data_pos
                    && final(self).hint() == k + 1,
            strictly_increasing(old(self).offsets_seq()) && old(self).offsets_seq().contains(data_pos) ==> found,
            !found ==> *final(self) == *old(self),
            final(self).bytes() == old(self).bytes(),
            final(self).cursor() == old(self).cursor(),
            final(self).offsets_seq() == old(self).offsets_seq(),
            final(self).work_source_pos() == old(self).work_source_pos(),
    {
        let count = self.objects.len();
        if count == 0 {
            return false;
        }
        let ghost objs = self.objects@;
        let ghost present = strictly_increasing(objs) && objs.contains(data_pos);
        let ghost k: int = if present {
            choose|k: int| 0 <= k < objs.len() && objs[k] == data_pos
        } else {
            0
        };
        let start = self.next_object_hint;
        let mut opos = start;
        if opos < count {
            while opos < count - 1 && self.objects[opos] < data_pos
                invariant
                    objs == self.objects@,
                    count == objs.len(),
                    start <= opos < count,
                    present ==> 0 <= k < objs.len() && objs[k] == data_pos,
                    present && k >= start ==> k >= opos,
                decreases count - opos,
            {
                opos = opos + 1;
            }
        } else {
            opos = count - 1;
        }
        if self.objects[opos] == data_pos {
            self.next_object_hint = opos + 1;
            assert(old(self).offsets_seq()[opos as int] == data_pos);
            return true;
        }
        proof {
            if present {
                assert(k < opos) by {
                    if k >= opos {
                        if k > opos {
                            assert(objs[opos as int] < objs[k]);
                        }
                    }
                }
            }
        }
        while opos > 0 && self.objects[opos] > data_pos
            invariant
                objs == self.objects@,
                count == objs.len(),
                opos < count,
                present ==> 0 <= k < objs.len() && objs[k] == data_pos && k <= opos,
            decreases opos,
        {
            proof {
                if present && k == opos {
                    assert(false);
                }
            }
            opos = opos - 1;
        }
        if self.objects[opos] == data_pos {
            self.next_object_hint = opos + 1;
            assert(old(self).offsets_seq()[opos as int] == data_pos);
            return true;
        }
        proof {
            if present {
                if k < opos {
                    assert(objs[k] < objs[opos as int]);
                }
            }
        }
        false
    }

    /// Reads a flat object at the cursor. Unless it is a null object (no
    /// address, no cookie) read with `null_allowed` true, its position must
    /// be listed in the offset table, else the read fails with `BadType`. A
    /// tag of no known kind fails with `BadType` too; both leave the cursor
    /// past the object.
    pub fn read_object(&mut self, null_allowed: bool) -> (r: Result<BinderFlatObject, BinderError>)
        ensures
            !old(self).can_read(24) ==> r == Err::<BinderFlatObject, BinderError>(BinderError::NotEnoughData)
                && *final(self) == *old(self),
            old(self).can_read(24) ==> {
                &&& final(self).bytes() == old(self).bytes()
                &&& final(self).cursor() == old(self).cursor() + 24
                &&& final(self).offsets_seq() == old(self).offsets_seq()
                &&& final(self).work_source_pos() == old(self).work_source_pos()
                &&& match flat_decode(old(self).peek(24)) {
                    None => r == Err::<BinderFlatObject, BinderError>(BinderError::BadType),
                    Some(o) => if null_allowed && is_null_object(o) {
                        r == Ok::<BinderFlatObject, BinderError>(o)
                    } else {
                        &&& r is Ok ==> r == Ok::<BinderFlatObject, BinderError>(o)
                            && old(self).offsets_seq().contains(old(self).cursor() as usize)
                        &&& r is Err ==> r == Err::<BinderFlatObject, BinderError>(BinderError::BadType)
                        &&& strictly_increasing(old(self).offsets_seq()) && old(self).offsets_seq().contains(
                            old(self).cursor() as usize,
                        ) ==> r is Ok
                    },
                }
            },
    {
        let data_pos = self.pos;
        let raw = match self.read_aligned_data(24) {
            Ok(v) => v,
            Err(e) => return Err(e),
        };
        proof {
            assert(raw@.subrange(0, 24) =~= raw@);
        }
        let obj = match BinderFlatObject::from_bytes(raw.as_slice(), 0) {
            Ok(o) => o,
            Err(e) => return Err(e),
        };
        if null_allowed && obj.cookie == 0 && obj.payload == 0 {
            return Ok(obj);
        }
        if self.find_object(data_pos) {
            Ok(obj)
        } else {
            Err(BinderError::BadType)
        }
    }

    /// Overwrites the bytes at `at` with `bytes`, inside the buffer.
    pub(crate) fn patch(&mut self, at: usize, bytes: &[u8])
        requires
            at + bytes@.len() <= old(self).bytes().len(),
        ensures
            final(self).bytes() == overwrite(old(self).bytes(), at as nat, bytes@),
            final(self).bytes().len() == old(self).bytes().len(),
            final(self).cursor() == old(self).cursor(),
            final(self).same_tables(old(self)),
    {
        let ghost old_data = self.data@;
        let dlen = self.data.len();
        let mut i: usize = 0;
        while i < bytes.len()
            invariant
                at + bytes@.len() <= old_data.len(),
                dlen == old_data.len(),
                self.data@.len() == old_data.len(),
                i <= bytes@.len(),
                self.pos == old(self).pos,
                self.same_tables(old(self)),
                forall|j: int|
                    0 <= j < old_data.len() ==> self.data@[j] == (if at <= j < at + i {
                        bytes@[j - at]
                    } else {
                        old_data[j]
                    }),
            decreases bytes@.len() - i,
        {
            self.data.set(at + i, bytes[i]);
            i = i + 1;
        }
        assert(self.data@ =~= overwrite(old_data, at as nat, bytes@));
    }

    /// The entries of the offset table whose whole object lies in `[lo, hi)`.
    pub(crate) fn offsets_within(&self, lo: usize, hi: usize) -> (r: Vec<usize>)
        ensures
            r@ == objects_within(self.offsets_seq(), lo as int, hi as int),
            forall|k: int| 0 <= k < r@.len() ==> lo <= #[trigger] r@[k] && r@[k] + 24 <= hi,
    {
        let mut picked: Vec<usize> = Vec::new();
        let mut i: usize = 0;
        while i < self.objects.len()
            invariant
                i <= self.objects@.len(),
                picked@ == objects_within(self.objects@.take(i as int), lo as int, hi as int),
                forall|k: int| 0 <= k < picked@.len() ==> lo <= #[trigger] picked@[k] && picked@[k] + 24 <= hi,
            decreases self.objects@.len() - i,
        {
            let off = self.objects[i];
            assert(self.objects@.take(i + 1).drop_last() =~= self.objects@.take(i as int));
            if off >= lo && off <= usize::MAX - 24 && off + 24 <= hi {
                picked.push(off);
            }
            i = i + 1;
        }
        assert(self.objects@.take(self.objects@.len() as int) =~= self.objects@);
        picked
    }

    /// Copies `size` bytes of `other`, from `offset`, to the cursor of this
    /// parcel, and moves the cursor past them. Every object of `other` that
    /// lies wholly inside the range is listed at its new position, acquired
    /// again, and a file descriptor among them is duplicated, the copy owning
    /// the duplicate. A range outside the buffer of `other`, or longer than
    /// `i32::MAX`, fails with `BadValue` and changes nothing.
    #[verifier::rlimit(100)]
    pub fn append_from(&mut self, other: &Parcel, offset: usize, size: usize) -> (r: Result<
        (),
        BinderError,
    >)
        ensures
            append_outcome(*old(self), *final(self), *other, offset as int, size as int, r),
    {
        if size == 0 {
            return Ok(());
        }
        if size > 0x7fff_ffff {
            return Err(BinderError::BadValue);
        }
        let other_len = other.data.len();
        if offset > other_len || size > other_len - offset {
            return Err(BinderError::BadValue);
        }
        let start_pos = self.pos;
        if start_pos > usize::MAX - size {
            return Err(BinderError::BadValue);
        }
        let picked = other.offsets_within(offset, offset + size);
        let chunk = slice_subrange(other.data.as_slice(), offset, offset + size);
        self.put(chunk, size);
        let ghost copy = self.data@;
        let ghost src = other.bytes();
        let ghost added = rebase(picked@, offset as int, start_pos as int);
        proof {
            assert(chunk@ + zeros(0) =~= chunk@);
            assert(added.take(0) =~= Seq::<usize>::empty());
            assert(self.objects@ =~= old(self).objects@ + added.take(0));
        }
        let mut j: usize = 0;
        while j < picked.len()
            invariant
                j <= picked@.len(),
                picked@ == objects_within(other.offsets_seq(), offset as int, offset + size),
                src == other.bytes(),
                0 < size <= 0x7fff_ffff,
                offset + size <= other.bytes().len(),
                start_pos == old(self).pos,
                forall|k: int| 0 <= k < picked@.len() ==> offset <= #[trigger] picked@[k] && picked@[k] + 24 <= offset + size,
                added == rebase(picked@, offset as int, start_pos as int),
                copy == overwrite(old(self).bytes(), start_pos as nat, src.subrange(offset as int, offset + size)),
                start_pos + size <= usize::MAX,
                self.pos == start_pos + size,
                self.data@.len() == copy.len(),
                copy.len() >= start_pos + size,
                self.objects@ == old(self).objects@ + added.take(j as int),
                self.next_object_hint == old(self).next_object_hint,
                self.request_header_present == old(self).request_header_present,
                self.work_source_request_header_pos == old(self).work_source_request_header_pos,
                forall|b: int|
                    0 <= b < copy.len() && !in_objects(added.take(j as int), b) ==> #[trigger] self.data@[b]
                        == copy[b],
                spaced(added) ==> forall|i: int|
                    0 <= i < j ==> appended_object(copy, self.data@, #[trigger] added[i] as int),
                acquirable_before(src, picked@, j as int, true) ==> self.data@ == copy,
                spaced(added) ==> acquirable_before(src, picked@, j as int, false),
                forall|k: int|
                    0 <= k < j && acquirable_before(src, picked@, k, true) ==> (#[trigger] object_at(src, picked@, k)
                        matches Some(o) && o.counted()),
            decreases picked@.len() - j,
        {
            let q = picked[j] - offset + start_pos;
            assert(q == added[j as int]);
            let ghost before = self.data@;
            let ghost jj = j as int;
            proof {
                lemma_copy_window(old(self).bytes(), start_pos as nat, src, offset as int, size as int, picked@[jj] as int);
                assert(copy.subrange(q as int, q + 24) == src.subrange(picked@[jj] as int, picked@[jj] + 24));
                if spaced(added) {
                    assert forall|b: int| q <= b < q + 24 implies !in_objects(added.take(j as int), b) by {
                        if in_objects(added.take(j as int), b) {
                            let i = choose|i: int|
                                0 <= i < j && #[trigger] added.take(j as int)[i] <= b && b < added.take(j as int)[i] + 24;
                            assert(added[i] + 24 <= added[j as int]);
                        }
                    }
                    assert(before.subrange(q as int, q + 24) =~= copy.subrange(q as int, q + 24));
                }
                // Where the window still holds the copy, it holds the source object.
                if spaced(added) || acquirable_before(src, picked@, jj, true) {
                    assert(before.subrange(q as int, q + 24) =~= copy.subrange(q as int, q + 24));
                }
                // A later first failure would make this object plain, an earlier one was passed.
                assert forall|k: int|
                    0 <= k < picked@.len() && acquirable_before(src, picked@, k, true) && jj < k implies
                    acquirable_before(src, picked@, jj, true) && (#[trigger] object_at(src, picked@, jj) matches Some(o)
                        && o.counted() && o.binder_type != BinderType::Fd) by {
                    assert(object_at(src, picked@, jj) matches Some(o) && o.counted() && o.binder_type
                        != BinderType::Fd);
                }
            }
            let mut obj = match BinderFlatObject::from_bytes(self.data.as_slice(), q) {
                Ok(o) => o,
                Err(e) => {
                    proof {
                        if spaced(added) || acquirable_before(src, picked@, jj, true) {
                            assert(object_at(src, picked@, jj) is None);
                        }
                        assert(self.objects@ == old(self).objects@ + added.take(jj));
                        assert forall|j2: int| 0 <= j2 < copy.len() && !in_objects(added, j2) implies #[trigger] self.data@[j2]
                            == copy[j2] by {
                            if in_objects(added.take(jj), j2) {
                                let i = choose|i: int|
                                    0 <= i < jj && #[trigger] added.take(jj)[i] <= j2 && j2 < added.take(jj)[i] + 24;
                                assert(added[i] == added.take(jj)[i]);
                            }
                        }
                    }
                    return Err(e);
                },
            };
            let ghost decoded = obj;
            proof {
                if spaced(added) || acquirable_before(src, picked@, jj, true) {
                    assert(object_at(src, picked@, jj) == Some(decoded));
                }
            }
            match obj.acquire() {
                Ok(()) => {},
                Err(e) => {
                    proof {
                        if spaced(added) {
                            assert(object_at(src, picked@, jj) matches Some(o) && !o.counted());
                        }
                        assert(self.objects@ == old(self).objects@ + added.take(jj));
                        assert forall|j2: int| 0 <= j2 < copy.len() && !in_objects(added, j2) implies #[trigger] self.data@[j2]
                            == copy[j2] by {
                            if in_objects(added.take(jj), j2) {
                                let i = choose|i: int|
                                    0 <= i < jj && #[trigger] added.take(jj)[i] <= j2 && j2 < added.take(jj)[i] + 24;
                                assert(added[i] == added.take(jj)[i]);
                            }
                        }
                    }
                    return Err(e);
                },
            }
            if obj.binder_type == BinderType::Fd {
                let fd = match dup_cloexec(#[verifier::truncate] (obj.handle() as i32)) {
                    Ok(fd) => fd,
                    Err(e) => {
                        proof {
                            if spaced(added) {
                                assert(object_at(src, picked@, jj) matches Some(o) && o.binder_type == BinderType::Fd);
                            }
                            assert(self.objects@ == old(self).objects@ + added.take(jj));
                            assert forall|j2: int| 0 <= j2 < copy.len() && !in_objects(added, j2) implies #[trigger] self.data@[j2]
                                == copy[j2] by {
                                if in_objects(added.take(jj), j2) {
                                    let i = choose|i: int|
                                        0 <= i < jj && #[trigger] added.take(jj)[i] <= j2 && j2 < added.take(jj)[i] + 24;
                                    assert(added[i] == added.take(jj)[i]);
                                }
                            }
                        }
                        return Err(BinderError::NixError(e));
                    },
                };
                let ghost dup_src = obj;
                obj.set_handle(fd as u32);
                obj.set_cookie(1);
                let b = obj.to_bytes();
                self.patch(q, b.as_slice());
                proof {
                    assert(self.data@.subrange(q as int, q + 24) =~= b@);
                    assert(obj == owned_dup(dup_src, fd));
                    if spaced(added) {
                        assert(appended_object(copy, self.data@, q as int));
                    }
                }
            }
            self.objects.push(q);
            proof {
                assert(added.take(j + 1) =~= added.take(j as int).push(q));
                assert forall|b: int|
                    0 <= b < copy.len() && !in_objects(added.take(j + 1), b) implies #[trigger] self.data@[b]
                        == copy[b] by {
                    if in_objects(added.take(j as int), b) {
                        let i = choose|i: int|
                            0 <= i < j && #[trigger] added.take(j as int)[i] <= b && b < added.take(j as int)[i] + 24;
                        assert(added.take(j + 1)[i] == added.take(j as int)[i]);
                    }
                    if q <= b < q + 24 {
                        assert(added.take(j + 1)[j as int] == q);
                    }
                }
                if spaced(added) {
                    assert forall|i: int| 0 <= i < j + 1 implies appended_object(
                        copy,
                        self.data@,
                        #[trigger] added[i] as int,
                    ) by {
                        if i < j {
                            let qi = added[i] as int;
                            assert(qi + 24 <= q);
                            assert(self.data@.subrange(qi, qi + 24) =~= before.subrange(qi, qi + 24));
                        }
                    }
                }
            }
            j = j + 1;
        }
        proof {
            assert(added.take(picked@.len() as int) =~= added);
            if added.len() == 0 {
                assert(self.data@ =~= copy) by {
                    assert forall|b: int| 0 <= b < copy.len() implies !in_objects(added.take(0), b) by {}
                }
            }
        }
        Ok(())
    }

    /// Appends the whole buffer of `other`, as `append_from` does.
    pub fn append_all_from(&mut self, other: &Parcel) -> (r: Result<(), BinderError>)
        ensures
            append_outcome(*old(self), *final(self), *other, 0, other.bytes().len() as int, r),
    {
        let n = other.len();
        let r = self.append_from(other, 0, n);
        assert(other.bytes().subrange(0, n as int) =~= other.bytes());
        r
    }

    /// Writes a file-descriptor object for `fd` and lists it; with
    /// `take_ownership` the receiver owns the descriptor.
    pub fn write_file_descriptor(&mut self, fd: i32, take_ownership: bool) -> (r: Result<(), BinderError>)
        ensures
            r is Ok <==> old(self).can_write(24),
            r is Ok ==> final(self).offsets_seq() == old(self).offsets_seq().push(old(self).cursor() as usize)
                && final(self).bytes() == overwrite(
                old(self).bytes(),
                old(self).cursor(),
                flat_bytes(fd_object(fd, take_ownership)),
            ),
    {
        let obj = BinderFlatObject::new(
            BinderType::Fd,
            fd as u32 as u64,
            if take_ownership {
                1
            } else {
                0
            },
            0x17f,
        );
        self.write_object(&obj, true)
    }

    /// Reads a file-descriptor object at the cursor and returns its
    /// descriptor; any other object fails with `BadType`.
    pub fn read_file_descriptor(&mut self) -> (r: Result<i32, BinderError>)
        ensures
            r is Ok ==> old(self).can_read(24) && flat_decode(old(self).peek(24)) is Some
                && flat_decode(old(self).peek(24))->0.binder_type == BinderType::Fd
                && r->Ok_0 == flat_decode(old(self).peek(24))->0.spec_handle() as i32
                && old(self).offsets_seq().contains(old(self).cursor() as usize),
            old(self).can_read(24) && flat_decode(old(self).peek(24)) is Some && flat_decode(
                old(self).peek(24),
            )->0.binder_type == BinderType::Fd && strictly_increasing(old(self).offsets_seq())
                && old(self).offsets_seq().contains(old(self).cursor() as usize) ==> r is Ok,
            old(self).can_read(24) && flat_decode(old(self).peek(24)) is Some && flat_decode(
                old(self).peek(24),
            )->0.binder_type != BinderType::Fd ==> r is Err,
            !old(self).can_read(24) ==> r == Err::<i32, BinderError>(BinderError::NotEnoughData),
    {
        let obj = match self.read_object(false) {
            Ok(o) => o,
            Err(e) => return Err(e),
        };
        match obj.owned_fd() {
            Some(fd) => Ok(fd),
            None => Err(BinderError::BadType),
        }
    }

    /// Writes a binder object for the local object at `object` and lists it.
    pub fn write_binder(&mut self, object: u64) -> (r: Result<(), BinderError>)
        ensures
            r is Ok <==> old(self).can_write(24),
            r is Ok ==> final(self).offsets_seq() == old(self).offsets_seq().push(old(self).cursor() as usize)
                && final(self).bytes() == overwrite(
                old(self).bytes(),
                old(self).cursor(),
                flat_bytes((BinderFlatObject { binder_type: BinderType::Binder, flags: 0, payload: object, cookie: 0 })),
            ),
    {
        let obj = BinderFlatObject::new(BinderType::Binder, object, 0, 0);
        self.write_object(&obj, true)
    }

    /// Releases every listed object: a descriptor that an object owns is
    /// closed and its cookie cleared in the buffer. Failures are not reported:
    /// the parcel is being discarded.
    pub fn release_objects(&mut self)
        ensures
            final(self).bytes().len() == old(self).bytes().len(),
            final(self).offsets_seq() == old(self).offsets_seq(),
            final(self).cursor() == old(self).cursor(),
            forall|j: int|
                0 <= j < old(self).bytes().len() && !in_objects(old(self).offsets_seq(), j)
                    ==> #[trigger] final(self).bytes()[j] == old(self).bytes()[j],
            spaced(old(self).offsets_seq()) ==> forall|i: int|
                0 <= i < old(self).offsets_seq().len() && #[trigger] old(self).offsets_seq()[i] + 24
                    <= old(self).bytes().len() ==> released_at(
                    old(self).bytes(),
                    final(self).bytes(),
                    old(self).offsets_seq()[i] as int,
                ),
    {
        let ghost orig = self.data@;
        let ghost offs = self.objects@;
        let mut i: usize = 0;
        while i < self.objects.len()
            invariant
                i <= offs.len(),
                offs == self.objects@,
                offs == old(self).objects@,
                orig == old(self).data@,
                self.data@.len() == orig.len(),
                self.pos == old(self).pos,
                forall|j: int|
                    0 <= j < orig.len() && !in_objects(offs.take(i as int), j) ==> #[trigger] self.data@[j]
                        == orig[j],
                spaced(offs) ==> forall|k: int|
                    0 <= k < i && #[trigger] offs[k] + 24 <= orig.len() ==> released_at(orig, self.data@, offs[k] as int),
            decreases offs.len() - i,
        {
            let off = self.objects[i];
            let ghost before = self.data@;
            proof {
                assert(offs.take(i + 1) =~= offs.take(i as int).push(off));
                if spaced(offs) && off + 24 <= orig.len() {
                    assert forall|b: int| off <= b < off + 24 implies !in_objects(offs.take(i as int), b) by {
                        if in_objects(offs.take(i as int), b) {
                            let k = choose|k: int|
                                0 <= k < i && #[trigger] offs.take(i as int)[k] <= b && b < offs.take(i as int)[k] + 24;
                            assert(offs[k] + 24 <= offs[i as int]);
                        }
                    }
                    assert(before.subrange(off as int, off + 24) =~= orig.subrange(off as int, off + 24));
                }
            }
            if off <= self.data.len() && 24 <= self.data.len() - off {
                match BinderFlatObject::from_bytes(self.data.as_slice(), off) {
                    Ok(mut obj) => {
                        let _ = obj.release();
                        let b = obj.to_bytes();
                        proof {
                            lemma_flat_round_trip(obj);
                        }
                        self.patch(off, b.as_slice());
                        proof {
                            assert(self.data@.subrange(off as int, off + 24) =~= b@);
                        }
                    },
                    Err(_) => {},
                }
            }
            proof {
                assert forall|j: int|
                    0 <= j < orig.len() && !in_objects(offs.take(i + 1), j) implies #[trigger] self.data@[j] == orig[j] by {
                    if in_objects(offs.take(i as int), j) {
                        let k = choose|k: int|
                            0 <= k < i && #[trigger] offs.take(i as int)[k] <= j && j < offs.take(i as int)[k] + 24;
                        assert(offs.take(i + 1)[k] == offs.take(i as int)[k]);
                    }
                    if off <= j < off + 24 {
                        assert(offs.take(i + 1)[i as int] == off);
                    }
                }
                if spaced(offs) {
                    assert forall|k: int|
                        0 <= k < i + 1 && #[trigger] offs[k] + 24 <= orig.len() implies released_at(
                        orig,
                        self.data@,
                        offs[k] as int,
                    ) by {
                        if k < i {
                            let qk = offs[k] as int;
                            assert(qk + 24 <= off);
                            assert(self.data@.subrange(qk, qk + 24) =~= before.subrange(qk, qk + 24));
                        }
                    }
                }
            }
            i = i + 1;
        }
        proof {
            assert(offs.take(offs.len() as int) =~= offs);
        }
    }

    /// Closes the descriptor of every listed file-descriptor object.
    pub fn close_file_descriptors(&self) {
        let mut i: usize = 0;
        while i < self.objects.len()
            invariant
                i <= self.objects@.len(),
            decreases self.objects@.len() - i,
        {
            let off = self.objects[i];
            if off <= self.data.len() && 24 <= self.data.len() - off {
                match BinderFlatObject::from_bytes(self.data.as_slice(), off) {
                    Ok(obj) => {
                        if obj.binder_type == BinderType::Fd {
                            let _ = close_fd(obj.handle() as i32);
                        }
                    },
                    Err(_) => {},
                }
            }
            i = i + 1;
        }
    }
}

} // verus!
