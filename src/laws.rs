//! Laws of the parcel format that relate several operations: what is written
//! reads back, the offset table stays ordered, sized blocks and interface
//! tokens are framed as they were written.
use crate::parcel::blocks::sized_end;
use crate::parcel::strings::{
    bytes_units, str16_read, str16_wire, str8_read, str8_wire, token_header, token_read, units_bytes,
};
use crate::parcel::{lemma_overwrite_window, overwrite, pad_bytes, Parcel};
use crate::protocol::INTERFACE_HEADER;
use crate::text::utf16_of;
use crate::wire::{
    le_bytes_u16, le_bytes_u32, le_bytes_u64, le_u16, le_u32, le_u64, lemma_u16_round_trip, lemma_u32_round_trip,
    lemma_u64_round_trip, padded,
};
use crate::error::BinderError;
use vstd::prelude::*;
use vstd::utf8::{encode_utf8, encode_utf8_decode_utf8, encode_utf8_valid_utf8};

verus! {

/// A write pads with zero bytes, moves the cursor by a multiple of four, and
/// keeps a cursor that was a multiple of four one.
pub proof fn lemma_write_padding(p: Parcel, q: Parcel, bytes: Seq<u8>)
    requires
        p.written(&q, bytes),
    ensures
        q.bytes().subrange(p.cursor() as int, (p.cursor() + bytes.len()) as int) == bytes,
        forall|j: int| p.cursor() + bytes.len() <= j < q.cursor() ==> #[trigger] q.bytes()[j] == 0,
        (q.cursor() - p.cursor()) % 4 == 0,
        p.cursor() % 4 == 0 ==> q.cursor() % 4 == 0,
        q.cursor() <= q.bytes().len(),
{
    let c = p.cursor();
    lemma_overwrite_window(p.bytes(), c, pad_bytes(bytes));
    assert(q.bytes().subrange(c as int, (c + bytes.len()) as int) =~= pad_bytes(bytes).subrange(0, bytes.len() as int));
    assert(pad_bytes(bytes).subrange(0, bytes.len() as int) =~= bytes);
    assert forall|j: int| c + bytes.len() <= j < q.cursor() implies #[trigger] q.bytes()[j] == 0 by {
        assert(q.bytes()[j] == pad_bytes(bytes)[j - c]);
    }
}

/// A `u32` that was written reads back at the position where it was written.
pub proof fn lemma_u32_write_read(p: Parcel, q: Parcel, v: u32)
    requires
        p.written(&q, le_bytes_u32(v)),
    ensures
        p.cursor() + 4 <= q.bytes().len(),
        le_u32(q.bytes().subrange(p.cursor() as int, (p.cursor() + 4) as int)) == v,
        q.cursor() == p.cursor() + 4,
{
    lemma_write_padding(p, q, le_bytes_u32(v));
    lemma_u32_round_trip(v);
}

/// An `i32` that was written reads back at the position where it was written.
pub proof fn lemma_i32_write_read(p: Parcel, q: Parcel, v: i32)
    requires
        p.written(&q, le_bytes_u32(v as u32)),
    ensures
        p.cursor() + 4 <= q.bytes().len(),
        le_u32(q.bytes().subrange(p.cursor() as int, (p.cursor() + 4) as int)) as i32 == v,
        q.cursor() == p.cursor() + 4,
{
    lemma_u32_write_read(p, q, v as u32);
    assert((v as u32) as i32 == v) by (bit_vector);
}

/// A `u64` that was written reads back at the position where it was written.
pub proof fn lemma_u64_write_read(p: Parcel, q: Parcel, v: u64)
    requires
        p.written(&q, le_bytes_u64(v)),
    ensures
        p.cursor() + 8 <= q.bytes().len(),
        le_u64(q.bytes().subrange(p.cursor() as int, (p.cursor() + 8) as int)) == v,
        q.cursor() == p.cursor() + 8,
{
    lemma_write_padding(p, q, le_bytes_u64(v));
    lemma_u64_round_trip(v);
}

/// A `u16` that was written reads back, and takes a whole word.
pub proof fn lemma_u16_write_read(p: Parcel, q: Parcel, v: u16)
    requires
        p.written(&q, le_bytes_u16(v)),
    ensures
        p.cursor() + 4 <= q.bytes().len(),
        le_u16(q.bytes().subrange(p.cursor() as int, (p.cursor() + 2) as int)) == v,
        q.cursor() == p.cursor() + 4,
{
    lemma_write_padding(p, q, le_bytes_u16(v));
    lemma_u16_round_trip(v);
}

/// A byte that was written reads back, and takes a whole word.
pub proof fn lemma_u8_write_read(p: Parcel, q: Parcel, v: u8)
    requires
        p.written(&q, seq![v]),
    ensures
        p.cursor() + 4 <= q.bytes().len(),
        q.bytes()[p.cursor() as int] == v,
        q.cursor() == p.cursor() + 4,
{
    lemma_write_padding(p, q, seq![v]);
    assert(q.bytes()[p.cursor() as int] == q.bytes().subrange(p.cursor() as int, (p.cursor() + 1) as int)[0]);
}

/// A byte string that was written reads back as the same characters, and
/// the read ends where the write ended.
pub proof fn lemma_str_write_read(p: Parcel, q: Parcel, s: Seq<char>)
    requires
        p.written(&q, str8_wire(s)),
        encode_utf8(s).len() <= 0x7fff_ffff,
    ensures
        str8_read(q.bytes(), p.cursor()) == Ok::<(Seq<char>, nat), BinderError>((s, q.cursor())),
{
    let c = p.cursor();
    let e = encode_utf8(s);
    let n = e.len();
    let w = str8_wire(s);
    lemma_write_padding(p, q, w);
    lemma_u32_round_trip(n as u32);
    let b = q.bytes();
    assert(b.subrange(c as int, (c + 4) as int) =~= w.subrange(0, 4));
    assert(w.subrange(0, 4) =~= le_bytes_u32(n as u32));
    assert((n as u32) as i32 == n);
    assert(b.subrange((c + 4) as int, (c + 4 + n) as int) =~= w.subrange(4, 4 + n as int));
    assert(w.subrange(4, 4 + n as int) =~= e);
    encode_utf8_valid_utf8(s);
    encode_utf8_decode_utf8(s);
    assert(padded(w.len()) == 4 + padded((n + 1) as nat));
}

/// An array of bytes that was written at `c` reads back: its length word
/// holds its length, and its bytes follow, padded, inside the buffer.
pub proof fn lemma_array_write_read(d: Seq<u8>, c: nat, data: Seq<u8>)
    requires
        data.len() <= 0x7fff_ffff,
    ensures
        ({
            let b = overwrite(d, c, le_bytes_u32(data.len() as u32) + pad_bytes(data));
            &&& c + 4 + padded(data.len()) <= b.len()
            &&& le_u32(b.subrange(c as int, (c + 4) as int)) as i32 == data.len()
            &&& b.subrange((c + 4) as int, (c + 4 + data.len()) as int) == data
        }),
{
    let n = data.len();
    let w = le_bytes_u32(n as u32) + pad_bytes(data);
    let b = overwrite(d, c, w);
    lemma_overwrite_window(d, c, w);
    lemma_u32_round_trip(n as u32);
    assert(b.subrange(c as int, (c + 4) as int) =~= le_bytes_u32(n as u32));
    assert((n as u32) as i32 == n);
    assert(b.subrange((c + 4) as int, (c + 4 + n) as int) =~= data);
}

/// The bytes of a sequence of code units read back as those units.
pub proof fn lemma_units_round_trip(u: Seq<u16>)
    ensures
        units_bytes(u).len() == 2 * u.len(),
        bytes_units(units_bytes(u), u.len()) == u,
{
    reveal(units_bytes);
    let b = units_bytes(u);
    assert forall|i: int| 0 <= i < u.len() implies #[trigger] bytes_units(b, u.len())[i] == u[i] by {
        lemma_u16_round_trip(u[i]);
        assert(b.subrange((2 * i) as int, (2 * i + 2) as int) =~= le_bytes_u16(u[i]));
    }
    assert(bytes_units(b, u.len()) =~= u);
}

/// The code units of a 16-bit string that was written at `c` read back, and
/// the read ends where the write ended.
pub proof fn lemma_str16_window(b: Seq<u8>, c: nat, s: Seq<char>)
    requires
        c + padded(str16_wire(s).len()) <= b.len(),
        b.subrange(c as int, (c + str16_wire(s).len()) as int) == str16_wire(s),
        utf16_of(s).len() < 0x7fff_ffff,
    ensures
        str16_read(b, c) == Ok::<(Seq<u16>, nat), BinderError>((utf16_of(s), c + padded(str16_wire(s).len()))),
{
    let u = utf16_of(s);
    let n = u.len() as int;
    let w = str16_wire(s);
    let ci = c as int;
    lemma_units_round_trip(u);
    lemma_u32_round_trip(n as u32);
    assert(w.len() == 2 * n + 6);
    assert(b.subrange(ci, (ci + 4) as int) =~= w.subrange(0, 4));
    assert(w.subrange(0, 4) =~= le_bytes_u32(n as u32));
    let m = le_u32(b.subrange(ci, (ci + 4) as int)) as i32;
    assert(m == n);
    let body = b.subrange((ci + 4) as int, (ci + 4 + 2 * n) as int);
    assert(body =~= w.subrange(4, (4 + 2 * n) as int));
    assert(w.subrange(4, (4 + 2 * n) as int) =~= units_bytes(u));
    assert(bytes_units(body, n as nat) == u);
    assert(padded(w.len()) == 4 + padded((2 * n + 2) as nat));
}

/// A 16-bit string that was written reads back as the same code units, and
/// the read ends where the write ended.
pub proof fn lemma_str16_write_read(p: Parcel, q: Parcel, s: Seq<char>)
    requires
        p.written(&q, str16_wire(s)),
        utf16_of(s).len() < 0x7fff_ffff,
    ensures
        str16_read(q.bytes(), p.cursor()) == Ok::<(Seq<u16>, nat), BinderError>((utf16_of(s), q.cursor())),
{
    lemma_write_padding(p, q, str16_wire(s));
    lemma_overwrite_window(p.bytes(), p.cursor(), pad_bytes(str16_wire(s)));
    lemma_str16_window(q.bytes(), p.cursor(), s);
}

/// An interface token that was written reads back as the code units of the
/// same name, and the read ends where the write ended.
pub proof fn lemma_interface_token_round_trip(d: Seq<u8>, c: nat, name: Seq<char>)
    requires
        utf16_of(name).len() < 0x7fff_ffff,
    ensures
        token_read(overwrite(d, c, token_header() + pad_bytes(str16_wire(name))), c) == Ok::<
            (Seq<u16>, nat),
            BinderError,
        >((utf16_of(name), c + 12 + padded(str16_wire(name).len()))),
{
    let h = token_header();
    let t = pad_bytes(str16_wire(name));
    let b = overwrite(d, c, h + t);
    lemma_overwrite_window(d, c, h + t);
    lemma_u32_round_trip(INTERFACE_HEADER);
    assert(b.subrange((c + 8) as int, (c + 12) as int) =~= (h + t).subrange(8, 12));
    assert((h + t).subrange(8, 12) =~= le_bytes_u32(INTERFACE_HEADER));
    let w = str16_wire(name);
    assert(b.subrange((c + 12) as int, (c + 12 + w.len()) as int) =~= (h + t).subrange(12, 12 + w.len() as int));
    assert((h + t).subrange(12, 12 + w.len() as int) =~= w);
    lemma_str16_window(b, c + 12, name);
}

/// An interface token whose marker word is not "SYST" fails to read with
/// `BadValue`.
pub proof fn lemma_interface_token_bad_marker(b: Seq<u8>, c: nat)
    requires
        c + 12 <= b.len(),
        le_u32(b.subrange((c + 8) as int, (c + 12) as int)) != INTERFACE_HEADER,
    ensures
        token_read(b, c) == Err::<(Seq<u16>, nat), BinderError>(BinderError::BadValue),
{
}

/// A sized block whose length word was written as `len + 4` ends, when read,
/// exactly `len` bytes after the word, whatever is read of it.
pub proof fn lemma_sized_block_end(b: Seq<u8>, c: nat, len: nat)
    requires
        len + 4 <= 0x7fff_ffff,
        b.subrange(c as int, (c + 4) as int) == le_bytes_u32((len + 4) as u32),
        c + 4 + len <= b.len(),
    ensures
        sized_end(b, c) == Ok::<nat, BinderError>(c + 4 + len),
{
    lemma_u32_round_trip((len + 4) as u32);
    assert(((len + 4) as u32) as i32 == len + 4);
}

/// A sized block whose length word is below four, or reaches past the
/// buffer, fails to read.
pub proof fn lemma_sized_block_corrupt(b: Seq<u8>, c: nat)
    requires
        c + 4 <= b.len(),
        ({
            let n = le_u32(b.subrange(c as int, (c + 4) as int)) as i32;
            n < 4 || c + n > b.len()
        }),
    ensures
        sized_end(b, c) is Err,
{
}

/// Any write keeps the offset table ordered: strictly increasing, every
/// entry a multiple of four and before the cursor, which stays a multiple
/// of four.
pub proof fn lemma_write_keeps_objects_ordered(p: Parcel, q: Parcel, bytes: Seq<u8>)
    requires
        p.objects_ordered(),
        p.written(&q, bytes),
    ensures
        q.objects_ordered(),
{
    lemma_write_padding(p, q, bytes);
}

} // verus!
