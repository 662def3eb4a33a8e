//! Byte strings, 16-bit strings and interface tokens in a parcel.
use super::{lemma_overwrite_concat, overwrite, pad_bytes, Parcel};
use crate::error::BinderError;
use crate::protocol::INTERFACE_HEADER;
use crate::text::{decode_utf16, decode_utf8_vec, encode_utf16, utf16_of};
use crate::wire::{le_bytes_u16, le_bytes_u32, le_u16, le_u32, padded};
use vstd::slice::slice_to_vec;
use vstd::utf8::{decode_utf8, encode_utf8, valid_utf8};
use vstd::prelude::*;

verus! {

/// A byte string on the wire: its length as a word, its bytes, a zero byte.
pub open spec fn str8_wire(s: Seq<char>) -> Seq<u8> {
    le_bytes_u32(encode_utf8(s).len() as u32) + encode_utf8(s) + seq![0u8]
}

/// The little-endian bytes of the code units `u`.
#[verifier::opaque]
pub open spec fn units_bytes(u: Seq<u16>) -> Seq<u8> {
    Seq::new(2 * u.len(), |i: int| le_bytes_u16(u[i / 2])[i % 2])
}

/// The `n` code units that the bytes `b` hold, little-endian.
pub open spec fn bytes_units(b: Seq<u8>, n: nat) -> Seq<u16> {
    Seq::new(n, |i: int| le_u16(b.subrange(2 * i, 2 * i + 2)))
}

/// A 16-bit string on the wire: its number of code units as a word, the
/// units, a zero unit.
pub open spec fn str16_wire(s: Seq<char>) -> Seq<u8> {
    le_bytes_u32(utf16_of(s).len() as u32) + units_bytes(utf16_of(s)) + seq![0u8, 0u8]
}

/// What reading a byte string at `pos` of `b` gives: the characters and the
/// position after the string, or the error.
pub open spec fn str8_read(b: Seq<u8>, at: nat) -> Result<(Seq<char>, nat), BinderError> {
    let pos = at as int;
    if pos + 4 > b.len() {
        Err(BinderError::NotEnoughData)
    } else {
        let n = le_u32(b.subrange(pos as int, pos + 4)) as i32;
        if n < 0 {
            Err(BinderError::BadValue)
        } else if pos + 4 + padded((n + 1) as nat) > b.len() {
            Err(BinderError::NotEnoughData)
        } else {
            let body = b.subrange(pos + 4, pos + 4 + n);
            if valid_utf8(body) {
                Ok((decode_utf8(body), (pos + 4 + padded((n + 1) as nat)) as nat))
            } else {
                Err(BinderError::Utf8Error)
            }
        }
    }
}

/// What reading a 16-bit string at `pos` of `b` gives: the code units, whose
/// decoding is the string, and the position after the string, or the error.
pub open spec fn str16_read(b: Seq<u8>, at: nat) -> Result<(Seq<u16>, nat), BinderError> {
    let pos = at as int;
    if pos + 4 > b.len() {
        Err(BinderError::NotEnoughData)
    } else {
        let n = le_u32(b.subrange(pos as int, pos + 4)) as i32;
        if n < 0 {
            Err(BinderError::BadValue)
        } else if pos + 4 + padded((2 * n + 2) as nat) > b.len() {
            Err(BinderError::NotEnoughData)
        } else {
            Ok((bytes_units(b.subrange(pos + 4, pos + 4 + 2 * n), n as nat), (pos + 4 + padded((2 * n + 2) as nat)) as nat))
        }
    }
}

/// The strict-mode policy word that opens an interface token.
pub const STRICT_MODE_POLICY: i32 = -0x3dff_fffc;

/// The work-source word of an interface token: no work source set.
pub const UNSET_WORK_SOURCE: i32 = -1;

/// The three words that open an interface token.
pub open spec fn token_header() -> Seq<u8> {
    le_bytes_u32(STRICT_MODE_POLICY as u32) + le_bytes_u32(UNSET_WORK_SOURCE as u32) + le_bytes_u32(INTERFACE_HEADER)
}

/// What reading an interface token at `pos` of `b` gives: the code units of
/// the interface name and the position after it, or the error.
pub open spec fn token_read(b: Seq<u8>, at: nat) -> Result<(Seq<u16>, nat), BinderError> {
    let pos = at as int;
    if pos + 12 > b.len() {
        Err(BinderError::NotEnoughData)
    } else if le_u32(b.subrange(pos + 8, pos + 12)) != INTERFACE_HEADER {
        Err(BinderError::BadValue)
    } else {
        str16_read(b, (pos + 12) as nat)
    }
}

impl Parcel {
    /// Writes `s` as a byte string: its length in bytes as a word, its UTF-8
    /// bytes, a zero byte, padded to a multiple of four. A string longer than
    /// `i32::MAX` bytes fails with `BadValue`.
    pub fn write_str(&mut self, s: &str) -> (r: Result<(), BinderError>)
        ensures
            r is Ok <==> encode_utf8(s@).len() <= 0x7fff_ffff && old(self).can_write(
                encode_utf8(s@).len() + 5,
            ),
            r is Ok ==> old(self).written(final(self), str8_wire(s@)),
            r is Err ==> r == Err::<(), BinderError>(BinderError::BadValue) && *final(self) == *old(self),
    {
        let bytes = s.as_bytes();
        let n = bytes.len();
        if n > 0x7fff_ffff {
            return Err(BinderError::BadValue);
        }
        let mut body = crate::wire::u32_to_le(n as u32);
        let mut text = slice_to_vec(bytes);
        body.append(&mut text);
        body.push(0u8);
        assert(body@ =~= str8_wire(s@));
        self.write_aligned_data(body.as_slice())
    }

    /// Reads a byte string at the cursor. A negative length fails with
    /// `BadValue`, bytes that are not UTF-8 with `Utf8Error`.
    pub fn read_str(&mut self) -> (r: Result<String, BinderError>)
        ensures
            final(self).bytes() == old(self).bytes(),
            final(self).offsets_seq() == old(self).offsets_seq(),
            final(self).hint() == old(self).hint(),
            final(self).work_source_pos() == old(self).work_source_pos(),
            match str8_read(old(self).bytes(), old(self).cursor()) {
                Ok((text, next)) => r is Ok && r->Ok_0@ == text && final(self).cursor() == next,
                Err(e) => r == Err::<String, BinderError>(e),
            },
    {
        let ghost b = self.data@;
        let ghost pos = self.pos;
        let n = match self.read_i32() {
            Ok(n) => n,
            Err(e) => return Err(e),
        };
        if n < 0 {
            return Err(BinderError::BadValue);
        }
        let mut body = match self.read_aligned_data(n as usize + 1) {
            Ok(v) => v,
            Err(e) => return Err(e),
        };
        body.truncate(n as usize);
        assert(body@ =~= b.subrange(pos + 4, pos + 4 + n));
        match decode_utf8_vec(body) {
            Some(text) => Ok(text),
            None => Err(BinderError::Utf8Error),
        }
    }

    /// Writes `s` as a 16-bit string: its number of UTF-16 code units as a
    /// word, the units, a zero unit, padded to a multiple of four. A string of
    /// more than `i32::MAX - 1` units fails with `BadValue`.
    pub fn write_str16(&mut self, s: &str) -> (r: Result<(), BinderError>)
        ensures
            r is Ok <==> utf16_of(s@).len() < 0x7fff_ffff && old(self).can_write(
                2 * utf16_of(s@).len() + 6,
            ),
            r is Ok ==> old(self).written(final(self), str16_wire(s@)),
            r is Err ==> r == Err::<(), BinderError>(BinderError::BadValue) && *final(self) == *old(self),
    {
        reveal(units_bytes);
        let units = encode_utf16(s);
        let n = units.len();
        if n >= 0x7fff_ffff {
            return Err(BinderError::BadValue);
        }
        let mut body = crate::wire::u32_to_le(n as u32);
        let ghost prefix = body@;
        let mut i: usize = 0;
        while i < n
            invariant
                n == units@.len(),
                n < 0x7fff_ffff,
                i <= n,
                body@ == prefix + units_bytes(units@.take(i as int)),
                prefix.len() == 4,
            decreases n - i,
        {
            let u = units[i];
            body.push((u & 0xff) as u8);
            body.push(((u >> 8) & 0xff) as u8);
            i = i + 1;
            reveal(units_bytes);
            assert(body@ =~= prefix + units_bytes(units@.take(i as int)));
        }
        body.push(0u8);
        body.push(0u8);
        assert(units@.take(n as int) =~= units@);
        assert(body@ =~= str16_wire(s@));
        self.write_aligned_data(body.as_slice())
    }

    /// Reads the code units of a 16-bit string at the cursor.
    fn read_units16(&mut self) -> (r: Result<Vec<u16>, BinderError>)
        ensures
            final(self).bytes() == old(self).bytes(),
            final(self).offsets_seq() == old(self).offsets_seq(),
            final(self).hint() == old(self).hint(),
            final(self).work_source_pos() == old(self).work_source_pos(),
            match str16_read(old(self).bytes(), old(self).cursor()) {
                Ok((units, next)) => r is Ok && r->Ok_0@ == units && final(self).cursor() == next,
                Err(e) => r == Err::<Vec<u16>, BinderError>(e),
            },
    {
        let ghost b = self.data@;
        let ghost pos = self.pos;
        let n = match self.read_i32() {
            Ok(n) => n,
            Err(e) => return Err(e),
        };
        if n < 0 {
            return Err(BinderError::BadValue);
        }
        let dlen = self.data.len();
        if self.pos > dlen || n as usize > (dlen - self.pos) / 2 {
            return Err(BinderError::NotEnoughData);
        }
        let nb = 2 * (n as usize) + 2;
        let body = match self.read_aligned_data(nb) {
            Ok(v) => v,
            Err(e) => return Err(e),
        };
        let ghost raw = b.subrange(pos + 4, pos + 4 + 2 * n);
        assert(forall|k: int| 0 <= k < 2 * n ==> body@[k] == raw[k]);
        let mut units: Vec<u16> = Vec::new();
        let mut i: usize = 0;
        while i < n as usize
            invariant
                0 <= n,
                i <= n,
                body@.len() == 2 * n + 2,
                raw.len() == 2 * n,
                forall|k: int| 0 <= k < 2 * n ==> body@[k] == raw[k],
                units@ == bytes_units(raw, n as nat).take(i as int),
            decreases n - i,
        {
            let u = crate::wire::u16_from_le(body.as_slice(), 2 * i);
            assert(body@.subrange(2 * i, 2 * i + 2) =~= raw.subrange(2 * i, 2 * i + 2));
            units.push(u);
            i = i + 1;
            assert(units@ =~= bytes_units(raw, n as nat).take(i as int));
        }
        assert(bytes_units(raw, n as nat).take(n as int) =~= bytes_units(raw, n as nat));
        Ok(units)
    }

    /// Reads a 16-bit string at the cursor. A negative length fails with
    /// `BadValue`, units that are not UTF-16 with `Utf16Error`.
    pub fn read_str16(&mut self) -> (r: Result<String, BinderError>)
        ensures
            final(self).bytes() == old(self).bytes(),
            final(self).offsets_seq() == old(self).offsets_seq(),
            final(self).hint() == old(self).hint(),
            final(self).work_source_pos() == old(self).work_source_pos(),
            match str16_read(old(self).bytes(), old(self).cursor()) {
                Ok((units, next)) => final(self).cursor() == next && (r is Ok ==> utf16_of(r->Ok_0@) == units)
                    && (r is Err ==> r == Err::<String, BinderError>(BinderError::Utf16Error))
                    && forall|t: Seq<char>| #[trigger] utf16_of(t) == units ==> r is Ok && r->Ok_0@ == t,
                Err(e) => r == Err::<String, BinderError>(e),
            },
    {
        let units = match self.read_units16() {
            Ok(u) => u,
            Err(e) => return Err(e),
        };
        match decode_utf16(units.as_slice()) {
            Some(text) => Ok(text),
            None => Err(BinderError::Utf16Error),
        }
    }

    /// Records the cursor as the position of the work-source word, unless a
    /// position was recorded before.
    pub fn update_work_source_request_header_pos(&mut self)
        ensures
            final(self).work_source_pos() == (match old(self).work_source_pos() {
                Some(p) => Some(p),
                None => Some(old(self).cursor()),
            }),
            final(self).bytes() == old(self).bytes(),
            final(self).cursor() == old(self).cursor(),
            final(self).offsets_seq() == old(self).offsets_seq(),
            final(self).hint() == old(self).hint(),
    {
        if !self.request_header_present {
            self.work_source_request_header_pos = self.pos;
            self.request_header_present = true;
        }
    }

    /// Writes an interface token: the strict-mode policy word, the unset
    /// work-source word, the marker "SYST", then `name` as a 16-bit string.
    pub fn write_interface_token(&mut self, name: &str) -> (r: Result<(), BinderError>)
        ensures
            r is Ok <==> utf16_of(name@).len() < 0x7fff_ffff && old(self).can_write(
                2 * utf16_of(name@).len() + 18,
            ),
            r is Ok ==> {
                &&& final(self).bytes() == overwrite(
                    old(self).bytes(),
                    old(self).cursor(),
                    token_header() + pad_bytes(str16_wire(name@)),
                )
                &&& final(self).cursor() == old(self).cursor() + 12 + padded(str16_wire(name@).len())
                &&& final(self).offsets_seq() == old(self).offsets_seq()
                &&& final(self).hint() == old(self).hint()
                &&& final(self).work_source_pos() == (match old(self).work_source_pos() {
                    Some(p) => Some(p),
                    None => Some(old(self).cursor() + 4),
                })
            },
            r is Err ==> r == Err::<(), BinderError>(BinderError::BadValue) && *final(self) == *old(self),
    {
        let ghost c = self.pos;
        let ghost d = self.data@;
        let units = encode_utf16(name);
        let n = units.len();
        if n >= 0x7fff_ffff {
            return Err(BinderError::BadValue);
        }
        let body: u128 = 2 * (n as u128) + 6;
        let padded_body: u128 = if body % 4 == 0 {
            body
        } else {
            body + 4 - body % 4
        };
        if self.pos as u128 + 12 + padded_body > usize::MAX as u128 {
            return Err(BinderError::BadValue);
        }
        assert(padded_body == padded((2 * n + 6) as nat));
        let w1 = self.write_i32(STRICT_MODE_POLICY);
        self.update_work_source_request_header_pos();
        let w2 = self.write_i32(UNSET_WORK_SOURCE);
        let w3 = self.write_u32(INTERFACE_HEADER);
        assert(w1 is Ok && w2 is Ok && w3 is Ok);
        proof {
            let h1 = le_bytes_u32(STRICT_MODE_POLICY as u32);
            let h2 = le_bytes_u32(UNSET_WORK_SOURCE as u32);
            let h3 = le_bytes_u32(INTERFACE_HEADER);
            assert(pad_bytes(h1) =~= h1);
            assert(pad_bytes(h2) =~= h2);
            assert(pad_bytes(h3) =~= h3);
            lemma_overwrite_concat(d, c as nat, h1, h2);
            lemma_overwrite_concat(d, c as nat, h1 + h2, h3);
            assert(h1 + h2 + h3 == token_header());
        }
        let r = self.write_str16(name);
        assert(r is Ok);
        proof {
            lemma_overwrite_concat(d, c as nat, token_header(), pad_bytes(str16_wire(name@)));
        }
        r
    }

    /// Reads an interface token at the cursor and returns the interface name.
    /// A marker other than "SYST" fails with `BadValue`.
    pub fn read_interface_token(&mut self) -> (r: Result<String, BinderError>)
        ensures
            final(self).bytes() == old(self).bytes(),
            final(self).offsets_seq() == old(self).offsets_seq(),
            match token_read(old(self).bytes(), old(self).cursor()) {
                Ok((units, next)) => final(self).cursor() == next && (r is Ok ==> utf16_of(r->Ok_0@) == units)
                    && (r is Err ==> r == Err::<String, BinderError>(BinderError::Utf16Error))
                    && forall|t: Seq<char>| #[trigger] utf16_of(t) == units ==> r is Ok && r->Ok_0@ == t,
                Err(e) => r == Err::<String, BinderError>(e),
            },
    {
        let ghost b = self.data@;
        let ghost c = self.pos;
        match self.read_i32() {
            Ok(_) => {},
            Err(e) => return Err(e),
        }
        match self.read_i32() {
            Ok(_) => {},
            Err(e) => return Err(e),
        }
        let marker = match self.read_u32() {
            Ok(m) => m,
            Err(e) => return Err(e),
        };
        assert(b.subrange(c + 8, c + 12) =~= self.data@.subrange(c + 8, c + 12));
        if marker != INTERFACE_HEADER {
            return Err(BinderError::BadValue);
        }
        self.read_str16()
    }
}

} // verus!
