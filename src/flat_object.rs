//! The flat object: the fixed-layout record that carries one kernel object
//! (a binder, a handle, a file descriptor) inside a parcel.
use crate::error::BinderError;
use crate::wire::{
    le_bytes_u32, le_bytes_u64, le_u32, le_u64, lemma_u32_round_trip, lemma_u64_round_trip,
};
use vstd::prelude::*;

verus! {

/// The size of a flat object on the wire: tag, flags, payload and cookie.
pub const FLAT_OBJECT_SIZE: usize = 24;

pub const FLAT_BINDER_FLAG_PRIORITY_MASK: u32 = 255;
pub const FLAT_BINDER_FLAG_ACCEPTS_FDS: u32 = 256;

/// The characters "sb*" and the large-object marker 0x85, packed most significant first.
pub const TF_BINDER: u32 = 0x73622a85;
/// The characters "wb*" and the large-object marker 0x85, packed most significant first.
pub const TF_WEAKBINDER: u32 = 0x77622a85;
/// The characters "sh*" and the large-object marker 0x85, packed most significant first.
pub const TF_HANDLE: u32 = 0x73682a85;
/// The characters "wh*" and the large-object marker 0x85, packed most significant first.
pub const TF_WEAKHANDLE: u32 = 0x77682a85;
/// The characters "fd*" and the large-object marker 0x85, packed most significant first.
pub const TF_FD: u32 = 0x66642a85;
/// The characters "fda" and the large-object marker 0x85, packed most significant first.
pub const TF_FDA: u32 = 0x66646185;
/// The characters "pt*" and the large-object marker 0x85, packed most significant first.
pub const TF_PTR: u32 = 0x70742a85;

/// The kind of kernel object that a flat object carries.
#[derive(Debug, Clone, Copy, PartialEq, Eq, Hash, Structural)]
pub enum BinderType {
    Binder,
    WeakBinder,
    Handle,
    WeakHandle,
    Fd,
    Fda,
    Ptr,
}

impl BinderType {
    /// The tag word of this kind.
    pub open spec fn wire(self) -> u32 {
        match self {
            BinderType::Binder => TF_BINDER,
            BinderType::WeakBinder => TF_WEAKBINDER,
            BinderType::Handle => TF_HANDLE,
            BinderType::WeakHandle => TF_WEAKHANDLE,
            BinderType::Fd => TF_FD,
            BinderType::Fda => TF_FDA,
            BinderType::Ptr => TF_PTR,
        }
    }

    /// The kind whose tag word is `v`, if there is one.
    pub open spec fn decode(v: u32) -> Option<Self> {
        if v == TF_BINDER {
            Some(BinderType::Binder)
        } else if v == TF_WEAKBINDER {
            Some(BinderType::WeakBinder)
        } else if v == TF_HANDLE {
            Some(BinderType::Handle)
        } else if v == TF_WEAKHANDLE {
            Some(BinderType::WeakHandle)
        } else if v == TF_FD {
            Some(BinderType::Fd)
        } else if v == TF_FDA {
            Some(BinderType::Fda)
        } else if v == TF_PTR {
            Some(BinderType::Ptr)
        } else {
            None
        }
    }

    /// The tag word of this kind.
    pub fn value(&self) -> (r: u32)
        ensures
            r == self.wire(),
    {
        match self {
            BinderType::Binder => TF_BINDER,
            BinderType::WeakBinder => TF_WEAKBINDER,
            BinderType::Handle => TF_HANDLE,
            BinderType::WeakHandle => TF_WEAKHANDLE,
            BinderType::Fd => TF_FD,
            BinderType::Fda => TF_FDA,
            BinderType::Ptr => TF_PTR,
        }
    }

    /// The kind whose tag word is `v`; `None` for any other word.
    pub fn from_u32(v: u32) -> (r: Option<Self>)
        ensures
            r == Self::decode(v),
    {
        if v == TF_BINDER {
            Some(BinderType::Binder)
        } else if v == TF_WEAKBINDER {
            Some(BinderType::WeakBinder)
        } else if v == TF_HANDLE {
            Some(BinderType::Handle)
        } else if v == TF_WEAKHANDLE {
            Some(BinderType::WeakHandle)
        } else if v == TF_FD {
            Some(BinderType::Fd)
        } else if v == TF_FDA {
            Some(BinderType::Fda)
        } else if v == TF_PTR {
            Some(BinderType::Ptr)
        } else {
            None
        }
    }
}

/// One transferable kernel object. The tag alone decides how the payload is
/// read: a handle number (handles, file descriptors) in its low 32 bits, or an
/// address (binders, pointers).
#[derive(Debug, Clone, Copy, PartialEq, Eq, Structural)]
pub struct BinderFlatObject {
    pub binder_type: BinderType,
    pub flags: u32,
    pub payload: u64,
    pub cookie: u64,
}

/// The 24 bytes of `o` on the wire.
pub open spec fn flat_bytes(o: BinderFlatObject) -> Seq<u8> {
    le_bytes_u32(o.binder_type.wire()) + le_bytes_u32(o.flags) + le_bytes_u64(o.payload) + le_bytes_u64(o.cookie)
}

/// The flat object that the first 24 bytes of `b` hold, if their tag is known.
pub open spec fn flat_decode(b: Seq<u8>) -> Option<BinderFlatObject> {
    match BinderType::decode(le_u32(b.subrange(0, 4))) {
        Some(t) => Some(
            BinderFlatObject {
                binder_type: t,
                flags: le_u32(b.subrange(4, 8)),
                payload: le_u64(b.subrange(8, 16)),
                cookie: le_u64(b.subrange(16, 24)),
            },
        ),
        None => None,
    }
}

/// Whether `o` is the null object: no address and no cookie.
pub open spec fn is_null_object(o: BinderFlatObject) -> bool {
    o.payload == 0 && o.cookie == 0
}

/// Decoding the bytes of a flat object gives it back.
pub proof fn lemma_flat_round_trip(o: BinderFlatObject)
    ensures
        flat_bytes(o).len() == 24,
        flat_decode(flat_bytes(o)) == Some(o),
{
    let b = flat_bytes(o);
    lemma_u32_round_trip(o.binder_type.wire());
    lemma_u32_round_trip(o.flags);
    lemma_u64_round_trip(o.payload);
    lemma_u64_round_trip(o.cookie);
    assert(b.subrange(0, 4) =~= le_bytes_u32(o.binder_type.wire()));
    assert(b.subrange(4, 8) =~= le_bytes_u32(o.flags));
    assert(b.subrange(8, 16) =~= le_bytes_u64(o.payload));
    assert(b.subrange(16, 24) =~= le_bytes_u64(o.cookie));
    assert(BinderType::decode(o.binder_type.wire()) == Some(o.binder_type));
}

/// Relies on `nix::unistd::close`: closes the descriptor `fd`.
#[verifier::external_body]
pub(crate) fn close_fd(fd: i32) -> (r: Result<(), nix::errno::Errno>) {
    nix::unistd::close(fd)
}

/// Relies on `nix::fcntl::fcntl` with `F_DUPFD_CLOEXEC`: a new descriptor,
/// close-on-exec, for the file that `fd` names. By fcntl(2) it is the lowest
/// free descriptor number, so it is not negative and differs from `fd`,
/// which is open.
#[verifier::external_body]
pub(crate) fn dup_cloexec(fd: i32) -> (r: Result<i32, nix::errno::Errno>)
    ensures
        r matches Ok(n) ==> n >= 0 && n != fd,
{
    nix::fcntl::fcntl(fd, nix::fcntl::FcntlArg::F_DUPFD_CLOEXEC(0))
}

impl BinderFlatObject {
    /// The handle number: the low 32 bits of the payload.
    pub open spec fn spec_handle(self) -> u32 {
        (self.payload & 0xffff_ffff) as u32
    }

    /// A file-descriptor object for `raw_fd`; with `take_ownership` the
    /// receiver owns the descriptor (cookie 1).
    pub fn new_with_fd(raw_fd: i32, take_ownership: bool) -> (r: Self)
        ensures
            r.binder_type == BinderType::Fd,
            r.flags == 0x7f & FLAT_BINDER_FLAG_ACCEPTS_FDS,
            r.payload == raw_fd as u32 as u64,
            r.cookie == if take_ownership { 1u64 } else { 0u64 },
    {
        BinderFlatObject {
            binder_type: BinderType::Fd,
            flags: 0x7f & FLAT_BINDER_FLAG_ACCEPTS_FDS,
            payload: raw_fd as u32 as u64,
            cookie: if take_ownership {
                1
            } else {
                0
            },
        }
    }

    /// An object of kind `binder_type` with the given payload, cookie and flags.
    pub fn new(binder_type: BinderType, payload: u64, cookie: u64, flags: u32) -> (r: Self)
        ensures
            r == (BinderFlatObject { binder_type, flags, payload, cookie }),
    {
        BinderFlatObject { binder_type, flags, payload, cookie }
    }

    /// The handle number: the low 32 bits of the payload.
    pub fn handle(&self) -> (r: u32)
        ensures
            r == self.spec_handle(),
    {
        (self.payload & 0xffff_ffff) as u32
    }

    /// Sets the handle number; the payload becomes that number.
    pub fn set_handle(&mut self, handle: u32)
        ensures
            *final(self) == (BinderFlatObject { payload: handle as u64, ..*old(self) }),
    {
        self.payload = handle as u64;
    }

    /// The address: the whole payload.
    pub fn pointer(&self) -> (r: u64)
        ensures
            r == self.payload,
    {
        self.payload
    }

    /// Sets the address.
    pub fn set_pointer(&mut self, pointer: u64)
        ensures
            *final(self) == (BinderFlatObject { payload: pointer, ..*old(self) }),
    {
        self.payload = pointer;
    }

    pub fn cookie(&self) -> (r: u64)
        ensures
            r == self.cookie,
    {
        self.cookie
    }

    pub fn set_cookie(&mut self, cookie: u64)
        ensures
            *final(self) == (BinderFlatObject { cookie, ..*old(self) }),
    {
        self.cookie = cookie;
    }

    pub fn header_type(&self) -> (r: BinderType)
        ensures
            r == self.binder_type,
    {
        self.binder_type
    }

    /// The descriptor that the receiver owns, for a file-descriptor object.
    pub fn owned_fd(&self) -> (r: Option<i32>)
        ensures
            r == (if self.binder_type == BinderType::Fd {
                Some(self.spec_handle() as i32)
            } else {
                None::<i32>
            }),
    {
        if self.binder_type != BinderType::Fd {
            return None;
        }
        Some(self.handle() as i32)
    }

    /// The descriptor, borrowed, for a file-descriptor object.
    pub fn borrowed_fd(&self) -> (r: Option<i32>)
        ensures
            r == (if self.binder_type == BinderType::Fd {
                Some(self.spec_handle() as i32)
            } else {
                None::<i32>
            }),
    {
        if self.binder_type != BinderType::Fd {
            return None;
        }
        Some(self.handle() as i32)
    }

    /// Whether `acquire` and `release` are defined for objects of this kind.
    pub open spec fn counted(self) -> bool {
        self.binder_type == BinderType::Binder || self.binder_type == BinderType::Handle
            || self.binder_type == BinderType::Fd
    }

    /// Takes a reference on the object. Binders and handles take a strong
    /// reference on the remote side; descriptors are not counted. Any other
    /// kind fails with `InvalidOperation`.
    pub fn acquire(&self) -> (r: Result<(), BinderError>)
        ensures
            r is Ok <==> self.counted(),
            r is Err ==> r == Err::<(), BinderError>(BinderError::InvalidOperation),
    {
        match self.binder_type {
            BinderType::Binder | BinderType::Handle | BinderType::Fd => Ok(()),
            _ => Err(BinderError::InvalidOperation),
        }
    }

    /// Drops the reference that `acquire` took. A descriptor that the object
    /// owns (cookie non-zero) is closed, and the cookie cleared, so that a
    /// second release closes nothing. Any kind but binders, handles and
    /// descriptors fails with `InvalidOperation`.
    pub fn release(&mut self) -> (r: Result<(), BinderError>)
        ensures
            !old(self).counted() ==> r == Err::<(), BinderError>(BinderError::InvalidOperation)
                && *final(self) == *old(self),
            old(self).counted() && old(self).binder_type != BinderType::Fd ==> r is Ok && *final(self)
                == *old(self),
            old(self).binder_type == BinderType::Fd ==> *final(self) == (BinderFlatObject {
                cookie: 0,
                ..*old(self)
            }),
            old(self).binder_type == BinderType::Fd && old(self).cookie == 0 ==> r is Ok,
            old(self).counted() ==> (r matches Err(e) ==> e is NixError),
    {
        match self.binder_type {
            BinderType::Binder | BinderType::Handle => Ok(()),
            BinderType::Fd => {
                if self.cookie != 0 {
                    self.cookie = 0;
                    match close_fd(self.handle() as i32) {
                        Ok(()) => Ok(()),
                        Err(e) => Err(BinderError::NixError(e)),
                    }
                } else {
                    Ok(())
                }
            },
            _ => Err(BinderError::InvalidOperation),
        }
    }

    /// The 24 bytes of this object on the wire.
    pub fn to_bytes(&self) -> (r: Vec<u8>)
        ensures
            r@ == flat_bytes(*self),
    {
        let mut out = crate::wire::u32_to_le(self.binder_type.value());
        let mut b = crate::wire::u32_to_le(self.flags);
        out.append(&mut b);
        let mut c = crate::wire::u64_to_le(self.payload);
        out.append(&mut c);
        let mut d = crate::wire::u64_to_le(self.cookie);
        out.append(&mut d);
        out
    }

    /// The object that the 24 bytes of `b` starting at `at` hold; fails with
    /// `BadType` where the tag is not a known kind.
    pub fn from_bytes(b: &[u8], at: usize) -> (r: Result<Self, BinderError>)
        requires
            at + 24 <= b@.len(),
        ensures
            r matches Ok(o) ==> flat_decode(b@.subrange(at as int, at + 24)) == Some(o),
            r is Err ==> flat_decode(b@.subrange(at as int, at + 24)) is None && r == Err::<
                Self,
                BinderError,
            >(BinderError::BadType),
    {
        let ghost s = b@.subrange(at as int, at + 24);
        let len = b.len();
        assert(at + 24 <= len);
        let tag = crate::wire::u32_from_le(b, at);
        let flags = crate::wire::u32_from_le(b, at + 4);
        let payload = crate::wire::u64_from_le(b, at + 8);
        let cookie = crate::wire::u64_from_le(b, at + 16);
        assert(s.subrange(0, 4) =~= b@.subrange(at as int, at + 4));
        assert(s.subrange(4, 8) =~= b@.subrange(at + 4, at + 8));
        assert(s.subrange(8, 16) =~= b@.subrange(at + 8, at + 16));
        assert(s.subrange(16, 24) =~= b@.subrange(at + 16, at + 24));
        match BinderType::from_u32(tag) {
            Some(t) => Ok(BinderFlatObject { binder_type: t, flags, payload, cookie }),
            None => Err(BinderError::BadType),
        }
    }
}

impl Default for BinderFlatObject {
    /// A binder object with no address, cookie or flags.
    fn default() -> (r: Self)
        ensures
            r == (BinderFlatObject { binder_type: BinderType::Binder, flags: 0, payload: 0, cookie: 0 }),
    {
        BinderFlatObject { binder_type: BinderType::Binder, flags: 0, payload: 0, cookie: 0 }
    }
}

} // verus!
