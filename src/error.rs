use vstd::prelude::*;

verus! {

#[verifier::external_type_specification]
#[verifier::external_body]
pub struct ExErrno(nix::errno::Errno);

/// Every failure that the library reports.
#[derive(Debug, Clone, Copy, PartialEq, Eq)]
pub enum BinderError {
    /// A system call failed with the given errno.
    NixError(nix::errno::Errno),
    /// A byte string read from a parcel is not valid UTF-8.
    Utf8Error,
    /// A 16-bit string read from a parcel is not valid UTF-16.
    Utf16Error,
    /// A value read from a parcel is not one of a closed set of codes.
    FailedParseParcel(u32),
    /// A length, size or marker has a value that the format does not allow.
    BadValue,
    /// A non-nullable value was encoded as null.
    UnexpectedNull,
    /// The parcel ends before the value that is being read.
    NotEnoughData,
    /// An object was read at a position that the offset table does not list.
    BadType,
    /// The operation is not defined for this kind of object.
    InvalidOperation,
    /// The driver sent a return code that is not part of the protocol.
    UnknownReturn(u32),
    /// The driver answered a transaction with a dead reply.
    DeadReply,
    /// The driver answered a transaction with a failed reply.
    FailedReply,
    /// The driver reported an error status.
    DriverError(i32),
    /// The driver consumed only part of a write buffer.
    PartialWrite { consumed: usize, size: usize },
}

} // verus!
