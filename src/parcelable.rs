//! Values that know how to write themselves to a parcel and read themselves
//! back.
use crate::error::BinderError;
use crate::flat_object::BinderType;
use crate::parcel::Parcel;
use crate::protocol::{BinderCommand, BinderReturn, Transaction};
use crate::wire::{le_bytes_u32, le_u32};
use vstd::prelude::*;

verus! {

/// A value with a wire form in a parcel.
pub trait Parcelable: Sized {
    fn deserialize(parcel: &mut Parcel) -> Result<Self, BinderError>;

    fn serialize(&self, parcel: &mut Parcel) -> Result<(), BinderError>;
}

impl Parcelable for BinderCommand {
    /// Reads a command code; a code outside the protocol fails with
    /// `FailedParseParcel`.
    fn deserialize(parcel: &mut Parcel) -> (r: Result<Self, BinderError>)
        ensures
            old(parcel).can_read(4) ==> match BinderCommand::decode(le_u32(old(parcel).peek(4))) {
                Some(c) => r == Ok::<Self, BinderError>(c),
                None => r == Err::<Self, BinderError>(BinderError::FailedParseParcel(le_u32(old(parcel).peek(4)))),
            },
            !old(parcel).can_read(4) ==> r == Err::<Self, BinderError>(BinderError::NotEnoughData),
    {
        let v = match parcel.read_u32() {
            Ok(v) => v,
            Err(e) => return Err(e),
        };
        match BinderCommand::from_u32(v) {
            Some(c) => Ok(c),
            None => Err(BinderError::FailedParseParcel(v)),
        }
    }

    /// Writes the command code.
    fn serialize(&self, parcel: &mut Parcel) -> (r: Result<(), BinderError>)
        ensures
            r is Ok <==> old(parcel).can_write(4),
            r is Ok ==> old(parcel).written(final(parcel), le_bytes_u32(self.wire())),
    {
        parcel.write_u32(self.value())
    }
}

impl Parcelable for BinderReturn {
    /// Reads a return code; a code outside the protocol fails with
    /// `FailedParseParcel`.
    fn deserialize(parcel: &mut Parcel) -> (r: Result<Self, BinderError>)
        ensures
            old(parcel).can_read(4) ==> match BinderReturn::decode(le_u32(old(parcel).peek(4))) {
                Some(c) => r == Ok::<Self, BinderError>(c),
                None => r == Err::<Self, BinderError>(BinderError::FailedParseParcel(le_u32(old(parcel).peek(4)))),
            },
            !old(parcel).can_read(4) ==> r == Err::<Self, BinderError>(BinderError::NotEnoughData),
    {
        let v = match parcel.read_u32() {
            Ok(v) => v,
            Err(e) => return Err(e),
        };
        match BinderReturn::from_u32(v) {
            Some(c) => Ok(c),
            None => Err(BinderError::FailedParseParcel(v)),
        }
    }

    /// Writes the return code.
    fn serialize(&self, parcel: &mut Parcel) -> (r: Result<(), BinderError>)
        ensures
            r is Ok <==> old(parcel).can_write(4),
            r is Ok ==> old(parcel).written(final(parcel), le_bytes_u32(self.wire())),
    {
        parcel.write_u32(self.value())
    }
}

impl Parcelable for Transaction {
    /// Reads a reserved transaction code; any other code fails with
    /// `FailedParseParcel`.
    fn deserialize(parcel: &mut Parcel) -> (r: Result<Self, BinderError>)
        ensures
            old(parcel).can_read(4) ==> match Transaction::decode(le_u32(old(parcel).peek(4))) {
                Some(c) => r == Ok::<Self, BinderError>(c),
                None => r == Err::<Self, BinderError>(BinderError::FailedParseParcel(le_u32(old(parcel).peek(4)))),
            },
            !old(parcel).can_read(4) ==> r == Err::<Self, BinderError>(BinderError::NotEnoughData),
    {
        let v = match parcel.read_u32() {
            Ok(v) => v,
            Err(e) => return Err(e),
        };
        match Transaction::from_u32(v) {
            Some(c) => Ok(c),
            None => Err(BinderError::FailedParseParcel(v)),
        }
    }

    /// Writes the transaction code.
    fn serialize(&self, parcel: &mut Parcel) -> (r: Result<(), BinderError>)
        ensures
            r is Ok <==> old(parcel).can_write(4),
            r is Ok ==> old(parcel).written(final(parcel), le_bytes_u32(self.wire())),
    {
        parcel.write_u32(self.value())
    }
}

impl Parcelable for BinderType {
    /// Reads an object tag; an unknown tag fails with `FailedParseParcel`.
    fn deserialize(parcel: &mut Parcel) -> (r: Result<Self, BinderError>)
        ensures
            old(parcel).can_read(4) ==> match BinderType::decode(le_u32(old(parcel).peek(4))) {
                Some(c) => r == Ok::<Self, BinderError>(c),
                None => r == Err::<Self, BinderError>(BinderError::FailedParseParcel(le_u32(old(parcel).peek(4)))),
            },
            !old(parcel).can_read(4) ==> r == Err::<Self, BinderError>(BinderError::NotEnoughData),
    {
        let v = match parcel.read_u32() {
            Ok(v) => v,
            Err(e) => return Err(e),
        };
        match BinderType::from_u32(v) {
            Some(c) => Ok(c),
            None => Err(BinderError::FailedParseParcel(v)),
        }
    }

    /// Writes the object tag.
    fn serialize(&self, parcel: &mut Parcel) -> (r: Result<(), BinderError>)
        ensures
            r is Ok <==> old(parcel).can_write(4),
            r is Ok ==> old(parcel).written(final(parcel), le_bytes_u32(self.wire())),
    {
        parcel.write_u32(self.value())
    }
}

impl Parcel {
    /// Reads a value of type `D` at the cursor into `x`; on a failure `x`
    /// keeps its value.
    pub fn read_onto<D: Parcelable>(&mut self, x: &mut D) -> (r: Result<(), BinderError>)
        ensures
            r is Err ==> *final(x) == *old(x),
    {
        match D::deserialize(self) {
            Ok(v) => {
                *x = v;
                Ok(())
            },
            Err(e) => Err(e),
        }
    }
}

/// A service that answers incoming calls: given the call code and the
/// request parcel, it returns the reply parcel.
pub trait BinderService {
    fn progress_request(&self, code: u32, data: &mut Parcel) -> Parcel;
}

} // verus!
