//! The stability promise of an interface, as it travels on the wire.
use crate::error::BinderError;
use vstd::prelude::*;

verus! {

/// The version of Android that the library speaks to.
pub fn get_android_version() -> (r: u32)
    ensures
        r == 15,
{
    15
}

/// The category bits that Android 12 adds to a stability word.
pub const STABILITY_CATEGORY_V12: i32 = 0x0c00_0000;

/// An interface may promise to be a stable vendor interface (`Vintf`) or make
/// no stability promise (`Local`).
#[derive(Debug, Clone, Copy, PartialEq, Eq, PartialOrd, Ord, Structural)]
pub enum Stability {
    /// Visible to other modules in the same compilation context.
    Local,
    Vendor,
    System,
    /// A vendor interface object, which promises to be stable.
    Vintf,
}

impl Stability {
    /// The word of this stability on the wire.
    pub open spec fn wire(self) -> i32 {
        match self {
            Stability::Local => 0,
            Stability::Vendor => 0b000011,
            Stability::System => 0b001100,
            Stability::Vintf => 0b111111,
        }
    }

    /// The word of this stability on the wire.
    pub fn value(&self) -> (r: i32)
        ensures
            r == self.wire(),
    {
        match self {
            Stability::Local => 0,
            Stability::Vendor => 0b000011,
            Stability::System => 0b001100,
            Stability::Vintf => 0b111111,
        }
    }

    /// The word of this stability for a given Android version: version 12
    /// adds its category bits.
    pub fn value_for_version(&self, android_version: u32) -> (r: i32)
        ensures
            r == (if android_version == 12 {
                self.wire() | STABILITY_CATEGORY_V12
            } else {
                self.wire()
            }),
    {
        if android_version == 12 {
            self.value() | STABILITY_CATEGORY_V12
        } else {
            self.value()
        }
    }

    /// The stability whose word is `v`; any other word fails with `BadValue`.
    pub fn try_from_i32(v: i32) -> (r: Result<Stability, BinderError>)
        ensures
            r matches Ok(s) ==> s.wire() == v,
            r is Err ==> r == Err::<Stability, BinderError>(BinderError::BadValue) && forall|s: Stability|
                s.wire() != v,
    {
        if v == 0 {
            Ok(Stability::Local)
        } else if v == 0b000011 {
            Ok(Stability::Vendor)
        } else if v == 0b001100 {
            Ok(Stability::System)
        } else if v == 0b111111 {
            Ok(Stability::Vintf)
        } else {
            assert forall|s: Stability| s.wire() != v by {
                match s {
                    Stability::Local => {},
                    Stability::Vendor => {},
                    Stability::System => {},
                    Stability::Vintf => {},
                }
            }
            Err(BinderError::BadValue)
        }
    }
}

impl Default for Stability {
    fn default() -> (r: Self)
        ensures
            r == Stability::System,
    {
        Stability::System
    }
}

impl From<Stability> for i32 {
    fn from(s: Stability) -> (r: i32) {
        s.value()
    }
}

impl vstd::std_specs::convert::FromSpecImpl<Stability> for i32 {
    open spec fn obeys_from_spec() -> bool {
        true
    }

    open spec fn from_spec(s: Stability) -> i32 {
        s.wire()
    }
}

} // verus!
