//! The flag register: four independent boolean conditions, all initially
//! false.

use vstd::prelude::*;

verus! {

/// The four condition flags.
///
/// `carry` is the unsigned carry (or borrow) out of the most recent additive
/// operation, `overflow` its signed overflow, `zero` whether the most recent
/// flag-setting result was zero, and `signed` whether its high bit was set.
#[derive(Clone, Copy, Debug, PartialEq, Eq, Structural)]
pub struct Flags {
    pub carry: bool,
    pub overflow: bool,
    pub zero: bool,
    pub signed: bool,
}

impl Flags {
    /// The flag state with every condition clear.
    pub open spec fn spec_clear() -> Flags {
        Flags { carry: false, overflow: false, zero: false, signed: false }
    }

    /// Creates the initial flag state: all four conditions false.
    pub fn new() -> (flags: Flags)
        ensures
            flags == Flags::spec_clear(),
    {
        Flags { carry: false, overflow: false, zero: false, signed: false }
    }
}

impl Default for Flags {
    /// The default flag state equals the initial one: all conditions false.
    fn default() -> (flags: Flags)
        ensures
            flags == Flags::spec_clear(),
    {
        Flags::new()
    }
}

} // verus!
