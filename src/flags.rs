use vstd::prelude::*;

verus! {

/// Flags that configure the render behaviour, held as a bit set.
///
/// Plain-text errors are always requested from the engine, so they are not
/// a flag that callers can switch.
#[derive(Debug, Clone, Copy, PartialEq, Eq)]
pub struct Flags {
    bits: u32,
}

/// The bit of the engine's flag word that inverts the default palette.
pub const DARK_MODE_BIT: u32 = 2;

/// The bit of the engine's flag word that asks for plain-text diagnostics.
pub const PLAINTEXT_ERRORS_BIT: u32 = 1;

impl Flags {
    pub closed spec fn spec_bits(self) -> u32 {
        self.bits
    }

    /// The empty set of flags.
    pub fn empty() -> (r: Flags)
        ensures
            r.spec_bits() == 0,
    {
        Flags { bits: 0 }
    }

    /// The flag that inverts the default stroke and fill palette for dark
    /// backgrounds.
    pub fn dark_mode() -> (r: Flags)
        ensures
            r.spec_bits() == DARK_MODE_BIT,
    {
        Flags { bits: DARK_MODE_BIT }
    }

    /// The raw bit word.
    pub fn bits(&self) -> (r: u32)
        ensures
            r == self.spec_bits(),
    {
        self.bits
    }

    /// Whether every bit of `other` is set in `self`.
    pub fn contains(&self, other: Flags) -> (r: bool)
        ensures
            r == (self.spec_bits() & other.spec_bits() == other.spec_bits()),
    {
        self.bits & other.bits == other.bits
    }

    /// Sets every bit of `other` in `self`.
    pub fn insert(&mut self, other: Flags)
        ensures
            final(self).spec_bits() == old(self).spec_bits() | other.spec_bits(),
    {
        self.bits = self.bits | other.bits;
    }

    /// Clears every bit of `other` in `self`.
    pub fn remove(&mut self, other: Flags)
        ensures
            final(self).spec_bits() == old(self).spec_bits() & !other.spec_bits(),
    {
        self.bits = self.bits & !other.bits;
    }

    /// Whether dark mode is set.
    pub fn is_dark_mode(&self) -> (r: bool)
        ensures
            r == (self.spec_bits() & DARK_MODE_BIT == DARK_MODE_BIT),
    {
        self.bits & DARK_MODE_BIT == DARK_MODE_BIT
    }
}

impl Default for Flags {
    fn default() -> (r: Flags)
        ensures
            r.spec_bits() == 0,
    {
        Flags { bits: 0 }
    }
}

} // verus!
