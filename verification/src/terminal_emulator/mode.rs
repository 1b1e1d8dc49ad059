//! The mode flags of the terminal.

use vstd::prelude::*;

verus! {

pub const SHOW_CURSOR: u16 = 0b00_0000_0000_0001;

pub const APP_CURSOR: u16 = 0b00_0000_0000_0010;

pub const APP_KEYPAD: u16 = 0b00_0000_0000_0100;

pub const MOUSE_REPORT_CLICK: u16 = 0b00_0000_0000_1000;

pub const BRACKETED_PASTE: u16 = 0b00_0000_0001_0000;

pub const SGR_MOUSE: u16 = 0b00_0000_0010_0000;

pub const MOUSE_MOTION: u16 = 0b00_0000_0100_0000;

pub const LINE_WRAP: u16 = 0b00_0000_1000_0000;

pub const LINE_FEED_NEW_LINE: u16 = 0b00_0001_0000_0000;

pub const ORIGIN: u16 = 0b00_0010_0000_0000;

pub const INSERT: u16 = 0b00_0100_0000_0000;

pub const FOCUS_IN_OUT: u16 = 0b00_1000_0000_0000;

pub const ALT_SCREEN: u16 = 0b01_0000_0000_0000;

pub const MOUSE_DRAG: u16 = 0b10_0000_0000_0000;

pub const ANY: u16 = 0b11_1111_1111_1111;

pub const NONE: u16 = 0;

/// A set of mode flags, one bit each.
#[derive(Clone, Copy, Debug, PartialEq, Eq, Structural)]
pub struct TermMode {
    pub bits: u16,
}

impl TermMode {
    /// The set with the given bits added.
    pub open spec fn with(self, flags: u16) -> TermMode {
        TermMode { bits: self.bits | flags }
    }

    /// The set with the given bits taken out.
    pub open spec fn without(self, flags: u16) -> TermMode {
        TermMode { bits: self.bits & !flags }
    }

    pub open spec fn spec_contains(&self, flags: u16) -> bool {
        self.bits & flags == flags
    }

    /// Whether every one of the given bits is set.
    #[verifier::when_used_as_spec(spec_contains)]
    pub fn contains(&self, flags: u16) -> (r: bool)
        ensures
            r == self.spec_contains(flags),
    {
        self.bits & flags == flags
    }

    pub fn insert(&mut self, flags: u16)
        ensures
            *final(self) == old(self).with(flags),
    {
        self.bits = self.bits | flags;
    }

    pub fn remove(&mut self, flags: u16)
        ensures
            *final(self) == old(self).without(flags),
    {
        self.bits = self.bits & !flags;
    }

    pub fn bits(&self) -> (b: u16)
        ensures
            b == self.bits,
    {
        self.bits
    }
}

impl Default for TermMode {
    /// The cursor is shown and lines wrap.
    fn default() -> (mode: TermMode)
        ensures
            mode == (TermMode { bits: SHOW_CURSOR | LINE_WRAP }),
    {
        TermMode { bits: SHOW_CURSOR | LINE_WRAP }
    }
}

} // verus!
