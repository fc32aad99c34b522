//! The interrupt controller: the enable mask, the pending-flags mask, the
//! master-enable flag (IME), and the fixed-priority query for the next
//! serviceable source.

use vstd::prelude::*;
use crate::words::{spec_bit_set, spec_clear_bit, spec_set_bit, set_bit8, clear_bit8};

verus! {

/// Cycle cost of one interrupt-dispatch sequence.
pub const INTERRUPT_DISPATCH_CYCLES: u8 = 20;

/// The five interrupt sources, in priority order: the lowest-numbered bit is
/// serviced first.
#[derive(Clone, Copy, PartialEq, Eq, Structural, Debug)]
pub enum InterruptSource {
    VBlank,
    LcdStat,
    Timer,
    Serial,
    Joypad,
}

impl InterruptSource {
    /// The source's fixed bit position in the enable and flag masks.
    pub open spec fn spec_mask(self) -> u8 {
        match self {
            InterruptSource::VBlank => 0x01,
            InterruptSource::LcdStat => 0x02,
            InterruptSource::Timer => 0x04,
            InterruptSource::Serial => 0x08,
            InterruptSource::Joypad => 0x10,
        }
    }

    /// The source's fixed service-vector address.
    pub open spec fn spec_vector(self) -> u16 {
        match self {
            InterruptSource::VBlank => 0x40,
            InterruptSource::LcdStat => 0x48,
            InterruptSource::Timer => 0x50,
            InterruptSource::Serial => 0x58,
            InterruptSource::Joypad => 0x60,
        }
    }

    pub fn mask(self) -> (r: u8)
        ensures
            r == self.spec_mask(),
    {
        match self {
            InterruptSource::VBlank => 0x01,
            InterruptSource::LcdStat => 0x02,
            InterruptSource::Timer => 0x04,
            InterruptSource::Serial => 0x08,
            InterruptSource::Joypad => 0x10,
        }
    }

    pub fn vector(self) -> (r: u16)
        ensures
            r == self.spec_vector(),
    {
        match self {
            InterruptSource::VBlank => 0x40,
            InterruptSource::LcdStat => 0x48,
            InterruptSource::Timer => 0x50,
            InterruptSource::Serial => 0x58,
            InterruptSource::Joypad => 0x60,
        }
    }
}

/// Enable mask, pending-flags mask and master enable.  Created at power-on
/// with everything clear; mutated by bus writes to its mapped registers, by
/// the engine's enable/disable instructions, and by the dispatch sequence.
#[derive(Clone, Copy, PartialEq, Eq, Structural, Debug)]
pub struct InterruptController {
    pub enable: u8,
    pub flags: u8,
    pub ime: bool,
}

impl InterruptController {
    /// True iff `src` has both its enable bit and its flag bit set.
    pub open spec fn spec_is_pending(self, src: InterruptSource) -> bool {
        spec_bit_set(self.enable, src.spec_mask()) && spec_bit_set(self.flags, src.spec_mask())
    }

    /// The next source to service, honoring the fixed priority order
    /// vblank > LCD-status > timer > serial > joypad; `None` when no source
    /// has both bits set.  Independent of IME.
    pub open spec fn spec_next_pending(self) -> Option<InterruptSource> {
        if self.spec_is_pending(InterruptSource::VBlank) {
            Some(InterruptSource::VBlank)
        } else if self.spec_is_pending(InterruptSource::LcdStat) {
            Some(InterruptSource::LcdStat)
        } else if self.spec_is_pending(InterruptSource::Timer) {
            Some(InterruptSource::Timer)
        } else if self.spec_is_pending(InterruptSource::Serial) {
            Some(InterruptSource::Serial)
        } else if self.spec_is_pending(InterruptSource::Joypad) {
            Some(InterruptSource::Joypad)
        } else {
            None
        }
    }

    /// True iff any source has both bits set, whether or not IME is set.
    pub open spec fn spec_any_pending(self) -> bool {
        self.spec_next_pending() is Some
    }

    /// Power-on state: no source enabled or flagged, IME cleared.
    pub fn new() -> (r: InterruptController)
        ensures
            r == (InterruptController { enable: 0u8, flags: 0u8, ime: false }),
    {
        InterruptController { enable: 0, flags: 0, ime: false }
    }

    fn is_pending(&self, src: InterruptSource) -> (r: bool)
        ensures
            r == self.spec_is_pending(src),
    {
        let m = src.mask();
        (self.enable / m) % 2 == 1 && (self.flags / m) % 2 == 1
    }

    pub fn next_pending(&self) -> (r: Option<InterruptSource>)
        ensures
            r == self.spec_next_pending(),
    {
        if self.is_pending(InterruptSource::VBlank) {
            Some(InterruptSource::VBlank)
        } else if self.is_pending(InterruptSource::LcdStat) {
            Some(InterruptSource::LcdStat)
        } else if self.is_pending(InterruptSource::Timer) {
            Some(InterruptSource::Timer)
        } else if self.is_pending(InterruptSource::Serial) {
            Some(InterruptSource::Serial)
        } else if self.is_pending(InterruptSource::Joypad) {
            Some(InterruptSource::Joypad)
        } else {
            None
        }
    }

    pub fn any_pending(&self) -> (r: bool)
        ensures
            r == self.spec_any_pending(),
    {
        self.next_pending().is_some()
    }

    /// Schedule a service request: set the source's flag bit.
    pub fn request(&mut self, src: InterruptSource)
        ensures
            *final(self) == (InterruptController {
                flags: spec_set_bit(old(self).flags, src.spec_mask()),
                ..*old(self)
            }),
    {
        let m = src.mask();
        self.flags = set_bit8(self.flags, m);
    }

    /// Acknowledge a serviced request: clear the source's flag bit.
    pub fn acknowledge(&mut self, src: InterruptSource)
        ensures
            *final(self) == (InterruptController {
                flags: spec_clear_bit(old(self).flags, src.spec_mask()),
                ..*old(self)
            }),
    {
        let m = src.mask();
        self.flags = clear_bit8(self.flags, m);
    }

    pub fn read_enable(&self) -> (r: u8)
        ensures
            r == self.enable,
    {
        self.enable
    }

    pub fn write_enable(&mut self, value: u8)
        ensures
            *final(self) == (InterruptController { enable: value, ..*old(self) }),
    {
        self.enable = value;
    }

    pub fn read_flag(&self) -> (r: u8)
        ensures
            r == self.flags,
    {
        self.flags
    }

    pub fn write_flag(&mut self, value: u8)
        ensures
            *final(self) == (InterruptController { flags: value, ..*old(self) }),
    {
        self.flags = value;
    }

    pub fn set_ime(&mut self, enabled: bool)
        ensures
            *final(self) == (InterruptController { ime: enabled, ..*old(self) }),
    {
        self.ime = enabled;
    }
}

} // verus!
