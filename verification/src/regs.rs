//! A plain-value model of one RTC instance's latched register file, together
//! with the closed sets of stimuli and compare channels that index into it.
//!
//! The model holds exactly the state a reader of the memory-mapped block can
//! observe: the interrupt and event enable words, the six latched one-bit
//! event flags, the four 24-bit compare registers, the 12-bit prescaler and
//! the 24-bit counter. The write-only start/stop task registers latch
//! nothing and so have no field here.

use vstd::prelude::*;

verus! {

/// Interrupts/Events that can be generated by the RTC peripheral.
pub enum RtcInterrupt {
    Tick,
    Overflow,
    Compare0,
    Compare1,
    Compare2,
    Compare3,
}

/// Compare registers available on the RTC.
pub enum RtcCompareReg {
    Compare0,
    Compare1,
    Compare2,
    Compare3,
}

impl RtcInterrupt {
    /// The stimulus's bit mask in the interrupt-enable and event-enable
    /// words: the single stimulus-to-bit-position lookup shared by every
    /// enable/disable operation.
    pub open spec fn spec_mask(self) -> u32 {
        match self {
            RtcInterrupt::Tick => 0x0000_0001u32,
            RtcInterrupt::Overflow => 0x0000_0002u32,
            RtcInterrupt::Compare0 => 0x0001_0000u32,
            RtcInterrupt::Compare1 => 0x0002_0000u32,
            RtcInterrupt::Compare2 => 0x0004_0000u32,
            RtcInterrupt::Compare3 => 0x0008_0000u32,
        }
    }

    /// Compute the stimulus's enable-word bit mask.
    pub fn mask(&self) -> (m: u32)
        ensures
            m == self.spec_mask(),
    {
        match self {
            RtcInterrupt::Tick => 0x0000_0001u32,
            RtcInterrupt::Overflow => 0x0000_0002u32,
            RtcInterrupt::Compare0 => 0x0001_0000u32,
            RtcInterrupt::Compare1 => 0x0002_0000u32,
            RtcInterrupt::Compare2 => 0x0004_0000u32,
            RtcInterrupt::Compare3 => 0x0008_0000u32,
        }
    }
}

/// The latched, readable register state of one RTC instance.
///
/// `inten` and `evten` are the interrupt-enable and event-enable words,
/// one bit per stimulus at the positions `RtcInterrupt::spec_mask` gives.
/// Each `events_*` field is a one-bit flag register that the hardware
/// latches to 1 when its stimulus fires. `cc0`..`cc3` are the 24-bit
/// compare registers, `prescaler` the 12-bit clock divider, and `counter`
/// the free-running 24-bit counter.
#[derive(Clone, Copy, PartialEq, Eq, Structural, Debug)]
pub struct RegisterBlock {
    pub counter: u32,
    pub prescaler: u32,
    pub inten: u32,
    pub evten: u32,
    pub events_tick: u32,
    pub events_ovrflw: u32,
    pub events_compare0: u32,
    pub events_compare1: u32,
    pub events_compare2: u32,
    pub events_compare3: u32,
    pub cc0: u32,
    pub cc1: u32,
    pub cc2: u32,
    pub cc3: u32,
}

impl RegisterBlock {
    /// Every register at its power-on reset value.
    pub open spec fn reset() -> RegisterBlock {
        RegisterBlock {
            counter: 0,
            prescaler: 0,
            inten: 0,
            evten: 0,
            events_tick: 0,
            events_ovrflw: 0,
            events_compare0: 0,
            events_compare1: 0,
            events_compare2: 0,
            events_compare3: 0,
            cc0: 0,
            cc1: 0,
            cc2: 0,
            cc3: 0,
        }
    }

    /// Build a register block at its power-on reset value.
    pub fn new() -> (r: RegisterBlock)
        ensures
            r == RegisterBlock::reset(),
    {
        RegisterBlock {
            counter: 0,
            prescaler: 0,
            inten: 0,
            evten: 0,
            events_tick: 0,
            events_ovrflw: 0,
            events_compare0: 0,
            events_compare1: 0,
            events_compare2: 0,
            events_compare3: 0,
            cc0: 0,
            cc1: 0,
            cc2: 0,
            cc3: 0,
        }
    }

    /// The latched event flag register of the given stimulus.
    pub open spec fn event(self, evt: RtcInterrupt) -> u32 {
        match evt {
            RtcInterrupt::Tick => self.events_tick,
            RtcInterrupt::Overflow => self.events_ovrflw,
            RtcInterrupt::Compare0 => self.events_compare0,
            RtcInterrupt::Compare1 => self.events_compare1,
            RtcInterrupt::Compare2 => self.events_compare2,
            RtcInterrupt::Compare3 => self.events_compare3,
        }
    }

    /// The block with the given stimulus's event flag register written to `v`.
    pub open spec fn with_event(self, evt: RtcInterrupt, v: u32) -> RegisterBlock {
        match evt {
            RtcInterrupt::Tick => RegisterBlock { events_tick: v, ..self },
            RtcInterrupt::Overflow => RegisterBlock { events_ovrflw: v, ..self },
            RtcInterrupt::Compare0 => RegisterBlock { events_compare0: v, ..self },
            RtcInterrupt::Compare1 => RegisterBlock { events_compare1: v, ..self },
            RtcInterrupt::Compare2 => RegisterBlock { events_compare2: v, ..self },
            RtcInterrupt::Compare3 => RegisterBlock { events_compare3: v, ..self },
        }
    }

    /// The compare register of the given channel.
    pub open spec fn cc(self, reg: RtcCompareReg) -> u32 {
        match reg {
            RtcCompareReg::Compare0 => self.cc0,
            RtcCompareReg::Compare1 => self.cc1,
            RtcCompareReg::Compare2 => self.cc2,
            RtcCompareReg::Compare3 => self.cc3,
        }
    }

    /// The block with the given channel's compare register written to `v`.
    pub open spec fn with_cc(self, reg: RtcCompareReg, v: u32) -> RegisterBlock {
        match reg {
            RtcCompareReg::Compare0 => RegisterBlock { cc0: v, ..self },
            RtcCompareReg::Compare1 => RegisterBlock { cc1: v, ..self },
            RtcCompareReg::Compare2 => RegisterBlock { cc2: v, ..self },
            RtcCompareReg::Compare3 => RegisterBlock { cc3: v, ..self },
        }
    }

    /// The block with the interrupt-enable word written to `v`.
    pub open spec fn with_inten(self, v: u32) -> RegisterBlock {
        RegisterBlock { inten: v, ..self }
    }

    /// The block with the event-enable word written to `v`.
    pub open spec fn with_evten(self, v: u32) -> RegisterBlock {
        RegisterBlock { evten: v, ..self }
    }

    /// The block with the prescaler register written to `v`.
    pub open spec fn with_prescaler(self, v: u32) -> RegisterBlock {
        RegisterBlock { prescaler: v, ..self }
    }
}

} // verus!
