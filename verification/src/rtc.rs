//! A high level interface for RTC peripherals.
//!
//! A raw peripheral handle is constrained into an `Rtc` wrapper that owns it
//! exclusively; the wrapper carries its operating mode (`Stopped` or
//! `Started`) in its type, so that the prescaler can only be written while
//! the counter is stopped, and every register write is validated against the
//! register's bit width before it reaches the hardware.

use vstd::prelude::*;

use crate::regs::RegisterBlock;
use crate::regs::RtcCompareReg;
use crate::regs::RtcInterrupt;

verus! {

/// The RTC has been stopped.
pub struct Stopped;

/// The RTC has been started.
pub struct Started;

/// An opaque high level interface to an RTC peripheral.
///
/// Owns exactly one peripheral handle `T`; the mode tag `M` records in the
/// type whether the counter has been started.
pub struct Rtc<T, M> {
    periph: T,
    _mode: M,
}

/// The capability a peripheral handle must expose so the driver can reach
/// its register block: the start/stop task triggers, the set/clear halves of
/// the interrupt-enable and event-enable words, the per-stimulus event-flag
/// registers, the four compare registers, the prescaler and the counter.
///
/// Each exec method's contract states the register transaction's exact
/// effect on the latched state `regs()`; an implementor is one physical RTC
/// instance, exclusively owned and never duplicated.
pub trait RtcExt: Sized {
    /// The latched register state this handle maps.
    spec fn regs(&self) -> RegisterBlock;

    /// Constrain the raw handle into the high level interface, initially
    /// in Stopped mode. No hardware side effects; cannot fail; consumes the
    /// handle, which the wrapper then owns exclusively.
    fn constrain(self) -> (rtc: Rtc<Self, Stopped>)
        ensures
            rtc.handle() == self,
    ;

    /// Trigger the one-shot start task. The task register is write-only:
    /// no latched state changes.
    fn task_start(&mut self)
        ensures
            final(self).regs() == old(self).regs(),
    ;

    /// Trigger the one-shot stop task. The task register is write-only:
    /// no latched state changes.
    fn task_stop(&mut self)
        ensures
            final(self).regs() == old(self).regs(),
    ;

    /// Write the interrupt-enable-set register: every 1 bit of `mask`
    /// enables that stimulus's interrupt; 0 bits leave it unchanged.
    fn intenset_write(&mut self, mask: u32)
        ensures
            final(self).regs() == old(self).regs().with_inten(old(self).regs().inten | mask),
    ;

    /// Write the interrupt-enable-clear register: every 1 bit of `mask`
    /// disables that stimulus's interrupt; 0 bits leave it unchanged.
    fn intenclr_write(&mut self, mask: u32)
        ensures
            final(self).regs() == old(self).regs().with_inten(old(self).regs().inten & !mask),
    ;

    /// Write the event-enable-set register: every 1 bit of `mask` enables
    /// that stimulus's event routing; 0 bits leave it unchanged.
    fn evtenset_write(&mut self, mask: u32)
        ensures
            final(self).regs() == old(self).regs().with_evten(old(self).regs().evten | mask),
    ;

    /// Write the event-enable-clear register: every 1 bit of `mask`
    /// disables that stimulus's event routing; 0 bits leave it unchanged.
    fn evtenclr_write(&mut self, mask: u32)
        ensures
            final(self).regs() == old(self).regs().with_evten(old(self).regs().evten & !mask),
    ;

    /// One atomic read-then-write transaction on a stimulus's latched
    /// event-flag register: returns the value observed before the write,
    /// and leaves `v` in the register. The flag is hardware-latched, so
    /// the read and the write must not be split or reordered.
    fn event_modify(&mut self, evt: RtcInterrupt, v: u32) -> (orig: u32)
        ensures
            orig == old(self).regs().event(evt),
            final(self).regs() == old(self).regs().with_event(evt, v),
    ;

    /// Write a channel's 24-bit compare register.
    fn cc_write(&mut self, reg: RtcCompareReg, v: u32)
        requires
            v < 0x0100_0000,
        ensures
            final(self).regs() == old(self).regs().with_cc(reg, v),
    ;

    /// Write the 12-bit prescaler register.
    fn prescaler_write(&mut self, v: u32)
        requires
            v < 0x1000,
        ensures
            final(self).regs() == old(self).regs().with_prescaler(v),
    ;

    /// Read the counter register: 24 bits of range, upper bits zero.
    fn counter_read(&self) -> (r: u32)
        ensures
            r == self.regs().counter & 0x00FF_FFFF,
    ;
}

/// Error types associated with the RTC peripheral interface.
#[derive(Debug, PartialEq, Eq, Structural)]
pub enum Error {
    PrescalerOutOfRange,
    CompareOutOfRange,
}

impl<T, M> Rtc<T, M> {
    /// The peripheral handle the wrapper currently owns.
    pub closed spec fn handle(&self) -> T {
        self.periph
    }
}

impl<T, M> Rtc<T, M> where T: RtcExt {
    /// The latched register state of the owned peripheral instance.
    pub open spec fn regs(&self) -> RegisterBlock {
        self.handle().regs()
    }

    /// Enable/start the Real Time Counter. A one-shot hardware command that
    /// always succeeds and changes no latched register.
    pub fn enable_counter(self) -> (rtc: Rtc<T, Started>)
        ensures
            rtc.regs() == self.regs(),
    {
        let Rtc { mut periph, _mode } = self;
        periph.task_start();
        Rtc { periph, _mode: Started }
    }

    /// Disable/stop the Real Time Counter. A one-shot hardware command that
    /// always succeeds and changes no latched register.
    pub fn disable_counter(self) -> (rtc: Rtc<T, Stopped>)
        ensures
            rtc.regs() == self.regs(),
    {
        let Rtc { mut periph, _mode } = self;
        periph.task_stop();
        Rtc { periph, _mode: Stopped }
    }

    /// Enable the generation of a hardware interrupt from a given stimulus.
    /// Callable in either mode; infallible; the stimulus's bit in the
    /// interrupt-enable word is set, all other registers are untouched.
    pub fn enable_interrupt(&mut self, interrupt: RtcInterrupt)
        ensures
            final(self).regs() == old(self).regs().with_inten(
                old(self).regs().inten | interrupt.spec_mask(),
            ),
    {
        let m: u32 = interrupt.mask();
        self.periph.intenset_write(m);
    }

    /// Disable the generation of a hardware interrupt from a given stimulus.
    /// Callable in either mode; infallible; the stimulus's bit in the
    /// interrupt-enable word is cleared, all other registers are untouched.
    pub fn disable_interrupt(&mut self, interrupt: RtcInterrupt)
        ensures
            final(self).regs() == old(self).regs().with_inten(
                old(self).regs().inten & !interrupt.spec_mask(),
            ),
    {
        let m: u32 = interrupt.mask();
        self.periph.intenclr_write(m);
    }

    /// Enable the generation of a hardware event from a given stimulus,
    /// independent of the interrupt path. Callable in either mode;
    /// infallible; only the stimulus's bit in the event-enable word is set.
    pub fn enable_event(&mut self, evt: RtcInterrupt)
        ensures
            final(self).regs() == old(self).regs().with_evten(
                old(self).regs().evten | evt.spec_mask(),
            ),
    {
        let m: u32 = evt.mask();
        self.periph.evtenset_write(m);
    }

    /// Disables the generation of a hardware event from a given stimulus.
    /// Callable in either mode; infallible; only the stimulus's bit in the
    /// event-enable word is cleared.
    pub fn disable_event(&mut self, evt: RtcInterrupt)
        ensures
            final(self).regs() == old(self).regs().with_evten(
                old(self).regs().evten & !evt.spec_mask(),
            ),
    {
        let m: u32 = evt.mask();
        self.periph.evtenclr_write(m);
    }

    /// Obtain the state of a given interrupt/event, and optionally clear the
    /// event if it is set.
    ///
    /// Returns whether the stimulus's latched flag read 1 *before* the
    /// write-back, and in the same atomic register transaction writes 0
    /// (acknowledging the flag) if `clear_on_read` is true, 1 (leaving it
    /// set) otherwise.
    pub fn get_event_triggered(&mut self, evt: RtcInterrupt, clear_on_read: bool) -> (triggered:
        bool)
        ensures
            triggered == (old(self).regs().event(evt) == 1),
            final(self).regs() == old(self).regs().with_event(
                evt,
                if clear_on_read { 0u32 } else { 1u32 },
            ),
    {
        let set_val: u32 = if clear_on_read { 0 } else { 1 };
        let orig: u32 = self.periph.event_modify(evt, set_val);
        orig == 1
    }

    /// Set the compare value of a given register. The compare registers have
    /// a width of 24 bits.
    ///
    /// Succeeds if and only if `val < 0x0100_0000`; on failure returns
    /// `CompareOutOfRange` and no register is touched. Callable in either
    /// mode.
    pub fn set_compare(&mut self, reg: RtcCompareReg, val: u32) -> (result: Result<(), Error>)
        ensures
            val < 0x0100_0000 ==> result == Ok::<(), Error>(())
                && final(self).regs() == old(self).regs().with_cc(reg, val),
            val >= 0x0100_0000 ==> result == Err::<(), Error>(Error::CompareOutOfRange)
                && final(self).regs() == old(self).regs(),
    {
        if val >= 0x0100_0000 {
            return Err(Error::CompareOutOfRange);
        }
        self.periph.cc_write(reg, val);
        Ok(())
    }

    /// Obtain the current value of the Real Time Counter, 24 bits of range.
    /// A pure read: no register changes, callable in either mode.
    pub fn get_counter(&self) -> (counter: u32)
        ensures
            counter == self.regs().counter & 0x00FF_FFFF,
    {
        self.periph.counter_read()
    }

    /// Destructure the high level interface. Does not reset any
    /// configuration made to the given RTC peripheral.
    pub fn release(self) -> (periph: T)
        ensures
            periph == self.handle(),
    {
        let Rtc { periph, _mode } = self;
        periph
    }
}

impl<T> Rtc<T, Stopped> where T: RtcExt {
    /// Set the prescaler for the RTC peripheral. 12 bits of range.
    /// fRTC = 32_768 / (`prescaler` + 1).
    ///
    /// Only a Stopped wrapper has this method: changing the divider while
    /// the counter runs produces undefined timing, so the operation is
    /// unrepresentable on a Started wrapper. Succeeds if and only if
    /// `prescaler < 0x1000`; on failure returns `PrescalerOutOfRange` and
    /// no register is touched.
    pub fn set_prescaler(&mut self, prescaler: u32) -> (result: Result<(), Error>)
        ensures
            prescaler < 0x1000 ==> result == Ok::<(), Error>(())
                && final(self).regs() == old(self).regs().with_prescaler(prescaler),
            prescaler >= 0x1000 ==> result == Err::<(), Error>(Error::PrescalerOutOfRange)
                && final(self).regs() == old(self).regs(),
    {
        if prescaler >= 0x1000 {
            return Err(Error::PrescalerOutOfRange);
        }
        self.periph.prescaler_write(prescaler);
        Ok(())
    }
}

/// Law: starting and then stopping the counter returns a wrapper observably
/// equivalent to the original Stopped wrapper. `enable_counter` and
/// `disable_counter` each ensure the latched registers are preserved
/// verbatim, so no residual state difference is visible through the public
/// API after the round trip.
pub proof fn lemma_start_stop_round_trip<T: RtcExt>(
    stopped: Rtc<T, Stopped>,
    started: Rtc<T, Started>,
    stopped_again: Rtc<T, Stopped>,
)
    requires
        started.regs() == stopped.regs(),
        stopped_again.regs() == started.regs(),
    ensures
        stopped_again.regs() == stopped.regs(),
{
}

/// Law: reading a set event flag with `clear_on_read` acknowledges it, so an
/// immediate repeat of `get_event_triggered` returns false; reading it
/// without `clear_on_read` writes the flag back set, so an immediate repeat
/// still returns true. Stated over the flag transaction `get_event_triggered`
/// ensures: a first read of a set flag returns true and leaves the register
/// at 0 or 1 as chosen, and the second read returns whether that register
/// reads 1.
pub proof fn lemma_event_acknowledge(regs: RegisterBlock, evt: RtcInterrupt)
    requires
        regs.event(evt) == 1,
    ensures
        regs.with_event(evt, 0).event(evt) == 0,
        regs.with_event(evt, 1).event(evt) == 1,
{
}

/// Law: an in-range compare value written through `set_compare` is read back
/// exactly from the channel's register, and every other register is
/// untouched.
pub proof fn lemma_compare_round_trip(regs: RegisterBlock, reg: RtcCompareReg, val: u32)
    requires
        val < 0x0100_0000,
    ensures
        regs.with_cc(reg, val).cc(reg) == val,
        forall|other: RtcCompareReg|
            other != reg ==> regs.with_cc(reg, val).cc(other) == regs.cc(other),
        regs.with_cc(reg, val).prescaler == regs.prescaler,
        regs.with_cc(reg, val).inten == regs.inten,
        regs.with_cc(reg, val).evten == regs.evten,
        regs.with_cc(reg, val).counter == regs.counter,
{
}

/// The first physical RTC instance: the exclusive, move-only handle to its
/// register block.
pub struct RTC0 {
    pub block: RegisterBlock,
}

/// The second physical RTC instance: the exclusive, move-only handle to its
/// register block.
pub struct RTC1 {
    pub block: RegisterBlock,
}

impl RTC0 {
    /// Take the instance with every register at its power-on reset value.
    pub fn new() -> (periph: RTC0)
        ensures
            periph.regs() == RegisterBlock::reset(),
    {
        RTC0 { block: RegisterBlock::new() }
    }
}

impl RTC1 {
    /// Take the instance with every register at its power-on reset value.
    pub fn new() -> (periph: RTC1)
        ensures
            periph.regs() == RegisterBlock::reset(),
    {
        RTC1 { block: RegisterBlock::new() }
    }
}

impl RtcExt for RTC0 {
    open spec fn regs(&self) -> RegisterBlock {
        self.block
    }

    fn constrain(self) -> (rtc: Rtc<RTC0, Stopped>) {
        Rtc { periph: self, _mode: Stopped }
    }

    fn task_start(&mut self) {
    }

    fn task_stop(&mut self) {
    }

    fn intenset_write(&mut self, mask: u32) {
        self.block.inten = self.block.inten | mask;
    }

    fn intenclr_write(&mut self, mask: u32) {
        self.block.inten = self.block.inten & !mask;
    }

    fn evtenset_write(&mut self, mask: u32) {
        self.block.evten = self.block.evten | mask;
    }

    fn evtenclr_write(&mut self, mask: u32) {
        self.block.evten = self.block.evten & !mask;
    }

    fn event_modify(&mut self, evt: RtcInterrupt, v: u32) -> (orig: u32) {
        match evt {
            RtcInterrupt::Tick => {
                let orig: u32 = self.block.events_tick;
                self.block.events_tick = v;
                orig
            },
            RtcInterrupt::Overflow => {
                let orig: u32 = self.block.events_ovrflw;
                self.block.events_ovrflw = v;
                orig
            },
            RtcInterrupt::Compare0 => {
                let orig: u32 = self.block.events_compare0;
                self.block.events_compare0 = v;
                orig
            },
            RtcInterrupt::Compare1 => {
                let orig: u32 = self.block.events_compare1;
                self.block.events_compare1 = v;
                orig
            },
            RtcInterrupt::Compare2 => {
                let orig: u32 = self.block.events_compare2;
                self.block.events_compare2 = v;
                orig
            },
            RtcInterrupt::Compare3 => {
                let orig: u32 = self.block.events_compare3;
                self.block.events_compare3 = v;
                orig
            },
        }
    }

    fn cc_write(&mut self, reg: RtcCompareReg, v: u32) {
        match reg {
            RtcCompareReg::Compare0 => self.block.cc0 = v,
            RtcCompareReg::Compare1 => self.block.cc1 = v,
            RtcCompareReg::Compare2 => self.block.cc2 = v,
            RtcCompareReg::Compare3 => self.block.cc3 = v,
        }
    }

    fn prescaler_write(&mut self, v: u32) {
        self.block.prescaler = v;
    }

    fn counter_read(&self) -> (r: u32) {
        self.block.counter & 0x00FF_FFFF
    }
}

impl RtcExt for RTC1 {
    open spec fn regs(&self) -> RegisterBlock {
        self.block
    }

    fn constrain(self) -> (rtc: Rtc<RTC1, Stopped>) {
        Rtc { periph: self, _mode: Stopped }
    }

    fn task_start(&mut self) {
    }

    fn task_stop(&mut self) {
    }

    fn intenset_write(&mut self, mask: u32) {
        self.block.inten = self.block.inten | mask;
    }

    fn intenclr_write(&mut self, mask: u32) {
        self.block.inten = self.block.inten & !mask;
    }

    fn evtenset_write(&mut self, mask: u32) {
        self.block.evten = self.block.evten | mask;
    }

    fn evtenclr_write(&mut self, mask: u32) {
        self.block.evten = self.block.evten & !mask;
    }

    fn event_modify(&mut self, evt: RtcInterrupt, v: u32) -> (orig: u32) {
        match evt {
            RtcInterrupt::Tick => {
                let orig: u32 = self.block.events_tick;
                self.block.events_tick = v;
                orig
            },
            RtcInterrupt::Overflow => {
                let orig: u32 = self.block.events_ovrflw;
                self.block.events_ovrflw = v;
                orig
            },
            RtcInterrupt::Compare0 => {
                let orig: u32 = self.block.events_compare0;
                self.block.events_compare0 = v;
                orig
            },
            RtcInterrupt::Compare1 => {
                let orig: u32 = self.block.events_compare1;
                self.block.events_compare1 = v;
                orig
            },
            RtcInterrupt::Compare2 => {
                let orig: u32 = self.block.events_compare2;
                self.block.events_compare2 = v;
                orig
            },
            RtcInterrupt::Compare3 => {
                let orig: u32 = self.block.events_compare3;
                self.block.events_compare3 = v;
                orig
            },
        }
    }

    fn cc_write(&mut self, reg: RtcCompareReg, v: u32) {
        match reg {
            RtcCompareReg::Compare0 => self.block.cc0 = v,
            RtcCompareReg::Compare1 => self.block.cc1 = v,
            RtcCompareReg::Compare2 => self.block.cc2 = v,
            RtcCompareReg::Compare3 => self.block.cc3 = v,
        }
    }

    fn prescaler_write(&mut self, v: u32) {
        self.block.prescaler = v;
    }

    fn counter_read(&self) -> (r: u32) {
        self.block.counter & 0x00FF_FFFF
    }
}

} // verus!
