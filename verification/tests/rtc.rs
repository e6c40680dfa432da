use nrf52_rtc::regs::RegisterBlock;
use nrf52_rtc::regs::RtcCompareReg;
use nrf52_rtc::regs::RtcInterrupt;
use nrf52_rtc::rtc::Error;
use nrf52_rtc::rtc::RtcExt;
use nrf52_rtc::rtc::RTC0;
use nrf52_rtc::rtc::RTC1;

#[test]
fn reset_registers_are_zero() {
    let block = RegisterBlock::new();
    assert_eq!(block.counter, 0);
    assert_eq!(block.prescaler, 0);
    assert_eq!(block.inten, 0);
    assert_eq!(block.evten, 0);
    assert_eq!(block.events_tick, 0);
    assert_eq!(block.events_ovrflw, 0);
    assert_eq!(block.events_compare0, 0);
    assert_eq!(block.events_compare1, 0);
    assert_eq!(block.events_compare2, 0);
    assert_eq!(block.events_compare3, 0);
    assert_eq!(block.cc0, 0);
    assert_eq!(block.cc1, 0);
    assert_eq!(block.cc2, 0);
    assert_eq!(block.cc3, 0);
}

#[test]
fn prescaler_scenario() {
    let mut rtc = RTC0::new().constrain();
    assert_eq!(rtc.set_prescaler(4095), Ok(()));
    let mut rtc = rtc.release().constrain();
    assert_eq!(rtc.set_prescaler(4096), Err(Error::PrescalerOutOfRange));
    // The failed write left the register unmodified.
    assert_eq!(rtc.release().block.prescaler, 4095);
}

#[test]
fn prescaler_boundary_values() {
    let mut rtc = RTC0::new().constrain();
    assert_eq!(rtc.set_prescaler(0), Ok(()));
    assert_eq!(rtc.set_prescaler(327), Ok(()));
    assert_eq!(rtc.set_prescaler(u32::MAX), Err(Error::PrescalerOutOfRange));
    assert_eq!(rtc.release().block.prescaler, 327);
}

#[test]
fn compare_scenario() {
    let mut rtc = RTC0::new().constrain();
    assert_eq!(rtc.set_compare(RtcCompareReg::Compare2, 16777215), Ok(()));
    assert_eq!(
        rtc.set_compare(RtcCompareReg::Compare2, 16777216),
        Err(Error::CompareOutOfRange)
    );
    // The failed write left the target register unmodified.
    assert_eq!(rtc.release().block.cc2, 16777215);
}

#[test]
fn compare_round_trip_all_channels() {
    let mut rtc = RTC0::new().constrain();
    assert_eq!(rtc.set_compare(RtcCompareReg::Compare0, 1), Ok(()));
    assert_eq!(rtc.set_compare(RtcCompareReg::Compare1, 0xABCDE), Ok(()));
    assert_eq!(rtc.set_compare(RtcCompareReg::Compare2, 0), Ok(()));
    assert_eq!(rtc.set_compare(RtcCompareReg::Compare3, 0x00FF_FFFF), Ok(()));
    let block = rtc.release().block;
    assert_eq!(block.cc0, 1);
    assert_eq!(block.cc1, 0xABCDE);
    assert_eq!(block.cc2, 0);
    assert_eq!(block.cc3, 0x00FF_FFFF);
    // Nothing else was touched.
    assert_eq!(block.prescaler, 0);
    assert_eq!(block.inten, 0);
}

#[test]
fn start_stop_round_trip() {
    let mut rtc = RTC0::new().constrain();
    assert_eq!(rtc.set_prescaler(511), Ok(()));
    assert_eq!(rtc.set_compare(RtcCompareReg::Compare1, 99), Ok(()));
    rtc.enable_interrupt(RtcInterrupt::Tick);
    rtc.enable_event(RtcInterrupt::Compare1);
    let periph = rtc.release();
    let before = periph.block;

    let stopped = periph.constrain();
    let started = stopped.enable_counter();
    let stopped_again = started.disable_counter();
    // No residual state difference is visible after the round trip.
    assert_eq!(stopped_again.get_counter(), before.counter & 0x00FF_FFFF);
    assert_eq!(stopped_again.release().block, before);
}

#[test]
fn event_acknowledged_on_clearing_read() {
    let mut block = RegisterBlock::new();
    block.events_tick = 1;
    let mut rtc = RTC0 { block }.constrain();
    // A freshly-triggered stimulus reads true once, then false.
    assert!(rtc.get_event_triggered(RtcInterrupt::Tick, true));
    assert!(!rtc.get_event_triggered(RtcInterrupt::Tick, true));
    assert_eq!(rtc.release().block.events_tick, 0);
}

#[test]
fn event_preserved_on_non_clearing_read() {
    let mut block = RegisterBlock::new();
    block.events_ovrflw = 1;
    let mut rtc = RTC0 { block }.constrain();
    // Without clear_on_read the flag stays latched.
    assert!(rtc.get_event_triggered(RtcInterrupt::Overflow, false));
    assert!(rtc.get_event_triggered(RtcInterrupt::Overflow, false));
    assert_eq!(rtc.release().block.events_ovrflw, 1);
}

#[test]
fn event_read_of_untriggered_stimulus() {
    let mut rtc = RTC0::new().constrain();
    assert!(!rtc.get_event_triggered(RtcInterrupt::Compare3, true));
    assert!(!rtc.get_event_triggered(RtcInterrupt::Compare2, false));
    // A non-clearing read of a clear flag writes 1 back: the register holds
    // the value written in the transaction.
    let block = rtc.release().block;
    assert_eq!(block.events_compare3, 0);
    assert_eq!(block.events_compare2, 1);
}

#[test]
fn interrupt_enable_sets_one_bit_per_stimulus() {
    let mut rtc = RTC0::new().constrain();
    rtc.enable_interrupt(RtcInterrupt::Tick);
    rtc.enable_interrupt(RtcInterrupt::Compare3);
    let periph = rtc.release();
    assert_eq!(periph.block.inten, 0x0008_0001);
    let mut rtc = periph.constrain();
    rtc.disable_interrupt(RtcInterrupt::Tick);
    assert_eq!(rtc.release().block.inten, 0x0008_0000);
}

#[test]
fn event_enable_sets_one_bit_per_stimulus() {
    let mut rtc = RTC0::new().constrain();
    rtc.enable_event(RtcInterrupt::Overflow);
    rtc.enable_event(RtcInterrupt::Compare0);
    let periph = rtc.release();
    assert_eq!(periph.block.evten, 0x0001_0002);
    let mut rtc = periph.constrain();
    rtc.disable_event(RtcInterrupt::Compare0);
    // The interrupt-enable word is independent of the event-enable word.
    let block = rtc.release().block;
    assert_eq!(block.evten, 0x0000_0002);
    assert_eq!(block.inten, 0);
}

#[test]
fn counter_reads_24_bits() {
    let mut block = RegisterBlock::new();
    block.counter = 42;
    let rtc = RTC0 { block }.constrain();
    assert_eq!(rtc.get_counter(), 42);
    let mut block = RegisterBlock::new();
    block.counter = 0x0123_4567;
    let rtc = RTC0 { block }.constrain();
    assert_eq!(rtc.get_counter(), 0x0023_4567);
}

#[test]
fn configuration_works_in_started_mode() {
    let rtc = RTC0::new().constrain();
    let mut rtc = rtc.enable_counter();
    // Compare, interrupt, event and flag operations are callable while
    // the counter runs; only the prescaler is restricted to Stopped.
    assert_eq!(rtc.set_compare(RtcCompareReg::Compare0, 7), Ok(()));
    assert_eq!(
        rtc.set_compare(RtcCompareReg::Compare1, 0x0100_0000),
        Err(Error::CompareOutOfRange)
    );
    rtc.enable_interrupt(RtcInterrupt::Compare0);
    rtc.enable_event(RtcInterrupt::Compare0);
    assert!(!rtc.get_event_triggered(RtcInterrupt::Compare0, true));
    assert_eq!(rtc.get_counter(), 0);
    let block = rtc.disable_counter().release().block;
    assert_eq!(block.cc0, 7);
    assert_eq!(block.cc1, 0);
    assert_eq!(block.inten, 0x0001_0000);
    assert_eq!(block.evten, 0x0001_0000);
}

#[test]
fn release_keeps_configuration() {
    let mut block = RegisterBlock::new();
    block.counter = 5;
    block.events_compare1 = 1;
    let mut rtc = RTC1 { block }.constrain();
    assert_eq!(rtc.set_prescaler(12), Ok(()));
    assert_eq!(rtc.set_compare(RtcCompareReg::Compare1, 1000), Ok(()));
    rtc.enable_interrupt(RtcInterrupt::Compare1);
    let released = rtc.release().block;
    // Release does not reset anything: prior configuration and latched
    // flags persist.
    assert_eq!(released.prescaler, 12);
    assert_eq!(released.cc1, 1000);
    assert_eq!(released.inten, 0x0002_0000);
    assert_eq!(released.counter, 5);
    assert_eq!(released.events_compare1, 1);
}

#[test]
fn second_instance_starts_at_reset() {
    let rtc = RTC1::new().constrain();
    assert_eq!(rtc.get_counter(), 0);
    assert_eq!(rtc.release().block, RegisterBlock::new());
}

#[test]
fn stimulus_masks_are_distinct() {
    let masks = [
        RtcInterrupt::Tick.mask(),
        RtcInterrupt::Overflow.mask(),
        RtcInterrupt::Compare0.mask(),
        RtcInterrupt::Compare1.mask(),
        RtcInterrupt::Compare2.mask(),
        RtcInterrupt::Compare3.mask(),
    ];
    for (i, a) in masks.iter().enumerate() {
        assert_eq!(a.count_ones(), 1);
        for (j, b) in masks.iter().enumerate() {
            if i != j {
                assert_ne!(a, b);
            }
        }
    }
}
