//! A verified high level interface for RTC peripherals: a free-running
//! 24-bit real-time counter with a 12-bit clock divider, four compare
//! channels, and per-stimulus interrupt/event generation.
//!
//! The driver exposes a restricted, validated API: out-of-range register
//! values are rejected before any register access, and operations that are
//! illegal in the peripheral's current operating state (changing the clock
//! divider while the counter runs) are unrepresentable through the types.

pub mod regs;
pub mod rtc;
