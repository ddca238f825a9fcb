//! Register opcodes and configuration-register bit positions of the chip.
use vstd::prelude::*;

verus! {

/// Opcode selecting the temperature register (combined write-then-read).
pub const REG_TEMPERATURE: u8 = 0xAA;
/// Opcode selecting the high-alarm threshold register.
pub const REG_ACCESS_TH: u8 = 0xA1;
/// Opcode selecting the low-alarm threshold register.
pub const REG_ACCESS_TL: u8 = 0xA2;
/// Opcode selecting the configuration register.
pub const REG_ACCESS_CONFIG: u8 = 0xAC;
/// Command opcode that starts a temperature conversion.
pub const REG_START_CONVERT: u8 = 0xEE;
/// Command opcode that stops a continuous conversion.
pub const REG_STOP_CONVERT: u8 = 0x22;

/// Configuration bit: the last conversion is complete.
pub const CFG_DONE: u8 = 0x80;
/// Configuration bit: the high-temperature alarm has triggered.
pub const CFG_THF: u8 = 0x40;
/// Configuration bit: the low-temperature alarm has triggered.
pub const CFG_TLF: u8 = 0x20;
/// Configuration bit: nonvolatile memory is busy.
pub const CFG_NVB: u8 = 0x10;
/// Reserved configuration bit.
pub const CFG_RESERVED0: u8 = 0x08;
/// Reserved configuration bit.
pub const CFG_RESERVED1: u8 = 0x04;
/// Configuration bit: output polarity.
pub const CFG_POL: u8 = 0x02;
/// Configuration bit: one-shot conversion mode.
pub const CFG_ONE_SHOT: u8 = 0x01;

/// Default bus address of the device.
pub const ADDR_DEFAULT: u8 = 0x4A;

} // verus!
