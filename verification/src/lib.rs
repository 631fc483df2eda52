//! Driver logic for the Silicon Labs Si470x family of FM radio receivers.
//!
//! * [`registers`]: the register file as read from the device and the field
//!   layout of each register.
//! * [`driver`]: what each driver operation reads, changes and writes back.
//! * [`reset`]: the pin sequence that puts the chip into I²C mode.
//! * [`bitfield`]: fields packed most significant bit first into 16-bit words.

use vstd::prelude::*;

pub mod bitfield;
pub mod driver;
pub mod registers;
pub mod reset;

pub use driver::{
    chip_info, device_info, read_length, write_range, RegisterUpdate, Si470xError, Tuner,
    SI470X_I2C_ADDRESS,
};
pub use registers::{
    BootConfig, Channel, ChannelSpacing, ChipId, ChipInfo, DeviceId, DeviceInfo, Gpio1Mode,
    Gpio2Mode, Gpio3Mode, PowerCfg, RdsA, RdsB, RdsC, RdsD, RdsMode, ReadChan, ReadRegIdx,
    Registers, SeekDirection, SeekMode, SeekState, StatusRssi, SysConfig1, SysConfig2,
    SysConfig3, Test1, Test2,
};
pub use reset::{ResetSequence, ResetStep};

verus! {

/// Minimum delay, in milliseconds, after enabling the crystal oscillator
/// (by setting the XOSCEN bit) before setting the ENABLE bit, so that the
/// oscillator has stabilized (AN230 recommends no less than 500 ms).
pub const OSCILLATOR_ENABLE_MIN_DELAY_MS: u32 = 500;

/// Time, in milliseconds, required after power-up before the device is ready
/// for commands (datasheet table 8). STC interrupts should not be enabled
/// before it has passed.
pub const POWERUP_TIME_MS: u32 = 110;

} // verus!
