//! The decisions of the Si470x driver: what each operation reads from the
//! device, how it changes the registers, and what it writes back.
//!
//! Every operation of the driver reads a prefix of the register file (in read
//! order, starting at 0Ah), changes some fields, and writes registers 02h up to
//! the last register read back to the device. The bus transfers themselves are
//! left to the caller.

use vstd::prelude::*;

use crate::bitfield::{
    field, flag_bit, lemma_field_of_with_field, lemma_field_of_with_other_field,
    lemma_low_mask_values, lemma_with_field_of_field, with_field, word_of,
};
use crate::registers::{
    lemma_field_value_patterns, lemma_with_word_of_word, lemma_word_at_with_word, with_word,
    word_at, ChannelSpacing, ChipInfo, DeviceInfo, RdsMode, ReadRegIdx, Registers, SeekDirection,
    SeekMode, SeekState,
};

verus! {

/// The seven-bit I²C address of the Si470x.
pub const SI470X_I2C_ADDRESS: u8 = 0x10;

/// Errors of the driver; `E` is the error type of the I²C bus.
#[derive(Debug)]
pub enum Si470xError<E> {
    /// The bus transfer failed.
    I2c(E),
    /// A tune is still in progress (the TUNE bit is set).
    TuneInProgress,
    /// The registers to write hold no writable register.
    OutOfRange,
}

/// Core interface of a Si470x-family FM tuner on I²C: reading and writing the
/// register file. It can be implemented by mocks for testing.
pub trait Tuner<E> {
    /// Reads the registers from 0Ah up to and including `up_to_and_including_reg`.
    fn read_registers(&mut self, up_to_and_including_reg: ReadRegIdx) -> Result<
        Registers,
        Si470xError<E>,
    >;

    /// Reads all registers (0Ah to 0Fh, then 00h to 09h).
    fn read_all_registers(&mut self) -> Result<Registers, Si470xError<E>>;

    /// Writes the writable registers (from 02h on) of `registers` to the device.
    fn write_registers(&mut self, registers: &Registers) -> Result<(), Si470xError<E>>;

    /// Checks that the device answers on the bus.
    fn ping(&mut self) -> Result<(), Si470xError<E>>;
}

/// Number of bytes a read of the registers from 0Ah up to and including
/// `up_to_and_including_reg` transfers.
pub fn read_length(up_to_and_including_reg: ReadRegIdx) -> (r: usize)
    ensures
        r == 2 * (up_to_and_including_reg.index() + 1),
        2 <= r <= 32,
{
    let num_registers: usize = up_to_and_including_reg.index() as usize + 1;
    2 * num_registers
}

/// The byte range of `registers` to send to the device: writes start at
/// register 02h (POWERCFG) and end with the last valid register. There is
/// nothing to write when the registers end before POWERCFG.
pub fn write_range<E>(registers: &Registers) -> (r: Result<(usize, usize), Si470xError<E>>)
    ensures
        r is Err <==> registers.last_valid().index() < ReadRegIdx::PowerCfg.index(),
        r is Err ==> r == Err::<(usize, usize), Si470xError<E>>(Si470xError::OutOfRange),
        r matches Ok((start, end)) ==> {
            &&& registers.holds(ReadRegIdx::PowerCfg)
            &&& start == 2 * ReadRegIdx::PowerCfg.index()
            &&& end == 2 * registers.last_valid().index() + 2
            &&& end <= 32
        },
{
    let last = registers.get_last_valid_reg().index();
    if last < ReadRegIdx::PowerCfg.index() {
        return Err(Si470xError::OutOfRange);
    }
    let start: usize = 2 * ReadRegIdx::PowerCfg.index() as usize;
    let end_idx: usize = 2 * last as usize;
    Ok((start, end_idx + 2))
}

/// Position of a register in read order.
pub open spec fn pos(reg: ReadRegIdx) -> int {
    reg.index() as int
}

/// The changes to the device registers that the driver makes.
pub enum RegisterUpdate {
    /// Enables or disables the device; the ENABLE bit itself is never cleared.
    Enable(bool),
    /// Turns softmute on or off.
    Softmute(bool),
    /// Mutes or unmutes the audio.
    Mute(bool),
    /// Forces mono or allows stereo.
    Mono(bool),
    /// Selects the RDS mode.
    RdsMode(RdsMode),
    /// Sets seek mode, direction and state.
    Seek(SeekMode, SeekDirection, SeekState),
    /// Clears the TUNE and SEEK bits.
    ClearTuneSeek,
    /// Tunes to a channel.
    Channel(u16),
    /// Sets the 4-bit volume.
    Volume(u8),
    /// Sets the channel spacing.
    ChannelSpacing(ChannelSpacing),
    /// Sets the RSSI seek threshold.
    RssiThreshold(u8),
    /// Enables or disables the crystal oscillator.
    OscillatorEnable(bool),
}

impl RegisterUpdate {
    /// The last register, in read order, that the update reads before changing
    /// the registers.
    pub open spec fn extent(self) -> ReadRegIdx {
        match self {
            RegisterUpdate::ClearTuneSeek => ReadRegIdx::BootConfig,
            RegisterUpdate::Channel(_) => ReadRegIdx::BootConfig,
            RegisterUpdate::Volume(_) => ReadRegIdx::SysConfig2,
            RegisterUpdate::ChannelSpacing(_) => ReadRegIdx::SysConfig2,
            RegisterUpdate::RssiThreshold(_) => ReadRegIdx::SysConfig2,
            RegisterUpdate::OscillatorEnable(_) => ReadRegIdx::Test1,
            _ => ReadRegIdx::PowerCfg,
        }
    }

    /// The registers that the update reads from the buffer hold valid data.
    pub open spec fn covered_by(self, registers: Registers) -> bool {
        match self {
            RegisterUpdate::ClearTuneSeek => registers.holds(ReadRegIdx::Channel),
            RegisterUpdate::Channel(_) => registers.holds(ReadRegIdx::Channel),
            RegisterUpdate::Volume(_) => registers.holds(ReadRegIdx::SysConfig2),
            RegisterUpdate::ChannelSpacing(_) => registers.holds(ReadRegIdx::SysConfig2),
            RegisterUpdate::RssiThreshold(_) => registers.holds(ReadRegIdx::SysConfig2),
            RegisterUpdate::OscillatorEnable(_) => registers.holds(ReadRegIdx::Test1),
            _ => registers.holds(ReadRegIdx::PowerCfg),
        }
    }

    /// The value to store fits its field: the volume in 4 bits, and the
    /// channel in 10 bits unless a tune in progress refuses the update first.
    pub open spec fn value_fits(self, registers: Registers) -> bool {
        match self {
            RegisterUpdate::Channel(channel) => channel < 1024 || field(
                registers.word(pos(ReadRegIdx::Channel)),
                15,
                1,
            ) == 1,
            RegisterUpdate::Volume(volume) => volume < 16,
            _ => true,
        }
    }

    /// The update can be applied to `registers` without a failed check.
    pub open spec fn admissible(self, registers: Registers) -> bool {
        self.covered_by(registers) && self.value_fits(registers)
    }

    /// The update is refused: a channel change while a tune is in progress.
    pub open spec fn refused(self, bytes: Seq<u8>) -> bool {
        self is Channel && field(word_at(bytes, pos(ReadRegIdx::Channel)), 15, 1) == 1
    }

    /// The register buffer after the update.
    pub open spec fn applied(self, bytes: Seq<u8>) -> Seq<u8> {
        let power = word_at(bytes, pos(ReadRegIdx::PowerCfg));
        let channel = word_at(bytes, pos(ReadRegIdx::Channel));
        let config2 = word_at(bytes, pos(ReadRegIdx::SysConfig2));
        let test1 = word_at(bytes, pos(ReadRegIdx::Test1));
        match self {
            RegisterUpdate::Enable(enable) => with_word(
                bytes,
                pos(ReadRegIdx::PowerCfg),
                with_field(with_field(power, 0, 1, 1), 6, 1, flag_bit(!enable)),
            ),
            RegisterUpdate::Softmute(muted) => with_word(
                bytes,
                pos(ReadRegIdx::PowerCfg),
                with_field(power, 15, 1, flag_bit(!muted)),
            ),
            RegisterUpdate::Mute(muted) => with_word(
                bytes,
                pos(ReadRegIdx::PowerCfg),
                with_field(power, 14, 1, flag_bit(!muted)),
            ),
            RegisterUpdate::Mono(mono) => with_word(
                bytes,
                pos(ReadRegIdx::PowerCfg),
                with_field(power, 13, 1, flag_bit(mono)),
            ),
            RegisterUpdate::RdsMode(mode) => with_word(
                bytes,
                pos(ReadRegIdx::PowerCfg),
                with_field(power, 11, 1, mode.value()),
            ),
            RegisterUpdate::Seek(mode, direction, state) => with_word(
                bytes,
                pos(ReadRegIdx::PowerCfg),
                with_field(
                    with_field(with_field(power, 10, 1, mode.value()), 9, 1, direction.value()),
                    8,
                    1,
                    state.value(),
                ),
            ),
            RegisterUpdate::ClearTuneSeek => with_word(
                with_word(bytes, pos(ReadRegIdx::Channel), with_field(channel, 15, 1, 0)),
                pos(ReadRegIdx::PowerCfg),
                with_field(power, 8, 1, 0),
            ),
            RegisterUpdate::Channel(chan) => with_word(
                with_word(bytes, pos(ReadRegIdx::PowerCfg), with_field(power, 8, 1, 0)),
                pos(ReadRegIdx::Channel),
                with_field(with_field(channel, 0, 10, chan), 15, 1, 1),
            ),
            RegisterUpdate::Volume(volume) => with_word(
                bytes,
                pos(ReadRegIdx::SysConfig2),
                with_field(config2, 0, 4, volume as u16),
            ),
            RegisterUpdate::ChannelSpacing(spacing) => with_word(
                bytes,
                pos(ReadRegIdx::SysConfig2),
                with_field(config2, 4, 2, spacing.value()),
            ),
            RegisterUpdate::RssiThreshold(seekth) => with_word(
                bytes,
                pos(ReadRegIdx::SysConfig2),
                with_field(config2, 8, 8, seekth as u16),
            ),
            RegisterUpdate::OscillatorEnable(enable) => with_word(
                bytes,
                pos(ReadRegIdx::Test1),
                with_field(test1, 15, 1, flag_bit(enable)),
            ),
        }
    }

    /// The last register, in read order, to read before applying the update.
    pub fn read_extent(&self) -> (r: ReadRegIdx)
        ensures
            r == self.extent(),
    {
        match self {
            RegisterUpdate::ClearTuneSeek => ReadRegIdx::BootConfig,
            RegisterUpdate::Channel(_) => ReadRegIdx::BootConfig,
            RegisterUpdate::Volume(_) => ReadRegIdx::SysConfig2,
            RegisterUpdate::ChannelSpacing(_) => ReadRegIdx::SysConfig2,
            RegisterUpdate::RssiThreshold(_) => ReadRegIdx::SysConfig2,
            RegisterUpdate::OscillatorEnable(_) => ReadRegIdx::Test1,
            _ => ReadRegIdx::PowerCfg,
        }
    }

    /// Whether the update can be applied to `registers` without a failed check.
    pub fn admits(&self, registers: &Registers) -> (r: bool)
        ensures
            r == self.admissible(*registers),
    {
        let last = registers.get_last_valid_reg().index();
        match self {
            RegisterUpdate::ClearTuneSeek => last >= ReadRegIdx::Channel.index(),
            RegisterUpdate::Channel(channel) => {
                last >= ReadRegIdx::Channel.index() && (*channel < 1024 || registers.channel().tune())
            },
            RegisterUpdate::Volume(volume) => last >= ReadRegIdx::SysConfig2.index() && *volume < 16,
            RegisterUpdate::ChannelSpacing(_) => last >= ReadRegIdx::SysConfig2.index(),
            RegisterUpdate::RssiThreshold(_) => last >= ReadRegIdx::SysConfig2.index(),
            RegisterUpdate::OscillatorEnable(_) => last >= ReadRegIdx::Test1.index(),
            _ => last >= ReadRegIdx::PowerCfg.index(),
        }
    }

    /// Applies the update to `registers`.
    pub fn apply<E>(&self, registers: &mut Registers) -> (r: Result<(), Si470xError<E>>)
        requires
            self.admissible(*old(registers)),
        ensures
            final(registers).last_valid() == old(registers).last_valid(),
            r is Err <==> self.refused(old(registers).bytes()),
            r is Err ==> r == Err::<(), Si470xError<E>>(Si470xError::TuneInProgress)
                && final(registers).bytes() == old(registers).bytes(),
            r is Ok ==> final(registers).bytes() == self.applied(old(registers).bytes()),
    {
        proof {
            lemma_low_mask_values();
            registers.lemma_len();
        }
        match self {
            RegisterUpdate::Enable(enable) => {
                let mut reg = registers.power_cfg();
                // The datasheet says the ENABLE bit should never be written to 0.
                reg.set_enable(true);
                reg.set_disable(!*enable);
                registers.set_power_cfg(reg);
            },
            RegisterUpdate::Softmute(muted) => {
                let mut reg = registers.power_cfg();
                reg.set_dsmute(!*muted);
                registers.set_power_cfg(reg);
            },
            RegisterUpdate::Mute(muted) => {
                let mut reg = registers.power_cfg();
                reg.set_dmute(!*muted);
                registers.set_power_cfg(reg);
            },
            RegisterUpdate::Mono(mono) => {
                let mut reg = registers.power_cfg();
                reg.set_mono(*mono);
                registers.set_power_cfg(reg);
            },
            RegisterUpdate::RdsMode(mode) => {
                let mut reg = registers.power_cfg();
                reg.set_rdsm(*mode);
                registers.set_power_cfg(reg);
            },
            RegisterUpdate::Seek(mode, direction, state) => {
                let mut reg = registers.power_cfg();
                reg.set_skmode(*mode);
                reg.set_seekup(*direction);
                reg.set_seek(*state);
                registers.set_power_cfg(reg);
            },
            RegisterUpdate::ClearTuneSeek => {
                let mut creg = registers.channel();
                creg.set_tune(false);
                registers.set_channel(creg);
                proof {
                    lemma_word_at_with_word(
                        old(registers).bytes(),
                        pos(ReadRegIdx::Channel),
                        pos(ReadRegIdx::PowerCfg),
                        creg@,
                    );
                }
                let mut preg = registers.power_cfg();
                preg.set_seek(SeekState::Disable);
                registers.set_power_cfg(preg);
            },
            RegisterUpdate::Channel(channel) => {
                let mut creg = registers.channel();
                if creg.tune() {
                    return Err(Si470xError::TuneInProgress);
                }
                let mut preg = registers.power_cfg();
                if preg.seek() == SeekState::Enable {
                    preg.set_seek(SeekState::Disable);
                    registers.set_power_cfg(preg);
                } else {
                    proof {
                        let power = old(registers).word(pos(ReadRegIdx::PowerCfg));
                        lemma_with_field_of_field(power, 8, 1);
                        lemma_with_word_of_word(old(registers).bytes(), pos(ReadRegIdx::PowerCfg));
                    }
                }
                proof {
                    lemma_word_at_with_word(
                        old(registers).bytes(),
                        pos(ReadRegIdx::PowerCfg),
                        pos(ReadRegIdx::Channel),
                        preg@,
                    );
                }
                creg.set_chan(*channel);
                creg.set_tune(true);
                registers.set_channel(creg);
            },
            RegisterUpdate::Volume(volume) => {
                let mut reg = registers.sys_config2();
                reg.set_volume(*volume);
                registers.set_sys_config2(reg);
            },
            RegisterUpdate::ChannelSpacing(spacing) => {
                let mut reg = registers.sys_config2();
                reg.set_space(*spacing);
                registers.set_sys_config2(reg);
            },
            RegisterUpdate::RssiThreshold(seekth) => {
                let mut reg = registers.sys_config2();
                reg.set_seekth(*seekth);
                registers.set_sys_config2(reg);
            },
            RegisterUpdate::OscillatorEnable(enable) => {
                let mut reg = registers.test1();
                reg.set_xoscen(*enable);
                registers.set_test1(reg);
            },
        }
        Ok(())
    }
}

/// An update changes only registers from POWERCFG up to the last register it
/// reads, so writing registers 02h up to that register sends every change.
pub proof fn lemma_update_within_write_range(update: RegisterUpdate, bytes: Seq<u8>, j: int)
    requires
        bytes.len() == 32,
        0 <= j < 16,
        j < pos(ReadRegIdx::PowerCfg) || j > pos(update.extent()),
    ensures
        update.applied(bytes).len() == 32,
        word_at(update.applied(bytes), j) == word_at(bytes, j),
{
    let power = pos(ReadRegIdx::PowerCfg);
    let channel = pos(ReadRegIdx::Channel);
    let p = word_at(bytes, power);
    let c = word_at(bytes, channel);
    match update {
        RegisterUpdate::ClearTuneSeek => {
            let b1 = with_word(bytes, channel, with_field(c, 15, 1, 0));
            lemma_word_at_with_word(bytes, channel, j, with_field(c, 15, 1, 0));
            lemma_word_at_with_word(bytes, channel, power, with_field(c, 15, 1, 0));
            lemma_word_at_with_word(b1, power, j, with_field(p, 8, 1, 0));
        },
        RegisterUpdate::Channel(chan) => {
            let b1 = with_word(bytes, power, with_field(p, 8, 1, 0));
            lemma_word_at_with_word(bytes, power, j, with_field(p, 8, 1, 0));
            lemma_word_at_with_word(bytes, power, channel, with_field(p, 8, 1, 0));
            lemma_word_at_with_word(
                b1,
                channel,
                j,
                with_field(with_field(c, 0, 10, chan), 15, 1, 1),
            );
        },
        RegisterUpdate::Volume(v) => {
            lemma_word_at_with_word(
                bytes,
                pos(ReadRegIdx::SysConfig2),
                j,
                with_field(word_at(bytes, pos(ReadRegIdx::SysConfig2)), 0, 4, v as u16),
            );
        },
        RegisterUpdate::ChannelSpacing(s) => {
            lemma_word_at_with_word(
                bytes,
                pos(ReadRegIdx::SysConfig2),
                j,
                with_field(word_at(bytes, pos(ReadRegIdx::SysConfig2)), 4, 2, s.value()),
            );
        },
        RegisterUpdate::RssiThreshold(t) => {
            lemma_word_at_with_word(
                bytes,
                pos(ReadRegIdx::SysConfig2),
                j,
                with_field(word_at(bytes, pos(ReadRegIdx::SysConfig2)), 8, 8, t as u16),
            );
        },
        RegisterUpdate::OscillatorEnable(e) => {
            lemma_word_at_with_word(
                bytes,
                pos(ReadRegIdx::Test1),
                j,
                with_field(word_at(bytes, pos(ReadRegIdx::Test1)), 15, 1, flag_bit(e)),
            );
        },
        RegisterUpdate::Enable(enable) => {
            lemma_word_at_with_word(
                bytes,
                power,
                j,
                with_field(with_field(p, 0, 1, 1), 6, 1, flag_bit(!enable)),
            );
        },
        RegisterUpdate::Softmute(muted) => {
            lemma_word_at_with_word(bytes, power, j, with_field(p, 15, 1, flag_bit(!muted)));
        },
        RegisterUpdate::Mute(muted) => {
            lemma_word_at_with_word(bytes, power, j, with_field(p, 14, 1, flag_bit(!muted)));
        },
        RegisterUpdate::Mono(mono) => {
            lemma_word_at_with_word(bytes, power, j, with_field(p, 13, 1, flag_bit(mono)));
        },
        RegisterUpdate::RdsMode(mode) => {
            lemma_word_at_with_word(bytes, power, j, with_field(p, 11, 1, mode.value()));
        },
        RegisterUpdate::Seek(mode, direction, state) => {
            lemma_word_at_with_word(bytes, power, j, with_field(
                with_field(with_field(p, 10, 1, mode.value()), 9, 1, direction.value()),
                8,
                1,
                state.value(),
            ));
        },
    }
}

/// What each update leaves in the fields it writes. In particular, enabling or
/// disabling the device always leaves ENABLE set, and a channel change sets
/// TUNE, stores the channel and clears SEEK.
pub proof fn lemma_update_effect(update: RegisterUpdate, bytes: Seq<u8>)
    requires
        bytes.len() == 32,
        update is Channel ==> update->Channel_0 < 1024,
        update is Volume ==> update->Volume_0 < 16,
    ensures
        ({
            let after = update.applied(bytes);
            let power = word_at(after, pos(ReadRegIdx::PowerCfg));
            let channel = word_at(after, pos(ReadRegIdx::Channel));
            let config2 = word_at(after, pos(ReadRegIdx::SysConfig2));
            let test1 = word_at(after, pos(ReadRegIdx::Test1));
            match update {
                RegisterUpdate::Enable(enable) => field(power, 0, 1) == 1 && field(power, 6, 1)
                    == flag_bit(!enable),
                RegisterUpdate::Softmute(muted) => field(power, 15, 1) == flag_bit(!muted),
                RegisterUpdate::Mute(muted) => field(power, 14, 1) == flag_bit(!muted),
                RegisterUpdate::Mono(mono) => field(power, 13, 1) == flag_bit(mono),
                RegisterUpdate::RdsMode(mode) => field(power, 11, 1) == mode.value(),
                RegisterUpdate::Seek(mode, direction, state) => field(power, 10, 1) == mode.value()
                    && field(power, 9, 1) == direction.value() && field(power, 8, 1)
                    == state.value(),
                RegisterUpdate::ClearTuneSeek => field(channel, 15, 1) == 0 && field(power, 8, 1)
                    == 0,
                RegisterUpdate::Channel(chan) => field(channel, 15, 1) == 1 && field(channel, 0, 10)
                    == chan && field(power, 8, 1) == 0,
                RegisterUpdate::Volume(volume) => field(config2, 0, 4) == volume,
                RegisterUpdate::ChannelSpacing(spacing) => field(config2, 4, 2) == spacing.value(),
                RegisterUpdate::RssiThreshold(seekth) => field(config2, 8, 8) == seekth,
                RegisterUpdate::OscillatorEnable(enable) => field(test1, 15, 1) == flag_bit(enable),
            }
        }),
{
    lemma_low_mask_values();
    let power = pos(ReadRegIdx::PowerCfg);
    let channel = pos(ReadRegIdx::Channel);
    let config2 = pos(ReadRegIdx::SysConfig2);
    let test1 = pos(ReadRegIdx::Test1);
    let p = word_at(bytes, power);
    let c = word_at(bytes, channel);
    let s2 = word_at(bytes, config2);
    let t1 = word_at(bytes, test1);
    match update {
        RegisterUpdate::Enable(enable) => {
            let w = with_field(with_field(p, 0, 1, 1), 6, 1, flag_bit(!enable));
            lemma_word_at_with_word(bytes, power, power, w);
            lemma_field_of_with_other_field(with_field(p, 0, 1, 1), 6, 1, flag_bit(!enable), 0, 1);
            lemma_field_of_with_field(p, 0, 1, 1);
            lemma_field_of_with_field(with_field(p, 0, 1, 1), 6, 1, flag_bit(!enable));
        },
        RegisterUpdate::Softmute(muted) => {
            lemma_word_at_with_word(bytes, power, power, with_field(p, 15, 1, flag_bit(!muted)));
            lemma_field_of_with_field(p, 15, 1, flag_bit(!muted));
        },
        RegisterUpdate::Mute(muted) => {
            lemma_word_at_with_word(bytes, power, power, with_field(p, 14, 1, flag_bit(!muted)));
            lemma_field_of_with_field(p, 14, 1, flag_bit(!muted));
        },
        RegisterUpdate::Mono(mono) => {
            lemma_word_at_with_word(bytes, power, power, with_field(p, 13, 1, flag_bit(mono)));
            lemma_field_of_with_field(p, 13, 1, flag_bit(mono));
        },
        RegisterUpdate::RdsMode(mode) => {
            lemma_word_at_with_word(bytes, power, power, with_field(p, 11, 1, mode.value()));
            lemma_field_of_with_field(p, 11, 1, mode.value());
        },
        RegisterUpdate::Seek(mode, direction, state) => {
            let w1 = with_field(p, 10, 1, mode.value());
            let w2 = with_field(w1, 9, 1, direction.value());
            let w3 = with_field(w2, 8, 1, state.value());
            lemma_word_at_with_word(bytes, power, power, w3);
            lemma_field_of_with_field(p, 10, 1, mode.value());
            lemma_field_of_with_other_field(w1, 9, 1, direction.value(), 10, 1);
            lemma_field_of_with_other_field(w2, 8, 1, state.value(), 10, 1);
            lemma_field_of_with_field(w1, 9, 1, direction.value());
            lemma_field_of_with_other_field(w2, 8, 1, state.value(), 9, 1);
            lemma_field_of_with_field(w2, 8, 1, state.value());
        },
        RegisterUpdate::ClearTuneSeek => {
            let b1 = with_word(bytes, channel, with_field(c, 15, 1, 0));
            lemma_word_at_with_word(bytes, channel, power, with_field(c, 15, 1, 0));
            lemma_word_at_with_word(bytes, channel, channel, with_field(c, 15, 1, 0));
            lemma_word_at_with_word(b1, power, power, with_field(p, 8, 1, 0));
            lemma_word_at_with_word(b1, power, channel, with_field(p, 8, 1, 0));
            lemma_field_of_with_field(c, 15, 1, 0);
            lemma_field_of_with_field(p, 8, 1, 0);
        },
        RegisterUpdate::Channel(chan) => {
            let b1 = with_word(bytes, power, with_field(p, 8, 1, 0));
            let w = with_field(with_field(c, 0, 10, chan), 15, 1, 1);
            lemma_word_at_with_word(bytes, power, power, with_field(p, 8, 1, 0));
            lemma_word_at_with_word(bytes, power, channel, with_field(p, 8, 1, 0));
            lemma_word_at_with_word(b1, channel, channel, w);
            lemma_word_at_with_word(b1, channel, power, w);
            lemma_field_of_with_field(p, 8, 1, 0);
            lemma_field_of_with_field(c, 0, 10, chan);
            lemma_field_of_with_other_field(with_field(c, 0, 10, chan), 15, 1, 1, 0, 10);
            lemma_field_of_with_field(with_field(c, 0, 10, chan), 15, 1, 1);
        },
        RegisterUpdate::Volume(volume) => {
            lemma_word_at_with_word(bytes, config2, config2, with_field(s2, 0, 4, volume as u16));
            lemma_field_of_with_field(s2, 0, 4, volume as u16);
        },
        RegisterUpdate::ChannelSpacing(spacing) => {
            lemma_word_at_with_word(bytes, config2, config2, with_field(s2, 4, 2, spacing.value()));
            lemma_field_of_with_field(s2, 4, 2, spacing.value());
        },
        RegisterUpdate::RssiThreshold(seekth) => {
            lemma_word_at_with_word(bytes, config2, config2, with_field(s2, 8, 8, seekth as u16));
            lemma_field_of_with_field(s2, 8, 8, seekth as u16);
        },
        RegisterUpdate::OscillatorEnable(enable) => {
            lemma_word_at_with_word(bytes, test1, test1, with_field(t1, 15, 1, flag_bit(enable)));
            lemma_field_of_with_field(t1, 15, 1, flag_bit(enable));
        },
    }
}

/// No update clears the ENABLE bit: enabling or disabling the device sets it,
/// and every other update leaves it as it was.
pub proof fn lemma_enable_bit_kept(update: RegisterUpdate, bytes: Seq<u8>)
    requires
        bytes.len() == 32,
        update is Channel ==> update->Channel_0 < 1024,
        update is Volume ==> update->Volume_0 < 16,
    ensures
        ({
            let before = field(word_at(bytes, pos(ReadRegIdx::PowerCfg)), 0, 1);
            let after = field(word_at(update.applied(bytes), pos(ReadRegIdx::PowerCfg)), 0, 1);
            if update is Enable {
                after == 1
            } else {
                after == before
            }
        }),
{
    lemma_low_mask_values();
    lemma_update_effect(update, bytes);
    let power = pos(ReadRegIdx::PowerCfg);
    let channel = pos(ReadRegIdx::Channel);
    let p = word_at(bytes, power);
    let c = word_at(bytes, channel);
    let after = word_at(update.applied(bytes), power);
    match update {
        RegisterUpdate::Enable(_) => {},
        RegisterUpdate::Softmute(muted) => {
            lemma_word_at_with_word(bytes, power, power, with_field(p, 15, 1, flag_bit(!muted)));
            lemma_field_of_with_other_field(p, 15, 1, flag_bit(!muted), 0, 1);
        },
        RegisterUpdate::Mute(muted) => {
            lemma_word_at_with_word(bytes, power, power, with_field(p, 14, 1, flag_bit(!muted)));
            lemma_field_of_with_other_field(p, 14, 1, flag_bit(!muted), 0, 1);
        },
        RegisterUpdate::Mono(mono) => {
            lemma_word_at_with_word(bytes, power, power, with_field(p, 13, 1, flag_bit(mono)));
            lemma_field_of_with_other_field(p, 13, 1, flag_bit(mono), 0, 1);
        },
        RegisterUpdate::RdsMode(mode) => {
            lemma_word_at_with_word(bytes, power, power, with_field(p, 11, 1, mode.value()));
            lemma_field_of_with_other_field(p, 11, 1, mode.value(), 0, 1);
        },
        RegisterUpdate::Seek(mode, direction, state) => {
            let w1 = with_field(p, 10, 1, mode.value());
            let w2 = with_field(w1, 9, 1, direction.value());
            lemma_word_at_with_word(bytes, power, power, with_field(w2, 8, 1, state.value()));
            lemma_field_of_with_other_field(p, 10, 1, mode.value(), 0, 1);
            lemma_field_of_with_other_field(w1, 9, 1, direction.value(), 0, 1);
            lemma_field_of_with_other_field(w2, 8, 1, state.value(), 0, 1);
        },
        RegisterUpdate::ClearTuneSeek => {
            let b1 = with_word(bytes, channel, with_field(c, 15, 1, 0));
            lemma_word_at_with_word(bytes, channel, power, with_field(c, 15, 1, 0));
            lemma_word_at_with_word(b1, power, power, with_field(p, 8, 1, 0));
            lemma_field_of_with_other_field(p, 8, 1, 0, 0, 1);
        },
        RegisterUpdate::Channel(chan) => {
            let b1 = with_word(bytes, power, with_field(p, 8, 1, 0));
            lemma_word_at_with_word(bytes, power, power, with_field(p, 8, 1, 0));
            lemma_word_at_with_word(
                b1,
                channel,
                power,
                with_field(with_field(c, 0, 10, chan), 15, 1, 1),
            );
            lemma_field_of_with_other_field(p, 8, 1, 0, 0, 1);
        },
        RegisterUpdate::Volume(volume) => {
            let s2 = word_at(bytes, pos(ReadRegIdx::SysConfig2));
            lemma_word_at_with_word(
                bytes,
                pos(ReadRegIdx::SysConfig2),
                power,
                with_field(s2, 0, 4, volume as u16),
            );
        },
        RegisterUpdate::ChannelSpacing(spacing) => {
            let s2 = word_at(bytes, pos(ReadRegIdx::SysConfig2));
            lemma_word_at_with_word(
                bytes,
                pos(ReadRegIdx::SysConfig2),
                power,
                with_field(s2, 4, 2, spacing.value()),
            );
        },
        RegisterUpdate::RssiThreshold(seekth) => {
            let s2 = word_at(bytes, pos(ReadRegIdx::SysConfig2));
            lemma_word_at_with_word(
                bytes,
                pos(ReadRegIdx::SysConfig2),
                power,
                with_field(s2, 8, 8, seekth as u16),
            );
        },
        RegisterUpdate::OscillatorEnable(enable) => {
            let t1 = word_at(bytes, pos(ReadRegIdx::Test1));
            lemma_word_at_with_word(
                bytes,
                pos(ReadRegIdx::Test1),
                power,
                with_field(t1, 15, 1, flag_bit(enable)),
            );
        },
    }
}

/// A channel change is refused exactly while a tune is in progress, that is
/// while bit 15 (TUNE) of CHANNEL, register 9 in read order, is set; the
/// channel asked for plays no part, and no other update is ever refused.
pub proof fn lemma_refused_iff_tuning(update: RegisterUpdate, bytes: Seq<u8>)
    ensures
        update.refused(bytes) <==> (update is Channel && word_at(bytes, 9) & 0x8000u16 != 0),
{
    let c = word_at(bytes, 9);
    assert(((c >> 15u16) & (0xffffu16 >> 15u16) == 1) == (c & 0x8000u16 != 0)) by (bit_vector);
}

/// The registers (by position in read order) that each update reads, with
/// the datasheet's positions written out: POWERCFG is 8, SYSCONFIG2 11,
/// TEST1 13 and BOOTCONFIG, the last one, 15.
pub proof fn lemma_extent_positions(update: RegisterUpdate)
    ensures
        update.extent().index() == match update {
            RegisterUpdate::ClearTuneSeek => 15u8,
            RegisterUpdate::Channel(_) => 15u8,
            RegisterUpdate::Volume(_) => 11u8,
            RegisterUpdate::ChannelSpacing(_) => 11u8,
            RegisterUpdate::RssiThreshold(_) => 11u8,
            RegisterUpdate::OscillatorEnable(_) => 13u8,
            _ => 8u8,
        },
{
}

/// When an update can be applied: the registers it reads must have been read
/// (positions in read order written out), every 4-bit volume 0..=15 is
/// accepted and no larger one, and every 10-bit channel 0..=1023 is accepted;
/// a larger channel only while a tune is in progress, which refuses it.
pub proof fn lemma_admissible_iff(update: RegisterUpdate, registers: Registers)
    ensures
        update.admissible(registers) <==> {
            let last = registers.last_valid().index();
            match update {
                RegisterUpdate::ClearTuneSeek => last >= 9,
                RegisterUpdate::Channel(chan) => last >= 9 && (chan <= 1023 || registers.word(9)
                    & 0x8000u16 != 0),
                RegisterUpdate::Volume(volume) => last >= 11 && volume <= 15,
                RegisterUpdate::ChannelSpacing(_) => last >= 11,
                RegisterUpdate::RssiThreshold(_) => last >= 11,
                RegisterUpdate::OscillatorEnable(_) => last >= 13,
                _ => last >= 8,
            }
        },
{
    let c = registers.word(9);
    assert(((c >> 15u16) & (0xffffu16 >> 15u16) == 1) == (c & 0x8000u16 != 0)) by (bit_vector);
}

/// The bytes an update may change (as offsets into the 32-byte buffer):
/// POWERCFG's two, CHANNEL's two as well for a channel change or clearing
/// TUNE/SEEK, SYSCONFIG2's two, or TEST1's two. Every other byte is kept.
pub proof fn lemma_update_keeps_other_bytes(update: RegisterUpdate, bytes: Seq<u8>, k: int)
    requires
        bytes.len() == 32,
        0 <= k < 32,
        match update {
            RegisterUpdate::ClearTuneSeek => !(16 <= k < 20),
            RegisterUpdate::Channel(_) => !(16 <= k < 20),
            RegisterUpdate::Volume(_) => !(22 <= k < 24),
            RegisterUpdate::ChannelSpacing(_) => !(22 <= k < 24),
            RegisterUpdate::RssiThreshold(_) => !(22 <= k < 24),
            RegisterUpdate::OscillatorEnable(_) => !(26 <= k < 28),
            _ => !(16 <= k < 18),
        },
    ensures
        update.applied(bytes).len() == 32,
        update.applied(bytes)[k] == bytes[k],
{
}

/// What each update does to the register words it writes, bit by bit, with
/// the datasheet's bit patterns written out (POWERCFG is word 8, CHANNEL 9,
/// SYSCONFIG2 11 and TEST1 13 in read order): the bits of the fields it sets
/// take the given values, and every other bit of the word is kept.
pub proof fn lemma_update_bits(update: RegisterUpdate, bytes: Seq<u8>)
    requires
        bytes.len() == 32,
        update is Channel ==> update->Channel_0 <= 1023,
        update is Volume ==> update->Volume_0 <= 15,
    ensures
        ({
            let after = update.applied(bytes);
            let p = word_at(bytes, 8);
            let p2 = word_at(after, 8);
            let c = word_at(bytes, 9);
            let c2 = word_at(after, 9);
            let s = word_at(bytes, 11);
            let s2 = word_at(after, 11);
            let t = word_at(bytes, 13);
            let t2 = word_at(after, 13);
            match update {
                RegisterUpdate::Enable(enable) => {
                    &&& p2 & 0xFFBEu16 == p & 0xFFBEu16
                    &&& p2 & 0x0001u16 == 0x0001u16
                    &&& p2 & 0x0040u16 == if enable { 0u16 } else { 0x0040u16 }
                },
                RegisterUpdate::Softmute(muted) => {
                    &&& p2 & 0x7FFFu16 == p & 0x7FFFu16
                    &&& p2 & 0x8000u16 == if muted { 0u16 } else { 0x8000u16 }
                },
                RegisterUpdate::Mute(muted) => {
                    &&& p2 & 0xBFFFu16 == p & 0xBFFFu16
                    &&& p2 & 0x4000u16 == if muted { 0u16 } else { 0x4000u16 }
                },
                RegisterUpdate::Mono(mono) => {
                    &&& p2 & 0xDFFFu16 == p & 0xDFFFu16
                    &&& p2 & 0x2000u16 == if mono { 0x2000u16 } else { 0u16 }
                },
                RegisterUpdate::RdsMode(mode) => {
                    &&& p2 & 0xF7FFu16 == p & 0xF7FFu16
                    &&& p2 & 0x0800u16 == match mode {
                        RdsMode::Standard => 0u16,
                        RdsMode::Verbose => 0x0800u16,
                    }
                },
                RegisterUpdate::Seek(mode, direction, state) => {
                    &&& p2 & 0xF8FFu16 == p & 0xF8FFu16
                    &&& p2 & 0x0400u16 == match mode {
                        SeekMode::Wrap => 0u16,
                        SeekMode::Stop => 0x0400u16,
                    }
                    &&& p2 & 0x0200u16 == match direction {
                        SeekDirection::Down => 0u16,
                        SeekDirection::Up => 0x0200u16,
                    }
                    &&& p2 & 0x0100u16 == match state {
                        SeekState::Disable => 0u16,
                        SeekState::Enable => 0x0100u16,
                    }
                },
                RegisterUpdate::ClearTuneSeek => {
                    &&& c2 == c & 0x7FFFu16
                    &&& p2 == p & 0xFEFFu16
                },
                RegisterUpdate::Channel(chan) => {
                    &&& c2 == 0x8000u16 | (c & 0x7C00u16) | chan
                    &&& p2 == p & 0xFEFFu16
                },
                RegisterUpdate::Volume(volume) => s2 == (s & 0xFFF0u16) | (volume as u16),
                RegisterUpdate::ChannelSpacing(spacing) => s2 == (s & 0xFFCFu16) | match spacing {
                    ChannelSpacing::KHz200 => 0x0000u16,
                    ChannelSpacing::KHz100 => 0x0010u16,
                    ChannelSpacing::KHz50 => 0x0020u16,
                },
                RegisterUpdate::RssiThreshold(seekth) => s2 == (s & 0x00FFu16) | ((seekth as u16)
                    << 8u16),
                RegisterUpdate::OscillatorEnable(enable) => t2 == (t & 0x7FFFu16) | if enable {
                    0x8000u16
                } else {
                    0u16
                },
            }
        }),
{
    lemma_low_mask_values();
    lemma_field_value_patterns();
    let p = word_at(bytes, 8);
    let c = word_at(bytes, 9);
    let s = word_at(bytes, 11);
    let t = word_at(bytes, 13);
    match update {
        RegisterUpdate::Enable(enable) => {
            let d = flag_bit(!enable);
            let x = with_field(with_field(p, 0, 1, 1), 6, 1, d);
            lemma_word_at_with_word(bytes, 8, 8, x);
            assert(x & 0xFFBEu16 == p & 0xFFBEu16 && x & 1u16 == 1u16 && x & 0x40u16 == if d == 1 {
                0x40u16
            } else {
                0u16
            }) by (bit_vector)
                requires
                    x == with_field(with_field(p, 0, 1, 1), 6, 1, d),
                    d <= 1,
            ;
        },
        RegisterUpdate::Softmute(muted) => {
            let d = flag_bit(!muted);
            let x = with_field(p, 15, 1, d);
            lemma_word_at_with_word(bytes, 8, 8, x);
            assert(x & 0x7FFFu16 == p & 0x7FFFu16 && x & 0x8000u16 == if d == 1 {
                0x8000u16
            } else {
                0u16
            }) by (bit_vector)
                requires
                    x == with_field(p, 15, 1, d),
                    d <= 1,
            ;
        },
        RegisterUpdate::Mute(muted) => {
            let d = flag_bit(!muted);
            let x = with_field(p, 14, 1, d);
            lemma_word_at_with_word(bytes, 8, 8, x);
            assert(x & 0xBFFFu16 == p & 0xBFFFu16 && x & 0x4000u16 == if d == 1 {
                0x4000u16
            } else {
                0u16
            }) by (bit_vector)
                requires
                    x == with_field(p, 14, 1, d),
                    d <= 1,
            ;
        },
        RegisterUpdate::Mono(mono) => {
            let d = flag_bit(mono);
            let x = with_field(p, 13, 1, d);
            lemma_word_at_with_word(bytes, 8, 8, x);
            assert(x & 0xDFFFu16 == p & 0xDFFFu16 && x & 0x2000u16 == if d == 1 {
                0x2000u16
            } else {
                0u16
            }) by (bit_vector)
                requires
                    x == with_field(p, 13, 1, d),
                    d <= 1,
            ;
        },
        RegisterUpdate::RdsMode(mode) => {
            let d = mode.value();
            let x = with_field(p, 11, 1, d);
            lemma_word_at_with_word(bytes, 8, 8, x);
            assert(x & 0xF7FFu16 == p & 0xF7FFu16 && x & 0x0800u16 == if d == 1 {
                0x0800u16
            } else {
                0u16
            }) by (bit_vector)
                requires
                    x == with_field(p, 11, 1, d),
                    d <= 1,
            ;
        },
        RegisterUpdate::Seek(mode, direction, state) => {
            let a = mode.value();
            let b = direction.value();
            let e = state.value();
            let x = with_field(with_field(with_field(p, 10, 1, a), 9, 1, b), 8, 1, e);
            lemma_word_at_with_word(bytes, 8, 8, x);
            assert(x & 0xF8FFu16 == p & 0xF8FFu16 && x & 0x0400u16 == (if a == 1 {
                0x0400u16
            } else {
                0u16
            }) && x & 0x0200u16 == (if b == 1 {
                0x0200u16
            } else {
                0u16
            }) && x & 0x0100u16 == if e == 1 {
                0x0100u16
            } else {
                0u16
            }) by (bit_vector)
                requires
                    x == with_field(with_field(with_field(p, 10, 1, a), 9, 1, b), 8, 1, e),
                    a <= 1,
                    b <= 1,
                    e <= 1,
            ;
        },
        RegisterUpdate::ClearTuneSeek => {
            let y = with_field(c, 15, 1, 0);
            let x = with_field(p, 8, 1, 0);
            let b1 = with_word(bytes, 9, y);
            lemma_word_at_with_word(bytes, 9, 8, y);
            lemma_word_at_with_word(bytes, 9, 9, y);
            lemma_word_at_with_word(b1, 8, 8, x);
            lemma_word_at_with_word(b1, 8, 9, x);
            assert(y == c & 0x7FFFu16) by (bit_vector)
                requires
                    y == with_field(c, 15, 1, 0),
            ;
            assert(x == p & 0xFEFFu16) by (bit_vector)
                requires
                    x == with_field(p, 8, 1, 0),
            ;
        },
        RegisterUpdate::Channel(chan) => {
            let x = with_field(p, 8, 1, 0);
            let y = with_field(with_field(c, 0, 10, chan), 15, 1, 1);
            let b1 = with_word(bytes, 8, x);
            lemma_word_at_with_word(bytes, 8, 8, x);
            lemma_word_at_with_word(bytes, 8, 9, x);
            lemma_word_at_with_word(b1, 9, 9, y);
            lemma_word_at_with_word(b1, 9, 8, y);
            assert(x == p & 0xFEFFu16) by (bit_vector)
                requires
                    x == with_field(p, 8, 1, 0),
            ;
            assert(y == 0x8000u16 | (c & 0x7C00u16) | chan) by (bit_vector)
                requires
                    y == with_field(with_field(c, 0, 10, chan), 15, 1, 1),
                    chan <= 1023,
            ;
        },
        RegisterUpdate::Volume(volume) => {
            let v = volume as u16;
            let x = with_field(s, 0, 4, v);
            lemma_word_at_with_word(bytes, 11, 11, x);
            assert(x == (s & 0xFFF0u16) | v) by (bit_vector)
                requires
                    x == with_field(s, 0, 4, v),
                    v <= 15,
            ;
        },
        RegisterUpdate::ChannelSpacing(spacing) => {
            let d = spacing.value();
            let x = with_field(s, 4, 2, d);
            lemma_word_at_with_word(bytes, 11, 11, x);
            assert(x == (s & 0xFFCFu16) | (if d == 0 {
                0u16
            } else if d == 1 {
                0x10u16
            } else {
                0x20u16
            })) by (bit_vector)
                requires
                    x == with_field(s, 4, 2, d),
                    d <= 2,
            ;
        },
        RegisterUpdate::RssiThreshold(seekth) => {
            let v = seekth as u16;
            let x = with_field(s, 8, 8, v);
            lemma_word_at_with_word(bytes, 11, 11, x);
            assert(x == (s & 0x00FFu16) | (v << 8u16)) by (bit_vector)
                requires
                    x == with_field(s, 8, 8, v),
                    v <= 255,
            ;
        },
        RegisterUpdate::OscillatorEnable(enable) => {
            let d = flag_bit(enable);
            let x = with_field(t, 15, 1, d);
            lemma_word_at_with_word(bytes, 13, 13, x);
            assert(x == (t & 0x7FFFu16) | (if d == 1 {
                0x8000u16
            } else {
                0u16
            })) by (bit_vector)
                requires
                    x == with_field(t, 15, 1, d),
                    d <= 1,
            ;
        },
    }
}

/// Where the identification fields sit in the buffer: CHIPID is bytes 14 and
/// 15 (REV the top six bits, DEV the next four, FIRMWARE the low six) and
/// DEVICEID bytes 12 and 13 (PN the top four bits, MFGID the low twelve).
pub proof fn lemma_identification_bits(registers: Registers)
    ensures
        ({
            let b = registers.bytes();
            let chip = registers.word(pos(ReadRegIdx::ChipId));
            let device = registers.word(pos(ReadRegIdx::DeviceId));
            &&& field(chip, 10, 6) == (b[14] >> 2u8) as u16
            &&& field(chip, 6, 4) == (((b[14] & 3u8) << 2u8) | (b[15] >> 6u8)) as u16
            &&& field(chip, 0, 6) == (b[15] & 0x3Fu8) as u16
            &&& field(device, 12, 4) == (b[12] >> 4u8) as u16
            &&& field(device, 0, 12) == (((b[12] & 0x0Fu8) as u16) << 8u16) | (b[13] as u16)
        }),
{
    registers.lemma_len();
    let b = registers.bytes();
    let (h, l) = (b[14], b[15]);
    assert(field(word_of(h, l), 10, 6) == (h >> 2u8) as u16 && field(word_of(h, l), 6, 4) == (((h
        & 3u8) << 2u8) | (l >> 6u8)) as u16 && field(word_of(h, l), 0, 6) == (l & 0x3Fu8) as u16)
        by (bit_vector);
    let (h, l) = (b[12], b[13]);
    assert(field(word_of(h, l), 12, 4) == (h >> 4u8) as u16 && field(word_of(h, l), 0, 12) == (((h
        & 0x0Fu8) as u16) << 8u16) | (l as u16)) by (bit_vector);
}

/// Chip revision, device and firmware version held by CHIPID.
pub fn chip_info(registers: &Registers) -> (r: ChipInfo)
    requires
        registers.holds(ReadRegIdx::ChipId),
    ensures
        r.revision == field(registers.word(pos(ReadRegIdx::ChipId)), 10, 6),
        r.device == field(registers.word(pos(ReadRegIdx::ChipId)), 6, 4),
        r.firmware == field(registers.word(pos(ReadRegIdx::ChipId)), 0, 6),
{
    let chip_id = registers.chip_id();
    ChipInfo { revision: chip_id.rev(), device: chip_id.dev(), firmware: chip_id.firmware() }
}

/// Part number and manufacturer held by DEVICEID.
pub fn device_info(registers: &Registers) -> (r: DeviceInfo)
    ensures
        r.pn == field(registers.word(pos(ReadRegIdx::DeviceId)), 12, 4),
        r.mfgid == field(registers.word(pos(ReadRegIdx::DeviceId)), 0, 12),
{
    let device_id = registers.device_id();
    DeviceInfo { pn: device_id.pn(), mfgid: device_id.mfgid() }
}

} // verus!
