//! The Si470x register file and the layout of each register.
//!
//! Reads from the device start at register 0Ah (STATUSRSSI), run through 0Fh
//! (RDSD) and then wrap around to 00h through 09h. A [`Registers`] buffer holds
//! the registers in that read order, two bytes per register, the most
//! significant byte first.

use vstd::prelude::*;

use crate::bitfield::{
    field, flag_bit, get_field, high_byte, lemma_low_mask_values, lemma_word_bytes,
    lemma_word_of_value, low_byte, put_field, with_field, word_from_bytes, word_of, word_to_bytes,
};

verus! {

/// Position of a register in the order in which the device reads them out.
#[derive(Copy, Clone, Debug, PartialEq, Eq, Structural)]
pub enum ReadRegIdx {
    /// Register 0Ah.
    StatusRssi,
    /// Register 0Bh.
    ReadChan,
    /// Register 0Ch.
    RdsA,
    /// Register 0Dh.
    RdsB,
    /// Register 0Eh.
    RdsC,
    /// Register 0Fh.
    RdsD,
    /// Register 00h.
    DeviceId,
    /// Register 01h.
    ChipId,
    /// Register 02h.
    PowerCfg,
    /// Register 03h.
    Channel,
    /// Register 04h.
    SysConfig1,
    /// Register 05h.
    SysConfig2,
    /// Register 06h.
    SysConfig3,
    /// Register 07h.
    Test1,
    /// Register 08h.
    Test2,
    /// Register 09h.
    BootConfig,
}

impl ReadRegIdx {
    /// The position of the register in read order, from 0 to 15.
    pub open spec fn index_spec(self) -> u8 {
        match self {
            ReadRegIdx::StatusRssi => 0,
            ReadRegIdx::ReadChan => 1,
            ReadRegIdx::RdsA => 2,
            ReadRegIdx::RdsB => 3,
            ReadRegIdx::RdsC => 4,
            ReadRegIdx::RdsD => 5,
            ReadRegIdx::DeviceId => 6,
            ReadRegIdx::ChipId => 7,
            ReadRegIdx::PowerCfg => 8,
            ReadRegIdx::Channel => 9,
            ReadRegIdx::SysConfig1 => 10,
            ReadRegIdx::SysConfig2 => 11,
            ReadRegIdx::SysConfig3 => 12,
            ReadRegIdx::Test1 => 13,
            ReadRegIdx::Test2 => 14,
            ReadRegIdx::BootConfig => 15,
        }
    }

    /// The position of the register in read order, from 0 to 15.
    #[verifier::when_used_as_spec(index_spec)]
    pub fn index(self) -> (r: u8)
        ensures
            r == self.index_spec(),
            r < 16,
    {
        match self {
            ReadRegIdx::StatusRssi => 0,
            ReadRegIdx::ReadChan => 1,
            ReadRegIdx::RdsA => 2,
            ReadRegIdx::RdsB => 3,
            ReadRegIdx::RdsC => 4,
            ReadRegIdx::RdsD => 5,
            ReadRegIdx::DeviceId => 6,
            ReadRegIdx::ChipId => 7,
            ReadRegIdx::PowerCfg => 8,
            ReadRegIdx::Channel => 9,
            ReadRegIdx::SysConfig1 => 10,
            ReadRegIdx::SysConfig2 => 11,
            ReadRegIdx::SysConfig3 => 12,
            ReadRegIdx::Test1 => 13,
            ReadRegIdx::Test2 => 14,
            ReadRegIdx::BootConfig => 15,
        }
    }
}

/// The order in which the device reads its registers out: 0Ah..0Fh first,
/// then 00h..09h, so register `r` sits at position `(r + 6) % 16`.
pub proof fn lemma_read_order()
    ensures
        ReadRegIdx::StatusRssi.index() == (0x0A + 6) % 16,
        ReadRegIdx::ReadChan.index() == (0x0B + 6) % 16,
        ReadRegIdx::RdsA.index() == (0x0C + 6) % 16,
        ReadRegIdx::RdsB.index() == (0x0D + 6) % 16,
        ReadRegIdx::RdsC.index() == (0x0E + 6) % 16,
        ReadRegIdx::RdsD.index() == (0x0F + 6) % 16,
        ReadRegIdx::DeviceId.index() == (0x00 + 6) % 16,
        ReadRegIdx::ChipId.index() == (0x01 + 6) % 16,
        ReadRegIdx::PowerCfg.index() == (0x02 + 6) % 16,
        ReadRegIdx::Channel.index() == (0x03 + 6) % 16,
        ReadRegIdx::SysConfig1.index() == (0x04 + 6) % 16,
        ReadRegIdx::SysConfig2.index() == (0x05 + 6) % 16,
        ReadRegIdx::SysConfig3.index() == (0x06 + 6) % 16,
        ReadRegIdx::Test1.index() == (0x07 + 6) % 16,
        ReadRegIdx::Test2.index() == (0x08 + 6) % 16,
        ReadRegIdx::BootConfig.index() == (0x09 + 6) % 16,
{
}

impl From<ReadRegIdx> for u8 {
    /// The position of the register in read order.
    fn from(reg: ReadRegIdx) -> (r: u8) {
        reg.index()
    }
}

impl vstd::std_specs::convert::FromSpecImpl<ReadRegIdx> for u8 {
    open spec fn obeys_from_spec() -> bool {
        true
    }

    open spec fn from_spec(reg: ReadRegIdx) -> u8 {
        reg.index()
    }
}


/// Seek behaviour at the band limits (POWERCFG SKMODE).
#[derive(Copy, Clone, Debug, PartialEq, Eq, Structural)]
pub enum SeekMode {
    /// Wrap at the upper or lower band limit (default).
    Wrap,
    /// Stop at the band limit.
    Stop,
}

impl SeekMode {
    /// The bit pattern that encodes this value in its 1-bit field.
    pub open spec fn value(self) -> u16 {
        match self {
            SeekMode::Wrap => 0,
            SeekMode::Stop => 1,
        }
    }

    /// The value that a bit pattern encodes, if any.
    pub open spec fn decode(bits: u16) -> Option<Self> {
        if bits == 0 {
            Some(SeekMode::Wrap)
        } else if bits == 1 {
            Some(SeekMode::Stop)
        } else {
            None
        }
    }

    /// The bit pattern of this value.
    pub fn into_bits(self) -> (r: u16)
        ensures
            r == self.value(),
    {
        match self {
            SeekMode::Wrap => 0,
            SeekMode::Stop => 1,
        }
    }

    /// The value encoded by `bits`, or `None` for a pattern that encodes none.
    pub fn from_bits(bits: u16) -> (r: Option<Self>)
        ensures
            r == Self::decode(bits),
    {
        if bits == 0 {
            Some(SeekMode::Wrap)
        } else if bits == 1 {
            Some(SeekMode::Stop)
        } else {
            None
        }
    }

    /// The value encoded by a pattern known to encode one.
    fn from_valid_bits(bits: u16) -> (r: Self)
        requires
            Self::decode(bits) is Some,
        ensures
            Self::decode(bits) == Some(r),
            r.value() == bits,
    {
        if bits == 0 {
            SeekMode::Wrap
        } else {
            SeekMode::Stop
        }
    }
}

/// Seek direction (POWERCFG SEEKUP).
#[derive(Copy, Clone, Debug, PartialEq, Eq, Structural)]
pub enum SeekDirection {
    /// Seek down (default).
    Down,
    /// Seek up.
    Up,
}

impl SeekDirection {
    /// The bit pattern that encodes this value in its 1-bit field.
    pub open spec fn value(self) -> u16 {
        match self {
            SeekDirection::Down => 0,
            SeekDirection::Up => 1,
        }
    }

    /// The value that a bit pattern encodes, if any.
    pub open spec fn decode(bits: u16) -> Option<Self> {
        if bits == 0 {
            Some(SeekDirection::Down)
        } else if bits == 1 {
            Some(SeekDirection::Up)
        } else {
            None
        }
    }

    /// The bit pattern of this value.
    pub fn into_bits(self) -> (r: u16)
        ensures
            r == self.value(),
    {
        match self {
            SeekDirection::Down => 0,
            SeekDirection::Up => 1,
        }
    }

    /// The value encoded by `bits`, or `None` for a pattern that encodes none.
    pub fn from_bits(bits: u16) -> (r: Option<Self>)
        ensures
            r == Self::decode(bits),
    {
        if bits == 0 {
            Some(SeekDirection::Down)
        } else if bits == 1 {
            Some(SeekDirection::Up)
        } else {
            None
        }
    }

    /// The value encoded by a pattern known to encode one.
    fn from_valid_bits(bits: u16) -> (r: Self)
        requires
            Self::decode(bits) is Some,
        ensures
            Self::decode(bits) == Some(r),
            r.value() == bits,
    {
        if bits == 0 {
            SeekDirection::Down
        } else {
            SeekDirection::Up
        }
    }
}

/// Seek control (POWERCFG SEEK).
#[derive(Copy, Clone, Debug, PartialEq, Eq, Structural)]
pub enum SeekState {
    /// Seek disabled (default).
    Disable,
    /// Seek enabled.
    Enable,
}

impl SeekState {
    /// The bit pattern that encodes this value in its 1-bit field.
    pub open spec fn value(self) -> u16 {
        match self {
            SeekState::Disable => 0,
            SeekState::Enable => 1,
        }
    }

    /// The value that a bit pattern encodes, if any.
    pub open spec fn decode(bits: u16) -> Option<Self> {
        if bits == 0 {
            Some(SeekState::Disable)
        } else if bits == 1 {
            Some(SeekState::Enable)
        } else {
            None
        }
    }

    /// The bit pattern of this value.
    pub fn into_bits(self) -> (r: u16)
        ensures
            r == self.value(),
    {
        match self {
            SeekState::Disable => 0,
            SeekState::Enable => 1,
        }
    }

    /// The value encoded by `bits`, or `None` for a pattern that encodes none.
    pub fn from_bits(bits: u16) -> (r: Option<Self>)
        ensures
            r == Self::decode(bits),
    {
        if bits == 0 {
            Some(SeekState::Disable)
        } else if bits == 1 {
            Some(SeekState::Enable)
        } else {
            None
        }
    }

    /// The value encoded by a pattern known to encode one.
    fn from_valid_bits(bits: u16) -> (r: Self)
        requires
            Self::decode(bits) is Some,
        ensures
            Self::decode(bits) == Some(r),
            r.value() == bits,
    {
        if bits == 0 {
            SeekState::Disable
        } else {
            SeekState::Enable
        }
    }
}

/// RDS reporting mode (POWERCFG RDSM).
#[derive(Copy, Clone, Debug, PartialEq, Eq, Structural)]
pub enum RdsMode {
    /// Standard mode (default).
    Standard,
    /// Verbose mode.
    Verbose,
}

impl RdsMode {
    /// The bit pattern that encodes this value in its 1-bit field.
    pub open spec fn value(self) -> u16 {
        match self {
            RdsMode::Standard => 0,
            RdsMode::Verbose => 1,
        }
    }

    /// The value that a bit pattern encodes, if any.
    pub open spec fn decode(bits: u16) -> Option<Self> {
        if bits == 0 {
            Some(RdsMode::Standard)
        } else if bits == 1 {
            Some(RdsMode::Verbose)
        } else {
            None
        }
    }

    /// The bit pattern of this value.
    pub fn into_bits(self) -> (r: u16)
        ensures
            r == self.value(),
    {
        match self {
            RdsMode::Standard => 0,
            RdsMode::Verbose => 1,
        }
    }

    /// The value encoded by `bits`, or `None` for a pattern that encodes none.
    pub fn from_bits(bits: u16) -> (r: Option<Self>)
        ensures
            r == Self::decode(bits),
    {
        if bits == 0 {
            Some(RdsMode::Standard)
        } else if bits == 1 {
            Some(RdsMode::Verbose)
        } else {
            None
        }
    }

    /// The value encoded by a pattern known to encode one.
    fn from_valid_bits(bits: u16) -> (r: Self)
        requires
            Self::decode(bits) is Some,
        ensures
            Self::decode(bits) == Some(r),
            r.value() == bits,
    {
        if bits == 0 {
            RdsMode::Standard
        } else {
            RdsMode::Verbose
        }
    }
}

/// Function of the GPIO3 pin (SYSCONFIG1 GPIO3).
#[derive(Copy, Clone, Debug, PartialEq, Eq, Structural)]
pub enum Gpio3Mode {
    /// High impedance (default).
    HighImpedance,
    /// Mono/stereo indicator (ST).
    MonoStereo,
    /// Driven low.
    Low,
    /// Driven high.
    High,
}

impl Gpio3Mode {
    /// The bit pattern that encodes this value in its 2-bit field.
    pub open spec fn value(self) -> u16 {
        match self {
            Gpio3Mode::HighImpedance => 0,
            Gpio3Mode::MonoStereo => 1,
            Gpio3Mode::Low => 2,
            Gpio3Mode::High => 3,
        }
    }

    /// The value that a bit pattern encodes, if any.
    pub open spec fn decode(bits: u16) -> Option<Self> {
        if bits == 0 {
            Some(Gpio3Mode::HighImpedance)
        } else if bits == 1 {
            Some(Gpio3Mode::MonoStereo)
        } else if bits == 2 {
            Some(Gpio3Mode::Low)
        } else if bits == 3 {
            Some(Gpio3Mode::High)
        } else {
            None
        }
    }

    /// The bit pattern of this value.
    pub fn into_bits(self) -> (r: u16)
        ensures
            r == self.value(),
    {
        match self {
            Gpio3Mode::HighImpedance => 0,
            Gpio3Mode::MonoStereo => 1,
            Gpio3Mode::Low => 2,
            Gpio3Mode::High => 3,
        }
    }

    /// The value encoded by `bits`, or `None` for a pattern that encodes none.
    pub fn from_bits(bits: u16) -> (r: Option<Self>)
        ensures
            r == Self::decode(bits),
    {
        if bits == 0 {
            Some(Gpio3Mode::HighImpedance)
        } else if bits == 1 {
            Some(Gpio3Mode::MonoStereo)
        } else if bits == 2 {
            Some(Gpio3Mode::Low)
        } else if bits == 3 {
            Some(Gpio3Mode::High)
        } else {
            None
        }
    }

    /// The value encoded by a pattern known to encode one.
    fn from_valid_bits(bits: u16) -> (r: Self)
        requires
            Self::decode(bits) is Some,
        ensures
            Self::decode(bits) == Some(r),
            r.value() == bits,
    {
        if bits == 0 {
            Gpio3Mode::HighImpedance
        } else if bits == 1 {
            Gpio3Mode::MonoStereo
        } else if bits == 2 {
            Gpio3Mode::Low
        } else {
            Gpio3Mode::High
        }
    }
}

/// Function of the GPIO2 pin (SYSCONFIG1 GPIO2).
///
/// With STCIEN set, GPIO2 gives a 5 ms low pulse when STC is set; with
/// RDSIEN set, it gives one when RDSR is set.
#[derive(Copy, Clone, Debug, PartialEq, Eq, Structural)]
pub enum Gpio2Mode {
    /// High impedance (default).
    HighImpedance,
    /// STC/RDS interrupt.
    StcRdsInterrupt,
    /// Driven low.
    Low,
    /// Driven high.
    High,
}

impl Gpio2Mode {
    /// The bit pattern that encodes this value in its 2-bit field.
    pub open spec fn value(self) -> u16 {
        match self {
            Gpio2Mode::HighImpedance => 0,
            Gpio2Mode::StcRdsInterrupt => 1,
            Gpio2Mode::Low => 2,
            Gpio2Mode::High => 3,
        }
    }

    /// The value that a bit pattern encodes, if any.
    pub open spec fn decode(bits: u16) -> Option<Self> {
        if bits == 0 {
            Some(Gpio2Mode::HighImpedance)
        } else if bits == 1 {
            Some(Gpio2Mode::StcRdsInterrupt)
        } else if bits == 2 {
            Some(Gpio2Mode::Low)
        } else if bits == 3 {
            Some(Gpio2Mode::High)
        } else {
            None
        }
    }

    /// The bit pattern of this value.
    pub fn into_bits(self) -> (r: u16)
        ensures
            r == self.value(),
    {
        match self {
            Gpio2Mode::HighImpedance => 0,
            Gpio2Mode::StcRdsInterrupt => 1,
            Gpio2Mode::Low => 2,
            Gpio2Mode::High => 3,
        }
    }

    /// The value encoded by `bits`, or `None` for a pattern that encodes none.
    pub fn from_bits(bits: u16) -> (r: Option<Self>)
        ensures
            r == Self::decode(bits),
    {
        if bits == 0 {
            Some(Gpio2Mode::HighImpedance)
        } else if bits == 1 {
            Some(Gpio2Mode::StcRdsInterrupt)
        } else if bits == 2 {
            Some(Gpio2Mode::Low)
        } else if bits == 3 {
            Some(Gpio2Mode::High)
        } else {
            None
        }
    }

    /// The value encoded by a pattern known to encode one.
    fn from_valid_bits(bits: u16) -> (r: Self)
        requires
            Self::decode(bits) is Some,
        ensures
            Self::decode(bits) == Some(r),
            r.value() == bits,
    {
        if bits == 0 {
            Gpio2Mode::HighImpedance
        } else if bits == 1 {
            Gpio2Mode::StcRdsInterrupt
        } else if bits == 2 {
            Gpio2Mode::Low
        } else {
            Gpio2Mode::High
        }
    }
}

/// Function of the GPIO1 pin (SYSCONFIG1 GPIO1).
#[derive(Copy, Clone, Debug, PartialEq, Eq, Structural)]
pub enum Gpio1Mode {
    /// High impedance (default).
    HighImpedance,
    /// Reserved.
    Reserved,
    /// Driven low.
    Low,
    /// Driven high.
    High,
}

impl Gpio1Mode {
    /// The bit pattern that encodes this value in its 2-bit field.
    pub open spec fn value(self) -> u16 {
        match self {
            Gpio1Mode::HighImpedance => 0,
            Gpio1Mode::Reserved => 1,
            Gpio1Mode::Low => 2,
            Gpio1Mode::High => 3,
        }
    }

    /// The value that a bit pattern encodes, if any.
    pub open spec fn decode(bits: u16) -> Option<Self> {
        if bits == 0 {
            Some(Gpio1Mode::HighImpedance)
        } else if bits == 1 {
            Some(Gpio1Mode::Reserved)
        } else if bits == 2 {
            Some(Gpio1Mode::Low)
        } else if bits == 3 {
            Some(Gpio1Mode::High)
        } else {
            None
        }
    }

    /// The bit pattern of this value.
    pub fn into_bits(self) -> (r: u16)
        ensures
            r == self.value(),
    {
        match self {
            Gpio1Mode::HighImpedance => 0,
            Gpio1Mode::Reserved => 1,
            Gpio1Mode::Low => 2,
            Gpio1Mode::High => 3,
        }
    }

    /// The value encoded by `bits`, or `None` for a pattern that encodes none.
    pub fn from_bits(bits: u16) -> (r: Option<Self>)
        ensures
            r == Self::decode(bits),
    {
        if bits == 0 {
            Some(Gpio1Mode::HighImpedance)
        } else if bits == 1 {
            Some(Gpio1Mode::Reserved)
        } else if bits == 2 {
            Some(Gpio1Mode::Low)
        } else if bits == 3 {
            Some(Gpio1Mode::High)
        } else {
            None
        }
    }

    /// The value encoded by a pattern known to encode one.
    fn from_valid_bits(bits: u16) -> (r: Self)
        requires
            Self::decode(bits) is Some,
        ensures
            Self::decode(bits) == Some(r),
            r.value() == bits,
    {
        if bits == 0 {
            Gpio1Mode::HighImpedance
        } else if bits == 1 {
            Gpio1Mode::Reserved
        } else if bits == 2 {
            Gpio1Mode::Low
        } else {
            Gpio1Mode::High
        }
    }
}

/// Channel spacing (SYSCONFIG2 SPACE). The pattern `0b11` is not a spacing.
#[derive(Copy, Clone, Debug, PartialEq, Eq, Structural)]
pub enum ChannelSpacing {
    /// 200 kHz.
    KHz200,
    /// 100 kHz.
    KHz100,
    /// 50 kHz.
    KHz50,
}

impl ChannelSpacing {
    /// The bit pattern that encodes this value in its 2-bit field.
    pub open spec fn value(self) -> u16 {
        match self {
            ChannelSpacing::KHz200 => 0,
            ChannelSpacing::KHz100 => 1,
            ChannelSpacing::KHz50 => 2,
        }
    }

    /// The value that a bit pattern encodes, if any.
    pub open spec fn decode(bits: u16) -> Option<Self> {
        if bits == 0 {
            Some(ChannelSpacing::KHz200)
        } else if bits == 1 {
            Some(ChannelSpacing::KHz100)
        } else if bits == 2 {
            Some(ChannelSpacing::KHz50)
        } else {
            None
        }
    }

    /// The bit pattern of this value.
    pub fn into_bits(self) -> (r: u16)
        ensures
            r == self.value(),
    {
        match self {
            ChannelSpacing::KHz200 => 0,
            ChannelSpacing::KHz100 => 1,
            ChannelSpacing::KHz50 => 2,
        }
    }

    /// The value encoded by `bits`, or `None` for a pattern that encodes none.
    pub fn from_bits(bits: u16) -> (r: Option<Self>)
        ensures
            r == Self::decode(bits),
    {
        if bits == 0 {
            Some(ChannelSpacing::KHz200)
        } else if bits == 1 {
            Some(ChannelSpacing::KHz100)
        } else if bits == 2 {
            Some(ChannelSpacing::KHz50)
        } else {
            None
        }
    }

    /// The value encoded by a pattern known to encode one.
    fn from_valid_bits(bits: u16) -> (r: Self)
        requires
            Self::decode(bits) is Some,
        ensures
            Self::decode(bits) == Some(r),
            r.value() == bits,
    {
        if bits == 0 {
            ChannelSpacing::KHz200
        } else if bits == 1 {
            ChannelSpacing::KHz100
        } else {
            ChannelSpacing::KHz50
        }
    }
}

/// The datasheet's bit pattern of every enumerated field value: each variant
/// is encoded by its own pattern, and only the listed patterns decode.
pub proof fn lemma_field_value_patterns()
    ensures
        SeekMode::Wrap.value() == 0,
        SeekMode::decode(0) == Some(SeekMode::Wrap),
        SeekMode::Stop.value() == 1,
        SeekMode::decode(1) == Some(SeekMode::Stop),
        forall|bits: u16| bits >= 2 ==> SeekMode::decode(bits) is None,
        SeekDirection::Down.value() == 0,
        SeekDirection::decode(0) == Some(SeekDirection::Down),
        SeekDirection::Up.value() == 1,
        SeekDirection::decode(1) == Some(SeekDirection::Up),
        forall|bits: u16| bits >= 2 ==> SeekDirection::decode(bits) is None,
        SeekState::Disable.value() == 0,
        SeekState::decode(0) == Some(SeekState::Disable),
        SeekState::Enable.value() == 1,
        SeekState::decode(1) == Some(SeekState::Enable),
        forall|bits: u16| bits >= 2 ==> SeekState::decode(bits) is None,
        RdsMode::Standard.value() == 0,
        RdsMode::decode(0) == Some(RdsMode::Standard),
        RdsMode::Verbose.value() == 1,
        RdsMode::decode(1) == Some(RdsMode::Verbose),
        forall|bits: u16| bits >= 2 ==> RdsMode::decode(bits) is None,
        Gpio3Mode::HighImpedance.value() == 0,
        Gpio3Mode::decode(0) == Some(Gpio3Mode::HighImpedance),
        Gpio3Mode::MonoStereo.value() == 1,
        Gpio3Mode::decode(1) == Some(Gpio3Mode::MonoStereo),
        Gpio3Mode::Low.value() == 2,
        Gpio3Mode::decode(2) == Some(Gpio3Mode::Low),
        Gpio3Mode::High.value() == 3,
        Gpio3Mode::decode(3) == Some(Gpio3Mode::High),
        forall|bits: u16| bits >= 4 ==> Gpio3Mode::decode(bits) is None,
        Gpio2Mode::HighImpedance.value() == 0,
        Gpio2Mode::decode(0) == Some(Gpio2Mode::HighImpedance),
        Gpio2Mode::StcRdsInterrupt.value() == 1,
        Gpio2Mode::decode(1) == Some(Gpio2Mode::StcRdsInterrupt),
        Gpio2Mode::Low.value() == 2,
        Gpio2Mode::decode(2) == Some(Gpio2Mode::Low),
        Gpio2Mode::High.value() == 3,
        Gpio2Mode::decode(3) == Some(Gpio2Mode::High),
        forall|bits: u16| bits >= 4 ==> Gpio2Mode::decode(bits) is None,
        Gpio1Mode::HighImpedance.value() == 0,
        Gpio1Mode::decode(0) == Some(Gpio1Mode::HighImpedance),
        Gpio1Mode::Reserved.value() == 1,
        Gpio1Mode::decode(1) == Some(Gpio1Mode::Reserved),
        Gpio1Mode::Low.value() == 2,
        Gpio1Mode::decode(2) == Some(Gpio1Mode::Low),
        Gpio1Mode::High.value() == 3,
        Gpio1Mode::decode(3) == Some(Gpio1Mode::High),
        forall|bits: u16| bits >= 4 ==> Gpio1Mode::decode(bits) is None,
        ChannelSpacing::KHz200.value() == 0,
        ChannelSpacing::decode(0) == Some(ChannelSpacing::KHz200),
        ChannelSpacing::KHz100.value() == 1,
        ChannelSpacing::decode(1) == Some(ChannelSpacing::KHz100),
        ChannelSpacing::KHz50.value() == 2,
        ChannelSpacing::decode(2) == Some(ChannelSpacing::KHz50),
        forall|bits: u16| bits >= 3 ==> ChannelSpacing::decode(bits) is None,
{
}

/// Register 00h, DEVICEID: part and manufacturer identification.
///
/// The view of a value is its 16-bit register word; fields are laid out
/// most significant bit first.
pub struct DeviceId {
    bits: u16,
}

impl View for DeviceId {
    type V = u16;

    closed spec fn view(&self) -> u16 {
        self.bits
    }
}

impl DeviceId {
    /// A value with every bit clear.
    pub fn new() -> (r: Self)
        ensures
            r@ == 0,
    {
        DeviceId { bits: 0 }
    }

    /// The value held by two bytes, the most significant first.
    pub fn from_bytes(bytes: [u8; 2]) -> (r: Self)
        ensures
            r@ == word_of(bytes[0], bytes[1]),
    {
        DeviceId { bits: word_from_bytes(bytes) }
    }

    /// The two bytes of this value, the most significant first.
    pub fn into_bytes(self) -> (r: [u8; 2])
        ensures
            r[0] == high_byte(self@),
            r[1] == low_byte(self@),
    {
        word_to_bytes(self.bits)
    }

    /// Part number. Held in bits 12..=15.
    pub fn pn(&self) -> (r: u8)
        ensures
            r == field(self@, 12, 4),
    {
        proof {
            lemma_low_mask_values();
        }
        get_field(self.bits, 12, 4) as u8
    }

    /// Sets part number. The value must fit in 4 bits.
    pub fn set_pn(&mut self, value: u8)
        requires
            value <= 15,
        ensures
            final(self)@ == with_field(old(self)@, 12, 4, value as u16),
    {
        proof {
            lemma_low_mask_values();
        }
        self.bits = put_field(self.bits, 12, 4, value as u16);
    }

    /// Manufacturer identifier. Held in bits 0..=11.
    pub fn mfgid(&self) -> (r: u16)
        ensures
            r == field(self@, 0, 12),
    {
        proof {
            lemma_low_mask_values();
        }
        get_field(self.bits, 0, 12)
    }

    /// Sets manufacturer identifier. The value must fit in 12 bits.
    pub fn set_mfgid(&mut self, value: u16)
        requires
            value <= 4095,
        ensures
            final(self)@ == with_field(old(self)@, 0, 12, value),
    {
        proof {
            lemma_low_mask_values();
        }
        self.bits = put_field(self.bits, 0, 12, value);
    }

}

/// Register 01h, CHIPID: chip revision, device and firmware version.
///
/// The view of a value is its 16-bit register word; fields are laid out
/// most significant bit first.
pub struct ChipId {
    bits: u16,
}

impl View for ChipId {
    type V = u16;

    closed spec fn view(&self) -> u16 {
        self.bits
    }
}

impl ChipId {
    /// A value with every bit clear.
    pub fn new() -> (r: Self)
        ensures
            r@ == 0,
    {
        ChipId { bits: 0 }
    }

    /// The value held by two bytes, the most significant first.
    pub fn from_bytes(bytes: [u8; 2]) -> (r: Self)
        ensures
            r@ == word_of(bytes[0], bytes[1]),
    {
        ChipId { bits: word_from_bytes(bytes) }
    }

    /// The two bytes of this value, the most significant first.
    pub fn into_bytes(self) -> (r: [u8; 2])
        ensures
            r[0] == high_byte(self@),
            r[1] == low_byte(self@),
    {
        word_to_bytes(self.bits)
    }

    /// Chip revision. Held in bits 10..=15.
    pub fn rev(&self) -> (r: u8)
        ensures
            r == field(self@, 10, 6),
    {
        proof {
            lemma_low_mask_values();
        }
        get_field(self.bits, 10, 6) as u8
    }

    /// Sets chip revision. The value must fit in 6 bits.
    pub fn set_rev(&mut self, value: u8)
        requires
            value <= 63,
        ensures
            final(self)@ == with_field(old(self)@, 10, 6, value as u16),
    {
        proof {
            lemma_low_mask_values();
        }
        self.bits = put_field(self.bits, 10, 6, value as u16);
    }

    /// Device. Held in bits 6..=9.
    pub fn dev(&self) -> (r: u8)
        ensures
            r == field(self@, 6, 4),
    {
        proof {
            lemma_low_mask_values();
        }
        get_field(self.bits, 6, 4) as u8
    }

    /// Sets device. The value must fit in 4 bits.
    pub fn set_dev(&mut self, value: u8)
        requires
            value <= 15,
        ensures
            final(self)@ == with_field(old(self)@, 6, 4, value as u16),
    {
        proof {
            lemma_low_mask_values();
        }
        self.bits = put_field(self.bits, 6, 4, value as u16);
    }

    /// Firmware version. Held in bits 0..=5.
    pub fn firmware(&self) -> (r: u8)
        ensures
            r == field(self@, 0, 6),
    {
        proof {
            lemma_low_mask_values();
        }
        get_field(self.bits, 0, 6) as u8
    }

    /// Sets firmware version. The value must fit in 6 bits.
    pub fn set_firmware(&mut self, value: u8)
        requires
            value <= 63,
        ensures
            final(self)@ == with_field(old(self)@, 0, 6, value as u16),
    {
        proof {
            lemma_low_mask_values();
        }
        self.bits = put_field(self.bits, 0, 6, value as u16);
    }

}

/// Register 02h, POWERCFG: power configuration.
///
/// The view of a value is its 16-bit register word; fields are laid out
/// most significant bit first.
pub struct PowerCfg {
    bits: u16,
}

impl View for PowerCfg {
    type V = u16;

    closed spec fn view(&self) -> u16 {
        self.bits
    }
}

impl PowerCfg {
    /// A value with every bit clear.
    pub fn new() -> (r: Self)
        ensures
            r@ == 0,
    {
        PowerCfg { bits: 0 }
    }

    /// The value held by two bytes, the most significant first.
    pub fn from_bytes(bytes: [u8; 2]) -> (r: Self)
        ensures
            r@ == word_of(bytes[0], bytes[1]),
    {
        PowerCfg { bits: word_from_bytes(bytes) }
    }

    /// The two bytes of this value, the most significant first.
    pub fn into_bytes(self) -> (r: [u8; 2])
        ensures
            r[0] == high_byte(self@),
            r[1] == low_byte(self@),
    {
        word_to_bytes(self.bits)
    }

    /// Softmute disable (DSMUTE). Held in bit 15.
    pub fn dsmute(&self) -> (r: bool)
        ensures
            r == (field(self@, 15, 1) == 1),
    {
        get_field(self.bits, 15, 1) == 1
    }

    /// Sets softmute disable (DSMUTE).
    pub fn set_dsmute(&mut self, value: bool)
        ensures
            final(self)@ == with_field(old(self)@, 15, 1, flag_bit(value)),
    {
        proof {
            lemma_low_mask_values();
        }
        self.bits = put_field(self.bits, 15, 1, if value { 1 } else { 0 });
    }

    /// Mute disable (DMUTE). Held in bit 14.
    pub fn dmute(&self) -> (r: bool)
        ensures
            r == (field(self@, 14, 1) == 1),
    {
        get_field(self.bits, 14, 1) == 1
    }

    /// Sets mute disable (DMUTE).
    pub fn set_dmute(&mut self, value: bool)
        ensures
            final(self)@ == with_field(old(self)@, 14, 1, flag_bit(value)),
    {
        proof {
            lemma_low_mask_values();
        }
        self.bits = put_field(self.bits, 14, 1, if value { 1 } else { 0 });
    }

    /// Force mono (MONO). Held in bit 13.
    pub fn mono(&self) -> (r: bool)
        ensures
            r == (field(self@, 13, 1) == 1),
    {
        get_field(self.bits, 13, 1) == 1
    }

    /// Sets force mono (MONO).
    pub fn set_mono(&mut self, value: bool)
        ensures
            final(self)@ == with_field(old(self)@, 13, 1, flag_bit(value)),
    {
        proof {
            lemma_low_mask_values();
        }
        self.bits = put_field(self.bits, 13, 1, if value { 1 } else { 0 });
    }

    /// RDS mode (RDSM). Held in bit 11.
    pub fn rdsm(&self) -> (r: RdsMode)
        ensures
            r.value() == field(self@, 11, 1),
    {
        proof {
            lemma_low_mask_values();
        }
        RdsMode::from_valid_bits(get_field(self.bits, 11, 1))
    }

    /// Sets rDS mode (RDSM).
    pub fn set_rdsm(&mut self, value: RdsMode)
        ensures
            final(self)@ == with_field(old(self)@, 11, 1, value.value()),
    {
        proof {
            lemma_low_mask_values();
        }
        self.bits = put_field(self.bits, 11, 1, value.into_bits());
    }

    /// Seek mode (SKMODE). Held in bit 10.
    pub fn skmode(&self) -> (r: SeekMode)
        ensures
            r.value() == field(self@, 10, 1),
    {
        proof {
            lemma_low_mask_values();
        }
        SeekMode::from_valid_bits(get_field(self.bits, 10, 1))
    }

    /// Sets seek mode (SKMODE).
    pub fn set_skmode(&mut self, value: SeekMode)
        ensures
            final(self)@ == with_field(old(self)@, 10, 1, value.value()),
    {
        proof {
            lemma_low_mask_values();
        }
        self.bits = put_field(self.bits, 10, 1, value.into_bits());
    }

    /// Seek direction (SEEKUP). Held in bit 9.
    pub fn seekup(&self) -> (r: SeekDirection)
        ensures
            r.value() == field(self@, 9, 1),
    {
        proof {
            lemma_low_mask_values();
        }
        SeekDirection::from_valid_bits(get_field(self.bits, 9, 1))
    }

    /// Sets seek direction (SEEKUP).
    pub fn set_seekup(&mut self, value: SeekDirection)
        ensures
            final(self)@ == with_field(old(self)@, 9, 1, value.value()),
    {
        proof {
            lemma_low_mask_values();
        }
        self.bits = put_field(self.bits, 9, 1, value.into_bits());
    }

    /// Seek (SEEK). Held in bit 8.
    pub fn seek(&self) -> (r: SeekState)
        ensures
            r.value() == field(self@, 8, 1),
    {
        proof {
            lemma_low_mask_values();
        }
        SeekState::from_valid_bits(get_field(self.bits, 8, 1))
    }

    /// Sets seek (SEEK).
    pub fn set_seek(&mut self, value: SeekState)
        ensures
            final(self)@ == with_field(old(self)@, 8, 1, value.value()),
    {
        proof {
            lemma_low_mask_values();
        }
        self.bits = put_field(self.bits, 8, 1, value.into_bits());
    }

    /// Powerup disable (DISABLE). Held in bit 6.
    pub fn disable(&self) -> (r: bool)
        ensures
            r == (field(self@, 6, 1) == 1),
    {
        get_field(self.bits, 6, 1) == 1
    }

    /// Sets powerup disable (DISABLE).
    pub fn set_disable(&mut self, value: bool)
        ensures
            final(self)@ == with_field(old(self)@, 6, 1, flag_bit(value)),
    {
        proof {
            lemma_low_mask_values();
        }
        self.bits = put_field(self.bits, 6, 1, if value { 1 } else { 0 });
    }

    /// Powerup enable (ENABLE). Held in bit 0.
    pub fn enable(&self) -> (r: bool)
        ensures
            r == (field(self@, 0, 1) == 1),
    {
        get_field(self.bits, 0, 1) == 1
    }

    /// Sets powerup enable (ENABLE).
    pub fn set_enable(&mut self, value: bool)
        ensures
            final(self)@ == with_field(old(self)@, 0, 1, flag_bit(value)),
    {
        proof {
            lemma_low_mask_values();
        }
        self.bits = put_field(self.bits, 0, 1, if value { 1 } else { 0 });
    }

}

/// Register 03h, CHANNEL: tuning.
///
/// The view of a value is its 16-bit register word; fields are laid out
/// most significant bit first.
#[derive(Clone, Copy, PartialEq, Eq, Structural)]
pub struct Channel {
    bits: u16,
}

impl View for Channel {
    type V = u16;

    closed spec fn view(&self) -> u16 {
        self.bits
    }
}

impl Channel {
    /// A value with every bit clear.
    pub fn new() -> (r: Self)
        ensures
            r@ == 0,
    {
        Channel { bits: 0 }
    }

    /// The value held by two bytes, the most significant first.
    pub fn from_bytes(bytes: [u8; 2]) -> (r: Self)
        ensures
            r@ == word_of(bytes[0], bytes[1]),
    {
        Channel { bits: word_from_bytes(bytes) }
    }

    /// The two bytes of this value, the most significant first.
    pub fn into_bytes(self) -> (r: [u8; 2])
        ensures
            r[0] == high_byte(self@),
            r[1] == low_byte(self@),
    {
        word_to_bytes(self.bits)
    }

    /// Tune (TUNE). Held in bit 15.
    pub fn tune(&self) -> (r: bool)
        ensures
            r == (field(self@, 15, 1) == 1),
    {
        get_field(self.bits, 15, 1) == 1
    }

    /// Sets tune (TUNE).
    pub fn set_tune(&mut self, value: bool)
        ensures
            final(self)@ == with_field(old(self)@, 15, 1, flag_bit(value)),
    {
        proof {
            lemma_low_mask_values();
        }
        self.bits = put_field(self.bits, 15, 1, if value { 1 } else { 0 });
    }

    /// Channel select (CHAN). Held in bits 0..=9.
    pub fn chan(&self) -> (r: u16)
        ensures
            r == field(self@, 0, 10),
    {
        proof {
            lemma_low_mask_values();
        }
        get_field(self.bits, 0, 10)
    }

    /// Sets channel select (CHAN). The value must fit in 10 bits.
    pub fn set_chan(&mut self, value: u16)
        requires
            value <= 1023,
        ensures
            final(self)@ == with_field(old(self)@, 0, 10, value),
    {
        proof {
            lemma_low_mask_values();
        }
        self.bits = put_field(self.bits, 0, 10, value);
    }

}

/// Register 04h, SYSCONFIG1: system configuration 1.
///
/// The view of a value is its 16-bit register word; fields are laid out
/// most significant bit first.
#[derive(Clone, Copy, PartialEq, Eq, Structural)]
pub struct SysConfig1 {
    bits: u16,
}

impl View for SysConfig1 {
    type V = u16;

    closed spec fn view(&self) -> u16 {
        self.bits
    }
}

impl SysConfig1 {
    /// A value with every bit clear.
    pub fn new() -> (r: Self)
        ensures
            r@ == 0,
    {
        SysConfig1 { bits: 0 }
    }

    /// The value held by two bytes, the most significant first.
    pub fn from_bytes(bytes: [u8; 2]) -> (r: Self)
        ensures
            r@ == word_of(bytes[0], bytes[1]),
    {
        SysConfig1 { bits: word_from_bytes(bytes) }
    }

    /// The two bytes of this value, the most significant first.
    pub fn into_bytes(self) -> (r: [u8; 2])
        ensures
            r[0] == high_byte(self@),
            r[1] == low_byte(self@),
    {
        word_to_bytes(self.bits)
    }

    /// RDS interrupt enable (RDSIEN). Held in bit 15.
    pub fn rdsien(&self) -> (r: bool)
        ensures
            r == (field(self@, 15, 1) == 1),
    {
        get_field(self.bits, 15, 1) == 1
    }

    /// Sets rDS interrupt enable (RDSIEN).
    pub fn set_rdsien(&mut self, value: bool)
        ensures
            final(self)@ == with_field(old(self)@, 15, 1, flag_bit(value)),
    {
        proof {
            lemma_low_mask_values();
        }
        self.bits = put_field(self.bits, 15, 1, if value { 1 } else { 0 });
    }

    /// Seek/tune complete interrupt enable (STCIEN). Held in bit 14.
    pub fn stcien(&self) -> (r: bool)
        ensures
            r == (field(self@, 14, 1) == 1),
    {
        get_field(self.bits, 14, 1) == 1
    }

    /// Sets seek/tune complete interrupt enable (STCIEN).
    pub fn set_stcien(&mut self, value: bool)
        ensures
            final(self)@ == with_field(old(self)@, 14, 1, flag_bit(value)),
    {
        proof {
            lemma_low_mask_values();
        }
        self.bits = put_field(self.bits, 14, 1, if value { 1 } else { 0 });
    }

    /// RDS enable (RDS). Held in bit 12.
    pub fn rds(&self) -> (r: bool)
        ensures
            r == (field(self@, 12, 1) == 1),
    {
        get_field(self.bits, 12, 1) == 1
    }

    /// Sets rDS enable (RDS).
    pub fn set_rds(&mut self, value: bool)
        ensures
            final(self)@ == with_field(old(self)@, 12, 1, flag_bit(value)),
    {
        proof {
            lemma_low_mask_values();
        }
        self.bits = put_field(self.bits, 12, 1, if value { 1 } else { 0 });
    }

    /// De-emphasis (DE). Held in bit 11.
    pub fn de(&self) -> (r: bool)
        ensures
            r == (field(self@, 11, 1) == 1),
    {
        get_field(self.bits, 11, 1) == 1
    }

    /// Sets de-emphasis (DE).
    pub fn set_de(&mut self, value: bool)
        ensures
            final(self)@ == with_field(old(self)@, 11, 1, flag_bit(value)),
    {
        proof {
            lemma_low_mask_values();
        }
        self.bits = put_field(self.bits, 11, 1, if value { 1 } else { 0 });
    }

    /// AGC disable (AGCD). Held in bit 10.
    pub fn agcd(&self) -> (r: bool)
        ensures
            r == (field(self@, 10, 1) == 1),
    {
        get_field(self.bits, 10, 1) == 1
    }

    /// Sets aGC disable (AGCD).
    pub fn set_agcd(&mut self, value: bool)
        ensures
            final(self)@ == with_field(old(self)@, 10, 1, flag_bit(value)),
    {
        proof {
            lemma_low_mask_values();
        }
        self.bits = put_field(self.bits, 10, 1, if value { 1 } else { 0 });
    }

    /// Stereo/mono blend level adjustment (BLNDADJ). Held in bits 6..=7.
    pub fn blndadj(&self) -> (r: u8)
        ensures
            r == field(self@, 6, 2),
    {
        proof {
            lemma_low_mask_values();
        }
        get_field(self.bits, 6, 2) as u8
    }

    /// Sets stereo/mono blend level adjustment (BLNDADJ). The value must fit in 2 bits.
    pub fn set_blndadj(&mut self, value: u8)
        requires
            value <= 3,
        ensures
            final(self)@ == with_field(old(self)@, 6, 2, value as u16),
    {
        proof {
            lemma_low_mask_values();
        }
        self.bits = put_field(self.bits, 6, 2, value as u16);
    }

    /// GPIO3 function. Held in bits 4..=5.
    pub fn gpio3(&self) -> (r: Gpio3Mode)
        ensures
            r.value() == field(self@, 4, 2),
    {
        proof {
            lemma_low_mask_values();
        }
        Gpio3Mode::from_valid_bits(get_field(self.bits, 4, 2))
    }

    /// Sets gPIO3 function.
    pub fn set_gpio3(&mut self, value: Gpio3Mode)
        ensures
            final(self)@ == with_field(old(self)@, 4, 2, value.value()),
    {
        proof {
            lemma_low_mask_values();
        }
        self.bits = put_field(self.bits, 4, 2, value.into_bits());
    }

    /// GPIO2 function. Held in bits 2..=3.
    pub fn gpio2(&self) -> (r: Gpio2Mode)
        ensures
            r.value() == field(self@, 2, 2),
    {
        proof {
            lemma_low_mask_values();
        }
        Gpio2Mode::from_valid_bits(get_field(self.bits, 2, 2))
    }

    /// Sets gPIO2 function.
    pub fn set_gpio2(&mut self, value: Gpio2Mode)
        ensures
            final(self)@ == with_field(old(self)@, 2, 2, value.value()),
    {
        proof {
            lemma_low_mask_values();
        }
        self.bits = put_field(self.bits, 2, 2, value.into_bits());
    }

    /// GPIO1 function. Held in bits 0..=1.
    pub fn gpio1(&self) -> (r: Gpio1Mode)
        ensures
            r.value() == field(self@, 0, 2),
    {
        proof {
            lemma_low_mask_values();
        }
        Gpio1Mode::from_valid_bits(get_field(self.bits, 0, 2))
    }

    /// Sets gPIO1 function.
    pub fn set_gpio1(&mut self, value: Gpio1Mode)
        ensures
            final(self)@ == with_field(old(self)@, 0, 2, value.value()),
    {
        proof {
            lemma_low_mask_values();
        }
        self.bits = put_field(self.bits, 0, 2, value.into_bits());
    }

}

/// Register 05h, SYSCONFIG2: system configuration 2.
///
/// The view of a value is its 16-bit register word; fields are laid out
/// most significant bit first.
#[derive(Clone, Copy, PartialEq, Eq, Structural)]
pub struct SysConfig2 {
    bits: u16,
}

impl View for SysConfig2 {
    type V = u16;

    closed spec fn view(&self) -> u16 {
        self.bits
    }
}

impl SysConfig2 {
    /// A value with every bit clear.
    pub fn new() -> (r: Self)
        ensures
            r@ == 0,
    {
        SysConfig2 { bits: 0 }
    }

    /// The value held by two bytes, the most significant first.
    pub fn from_bytes(bytes: [u8; 2]) -> (r: Self)
        ensures
            r@ == word_of(bytes[0], bytes[1]),
    {
        SysConfig2 { bits: word_from_bytes(bytes) }
    }

    /// The two bytes of this value, the most significant first.
    pub fn into_bytes(self) -> (r: [u8; 2])
        ensures
            r[0] == high_byte(self@),
            r[1] == low_byte(self@),
    {
        word_to_bytes(self.bits)
    }

    /// RSSI seek threshold (SEEKTH). Held in bits 8..=15.
    pub fn seekth(&self) -> (r: u8)
        ensures
            r == field(self@, 8, 8),
    {
        proof {
            lemma_low_mask_values();
        }
        get_field(self.bits, 8, 8) as u8
    }

    /// Sets rSSI seek threshold (SEEKTH).
    pub fn set_seekth(&mut self, value: u8)
        ensures
            final(self)@ == with_field(old(self)@, 8, 8, value as u16),
    {
        proof {
            lemma_low_mask_values();
        }
        self.bits = put_field(self.bits, 8, 8, value as u16);
    }

    /// Band select (BAND). Held in bits 6..=7.
    pub fn band(&self) -> (r: u8)
        ensures
            r == field(self@, 6, 2),
    {
        proof {
            lemma_low_mask_values();
        }
        get_field(self.bits, 6, 2) as u8
    }

    /// Sets band select (BAND). The value must fit in 2 bits.
    pub fn set_band(&mut self, value: u8)
        requires
            value <= 3,
        ensures
            final(self)@ == with_field(old(self)@, 6, 2, value as u16),
    {
        proof {
            lemma_low_mask_values();
        }
        self.bits = put_field(self.bits, 6, 2, value as u16);
    }

    /// Channel spacing (SPACE). Held in bits 4..=5.
    pub fn space(&self) -> (r: ChannelSpacing)
        requires
            ChannelSpacing::decode(field(self@, 4, 2)) is Some,
        ensures
            r.value() == field(self@, 4, 2),
    {
        proof {
            lemma_low_mask_values();
        }
        ChannelSpacing::from_valid_bits(get_field(self.bits, 4, 2))
    }

    /// Sets channel spacing (SPACE).
    pub fn set_space(&mut self, value: ChannelSpacing)
        ensures
            final(self)@ == with_field(old(self)@, 4, 2, value.value()),
    {
        proof {
            lemma_low_mask_values();
        }
        self.bits = put_field(self.bits, 4, 2, value.into_bits());
    }

    /// Volume (VOLUME). Held in bits 0..=3.
    pub fn volume(&self) -> (r: u8)
        ensures
            r == field(self@, 0, 4),
    {
        proof {
            lemma_low_mask_values();
        }
        get_field(self.bits, 0, 4) as u8
    }

    /// Sets volume (VOLUME). The value must fit in 4 bits.
    pub fn set_volume(&mut self, value: u8)
        requires
            value <= 15,
        ensures
            final(self)@ == with_field(old(self)@, 0, 4, value as u16),
    {
        proof {
            lemma_low_mask_values();
        }
        self.bits = put_field(self.bits, 0, 4, value as u16);
    }

}

/// Register 06h, SYSCONFIG3: system configuration 3.
///
/// The view of a value is its 16-bit register word; fields are laid out
/// most significant bit first.
#[derive(Clone, Copy, PartialEq, Eq, Structural)]
pub struct SysConfig3 {
    bits: u16,
}

impl View for SysConfig3 {
    type V = u16;

    closed spec fn view(&self) -> u16 {
        self.bits
    }
}

impl SysConfig3 {
    /// A value with every bit clear.
    pub fn new() -> (r: Self)
        ensures
            r@ == 0,
    {
        SysConfig3 { bits: 0 }
    }

    /// The value held by two bytes, the most significant first.
    pub fn from_bytes(bytes: [u8; 2]) -> (r: Self)
        ensures
            r@ == word_of(bytes[0], bytes[1]),
    {
        SysConfig3 { bits: word_from_bytes(bytes) }
    }

    /// The two bytes of this value, the most significant first.
    pub fn into_bytes(self) -> (r: [u8; 2])
        ensures
            r[0] == high_byte(self@),
            r[1] == low_byte(self@),
    {
        word_to_bytes(self.bits)
    }

    /// Softmute attack/recover rate (SMUTER). Held in bits 14..=15.
    pub fn smuter(&self) -> (r: u8)
        ensures
            r == field(self@, 14, 2),
    {
        proof {
            lemma_low_mask_values();
        }
        get_field(self.bits, 14, 2) as u8
    }

    /// Sets softmute attack/recover rate (SMUTER). The value must fit in 2 bits.
    pub fn set_smuter(&mut self, value: u8)
        requires
            value <= 3,
        ensures
            final(self)@ == with_field(old(self)@, 14, 2, value as u16),
    {
        proof {
            lemma_low_mask_values();
        }
        self.bits = put_field(self.bits, 14, 2, value as u16);
    }

    /// Softmute attenuation (SMUTEA). Held in bits 12..=13.
    pub fn smutea(&self) -> (r: u8)
        ensures
            r == field(self@, 12, 2),
    {
        proof {
            lemma_low_mask_values();
        }
        get_field(self.bits, 12, 2) as u8
    }

    /// Sets softmute attenuation (SMUTEA). The value must fit in 2 bits.
    pub fn set_smutea(&mut self, value: u8)
        requires
            value <= 3,
        ensures
            final(self)@ == with_field(old(self)@, 12, 2, value as u16),
    {
        proof {
            lemma_low_mask_values();
        }
        self.bits = put_field(self.bits, 12, 2, value as u16);
    }

    /// Extended volume range (VOLEXT). Held in bit 8.
    pub fn volext(&self) -> (r: bool)
        ensures
            r == (field(self@, 8, 1) == 1),
    {
        get_field(self.bits, 8, 1) == 1
    }

    /// Sets extended volume range (VOLEXT).
    pub fn set_volext(&mut self, value: bool)
        ensures
            final(self)@ == with_field(old(self)@, 8, 1, flag_bit(value)),
    {
        proof {
            lemma_low_mask_values();
        }
        self.bits = put_field(self.bits, 8, 1, if value { 1 } else { 0 });
    }

    /// Seek SNR threshold (SKSNR). Held in bits 4..=7.
    pub fn sksnr(&self) -> (r: u8)
        ensures
            r == field(self@, 4, 4),
    {
        proof {
            lemma_low_mask_values();
        }
        get_field(self.bits, 4, 4) as u8
    }

    /// Sets seek SNR threshold (SKSNR). The value must fit in 4 bits.
    pub fn set_sksnr(&mut self, value: u8)
        requires
            value <= 15,
        ensures
            final(self)@ == with_field(old(self)@, 4, 4, value as u16),
    {
        proof {
            lemma_low_mask_values();
        }
        self.bits = put_field(self.bits, 4, 4, value as u16);
    }

    /// Seek FM impulse detection threshold (SKCNT). Held in bits 0..=3.
    pub fn skcnt(&self) -> (r: u8)
        ensures
            r == field(self@, 0, 4),
    {
        proof {
            lemma_low_mask_values();
        }
        get_field(self.bits, 0, 4) as u8
    }

    /// Sets seek FM impulse detection threshold (SKCNT). The value must fit in 4 bits.
    pub fn set_skcnt(&mut self, value: u8)
        requires
            value <= 15,
        ensures
            final(self)@ == with_field(old(self)@, 0, 4, value as u16),
    {
        proof {
            lemma_low_mask_values();
        }
        self.bits = put_field(self.bits, 0, 4, value as u16);
    }

}

/// Register 07h, TEST1: oscillator control.
///
/// The view of a value is its 16-bit register word; fields are laid out
/// most significant bit first.
#[derive(Clone, Copy, PartialEq, Eq, Structural)]
pub struct Test1 {
    bits: u16,
}

impl View for Test1 {
    type V = u16;

    closed spec fn view(&self) -> u16 {
        self.bits
    }
}

impl Test1 {
    /// A value with every bit clear.
    pub fn new() -> (r: Self)
        ensures
            r@ == 0,
    {
        Test1 { bits: 0 }
    }

    /// The value held by two bytes, the most significant first.
    pub fn from_bytes(bytes: [u8; 2]) -> (r: Self)
        ensures
            r@ == word_of(bytes[0], bytes[1]),
    {
        Test1 { bits: word_from_bytes(bytes) }
    }

    /// The two bytes of this value, the most significant first.
    pub fn into_bytes(self) -> (r: [u8; 2])
        ensures
            r[0] == high_byte(self@),
            r[1] == low_byte(self@),
    {
        word_to_bytes(self.bits)
    }

    /// Crystal oscillator enable (XOSCEN). Held in bit 15.
    pub fn xoscen(&self) -> (r: bool)
        ensures
            r == (field(self@, 15, 1) == 1),
    {
        get_field(self.bits, 15, 1) == 1
    }

    /// Sets crystal oscillator enable (XOSCEN).
    pub fn set_xoscen(&mut self, value: bool)
        ensures
            final(self)@ == with_field(old(self)@, 15, 1, flag_bit(value)),
    {
        proof {
            lemma_low_mask_values();
        }
        self.bits = put_field(self.bits, 15, 1, if value { 1 } else { 0 });
    }

    /// Audio high-Z enable (AHIZEN). Held in bit 14.
    pub fn ahizen(&self) -> (r: bool)
        ensures
            r == (field(self@, 14, 1) == 1),
    {
        get_field(self.bits, 14, 1) == 1
    }

    /// Sets audio high-Z enable (AHIZEN).
    pub fn set_ahizen(&mut self, value: bool)
        ensures
            final(self)@ == with_field(old(self)@, 14, 1, flag_bit(value)),
    {
        proof {
            lemma_low_mask_values();
        }
        self.bits = put_field(self.bits, 14, 1, if value { 1 } else { 0 });
    }

}

/// Register 08h, TEST2: no field of its own.
///
/// The view of a value is its 16-bit register word; fields are laid out
/// most significant bit first.
#[derive(Clone, Copy, PartialEq, Eq, Structural)]
pub struct Test2 {
    bits: u16,
}

impl View for Test2 {
    type V = u16;

    closed spec fn view(&self) -> u16 {
        self.bits
    }
}

impl Test2 {
    /// A value with every bit clear.
    pub fn new() -> (r: Self)
        ensures
            r@ == 0,
    {
        Test2 { bits: 0 }
    }

    /// The value held by two bytes, the most significant first.
    pub fn from_bytes(bytes: [u8; 2]) -> (r: Self)
        ensures
            r@ == word_of(bytes[0], bytes[1]),
    {
        Test2 { bits: word_from_bytes(bytes) }
    }

    /// The two bytes of this value, the most significant first.
    pub fn into_bytes(self) -> (r: [u8; 2])
        ensures
            r[0] == high_byte(self@),
            r[1] == low_byte(self@),
    {
        word_to_bytes(self.bits)
    }

}

/// Register 09h, BOOTCONFIG: no field of its own.
///
/// The view of a value is its 16-bit register word; fields are laid out
/// most significant bit first.
#[derive(Clone, Copy, PartialEq, Eq, Structural)]
pub struct BootConfig {
    bits: u16,
}

impl View for BootConfig {
    type V = u16;

    closed spec fn view(&self) -> u16 {
        self.bits
    }
}

impl BootConfig {
    /// A value with every bit clear.
    pub fn new() -> (r: Self)
        ensures
            r@ == 0,
    {
        BootConfig { bits: 0 }
    }

    /// The value held by two bytes, the most significant first.
    pub fn from_bytes(bytes: [u8; 2]) -> (r: Self)
        ensures
            r@ == word_of(bytes[0], bytes[1]),
    {
        BootConfig { bits: word_from_bytes(bytes) }
    }

    /// The two bytes of this value, the most significant first.
    pub fn into_bytes(self) -> (r: [u8; 2])
        ensures
            r[0] == high_byte(self@),
            r[1] == low_byte(self@),
    {
        word_to_bytes(self.bits)
    }

}

/// Register 0Ah, STATUSRSSI: status and received signal strength.
///
/// The view of a value is its 16-bit register word; fields are laid out
/// most significant bit first.
#[derive(Clone, Copy, PartialEq, Eq, Structural)]
pub struct StatusRssi {
    bits: u16,
}

impl View for StatusRssi {
    type V = u16;

    closed spec fn view(&self) -> u16 {
        self.bits
    }
}

impl StatusRssi {
    /// A value with every bit clear.
    pub fn new() -> (r: Self)
        ensures
            r@ == 0,
    {
        StatusRssi { bits: 0 }
    }

    /// The value held by two bytes, the most significant first.
    pub fn from_bytes(bytes: [u8; 2]) -> (r: Self)
        ensures
            r@ == word_of(bytes[0], bytes[1]),
    {
        StatusRssi { bits: word_from_bytes(bytes) }
    }

    /// The two bytes of this value, the most significant first.
    pub fn into_bytes(self) -> (r: [u8; 2])
        ensures
            r[0] == high_byte(self@),
            r[1] == low_byte(self@),
    {
        word_to_bytes(self.bits)
    }

    /// RDS ready (RDSR). Held in bit 15.
    pub fn rdsrr(&self) -> (r: bool)
        ensures
            r == (field(self@, 15, 1) == 1),
    {
        get_field(self.bits, 15, 1) == 1
    }

    /// Sets rDS ready (RDSR).
    pub fn set_rdsrr(&mut self, value: bool)
        ensures
            final(self)@ == with_field(old(self)@, 15, 1, flag_bit(value)),
    {
        proof {
            lemma_low_mask_values();
        }
        self.bits = put_field(self.bits, 15, 1, if value { 1 } else { 0 });
    }

    /// Seek/tune complete (STC). Held in bit 14.
    pub fn stc(&self) -> (r: bool)
        ensures
            r == (field(self@, 14, 1) == 1),
    {
        get_field(self.bits, 14, 1) == 1
    }

    /// Sets seek/tune complete (STC).
    pub fn set_stc(&mut self, value: bool)
        ensures
            final(self)@ == with_field(old(self)@, 14, 1, flag_bit(value)),
    {
        proof {
            lemma_low_mask_values();
        }
        self.bits = put_field(self.bits, 14, 1, if value { 1 } else { 0 });
    }

    /// Seek fail / band limit (SF/BL). Held in bit 13.
    pub fn sf_bl(&self) -> (r: bool)
        ensures
            r == (field(self@, 13, 1) == 1),
    {
        get_field(self.bits, 13, 1) == 1
    }

    /// Sets seek fail / band limit (SF/BL).
    pub fn set_sf_bl(&mut self, value: bool)
        ensures
            final(self)@ == with_field(old(self)@, 13, 1, flag_bit(value)),
    {
        proof {
            lemma_low_mask_values();
        }
        self.bits = put_field(self.bits, 13, 1, if value { 1 } else { 0 });
    }

    /// AFC rail (AFCRL). Held in bit 12.
    pub fn afcrl(&self) -> (r: bool)
        ensures
            r == (field(self@, 12, 1) == 1),
    {
        get_field(self.bits, 12, 1) == 1
    }

    /// Sets aFC rail (AFCRL).
    pub fn set_afcrl(&mut self, value: bool)
        ensures
            final(self)@ == with_field(old(self)@, 12, 1, flag_bit(value)),
    {
        proof {
            lemma_low_mask_values();
        }
        self.bits = put_field(self.bits, 12, 1, if value { 1 } else { 0 });
    }

    /// RDS synchronized (RDSS). Held in bit 11.
    pub fn rdss(&self) -> (r: bool)
        ensures
            r == (field(self@, 11, 1) == 1),
    {
        get_field(self.bits, 11, 1) == 1
    }

    /// Sets rDS synchronized (RDSS).
    pub fn set_rdss(&mut self, value: bool)
        ensures
            final(self)@ == with_field(old(self)@, 11, 1, flag_bit(value)),
    {
        proof {
            lemma_low_mask_values();
        }
        self.bits = put_field(self.bits, 11, 1, if value { 1 } else { 0 });
    }

    /// RDS block A errors (BLERA). Held in bits 9..=10.
    pub fn blera(&self) -> (r: u8)
        ensures
            r == field(self@, 9, 2),
    {
        proof {
            lemma_low_mask_values();
        }
        get_field(self.bits, 9, 2) as u8
    }

    /// Sets rDS block A errors (BLERA). The value must fit in 2 bits.
    pub fn set_blera(&mut self, value: u8)
        requires
            value <= 3,
        ensures
            final(self)@ == with_field(old(self)@, 9, 2, value as u16),
    {
        proof {
            lemma_low_mask_values();
        }
        self.bits = put_field(self.bits, 9, 2, value as u16);
    }

    /// Stereo indicator (ST). Held in bit 8.
    pub fn st(&self) -> (r: bool)
        ensures
            r == (field(self@, 8, 1) == 1),
    {
        get_field(self.bits, 8, 1) == 1
    }

    /// Sets stereo indicator (ST).
    pub fn set_st(&mut self, value: bool)
        ensures
            final(self)@ == with_field(old(self)@, 8, 1, flag_bit(value)),
    {
        proof {
            lemma_low_mask_values();
        }
        self.bits = put_field(self.bits, 8, 1, if value { 1 } else { 0 });
    }

    /// Received signal strength (RSSI). Held in bits 0..=7.
    pub fn rssi(&self) -> (r: u8)
        ensures
            r == field(self@, 0, 8),
    {
        proof {
            lemma_low_mask_values();
        }
        get_field(self.bits, 0, 8) as u8
    }

    /// Sets received signal strength (RSSI).
    pub fn set_rssi(&mut self, value: u8)
        ensures
            final(self)@ == with_field(old(self)@, 0, 8, value as u16),
    {
        proof {
            lemma_low_mask_values();
        }
        self.bits = put_field(self.bits, 0, 8, value as u16);
    }

}

/// Register 0Bh, READCHAN: current channel and RDS block errors.
///
/// The view of a value is its 16-bit register word; fields are laid out
/// most significant bit first.
#[derive(Clone, Copy, PartialEq, Eq, Structural)]
pub struct ReadChan {
    bits: u16,
}

impl View for ReadChan {
    type V = u16;

    closed spec fn view(&self) -> u16 {
        self.bits
    }
}

impl ReadChan {
    /// A value with every bit clear.
    pub fn new() -> (r: Self)
        ensures
            r@ == 0,
    {
        ReadChan { bits: 0 }
    }

    /// The value held by two bytes, the most significant first.
    pub fn from_bytes(bytes: [u8; 2]) -> (r: Self)
        ensures
            r@ == word_of(bytes[0], bytes[1]),
    {
        ReadChan { bits: word_from_bytes(bytes) }
    }

    /// The two bytes of this value, the most significant first.
    pub fn into_bytes(self) -> (r: [u8; 2])
        ensures
            r[0] == high_byte(self@),
            r[1] == low_byte(self@),
    {
        word_to_bytes(self.bits)
    }

    /// RDS block B errors (BLERB). Held in bits 14..=15.
    pub fn blerb(&self) -> (r: u8)
        ensures
            r == field(self@, 14, 2),
    {
        proof {
            lemma_low_mask_values();
        }
        get_field(self.bits, 14, 2) as u8
    }

    /// Sets rDS block B errors (BLERB). The value must fit in 2 bits.
    pub fn set_blerb(&mut self, value: u8)
        requires
            value <= 3,
        ensures
            final(self)@ == with_field(old(self)@, 14, 2, value as u16),
    {
        proof {
            lemma_low_mask_values();
        }
        self.bits = put_field(self.bits, 14, 2, value as u16);
    }

    /// RDS block C errors (BLERC). Held in bits 12..=13.
    pub fn blerc(&self) -> (r: u8)
        ensures
            r == field(self@, 12, 2),
    {
        proof {
            lemma_low_mask_values();
        }
        get_field(self.bits, 12, 2) as u8
    }

    /// Sets rDS block C errors (BLERC). The value must fit in 2 bits.
    pub fn set_blerc(&mut self, value: u8)
        requires
            value <= 3,
        ensures
            final(self)@ == with_field(old(self)@, 12, 2, value as u16),
    {
        proof {
            lemma_low_mask_values();
        }
        self.bits = put_field(self.bits, 12, 2, value as u16);
    }

    /// RDS block D errors (BLERD). Held in bits 10..=11.
    pub fn blerd(&self) -> (r: u8)
        ensures
            r == field(self@, 10, 2),
    {
        proof {
            lemma_low_mask_values();
        }
        get_field(self.bits, 10, 2) as u8
    }

    /// Sets rDS block D errors (BLERD). The value must fit in 2 bits.
    pub fn set_blerd(&mut self, value: u8)
        requires
            value <= 3,
        ensures
            final(self)@ == with_field(old(self)@, 10, 2, value as u16),
    {
        proof {
            lemma_low_mask_values();
        }
        self.bits = put_field(self.bits, 10, 2, value as u16);
    }

    /// Current channel (READCHAN). Held in bits 0..=9.
    pub fn readchan(&self) -> (r: u16)
        ensures
            r == field(self@, 0, 10),
    {
        proof {
            lemma_low_mask_values();
        }
        get_field(self.bits, 0, 10)
    }

    /// Sets current channel (READCHAN). The value must fit in 10 bits.
    pub fn set_readchan(&mut self, value: u16)
        requires
            value <= 1023,
        ensures
            final(self)@ == with_field(old(self)@, 0, 10, value),
    {
        proof {
            lemma_low_mask_values();
        }
        self.bits = put_field(self.bits, 0, 10, value);
    }

}

/// Register 0Ch, RDSA: RDS block A.
///
/// The view of a value is its 16-bit register word; fields are laid out
/// most significant bit first.
#[derive(Clone, Copy, PartialEq, Eq, Structural)]
pub struct RdsA {
    bits: u16,
}

impl View for RdsA {
    type V = u16;

    closed spec fn view(&self) -> u16 {
        self.bits
    }
}

impl RdsA {
    /// A value with every bit clear.
    pub fn new() -> (r: Self)
        ensures
            r@ == 0,
    {
        RdsA { bits: 0 }
    }

    /// The value held by two bytes, the most significant first.
    pub fn from_bytes(bytes: [u8; 2]) -> (r: Self)
        ensures
            r@ == word_of(bytes[0], bytes[1]),
    {
        RdsA { bits: word_from_bytes(bytes) }
    }

    /// The two bytes of this value, the most significant first.
    pub fn into_bytes(self) -> (r: [u8; 2])
        ensures
            r[0] == high_byte(self@),
            r[1] == low_byte(self@),
    {
        word_to_bytes(self.bits)
    }

    /// RDS block A data. Held in bits 0..=15.
    pub fn rdsa(&self) -> (r: u16)
        ensures
            r == field(self@, 0, 16),
    {
        proof {
            lemma_low_mask_values();
        }
        get_field(self.bits, 0, 16)
    }

    /// Sets rDS block A data.
    pub fn set_rdsa(&mut self, value: u16)
        ensures
            final(self)@ == with_field(old(self)@, 0, 16, value),
    {
        proof {
            lemma_low_mask_values();
        }
        self.bits = put_field(self.bits, 0, 16, value);
    }

}

/// Register 0Dh, RDSB: RDS block B.
///
/// The view of a value is its 16-bit register word; fields are laid out
/// most significant bit first.
#[derive(Clone, Copy, PartialEq, Eq, Structural)]
pub struct RdsB {
    bits: u16,
}

impl View for RdsB {
    type V = u16;

    closed spec fn view(&self) -> u16 {
        self.bits
    }
}

impl RdsB {
    /// A value with every bit clear.
    pub fn new() -> (r: Self)
        ensures
            r@ == 0,
    {
        RdsB { bits: 0 }
    }

    /// The value held by two bytes, the most significant first.
    pub fn from_bytes(bytes: [u8; 2]) -> (r: Self)
        ensures
            r@ == word_of(bytes[0], bytes[1]),
    {
        RdsB { bits: word_from_bytes(bytes) }
    }

    /// The two bytes of this value, the most significant first.
    pub fn into_bytes(self) -> (r: [u8; 2])
        ensures
            r[0] == high_byte(self@),
            r[1] == low_byte(self@),
    {
        word_to_bytes(self.bits)
    }

    /// RDS block B data. Held in bits 0..=15.
    pub fn rdsb(&self) -> (r: u16)
        ensures
            r == field(self@, 0, 16),
    {
        proof {
            lemma_low_mask_values();
        }
        get_field(self.bits, 0, 16)
    }

    /// Sets rDS block B data.
    pub fn set_rdsb(&mut self, value: u16)
        ensures
            final(self)@ == with_field(old(self)@, 0, 16, value),
    {
        proof {
            lemma_low_mask_values();
        }
        self.bits = put_field(self.bits, 0, 16, value);
    }

}

/// Register 0Eh, RDSC: RDS block C.
///
/// The view of a value is its 16-bit register word; fields are laid out
/// most significant bit first.
#[derive(Clone, Copy, PartialEq, Eq, Structural)]
pub struct RdsC {
    bits: u16,
}

impl View for RdsC {
    type V = u16;

    closed spec fn view(&self) -> u16 {
        self.bits
    }
}

impl RdsC {
    /// A value with every bit clear.
    pub fn new() -> (r: Self)
        ensures
            r@ == 0,
    {
        RdsC { bits: 0 }
    }

    /// The value held by two bytes, the most significant first.
    pub fn from_bytes(bytes: [u8; 2]) -> (r: Self)
        ensures
            r@ == word_of(bytes[0], bytes[1]),
    {
        RdsC { bits: word_from_bytes(bytes) }
    }

    /// The two bytes of this value, the most significant first.
    pub fn into_bytes(self) -> (r: [u8; 2])
        ensures
            r[0] == high_byte(self@),
            r[1] == low_byte(self@),
    {
        word_to_bytes(self.bits)
    }

    /// RDS block C data. Held in bits 0..=15.
    pub fn rdsc(&self) -> (r: u16)
        ensures
            r == field(self@, 0, 16),
    {
        proof {
            lemma_low_mask_values();
        }
        get_field(self.bits, 0, 16)
    }

    /// Sets rDS block C data.
    pub fn set_rdsc(&mut self, value: u16)
        ensures
            final(self)@ == with_field(old(self)@, 0, 16, value),
    {
        proof {
            lemma_low_mask_values();
        }
        self.bits = put_field(self.bits, 0, 16, value);
    }

}

/// Register 0Fh, RDSD: RDS block D.
///
/// The view of a value is its 16-bit register word; fields are laid out
/// most significant bit first.
#[derive(Clone, Copy, PartialEq, Eq, Structural)]
pub struct RdsD {
    bits: u16,
}

impl View for RdsD {
    type V = u16;

    closed spec fn view(&self) -> u16 {
        self.bits
    }
}

impl RdsD {
    /// A value with every bit clear.
    pub fn new() -> (r: Self)
        ensures
            r@ == 0,
    {
        RdsD { bits: 0 }
    }

    /// The value held by two bytes, the most significant first.
    pub fn from_bytes(bytes: [u8; 2]) -> (r: Self)
        ensures
            r@ == word_of(bytes[0], bytes[1]),
    {
        RdsD { bits: word_from_bytes(bytes) }
    }

    /// The two bytes of this value, the most significant first.
    pub fn into_bytes(self) -> (r: [u8; 2])
        ensures
            r[0] == high_byte(self@),
            r[1] == low_byte(self@),
    {
        word_to_bytes(self.bits)
    }

    /// RDS block D data. Held in bits 0..=15.
    pub fn rdsd(&self) -> (r: u16)
        ensures
            r == field(self@, 0, 16),
    {
        proof {
            lemma_low_mask_values();
        }
        get_field(self.bits, 0, 16)
    }

    /// Sets rDS block D data.
    pub fn set_rdsd(&mut self, value: u16)
        ensures
            final(self)@ == with_field(old(self)@, 0, 16, value),
    {
        proof {
            lemma_low_mask_values();
        }
        self.bits = put_field(self.bits, 0, 16, value);
    }

}
/// Chip revision, device and firmware version, as read from CHIPID.
#[derive(Debug, Clone, Copy)]
pub struct ChipInfo {
    pub revision: u8,
    pub device: u8,
    pub firmware: u8,
}

/// Part number and manufacturer, as read from DEVICEID.
#[derive(Debug, Clone, Copy)]
pub struct DeviceInfo {
    pub pn: u8,
    pub mfgid: u16,
}

/// The word of register `i` (in read order) in a register buffer.
pub open spec fn word_at(bytes: Seq<u8>, i: int) -> u16 {
    word_of(bytes[2 * i], bytes[2 * i + 1])
}

/// A register buffer with the word of register `i` (in read order) replaced by `word`.
pub open spec fn with_word(bytes: Seq<u8>, i: int, word: u16) -> Seq<u8> {
    bytes.update(2 * i, high_byte(word)).update(2 * i + 1, low_byte(word))
}

/// Replacing one register's word changes that register's word to the new one
/// and leaves every other register's word and the buffer's length unchanged.
pub proof fn lemma_word_at_with_word(bytes: Seq<u8>, i: int, j: int, word: u16)
    requires
        bytes.len() == 32,
        0 <= i < 16,
        0 <= j < 16,
    ensures
        with_word(bytes, i, word).len() == 32,
        word_at(with_word(bytes, i, word), j) == if i == j {
            word
        } else {
            word_at(bytes, j)
        },
{
    lemma_word_bytes(word, 0, 0);
}

/// A register's word is the number formed by its two bytes, high byte first;
/// replacing it stores the high byte at offset `2 * i`, the low byte at
/// `2 * i + 1`, and keeps every other byte.
pub proof fn lemma_word_layout(bytes: Seq<u8>, i: int, word: u16)
    requires
        bytes.len() == 32,
        0 <= i < 16,
    ensures
        word_at(bytes, i) as int == bytes[2 * i] as int * 256 + bytes[2 * i + 1] as int,
        with_word(bytes, i, word).len() == 32,
        forall|k: int|
            0 <= k < 32 ==> (#[trigger] with_word(bytes, i, word)[k]) as int == if k == 2 * i {
                word as int / 256
            } else if k == 2 * i + 1 {
                word as int % 256
            } else {
                bytes[k] as int
            },
{
    lemma_word_of_value(bytes[2 * i], bytes[2 * i + 1]);
    lemma_word_of_value(high_byte(word), low_byte(word));
    lemma_word_bytes(word, 0, 0);
}

/// Putting back the word a register already holds leaves the buffer unchanged.
pub proof fn lemma_with_word_of_word(bytes: Seq<u8>, i: int)
    requires
        bytes.len() == 32,
        0 <= i < 16,
    ensures
        with_word(bytes, i, word_at(bytes, i)) == bytes,
{
    lemma_word_bytes(0, bytes[2 * i], bytes[2 * i + 1]);
    assert(with_word(bytes, i, word_at(bytes, i)) =~= bytes);
}

/// The registers of a Si470x, in read order, as last read from (or to be
/// written to) the device.
///
/// Only the registers up to and including `last_valid` hold data read from the
/// device: registers 00h..09h are fixed or rarely change, so reading just the
/// status registers 0Ah..0Fh is common.
pub struct Registers {
    registers: [u8; 32],
    last_valid_reg: ReadRegIdx,
}

impl Registers {
    /// The 32 bytes of the buffer, two per register in read order, the most
    /// significant byte first.
    pub closed spec fn bytes(&self) -> Seq<u8> {
        self.registers@
    }

    /// The last register, in read order, that holds valid data.
    pub closed spec fn last_valid(&self) -> ReadRegIdx {
        self.last_valid_reg
    }

    /// Register `reg` holds valid data.
    pub open spec fn holds(&self, reg: ReadRegIdx) -> bool {
        reg.index() <= self.last_valid().index()
    }

    /// The word of the register at position `i` in read order.
    pub open spec fn word(&self, i: int) -> u16 {
        word_at(self.bytes(), i)
    }

    /// The buffer always has two bytes for each of the 16 registers.
    pub proof fn lemma_len(&self)
        ensures
            self.bytes().len() == 32,
    {
    }

    /// An all-zero buffer whose registers up to and including
    /// `last_valid_reg` are to be filled by a read.
    pub fn new(last_valid_reg: ReadRegIdx) -> (r: Self)
        ensures
            r.bytes() == Seq::new(32, |i: int| 0u8),
            r.last_valid() == last_valid_reg,
    {
        let r = Registers { registers: [0u8; 32], last_valid_reg };
        assert(r.bytes() =~= Seq::new(32, |i: int| 0u8));
        r
    }

    /// The last register, in read order, that holds valid data.
    pub fn get_last_valid_reg(&self) -> (r: ReadRegIdx)
        ensures
            r == self.last_valid(),
    {
        self.last_valid_reg
    }

    /// DEVICEID. It is read whether or not it was part of the last read.
    pub fn device_id(&self) -> (r: DeviceId)
        ensures
            r@ == self.word(ReadRegIdx::DeviceId.index() as int),
    {
        DeviceId::from_bytes(self.get_raw(ReadRegIdx::DeviceId))
    }

    /// CHIPID.
    pub fn chip_id(&self) -> (r: ChipId)
        requires
            self.holds(ReadRegIdx::ChipId),
        ensures
            r@ == self.word(ReadRegIdx::ChipId.index() as int),
    {
        ChipId::from_bytes(self.get_raw(ReadRegIdx::ChipId))
    }

    /// POWERCFG.
    pub fn power_cfg(&self) -> (r: PowerCfg)
        requires
            self.holds(ReadRegIdx::PowerCfg),
        ensures
            r@ == self.word(ReadRegIdx::PowerCfg.index() as int),
    {
        PowerCfg::from_bytes(self.get_raw(ReadRegIdx::PowerCfg))
    }

    /// CHANNEL.
    pub fn channel(&self) -> (r: Channel)
        requires
            self.holds(ReadRegIdx::Channel),
        ensures
            r@ == self.word(ReadRegIdx::Channel.index() as int),
    {
        Channel::from_bytes(self.get_raw(ReadRegIdx::Channel))
    }

    /// SYSCONFIG1.
    pub fn sys_config1(&self) -> (r: SysConfig1)
        requires
            self.holds(ReadRegIdx::SysConfig1),
        ensures
            r@ == self.word(ReadRegIdx::SysConfig1.index() as int),
    {
        SysConfig1::from_bytes(self.get_raw(ReadRegIdx::SysConfig1))
    }

    /// SYSCONFIG2.
    pub fn sys_config2(&self) -> (r: SysConfig2)
        requires
            self.holds(ReadRegIdx::SysConfig2),
        ensures
            r@ == self.word(ReadRegIdx::SysConfig2.index() as int),
    {
        SysConfig2::from_bytes(self.get_raw(ReadRegIdx::SysConfig2))
    }

    /// SYSCONFIG3.
    pub fn sys_config3(&self) -> (r: SysConfig3)
        requires
            self.holds(ReadRegIdx::SysConfig3),
        ensures
            r@ == self.word(ReadRegIdx::SysConfig3.index() as int),
    {
        SysConfig3::from_bytes(self.get_raw(ReadRegIdx::SysConfig3))
    }

    /// TEST1.
    pub fn test1(&self) -> (r: Test1)
        requires
            self.holds(ReadRegIdx::Test1),
        ensures
            r@ == self.word(ReadRegIdx::Test1.index() as int),
    {
        Test1::from_bytes(self.get_raw(ReadRegIdx::Test1))
    }

    /// STATUSRSSI.
    pub fn status_rssi(&self) -> (r: StatusRssi)
        requires
            self.holds(ReadRegIdx::StatusRssi),
        ensures
            r@ == self.word(ReadRegIdx::StatusRssi.index() as int),
    {
        StatusRssi::from_bytes(self.get_raw(ReadRegIdx::StatusRssi))
    }

    /// READCHAN.
    pub fn read_chan(&self) -> (r: ReadChan)
        requires
            self.holds(ReadRegIdx::ReadChan),
        ensures
            r@ == self.word(ReadRegIdx::ReadChan.index() as int),
    {
        ReadChan::from_bytes(self.get_raw(ReadRegIdx::ReadChan))
    }

    /// RDSA.
    pub fn rdsa_a(&self) -> (r: RdsA)
        requires
            self.holds(ReadRegIdx::RdsA),
        ensures
            r@ == self.word(ReadRegIdx::RdsA.index() as int),
    {
        RdsA::from_bytes(self.get_raw(ReadRegIdx::RdsA))
    }

    /// RDSB.
    pub fn rdsa_b(&self) -> (r: RdsB)
        requires
            self.holds(ReadRegIdx::RdsB),
        ensures
            r@ == self.word(ReadRegIdx::RdsB.index() as int),
    {
        RdsB::from_bytes(self.get_raw(ReadRegIdx::RdsB))
    }

    /// RDSC.
    pub fn rdsa_c(&self) -> (r: RdsC)
        requires
            self.holds(ReadRegIdx::RdsC),
        ensures
            r@ == self.word(ReadRegIdx::RdsC.index() as int),
    {
        RdsC::from_bytes(self.get_raw(ReadRegIdx::RdsC))
    }

    /// RDSD.
    pub fn rdsa_d(&self) -> (r: RdsD)
        requires
            self.holds(ReadRegIdx::RdsD),
        ensures
            r@ == self.word(ReadRegIdx::RdsD.index() as int),
    {
        RdsD::from_bytes(self.get_raw(ReadRegIdx::RdsD))
    }

    /// Stores POWERCFG.
    pub fn set_power_cfg(&mut self, reg: PowerCfg)
        ensures
            final(self).bytes() == with_word(
                old(self).bytes(),
                ReadRegIdx::PowerCfg.index() as int,
                reg@,
            ),
            final(self).last_valid() == old(self).last_valid(),
    {
        self.set_raw(ReadRegIdx::PowerCfg, reg.into_bytes());
    }

    /// Stores CHANNEL.
    pub fn set_channel(&mut self, reg: Channel)
        ensures
            final(self).bytes() == with_word(
                old(self).bytes(),
                ReadRegIdx::Channel.index() as int,
                reg@,
            ),
            final(self).last_valid() == old(self).last_valid(),
    {
        self.set_raw(ReadRegIdx::Channel, reg.into_bytes());
    }

    /// Stores SYSCONFIG1.
    pub fn set_sys_config1(&mut self, reg: SysConfig1)
        ensures
            final(self).bytes() == with_word(
                old(self).bytes(),
                ReadRegIdx::SysConfig1.index() as int,
                reg@,
            ),
            final(self).last_valid() == old(self).last_valid(),
    {
        self.set_raw(ReadRegIdx::SysConfig1, reg.into_bytes());
    }

    /// Stores SYSCONFIG2.
    pub fn set_sys_config2(&mut self, reg: SysConfig2)
        ensures
            final(self).bytes() == with_word(
                old(self).bytes(),
                ReadRegIdx::SysConfig2.index() as int,
                reg@,
            ),
            final(self).last_valid() == old(self).last_valid(),
    {
        self.set_raw(ReadRegIdx::SysConfig2, reg.into_bytes());
    }

    /// Stores SYSCONFIG3.
    pub fn set_sys_config3(&mut self, reg: SysConfig3)
        ensures
            final(self).bytes() == with_word(
                old(self).bytes(),
                ReadRegIdx::SysConfig3.index() as int,
                reg@,
            ),
            final(self).last_valid() == old(self).last_valid(),
    {
        self.set_raw(ReadRegIdx::SysConfig3, reg.into_bytes());
    }

    /// Stores TEST1.
    pub fn set_test1(&mut self, reg: Test1)
        ensures
            final(self).bytes() == with_word(
                old(self).bytes(),
                ReadRegIdx::Test1.index() as int,
                reg@,
            ),
            final(self).last_valid() == old(self).last_valid(),
    {
        self.set_raw(ReadRegIdx::Test1, reg.into_bytes());
    }

    /// The 32 bytes of the buffer.
    pub fn as_bytes(&self) -> (r: &[u8; 32])
        ensures
            r@ == self.bytes(),
    {
        &self.registers
    }

    /// The 32 bytes of the buffer, to be filled by a read from the device.
    pub fn as_bytes_mut(&mut self) -> (r: &mut [u8; 32])
        ensures
            r@ == old(self).bytes(),
            final(self).bytes() == final(r)@,
            final(self).last_valid() == old(self).last_valid(),
    {
        &mut self.registers
    }

    /// The two bytes of register `idx`.
    fn get_raw(&self, idx: ReadRegIdx) -> (r: [u8; 2])
        ensures
            word_of(r[0], r[1]) == self.word(idx.index() as int),
    {
        let i = idx.index() as usize * 2;
        [self.registers[i], self.registers[i + 1]]
    }

    /// Stores the two bytes of register `idx`.
    fn set_raw(&mut self, idx: ReadRegIdx, bytes: [u8; 2])
        ensures
            final(self).bytes() == old(self).bytes().update(2 * idx.index(), bytes[0]).update(
                2 * idx.index() + 1,
                bytes[1],
            ),
            final(self).last_valid() == old(self).last_valid(),
    {
        let i = idx.index() as usize * 2;
        self.registers[i] = bytes[0];
        self.registers[i + 1] = bytes[1];
    }
}

} // verus!
