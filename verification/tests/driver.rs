use si470x::{
    chip_info, device_info, read_length, write_range, ChannelSpacing, RdsMode, ReadRegIdx,
    RegisterUpdate, Registers, SeekDirection, SeekMode, SeekState, Si470xError, Tuner,
    SI470X_I2C_ADDRESS,
};

/// Registers read in full, with the given bytes at the given offsets.
fn registers_with(last: ReadRegIdx, patches: &[(usize, u8)]) -> Registers {
    let mut regs = Registers::new(last);
    for &(i, b) in patches {
        regs.as_bytes_mut()[i] = b;
    }
    regs
}

fn apply(update: &RegisterUpdate, regs: &mut Registers) -> Result<(), Si470xError<()>> {
    assert!(update.admits(regs));
    update.apply(regs)
}

#[test]
fn address_is_0x10() {
    assert_eq!(SI470X_I2C_ADDRESS, 0x10);
}

#[test]
fn read_lengths() {
    assert_eq!(read_length(ReadRegIdx::StatusRssi), 2);
    assert_eq!(read_length(ReadRegIdx::PowerCfg), 18);
    assert_eq!(read_length(ReadRegIdx::SysConfig2), 24);
    assert_eq!(read_length(ReadRegIdx::Test1), 28);
    assert_eq!(read_length(ReadRegIdx::BootConfig), 32);
}

#[test]
fn write_range_starts_at_power_cfg() {
    let r = write_range::<()>(&Registers::new(ReadRegIdx::ChipId));
    assert!(matches!(r, Err(Si470xError::OutOfRange)));
    let r = write_range::<()>(&Registers::new(ReadRegIdx::StatusRssi));
    assert!(matches!(r, Err(Si470xError::OutOfRange)));
    assert!(matches!(write_range::<()>(&Registers::new(ReadRegIdx::PowerCfg)), Ok((16, 18))));
    assert!(matches!(write_range::<()>(&Registers::new(ReadRegIdx::SysConfig2)), Ok((16, 24))));
    assert!(matches!(write_range::<()>(&Registers::new(ReadRegIdx::BootConfig)), Ok((16, 32))));
}

#[test]
fn read_extents() {
    assert_eq!(RegisterUpdate::Enable(true).read_extent(), ReadRegIdx::PowerCfg);
    assert_eq!(RegisterUpdate::Softmute(true).read_extent(), ReadRegIdx::PowerCfg);
    assert_eq!(RegisterUpdate::Mute(true).read_extent(), ReadRegIdx::PowerCfg);
    assert_eq!(RegisterUpdate::Mono(true).read_extent(), ReadRegIdx::PowerCfg);
    assert_eq!(RegisterUpdate::RdsMode(RdsMode::Verbose).read_extent(), ReadRegIdx::PowerCfg);
    assert_eq!(
        RegisterUpdate::Seek(SeekMode::Wrap, SeekDirection::Up, SeekState::Enable).read_extent(),
        ReadRegIdx::PowerCfg
    );
    assert_eq!(RegisterUpdate::ClearTuneSeek.read_extent(), ReadRegIdx::BootConfig);
    assert_eq!(RegisterUpdate::Channel(5).read_extent(), ReadRegIdx::BootConfig);
    assert_eq!(RegisterUpdate::Volume(5).read_extent(), ReadRegIdx::SysConfig2);
    assert_eq!(
        RegisterUpdate::ChannelSpacing(ChannelSpacing::KHz200).read_extent(),
        ReadRegIdx::SysConfig2
    );
    assert_eq!(RegisterUpdate::RssiThreshold(5).read_extent(), ReadRegIdx::SysConfig2);
    assert_eq!(RegisterUpdate::OscillatorEnable(true).read_extent(), ReadRegIdx::Test1);
}

#[test]
fn enable_never_clears_enable_bit() {
    let mut regs = registers_with(ReadRegIdx::PowerCfg, &[(16, 0x00), (17, 0x40)]);
    apply(&RegisterUpdate::Enable(true), &mut regs).unwrap();
    assert_eq!(&regs.as_bytes()[16..18], &[0x00, 0x01]);
    let mut regs = registers_with(ReadRegIdx::PowerCfg, &[(16, 0xC0)]);
    apply(&RegisterUpdate::Enable(false), &mut regs).unwrap();
    assert_eq!(&regs.as_bytes()[16..18], &[0xC0, 0x41]);
    assert!(regs.power_cfg().enable());
    assert!(regs.power_cfg().disable());
}

#[test]
fn mute_and_softmute_clear_their_disable_bits() {
    let mut regs = registers_with(ReadRegIdx::PowerCfg, &[(16, 0xC0)]);
    apply(&RegisterUpdate::Mute(true), &mut regs).unwrap();
    assert_eq!(regs.as_bytes()[16], 0x80);
    apply(&RegisterUpdate::Softmute(true), &mut regs).unwrap();
    assert_eq!(regs.as_bytes()[16], 0x00);
    apply(&RegisterUpdate::Mute(false), &mut regs).unwrap();
    apply(&RegisterUpdate::Softmute(false), &mut regs).unwrap();
    assert_eq!(regs.as_bytes()[16], 0xC0);
}

#[test]
fn mono_rds_mode_and_seek() {
    let mut regs = Registers::new(ReadRegIdx::PowerCfg);
    apply(&RegisterUpdate::Mono(true), &mut regs).unwrap();
    assert_eq!(&regs.as_bytes()[16..18], &[0x20, 0x00]);
    apply(&RegisterUpdate::RdsMode(RdsMode::Verbose), &mut regs).unwrap();
    assert_eq!(&regs.as_bytes()[16..18], &[0x28, 0x00]);
    let seek = RegisterUpdate::Seek(SeekMode::Stop, SeekDirection::Up, SeekState::Enable);
    apply(&seek, &mut regs).unwrap();
    assert_eq!(&regs.as_bytes()[16..18], &[0x2F, 0x00]);
    let seek = RegisterUpdate::Seek(SeekMode::Wrap, SeekDirection::Down, SeekState::Disable);
    apply(&seek, &mut regs).unwrap();
    assert_eq!(&regs.as_bytes()[16..18], &[0x28, 0x00]);
}

#[test]
fn channel_change_sets_tune_and_clears_seek() {
    let mut regs = registers_with(
        ReadRegIdx::BootConfig,
        &[(0, 0x12), (16, 0x01), (17, 0x01), (18, 0x00), (19, 0x07)],
    );
    apply(&RegisterUpdate::Channel(100), &mut regs).unwrap();
    let mut expected = [0u8; 32];
    expected[0] = 0x12;
    expected[16] = 0x00;
    expected[17] = 0x01;
    expected[18] = 0x80;
    expected[19] = 0x64;
    assert_eq!(regs.as_bytes(), &expected);
}

#[test]
fn channel_change_without_seek_keeps_power_cfg() {
    let mut regs = registers_with(ReadRegIdx::BootConfig, &[(16, 0x40), (17, 0x01)]);
    apply(&RegisterUpdate::Channel(1023), &mut regs).unwrap();
    assert_eq!(&regs.as_bytes()[16..20], &[0x40, 0x01, 0x83, 0xFF]);
}

#[test]
fn channel_change_refused_while_tuning() {
    let mut regs = registers_with(ReadRegIdx::BootConfig, &[(16, 0x01), (18, 0x80), (19, 0x05)]);
    let before = *regs.as_bytes();
    let r = apply(&RegisterUpdate::Channel(100), &mut regs);
    assert!(matches!(r, Err(Si470xError::TuneInProgress)));
    assert_eq!(regs.as_bytes(), &before);
    // While tuning, even a channel number that does not fit is refused rather than stored.
    assert!(RegisterUpdate::Channel(5000).admits(&regs));
    let r = apply(&RegisterUpdate::Channel(5000), &mut regs);
    assert!(matches!(r, Err(Si470xError::TuneInProgress)));
}

#[test]
fn clear_tune_seek_clears_both_bits() {
    let mut regs = registers_with(ReadRegIdx::BootConfig, &[(16, 0x01), (17, 0x41), (18, 0x80), (19, 0x64)]);
    apply(&RegisterUpdate::ClearTuneSeek, &mut regs).unwrap();
    assert_eq!(&regs.as_bytes()[16..20], &[0x00, 0x41, 0x00, 0x64]);
}

#[test]
fn sys_config2_updates() {
    let mut regs = registers_with(ReadRegIdx::SysConfig2, &[(22, 0x19), (23, 0x1F)]);
    apply(&RegisterUpdate::Volume(5), &mut regs).unwrap();
    assert_eq!(&regs.as_bytes()[22..24], &[0x19, 0x15]);
    apply(&RegisterUpdate::ChannelSpacing(ChannelSpacing::KHz50), &mut regs).unwrap();
    assert_eq!(&regs.as_bytes()[22..24], &[0x19, 0x25]);
    apply(&RegisterUpdate::RssiThreshold(0x0C), &mut regs).unwrap();
    assert_eq!(&regs.as_bytes()[22..24], &[0x0C, 0x25]);
    assert_eq!(regs.as_bytes()[..22], [0u8; 22]);
}

#[test]
fn oscillator_enable() {
    let mut regs = registers_with(ReadRegIdx::Test1, &[(26, 0x40)]);
    apply(&RegisterUpdate::OscillatorEnable(true), &mut regs).unwrap();
    assert_eq!(&regs.as_bytes()[26..28], &[0xC0, 0x00]);
    apply(&RegisterUpdate::OscillatorEnable(false), &mut regs).unwrap();
    assert_eq!(&regs.as_bytes()[26..28], &[0x40, 0x00]);
}

#[test]
fn admissibility() {
    let sys2 = Registers::new(ReadRegIdx::SysConfig2);
    assert!(RegisterUpdate::Volume(15).admits(&sys2));
    assert!(!RegisterUpdate::Volume(16).admits(&sys2));
    let power = Registers::new(ReadRegIdx::PowerCfg);
    assert!(!RegisterUpdate::Volume(3).admits(&power));
    assert!(!RegisterUpdate::ClearTuneSeek.admits(&power));
    assert!(RegisterUpdate::Mute(true).admits(&power));
    assert!(!RegisterUpdate::Mute(true).admits(&Registers::new(ReadRegIdx::ChipId)));
    let all = Registers::new(ReadRegIdx::BootConfig);
    assert!(RegisterUpdate::Channel(1023).admits(&all));
    assert!(!RegisterUpdate::Channel(1024).admits(&all));
    assert!(RegisterUpdate::OscillatorEnable(true).admits(&all));
    assert!(!RegisterUpdate::OscillatorEnable(true).admits(&sys2));
}

#[test]
fn identification() {
    let regs = registers_with(ReadRegIdx::BootConfig, &[(12, 0x12), (13, 0x42), (14, 0x12), (15, 0x53)]);
    let chip = chip_info(&regs);
    assert_eq!((chip.revision, chip.device, chip.firmware), (4, 9, 19));
    let device = device_info(&regs);
    assert_eq!((device.pn, device.mfgid), (1, 0x242));
}

/// A device model: the register file in register-address order (00h..0Fh).
struct FakeRadio {
    words: [u16; 16],
}

impl Tuner<()> for FakeRadio {
    fn read_registers(&mut self, up_to: ReadRegIdx) -> Result<Registers, Si470xError<()>> {
        let mut regs = Registers::new(up_to);
        let n = read_length(up_to);
        for i in 0..n / 2 {
            let word = self.words[(i + 10) % 16];
            regs.as_bytes_mut()[2 * i] = (word >> 8) as u8;
            regs.as_bytes_mut()[2 * i + 1] = word as u8;
        }
        Ok(regs)
    }

    fn read_all_registers(&mut self) -> Result<Registers, Si470xError<()>> {
        self.read_registers(ReadRegIdx::BootConfig)
    }

    fn write_registers(&mut self, registers: &Registers) -> Result<(), Si470xError<()>> {
        let (start, end) = write_range(registers)?;
        let bytes = &registers.as_bytes()[start..end];
        for (k, pair) in bytes.chunks(2).enumerate() {
            self.words[2 + k] = u16::from_be_bytes([pair[0], pair[1]]);
        }
        Ok(())
    }

    fn ping(&mut self) -> Result<(), Si470xError<()>> {
        Ok(())
    }
}

fn run(radio: &mut FakeRadio, update: RegisterUpdate) -> Result<(), Si470xError<()>> {
    let mut regs = radio.read_registers(update.read_extent())?;
    assert!(update.admits(&regs));
    update.apply(&mut regs)?;
    radio.write_registers(&regs)
}

#[test]
fn read_modify_write_round_trip() {
    let mut radio = FakeRadio { words: [0; 16] };
    radio.words[0] = 0x1242;
    radio.words[1] = 0x1253;
    radio.words[5] = 0x1F19;
    run(&mut radio, RegisterUpdate::OscillatorEnable(true)).unwrap();
    assert_eq!(radio.words[7], 0x8000);
    run(&mut radio, RegisterUpdate::Enable(true)).unwrap();
    assert_eq!(radio.words[2], 0x0001);
    run(&mut radio, RegisterUpdate::Volume(7)).unwrap();
    assert_eq!(radio.words[5], 0x1F17);
    run(&mut radio, RegisterUpdate::Channel(42)).unwrap();
    assert_eq!(radio.words[3], 0x802A);
    assert!(matches!(
        run(&mut radio, RegisterUpdate::Channel(43)),
        Err(Si470xError::TuneInProgress)
    ));
    run(&mut radio, RegisterUpdate::ClearTuneSeek).unwrap();
    assert_eq!(radio.words[3], 0x002A);
    assert_eq!(radio.words[0], 0x1242);
    assert_eq!(radio.words[1], 0x1253);
    let regs = radio.read_all_registers().unwrap();
    assert_eq!(chip_info(&regs).device, 9);
    assert!(radio.ping().is_ok());
}

fn all_updates() -> Vec<RegisterUpdate> {
    vec![
        RegisterUpdate::Enable(true),
        RegisterUpdate::Enable(false),
        RegisterUpdate::Softmute(true),
        RegisterUpdate::Mute(true),
        RegisterUpdate::Mono(true),
        RegisterUpdate::RdsMode(RdsMode::Standard),
        RegisterUpdate::Seek(SeekMode::Stop, SeekDirection::Down, SeekState::Enable),
        RegisterUpdate::ClearTuneSeek,
        RegisterUpdate::Channel(77),
        RegisterUpdate::Volume(2),
        RegisterUpdate::ChannelSpacing(ChannelSpacing::KHz200),
        RegisterUpdate::RssiThreshold(40),
        RegisterUpdate::OscillatorEnable(false),
    ]
}

fn patterned(last: ReadRegIdx) -> Registers {
    let mut regs = Registers::new(last);
    for (i, b) in regs.as_bytes_mut().iter_mut().enumerate() {
        *b = 0xA5 ^ (i as u8);
    }
    // TUNE clear, ENABLE set.
    regs.as_bytes_mut()[18] = 0x05;
    regs.as_bytes_mut()[17] |= 0x01;
    regs
}

#[test]
fn updates_change_only_the_registers_they_write() {
    for update in all_updates() {
        let mut regs = patterned(update.read_extent());
        let before = *regs.as_bytes();
        apply(&update, &mut regs).unwrap();
        let end = read_length(update.read_extent());
        assert_eq!(regs.as_bytes()[..16], before[..16]);
        assert_eq!(regs.as_bytes()[end..], before[end..]);
        assert_eq!(regs.get_last_valid_reg(), update.read_extent());
    }
}

#[test]
fn updates_never_clear_enable() {
    for update in all_updates() {
        let mut regs = patterned(ReadRegIdx::BootConfig);
        apply(&update, &mut regs).unwrap();
        assert!(regs.power_cfg().enable());
    }
    let mut regs = Registers::new(ReadRegIdx::BootConfig);
    apply(&RegisterUpdate::Volume(1), &mut regs).unwrap();
    assert!(!regs.power_cfg().enable());
}
