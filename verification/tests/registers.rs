use si470x::{
    ChannelSpacing, ChipId, DeviceId, Gpio1Mode, Gpio2Mode, Gpio3Mode, PowerCfg, RdsA, RdsD,
    RdsMode, ReadChan, ReadRegIdx, Registers, SeekDirection, SeekMode, SeekState, StatusRssi,
    SysConfig1, SysConfig2, SysConfig3, Test1,
};

#[test]
fn power_cfg_fields_are_laid_out_msb_first() {
    assert_eq!(PowerCfg::new().into_bytes(), [0x00, 0x00]);
    let mut reg = PowerCfg::new();
    reg.set_dsmute(true);
    assert_eq!(reg.into_bytes(), [0x80, 0x00]);
    let mut reg = PowerCfg::from_bytes([0x80, 0x00]);
    reg.set_enable(true);
    reg.set_disable(true);
    reg.set_seek(SeekState::Enable);
    reg.set_seekup(SeekDirection::Up);
    reg.set_skmode(SeekMode::Stop);
    reg.set_rdsm(RdsMode::Verbose);
    reg.set_mono(true);
    reg.set_dmute(true);
    assert_eq!(reg.into_bytes(), [0xEF, 0x41]);
    let reg = PowerCfg::from_bytes([0xEF, 0x41]);
    assert!(reg.dsmute() && reg.dmute() && reg.mono() && reg.disable() && reg.enable());
    assert_eq!(reg.rdsm(), RdsMode::Verbose);
    assert_eq!(reg.skmode(), SeekMode::Stop);
    assert_eq!(reg.seekup(), SeekDirection::Up);
    assert_eq!(reg.seek(), SeekState::Enable);
}

#[test]
fn power_cfg_setter_leaves_other_fields() {
    let mut reg = PowerCfg::from_bytes([0xFF, 0xFF]);
    reg.set_seek(SeekState::Disable);
    assert_eq!(reg.into_bytes(), [0xFE, 0xFF]);
    let mut reg = PowerCfg::from_bytes([0xFE, 0xFF]);
    reg.set_enable(false);
    assert_eq!(reg.into_bytes(), [0xFE, 0xFE]);
}

#[test]
fn channel_fields() {
    let mut reg = si470x::Channel::new();
    reg.set_chan(0x3FF);
    assert_eq!(reg.into_bytes(), [0x03, 0xFF]);
    reg.set_tune(true);
    assert_eq!(reg.into_bytes(), [0x83, 0xFF]);
    assert_eq!(reg.chan(), 1023);
    assert!(reg.tune());
    reg.set_chan(100);
    assert_eq!(reg.into_bytes(), [0x80, 0x64]);
}

#[test]
fn sys_config1_fields() {
    let reg = SysConfig1::from_bytes([0xD8, 0xE4]);
    assert!(reg.rdsien());
    assert!(reg.stcien());
    assert!(reg.rds());
    assert!(reg.de());
    assert!(!reg.agcd());
    assert_eq!(reg.blndadj(), 3);
    assert_eq!(reg.gpio3(), Gpio3Mode::Low);
    assert_eq!(reg.gpio2(), Gpio2Mode::StcRdsInterrupt);
    assert_eq!(reg.gpio1(), Gpio1Mode::HighImpedance);
    let mut reg = SysConfig1::new();
    reg.set_gpio2(Gpio2Mode::High);
    reg.set_gpio1(Gpio1Mode::Reserved);
    assert_eq!(reg.into_bytes(), [0x00, 0x0D]);
}

#[test]
fn sys_config2_fields() {
    let mut reg = SysConfig2::from_bytes([0x19, 0x1F]);
    assert_eq!(reg.seekth(), 0x19);
    assert_eq!(reg.band(), 0);
    assert_eq!(reg.space(), ChannelSpacing::KHz100);
    assert_eq!(reg.volume(), 15);
    reg.set_volume(3);
    assert_eq!(reg.into_bytes(), [0x19, 0x13]);
    reg.set_space(ChannelSpacing::KHz50);
    assert_eq!(reg.into_bytes(), [0x19, 0x23]);
    reg.set_band(2);
    assert_eq!(reg.into_bytes(), [0x19, 0xA3]);
    reg.set_seekth(0xFF);
    assert_eq!(reg.into_bytes(), [0xFF, 0xA3]);
}

#[test]
fn sys_config3_and_test1_fields() {
    let reg = SysConfig3::from_bytes([0x5A, 0x3C]);
    assert_eq!(reg.smuter(), 1);
    assert_eq!(reg.smutea(), 1);
    assert!(!reg.volext());
    assert_eq!(reg.sksnr(), 3);
    assert_eq!(reg.skcnt(), 12);
    let mut reg = SysConfig3::from_bytes([0x5A, 0x3C]);
    reg.set_volext(true);
    assert_eq!(reg.into_bytes(), [0x5B, 0x3C]);
    let reg = Test1::from_bytes([0xC0, 0x00]);
    assert!(reg.xoscen() && reg.ahizen());
    let mut reg = Test1::new();
    reg.set_xoscen(true);
    assert_eq!(reg.into_bytes(), [0x80, 0x00]);
}

#[test]
fn identification_fields() {
    let chip = ChipId::from_bytes([0x12, 0x53]);
    assert_eq!(chip.rev(), 4);
    assert_eq!(chip.dev(), 9);
    assert_eq!(chip.firmware(), 19);
    let device = DeviceId::from_bytes([0x12, 0x42]);
    assert_eq!(device.pn(), 1);
    assert_eq!(device.mfgid(), 0x242);
}

#[test]
fn status_fields() {
    let status = StatusRssi::from_bytes([0x4B, 0x2A]);
    assert!(!status.rdsrr());
    assert!(status.stc());
    assert!(!status.sf_bl());
    assert!(!status.afcrl());
    assert!(status.rdss());
    assert_eq!(status.blera(), 1);
    assert!(status.st());
    assert_eq!(status.rssi(), 42);
    let chan = ReadChan::from_bytes([0xA9, 0x55]);
    assert_eq!(chan.blerb(), 2);
    assert_eq!(chan.blerc(), 2);
    assert_eq!(chan.blerd(), 2);
    assert_eq!(chan.readchan(), 341);
    assert_eq!(RdsA::from_bytes([0xAB, 0xCD]).rdsa(), 0xABCD);
    let mut d = RdsD::new();
    d.set_rdsd(0x1234);
    assert_eq!(d.into_bytes(), [0x12, 0x34]);
}

#[test]
fn bytes_round_trip() {
    for bytes in [[0x00, 0x00], [0x12, 0x34], [0xFF, 0x01], [0x80, 0xFE]] {
        assert_eq!(SysConfig2::from_bytes(bytes).into_bytes(), bytes);
        assert_eq!(PowerCfg::from_bytes(bytes).into_bytes(), bytes);
    }
}

#[test]
fn enum_bit_patterns() {
    assert_eq!(ChannelSpacing::from_bits(3), None);
    assert_eq!(ChannelSpacing::from_bits(2), Some(ChannelSpacing::KHz50));
    assert_eq!(ChannelSpacing::KHz100.into_bits(), 1);
    assert_eq!(SeekMode::from_bits(1), Some(SeekMode::Stop));
    assert_eq!(SeekState::from_bits(2), None);
    assert_eq!(Gpio3Mode::MonoStereo.into_bits(), 1);
    assert_eq!(Gpio1Mode::from_bits(1), Some(Gpio1Mode::Reserved));
}

#[test]
fn read_reg_idx_positions() {
    assert_eq!(u8::from(ReadRegIdx::StatusRssi), 0);
    assert_eq!(u8::from(ReadRegIdx::DeviceId), 6);
    assert_eq!(u8::from(ReadRegIdx::Test1), 13);
    assert_eq!(ReadRegIdx::BootConfig.index(), 15);
}

#[test]
fn new_registers_are_zero() {
    let regs = Registers::new(ReadRegIdx::SysConfig2);
    assert_eq!(regs.as_bytes(), &[0u8; 32]);
    assert_eq!(regs.get_last_valid_reg(), ReadRegIdx::SysConfig2);
}

#[test]
fn registers_are_in_read_order() {
    let mut regs = Registers::new(ReadRegIdx::BootConfig);
    let mut data = [0u8; 32];
    for (i, b) in data.iter_mut().enumerate() {
        *b = i as u8;
    }
    data[0] = 0x4B;
    data[1] = 0x2A;
    data[14] = 0x12;
    data[15] = 0x53;
    data[16] = 0x40;
    data[17] = 0x01;
    regs.as_bytes_mut().copy_from_slice(&data);
    assert_eq!(regs.status_rssi().rssi(), 42);
    assert_eq!(regs.chip_id().dev(), 9);
    assert!(regs.power_cfg().dmute());
    assert!(regs.power_cfg().enable());
    assert_eq!(regs.channel().into_bytes(), [18, 19]);
    assert_eq!(regs.sys_config1().into_bytes(), [20, 21]);
    assert_eq!(regs.sys_config2().into_bytes(), [22, 23]);
    assert_eq!(regs.sys_config3().into_bytes(), [24, 25]);
    assert_eq!(regs.test1().into_bytes(), [26, 27]);
    assert_eq!(regs.read_chan().into_bytes(), [2, 3]);
    assert_eq!(regs.rdsa_a().rdsa(), 0x0405);
    assert_eq!(regs.rdsa_b().into_bytes(), [6, 7]);
    assert_eq!(regs.rdsa_c().into_bytes(), [8, 9]);
    assert_eq!(regs.rdsa_d().into_bytes(), [10, 11]);
    assert_eq!(regs.device_id().into_bytes(), [12, 13]);
}

#[test]
fn register_write_then_read() {
    let mut regs = Registers::new(ReadRegIdx::BootConfig);
    let mut reg = regs.sys_config2();
    reg.set_volume(9);
    regs.set_sys_config2(reg);
    assert_eq!(regs.sys_config2().volume(), 9);
    let mut expected = [0u8; 32];
    expected[23] = 9;
    assert_eq!(regs.as_bytes(), &expected);

    let mut p = PowerCfg::new();
    p.set_enable(true);
    regs.set_power_cfg(p);
    let mut c = si470x::Channel::new();
    c.set_chan(0x155);
    regs.set_channel(c);
    let mut s1 = SysConfig1::new();
    s1.set_rds(true);
    regs.set_sys_config1(s1);
    let mut s3 = SysConfig3::new();
    s3.set_skcnt(4);
    regs.set_sys_config3(s3);
    let mut t = Test1::new();
    t.set_ahizen(true);
    regs.set_test1(t);
    expected[16] = 0x00;
    expected[17] = 0x01;
    expected[18] = 0x01;
    expected[19] = 0x55;
    expected[20] = 0x10;
    expected[25] = 0x04;
    expected[26] = 0x40;
    assert_eq!(regs.as_bytes(), &expected);
    assert_eq!(regs.get_last_valid_reg(), ReadRegIdx::BootConfig);
}
