use driver_cp2130::codec::{
    chip_select_payload, decode_gpio_values, decode_version, frame, gpio_mode_level_payload,
    spi_delay_payload, spi_word_flags, spi_word_payload,
};
use driver_cp2130::device::{
    Commands, CsMode, DelayMask, GpioLevel, GpioMode, Phase, Polarity, RequestType, SpiClock,
    SpiConfig, SpiDelays, SpiMode, TransferCommand, PID, VID,
};

fn mode(polarity: Polarity, phase: Phase) -> SpiMode {
    SpiMode { polarity, phase }
}

#[test]
fn spi_word_flags_all_set_at_6mhz() {
    let m = mode(Polarity::IdleHigh, Phase::CaptureOnSecondTransition);
    assert_eq!(
        spi_word_flags(SpiClock::Clock6MHz, m, GpioMode::PushPull),
        0b0011_1001
    );
}

#[test]
fn spi_word_flags_nothing_set_at_12mhz() {
    let m = mode(Polarity::IdleLow, Phase::CaptureOnFirstTransition);
    assert_eq!(spi_word_flags(SpiClock::Clock12Mhz, m, GpioMode::OpenDrain), 0);
    assert_eq!(spi_word_flags(SpiClock::Clock12Mhz, m, GpioMode::Input), 0);
}

#[test]
fn spi_word_flags_each_bit_alone() {
    let idle = mode(Polarity::IdleLow, Phase::CaptureOnFirstTransition);
    let phase = mode(Polarity::IdleLow, Phase::CaptureOnSecondTransition);
    let polarity = mode(Polarity::IdleHigh, Phase::CaptureOnFirstTransition);
    assert_eq!(spi_word_flags(SpiClock::Clock12Mhz, phase, GpioMode::OpenDrain), 1 << 5);
    assert_eq!(spi_word_flags(SpiClock::Clock12Mhz, polarity, GpioMode::OpenDrain), 1 << 4);
    assert_eq!(spi_word_flags(SpiClock::Clock12Mhz, idle, GpioMode::PushPull), 1 << 3);
    assert_eq!(spi_word_flags(SpiClock::Clock375MHz, idle, GpioMode::OpenDrain), 5);
}

#[test]
fn clock_codes_and_frequencies() {
    let clocks = [
        (SpiClock::Clock12Mhz, 0u8, 12_000_000u64),
        (SpiClock::Clock6MHz, 1, 6_000_000),
        (SpiClock::Clock3MHz, 2, 3_000_000),
        (SpiClock::Clock1_5MHz, 3, 1_500_000),
        (SpiClock::Clock750KHz, 4, 750_000),
        (SpiClock::Clock375MHz, 5, 375_000),
    ];
    for (clock, code, freq) in clocks {
        assert_eq!(clock.code(), code);
        assert_eq!(clock.freq(), freq);
    }
}

#[test]
fn spi_word_payload_is_channel_then_flags() {
    let m = mode(Polarity::IdleHigh, Phase::CaptureOnSecondTransition);
    assert_eq!(
        spi_word_payload(1, SpiClock::Clock6MHz, m, GpioMode::PushPull),
        vec![1, 0b0011_1001]
    );
}

#[test]
fn spi_delay_payload_orders_the_delays() {
    let delays = SpiDelays {
        mask: DelayMask::from_bits_truncate(0xFF),
        pre_deassert: 3,
        post_assert: 2,
        inter_byte: 1,
    };
    assert_eq!(spi_delay_payload(4, delays), vec![4, 0x0F, 1, 2, 3]);
}

#[test]
fn chip_select_payload_holds_the_mode_byte() {
    assert_eq!(chip_select_payload(2, CsMode::Disabled), vec![2, 0]);
    assert_eq!(chip_select_payload(2, CsMode::Enabled), vec![2, 1]);
    assert_eq!(chip_select_payload(2, CsMode::Exclusive), vec![2, 2]);
}

#[test]
fn gpio_mode_level_payload_holds_pin_mode_level() {
    assert_eq!(
        gpio_mode_level_payload(6, GpioMode::PushPull, GpioLevel::High),
        vec![6, 2, 1]
    );
    assert_eq!(
        gpio_mode_level_payload(0, GpioMode::Input, GpioLevel::Low),
        vec![0, 0, 0]
    );
    assert_eq!(
        gpio_mode_level_payload(10, GpioMode::OpenDrain, GpioLevel::Low),
        vec![10, 1, 0]
    );
}

#[test]
fn frame_header_holds_little_endian_length() {
    let payload = vec![0xAAu8; 300];
    let f = frame(TransferCommand::Write, 300, &payload);
    assert_eq!(f.len(), 308);
    assert_eq!(&f[..8], &[0, 0, 1, 0, 0x2C, 0x01, 0, 0]);
    assert_eq!(&f[8..], &payload[..]);
}

#[test]
fn frame_length_uses_all_four_bytes() {
    let f = frame(TransferCommand::Read, 0x1234_5678, &[]);
    assert_eq!(f, vec![0, 0, 0, 0, 0x78, 0x56, 0x34, 0x12]);
}

#[test]
fn frame_command_codes() {
    assert_eq!(frame(TransferCommand::Read, 0, &[])[2], 0x00);
    assert_eq!(frame(TransferCommand::Write, 0, &[])[2], 0x01);
    assert_eq!(frame(TransferCommand::WriteRead, 0, &[])[2], 0x02);
    assert_eq!(frame(TransferCommand::ReadWithRTR, 0, &[])[2], 0x04);
}

#[test]
fn version_is_little_endian() {
    assert_eq!(decode_version(&[0x34, 0x12]), 0x1234);
    assert_eq!(decode_version(&[0x01, 0x00]), 1);
}

#[test]
fn version_of_a_short_answer_reads_missing_bytes_as_zero() {
    assert_eq!(decode_version(&[0x34]), 0x0034);
    assert_eq!(decode_version(&[]), 0);
}

#[test]
fn gpio_values_are_big_endian() {
    let levels = decode_gpio_values(&[0x40, 0x08]);
    assert_eq!(levels.bits(), 0x4008);
    assert!(levels.is_high(10));
    assert!(levels.is_high(0));
    assert!(!levels.is_high(5));
    let swapped = decode_gpio_values(&[0x08, 0x40]);
    assert_eq!(swapped.bits(), 0x0840);
    assert!(swapped.is_high(7));
    assert!(swapped.is_high(3));
}

#[test]
fn gpio_values_of_a_short_answer_read_missing_bytes_as_zero() {
    assert_eq!(decode_gpio_values(&[0x40]).bits(), 0x4000);
    assert_eq!(decode_gpio_values(&[]).bits(), 0);
}

#[test]
fn request_type_bytes() {
    assert_eq!(RequestType::vendor_out().bits(), 0b0100_0000);
    assert_eq!(RequestType::vendor_in().bits(), 0b1100_0000);
}

#[test]
fn command_codes() {
    assert_eq!(Commands::GetReadOnlyVersion.code(), 0x11);
    assert_eq!(Commands::ResetDevice.code(), 0x10);
    assert_eq!(Commands::GetGpioValues.code(), 0x20);
    assert_eq!(Commands::SetGpioValues.code(), 0x21);
    assert_eq!(Commands::GetGpioModeAndLevel.code(), 0x22);
    assert_eq!(Commands::SetGpioModeAndLevel.code(), 0x23);
    assert_eq!(Commands::GetGpioChipSelect.code(), 0x24);
    assert_eq!(Commands::SetGpioChipSelect.code(), 0x25);
    assert_eq!(Commands::GetSpiWord.code(), 0x30);
    assert_eq!(Commands::SetSpiWord.code(), 0x31);
    assert_eq!(Commands::GetSpiDelay.code(), 0x32);
    assert_eq!(Commands::SetSpiDelay.code(), 0x33);
    assert_eq!(Commands::GetFullThreshold.code(), 0x34);
    assert_eq!(Commands::SetFullThreshold.code(), 0x35);
    assert_eq!(Commands::GetRtrState.code(), 0x36);
    assert_eq!(Commands::SetRtrStop.code(), 0x37);
    assert_eq!(Commands::GetEventCounter.code(), 0x44);
    assert_eq!(Commands::SetEventCOunter.code(), 0x45);
    assert_eq!(Commands::GetClockDivider.code(), 0x46);
    assert_eq!(Commands::SetClockDivider.code(), 0x47);
}

#[test]
fn mode_level_and_chip_select_codes() {
    assert_eq!(GpioMode::Input.code(), 0);
    assert_eq!(GpioMode::OpenDrain.code(), 1);
    assert_eq!(GpioMode::PushPull.code(), 2);
    assert_eq!(GpioLevel::Low.code(), 0);
    assert_eq!(GpioLevel::High.code(), 1);
    assert_eq!(CsMode::Disabled.code(), 0);
    assert_eq!(CsMode::Enabled.code(), 1);
    assert_eq!(CsMode::Exclusive.code(), 2);
}

#[test]
fn default_ids() {
    assert_eq!(VID, 0x10c4);
    assert_eq!(PID, 0x87a0);
}

#[test]
fn default_spi_config() {
    let config = SpiConfig::default();
    assert_eq!(config.clock, SpiClock::Clock3MHz);
    assert_eq!(config.spi_mode.polarity, Polarity::IdleLow);
    assert_eq!(config.spi_mode.phase, Phase::CaptureOnFirstTransition);
    assert_eq!(config.cs_mode, CsMode::Disabled);
    assert_eq!(config.cs_pin_mode, GpioMode::PushPull);
    assert_eq!(config.delays.mask.bits(), 0);
    assert_eq!(config.delays.pre_deassert, 0);
    assert_eq!(config.delays.post_assert, 0);
    assert_eq!(config.delays.inter_byte, 0);
}

#[test]
fn delay_mask_keeps_four_bits() {
    assert_eq!(DelayMask::empty().bits(), 0);
    assert_eq!(DelayMask::from_bits_truncate(0xF5).bits(), 0x05);
}

#[test]
fn modes_and_levels_from_their_names() {
    assert_eq!("input".parse::<GpioMode>(), Ok(GpioMode::Input));
    assert_eq!("open-drain".parse::<GpioMode>(), Ok(GpioMode::OpenDrain));
    assert_eq!("push-pull".parse::<GpioMode>(), Ok(GpioMode::PushPull));
    assert!("pushpull".parse::<GpioMode>().is_err());
    assert_eq!(GpioMode::parse("Input"), None);
    for word in ["1", "true", "high"] {
        assert_eq!(word.parse::<GpioLevel>(), Ok(GpioLevel::High));
    }
    for word in ["0", "false", "low"] {
        assert_eq!(word.parse::<GpioLevel>(), Ok(GpioLevel::Low));
    }
    assert!("2".parse::<GpioLevel>().is_err());
    assert_eq!(GpioLevel::parse(""), None);
}

#[test]
fn a_word_that_names_nothing_gives_the_message() {
    assert_eq!(
        "pushpull".parse::<GpioMode>(),
        Err(String::from(
            "Unrecognised GPIO mode, try 'input', 'open-drain', or 'push-pull'"
        ))
    );
    assert_eq!(
        "up".parse::<GpioLevel>(),
        Err(String::from("Unrecognised GPIO level, try 'high' or 'low'"))
    );
    assert_eq!("".parse::<GpioMode>().ok(), None);
    assert_eq!("HIGH".parse::<GpioLevel>().ok(), None);
}
