//! Device definitions: wire enumerations, SPI configuration and clocks.

use crate::codec::{
    chip_select_payload, decode_gpio_values, decode_version, gpio_mode_level_payload,
    spec_chip_select_payload, spec_decode_gpio_values, spec_decode_version,
    spec_gpio_mode_level_payload, spec_spi_delay_payload, spec_spi_word_payload,
    spi_delay_payload, spi_word_payload, FRAME_HEADER,
};
use crate::connect::{spec_connect, Connect, Connecting, DeviceDescriptor};
use crate::cp2130::{configure_step_view, spec_spi_configure, Configure, Spi};
use crate::spi::{spec_spi_read, spec_spi_write, spec_spi_write_read, step_view, SpiTransfer};
use crate::usb::{Request, RequestView, Response, Step, UsbError};
use crate::Error;
use vstd::prelude::*;

verus! {

/// Default CP2130 vendor id.
pub const VID: u16 = 0x10c4;

/// Default CP2130 product id.
pub const PID: u16 = 0x87a0;

/// Largest GPIO pin index of the chip.
pub const GPIO_MAX: u8 = 10;

/// Vendor command codes of the chip.
#[derive(Debug, PartialEq, Eq, Structural, Clone, Copy)]
pub enum Commands {
    GetClockDivider,
    GetEventCounter,
    GetFullThreshold,
    GetGpioChipSelect,
    GetGpioModeAndLevel,
    GetGpioValues,
    GetRtrState,
    GetSpiWord,
    GetSpiDelay,
    GetReadOnlyVersion,
    ResetDevice,
    SetClockDivider,
    SetEventCOunter,
    SetFullThreshold,
    SetGpioChipSelect,
    SetGpioModeAndLevel,
    SetGpioValues,
    SetRtrStop,
    SetSpiWord,
    SetSpiDelay,
}

impl Commands {
    /// The command byte sent in the control transfer's request field.
    pub open spec fn spec_code(self) -> u8 {
        match self {
            Commands::GetClockDivider => 0x46,
            Commands::GetEventCounter => 0x44,
            Commands::GetFullThreshold => 0x34,
            Commands::GetGpioChipSelect => 0x24,
            Commands::GetGpioModeAndLevel => 0x22,
            Commands::GetGpioValues => 0x20,
            Commands::GetRtrState => 0x36,
            Commands::GetSpiWord => 0x30,
            Commands::GetSpiDelay => 0x32,
            Commands::GetReadOnlyVersion => 0x11,
            Commands::ResetDevice => 0x10,
            Commands::SetClockDivider => 0x47,
            Commands::SetEventCOunter => 0x45,
            Commands::SetFullThreshold => 0x35,
            Commands::SetGpioChipSelect => 0x25,
            Commands::SetGpioModeAndLevel => 0x23,
            Commands::SetGpioValues => 0x21,
            Commands::SetRtrStop => 0x37,
            Commands::SetSpiWord => 0x31,
            Commands::SetSpiDelay => 0x33,
        }
    }

    /// The command byte sent in the control transfer's request field.
    pub fn code(&self) -> (code: u8)
        ensures
            code == self.spec_code(),
    {
        match self {
            Commands::GetClockDivider => 0x46,
            Commands::GetEventCounter => 0x44,
            Commands::GetFullThreshold => 0x34,
            Commands::GetGpioChipSelect => 0x24,
            Commands::GetGpioModeAndLevel => 0x22,
            Commands::GetGpioValues => 0x20,
            Commands::GetRtrState => 0x36,
            Commands::GetSpiWord => 0x30,
            Commands::GetSpiDelay => 0x32,
            Commands::GetReadOnlyVersion => 0x11,
            Commands::ResetDevice => 0x10,
            Commands::SetClockDivider => 0x47,
            Commands::SetEventCOunter => 0x45,
            Commands::SetFullThreshold => 0x35,
            Commands::SetGpioChipSelect => 0x25,
            Commands::SetGpioModeAndLevel => 0x23,
            Commands::SetGpioValues => 0x21,
            Commands::SetRtrStop => 0x37,
            Commands::SetSpiWord => 0x31,
            Commands::SetSpiDelay => 0x33,
        }
    }
}

/// Request-type byte of a control transfer: direction in bit 7, type in
/// bits 6-5, recipient in bits 1-0.
#[derive(Debug, PartialEq, Eq, Structural, Clone, Copy)]
pub struct RequestType {
    pub bits: u8,
}

pub const HOST_TO_DEVICE: u8 = 0b0000_0000;

pub const DEVICE_TO_HOST: u8 = 0b1000_0000;

pub const TYPE_STANDARD: u8 = 0b0000_0000;

pub const TYPE_CLASS: u8 = 0b0010_0000;

pub const TYPE_VENDOR: u8 = 0b0100_0000;

pub const RECIPIENT_DEVICE: u8 = 0b0000_0000;

pub const RECIPIENT_INTERFACE: u8 = 0b0000_0001;

pub const RECIPIENT_ENDPOINT: u8 = 0b0000_0010;

pub const RECIPIENT_OTHER: u8 = 0b0000_0011;

impl RequestType {
    /// Request type of a vendor command sent to the device.
    pub fn vendor_out() -> (t: RequestType)
        ensures
            t.bits == 0x40,
            t.bits == HOST_TO_DEVICE | TYPE_VENDOR | RECIPIENT_DEVICE,
    {
        assert(0x40u8 == 0u8 | 0x40u8 | 0u8) by (bit_vector);
        RequestType { bits: 0x40 }
    }

    /// Request type of a vendor command answered by the device.
    pub fn vendor_in() -> (t: RequestType)
        ensures
            t.bits == 0xC0,
            t.bits == DEVICE_TO_HOST | TYPE_VENDOR | RECIPIENT_DEVICE,
    {
        assert(0xC0u8 == 0x80u8 | 0x40u8 | 0u8) by (bit_vector);
        RequestType { bits: 0xC0 }
    }

    /// The raw byte.
    pub fn bits(&self) -> (b: u8)
        ensures
            b == self.bits,
    {
        self.bits
    }
}

/// GPIO mode enumeration.
#[derive(Debug, PartialEq, Eq, Structural, Clone, Copy)]
pub enum GpioMode {
    Input,
    OpenDrain,
    PushPull,
}

impl GpioMode {
    /// Wire byte of the mode.
    pub open spec fn spec_code(self) -> u8 {
        match self {
            GpioMode::Input => 0x00,
            GpioMode::OpenDrain => 0x01,
            GpioMode::PushPull => 0x02,
        }
    }

    /// Wire byte of the mode.
    pub fn code(&self) -> (code: u8)
        ensures
            code == self.spec_code(),
    {
        match self {
            GpioMode::Input => 0x00,
            GpioMode::OpenDrain => 0x01,
            GpioMode::PushPull => 0x02,
        }
    }
}

impl GpioMode {
    /// The mode that a word names: `input`, `open-drain` or `push-pull`.
    pub open spec fn spec_parse(word: Seq<char>) -> Option<GpioMode> {
        if word == "input"@ {
            Some(GpioMode::Input)
        } else if word == "open-drain"@ {
            Some(GpioMode::OpenDrain)
        } else if word == "push-pull"@ {
            Some(GpioMode::PushPull)
        } else {
            None
        }
    }

    /// What reading a mode from a word gives: the mode that the word names,
    /// or the message that says which words name one.
    pub open spec fn spec_from_str(word: Seq<char>) -> Result<GpioMode, Seq<char>> {
        match Self::spec_parse(word) {
            Some(mode) => Ok(mode),
            None => Err("Unrecognised GPIO mode, try 'input', 'open-drain', or 'push-pull'"@),
        }
    }

    /// Reads a mode from its name.
    pub fn parse(word: &str) -> (mode: Option<GpioMode>)
        ensures
            mode == Self::spec_parse(word@),
    {
        let word = word.to_owned();
        if word == "input".to_owned() {
            Some(GpioMode::Input)
        } else if word == "open-drain".to_owned() {
            Some(GpioMode::OpenDrain)
        } else if word == "push-pull".to_owned() {
            Some(GpioMode::PushPull)
        } else {
            None
        }
    }
}

impl core::str::FromStr for GpioMode {
    type Err = String;

    fn from_str(s: &str) -> (mode: Result<GpioMode, String>)
        ensures
            match mode {
                Ok(m) => Ok::<GpioMode, Seq<char>>(m),
                Err(message) => Err(message@),
            } == GpioMode::spec_from_str(s@),
    {
        match GpioMode::parse(s) {
            Some(mode) => Ok(mode),
            None => Err(
                "Unrecognised GPIO mode, try 'input', 'open-drain', or 'push-pull'".to_owned(),
            ),
        }
    }
}

/// GPIO level enumeration.
#[derive(Debug, PartialEq, Eq, Structural, Clone, Copy)]
pub enum GpioLevel {
    Low,
    High,
}

impl GpioLevel {
    /// Wire byte of the level.
    pub open spec fn spec_code(self) -> u8 {
        match self {
            GpioLevel::Low => 0x00,
            GpioLevel::High => 0x01,
        }
    }

    /// Wire byte of the level.
    pub fn code(&self) -> (code: u8)
        ensures
            code == self.spec_code(),
    {
        match self {
            GpioLevel::Low => 0x00,
            GpioLevel::High => 0x01,
        }
    }
}

impl GpioLevel {
    /// The level that a word names: `1`, `true` or `high` for high, `0`,
    /// `false` or `low` for low.
    pub open spec fn spec_parse(word: Seq<char>) -> Option<GpioLevel> {
        if word == "1"@ || word == "true"@ || word == "high"@ {
            Some(GpioLevel::High)
        } else if word == "0"@ || word == "false"@ || word == "low"@ {
            Some(GpioLevel::Low)
        } else {
            None
        }
    }

    /// What reading a level from a word gives: the level that the word
    /// names, or the message that says which words name one.
    pub open spec fn spec_from_str(word: Seq<char>) -> Result<GpioLevel, Seq<char>> {
        match Self::spec_parse(word) {
            Some(level) => Ok(level),
            None => Err("Unrecognised GPIO level, try 'high' or 'low'"@),
        }
    }

    /// Reads a level from its name.
    pub fn parse(word: &str) -> (level: Option<GpioLevel>)
        ensures
            level == Self::spec_parse(word@),
    {
        let word = word.to_owned();
        if word == "1".to_owned() || word == "true".to_owned() || word == "high".to_owned() {
            Some(GpioLevel::High)
        } else if word == "0".to_owned() || word == "false".to_owned() || word == "low".to_owned() {
            Some(GpioLevel::Low)
        } else {
            None
        }
    }
}

impl core::str::FromStr for GpioLevel {
    type Err = String;

    fn from_str(s: &str) -> (level: Result<GpioLevel, String>)
        ensures
            match level {
                Ok(l) => Ok::<GpioLevel, Seq<char>>(l),
                Err(message) => Err(message@),
            } == GpioLevel::spec_from_str(s@),
    {
        match GpioLevel::parse(s) {
            Some(level) => Ok(level),
            None => Err("Unrecognised GPIO level, try 'high' or 'low'".to_owned()),
        }
    }
}

/// Transfer command of a bulk frame.
#[derive(Debug, PartialEq, Eq, Structural, Clone, Copy)]
pub enum TransferCommand {
    Read,
    Write,
    WriteRead,
    ReadWithRTR,
}

impl TransferCommand {
    /// Wire byte of the transfer command.
    pub open spec fn spec_code(self) -> u8 {
        match self {
            TransferCommand::Read => 0x00,
            TransferCommand::Write => 0x01,
            TransferCommand::WriteRead => 0x02,
            TransferCommand::ReadWithRTR => 0x04,
        }
    }

    /// Wire byte of the transfer command.
    pub fn code(&self) -> (code: u8)
        ensures
            code == self.spec_code(),
    {
        match self {
            TransferCommand::Read => 0x00,
            TransferCommand::Write => 0x01,
            TransferCommand::WriteRead => 0x02,
            TransferCommand::ReadWithRTR => 0x04,
        }
    }
}

/// Chip select mode.
#[derive(Debug, PartialEq, Eq, Structural, Clone, Copy)]
pub enum CsMode {
    /// Auto chip select is disabled for the specified channel.
    Disabled,
    /// Auto chip select is enabled for the specified channel.
    Enabled,
    /// Auto chip select is enabled for the specified channel,
    /// all other chip selects are disabled.
    Exclusive,
}

impl CsMode {
    /// Wire byte of the chip-select mode.
    pub open spec fn spec_code(self) -> u8 {
        match self {
            CsMode::Disabled => 0x00,
            CsMode::Enabled => 0x01,
            CsMode::Exclusive => 0x02,
        }
    }

    /// Wire byte of the chip-select mode.
    pub fn code(&self) -> (code: u8)
        ensures
            code == self.spec_code(),
    {
        match self {
            CsMode::Disabled => 0x00,
            CsMode::Enabled => 0x01,
            CsMode::Exclusive => 0x02,
        }
    }
}

/// Clock phase of an SPI mode.
#[derive(Debug, PartialEq, Eq, Structural, Clone, Copy)]
pub enum Phase {
    CaptureOnFirstTransition,
    CaptureOnSecondTransition,
}

/// Clock polarity of an SPI mode.
#[derive(Debug, PartialEq, Eq, Structural, Clone, Copy)]
pub enum Polarity {
    IdleLow,
    IdleHigh,
}

/// SPI mode: clock polarity and phase.
#[derive(Debug, PartialEq, Eq, Structural, Clone, Copy)]
pub struct SpiMode {
    pub polarity: Polarity,
    pub phase: Phase,
}

/// The strings of an [`Info`].
pub struct InfoView {
    pub manufacturer: Seq<char>,
    pub product: Seq<char>,
    pub serial: Seq<char>,
}

/// Strings the device reports about itself, read once when connecting and
/// never changed afterwards.
#[derive(Debug, Clone, PartialEq, Eq)]
pub struct Info {
    manufacturer: String,
    product: String,
    serial: String,
}

impl View for Info {
    type V = InfoView;

    closed spec fn view(&self) -> InfoView {
        InfoView {
            manufacturer: self.manufacturer@,
            product: self.product@,
            serial: self.serial@,
        }
    }
}

impl Info {
    /// Puts the three strings together.
    pub fn new(manufacturer: String, product: String, serial: String) -> (info: Info)
        ensures
            info@ == (InfoView { manufacturer: manufacturer@, product: product@, serial: serial@ }),
    {
        Info { manufacturer, product, serial }
    }

    /// The manufacturer string.
    pub fn manufacturer(&self) -> (text: &String)
        ensures
            text@ == self@.manufacturer,
    {
        &self.manufacturer
    }

    /// The product string.
    pub fn product(&self) -> (text: &String)
        ensures
            text@ == self@.product,
    {
        &self.product
    }

    /// The serial number string.
    pub fn serial(&self) -> (text: &String)
        ensures
            text@ == self@.serial,
    {
        &self.serial
    }

    /// A copy with the same strings.
    pub fn copy(&self) -> (info: Info)
        ensures
            info@ == self@,
    {
        Info {
            manufacturer: self.manufacturer.clone(),
            product: self.product.clone(),
            serial: self.serial.clone(),
        }
    }
}

/// SPI clock selection.
#[derive(Debug, PartialEq, Eq, Structural, Clone, Copy)]
pub enum SpiClock {
    Clock12Mhz,
    Clock6MHz,
    Clock3MHz,
    Clock1_5MHz,
    Clock750KHz,
    Clock375MHz,
}

impl SpiClock {
    /// Clock frequency in Hz.
    pub open spec fn spec_freq(self) -> nat {
        match self {
            SpiClock::Clock12Mhz => 12_000_000,
            SpiClock::Clock6MHz => 6_000_000,
            SpiClock::Clock3MHz => 3_000_000,
            SpiClock::Clock1_5MHz => 1_500_000,
            SpiClock::Clock750KHz => 750_000,
            SpiClock::Clock375MHz => 375_000,
        }
    }

    /// The three-bit code that selects this clock in the SPI word.
    pub open spec fn spec_code(self) -> u8 {
        match self {
            SpiClock::Clock12Mhz => 0,
            SpiClock::Clock6MHz => 1,
            SpiClock::Clock3MHz => 2,
            SpiClock::Clock1_5MHz => 3,
            SpiClock::Clock750KHz => 4,
            SpiClock::Clock375MHz => 5,
        }
    }

    /// Microseconds the chip needs to clock `len_bytes` bytes, rounded down.
    pub open spec fn spec_transfer_time(self, len_bytes: nat) -> nat {
        len_bytes * 8 * 1_000_000 / self.spec_freq()
    }

    /// Clock frequency in Hz.
    pub fn freq(&self) -> (hz: u64)
        ensures
            hz == self.spec_freq(),
    {
        match self {
            SpiClock::Clock12Mhz => 12_000_000,
            SpiClock::Clock6MHz => 6_000_000,
            SpiClock::Clock3MHz => 3_000_000,
            SpiClock::Clock1_5MHz => 1_500_000,
            SpiClock::Clock750KHz => 750_000,
            SpiClock::Clock375MHz => 375_000,
        }
    }

    /// Wire code of this clock.
    pub fn code(&self) -> (code: u8)
        ensures
            code == self.spec_code(),
            code <= 5,
    {
        match self {
            SpiClock::Clock12Mhz => 0,
            SpiClock::Clock6MHz => 1,
            SpiClock::Clock3MHz => 2,
            SpiClock::Clock1_5MHz => 3,
            SpiClock::Clock750KHz => 4,
            SpiClock::Clock375MHz => 5,
        }
    }

    /// Estimated duration of a transfer of `len_bytes` bytes, in microseconds.
    pub fn transfer_time(&self, len_bytes: u64) -> (micros: u64)
        requires
            len_bytes * 8_000_000 <= u64::MAX,
        ensures
            micros == self.spec_transfer_time(len_bytes as nat),
    {
        let bits: u64 = len_bytes * 8;
        let scaled: u64 = bits * 1_000_000;
        scaled / self.freq()
    }
}

/// The transfer time grows in step with the length: every three bytes more
/// take exactly the time of three bytes more, at each clock.
pub proof fn lemma_transfer_time_linear(clock: SpiClock, len_bytes: nat, triples: nat)
    ensures
        clock.spec_transfer_time(len_bytes + 3 * triples) == clock.spec_transfer_time(len_bytes)
            + triples * clock.spec_transfer_time(3),
        clock.spec_transfer_time(3 * triples) == triples * clock.spec_transfer_time(3),
        clock.spec_transfer_time(3) * clock.spec_freq() == 24_000_000,
{
    match clock {
        SpiClock::Clock12Mhz => {
            assert(clock.spec_transfer_time(3) == 2);
        },
        SpiClock::Clock6MHz => {
            assert(clock.spec_transfer_time(3) == 4);
        },
        SpiClock::Clock3MHz => {
            assert(clock.spec_transfer_time(3) == 8);
        },
        SpiClock::Clock1_5MHz => {
            assert(clock.spec_transfer_time(3) == 16);
        },
        SpiClock::Clock750KHz => {
            assert(clock.spec_transfer_time(3) == 32);
        },
        SpiClock::Clock375MHz => {
            assert(clock.spec_transfer_time(3) == 64);
        },
    }
}

/// Mask bit of GPIO pin 0 in the value word.
pub const GPIO_0: u16 = 0x0008;

/// Mask bit of GPIO pin 1 in the value word.
pub const GPIO_1: u16 = 0x0010;

/// Mask bit of GPIO pin 2 in the value word.
pub const GPIO_2: u16 = 0x0020;

/// Mask bit of GPIO pin 3 in the value word.
pub const GPIO_3: u16 = 0x0040;

/// Mask bit of GPIO pin 4 in the value word.
pub const GPIO_4: u16 = 0x0080;

/// Mask bit of GPIO pin 5 in the value word.
pub const GPIO_5: u16 = 0x0100;

/// Mask bit of GPIO pin 6 in the value word.
pub const GPIO_6: u16 = 0x0400;

/// Mask bit of GPIO pin 7 in the value word.
pub const GPIO_7: u16 = 0x0800;

/// Mask bit of GPIO pin 8 in the value word.
pub const GPIO_8: u16 = 0x1000;

/// Mask bit of GPIO pin 9 in the value word.
pub const GPIO_9: u16 = 0x2000;

/// Mask bit of GPIO pin 10 in the value word.
pub const GPIO_10: u16 = 0x4000;

/// All bits of the value word that stand for a pin.
pub const GPIO_ALL: u16 = 0x7DF8;

/// Position of a pin's bit in the value word: pins 0 to 4 are bits 3 to 7,
/// pin 5 is bit 8, pins 6 to 10 are bits 10 to 14.
pub open spec fn pin_bit(pin: u8) -> u16
    recommends
        pin <= GPIO_MAX,
{
    if pin <= 4 {
        (pin + 3) as u16
    } else if pin == 5 {
        8
    } else {
        (pin + 4) as u16
    }
}

/// The value word in which only the bit of `pin` is set; zero where the
/// chip has no such pin.
pub open spec fn pin_mask(pin: u8) -> u16 {
    if pin == 0 {
        GPIO_0
    } else if pin == 1 {
        GPIO_1
    } else if pin == 2 {
        GPIO_2
    } else if pin == 3 {
        GPIO_3
    } else if pin == 4 {
        GPIO_4
    } else if pin == 5 {
        GPIO_5
    } else if pin == 6 {
        GPIO_6
    } else if pin == 7 {
        GPIO_7
    } else if pin == 8 {
        GPIO_8
    } else if pin == 9 {
        GPIO_9
    } else if pin == 10 {
        GPIO_10
    } else {
        0
    }
}

/// Levels of all GPIO pins at one instant, as a mask over the value word.
#[derive(Debug, PartialEq, Eq, Structural, Clone, Copy)]
pub struct GpioLevels {
    pub bits: u16,
}

impl GpioLevels {
    /// Whether the mask holds nothing but pin bits.
    pub open spec fn wf(self) -> bool {
        self.bits & !GPIO_ALL == 0
    }

    /// Whether the pin is high in this mask.
    pub open spec fn spec_is_high(self, pin: u8) -> bool {
        self.bits & pin_mask(pin) != 0
    }

    /// The mask made of the pin bits of `bits`.
    pub open spec fn spec_from_bits_truncate(bits: u16) -> GpioLevels {
        GpioLevels { bits: bits & GPIO_ALL }
    }

    /// Keeps the pin bits of `bits` and drops every other bit.
    pub fn from_bits_truncate(bits: u16) -> (levels: GpioLevels)
        ensures
            levels == Self::spec_from_bits_truncate(bits),
            levels.wf(),
    {
        let kept: u16 = bits & GPIO_ALL;
        assert(kept & !0x7DF8u16 == 0) by (bit_vector)
            requires
                kept == bits & 0x7DF8u16,
        ;
        GpioLevels { bits: kept }
    }

    /// The raw mask.
    pub fn bits(&self) -> (b: u16)
        ensures
            b == self.bits,
    {
        self.bits
    }

    /// Whether every bit of `other` is set in `self`.
    pub fn contains(&self, other: GpioLevels) -> (all: bool)
        ensures
            all == (self.bits & other.bits == other.bits),
    {
        self.bits & other.bits == other.bits
    }

    /// The mask of a single pin.
    pub fn pin(pin: u8) -> (levels: GpioLevels)
        requires
            pin <= GPIO_MAX,
        ensures
            levels.bits == pin_mask(pin),
            levels.bits == 1u16 << pin_bit(pin),
    {
        proof {
            lemma_pin_mask_is_bit(pin);
        }
        let bits: u16 = if pin == 0 {
            GPIO_0
        } else if pin == 1 {
            GPIO_1
        } else if pin == 2 {
            GPIO_2
        } else if pin == 3 {
            GPIO_3
        } else if pin == 4 {
            GPIO_4
        } else if pin == 5 {
            GPIO_5
        } else if pin == 6 {
            GPIO_6
        } else if pin == 7 {
            GPIO_7
        } else if pin == 8 {
            GPIO_8
        } else if pin == 9 {
            GPIO_9
        } else {
            GPIO_10
        };
        GpioLevels { bits }
    }

    /// Whether the pin is high in this mask.
    pub fn is_high(&self, pin: u8) -> (high: bool)
        requires
            pin <= GPIO_MAX,
        ensures
            high == self.spec_is_high(pin),
    {
        let mask = Self::pin(pin);
        proof {
            lemma_pin_mask_is_bit(pin);
            let b = self.bits;
            let m = mask.bits;
            let k = pin_bit(pin);
            assert((b & m == m) == (b & m != 0)) by (bit_vector)
                requires
                    m == 1u16 << k,
                    k < 16,
            ;
        }
        self.contains(mask)
    }
}

/// The mask of each pin is the single bit at the pin's position.
pub proof fn lemma_pin_mask_is_bit(pin: u8)
    requires
        pin <= GPIO_MAX,
    ensures
        pin_mask(pin) == 1u16 << pin_bit(pin),
        pin_bit(pin) < 16,
        pin_mask(pin) & GPIO_ALL == pin_mask(pin),
{
    assert(1u16 << 3u16 == 0x0008 && 1u16 << 4u16 == 0x0010 && 1u16 << 5u16 == 0x0020 && 1u16
        << 6u16 == 0x0040 && 1u16 << 7u16 == 0x0080 && 1u16 << 8u16 == 0x0100 && 1u16 << 10u16
        == 0x0400 && 1u16 << 11u16 == 0x0800 && 1u16 << 12u16 == 0x1000 && 1u16 << 13u16 == 0x2000
        && 1u16 << 14u16 == 0x4000) by (bit_vector);
    assert(0x0008u16 & 0x7DF8 == 0x0008 && 0x0010u16 & 0x7DF8 == 0x0010 && 0x0020u16 & 0x7DF8
        == 0x0020 && 0x0040u16 & 0x7DF8 == 0x0040 && 0x0080u16 & 0x7DF8 == 0x0080 && 0x0100u16
        & 0x7DF8 == 0x0100 && 0x0400u16 & 0x7DF8 == 0x0400 && 0x0800u16 & 0x7DF8 == 0x0800
        && 0x1000u16 & 0x7DF8 == 0x1000 && 0x2000u16 & 0x7DF8 == 0x2000 && 0x4000u16 & 0x7DF8
        == 0x4000) by (bit_vector);
}

/// Decoding a value word reads each pin from its own bit and from nothing
/// else: pin `p` is high exactly when bit `pin_bit(p)` of the word is set,
/// and two words that agree on the eleven pin bits decode alike.
pub proof fn lemma_levels_follow_pin_bits(word: u16, other: u16, pin: u8)
    requires
        pin <= GPIO_MAX,
    ensures
        GpioLevels::spec_from_bits_truncate(word).spec_is_high(pin) == ((word >> pin_bit(pin)) & 1
            == 1),
        word & GPIO_ALL == other & GPIO_ALL ==> GpioLevels::spec_from_bits_truncate(word)
            == GpioLevels::spec_from_bits_truncate(other),
{
    lemma_pin_mask_is_bit(pin);
    let k = pin_bit(pin);
    let m = pin_mask(pin);
    assert(((word & 0x7DF8u16) & m != 0) == ((word >> k) & 1 == 1)) by (bit_vector)
        requires
            m == 1u16 << k,
            k < 16,
            m & 0x7DF8u16 == m,
    ;
}

/// Clock polarity bit of a clock that captures on the trailing edge.
pub const CPOL_TRAILING: u8 = 0;

/// Mask bit of the chip-select toggle delay.
pub const CS_TOGGLE: u8 = 0x08;

/// Mask bit of the delay before chip select is released.
pub const PRE_DEASSERT: u8 = 0x04;

/// Mask bit of the delay after chip select is asserted.
pub const POST_ASSERT: u8 = 0x02;

/// Mask bit of the delay between bytes.
pub const INTER_BYE: u8 = 0x01;

/// All bits of the delay mask.
pub const DELAY_ALL: u8 = 0x0F;

/// Selects which SPI delays are active.
#[derive(Debug, PartialEq, Eq, Structural, Clone, Copy)]
pub struct DelayMask {
    pub bits: u8,
}

impl DelayMask {
    /// The mask with no delay active.
    pub fn empty() -> (mask: DelayMask)
        ensures
            mask.bits == 0,
    {
        DelayMask { bits: 0 }
    }

    /// Keeps the four delay bits of `bits` and drops every other bit.
    pub fn from_bits_truncate(bits: u8) -> (mask: DelayMask)
        ensures
            mask.bits == bits & DELAY_ALL,
    {
        DelayMask { bits: bits & DELAY_ALL }
    }

    /// The raw mask.
    pub fn bits(&self) -> (b: u8)
        ensures
            b == self.bits,
    {
        self.bits
    }
}

/// SPI delay configuration: the active delays and their lengths.
#[derive(Debug, PartialEq, Eq, Structural, Clone, Copy)]
pub struct SpiDelays {
    pub mask: DelayMask,
    pub pre_deassert: u8,
    pub post_assert: u8,
    pub inter_byte: u8,
}

/// Configuration of one SPI channel.
#[derive(Debug, PartialEq, Eq, Structural, Clone, Copy)]
pub struct SpiConfig {
    pub clock: SpiClock,
    pub spi_mode: SpiMode,
    pub cs_mode: CsMode,
    pub cs_pin_mode: GpioMode,
    pub delays: SpiDelays,
}

impl SpiConfig {
    /// The configuration used where none is given: 3 MHz, mode 0, automatic
    /// chip select off, push-pull chip-select pin, no delays.
    pub open spec fn spec_default() -> SpiConfig {
        SpiConfig {
            clock: SpiClock::Clock3MHz,
            spi_mode: SpiMode {
                polarity: Polarity::IdleLow,
                phase: Phase::CaptureOnFirstTransition,
            },
            cs_mode: CsMode::Disabled,
            cs_pin_mode: GpioMode::PushPull,
            delays: SpiDelays {
                mask: DelayMask { bits: 0 },
                pre_deassert: 0,
                post_assert: 0,
                inter_byte: 0,
            },
        }
    }
}

impl Default for SpiConfig {
    fn default() -> (config: SpiConfig)
        ensures
            config == SpiConfig::spec_default(),
    {
        SpiConfig {
            clock: SpiClock::Clock3MHz,
            spi_mode: SpiMode {
                polarity: Polarity::IdleLow,
                phase: Phase::CaptureOnFirstTransition,
            },
            cs_mode: CsMode::Disabled,
            cs_pin_mode: GpioMode::PushPull,
            delays: SpiDelays {
                mask: DelayMask::empty(),
                pre_deassert: 0,
                post_assert: 0,
                inter_byte: 0,
            },
        }
    }
}

/// One USB endpoint of the device.
#[derive(Debug, PartialEq, Eq, Structural, Clone, Copy)]
pub struct Endpoint {
    pub config: u8,
    pub iface: u8,
    pub setting: u8,
    pub address: u8,
}

/// The endpoints the driver talks to.
#[derive(Debug, PartialEq, Eq, Structural, Clone, Copy)]
pub struct Endpoints {
    pub control: Endpoint,
    pub read: Endpoint,
    pub write: Endpoint,
}

/// The control write that carries `command` and `data`.
pub open spec fn control_write(command: Commands, data: Seq<u8>) -> RequestView {
    RequestView::ControlWrite { request_type: 0x40, request: command.spec_code(), data }
}

/// The control read that carries `command` and asks for `len` bytes.
pub open spec fn control_read(command: Commands, len: nat) -> RequestView {
    RequestView::ControlRead { request_type: 0xC0, request: command.spec_code(), len }
}

/// The request that sets a pin's mode and level, where the chip has the pin.
pub open spec fn spec_set_gpio_mode_level(pin: u8, mode: GpioMode, level: GpioLevel) -> Result<
    RequestView,
    Error,
> {
    if pin <= GPIO_MAX {
        Ok(control_write(Commands::SetGpioModeAndLevel, spec_gpio_mode_level_payload(pin, mode, level)))
    } else {
        Err(Error::InvalidIndex)
    }
}

/// What an answer of at most two bytes decodes to under `decode`.
pub open spec fn spec_read_word<T>(response: Response, decode: spec_fn(Seq<u8>) -> T) -> Result<
    T,
    Error,
> {
    match response {
        Err(e) => Err(Error::Usb(e)),
        Ok(data) => if data@.len() > 2 {
            Err(Error::Usb(UsbError::Overflow))
        } else {
            Ok(decode(data@))
        },
    }
}

/// The chip version that an answer holds.
pub open spec fn spec_version(response: Response) -> Result<u16, Error> {
    spec_read_word(response, |data: Seq<u8>| spec_decode_version(data))
}

/// The pin levels that an answer holds.
pub open spec fn spec_get_gpio_values(response: Response) -> Result<GpioLevels, Error> {
    spec_read_word(response, |data: Seq<u8>| spec_decode_gpio_values(data))
}

/// The level of one pin that an answer holds.
pub open spec fn spec_get_gpio_level(pin: u8, response: Response) -> Result<bool, Error> {
    if pin > GPIO_MAX {
        Err(Error::InvalidIndex)
    } else {
        match spec_get_gpio_values(response) {
            Ok(levels) => Ok(levels.spec_is_high(pin)),
            Err(e) => Err(e),
        }
    }
}

/// Builds the request that sets a pin's mode and level.
pub(crate) fn mode_level_request(pin: u8, mode: GpioMode, level: GpioLevel) -> (request: Request)
    ensures
        request@ == control_write(
            Commands::SetGpioModeAndLevel,
            spec_gpio_mode_level_payload(pin, mode, level),
        ),
{
    Request::ControlWrite {
        request_type: RequestType::vendor_out().bits(),
        request: Commands::SetGpioModeAndLevel.code(),
        data: gpio_mode_level_payload(pin, mode, level),
    }
}

/// State of one connected chip: its endpoints, which pins are claimed and the
/// SPI clock last applied.
pub struct Inner {
    endpoints: Endpoints,
    gpio_allocated: [bool; 11],
    spi_clock: SpiClock,
}

impl Inner {
    /// Whether the pin is claimed; no pin beyond the chip's last one is.
    pub closed spec fn allocated(self, pin: u8) -> bool {
        pin <= GPIO_MAX && self.gpio_allocated@[pin as int]
    }

    /// The SPI clock last applied to the chip.
    pub closed spec fn clock(self) -> SpiClock {
        self.spi_clock
    }

    /// The endpoints of the chip.
    pub closed spec fn ends(self) -> Endpoints {
        self.endpoints
    }

    /// Starts the connection to the device with the given descriptor. The
    /// connection yields the state of the chip and what it reported about
    /// itself.
    pub fn new(descriptor: &DeviceDescriptor) -> (step: Connecting)
        ensures
            step@ == spec_connect(*descriptor),
    {
        Connect::begin(descriptor)
    }

    /// The state of a chip that was just connected: no pin claimed, the
    /// clock at 12 MHz.
    pub fn with_endpoints(endpoints: Endpoints) -> (inner: Inner)
        ensures
            inner.ends() == endpoints,
            inner.clock() == SpiClock::Clock12Mhz,
            forall|pin: u8| !inner.allocated(pin),
    {
        Inner { endpoints, gpio_allocated: [false; 11], spi_clock: SpiClock::Clock12Mhz }
    }

    /// The endpoints of the chip.
    pub fn endpoints(&self) -> (endpoints: Endpoints)
        ensures
            endpoints == self.ends(),
    {
        self.endpoints
    }

    /// The SPI clock last applied to the chip.
    pub fn spi_clock(&self) -> (clock: SpiClock)
        ensures
            clock == self.clock(),
    {
        self.spi_clock
    }

    /// Whether the pin is claimed.
    pub fn is_allocated(&self, pin: u8) -> (claimed: bool)
        ensures
            claimed == self.allocated(pin),
    {
        if pin > GPIO_MAX {
            false
        } else {
            self.gpio_allocated[pin as usize]
        }
    }

    /// Marks the pin as claimed.
    pub(crate) fn allocate(&mut self, pin: u8)
        requires
            pin <= GPIO_MAX,
        ensures
            final(self).ends() == old(self).ends(),
            final(self).clock() == old(self).clock(),
            forall|other: u8| final(self).allocated(other) == (other == pin || old(self).allocated(other)),
    {
        self.gpio_allocated[pin as usize] = true;
    }

    /// Records the clock that the chip accepted.
    pub(crate) fn record_clock(&mut self, clock: SpiClock)
        ensures
            final(self).ends() == old(self).ends(),
            final(self).clock() == clock,
            forall|pin: u8| final(self).allocated(pin) == old(self).allocated(pin),
    {
        self.spi_clock = clock;
    }

    /// The request that resets the chip.
    pub fn reset(&self) -> (request: Request)
        ensures
            request@ == control_write(Commands::ResetDevice, Seq::empty()),
    {
        Request::ControlWrite {
            request_type: RequestType::vendor_out().bits(),
            request: Commands::ResetDevice.code(),
            data: Vec::new(),
        }
    }

    /// Starts the configuration of a channel: the SPI word, the chip-select
    /// mode and the delays are set in this order.
    pub fn spi_configure(&self, channel: u8, config: SpiConfig) -> (step: Step<Configure, Spi>)
        ensures
            configure_step_view(step) == spec_spi_configure(channel, config),
    {
        Configure::begin(self, channel, config, None)
    }

    /// The request that sets a channel's clock, mode and chip-select pin
    /// drive.
    pub fn set_spi_word(
        &self,
        channel: u8,
        clock: SpiClock,
        spi_mode: SpiMode,
        cs_pin_mode: GpioMode,
    ) -> (request: Request)
        ensures
            request@ == control_write(
                Commands::SetSpiWord,
                spec_spi_word_payload(channel, clock, spi_mode, cs_pin_mode),
            ),
    {
        Request::ControlWrite {
            request_type: RequestType::vendor_out().bits(),
            request: Commands::SetSpiWord.code(),
            data: spi_word_payload(channel, clock, spi_mode, cs_pin_mode),
        }
    }

    /// The request that sets a channel's delays.
    pub fn set_spi_delay(&self, channel: u8, delays: SpiDelays) -> (request: Request)
        ensures
            request@ == control_write(Commands::SetSpiDelay, spec_spi_delay_payload(channel, delays)),
    {
        Request::ControlWrite {
            request_type: RequestType::vendor_out().bits(),
            request: Commands::SetSpiDelay.code(),
            data: spi_delay_payload(channel, delays),
        }
    }

    /// The request that sets a channel's chip-select mode.
    pub fn set_gpio_chip_select(&self, channel: u8, cs_mode: CsMode) -> (request: Request)
        ensures
            request@ == control_write(
                Commands::SetGpioChipSelect,
                spec_chip_select_payload(channel, cs_mode),
            ),
    {
        Request::ControlWrite {
            request_type: RequestType::vendor_out().bits(),
            request: Commands::SetGpioChipSelect.code(),
            data: chip_select_payload(channel, cs_mode),
        }
    }

    /// The request that sets the mode and level of a pin; `InvalidIndex` for
    /// a pin the chip does not have.
    pub fn set_gpio_mode_level(&self, pin: u8, mode: GpioMode, level: GpioLevel) -> (request: Result<
        Request,
        Error,
    >)
        ensures
            match request {
                Ok(r) => Ok::<RequestView, Error>(r@),
                Err(e) => Err(e),
            } == spec_set_gpio_mode_level(pin, mode, level),
    {
        if pin > GPIO_MAX {
            return Err(Error::InvalidIndex);
        }
        Ok(mode_level_request(pin, mode, level))
    }

    /// The request that asks for the chip version.
    pub fn version_request(&self) -> (request: Request)
        ensures
            request@ == control_read(Commands::GetReadOnlyVersion, 2),
    {
        Request::ControlRead {
            request_type: RequestType::vendor_in().bits(),
            request: Commands::GetReadOnlyVersion.code(),
            len: 2,
        }
    }

    /// The chip version in the answer to [`Inner::version_request`].
    pub fn version(response: &Response) -> (version: Result<u16, Error>)
        ensures
            version == spec_version(*response),
    {
        match response {
            Err(e) => Err(Error::Usb(*e)),
            Ok(data) => {
                if data.len() > 2 {
                    Err(Error::Usb(UsbError::Overflow))
                } else {
                    Ok(decode_version(data.as_slice()))
                }
            },
        }
    }

    /// The request that asks for the levels of all pins.
    pub fn gpio_values_request(&self) -> (request: Request)
        ensures
            request@ == control_read(Commands::GetGpioValues, 2),
    {
        Request::ControlRead {
            request_type: RequestType::vendor_in().bits(),
            request: Commands::GetGpioValues.code(),
            len: 2,
        }
    }

    /// The levels of all pins in the answer to
    /// [`Inner::gpio_values_request`].
    pub fn get_gpio_values(response: &Response) -> (levels: Result<GpioLevels, Error>)
        ensures
            levels == spec_get_gpio_values(*response),
            levels is Ok ==> levels->Ok_0.wf(),
    {
        match response {
            Err(e) => Err(Error::Usb(*e)),
            Ok(data) => {
                if data.len() > 2 {
                    Err(Error::Usb(UsbError::Overflow))
                } else {
                    Ok(decode_gpio_values(data.as_slice()))
                }
            },
        }
    }

    /// The level of one pin in the answer to [`Inner::gpio_values_request`];
    /// `InvalidIndex` for a pin the chip does not have, whatever the answer.
    pub fn get_gpio_level(pin: u8, response: &Response) -> (level: Result<bool, Error>)
        ensures
            level == spec_get_gpio_level(pin, *response),
    {
        if pin > GPIO_MAX {
            return Err(Error::InvalidIndex);
        }
        match Self::get_gpio_values(response) {
            Ok(levels) => Ok(levels.is_high(pin)),
            Err(e) => Err(e),
        }
    }

    /// Starts a read of `len` bytes from the SPI device.
    pub fn spi_read(&self, len: usize) -> (step: Step<SpiTransfer, Vec<u8>>)
        requires
            len <= u32::MAX,
        ensures
            step_view(step) == spec_spi_read(self.ends(), self.clock(), len as nat),
    {
        SpiTransfer::read(&self.endpoints, self.spi_clock, len)
    }

    /// Starts a write of `data` to the SPI device.
    pub fn spi_write(&self, data: &[u8]) -> (step: Step<SpiTransfer, Vec<u8>>)
        requires
            data@.len() <= u32::MAX,
            data@.len() + FRAME_HEADER <= usize::MAX,
        ensures
            step_view(step) == spec_spi_write(self.ends(), self.clock(), data@),
    {
        SpiTransfer::write(&self.endpoints, self.spi_clock, data)
    }

    /// Starts a transfer that writes `data` to the SPI device and reads
    /// `len` bytes back.
    pub fn spi_write_read(&self, data: &[u8], len: usize) -> (step: Step<SpiTransfer, Vec<u8>>)
        requires
            data@.len() <= u32::MAX,
            data@.len() + FRAME_HEADER <= usize::MAX,
        ensures
            step_view(step) == spec_spi_write_read(self.ends(), self.clock(), data@, len as nat),
    {
        SpiTransfer::write_read(&self.endpoints, self.spi_clock, data, len)
    }
}

} // verus!
