//! Encoding and decoding of the chip's command frames.
//!
//! Everything here is a pure transformation between field values and bytes.

use crate::bytes::{be_read_u16, le_read_u16, le_write_u32, u16_of, u32_byte};
use crate::device::{
    lemma_levels_follow_pin_bits, pin_bit, CsMode, GpioLevel, GpioLevels, GpioMode, Phase,
    Polarity, SpiClock, SpiDelays, SpiMode, TransferCommand, GPIO_ALL, GPIO_MAX,
};
use vstd::prelude::*;

verus! {

/// Number of bytes of a bulk frame's header.
pub const FRAME_HEADER: usize = 8;

/// Flag byte of the SPI word: phase in bit 5, polarity in bit 4, chip-select
/// pin drive in bit 3, clock code in bits 0 to 2.
pub open spec fn spec_spi_word_flags(clock: SpiClock, spi_mode: SpiMode, cs_pin_mode: GpioMode) -> u8 {
    let phase: u8 = if spi_mode.phase == Phase::CaptureOnSecondTransition {
        1
    } else {
        0
    };
    let polarity: u8 = if spi_mode.polarity == Polarity::IdleHigh {
        1
    } else {
        0
    };
    let drive: u8 = if cs_pin_mode == GpioMode::PushPull {
        1
    } else {
        0
    };
    (phase << 5) | (polarity << 4) | (drive << 3) | clock.spec_code()
}

/// Payload of the command that sets a channel's SPI word.
pub open spec fn spec_spi_word_payload(
    channel: u8,
    clock: SpiClock,
    spi_mode: SpiMode,
    cs_pin_mode: GpioMode,
) -> Seq<u8> {
    seq![channel, spec_spi_word_flags(clock, spi_mode, cs_pin_mode)]
}

/// Payload of the command that sets a channel's delays.
pub open spec fn spec_spi_delay_payload(channel: u8, delays: SpiDelays) -> Seq<u8> {
    seq![channel, delays.mask.bits, delays.inter_byte, delays.post_assert, delays.pre_deassert]
}

/// Payload of the command that sets a channel's chip-select mode.
pub open spec fn spec_chip_select_payload(channel: u8, cs_mode: CsMode) -> Seq<u8> {
    seq![channel, cs_mode.spec_code()]
}

/// Payload of the command that sets a pin's mode and level.
pub open spec fn spec_gpio_mode_level_payload(pin: u8, mode: GpioMode, level: GpioLevel) -> Seq<u8> {
    seq![pin, mode.spec_code(), level.spec_code()]
}

/// Header of a bulk frame: the transfer command at index 2, the payload
/// length in little-endian order at indices 4 to 7, zero elsewhere.
pub open spec fn spec_frame_header(command: TransferCommand, len: u32) -> Seq<u8> {
    seq![
        0u8,
        0u8,
        command.spec_code(),
        0u8,
        u32_byte(len, 0),
        u32_byte(len, 1),
        u32_byte(len, 2),
        u32_byte(len, 3),
    ]
}

/// A bulk frame: the header followed directly by the payload.
pub open spec fn spec_frame(command: TransferCommand, len: u32, payload: Seq<u8>) -> Seq<u8> {
    spec_frame_header(command, len) + payload
}

/// `data` cut or filled with zeros to exactly two bytes.
pub open spec fn two_bytes(data: Seq<u8>) -> (u8, u8) {
    (
        if data.len() > 0 {
            data[0]
        } else {
            0
        },
        if data.len() > 1 {
            data[1]
        } else {
            0
        },
    )
}

/// The version that a response holds: little-endian, missing bytes read as
/// zero.
pub open spec fn spec_decode_version(data: Seq<u8>) -> u16 {
    u16_of(two_bytes(data).1, two_bytes(data).0)
}

/// The pin levels that a response holds: big-endian, missing bytes read as
/// zero, bits that stand for no pin dropped.
pub open spec fn spec_decode_gpio_values(data: Seq<u8>) -> GpioLevels {
    GpioLevels::spec_from_bits_truncate(u16_of(two_bytes(data).0, two_bytes(data).1))
}

/// Computes the flag byte of the SPI word.
pub fn spi_word_flags(clock: SpiClock, spi_mode: SpiMode, cs_pin_mode: GpioMode) -> (flags: u8)
    ensures
        flags == spec_spi_word_flags(clock, spi_mode, cs_pin_mode),
{
    let phase: u8 = match spi_mode.phase {
        Phase::CaptureOnSecondTransition => 1,
        Phase::CaptureOnFirstTransition => 0,
    };
    let polarity: u8 = match spi_mode.polarity {
        Polarity::IdleHigh => 1,
        Polarity::IdleLow => 0,
    };
    let drive: u8 = match cs_pin_mode {
        GpioMode::PushPull => 1,
        _ => 0,
    };
    let code: u8 = clock.code();
    assert(code & 0b0111 == code) by (bit_vector)
        requires
            code <= 5,
    ;
    (phase << 5) | (polarity << 4) | (drive << 3) | (code & 0b0111)
}

/// Builds the payload of the command that sets a channel's SPI word.
pub fn spi_word_payload(
    channel: u8,
    clock: SpiClock,
    spi_mode: SpiMode,
    cs_pin_mode: GpioMode,
) -> (payload: Vec<u8>)
    ensures
        payload@ == spec_spi_word_payload(channel, clock, spi_mode, cs_pin_mode),
{
    let flags = spi_word_flags(clock, spi_mode, cs_pin_mode);
    let payload = vec![channel, flags];
    assert(payload@ =~= spec_spi_word_payload(channel, clock, spi_mode, cs_pin_mode));
    payload
}

/// Builds the payload of the command that sets a channel's delays.
pub fn spi_delay_payload(channel: u8, delays: SpiDelays) -> (payload: Vec<u8>)
    ensures
        payload@ == spec_spi_delay_payload(channel, delays),
{
    let payload = vec![
        channel,
        delays.mask.bits(),
        delays.inter_byte,
        delays.post_assert,
        delays.pre_deassert,
    ];
    assert(payload@ =~= spec_spi_delay_payload(channel, delays));
    payload
}

/// Builds the payload of the command that sets a channel's chip-select mode.
pub fn chip_select_payload(channel: u8, cs_mode: CsMode) -> (payload: Vec<u8>)
    ensures
        payload@ == spec_chip_select_payload(channel, cs_mode),
{
    let payload = vec![channel, cs_mode.code()];
    assert(payload@ =~= spec_chip_select_payload(channel, cs_mode));
    payload
}

/// Builds the payload of the command that sets a pin's mode and level.
pub fn gpio_mode_level_payload(pin: u8, mode: GpioMode, level: GpioLevel) -> (payload: Vec<u8>)
    ensures
        payload@ == spec_gpio_mode_level_payload(pin, mode, level),
{
    let payload = vec![pin, mode.code(), level.code()];
    assert(payload@ =~= spec_gpio_mode_level_payload(pin, mode, level));
    payload
}

/// Builds a bulk frame: the header for `command` and `len`, then `payload`.
pub fn frame(command: TransferCommand, len: u32, payload: &[u8]) -> (frame: Vec<u8>)
    requires
        payload@.len() + FRAME_HEADER <= usize::MAX,
    ensures
        frame@ == spec_frame(command, len, payload@),
{
    let mut frame: Vec<u8> = vec![0u8; 8];
    frame[2] = command.code();
    le_write_u32(&mut frame, 4, len);
    assert(frame@ =~= spec_frame_header(command, len));
    frame.extend_from_slice(payload);
    assert(frame@ =~= spec_frame(command, len, payload@));
    frame
}

/// Cuts or fills `data` to exactly two bytes.
fn first_two(data: &[u8]) -> (buf: Vec<u8>)
    ensures
        buf@.len() == 2,
        (buf@[0], buf@[1]) == two_bytes(data@),
{
    let mut buf: Vec<u8> = vec![0u8; 2];
    if data.len() > 0 {
        buf[0] = data[0];
    }
    if data.len() > 1 {
        buf[1] = data[1];
    }
    buf
}

/// Decodes the chip version from the bytes of a response.
pub fn decode_version(data: &[u8]) -> (version: u16)
    ensures
        version == spec_decode_version(data@),
{
    let buf = first_two(data);
    le_read_u16(buf.as_slice())
}

/// Decodes the pin levels from the bytes of a response.
pub fn decode_gpio_values(data: &[u8]) -> (levels: GpioLevels)
    ensures
        levels == spec_decode_gpio_values(data@),
        levels.wf(),
{
    let buf = first_two(data);
    GpioLevels::from_bits_truncate(be_read_u16(buf.as_slice()))
}

/// The two bytes of a GPIO value answer are one big-endian word, in which
/// each pin is read from its own bit: pins 0 to 4 from bits 3 to 7, pin 5
/// from bit 8 and pins 6 to 10 from bits 10 to 14. Answers that differ in
/// other bits only decode alike.
pub proof fn lemma_gpio_values_decoding(data: Seq<u8>, other: Seq<u8>, pin: u8)
    requires
        data.len() == 2,
        other.len() == 2,
        pin <= GPIO_MAX,
    ensures
        spec_decode_gpio_values(data).spec_is_high(pin) == ((u16_of(data[0], data[1]) >> pin_bit(
            pin,
        )) & 1 == 1),
        u16_of(data[0], data[1]) & GPIO_ALL == u16_of(other[0], other[1]) & GPIO_ALL
            ==> spec_decode_gpio_values(data) == spec_decode_gpio_values(other),
{
    lemma_levels_follow_pin_bits(u16_of(data[0], data[1]), u16_of(other[0], other[1]), pin);
}

} // verus!
