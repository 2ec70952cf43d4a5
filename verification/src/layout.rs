//! The exact byte layout the host reads configuration records with.
//!
//! The host and the chip module must agree bit-for-bit on every record. The
//! reference layout is the one a C compiler gives these records on a 64-bit
//! little-endian target: fields in declaration order, pointers and `u64`
//! values as 8 little-endian bytes aligned to 8, `u32` and pin handles as 4
//! little-endian bytes aligned to 4, with zeroed padding where alignment
//! requires it. Pin handles are two's-complement, so the sentinel
//! [`crate::abi::NO_PIN`] survives the trip.
//!
//! For each record this module gives the byte image as a spec function, an
//! encoder and a decoder proved against it, and a lemma that decoding an
//! encoded record reproduces every field.

use crate::abi::PinId;
use crate::records::{I2CConfig, SPIConfig, TimerConfig, UARTConfig, WatchConfig};
use vstd::bytes::{
    lemma_auto_spec_u32_to_from_le_bytes, lemma_auto_spec_u64_to_from_le_bytes,
    spec_u32_from_le_bytes, spec_u32_to_le_bytes, spec_u64_from_le_bytes, spec_u64_to_le_bytes,
    u32_from_le_bytes, u32_to_le_bytes, u64_from_le_bytes, u64_to_le_bytes,
};
use vstd::prelude::*;
use vstd::slice::slice_subrange;

verus! {

/// Size in bytes of an encoded [`WatchConfig`].
pub const WATCH_CONFIG_SIZE: usize = 24;

/// Size in bytes of an encoded [`TimerConfig`].
pub const TIMER_CONFIG_SIZE: usize = 16;

/// Size in bytes of an encoded [`UARTConfig`].
pub const UART_CONFIG_SIZE: usize = 40;

/// Size in bytes of an encoded [`I2CConfig`].
pub const I2C_CONFIG_SIZE: usize = 56;

/// Size in bytes of an encoded [`SPIConfig`].
pub const SPI_CONFIG_SIZE: usize = 32;

/// The unsigned 32-bit two's-complement image of a pin handle.
pub open spec fn spec_pin_bits(pin: PinId) -> u32 {
    if pin >= 0 {
        pin as u32
    } else {
        (pin + 0x1_0000_0000) as u32
    }
}

/// The pin handle whose two's-complement image is `bits`.
pub open spec fn spec_pin_of_bits(bits: u32) -> PinId {
    if bits < 0x8000_0000 {
        bits as i32
    } else {
        (bits - 0x1_0000_0000) as i32
    }
}

/// Taking a handle's two's-complement image and reading it back is the
/// identity, for every handle including the negative sentinel.
pub proof fn lemma_pin_bits_round_trip(pin: PinId)
    ensures
        spec_pin_of_bits(spec_pin_bits(pin)) == pin,
{
}

/// Little-endian byte image of a pin handle.
pub open spec fn spec_pin_to_le_bytes(pin: PinId) -> Seq<u8> {
    spec_u32_to_le_bytes(spec_pin_bits(pin))
}

/// Pin handle read from a little-endian byte image.
pub open spec fn spec_pin_from_le_bytes(bytes: Seq<u8>) -> PinId
    recommends
        bytes.len() == 4,
{
    spec_pin_of_bits(spec_u32_from_le_bytes(bytes))
}

/// Four bytes of alignment padding.
pub open spec fn spec_pad4() -> Seq<u8> {
    seq![0u8, 0u8, 0u8, 0u8]
}

/// Byte image of a [`WatchConfig`]: context, edge selector, padding,
/// callback.
pub open spec fn spec_watch_config_bytes(c: WatchConfig) -> Seq<u8> {
    spec_u64_to_le_bytes(c.user_data) + spec_u32_to_le_bytes(c.edge) + spec_pad4()
        + spec_u64_to_le_bytes(c.pin_change)
}

/// Byte image of a [`TimerConfig`]: context, callback.
pub open spec fn spec_timer_config_bytes(c: TimerConfig) -> Seq<u8> {
    spec_u64_to_le_bytes(c.user_data) + spec_u64_to_le_bytes(c.callback)
}

/// Byte image of a [`UARTConfig`]: context, rx pin, tx pin, baud rate,
/// padding, receive callback, write-done callback.
pub open spec fn spec_uart_config_bytes(c: UARTConfig) -> Seq<u8> {
    spec_u64_to_le_bytes(c.user_data) + spec_pin_to_le_bytes(c.rx) + spec_pin_to_le_bytes(c.tx)
        + spec_u32_to_le_bytes(c.baud_rate) + spec_pad4() + spec_u64_to_le_bytes(c.rx_data)
        + spec_u64_to_le_bytes(c.write_done)
}

/// Byte image of an [`I2CConfig`]: context, target address, clock pin, data
/// pin, padding, and the four lifecycle callbacks.
pub open spec fn spec_i2c_config_bytes(c: I2CConfig) -> Seq<u8> {
    spec_u64_to_le_bytes(c.user_data) + spec_u32_to_le_bytes(c.address)
        + spec_pin_to_le_bytes(c.scl) + spec_pin_to_le_bytes(c.sda) + spec_pad4()
        + spec_u64_to_le_bytes(c.connect) + spec_u64_to_le_bytes(c.read)
        + spec_u64_to_le_bytes(c.write) + spec_u64_to_le_bytes(c.disconnect)
}

/// Byte image of an [`SPIConfig`]: context, the three bus pins, clock mode,
/// completion callback.
pub open spec fn spec_spi_config_bytes(c: SPIConfig) -> Seq<u8> {
    spec_u64_to_le_bytes(c.user_data) + spec_pin_to_le_bytes(c.sck)
        + spec_pin_to_le_bytes(c.mosi) + spec_pin_to_le_bytes(c.miso)
        + spec_u32_to_le_bytes(c.mode) + spec_u64_to_le_bytes(c.done)
}

/// The [`WatchConfig`] read back from a byte image of the right size;
/// padding bytes are ignored, as the host ignores them.
pub open spec fn spec_decode_watch_config(bytes: Seq<u8>) -> Option<WatchConfig> {
    if bytes.len() == WATCH_CONFIG_SIZE {
        Some(
            WatchConfig {
                user_data: spec_u64_from_le_bytes(bytes.subrange(0, 8)),
                edge: spec_u32_from_le_bytes(bytes.subrange(8, 12)),
                pin_change: spec_u64_from_le_bytes(bytes.subrange(16, 24)),
            },
        )
    } else {
        None
    }
}

/// The [`TimerConfig`] read back from a byte image of the right size.
pub open spec fn spec_decode_timer_config(bytes: Seq<u8>) -> Option<TimerConfig> {
    if bytes.len() == TIMER_CONFIG_SIZE {
        Some(
            TimerConfig {
                user_data: spec_u64_from_le_bytes(bytes.subrange(0, 8)),
                callback: spec_u64_from_le_bytes(bytes.subrange(8, 16)),
            },
        )
    } else {
        None
    }
}

/// The [`UARTConfig`] read back from a byte image of the right size.
pub open spec fn spec_decode_uart_config(bytes: Seq<u8>) -> Option<UARTConfig> {
    if bytes.len() == UART_CONFIG_SIZE {
        Some(
            UARTConfig {
                user_data: spec_u64_from_le_bytes(bytes.subrange(0, 8)),
                rx: spec_pin_from_le_bytes(bytes.subrange(8, 12)),
                tx: spec_pin_from_le_bytes(bytes.subrange(12, 16)),
                baud_rate: spec_u32_from_le_bytes(bytes.subrange(16, 20)),
                rx_data: spec_u64_from_le_bytes(bytes.subrange(24, 32)),
                write_done: spec_u64_from_le_bytes(bytes.subrange(32, 40)),
            },
        )
    } else {
        None
    }
}

/// The [`I2CConfig`] read back from a byte image of the right size.
pub open spec fn spec_decode_i2c_config(bytes: Seq<u8>) -> Option<I2CConfig> {
    if bytes.len() == I2C_CONFIG_SIZE {
        Some(
            I2CConfig {
                user_data: spec_u64_from_le_bytes(bytes.subrange(0, 8)),
                address: spec_u32_from_le_bytes(bytes.subrange(8, 12)),
                scl: spec_pin_from_le_bytes(bytes.subrange(12, 16)),
                sda: spec_pin_from_le_bytes(bytes.subrange(16, 20)),
                connect: spec_u64_from_le_bytes(bytes.subrange(24, 32)),
                read: spec_u64_from_le_bytes(bytes.subrange(32, 40)),
                write: spec_u64_from_le_bytes(bytes.subrange(40, 48)),
                disconnect: spec_u64_from_le_bytes(bytes.subrange(48, 56)),
            },
        )
    } else {
        None
    }
}

/// The [`SPIConfig`] read back from a byte image of the right size.
pub open spec fn spec_decode_spi_config(bytes: Seq<u8>) -> Option<SPIConfig> {
    if bytes.len() == SPI_CONFIG_SIZE {
        Some(
            SPIConfig {
                user_data: spec_u64_from_le_bytes(bytes.subrange(0, 8)),
                sck: spec_pin_from_le_bytes(bytes.subrange(8, 12)),
                mosi: spec_pin_from_le_bytes(bytes.subrange(12, 16)),
                miso: spec_pin_from_le_bytes(bytes.subrange(16, 20)),
                mode: spec_u32_from_le_bytes(bytes.subrange(20, 24)),
                done: spec_u64_from_le_bytes(bytes.subrange(24, 32)),
            },
        )
    } else {
        None
    }
}

/// Appends the little-endian image of a `u32` value.
fn push_u32_le(out: &mut Vec<u8>, x: u32)
    ensures
        final(out)@ == old(out)@ + spec_u32_to_le_bytes(x),
{
    let mut bytes = u32_to_le_bytes(x);
    out.append(&mut bytes);
}

/// Appends the little-endian image of a `u64` value.
fn push_u64_le(out: &mut Vec<u8>, x: u64)
    ensures
        final(out)@ == old(out)@ + spec_u64_to_le_bytes(x),
{
    let mut bytes = u64_to_le_bytes(x);
    out.append(&mut bytes);
}

/// Appends the little-endian two's-complement image of a pin handle.
fn push_pin_le(out: &mut Vec<u8>, pin: PinId)
    ensures
        final(out)@ == old(out)@ + spec_pin_to_le_bytes(pin),
{
    let bits: u32 = if pin >= 0 {
        pin as u32
    } else {
        ((pin as i64) + 0x1_0000_0000i64) as u32
    };
    assert(bits == spec_pin_bits(pin));
    push_u32_le(out, bits);
}

/// Appends four bytes of zeroed alignment padding.
fn push_pad4(out: &mut Vec<u8>)
    ensures
        final(out)@ == old(out)@ + spec_pad4(),
{
    out.push(0u8);
    out.push(0u8);
    out.push(0u8);
    out.push(0u8);
    proof {
        assert(out@ =~= old(out)@ + spec_pad4());
    }
}

/// Reads a `u64` value from 8 little-endian bytes of a slice.
fn read_u64_le(bytes: &[u8], start: usize) -> (x: u64)
    requires
        start + 8 <= bytes@.len(),
    ensures
        x == spec_u64_from_le_bytes(bytes@.subrange(start as int, start + 8)),
{
    let len: usize = bytes.len();
    assert(start + 8 <= len);
    u64_from_le_bytes(slice_subrange(bytes, start, start + 8))
}

/// Reads a `u32` value from 4 little-endian bytes of a slice.
fn read_u32_le(bytes: &[u8], start: usize) -> (x: u32)
    requires
        start + 4 <= bytes@.len(),
    ensures
        x == spec_u32_from_le_bytes(bytes@.subrange(start as int, start + 4)),
{
    let len: usize = bytes.len();
    assert(start + 4 <= len);
    u32_from_le_bytes(slice_subrange(bytes, start, start + 4))
}

/// Reads a pin handle from 4 little-endian two's-complement bytes of a slice.
fn read_pin_le(bytes: &[u8], start: usize) -> (pin: PinId)
    requires
        start + 4 <= bytes@.len(),
    ensures
        pin == spec_pin_from_le_bytes(bytes@.subrange(start as int, start + 4)),
{
    let bits: u32 = read_u32_le(bytes, start);
    if bits < 0x8000_0000 {
        bits as i32
    } else {
        ((bits as i64) - 0x1_0000_0000i64) as i32
    }
}

/// Encodes a [`WatchConfig`] into the byte image the host reads.
pub fn encode_watch_config(c: &WatchConfig) -> (bytes: Vec<u8>)
    ensures
        bytes@ == spec_watch_config_bytes(*c),
        bytes@.len() == WATCH_CONFIG_SIZE,
{
    let mut out: Vec<u8> = Vec::new();
    push_u64_le(&mut out, c.user_data);
    push_u32_le(&mut out, c.edge);
    push_pad4(&mut out);
    push_u64_le(&mut out, c.pin_change);
    proof {
        lemma_auto_spec_u64_to_from_le_bytes();
        lemma_auto_spec_u32_to_from_le_bytes();
        assert(out@ =~= spec_watch_config_bytes(*c));
    }
    out
}

/// Encodes a [`TimerConfig`] into the byte image the host reads.
pub fn encode_timer_config(c: &TimerConfig) -> (bytes: Vec<u8>)
    ensures
        bytes@ == spec_timer_config_bytes(*c),
        bytes@.len() == TIMER_CONFIG_SIZE,
{
    let mut out: Vec<u8> = Vec::new();
    push_u64_le(&mut out, c.user_data);
    push_u64_le(&mut out, c.callback);
    proof {
        lemma_auto_spec_u64_to_from_le_bytes();
        assert(out@ =~= spec_timer_config_bytes(*c));
    }
    out
}

/// Encodes a [`UARTConfig`] into the byte image the host reads.
pub fn encode_uart_config(c: &UARTConfig) -> (bytes: Vec<u8>)
    ensures
        bytes@ == spec_uart_config_bytes(*c),
        bytes@.len() == UART_CONFIG_SIZE,
{
    let mut out: Vec<u8> = Vec::new();
    push_u64_le(&mut out, c.user_data);
    push_pin_le(&mut out, c.rx);
    push_pin_le(&mut out, c.tx);
    push_u32_le(&mut out, c.baud_rate);
    push_pad4(&mut out);
    push_u64_le(&mut out, c.rx_data);
    push_u64_le(&mut out, c.write_done);
    proof {
        lemma_auto_spec_u64_to_from_le_bytes();
        lemma_auto_spec_u32_to_from_le_bytes();
        assert(out@ =~= spec_uart_config_bytes(*c));
    }
    out
}

/// Encodes an [`I2CConfig`] into the byte image the host reads.
pub fn encode_i2c_config(c: &I2CConfig) -> (bytes: Vec<u8>)
    ensures
        bytes@ == spec_i2c_config_bytes(*c),
        bytes@.len() == I2C_CONFIG_SIZE,
{
    let mut out: Vec<u8> = Vec::new();
    push_u64_le(&mut out, c.user_data);
    push_u32_le(&mut out, c.address);
    push_pin_le(&mut out, c.scl);
    push_pin_le(&mut out, c.sda);
    push_pad4(&mut out);
    push_u64_le(&mut out, c.connect);
    push_u64_le(&mut out, c.read);
    push_u64_le(&mut out, c.write);
    push_u64_le(&mut out, c.disconnect);
    proof {
        lemma_auto_spec_u64_to_from_le_bytes();
        lemma_auto_spec_u32_to_from_le_bytes();
        assert(out@ =~= spec_i2c_config_bytes(*c));
    }
    out
}

/// Encodes an [`SPIConfig`] into the byte image the host reads.
pub fn encode_spi_config(c: &SPIConfig) -> (bytes: Vec<u8>)
    ensures
        bytes@ == spec_spi_config_bytes(*c),
        bytes@.len() == SPI_CONFIG_SIZE,
{
    let mut out: Vec<u8> = Vec::new();
    push_u64_le(&mut out, c.user_data);
    push_pin_le(&mut out, c.sck);
    push_pin_le(&mut out, c.mosi);
    push_pin_le(&mut out, c.miso);
    push_u32_le(&mut out, c.mode);
    push_u64_le(&mut out, c.done);
    proof {
        lemma_auto_spec_u64_to_from_le_bytes();
        lemma_auto_spec_u32_to_from_le_bytes();
        assert(out@ =~= spec_spi_config_bytes(*c));
    }
    out
}

/// Decodes a [`WatchConfig`] from a byte image; `None` if the size is wrong.
pub fn decode_watch_config(bytes: &[u8]) -> (r: Option<WatchConfig>)
    ensures
        r == spec_decode_watch_config(bytes@),
{
    if bytes.len() != WATCH_CONFIG_SIZE {
        return None;
    }
    Some(
        WatchConfig {
            user_data: read_u64_le(bytes, 0),
            edge: read_u32_le(bytes, 8),
            pin_change: read_u64_le(bytes, 16),
        },
    )
}

/// Decodes a [`TimerConfig`] from a byte image; `None` if the size is wrong.
pub fn decode_timer_config(bytes: &[u8]) -> (r: Option<TimerConfig>)
    ensures
        r == spec_decode_timer_config(bytes@),
{
    if bytes.len() != TIMER_CONFIG_SIZE {
        return None;
    }
    Some(TimerConfig { user_data: read_u64_le(bytes, 0), callback: read_u64_le(bytes, 8) })
}

/// Decodes a [`UARTConfig`] from a byte image; `None` if the size is wrong.
pub fn decode_uart_config(bytes: &[u8]) -> (r: Option<UARTConfig>)
    ensures
        r == spec_decode_uart_config(bytes@),
{
    if bytes.len() != UART_CONFIG_SIZE {
        return None;
    }
    Some(
        UARTConfig {
            user_data: read_u64_le(bytes, 0),
            rx: read_pin_le(bytes, 8),
            tx: read_pin_le(bytes, 12),
            baud_rate: read_u32_le(bytes, 16),
            rx_data: read_u64_le(bytes, 24),
            write_done: read_u64_le(bytes, 32),
        },
    )
}

/// Decodes an [`I2CConfig`] from a byte image; `None` if the size is wrong.
pub fn decode_i2c_config(bytes: &[u8]) -> (r: Option<I2CConfig>)
    ensures
        r == spec_decode_i2c_config(bytes@),
{
    if bytes.len() != I2C_CONFIG_SIZE {
        return None;
    }
    Some(
        I2CConfig {
            user_data: read_u64_le(bytes, 0),
            address: read_u32_le(bytes, 8),
            scl: read_pin_le(bytes, 12),
            sda: read_pin_le(bytes, 16),
            connect: read_u64_le(bytes, 24),
            read: read_u64_le(bytes, 32),
            write: read_u64_le(bytes, 40),
            disconnect: read_u64_le(bytes, 48),
        },
    )
}

/// Decodes an [`SPIConfig`] from a byte image; `None` if the size is wrong.
pub fn decode_spi_config(bytes: &[u8]) -> (r: Option<SPIConfig>)
    ensures
        r == spec_decode_spi_config(bytes@),
{
    if bytes.len() != SPI_CONFIG_SIZE {
        return None;
    }
    Some(
        SPIConfig {
            user_data: read_u64_le(bytes, 0),
            sck: read_pin_le(bytes, 8),
            mosi: read_pin_le(bytes, 12),
            miso: read_pin_le(bytes, 16),
            mode: read_u32_le(bytes, 20),
            done: read_u64_le(bytes, 24),
        },
    )
}

/// Round trip: decoding an encoded [`WatchConfig`] reproduces every field.
pub proof fn lemma_watch_config_round_trip(c: WatchConfig)
    ensures
        spec_watch_config_bytes(c).len() == WATCH_CONFIG_SIZE,
        spec_decode_watch_config(spec_watch_config_bytes(c)) == Some(c),
{
    lemma_auto_spec_u64_to_from_le_bytes();
    lemma_auto_spec_u32_to_from_le_bytes();
    let s = spec_watch_config_bytes(c);
    assert(s.subrange(0, 8) =~= spec_u64_to_le_bytes(c.user_data));
    assert(s.subrange(8, 12) =~= spec_u32_to_le_bytes(c.edge));
    assert(s.subrange(16, 24) =~= spec_u64_to_le_bytes(c.pin_change));
}

/// Round trip: decoding an encoded [`TimerConfig`] reproduces every field.
pub proof fn lemma_timer_config_round_trip(c: TimerConfig)
    ensures
        spec_timer_config_bytes(c).len() == TIMER_CONFIG_SIZE,
        spec_decode_timer_config(spec_timer_config_bytes(c)) == Some(c),
{
    lemma_auto_spec_u64_to_from_le_bytes();
    let s = spec_timer_config_bytes(c);
    assert(s.subrange(0, 8) =~= spec_u64_to_le_bytes(c.user_data));
    assert(s.subrange(8, 16) =~= spec_u64_to_le_bytes(c.callback));
}

/// Round trip: decoding an encoded [`UARTConfig`] reproduces every field.
pub proof fn lemma_uart_config_round_trip(c: UARTConfig)
    ensures
        spec_uart_config_bytes(c).len() == UART_CONFIG_SIZE,
        spec_decode_uart_config(spec_uart_config_bytes(c)) == Some(c),
{
    lemma_auto_spec_u64_to_from_le_bytes();
    lemma_auto_spec_u32_to_from_le_bytes();
    lemma_pin_bits_round_trip(c.rx);
    lemma_pin_bits_round_trip(c.tx);
    let s = spec_uart_config_bytes(c);
    assert(s.subrange(0, 8) =~= spec_u64_to_le_bytes(c.user_data));
    assert(s.subrange(8, 12) =~= spec_pin_to_le_bytes(c.rx));
    assert(s.subrange(12, 16) =~= spec_pin_to_le_bytes(c.tx));
    assert(s.subrange(16, 20) =~= spec_u32_to_le_bytes(c.baud_rate));
    assert(s.subrange(24, 32) =~= spec_u64_to_le_bytes(c.rx_data));
    assert(s.subrange(32, 40) =~= spec_u64_to_le_bytes(c.write_done));
}

/// Round trip: decoding an encoded [`I2CConfig`] reproduces every field.
pub proof fn lemma_i2c_config_round_trip(c: I2CConfig)
    ensures
        spec_i2c_config_bytes(c).len() == I2C_CONFIG_SIZE,
        spec_decode_i2c_config(spec_i2c_config_bytes(c)) == Some(c),
{
    lemma_auto_spec_u64_to_from_le_bytes();
    lemma_auto_spec_u32_to_from_le_bytes();
    lemma_pin_bits_round_trip(c.scl);
    lemma_pin_bits_round_trip(c.sda);
    let s = spec_i2c_config_bytes(c);
    assert(s.subrange(0, 8) =~= spec_u64_to_le_bytes(c.user_data));
    assert(s.subrange(8, 12) =~= spec_u32_to_le_bytes(c.address));
    assert(s.subrange(12, 16) =~= spec_pin_to_le_bytes(c.scl));
    assert(s.subrange(16, 20) =~= spec_pin_to_le_bytes(c.sda));
    assert(s.subrange(24, 32) =~= spec_u64_to_le_bytes(c.connect));
    assert(s.subrange(32, 40) =~= spec_u64_to_le_bytes(c.read));
    assert(s.subrange(40, 48) =~= spec_u64_to_le_bytes(c.write));
    assert(s.subrange(48, 56) =~= spec_u64_to_le_bytes(c.disconnect));
}

/// Round trip: decoding an encoded [`SPIConfig`] reproduces every field.
pub proof fn lemma_spi_config_round_trip(c: SPIConfig)
    ensures
        spec_spi_config_bytes(c).len() == SPI_CONFIG_SIZE,
        spec_decode_spi_config(spec_spi_config_bytes(c)) == Some(c),
{
    lemma_auto_spec_u64_to_from_le_bytes();
    lemma_auto_spec_u32_to_from_le_bytes();
    lemma_pin_bits_round_trip(c.sck);
    lemma_pin_bits_round_trip(c.mosi);
    lemma_pin_bits_round_trip(c.miso);
    let s = spec_spi_config_bytes(c);
    assert(s.subrange(0, 8) =~= spec_u64_to_le_bytes(c.user_data));
    assert(s.subrange(8, 12) =~= spec_pin_to_le_bytes(c.sck));
    assert(s.subrange(12, 16) =~= spec_pin_to_le_bytes(c.mosi));
    assert(s.subrange(16, 20) =~= spec_pin_to_le_bytes(c.miso));
    assert(s.subrange(20, 24) =~= spec_u32_to_le_bytes(c.mode));
    assert(s.subrange(24, 32) =~= spec_u64_to_le_bytes(c.done));
}

} // verus!
