//! The two-wire control bus: its pins and the address byte that opens every
//! transaction.

use vstd::prelude::*;
use crate::esp_idf::gpio_num_t;

verus! {

/// Pins of the control bus.
#[derive(Copy, Clone, Debug, PartialEq, Eq, Structural)]
pub struct Pins {
    /// Clock line.
    pub scl: gpio_num_t,
    /// Data line.
    pub sda: gpio_num_t,
}

impl Pins {
    /// The default wiring: clock on pin 23, data on pin 18.
    pub fn new() -> (pins: Pins)
        ensures
            pins == (Pins { scl: 23, sda: 18 }),
    {
        Pins { scl: 23, sda: 18 }
    }
}

/// The first byte of a transaction with the device at the 7-bit `address`:
/// the address in the upper seven bits, the direction in the lowest, set for
/// a read. An eighth address bit does not fit and is dropped.
pub open spec fn address_byte_spec(address: u8, read: bool) -> int {
    (address as int * 2) % 256 + (if read { 1int } else { 0int })
}

/// The first byte of a transaction with the device at the 7-bit `address`.
pub fn address_byte(address: u8, read: bool) -> (byte: u8)
    ensures
        byte == address_byte_spec(address, read),
        address < 128 ==> byte == address * 2 + (if read { 1int } else { 0int }),
{
    let direction: u8 = if read { 1 } else { 0 };
    let byte = (address << 1) | direction;
    assert(byte == (address as int * 2) % 256 + direction as int) by (bit_vector)
        requires
            byte == (address << 1) | direction,
            direction <= 1,
    ;
    byte
}

/// The more significant byte of a 16-bit word.
pub fn msb(word: u16) -> (byte: u8)
    ensures
        byte == word / 256,
{
    let byte = ((word >> 8) & 0x00ff) as u8;
    assert(((word >> 8) & 0x00ff) == word / 256) by (bit_vector);
    byte
}

/// The less significant byte of a 16-bit word.
pub fn lsb(word: u16) -> (byte: u8)
    ensures
        byte == word % 256,
{
    let byte = (word & 0x00ff) as u8;
    assert((word & 0x00ff) == word % 256) by (bit_vector);
    byte
}

/// The 16-bit word made of a more and a less significant byte.
pub fn word(msb: u8, lsb: u8) -> (word: u16)
    ensures
        word == msb * 256 + lsb,
{
    let word = ((msb as u16) << 8) | (lsb as u16);
    assert(word == msb as u16 * 256 + lsb as u16) by (bit_vector)
        requires
            word == ((msb as u16) << 8) | (lsb as u16),
    ;
    word
}

/// Clock of the control bus in Hz.
pub const CLK_SPEED: u32 = 100_000;

/// Configuration of the host as master of the control bus.
#[derive(Copy, Clone, Debug, PartialEq, Eq, Structural)]
pub struct MasterConfig {
    /// Clock pin.
    pub scl_io_num: gpio_num_t,
    /// Data pin.
    pub sda_io_num: gpio_num_t,
    /// Internal pull-up on the clock line.
    pub scl_pullup_en: bool,
    /// Internal pull-up on the data line.
    pub sda_pullup_en: bool,
    /// Clock in Hz.
    pub clk_speed: u32,
}

/// The configuration of the host as master of a bus wired to `pins`, with
/// the internal pull-ups on both lines or on neither.
pub fn master_config(pins: Pins, pullup: bool) -> (config: MasterConfig)
    ensures
        config == (MasterConfig {
            scl_io_num: pins.scl,
            sda_io_num: pins.sda,
            scl_pullup_en: pullup,
            sda_pullup_en: pullup,
            clk_speed: CLK_SPEED,
        }),
{
    MasterConfig {
        scl_io_num: pins.scl,
        sda_io_num: pins.sda,
        scl_pullup_en: pullup,
        sda_pullup_en: pullup,
        clk_speed: CLK_SPEED,
    }
}

/// The bytes of a read of a 16-bit register: after the start condition the
/// three bytes of `select`, after a repeated start the byte `restart`; then
/// the device sends two bytes, most significant first.
#[derive(Copy, Clone, Debug, PartialEq, Eq)]
pub struct ReadFrames {
    /// Address byte for a write, then the register address, most significant
    /// byte first.
    pub select: [u8; 3],
    /// Address byte for a read.
    pub restart: u8,
}

/// The bytes that read the 16-bit `register` of the device at `address`.
pub fn read(address: u8, register: u16) -> (frames: ReadFrames)
    ensures
        frames.select@ == seq![
            address_byte_spec(address, false) as u8,
            (register / 256) as u8,
            (register % 256) as u8,
        ],
        frames.restart == address_byte_spec(address, true),
{
    let select = [address_byte(address, false), msb(register), lsb(register)];
    assert(select@ =~= seq![
        address_byte_spec(address, false) as u8,
        (register / 256) as u8,
        (register % 256) as u8,
    ]);
    ReadFrames { select, restart: address_byte(address, true) }
}

/// The five bytes that store the 16-bit `value` in the 16-bit `register` of
/// the device at `address`: the address byte for a write, the register
/// address and then the value, each most significant byte first.
pub open spec fn write_u16_spec(address: u8, register: u16, value: u16) -> Seq<u8> {
    seq![
        address_byte_spec(address, false) as u8,
        (register / 256) as u8,
        (register % 256) as u8,
        (value / 256) as u8,
        (value % 256) as u8,
    ]
}

/// The five bytes that store the 16-bit `value` in the 16-bit `register` of
/// the device at `address`.
pub fn write_u16(address: u8, register: u16, value: u16) -> (bytes: [u8; 5])
    ensures
        bytes@ == write_u16_spec(address, register, value),
{
    let bytes = [
        address_byte(address, false),
        msb(register),
        lsb(register),
        msb(value),
        lsb(value),
    ];
    assert(bytes@ =~= write_u16_spec(address, register, value));
    bytes
}

} // verus!
