//! Register programming of the WM8731 over the control bus.

use vstd::prelude::*;
use crate::i2c::{address_byte, master_config, MasterConfig, Pins};

verus! {

/// The configuration of the host as master of the control bus: neither line
/// is pulled up internally.
pub fn init(pins: Pins) -> (config: MasterConfig)
    ensures
        config == (MasterConfig {
            scl_io_num: pins.scl,
            sda_io_num: pins.sda,
            scl_pullup_en: false,
            sda_pullup_en: false,
            clk_speed: crate::i2c::CLK_SPEED,
        }),
{
    master_config(pins, false)
}

/// Registers of the chip.
#[allow(non_camel_case_types)]
#[derive(Copy, Clone, Debug, PartialEq, Eq, Structural)]
pub enum Register {
    /// Left line-in volume.
    LINVOL,
    /// Right line-in volume.
    RINVOL,
    /// Left headphone-out volume.
    LOUT1V,
    /// Right headphone-out volume.
    ROUT1V,
    /// Analogue audio path.
    APANA,
    /// Digital audio path.
    APDIGI,
    /// Power down control.
    PWR,
    /// Digital audio interface format.
    IFACE,
    /// Sampling control.
    SRATE,
    /// Active control.
    ACTIVE,
    /// Reset.
    RESET,
}

impl Register {
    /// The 7-bit address of the register.
    pub open spec fn address(self) -> u8 {
        match self {
            Register::LINVOL => 0x00,
            Register::RINVOL => 0x01,
            Register::LOUT1V => 0x02,
            Register::ROUT1V => 0x03,
            Register::APANA => 0x04,
            Register::APDIGI => 0x05,
            Register::PWR => 0x06,
            Register::IFACE => 0x07,
            Register::SRATE => 0x08,
            Register::ACTIVE => 0x09,
            Register::RESET => 0x0F,
        }
    }

    /// The 7-bit address of the register.
    pub fn into(self) -> (address: u8)
        ensures
            address == self.address(),
    {
        match self {
            Register::LINVOL => 0x00,
            Register::RINVOL => 0x01,
            Register::LOUT1V => 0x02,
            Register::ROUT1V => 0x03,
            Register::APANA => 0x04,
            Register::APDIGI => 0x05,
            Register::PWR => 0x06,
            Register::IFACE => 0x07,
            Register::SRATE => 0x08,
            Register::ACTIVE => 0x09,
            Register::RESET => 0x0F,
        }
    }
}

/// The configuration of the chip, in the order in which it must be applied:
/// power down, reset and deactivate first; then the audio paths, power up,
/// the interface format and sampling rate, the volumes; activate last.
pub open spec fn register_config_spec() -> Seq<(Register, u16)> {
    seq![
        (Register::PWR, 0x80u16),
        (Register::RESET, 0x00u16),
        (Register::ACTIVE, 0x00u16),
        (Register::APANA, 0x12u16),
        (Register::APDIGI, 0x00u16),
        (Register::PWR, 0x00u16),
        (Register::IFACE, 0x42u16),
        (Register::SRATE, 0x01u16),
        (Register::LINVOL, 0x17u16),
        (Register::RINVOL, 0x17u16),
        (Register::LOUT1V, 0x7Fu16),
        (Register::ROUT1V, 0x7Fu16),
        (Register::ACTIVE, 0x01u16),
    ]
}

/// The configuration of the chip, in the order in which it must be applied.
pub fn register_config() -> (config: Vec<(Register, u16)>)
    ensures
        config@ == register_config_spec(),
{
    let config = vec![
        (Register::PWR, 0x80u16),
        (Register::RESET, 0x00u16),
        (Register::ACTIVE, 0x00u16),
        (Register::APANA, 0x12u16),
        (Register::APDIGI, 0x00u16),
        (Register::PWR, 0x00u16),
        (Register::IFACE, 0x42u16),
        (Register::SRATE, 0x01u16),
        (Register::LINVOL, 0x17u16),
        (Register::RINVOL, 0x17u16),
        (Register::LOUT1V, 0x7Fu16),
        (Register::ROUT1V, 0x7Fu16),
        (Register::ACTIVE, 0x01u16),
    ];
    assert(config@ =~= register_config_spec());
    config
}

/// The three bytes that store the 9-bit `value` in `register` of the chip at
/// `address`: the address byte for a write, then the register address above
/// the top bit of the value, then the low eight bits of the value.
pub open spec fn frame_spec(address: u8, register: Register, value: u16) -> Seq<u8> {
    seq![
        crate::i2c::address_byte_spec(address, false) as u8,
        (register.address() * 2 + value / 256) as u8,
        (value % 256) as u8,
    ]
}

/// The three bytes that store the 9-bit `value` in `register`.
pub fn frame(address: u8, register: Register, value: u16) -> (bytes: [u8; 3])
    requires
        value < 512,
    ensures
        bytes@ == frame_spec(address, register, value),
{
    let number: u8 = register.into();
    let top = (value >> 8) as u8;
    let byte1: u8 = (number << 1) | top;
    let byte2: u8 = (value & 0xFF) as u8;
    assert(top == value / 256 && byte2 == value % 256) by (bit_vector)
        requires
            value < 512,
            top == (value >> 8) as u8,
            byte2 == (value & 0xFF) as u8,
    ;
    assert(byte1 == number * 2 + top) by (bit_vector)
        requires
            number <= 0x0F,
            top <= 1,
            byte1 == (number << 1) | top,
    ;
    let bytes = [address_byte(address, false), byte1, byte2];
    assert(bytes@ =~= frame_spec(address, register, value));
    bytes
}

/// The frames that configure the chip at `address`, one per entry of the
/// register configuration and in its order.
pub open spec fn configure_spec(address: u8) -> Seq<Seq<u8>> {
    Seq::new(
        register_config_spec().len(),
        |k: int| frame_spec(address, register_config_spec()[k].0, register_config_spec()[k].1),
    )
}

/// The frames that configure the chip at `address`, in the order in which
/// the bus must carry them. Each is one transaction; the firmware lets the
/// chip rest for a tick before the first and after each.
pub fn configure(address: u8) -> (frames: Vec<[u8; 3]>)
    ensures
        frames@.len() == configure_spec(address).len(),
        forall|k: int| 0 <= k < frames@.len() ==> (#[trigger] frames@[k])@ == configure_spec(address)[k],
{
    let config = register_config();
    let mut frames: Vec<[u8; 3]> = Vec::new();
    let mut k: usize = 0;
    while k < config.len()
        invariant
            config@ == register_config_spec(),
            k <= config.len(),
            frames@.len() == k,
            forall|i: int| 0 <= i < k ==> (#[trigger] frames@[i])@ == configure_spec(address)[i],
        decreases config.len() - k,
    {
        let (register, value) = config[k];
        frames.push(frame(address, register, value));
        k += 1;
    }
    frames
}

} // verus!
