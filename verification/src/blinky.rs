//! Driving a single output pin: the pin configuration, the raw register
//! writes that set it up and switch it, and the cycle-counted busy-wait.

use vstd::prelude::*;
use vstd::arithmetic::power2::pow2;

verus! {

/// Set-bits register that enables pins as outputs.
pub const GPIO_ENABLE_W1TS_REG: u32 = 0x3FF44024;

/// Set-bits register of the output levels.
pub const GPIO_OUT_W1TS_REG: u32 = 0x3FF44008;

/// Clear-bits register of the output levels.
pub const GPIO_OUT_W1TC_REG: u32 = 0x3FF4400C;

/// First of the per-pin output signal selection registers, four bytes apart.
pub const GPIO_FUNCX_OUT_BASE: u32 = 0x3FF44530;

/// Output signal selection value for plain GPIO output.
pub const GPIO_FUNC_OUT_SIMPLE: u32 = 0x100;

/// Direction of a pin.
#[derive(Copy, Clone, Debug, PartialEq, Eq, Structural)]
pub enum GpioMode {
    /// The pin is driven by the chip.
    Output,
}

/// Configuration of a set of pins, as the pin driver takes it.
#[derive(Copy, Clone, Debug, PartialEq, Eq, Structural)]
pub struct GpioConfig {
    /// One bit per configured pin.
    pub pin_bit_mask: u64,
    /// Direction of the pins.
    pub mode: GpioMode,
    /// Internal pull-up resistor.
    pub pull_up_en: bool,
    /// Internal pull-down resistor.
    pub pull_down_en: bool,
    /// Interrupt generation.
    pub intr_enabled: bool,
}

/// One write of a 32-bit value to a memory-mapped register.
#[derive(Copy, Clone, Debug, PartialEq, Eq, Structural)]
pub struct RegisterWrite {
    /// Address of the register.
    pub address: u32,
    /// Value to store.
    pub value: u32,
}

/// The bit that stands for pin `gpio` in a pin mask.
pub open spec fn pin_bit(gpio: u32) -> nat {
    pow2(gpio as nat)
}

proof fn lemma_shl_is_pow2_u32(gpio: u32)
    requires
        gpio < 32,
    ensures
        (1u32 << gpio) == pow2(gpio as nat),
{
    vstd::bits::lemma_u32_pow2_no_overflow(gpio as nat);
    vstd::bits::lemma_u32_shl_is_mul(1u32, gpio);
}

proof fn lemma_shl_is_pow2_u64(gpio: u64)
    requires
        gpio < 64,
    ensures
        (1u64 << gpio) == pow2(gpio as nat),
{
    vstd::bits::lemma_u64_pow2_no_overflow(gpio as nat);
    vstd::bits::lemma_u64_shl_is_mul(1u64, gpio);
}

/// The configuration that makes pin `gpio` a plain output: its bit alone in
/// the mask, no pull resistor, no interrupt.
pub fn configure_pin_as_output(gpio: u32) -> (config: GpioConfig)
    requires
        gpio < 64,
    ensures
        config == (GpioConfig {
            pin_bit_mask: pin_bit(gpio) as u64,
            mode: GpioMode::Output,
            pull_up_en: false,
            pull_down_en: false,
            intr_enabled: false,
        }),
        config.pin_bit_mask == pin_bit(gpio),
{
    proof {
        lemma_shl_is_pow2_u64(gpio as u64);
    }
    GpioConfig {
        pin_bit_mask: 1u64 << (gpio as u64),
        mode: GpioMode::Output,
        pull_up_en: false,
        pull_down_en: false,
        intr_enabled: false,
    }
}

/// The two register writes, in order, that make pin `gpio` a plain output
/// without the pin driver: enable the output, then route the plain output
/// signal to the pin.
pub fn configure_pin_as_output_raw(gpio: u32) -> (writes: [RegisterWrite; 2])
    requires
        gpio < 32,
    ensures
        writes[0] == (RegisterWrite { address: GPIO_ENABLE_W1TS_REG, value: pin_bit(gpio) as u32 }),
        writes[1] == (RegisterWrite {
            address: (GPIO_FUNCX_OUT_BASE + gpio * 4) as u32,
            value: GPIO_FUNC_OUT_SIMPLE,
        }),
        writes[0].value == pin_bit(gpio),
{
    proof {
        lemma_shl_is_pow2_u32(gpio);
    }
    [
        RegisterWrite { address: GPIO_ENABLE_W1TS_REG, value: 1u32 << gpio },
        RegisterWrite { address: GPIO_FUNCX_OUT_BASE + gpio * 4, value: GPIO_FUNC_OUT_SIMPLE },
    ]
}

/// The level that the pin driver is given for `val`.
pub fn set_led(val: bool) -> (level: u32)
    ensures
        level == (if val { 1u32 } else { 0u32 }),
{
    if val {
        1
    } else {
        0
    }
}

/// The register write that switches pin `gpio` without the pin driver: its
/// bit goes to the set-bits register to switch it on and to the clear-bits
/// register to switch it off.
pub fn set_led_raw(gpio: u32, val: bool) -> (write: RegisterWrite)
    requires
        gpio < 32,
    ensures
        write.address == (if val { GPIO_OUT_W1TS_REG } else { GPIO_OUT_W1TC_REG }),
        write.value == pin_bit(gpio),
{
    proof {
        lemma_shl_is_pow2_u32(gpio);
    }
    if val {
        RegisterWrite { address: GPIO_OUT_W1TS_REG, value: 1u32 << gpio }
    } else {
        RegisterWrite { address: GPIO_OUT_W1TC_REG, value: 1u32 << gpio }
    }
}

/// Tells whether a busy-wait of `clocks` cycles that began at cycle count
/// `start` must go on at cycle count `now`: it ends as soon as the count has
/// passed `start + clocks`.
pub fn delay(clocks: u32, start: u32, now: u32) -> (waiting: bool)
    requires
        start + clocks <= u32::MAX,
    ensures
        waiting == (now <= start + clocks),
{
    let target = start + clocks;
    !(now > target)
}

} // verus!
