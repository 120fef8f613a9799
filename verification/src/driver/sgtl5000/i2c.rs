//! Register programming of the SGTL5000 over the control bus: the frames of
//! a register read and write, the read-modify-write of a bit field, and the
//! configuration of the chip as a sequence of bus transfers that is decided
//! one transfer at a time from the outcome of the one before.

use vstd::prelude::*;
use crate::esp_idf::{EspError, ESP_ERR_INVALID_RESPONSE};
use crate::i2c::{
    address_byte_spec,
    master_config,
    word,
    write_u16,
    write_u16_spec,
    MasterConfig,
    Pins,
    ReadFrames,
};

verus! {

/// Registers of the chip.
#[allow(non_camel_case_types)]
#[derive(Copy, Clone, Debug, PartialEq, Eq, Structural)]
pub enum Register {
    /// Chip identification.
    CHIP_ID,
    /// Digital power control.
    CHIP_DIG_POWER,
    /// Clock control.
    CHIP_CLK_CTRL,
    /// Serial audio port control.
    CHIP_I2S_CTRL,
    /// Signal routing.
    CHIP_SSS_CTRL,
    /// Converter control.
    CHIP_ADCDAC_CTRL,
    /// Digital-to-analog converter volume.
    CHIP_DAC_VOL,
    /// Pad drive strength.
    CHIP_PAD_STRENGTH,
    /// Analog-to-digital converter input level.
    CHIP_ANA_ADC_CTRL,
    /// Headphone volume.
    CHIP_ANA_HP_CTRL,
    /// Analog control.
    CHIP_ANA_CTRL,
    /// Linear regulator control.
    CHIP_LINREG_CTRL,
    /// Reference voltage control.
    CHIP_REF_CTRL,
    /// Microphone control.
    CHIP_MIC_CTRL,
    /// Line-out control.
    CHIP_LINE_OUT_CTRL,
    /// Line-out volume.
    CHIP_LINE_OUT_VOL,
    /// Analog power control.
    CHIP_ANA_POWER,
    /// Phase-locked loop control.
    CHIP_PLL_CTRL,
    /// Top-level clock control.
    CHIP_CLK_TOP_CTRL,
    /// Analog status.
    CHIP_ANA_STATUS,
    /// Analog test, first register.
    CHIP_ANA_TEST1,
    /// Analog test, second register.
    CHIP_ANA_TEST2,
    /// Short-circuit control.
    CHIP_SHORT_CTRL,
    /// Audio processor control.
    DAP_CTRL,
    /// Parametric equaliser.
    DAP_PEQ,
    /// Bass enhancement.
    DAP_BASS_ENHANCE,
    /// Bass enhancement control.
    DAP_BASS_ENHANCE_CTRL,
    /// Equaliser selection.
    DAP_AUDIO_EQ,
    /// Surround control.
    DAP_SGTL_SURROUND,
    /// Filter coefficient access.
    DAP_FILTER_COEF_ACCESS,
    /// Filter coefficient B0, upper bits.
    DAP_COEF_WR_B0_MSB,
    /// Filter coefficient B0, lower bits.
    DAP_COEF_WR_B0_LSB,
    /// Equaliser band 0, bass.
    DAP_AUDIO_EQ_BASS_BAND0,
    /// Equaliser band 1.
    DAP_AUDIO_EQ_BAND1,
    /// Equaliser band 2.
    DAP_AUDIO_EQ_BAND2,
    /// Equaliser band 3.
    DAP_AUDIO_EQ_BAND3,
    /// Equaliser band 4, treble.
    DAP_AUDIO_EQ_TREBLE_BAND4,
    /// Main channel volume.
    DAP_MAIN_CHAN,
    /// Mix channel volume.
    DAP_MIX_CHAN,
    /// Automatic volume control.
    DAP_AVC_CTRL,
    /// Automatic volume control threshold.
    DAP_AVC_THRESHOLD,
    /// Automatic volume control attack rate.
    DAP_AVC_ATTACK,
    /// Automatic volume control decay rate.
    DAP_AVC_DECAY,
    /// Filter coefficient B1, upper bits.
    DAP_COEF_WR_B1_MSB,
    /// Filter coefficient B1, lower bits.
    DAP_COEF_WR_B1_LSB,
    /// Filter coefficient B2, upper bits.
    DAP_COEF_WR_B2_MSB,
    /// Filter coefficient B2, lower bits.
    DAP_COEF_WR_B2_LSB,
    /// Filter coefficient A1, upper bits.
    DAP_COEF_WR_A1_MSB,
    /// Filter coefficient A1, lower bits.
    DAP_COEF_WR_A1_LSB,
    /// Filter coefficient A2, upper bits.
    DAP_COEF_WR_A2_MSB,
    /// Filter coefficient A2, lower bits.
    DAP_COEF_WR_A2_LSB,
}

impl Register {
    /// The 16-bit address of the register.
    pub open spec fn address(self) -> u16 {
        match self {
            Register::CHIP_ID => 0x0000,
            Register::CHIP_DIG_POWER => 0x0002,
            Register::CHIP_CLK_CTRL => 0x0004,
            Register::CHIP_I2S_CTRL => 0x0006,
            Register::CHIP_SSS_CTRL => 0x000A,
            Register::CHIP_ADCDAC_CTRL => 0x000E,
            Register::CHIP_DAC_VOL => 0x0010,
            Register::CHIP_PAD_STRENGTH => 0x0014,
            Register::CHIP_ANA_ADC_CTRL => 0x0020,
            Register::CHIP_ANA_HP_CTRL => 0x0022,
            Register::CHIP_ANA_CTRL => 0x0024,
            Register::CHIP_LINREG_CTRL => 0x0026,
            Register::CHIP_REF_CTRL => 0x0028,
            Register::CHIP_MIC_CTRL => 0x002A,
            Register::CHIP_LINE_OUT_CTRL => 0x002C,
            Register::CHIP_LINE_OUT_VOL => 0x002E,
            Register::CHIP_ANA_POWER => 0x0030,
            Register::CHIP_PLL_CTRL => 0x0032,
            Register::CHIP_CLK_TOP_CTRL => 0x0034,
            Register::CHIP_ANA_STATUS => 0x0036,
            Register::CHIP_ANA_TEST1 => 0x0038,
            Register::CHIP_ANA_TEST2 => 0x003A,
            Register::CHIP_SHORT_CTRL => 0x003C,
            Register::DAP_CTRL => 0x0100,
            Register::DAP_PEQ => 0x0102,
            Register::DAP_BASS_ENHANCE => 0x0104,
            Register::DAP_BASS_ENHANCE_CTRL => 0x0106,
            Register::DAP_AUDIO_EQ => 0x0108,
            Register::DAP_SGTL_SURROUND => 0x010A,
            Register::DAP_FILTER_COEF_ACCESS => 0x010C,
            Register::DAP_COEF_WR_B0_MSB => 0x010E,
            Register::DAP_COEF_WR_B0_LSB => 0x0110,
            Register::DAP_AUDIO_EQ_BASS_BAND0 => 0x0116,
            Register::DAP_AUDIO_EQ_BAND1 => 0x0118,
            Register::DAP_AUDIO_EQ_BAND2 => 0x011A,
            Register::DAP_AUDIO_EQ_BAND3 => 0x011C,
            Register::DAP_AUDIO_EQ_TREBLE_BAND4 => 0x011E,
            Register::DAP_MAIN_CHAN => 0x0120,
            Register::DAP_MIX_CHAN => 0x0122,
            Register::DAP_AVC_CTRL => 0x0124,
            Register::DAP_AVC_THRESHOLD => 0x0126,
            Register::DAP_AVC_ATTACK => 0x0128,
            Register::DAP_AVC_DECAY => 0x012A,
            Register::DAP_COEF_WR_B1_MSB => 0x012C,
            Register::DAP_COEF_WR_B1_LSB => 0x012E,
            Register::DAP_COEF_WR_B2_MSB => 0x0130,
            Register::DAP_COEF_WR_B2_LSB => 0x0132,
            Register::DAP_COEF_WR_A1_MSB => 0x0134,
            Register::DAP_COEF_WR_A1_LSB => 0x0136,
            Register::DAP_COEF_WR_A2_MSB => 0x0138,
            Register::DAP_COEF_WR_A2_LSB => 0x013A,
        }
    }

    /// The 16-bit address of the register.
    pub fn into(self) -> (address: u16)
        ensures
            address == self.address(),
    {
        match self {
            Register::CHIP_ID => 0x0000,
            Register::CHIP_DIG_POWER => 0x0002,
            Register::CHIP_CLK_CTRL => 0x0004,
            Register::CHIP_I2S_CTRL => 0x0006,
            Register::CHIP_SSS_CTRL => 0x000A,
            Register::CHIP_ADCDAC_CTRL => 0x000E,
            Register::CHIP_DAC_VOL => 0x0010,
            Register::CHIP_PAD_STRENGTH => 0x0014,
            Register::CHIP_ANA_ADC_CTRL => 0x0020,
            Register::CHIP_ANA_HP_CTRL => 0x0022,
            Register::CHIP_ANA_CTRL => 0x0024,
            Register::CHIP_LINREG_CTRL => 0x0026,
            Register::CHIP_REF_CTRL => 0x0028,
            Register::CHIP_MIC_CTRL => 0x002A,
            Register::CHIP_LINE_OUT_CTRL => 0x002C,
            Register::CHIP_LINE_OUT_VOL => 0x002E,
            Register::CHIP_ANA_POWER => 0x0030,
            Register::CHIP_PLL_CTRL => 0x0032,
            Register::CHIP_CLK_TOP_CTRL => 0x0034,
            Register::CHIP_ANA_STATUS => 0x0036,
            Register::CHIP_ANA_TEST1 => 0x0038,
            Register::CHIP_ANA_TEST2 => 0x003A,
            Register::CHIP_SHORT_CTRL => 0x003C,
            Register::DAP_CTRL => 0x0100,
            Register::DAP_PEQ => 0x0102,
            Register::DAP_BASS_ENHANCE => 0x0104,
            Register::DAP_BASS_ENHANCE_CTRL => 0x0106,
            Register::DAP_AUDIO_EQ => 0x0108,
            Register::DAP_SGTL_SURROUND => 0x010A,
            Register::DAP_FILTER_COEF_ACCESS => 0x010C,
            Register::DAP_COEF_WR_B0_MSB => 0x010E,
            Register::DAP_COEF_WR_B0_LSB => 0x0110,
            Register::DAP_AUDIO_EQ_BASS_BAND0 => 0x0116,
            Register::DAP_AUDIO_EQ_BAND1 => 0x0118,
            Register::DAP_AUDIO_EQ_BAND2 => 0x011A,
            Register::DAP_AUDIO_EQ_BAND3 => 0x011C,
            Register::DAP_AUDIO_EQ_TREBLE_BAND4 => 0x011E,
            Register::DAP_MAIN_CHAN => 0x0120,
            Register::DAP_MIX_CHAN => 0x0122,
            Register::DAP_AVC_CTRL => 0x0124,
            Register::DAP_AVC_THRESHOLD => 0x0126,
            Register::DAP_AVC_ATTACK => 0x0128,
            Register::DAP_AVC_DECAY => 0x012A,
            Register::DAP_COEF_WR_B1_MSB => 0x012C,
            Register::DAP_COEF_WR_B1_LSB => 0x012E,
            Register::DAP_COEF_WR_B2_MSB => 0x0130,
            Register::DAP_COEF_WR_B2_LSB => 0x0132,
            Register::DAP_COEF_WR_A1_MSB => 0x0134,
            Register::DAP_COEF_WR_A1_LSB => 0x0136,
            Register::DAP_COEF_WR_A2_MSB => 0x0138,
            Register::DAP_COEF_WR_A2_LSB => 0x013A,
        }
    }
}

/// The power-on values of the registers, in the order in which they are
/// restored.
pub open spec fn register_defaults_spec() -> Seq<(Register, u16)> {
    seq![
        (Register::CHIP_DIG_POWER, 0x0000u16),
        (Register::CHIP_I2S_CTRL, 0x0010u16),
        (Register::CHIP_SSS_CTRL, 0x0010u16),
        (Register::CHIP_ADCDAC_CTRL, 0x020cu16),
        (Register::CHIP_DAC_VOL, 0x3c3cu16),
        (Register::CHIP_PAD_STRENGTH, 0x015fu16),
        (Register::CHIP_ANA_ADC_CTRL, 0x0000u16),
        (Register::CHIP_ANA_HP_CTRL, 0x1818u16),
        (Register::CHIP_ANA_CTRL, 0x0111u16),
        (Register::CHIP_REF_CTRL, 0x0000u16),
        (Register::CHIP_MIC_CTRL, 0x0000u16),
        (Register::CHIP_LINE_OUT_CTRL, 0x0000u16),
        (Register::CHIP_LINE_OUT_VOL, 0x0404u16),
        (Register::CHIP_PLL_CTRL, 0x5000u16),
        (Register::CHIP_CLK_TOP_CTRL, 0x0000u16),
        (Register::CHIP_ANA_STATUS, 0x0000u16),
        (Register::CHIP_SHORT_CTRL, 0x0000u16),
        (Register::CHIP_ANA_TEST2, 0x0000u16),
        (Register::DAP_CTRL, 0x0000u16),
        (Register::DAP_PEQ, 0x0000u16),
        (Register::DAP_BASS_ENHANCE, 0x0040u16),
        (Register::DAP_BASS_ENHANCE_CTRL, 0x051fu16),
        (Register::DAP_AUDIO_EQ, 0x0000u16),
        (Register::DAP_SGTL_SURROUND, 0x0040u16),
        (Register::DAP_AUDIO_EQ_BASS_BAND0, 0x002fu16),
        (Register::DAP_AUDIO_EQ_BAND1, 0x002fu16),
        (Register::DAP_AUDIO_EQ_BAND2, 0x002fu16),
        (Register::DAP_AUDIO_EQ_BAND3, 0x002fu16),
        (Register::DAP_AUDIO_EQ_TREBLE_BAND4, 0x002fu16),
        (Register::DAP_MAIN_CHAN, 0x8000u16),
        (Register::DAP_MIX_CHAN, 0x0000u16),
        (Register::DAP_AVC_CTRL, 0x0510u16),
        (Register::DAP_AVC_THRESHOLD, 0x1473u16),
        (Register::DAP_AVC_ATTACK, 0x0028u16),
        (Register::DAP_AVC_DECAY, 0x0050u16),
    ]
}

/// The power-on values of the registers, in the order in which they are
/// restored.
pub fn register_defaults() -> (defaults: Vec<(Register, u16)>)
    ensures
        defaults@ == register_defaults_spec(),
{
    let defaults = vec![
        (Register::CHIP_DIG_POWER, 0x0000u16),
        (Register::CHIP_I2S_CTRL, 0x0010u16),
        (Register::CHIP_SSS_CTRL, 0x0010u16),
        (Register::CHIP_ADCDAC_CTRL, 0x020cu16),
        (Register::CHIP_DAC_VOL, 0x3c3cu16),
        (Register::CHIP_PAD_STRENGTH, 0x015fu16),
        (Register::CHIP_ANA_ADC_CTRL, 0x0000u16),
        (Register::CHIP_ANA_HP_CTRL, 0x1818u16),
        (Register::CHIP_ANA_CTRL, 0x0111u16),
        (Register::CHIP_REF_CTRL, 0x0000u16),
        (Register::CHIP_MIC_CTRL, 0x0000u16),
        (Register::CHIP_LINE_OUT_CTRL, 0x0000u16),
        (Register::CHIP_LINE_OUT_VOL, 0x0404u16),
        (Register::CHIP_PLL_CTRL, 0x5000u16),
        (Register::CHIP_CLK_TOP_CTRL, 0x0000u16),
        (Register::CHIP_ANA_STATUS, 0x0000u16),
        (Register::CHIP_SHORT_CTRL, 0x0000u16),
        (Register::CHIP_ANA_TEST2, 0x0000u16),
        (Register::DAP_CTRL, 0x0000u16),
        (Register::DAP_PEQ, 0x0000u16),
        (Register::DAP_BASS_ENHANCE, 0x0040u16),
        (Register::DAP_BASS_ENHANCE_CTRL, 0x051fu16),
        (Register::DAP_AUDIO_EQ, 0x0000u16),
        (Register::DAP_SGTL_SURROUND, 0x0040u16),
        (Register::DAP_AUDIO_EQ_BASS_BAND0, 0x002fu16),
        (Register::DAP_AUDIO_EQ_BAND1, 0x002fu16),
        (Register::DAP_AUDIO_EQ_BAND2, 0x002fu16),
        (Register::DAP_AUDIO_EQ_BAND3, 0x002fu16),
        (Register::DAP_AUDIO_EQ_TREBLE_BAND4, 0x002fu16),
        (Register::DAP_MAIN_CHAN, 0x8000u16),
        (Register::DAP_MIX_CHAN, 0x0000u16),
        (Register::DAP_AVC_CTRL, 0x0510u16),
        (Register::DAP_AVC_THRESHOLD, 0x1473u16),
        (Register::DAP_AVC_ATTACK, 0x0028u16),
        (Register::DAP_AVC_DECAY, 0x0050u16),
    ];
    assert(defaults@ =~= register_defaults_spec());
    defaults
}

/// The registers that a diagnostic dump reads, in order.
pub open spec fn dump_registers_spec() -> Seq<Register> {
    seq![
        Register::CHIP_ID,
        Register::CHIP_ANA_POWER,
        Register::CHIP_LINREG_CTRL,
        Register::CHIP_REF_CTRL,
        Register::CHIP_LINE_OUT_CTRL,
        Register::CHIP_SHORT_CTRL,
        Register::CHIP_DIG_POWER,
        Register::CHIP_LINE_OUT_VOL,
        Register::CHIP_CLK_CTRL,
        Register::CHIP_I2S_CTRL,
        Register::CHIP_SSS_CTRL,
        Register::CHIP_ADCDAC_CTRL,
        Register::CHIP_DAC_VOL,
        Register::CHIP_ANA_ADC_CTRL,
        Register::CHIP_ANA_HP_CTRL,
        Register::CHIP_ANA_CTRL,
    ]
}

/// The registers that a diagnostic dump reads, in order.
pub fn dump_registers() -> (registers: Vec<Register>)
    ensures
        registers@ == dump_registers_spec(),
{
    let registers = vec![
        Register::CHIP_ID,
        Register::CHIP_ANA_POWER,
        Register::CHIP_LINREG_CTRL,
        Register::CHIP_REF_CTRL,
        Register::CHIP_LINE_OUT_CTRL,
        Register::CHIP_SHORT_CTRL,
        Register::CHIP_DIG_POWER,
        Register::CHIP_LINE_OUT_VOL,
        Register::CHIP_CLK_CTRL,
        Register::CHIP_I2S_CTRL,
        Register::CHIP_SSS_CTRL,
        Register::CHIP_ADCDAC_CTRL,
        Register::CHIP_DAC_VOL,
        Register::CHIP_ANA_ADC_CTRL,
        Register::CHIP_ANA_HP_CTRL,
        Register::CHIP_ANA_CTRL,
    ];
    assert(registers@ =~= dump_registers_spec());
    registers
}

/// One step of the configuration.
#[derive(Copy, Clone, Debug, PartialEq, Eq, Structural)]
pub enum Op {
    /// Store `value` in `register`.
    Write {
        /// The register.
        register: Register,
        /// The value.
        value: u16,
    },
    /// Replace bits `bit_lo` to `bit_hi` of `register` by `value`.
    Modify {
        /// The register.
        register: Register,
        /// Highest bit of the field.
        bit_hi: u16,
        /// Lowest bit of the field.
        bit_lo: u16,
        /// The new content of the field.
        value: u16,
    },
}

/// What follows the register defaults: power-up and supply configuration,
/// clocks, the serial audio port, signal routing, volumes.
pub open spec fn setup_spec() -> Seq<Op> {
    seq![
        Op::Write { register: Register::CHIP_ANA_POWER, value: 0x4260 },
        Op::Write { register: Register::CHIP_LINREG_CTRL, value: 0x006c },
        Op::Write { register: Register::CHIP_REF_CTRL, value: 0x01f2 },
        Op::Write { register: Register::CHIP_LINE_OUT_CTRL, value: 0x0322 },
        Op::Write { register: Register::CHIP_SHORT_CTRL, value: 0x4446 },
        Op::Write { register: Register::CHIP_ANA_POWER, value: 0x40ff },
        Op::Write { register: Register::CHIP_DIG_POWER, value: 0x0063 },
        Op::Write { register: Register::CHIP_LINE_OUT_VOL, value: 0x0f0f },
        Op::Modify { register: Register::CHIP_CLK_CTRL, bit_hi: 5, bit_lo: 0, value: 0x0008 },
        Op::Modify { register: Register::CHIP_I2S_CTRL, bit_hi: 8, bit_lo: 0, value: 0x0130 },
        Op::Modify { register: Register::CHIP_SSS_CTRL, bit_hi: 5, bit_lo: 4, value: 0x0001 },
        Op::Modify { register: Register::CHIP_SSS_CTRL, bit_hi: 1, bit_lo: 0, value: 0x0000 },
        Op::Modify { register: Register::CHIP_ADCDAC_CTRL, bit_hi: 0, bit_lo: 0, value: 0x0001 },
        Op::Modify { register: Register::CHIP_ADCDAC_CTRL, bit_hi: 9, bit_lo: 8, value: 0x0003 },
        Op::Modify { register: Register::CHIP_ADCDAC_CTRL, bit_hi: 3, bit_lo: 2, value: 0x0000 },
        Op::Write { register: Register::CHIP_DAC_VOL, value: 0x3c3c },
        Op::Write { register: Register::CHIP_ANA_ADC_CTRL, value: 0x0000 },
        Op::Write { register: Register::CHIP_ANA_HP_CTRL, value: 0x3a3a },
        Op::Modify { register: Register::CHIP_ANA_CTRL, bit_hi: 8, bit_lo: 0, value: 0x0004 },
    ]
}

/// The whole configuration, in the order in which it is applied: every
/// register default as a write, then the set-up.
pub open spec fn program_spec() -> Seq<Op> {
    Seq::new(
        register_defaults_spec().len(),
        |k: int|
            Op::Write { register: register_defaults_spec()[k].0, value: register_defaults_spec()[k].1 },
    ) + setup_spec()
}

/// The whole configuration, in the order in which it is applied.
pub fn program() -> (ops: Vec<Op>)
    ensures
        ops@ == program_spec(),
{
    let defaults = register_defaults();
    let mut ops: Vec<Op> = Vec::new();
    let mut k: usize = 0;
    while k < defaults.len()
        invariant
            defaults@ == register_defaults_spec(),
            k <= defaults.len(),
            ops@.len() == k,
            forall|i: int|
                0 <= i < k ==> ops@[i] == (Op::Write {
                    register: register_defaults_spec()[i].0,
                    value: register_defaults_spec()[i].1,
                }),
        decreases defaults.len() - k,
    {
        let (register, value) = defaults[k];
        ops.push(Op::Write { register, value });
        k += 1;
    }
    let ghost restored = ops@;
    // turn off the start-up power supplies
    ops.push(Op::Write { register: Register::CHIP_ANA_POWER, value: 0x4260 });
    // charge pump on the I/O supply rail
    ops.push(Op::Write { register: Register::CHIP_LINREG_CTRL, value: 0x006c });
    // reference voltage, ramp and bias current
    ops.push(Op::Write { register: Register::CHIP_REF_CTRL, value: 0x01f2 });
    // line-out reference voltage and bias current
    ops.push(Op::Write { register: Register::CHIP_LINE_OUT_CTRL, value: 0x0322 });
    // short-circuit detection thresholds
    ops.push(Op::Write { register: Register::CHIP_SHORT_CTRL, value: 0x4446 });
    // power up the analog blocks, line out and headphone
    ops.push(Op::Write { register: Register::CHIP_ANA_POWER, value: 0x40ff });
    // power up both serial data directions and both converters
    ops.push(Op::Write { register: Register::CHIP_DIG_POWER, value: 0x0063 });
    // line-out level
    ops.push(Op::Write { register: Register::CHIP_LINE_OUT_VOL, value: 0x0f0f });
    // sample rate 48 kHz, master clock 256 times the sample rate
    ops.push(Op::Modify { register: Register::CHIP_CLK_CTRL, bit_hi: 5, bit_lo: 0, value: 0x0008 });
    // bit clock 32 times the sample rate, 16-bit words, chip is slave
    ops.push(Op::Modify { register: Register::CHIP_I2S_CTRL, bit_hi: 8, bit_lo: 0, value: 0x0130 });
    // serial input feeds the digital-to-analog converter
    ops.push(Op::Modify { register: Register::CHIP_SSS_CTRL, bit_hi: 5, bit_lo: 4, value: 0x0001 });
    // analog-to-digital converter feeds the serial output
    ops.push(Op::Modify { register: Register::CHIP_SSS_CTRL, bit_hi: 1, bit_lo: 0, value: 0x0000 });
    // disable the high-pass filter
    ops.push(Op::Modify { register: Register::CHIP_ADCDAC_CTRL, bit_hi: 0, bit_lo: 0, value: 0x0001 });
    // exponential volume ramp
    ops.push(Op::Modify { register: Register::CHIP_ADCDAC_CTRL, bit_hi: 9, bit_lo: 8, value: 0x0003 });
    // unmute the digital-to-analog converter
    ops.push(Op::Modify { register: Register::CHIP_ADCDAC_CTRL, bit_hi: 3, bit_lo: 2, value: 0x0000 });
    // digital-to-analog converter volume
    ops.push(Op::Write { register: Register::CHIP_DAC_VOL, value: 0x3c3c });
    // analog-to-digital converter input level
    ops.push(Op::Write { register: Register::CHIP_ANA_ADC_CTRL, value: 0x0000 });
    // headphone volume
    ops.push(Op::Write { register: Register::CHIP_ANA_HP_CTRL, value: 0x3a3a });
    // unmute line out and headphone
    ops.push(Op::Modify { register: Register::CHIP_ANA_CTRL, bit_hi: 8, bit_lo: 0, value: 0x0004 });
    assert(ops@ =~= restored + setup_spec());
    assert(restored =~= Seq::new(
        register_defaults_spec().len(),
        |k: int|
            Op::Write { register: register_defaults_spec()[k].0, value: register_defaults_spec()[k].1 },
    ));
    ops
}

/// The chip answers to its name: the upper byte of its identification
/// register is `0xA0`.
pub open spec fn is_chip_id(value: u16) -> bool {
    value / 256 == 0xA0
}

/// Checks the content of the identification register. Anything but this
/// chip's identification is an invalid response.
pub fn check_chip_id(value: u16) -> (result: Result<(), EspError>)
    ensures
        is_chip_id(value) ==> result is Ok,
        !is_chip_id(value) ==> result == Err::<(), EspError>(EspError(ESP_ERR_INVALID_RESPONSE)),
{
    let upper = value & 0xFF00;
    assert((upper != 0xA000) == (value / 256 != 0xA0)) by (bit_vector)
        requires
            upper == value & 0xFF00,
    ;
    if upper != 0xA000 {
        return Err(EspError(ESP_ERR_INVALID_RESPONSE));
    }
    Ok(())
}

/// The configuration of the host as master of the control bus: both lines
/// are pulled up internally.
pub fn init(pins: Pins) -> (config: MasterConfig)
    ensures
        config == (MasterConfig {
            scl_io_num: pins.scl,
            sda_io_num: pins.sda,
            scl_pullup_en: true,
            sda_pullup_en: true,
            clk_speed: crate::i2c::CLK_SPEED,
        }),
{
    master_config(pins, true)
}

/// The bytes that read `register` of the chip at `address`.
pub fn read(address: u8, register: Register) -> (frames: ReadFrames)
    ensures
        frames.select@ == seq![
            address_byte_spec(address, false) as u8,
            (register.address() / 256) as u8,
            (register.address() % 256) as u8,
        ],
        frames.restart == address_byte_spec(address, true),
{
    crate::i2c::read(address, register.into())
}

/// The register content that the chip sent as `msb` and then `lsb`.
pub fn value(msb: u8, lsb: u8) -> (value: u16)
    ensures
        value == msb * 256 + lsb,
{
    word(msb, lsb)
}

/// The five bytes that store `value` in `register` of the chip at `address`:
/// the address byte for a write, the register address and then the value,
/// each most significant byte first.
pub fn write(address: u8, register: Register, value: u16) -> (bytes: [u8; 5])
    ensures
        bytes@ == write_u16_spec(address, register.address(), value),
{
    write_u16(address, register.into(), value)
}

/// Bit `i` of `word`.
pub open spec fn bit(word: u16, i: u16) -> bool {
    (word >> i) & 1 == 1
}

/// A field from bit `bit_lo` to bit `bit_hi` lies within a register and is
/// narrower than it.
pub open spec fn field_fits(bit_hi: u16, bit_lo: u16) -> bool {
    bit_lo <= bit_hi <= 15 && bit_hi - bit_lo < 15
}

/// The word whose set bits are those from `bit_lo` to `bit_hi`.
pub open spec fn field_mask(bit_hi: u16, bit_lo: u16) -> u16 {
    (((2u16 << ((bit_hi - bit_lo) as u16)) - 1) as u16) << bit_lo
}

/// The content of a register after the field from `bit_lo` to `bit_hi` of
/// `current` was replaced by `value`: the field is cleared and the shifted
/// value is laid over the word.
pub open spec fn modify_spec(current: u16, bit_hi: u16, bit_lo: u16, value: u16) -> u16 {
    (current & !field_mask(bit_hi, bit_lo)) | (value << bit_lo)
}

/// The field mask has exactly the bits of the field set.
pub proof fn lemma_field_mask_bits(bit_hi: u16, bit_lo: u16, i: u16)
    requires
        field_fits(bit_hi, bit_lo),
        i < 16,
    ensures
        bit(field_mask(bit_hi, bit_lo), i) == (bit_lo <= i <= bit_hi),
{
    let span = (bit_hi - bit_lo) as u16;
    let mask = field_mask(bit_hi, bit_lo);
    assert((((mask >> i) & 1) == 1) == (bit_lo <= i && i <= bit_hi)) by (bit_vector)
        requires
            mask == ((((2u16 << span) - 1) as u16) << bit_lo),
            span == (bit_hi - bit_lo) as u16,
            bit_lo <= bit_hi,
            bit_hi <= 15,
            bit_hi - bit_lo < 15,
            i < 16,
    ;
}

/// A value that fits its field replaces exactly the field: every bit of the
/// field is the bit of the value at the same distance from the field's
/// lowest bit, and every other bit is that of the word before.
pub proof fn lemma_modify_bits(current: u16, bit_hi: u16, bit_lo: u16, value: u16, i: u16)
    requires
        field_fits(bit_hi, bit_lo),
        value >> ((bit_hi - bit_lo + 1) as u16) == 0,
        i < 16,
    ensures
        bit(modify_spec(current, bit_hi, bit_lo, value), i) == (if bit_lo <= i <= bit_hi {
            bit(value, (i - bit_lo) as u16)
        } else {
            bit(current, i)
        }),
{
    let mask = field_mask(bit_hi, bit_lo);
    lemma_field_mask_bits(bit_hi, bit_lo, i);
    let width = (bit_hi - bit_lo + 1) as u16;
    let result = (current & !mask) | (value << bit_lo);
    if bit_lo <= i <= bit_hi {
        let d = (i - bit_lo) as u16;
        assert((((result >> i) & 1) == 1) == (((value >> d) & 1) == 1)) by (bit_vector)
            requires
                result == (current & !mask) | (value << bit_lo),
                ((mask >> i) & 1) == 1,
                d == (i - bit_lo) as u16,
                bit_lo <= i,
                i < 16,
        ;
    } else {
        assert((((result >> i) & 1) == 1) == (((current >> i) & 1) == 1)) by (bit_vector)
            requires
                result == (current & !mask) | (value << bit_lo),
                ((mask >> i) & 1) != 1,
                value >> width == 0,
                width == (bit_hi - bit_lo + 1) as u16,
                bit_lo <= bit_hi,
                bit_hi <= 15,
                bit_hi - bit_lo < 15,
                !(bit_lo <= i && i <= bit_hi),
                i < 16,
        ;
    }
}

/// The content to store in a register that holds `current` so that its field
/// from `bit_lo` to `bit_hi` becomes `value`.
pub fn modify(current: u16, bit_hi: u16, bit_lo: u16, value: u16) -> (write_value: u16)
    requires
        field_fits(bit_hi, bit_lo),
    ensures
        write_value == modify_spec(current, bit_hi, bit_lo, value),
{
    let width = (bit_hi - bit_lo) + 1;
    let position = bit_lo;
    let span: u16 = width - 1;
    assert(2u16 << span >= 2) by (bit_vector)
        requires
            span < 15,
    ;
    let mask = ((2u16 << span) - 1) << position;
    (current & (!mask)) | (value << position)
}

impl Op {
    /// A field to modify lies within its register and is narrower than it.
    pub open spec fn valid(self) -> bool {
        match self {
            Op::Write { .. } => true,
            Op::Modify { bit_hi, bit_lo, .. } => field_fits(bit_hi, bit_lo),
        }
    }
}

/// Every step of the configuration is valid.
pub proof fn lemma_program_valid(k: int)
    requires
        0 <= k < program_spec().len(),
    ensures
        program_spec()[k].valid(),
{
    if k >= register_defaults_spec().len() {
        assert(program_spec()[k] == setup_spec()[k - register_defaults_spec().len()]);
    }
}

/// One transfer on the control bus.
#[derive(Copy, Clone, Debug, PartialEq, Eq, Structural)]
pub enum Request {
    /// Read the content of `register`.
    Read {
        /// The register.
        register: Register,
    },
    /// Store `value` in `register`.
    Write {
        /// The register.
        register: Register,
        /// The value.
        value: u16,
    },
}

/// What the configuration asks for next.
#[derive(Copy, Clone, Debug, PartialEq, Eq)]
pub enum Action {
    /// Perform this transfer and report its outcome.
    Transfer(Request),
    /// The configuration has ended, with this result.
    Finish(Result<(), EspError>),
}

/// How far the configuration has come.
#[derive(Copy, Clone, Debug, PartialEq, Eq, Structural)]
pub enum Progress {
    /// The identification register is being read.
    Identify,
    /// The register of the modification at this place is being read.
    Reading(usize),
    /// The write of the step at this place is under way.
    Writing(usize),
    /// The configuration has ended.
    Finished,
}

/// The state and the transfer with which step `k` of `program` begins, or
/// the successful end if there is no such step.
pub open spec fn issue(program: Seq<Op>, k: int) -> (Progress, Action) {
    if k >= program.len() {
        (Progress::Finished, Action::Finish(Ok(())))
    } else {
        match program[k] {
            Op::Write { register, value } => (
                Progress::Writing(k as usize),
                Action::Transfer(Request::Write { register, value }),
            ),
            Op::Modify { register, .. } => (
                Progress::Reading(k as usize),
                Action::Transfer(Request::Read { register }),
            ),
        }
    }
}

/// The state and the action that follow when the transfer pending at
/// `progress` ended with `reply`, which for a read carries the value read.
///
/// A failed transfer ends the configuration with its error. A chip that does
/// not identify itself ends it with an invalid response, before anything is
/// written. A register read for a modification is followed by the write of
/// the modified content, and a completed write by the next step. Nothing is
/// pending once the configuration has ended.
pub open spec fn next(program: Seq<Op>, progress: Progress, reply: Result<u16, EspError>) -> (
    Progress,
    Action,
) {
    match reply {
        Err(e) => (Progress::Finished, Action::Finish(Err(e))),
        Ok(value) => match progress {
            Progress::Identify => if is_chip_id(value) {
                issue(program, 0)
            } else {
                (Progress::Finished, Action::Finish(Err(EspError(ESP_ERR_INVALID_RESPONSE))))
            },
            Progress::Reading(k) => match program[k as int] {
                Op::Modify { register, bit_hi, bit_lo, value: field } => (
                    Progress::Writing(k),
                    Action::Transfer(
                        Request::Write { register, value: modify_spec(value, bit_hi, bit_lo, field) },
                    ),
                ),
                Op::Write { register, value } => (
                    Progress::Writing(k),
                    Action::Transfer(Request::Write { register, value }),
                ),
            },
            Progress::Writing(k) => issue(program, k + 1),
            Progress::Finished => (Progress::Finished, Action::Finish(Ok(()))),
        },
    }
}

/// An upper bound on the transfers that are still to come at `progress`.
pub open spec fn remaining(program: Seq<Op>, progress: Progress) -> int {
    match progress {
        Progress::Identify => 2 * (program.len() as int) + 1,
        Progress::Reading(k) => 2 * (program.len() - k),
        Progress::Writing(k) => 2 * (program.len() - k) - 1,
        Progress::Finished => 0,
    }
}

/// The configuration ends: with every outcome that is reported, fewer
/// transfers are still to come, so that it is over after at most two
/// transfers per step and the identification.
pub proof fn lemma_configuration_ends(program: Seq<Op>, progress: Progress, reply: Result<u16, EspError>)
    requires
        program.len() <= usize::MAX,
        progress != Progress::Finished,
        progress matches Progress::Reading(k) ==> k < program.len(),
        progress matches Progress::Writing(k) ==> k < program.len(),
    ensures
        0 <= remaining(program, next(program, progress, reply).0) < remaining(program, progress),
        next(program, progress, reply).1 is Finish <==> next(program, progress, reply).0
            == Progress::Finished,
{
}

/// A chip that does not identify itself is not written to, and a failed
/// transfer is the last one.
pub proof fn lemma_no_write_after_failure(program: Seq<Op>, progress: Progress, reply: Result<u16, EspError>)
    ensures
        reply matches Err(e) ==> next(program, progress, reply).1 == Action::Finish(Err(e)),
        progress == Progress::Identify && (reply matches Ok(id) && !is_chip_id(id)) ==> next(
            program,
            progress,
            reply,
        ).1 == Action::Finish(Err(EspError(ESP_ERR_INVALID_RESPONSE))),
{
}

/// The configuration of the chip under way.
pub struct Configure {
    program: Vec<Op>,
    progress: Progress,
}

impl Configure {
    /// How far the configuration has come.
    pub closed spec fn progress(&self) -> Progress {
        self.progress
    }

    /// The machine runs the chip's configuration and stands at one of its
    /// steps: a register is only being read for a modification.
    pub closed spec fn wf(&self) -> bool {
        &&& self.program@ == program_spec()
        &&& match self.progress {
            Progress::Reading(k) => k < self.program@.len() && self.program@[k as int] is Modify,
            Progress::Writing(k) => k < self.program@.len(),
            _ => true,
        }
    }

    /// How far the configuration has come.
    pub fn current(&self) -> (progress: Progress)
        ensures
            progress == self.progress(),
    {
        self.progress
    }

    fn issue(&mut self, k: usize) -> (action: Action)
        requires
            old(self).program@ == program_spec(),
            k <= old(self).program@.len(),
        ensures
            final(self).wf(),
            (final(self).progress(), action) == issue(program_spec(), k as int),
    {
        if k >= self.program.len() {
            self.progress = Progress::Finished;
            return Action::Finish(Ok(()));
        }
        match self.program[k] {
            Op::Write { register, value } => {
                self.progress = Progress::Writing(k);
                Action::Transfer(Request::Write { register, value })
            },
            Op::Modify { register, .. } => {
                self.progress = Progress::Reading(k);
                Action::Transfer(Request::Read { register })
            },
        }
    }

    /// Takes the outcome of the transfer that was asked for last, for a read
    /// with the value read, and decides what comes next. A configuration
    /// that has ended takes no further outcome.
    pub fn step(&mut self, reply: Result<u16, EspError>) -> (action: Action)
        requires
            old(self).wf(),
            old(self).progress() != Progress::Finished,
        ensures
            final(self).wf(),
            (final(self).progress(), action) == next(program_spec(), old(self).progress(), reply),
    {
        let current = match reply {
            Err(e) => {
                self.progress = Progress::Finished;
                return Action::Finish(Err(e));
            },
            Ok(value) => value,
        };
        match self.progress {
            Progress::Identify => match check_chip_id(current) {
                Ok(()) => self.issue(0),
                Err(e) => {
                    self.progress = Progress::Finished;
                    Action::Finish(Err(e))
                },
            },
            Progress::Reading(k) => match self.program[k] {
                Op::Modify { register, bit_hi, bit_lo, value } => {
                    proof {
                        lemma_program_valid(k as int);
                    }
                    self.progress = Progress::Writing(k);
                    Action::Transfer(
                        Request::Write { register, value: modify(current, bit_hi, bit_lo, value) },
                    )
                },
                Op::Write { register, value } => {
                    self.progress = Progress::Writing(k);
                    Action::Transfer(Request::Write { register, value })
                },
            },
            Progress::Writing(k) => self.issue(k + 1),
            Progress::Finished => Action::Finish(Ok(())),
        }
    }
}

/// Begins the configuration of the chip: the first transfer reads the
/// identification register.
pub fn configure() -> (start: (Configure, Request))
    ensures
        start.0.wf(),
        start.0.progress() == Progress::Identify,
        start.1 == (Request::Read { register: Register::CHIP_ID }),
{
    (
        Configure { program: program(), progress: Progress::Identify },
        Request::Read { register: Register::CHIP_ID },
    )
}

} // verus!
