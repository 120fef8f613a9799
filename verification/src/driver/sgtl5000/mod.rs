//! Transport over an external SGTL5000 codec chip: 16-bit signed linear
//! samples in both directions.

use vstd::prelude::*;
use crate::audio::Config;
use crate::driver::{
    check_transfer,
    copy_stereo,
    scratch,
    stereo,
    Bringup,
    Codec,
};
use crate::esp_idf::{esp_err_t, EspError};
use crate::i2s::{BusConfig, CommFormat, Mode, BITS_PER_SAMPLE, DMA_BUF_COUNT};

pub mod i2c;

verus! {

/// Address of the chip on the control bus.
pub const CODEC_I2C_ADDRESS: u8 = 0x0a;

/// Microseconds to let the master clock settle before the chip is addressed.
pub const SETTLE_US: u32 = 1000;

/// The transport's state: its wiring and its native scratch buffer, one
/// 16-bit word per sample of a block.
pub struct Driver {
    /// Pins of the control bus.
    pub i2c_pins: crate::i2c::Pins,
    /// Pins of the serial audio bus.
    pub i2s_pins: crate::i2s::Pins,
    /// Native scratch buffer, empty until `init`.
    pub dma_buffer: Vec<i16>,
}

/// The serial audio bus configuration for this chip: the host is master,
/// full duplex, 16-bit samples in Philips framing, most significant bit
/// first, with one block per DMA buffer and the clock from the audio PLL.
pub fn init(config: &Config) -> (bus: BusConfig)
    ensures
        bus == (BusConfig {
            mode: Mode { master: true, rx: true, tx: true, dac_built_in: false, adc_built_in: false },
            sample_rate: config.fs,
            bits_per_sample: BITS_PER_SAMPLE,
            communication_format: CommFormat { i2s: true, i2s_msb: true },
            dma_buf_count: DMA_BUF_COUNT,
            dma_buf_len: config.block_length,
            use_apll: true,
        }),
{
    BusConfig {
        mode: Mode { master: true, rx: true, tx: true, dac_built_in: false, adc_built_in: false },
        sample_rate: config.fs,
        bits_per_sample: BITS_PER_SAMPLE,
        communication_format: CommFormat { i2s: true, i2s_msb: true },
        dma_buf_count: DMA_BUF_COUNT,
        dma_buf_len: config.block_length,
        use_apll: true,
    }
}

/// A pin control word with its four lowest bits, the clock output selection,
/// cleared.
pub fn clear_clock_select(read: u32) -> (write: u32)
    ensures
        write == read - read % 16,
{
    let write = read & 0xffff_fff0;
    assert(read & 0xffff_fff0 == read - read % 16) by (bit_vector);
    write
}

/// A register word in which the field of mask `field_v` at bit `field_s` is
/// replaced by `value`, and every other bit is that of `read`.
pub open spec fn set_field_spec(read: u32, field_v: u32, field_s: u32, value: u32) -> u32 {
    (read & !(field_v << field_s)) | ((value & field_v) << field_s)
}

/// Replaces the field of mask `field_v` at bit `field_s` in `read` by
/// `value`.
pub fn set_field(read: u32, field_v: u32, field_s: u32, value: u32) -> (write: u32)
    requires
        field_s < 32,
    ensures
        write == set_field_spec(read, field_v, field_s, value),
        write & !(field_v << field_s) == read & !(field_v << field_s),
        write & (field_v << field_s) == (value << field_s) & (field_v << field_s),
{
    let write = (read & !(field_v << field_s)) | ((value & field_v) << field_s);
    assert(write & !(field_v << field_s) == read & !(field_v << field_s) && write & (field_v
        << field_s) == (value << field_s) & (field_v << field_s)) by (bit_vector)
        requires
            write == (read & !(field_v << field_s)) | ((value & field_v) << field_s),
            field_s < 32,
    ;
    write
}

/// What brings the hardware up once the scratch buffer is there, in order:
/// the serial audio bus, the master clock, a pause for the clock to settle,
/// the control bus, the registers of the chip. The chip does not answer on
/// the control bus before its master clock runs.
pub fn bring_up() -> (steps: [Bringup; 5])
    ensures
        steps@ == seq![
            Bringup::AudioBus,
            Bringup::MasterClock,
            Bringup::Settle(SETTLE_US),
            Bringup::ControlBus,
            Bringup::Configure(CODEC_I2C_ADDRESS),
        ],
{
    let steps = [
        Bringup::AudioBus,
        Bringup::MasterClock,
        Bringup::Settle(SETTLE_US),
        Bringup::ControlBus,
        Bringup::Configure(CODEC_I2C_ADDRESS),
    ];
    assert(steps@ =~= seq![
        Bringup::AudioBus,
        Bringup::MasterClock,
        Bringup::Settle(SETTLE_US),
        Bringup::ControlBus,
        Bringup::Configure(CODEC_I2C_ADDRESS),
    ]);
    steps
}

impl Codec for Driver {
    type Captured = i16;

    type Emitted = i16;

    open spec fn supports(config: &Config) -> bool {
        config.num_channels >= 2 && config.word_size == 2
    }

    open spec fn idle(&self) -> bool {
        &&& self.dma_buffer@.len() == 0
        &&& self.i2c_pins == (crate::i2c::Pins { scl: 23, sda: 18 })
        &&& self.i2s_pins == (crate::i2s::Pins { bclk: 5, lrclk: 25, din: 26, dout: 35 })
    }

    open spec fn ready(&self, config: &Config) -> bool {
        self.dma_buffer@.len() == config.block_length
    }

    open spec fn armed(&self, config: &Config, after: &Self) -> bool {
        &&& after.dma_buffer@ == Seq::new(config.block_length as nat, |i: int| 0i16)
        &&& after.i2c_pins == self.i2c_pins
        &&& after.i2s_pins == self.i2s_pins
    }

    open spec fn captured(&self, config: &Config, before: Seq<i16>) -> Seq<i16> {
        stereo(config, self.dma_buffer@, before)
    }

    open spec fn emitted(&self, config: &Config, data: Seq<i16>, after: &Self) -> bool {
        &&& after.dma_buffer@ == stereo(config, data, self.dma_buffer@)
        &&& after.i2c_pins == self.i2c_pins
        &&& after.i2s_pins == self.i2s_pins
    }

    fn new() -> (driver: Driver) {
        Driver {
            i2c_pins: crate::i2c::Pins::new(),
            i2s_pins: crate::i2s::Pins::new(),
            dma_buffer: Vec::new(),
        }
    }

    fn is_supported(config: &Config) -> (supported: bool) {
        config.num_channels >= 2 && config.word_size == 2
    }

    fn is_ready(&self, config: &Config) -> (ready: bool) {
        self.dma_buffer.len() == config.block_length
    }

    fn init(&mut self, config: &Config) -> (result: Result<(), EspError>) {
        let mut buffer: Vec<i16> = Vec::new();
        let reserved = buffer.try_reserve(config.block_length).is_ok();
        match scratch(reserved, buffer, config.block_length, 0i16) {
            Ok(buffer) => {
                self.dma_buffer = buffer;
                Ok(())
            },
            Err(e) => Err(e),
        }
    }

    fn read(
        &self,
        config: &Config,
        status: esp_err_t,
        bytes_read: usize,
        callback_buffer: &mut [i16],
    ) -> (result: Result<(), EspError>) {
        check_transfer(config, status, bytes_read)?;
        copy_stereo(config, self.dma_buffer.as_slice(), callback_buffer);
        Ok(())
    }

    fn write(&mut self, config: &Config, callback_buffer: &[i16]) {
        copy_stereo(config, callback_buffer, self.dma_buffer.as_mut_slice());
    }
}

} // verus!
