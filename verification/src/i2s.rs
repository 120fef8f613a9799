//! The serial audio bus: its pins and its configuration.

use vstd::prelude::*;
use crate::esp_idf::gpio_num_t;

verus! {

/// Pins of the serial audio bus.
#[derive(Copy, Clone, Debug, PartialEq, Eq, Structural)]
pub struct Pins {
    /// Bit clock.
    pub bclk: gpio_num_t,
    /// Left/right word clock.
    pub lrclk: gpio_num_t,
    /// Data towards the converter.
    pub din: gpio_num_t,
    /// Data from the converter.
    pub dout: gpio_num_t,
}

/// Pin assignment in the layout that the bus driver takes.
#[derive(Copy, Clone, Debug, PartialEq, Eq, Structural)]
pub struct PinConfig {
    /// Bit clock pin.
    pub bck_io_num: i32,
    /// Word select pin.
    pub ws_io_num: i32,
    /// Data-in pin.
    pub data_in_num: i32,
    /// Data-out pin.
    pub data_out_num: i32,
}

impl Pins {
    /// The default wiring: bit clock on pin 5, word clock on pin 25, data in
    /// on pin 26 and data out on pin 35.
    pub fn new() -> (pins: Pins)
        ensures
            pins == (Pins { bclk: 5, lrclk: 25, din: 26, dout: 35 }),
    {
        Pins { bclk: 5, lrclk: 25, din: 26, dout: 35 }
    }
}

impl From<Pins> for PinConfig {
    fn from(pins: Pins) -> (config: PinConfig) {
        PinConfig {
            bck_io_num: pins.bclk,
            ws_io_num: pins.lrclk,
            data_in_num: pins.din,
            data_out_num: pins.dout,
        }
    }
}

impl vstd::std_specs::convert::FromSpecImpl<Pins> for PinConfig {
    open spec fn obeys_from_spec() -> bool {
        true
    }

    open spec fn from_spec(pins: Pins) -> PinConfig {
        PinConfig {
            bck_io_num: pins.bclk,
            ws_io_num: pins.lrclk,
            data_in_num: pins.din,
            data_out_num: pins.dout,
        }
    }
}

impl From<PinConfig> for Pins {
    fn from(config: PinConfig) -> (pins: Pins) {
        Pins {
            bclk: config.bck_io_num,
            lrclk: config.ws_io_num,
            din: config.data_in_num,
            dout: config.data_out_num,
        }
    }
}

impl vstd::std_specs::convert::FromSpecImpl<PinConfig> for Pins {
    open spec fn obeys_from_spec() -> bool {
        true
    }

    open spec fn from_spec(config: PinConfig) -> Pins {
        Pins {
            bclk: config.bck_io_num,
            lrclk: config.ws_io_num,
            din: config.data_in_num,
            dout: config.data_out_num,
        }
    }
}

/// Converting a pin set to the bus driver's layout and back gives the pin set.
pub proof fn lemma_pins_round_trip(pins: Pins)
    ensures
        <Pins as vstd::std_specs::convert::FromSpec<PinConfig>>::from_spec(
            <PinConfig as vstd::std_specs::convert::FromSpec<Pins>>::from_spec(pins),
        ) == pins,
{
}

/// Role and direction flags of the bus.
#[derive(Copy, Clone, Debug, PartialEq, Eq, Structural)]
pub struct Mode {
    /// The bus generates the clocks.
    pub master: bool,
    /// The bus receives.
    pub rx: bool,
    /// The bus transmits.
    pub tx: bool,
    /// Output goes to the built-in digital-to-analog converters.
    pub dac_built_in: bool,
    /// Input comes from the built-in analog-to-digital converter.
    pub adc_built_in: bool,
}

/// Framing flags of the bus.
#[derive(Copy, Clone, Debug, PartialEq, Eq, Structural)]
pub struct CommFormat {
    /// Philips I2S framing.
    pub i2s: bool,
    /// Most significant bit first.
    pub i2s_msb: bool,
}

/// Number of DMA buffers of the bus: enough to pipeline, and fixed.
pub const DMA_BUF_COUNT: usize = 4;

/// Bits of a sample on the bus.
pub const BITS_PER_SAMPLE: u32 = 16;

/// Configuration of the bus, as its driver takes it. Frames carry the right
/// channel before the left one.
#[derive(Copy, Clone, Debug, PartialEq, Eq, Structural)]
pub struct BusConfig {
    /// Role and direction.
    pub mode: Mode,
    /// Sample rate in Hz.
    pub sample_rate: u32,
    /// Bits of a sample.
    pub bits_per_sample: u32,
    /// Framing.
    pub communication_format: CommFormat,
    /// Number of DMA buffers.
    pub dma_buf_count: usize,
    /// Samples per DMA buffer: the DMA granularity.
    pub dma_buf_len: usize,
    /// Clock from the audio PLL.
    pub use_apll: bool,
}

} // verus!
