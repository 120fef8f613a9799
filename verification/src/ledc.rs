//! The pulse-width modulation peripheral: its timer and one channel per pin.

use vstd::prelude::*;
use crate::esp_idf::{gpio_num_t, EspError, ESP_ERR_INVALID_ARG};

verus! {

/// Frequency of the modulated signal in Hz.
pub const FREQ_HZ: u32 = 19_500;

/// Bits of duty resolution at that frequency.
pub const DUTY_RESOLUTION: u32 = 12;

/// The largest duty at that resolution.
pub const DUTY_SCALE: u32 = 4095;

/// Number of channels of the peripheral.
pub const LEDC_CHANNEL_MAX: usize = 8;

/// Configuration of the timer that clocks every channel.
#[derive(Copy, Clone, Debug, PartialEq, Eq, Structural)]
pub struct TimerConfig {
    /// Index of the timer.
    pub timer_num: u32,
    /// Frequency of the modulated signal in Hz.
    pub freq_hz: u32,
    /// Bits of duty resolution.
    pub duty_resolution: u32,
}

/// Configuration of one channel.
#[derive(Copy, Clone, Debug, PartialEq, Eq, Structural)]
pub struct ChannelConfig {
    /// Index of the channel.
    pub channel: usize,
    /// Initial duty.
    pub duty: u32,
    /// The pin that the channel drives.
    pub gpio_num: gpio_num_t,
    /// Point of the period at which the output goes high.
    pub hpoint: i32,
    /// Index of the timer that clocks the channel.
    pub timer_sel: u32,
}

/// The duty scale is the largest value of the duty resolution.
pub proof fn lemma_duty_scale()
    ensures
        DUTY_SCALE == vstd::arithmetic::power2::pow2(DUTY_RESOLUTION as nat) - 1,
{
    vstd::arithmetic::power2::lemma2_to64();
}

/// The configuration of the timer.
pub fn timer() -> (config: TimerConfig)
    ensures
        config == (TimerConfig { timer_num: 0, freq_hz: FREQ_HZ, duty_resolution: DUTY_RESOLUTION }),
{
    TimerConfig { timer_num: 0, freq_hz: FREQ_HZ, duty_resolution: DUTY_RESOLUTION }
}

/// The channel that drives `pin` as channel number `channel`, off at first.
pub open spec fn channel_spec(channel: int, pin: gpio_num_t) -> ChannelConfig {
    ChannelConfig { channel: channel as usize, duty: 0, gpio_num: pin, hpoint: 0, timer_sel: 0 }
}

/// The channel configurations for `pins`, the n-th pin on channel n. More
/// pins than the peripheral can take, or as many as it has channels, are an
/// invalid argument.
pub fn init(pins: &[gpio_num_t]) -> (result: Result<Vec<ChannelConfig>, EspError>)
    ensures
        pins@.len() >= LEDC_CHANNEL_MAX ==> result == Err::<Vec<ChannelConfig>, EspError>(
            EspError(ESP_ERR_INVALID_ARG),
        ),
        pins@.len() < LEDC_CHANNEL_MAX ==> (result matches Ok(channels) && channels@ == Seq::new(
            pins@.len(),
            |n: int| channel_spec(n, pins@[n]),
        )),
{
    if pins.len() >= LEDC_CHANNEL_MAX {
        return Err(EspError(ESP_ERR_INVALID_ARG));
    }
    let mut channels: Vec<ChannelConfig> = Vec::new();
    let mut channel: usize = 0;
    while channel < pins.len()
        invariant
            channel <= pins@.len(),
            channels@.len() == channel,
            forall|n: int| 0 <= n < channel ==> channels@[n] == channel_spec(n, pins@[n]),
        decreases pins@.len() - channel,
    {
        channels.push(
            ChannelConfig { channel, duty: 0, gpio_num: pins[channel], hpoint: 0, timer_sel: 0 },
        );
        channel += 1;
    }
    assert(channels@ =~= Seq::new(pins@.len(), |n: int| channel_spec(n, pins@[n])));
    Ok(channels)
}

} // verus!
