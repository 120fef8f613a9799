//! Transport over the built-in converters: 12-bit samples packed in 16-bit
//! words on the way in, 8-bit offset-binary samples in the high byte of a
//! 16-bit word on the way out.

use vstd::prelude::*;
use vstd::arithmetic::div_mod::lemma_fundamental_div_mod_converse;
use crate::audio::Config;
use crate::driver::{carried, check_transfer, scratch, Bringup, Codec};
use crate::esp_idf::{esp_err_t, EspError};
use crate::i2s::{BusConfig, CommFormat, Mode, BITS_PER_SAMPLE, DMA_BUF_COUNT};

verus! {

/// The 12-bit value carried by a little-endian 16-bit word of which only the
/// low nibble of the high byte counts.
pub open spec fn u12_spec(lo: u8, hi: u8) -> int {
    (hi as int % 16) * 256 + lo as int
}

/// Reassembles a 12-bit sample from the two bytes of its word.
pub fn u12_from_bytes(lo: u8, hi: u8) -> (value: u16)
    ensures
        value == u12_spec(lo, hi),
        value <= 4095,
{
    let value: u16 = (((hi as u16) & 0xf) << 8) | (lo as u16);
    assert(value == (hi as u16 % 16) * 256 + lo as u16 && value <= 4095) by (bit_vector)
        requires
            value == (((hi as u16) & 0xf) << 8) | (lo as u16),
    ;
    value
}

/// Sample `j` of a block as `read` leaves it: the first two samples of each
/// frame come from the four leading bytes of the frame's slot in `dma`, right
/// channel first; further channels keep what `before` held.
pub open spec fn captured_at(config: &Config, dma: Seq<u8>, before: Seq<u16>, j: int) -> u16 {
    let frame = j / config.num_channels as int;
    let channel = j % config.num_channels as int;
    let slot = frame * config.num_channels * config.word_size;
    if carried(config, j) {
        u12_spec(dma[slot + 2 * channel], dma[slot + 2 * channel + 1]) as u16
    } else {
        before[j]
    }
}

/// Byte `i` of the scratch buffer as `write` leaves it: in each frame's slot a
/// zero, the right sample, a zero, the left sample; further bytes keep what
/// `before` held.
pub open spec fn emitted_at(config: &Config, data: Seq<u8>, before: Seq<u8>, i: int) -> u8 {
    let stride = config.num_channels * config.word_size;
    let frame = i / stride;
    let offset = i % stride;
    if offset == 0 || offset == 2 {
        0
    } else if offset == 1 {
        data[frame * config.num_channels]
    } else if offset == 3 {
        data[frame * config.num_channels + 1]
    } else {
        before[i]
    }
}

/// The serial audio bus configuration for the built-in converters: the host
/// is master, full duplex through both built-in converters, 16-bit words,
/// most significant bit first, with `block_length` samples per DMA buffer
/// and the clock not from the audio PLL.
pub fn init(fs: u32, block_length: usize) -> (bus: BusConfig)
    ensures
        bus == (BusConfig {
            mode: Mode { master: true, rx: true, tx: true, dac_built_in: true, adc_built_in: true },
            sample_rate: fs,
            bits_per_sample: BITS_PER_SAMPLE,
            communication_format: CommFormat { i2s: false, i2s_msb: true },
            dma_buf_count: DMA_BUF_COUNT,
            dma_buf_len: block_length,
            use_apll: false,
        }),
{
    BusConfig {
        mode: Mode { master: true, rx: true, tx: true, dac_built_in: true, adc_built_in: true },
        sample_rate: fs,
        bits_per_sample: BITS_PER_SAMPLE,
        communication_format: CommFormat { i2s: false, i2s_msb: true },
        dma_buf_count: DMA_BUF_COUNT,
        dma_buf_len: block_length,
        use_apll: false,
    }
}

/// The order of the channels is the same in both directions: sample `j` of a
/// block is unpacked from the very word into whose high byte sample `j` is
/// packed.
pub proof fn lemma_same_word_both_ways(
    config: &Config,
    data: Seq<u8>,
    scratch: Seq<u8>,
    before: Seq<u16>,
    j: int,
)
    requires
        config.valid(),
        config.num_channels >= 2,
        config.num_channels * config.word_size >= 4,
        data.len() == config.block_length,
        before.len() == config.block_length,
        scratch.len() == config.buffer_size_spec(),
        0 <= j < config.block_length,
        carried(config, j),
    ensures
        captured_at(
            config,
            Seq::new(scratch.len(), |i: int| emitted_at(config, data, scratch, i)),
            before,
            j,
        ) == u12_spec(0, data[j]),
{
    let c = config.num_channels as int;
    let w = config.word_size as int;
    let stride = c * w;
    let frame = j / c;
    let channel = j % c;
    vstd::arithmetic::div_mod::lemma_fundamental_div_mod(j, c);
    crate::audio::lemma_block_is_whole_frames(*config);
    assert(0 <= frame < config.num_frames_spec()) by (nonlinear_arith)
        requires
            j == c * frame + channel,
            0 <= channel < c,
            0 <= j < config.num_frames_spec() * c,
            c >= 1,
    ;
    lemma_slot_in_block(config, frame);
    let slot = frame * c * w;
    assert(slot == frame * stride) by (nonlinear_arith)
        requires
            slot == frame * c * w,
            stride == c * w,
    ;
    let lo = slot + 2 * channel;
    let hi = lo + 1;
    lemma_fundamental_div_mod_converse(lo, stride, frame, 2 * channel);
    lemma_fundamental_div_mod_converse(hi, stride, frame, 2 * channel + 1);
    assert(frame * c + channel == j) by (nonlinear_arith)
        requires
            j == c * frame + channel,
    ;
    let packed = Seq::new(scratch.len(), |i: int| emitted_at(config, data, scratch, i));
    assert(packed[lo] == 0u8);
    assert(packed[hi] == data[j]);
}

/// What brings the hardware up once the scratch buffer is there: the serial
/// audio bus alone.
pub fn bring_up() -> (steps: [Bringup; 1])
    ensures
        steps@ == seq![Bringup::AudioBus],
{
    let steps = [Bringup::AudioBus];
    assert(steps@ =~= seq![Bringup::AudioBus]);
    steps
}

/// The transport's state: its native scratch buffer, one block of bytes.
pub struct Driver {
    /// Native scratch buffer, empty until `init`.
    pub dma_buffer: Vec<u8>,
}

proof fn lemma_slot_in_block(config: &Config, n: int)
    requires
        config.valid(),
        config.num_channels * config.word_size >= 4,
        0 <= n < config.num_frames_spec(),
    ensures
        0 <= n * config.num_channels * config.word_size,
        n * config.num_channels * config.word_size + config.num_channels * config.word_size
            <= config.buffer_size_spec(),
        n * config.num_channels + config.num_channels <= config.block_length,
        0 <= n * config.num_channels,
        (n + 1) * config.num_channels * config.word_size == n * config.num_channels
            * config.word_size + config.num_channels * config.word_size,
        (n + 1) * config.num_channels == n * config.num_channels + config.num_channels,
{
    crate::audio::lemma_block_is_whole_frames(*config);
    let c = config.num_channels as int;
    let w = config.word_size as int;
    let f = config.num_frames_spec();
    assert((n + 1) * c <= f * c) by (nonlinear_arith)
        requires
            n + 1 <= f,
            c >= 0,
    ;
    assert((n + 1) * c == n * c + c) by (nonlinear_arith);
    assert(0 <= n * c) by (nonlinear_arith)
        requires
            n >= 0,
            c >= 0,
    ;
    assert(((n + 1) * c) * w <= (f * c) * w) by (nonlinear_arith)
        requires
            (n + 1) * c <= f * c,
            w >= 0,
    ;
    assert(((n + 1) * c) * w == n * c * w + c * w) by (nonlinear_arith);
    assert(0 <= n * c * w) by (nonlinear_arith)
        requires
            n * c >= 0,
            w >= 0,
    ;
}

impl Codec for Driver {
    type Captured = u16;

    type Emitted = u8;

    open spec fn supports(config: &Config) -> bool {
        config.num_channels >= 2 && config.num_channels * config.word_size >= 4
    }

    open spec fn idle(&self) -> bool {
        self.dma_buffer@.len() == 0
    }

    open spec fn ready(&self, config: &Config) -> bool {
        self.dma_buffer@.len() == config.buffer_size_spec()
    }

    open spec fn armed(&self, config: &Config, after: &Self) -> bool {
        after.dma_buffer@ == Seq::new(config.buffer_size_spec() as nat, |i: int| 0u8)
    }

    open spec fn captured(&self, config: &Config, before: Seq<u16>) -> Seq<u16> {
        Seq::new(before.len(), |j: int| captured_at(config, self.dma_buffer@, before, j))
    }

    open spec fn emitted(&self, config: &Config, data: Seq<u8>, after: &Self) -> bool {
        after.dma_buffer@ == Seq::new(
            self.dma_buffer@.len(),
            |i: int| emitted_at(config, data, self.dma_buffer@, i),
        )
    }

    fn new() -> (driver: Driver) {
        Driver { dma_buffer: Vec::new() }
    }

    fn is_supported(config: &Config) -> (supported: bool) {
        if config.num_channels < 2 {
            return false;
        }
        if config.word_size >= 2 {
            assert(config.num_channels * config.word_size >= 4) by (nonlinear_arith)
                requires
                    config.num_channels >= 2,
                    config.word_size >= 2,
            ;
            return true;
        }
        if config.word_size == 0 {
            assert(config.num_channels * config.word_size == 0) by (nonlinear_arith)
                requires
                    config.word_size == 0,
            ;
            return false;
        }
        assert(config.num_channels * config.word_size == config.num_channels) by (nonlinear_arith)
            requires
                config.word_size == 1,
        ;
        config.num_channels >= 4
    }

    fn is_ready(&self, config: &Config) -> (ready: bool) {
        self.dma_buffer.len() == config.buffer_size()
    }

    fn init(&mut self, config: &Config) -> (result: Result<(), EspError>) {
        let buffer_size = config.buffer_size();
        let mut buffer: Vec<u8> = Vec::new();
        let reserved = buffer.try_reserve(buffer_size).is_ok();
        match scratch(reserved, buffer, buffer_size, 0u8) {
            Ok(buffer) => {
                self.dma_buffer = buffer;
                Ok(())
            },
            Err(e) => Err(e),
        }
    }

    fn read(
        &self,
        config: &Config,
        status: esp_err_t,
        bytes_read: usize,
        callback_buffer: &mut [u16],
    ) -> (result: Result<(), EspError>) {
        check_transfer(config, status, bytes_read)?;
        let num_channels = config.num_channels;
        let word_size = config.word_size;
        let num_frames = config.num_frames();
        let ghost before = callback_buffer@;
        let ghost dma = self.dma_buffer@;
        let mut n: usize = 0;
        while n < num_frames
            invariant
                config.valid(),
                Self::supports(config),
                self.ready(config),
                dma == self.dma_buffer@,
                num_channels == config.num_channels,
                word_size == config.word_size,
                num_frames == config.num_frames_spec(),
                n <= num_frames,
                callback_buffer@.len() == before.len() == config.block_length,
                forall|j: int|
                    0 <= j < n * num_channels ==> callback_buffer@[j] == captured_at(
                        config,
                        dma,
                        before,
                        j,
                    ),
                forall|j: int|
                    n * num_channels <= j < before.len() ==> callback_buffer@[j] == before[j],
            decreases num_frames - n,
        {
            proof {
                lemma_slot_in_block(config, n as int);
            }
            let index_u8 = n * num_channels * word_size;
            let right = u12_from_bytes(self.dma_buffer[index_u8], self.dma_buffer[index_u8 + 1]);
            let left = u12_from_bytes(self.dma_buffer[index_u8 + 2], self.dma_buffer[index_u8 + 3]);
            let index = n * num_channels;
            callback_buffer[index] = right;
            callback_buffer[index + 1] = left;
            proof {
                let c = num_channels as int;
                assert forall|j: int| 0 <= j < (n + 1) * num_channels implies callback_buffer@[j]
                    == captured_at(config, dma, before, j) by {
                    if j >= n * c {
                        lemma_fundamental_div_mod_converse(j, c, n as int, j - n * c);
                    }
                }
            }
            n += 1;
        }
        proof {
            crate::audio::lemma_block_is_whole_frames(*config);
            assert(callback_buffer@ =~= self.captured(config, before));
        }
        Ok(())
    }

    fn write(&mut self, config: &Config, callback_buffer: &[u8]) {
        let num_channels = config.num_channels;
        let word_size = config.word_size;
        let num_frames = config.num_frames();
        let ghost before = self.dma_buffer@;
        let mut n: usize = 0;
        assert(n * num_channels * word_size == 0) by (nonlinear_arith)
            requires
                n == 0,
        ;
        while n < num_frames
            invariant
                config.valid(),
                Self::supports(config),
                num_channels == config.num_channels,
                word_size == config.word_size,
                num_frames == config.num_frames_spec(),
                n <= num_frames,
                callback_buffer@.len() == config.block_length,
                self.dma_buffer@.len() == before.len() == config.buffer_size_spec(),
                forall|i: int|
                    0 <= i < n * num_channels * word_size ==> self.dma_buffer@[i] == emitted_at(
                        config,
                        callback_buffer@,
                        before,
                        i,
                    ),
                forall|i: int|
                    n * num_channels * word_size <= i < before.len() ==> self.dma_buffer@[i]
                        == before[i],
            decreases num_frames - n,
        {
            proof {
                lemma_slot_in_block(config, n as int);
            }
            let index = n * num_channels;
            let right = callback_buffer[index];
            let left = callback_buffer[index + 1];
            let index_u8 = n * num_channels * word_size;
            self.dma_buffer[index_u8] = 0;
            self.dma_buffer[index_u8 + 1] = right;
            self.dma_buffer[index_u8 + 2] = 0;
            self.dma_buffer[index_u8 + 3] = left;
            proof {
                let stride = num_channels as int * word_size as int;
                assert(n * num_channels * word_size == n * stride) by (nonlinear_arith)
                    requires
                        stride == num_channels as int * word_size as int,
                ;
                assert(stride == config.num_channels * config.word_size);
                assert forall|i: int| 0 <= i < (n + 1) * num_channels * word_size implies self.dma_buffer@[i]
                    == emitted_at(config, callback_buffer@, before, i) by {
                    if i >= n * stride {
                        lemma_fundamental_div_mod_converse(i, stride, n as int, i - n * stride);
                    }
                }
            }
            n += 1;
        }
        proof {
            crate::audio::lemma_block_is_whole_frames(*config);
            let f = num_frames as int;
            let c = num_channels as int;
            let w = word_size as int;
            assert(f * c * w == (f * c) * w);
            assert(self.dma_buffer@ =~= Seq::new(
                before.len(),
                |i: int| emitted_at(config, callback_buffer@, before, i),
            ));
        }
    }
}

} // verus!
