//! The transport capability and what every transport shares: the judgement of
//! a finished bus transfer and the acquisition of the native scratch buffer.

use vstd::prelude::*;
use crate::audio::Config;
use crate::esp_idf::{esp_err_t, EspError, ESP_ERR_INVALID_SIZE, ESP_ERR_NO_MEM};

pub mod adac;
pub mod sgtl5000;
pub mod sh1106;
pub mod wm8731;

verus! {

/// Outcome of a bus transfer of one block that ended with `status` after
/// `transferred` bytes: the status itself when the bus failed, a size error
/// when the byte count is not that of a block, success otherwise.
pub open spec fn transfer_result(config: &Config, status: esp_err_t, transferred: usize) -> Result<
    (),
    EspError,
> {
    if status != 0 {
        Err(EspError(status))
    } else if transferred != config.buffer_size_spec() {
        Err(EspError(ESP_ERR_INVALID_SIZE))
    } else {
        Ok(())
    }
}

/// Judges a finished bus transfer of one block.
pub fn check_transfer(config: &Config, status: esp_err_t, transferred: usize) -> (result: Result<
    (),
    EspError,
>)
    requires
        config.valid(),
    ensures
        result == transfer_result(config, status, transferred),
{
    if status != 0 {
        return Err(EspError(status));
    }
    if transferred != config.buffer_size() {
        return Err(EspError(ESP_ERR_INVALID_SIZE));
    }
    Ok(())
}

/// What an attempt to acquire a scratch buffer of `len` zeroed words amounts
/// to: the buffer when the memory was `reserved`, the out-of-memory error when
/// it was not.
pub open spec fn scratch_result<T>(reserved: bool, len: usize, zero: T) -> Result<Seq<T>, EspError> {
    if reserved {
        Ok(Seq::new(len as nat, |i: int| zero))
    } else {
        Err(EspError(ESP_ERR_NO_MEM))
    }
}

/// Completes the acquisition of a scratch buffer: fills `buffer` with `len`
/// zeroed words when its memory was `reserved`, and reports the out-of-memory
/// error when it was not.
pub fn scratch<T: Copy>(reserved: bool, buffer: Vec<T>, len: usize, zero: T) -> (result: Result<
    Vec<T>,
    EspError,
>)
    requires
        buffer@.len() == 0,
    ensures
        match scratch_result(reserved, len, zero) {
            Ok(words) => result matches Ok(v) && v@ == words,
            Err(e) => result == Err::<Vec<T>, EspError>(e),
        },
{
    if !reserved {
        return Err(EspError(ESP_ERR_NO_MEM));
    }
    let mut buffer = buffer;
    let mut i: usize = 0;
    while i < len
        invariant
            i <= len,
            buffer@.len() == i,
            forall|j: int| 0 <= j < i ==> buffer@[j] == zero,
        decreases len - i,
    {
        buffer.push(zero);
        i += 1;
    }
    assert(buffer@ =~= Seq::new(len as nat, |i: int| zero));
    Ok(buffer)
}

/// One step of bringing a transport's hardware up, after its scratch buffer
/// was acquired.
#[derive(Copy, Clone, Debug, PartialEq, Eq, Structural)]
pub enum Bringup {
    /// Install and configure the serial audio bus.
    AudioBus,
    /// Route the master clock to the chip.
    MasterClock,
    /// Wait this many microseconds.
    Settle(u32),
    /// Install and configure the control bus.
    ControlBus,
    /// Program the registers of the chip at this address of the control
    /// bus.
    Configure(u8),
}

/// Sample `j` of a block is one that the transports carry: it belongs to
/// one of the first two channels of its frame.
pub open spec fn carried(config: &Config, j: int) -> bool {
    j % (config.num_channels as int) < 2
}

/// Tells whether sample `j` of a block is one that the transports carry.
pub fn is_carried(config: &Config, j: usize) -> (carries: bool)
    requires
        config.num_channels >= 1,
    ensures
        carries == carried(config, j as int),
{
    j % config.num_channels < 2
}

/// Sample `j` of a block after the first two samples of each of its frames
/// were copied from `source`: further channels keep what `before` held.
pub open spec fn stereo_at(config: &Config, source: Seq<i16>, before: Seq<i16>, j: int) -> i16 {
    if carried(config, j) {
        source[j]
    } else {
        before[j]
    }
}

/// A block after the first two samples of each of its frames were copied
/// from `source`.
pub open spec fn stereo(config: &Config, source: Seq<i16>, before: Seq<i16>) -> Seq<i16> {
    Seq::new(before.len(), |j: int| stereo_at(config, source, before, j))
}

/// The order of the channels is the same in both directions: a block that is
/// packed into the scratch buffer and unpacked again comes back sample for
/// sample in the channels that are carried.
pub proof fn lemma_stereo_round_trip(
    config: &Config,
    data: Seq<i16>,
    scratch: Seq<i16>,
    before: Seq<i16>,
    j: int,
)
    requires
        data.len() == scratch.len() == before.len(),
        0 <= j < data.len(),
    ensures
        stereo(config, stereo(config, data, scratch), before)[j] == (if carried(config, j) {
            data[j]
        } else {
            before[j]
        }),
{
}

/// Copies the first two samples of each frame, right channel then left, from
/// `source` to the same places in `destination`.
pub fn copy_stereo(config: &Config, source: &[i16], destination: &mut [i16])
    requires
        config.valid(),
        config.num_channels >= 2,
        source@.len() == config.block_length,
        old(destination)@.len() == config.block_length,
    ensures
        final(destination)@ == stereo(config, source@, old(destination)@),
{
    let num_channels = config.num_channels;
    let num_frames = config.num_frames();
    let ghost before = destination@;
    let mut n: usize = 0;
    while n < num_frames
        invariant
            config.valid(),
            num_channels == config.num_channels,
            num_channels >= 2,
            num_frames == config.num_frames_spec(),
            n <= num_frames,
            source@.len() == config.block_length,
            destination@.len() == before.len() == config.block_length,
            forall|j: int|
                0 <= j < n * num_channels ==> destination@[j] == stereo_at(
                    config,
                    source@,
                    before,
                    j,
                ),
            forall|j: int| n * num_channels <= j < before.len() ==> destination@[j] == before[j],
        decreases num_frames - n,
    {
        proof {
            crate::audio::lemma_block_is_whole_frames(*config);
            let c = num_channels as int;
            let f = num_frames as int;
            assert((n + 1) * c <= f * c) by (nonlinear_arith)
                requires
                    n + 1 <= f,
                    c >= 0,
            ;
            assert((n + 1) * c == n * c + c) by (nonlinear_arith);
            assert(0 <= n * c) by (nonlinear_arith)
                requires
                    n >= 0,
                    c >= 0,
            ;
        }
        let index = n * num_channels;
        let right = source[index];
        let left = source[index + 1];
        destination[index] = right;
        destination[index + 1] = left;
        proof {
            let c = num_channels as int;
            assert forall|j: int| 0 <= j < (n + 1) * num_channels implies destination@[j]
                == stereo_at(config, source@, before, j) by {
                if j >= n * c {
                    vstd::arithmetic::div_mod::lemma_fundamental_div_mod_converse(
                        j,
                        c,
                        n as int,
                        j - n * c,
                    );
                }
            }
        }
        n += 1;
    }
    proof {
        crate::audio::lemma_block_is_whole_frames(*config);
        assert(destination@ =~= stereo(config, source@, before));
    }
}

/// One physical transport of native samples.
///
/// A transport owns a scratch buffer in its native word width. The firmware
/// moves that buffer over the bus; the methods here size it, unpack the native
/// samples of a block that arrived and pack those of a block that leaves. The
/// order of the channels within a frame is the same in both directions.
pub trait Codec: Sized {
    /// Native sample as the bus delivers it.
    type Captured;

    /// Native sample as the bus accepts it.
    type Emitted;

    /// The configurations whose frames this transport can frame.
    spec fn supports(config: &Config) -> bool;

    /// No scratch buffer has been acquired.
    spec fn idle(&self) -> bool;

    /// The scratch buffer has the size of one block of `config`.
    spec fn ready(&self, config: &Config) -> bool;

    /// The transport as `init` leaves it when the scratch buffer was acquired.
    spec fn armed(&self, config: &Config, after: &Self) -> bool;

    /// The samples that `read` leaves in a callback buffer that held `before`.
    spec fn captured(&self, config: &Config, before: Seq<Self::Captured>) -> Seq<Self::Captured>;

    /// The transport as `write` leaves it after packing `data`.
    spec fn emitted(&self, config: &Config, data: Seq<Self::Emitted>, after: &Self) -> bool;

    /// A transport without scratch buffer. No hardware is touched.
    fn new() -> (driver: Self)
        ensures
            driver.idle(),
    ;

    /// Tells whether this transport can frame the blocks of `config`.
    fn is_supported(config: &Config) -> (supported: bool)
        requires
            config.valid(),
        ensures
            supported == Self::supports(config),
    ;

    /// Tells whether the scratch buffer has the size of one block of
    /// `config`.
    fn is_ready(&self, config: &Config) -> (ready: bool)
        requires
            config.valid(),
        ensures
            ready == self.ready(config),
    ;

    /// Acquires the zeroed scratch buffer for `config`. Fails with the
    /// out-of-memory error, and leaves the transport as it was, when the
    /// allocator refuses.
    fn init(&mut self, config: &Config) -> (result: Result<(), EspError>)
        requires
            config.valid(),
        ensures
            result is Ok ==> old(self).armed(config, final(self)) && final(self).ready(config),
            result is Err ==> result == Err::<(), EspError>(EspError(ESP_ERR_NO_MEM)) && *final(self)
                == *old(self),
    ;

    /// Judges the bus transfer that filled the scratch buffer, and on success
    /// unpacks its native samples into `callback_buffer`. On failure the
    /// callback buffer keeps what it held.
    fn read(
        &self,
        config: &Config,
        status: esp_err_t,
        bytes_read: usize,
        callback_buffer: &mut [Self::Captured],
    ) -> (result: Result<(), EspError>)
        requires
            config.valid(),
            Self::supports(config),
            self.ready(config),
            old(callback_buffer)@.len() == config.block_length,
        ensures
            result == transfer_result(config, status, bytes_read),
            result is Ok ==> final(callback_buffer)@ == self.captured(config, old(callback_buffer)@),
            result is Err ==> final(callback_buffer)@ == old(callback_buffer)@,
    ;

    /// Packs the native samples of `callback_buffer` into the scratch buffer,
    /// ready for the bus.
    fn write(&mut self, config: &Config, callback_buffer: &[Self::Emitted])
        requires
            config.valid(),
            Self::supports(config),
            old(self).ready(config),
            callback_buffer@.len() == config.block_length,
        ensures
            old(self).emitted(config, callback_buffer@, final(self)),
            final(self).ready(config),
    ;
}

/// One physical display.
///
/// The firmware performs the bus transfers; the methods here say which, and
/// in what order.
pub trait Display: Sized {
    /// One transfer on the display's bus.
    type Transfer;

    /// The display is wired in the default way.
    spec fn idle(&self) -> bool;

    /// The frame buffer holds every page of the panel.
    spec fn holds(frame_buffer: Seq<u8>) -> bool;

    /// `plan` is the sequence of transfers that configures the panel.
    spec fn configures(plan: Seq<Self::Transfer>) -> bool;

    /// `plan` is the sequence of transfers that shows `frame_buffer`.
    spec fn shows(frame_buffer: Seq<u8>, plan: Seq<Self::Transfer>) -> bool;

    /// A display in the default wiring. No hardware is touched.
    fn new() -> (driver: Self)
        ensures
            driver.idle(),
    ;

    /// Tells whether `frame_buffer` holds every page of the panel.
    fn can_show(frame_buffer: &[u8]) -> (holds: bool)
        ensures
            holds == Self::holds(frame_buffer@),
    ;

    /// The transfers that configure the panel, in order.
    fn init(&mut self, config: &crate::display::Config) -> (plan: Vec<Self::Transfer>)
        ensures
            Self::configures(plan@),
            *final(self) == *old(self),
    ;

    /// The transfers that show `frame_buffer`, in order.
    fn write(&self, frame_buffer: &[u8]) -> (plan: Vec<Self::Transfer>)
        requires
            Self::holds(frame_buffer@),
        ensures
            Self::shows(frame_buffer@, plan@),
    ;
}

} // verus!
