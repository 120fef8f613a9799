//! The audio interface: session configuration and the sequencing of the block
//! pipeline.

use vstd::prelude::*;
use crate::driver::Codec;
use crate::esp_idf::{EspError, ESP_ERR_NO_MEM};

verus! {

/// Opaque numeric handle by which foreign code names a registered interface.
#[derive(Copy, Clone, Debug, PartialEq, Eq, Structural)]
pub struct OpaqueInterface {
    /// Position of the interface in its registry.
    pub index: usize,
}

/// Session parameters. They do not change once the session has started.
#[derive(Copy, Clone, Debug, PartialEq, Eq, Structural)]
pub struct Config {
    /// Sample rate in Hz, as handed to the serial audio bus.
    pub fs: u32,
    /// Samples per frame.
    pub num_channels: usize,
    /// Bytes per native sample.
    pub word_size: usize,
    /// Samples per block, all channels counted.
    pub block_length: usize,
}

impl Config {
    /// A block is a whole number of frames, and its native size is addressable.
    pub open spec fn valid(&self) -> bool {
        &&& self.num_channels >= 1
        &&& self.block_length % self.num_channels == 0
        &&& self.block_length * self.word_size <= usize::MAX
    }

    /// Bytes that one block occupies on the bus.
    pub open spec fn buffer_size_spec(&self) -> int {
        self.block_length * self.word_size
    }

    /// Frames in one block.
    pub open spec fn num_frames_spec(&self) -> int {
        self.block_length as int / self.num_channels as int
    }

    /// Tells whether `self` is a valid configuration.
    pub fn is_valid(&self) -> (b: bool)
        ensures
            b == self.valid(),
    {
        if self.num_channels == 0 {
            return false;
        }
        if self.block_length % self.num_channels != 0 {
            return false;
        }
        self.block_length.checked_mul(self.word_size).is_some()
    }

    /// Bytes that one block occupies on the bus.
    pub fn buffer_size(&self) -> (size: usize)
        requires
            self.valid(),
        ensures
            size == self.buffer_size_spec(),
    {
        self.block_length * self.word_size
    }

    /// Frames in one block.
    pub fn num_frames(&self) -> (frames: usize)
        requires
            self.valid(),
        ensures
            frames == self.num_frames_spec(),
    {
        self.block_length / self.num_channels
    }
}

/// A valid block splits into frames without remainder: every frame slot holds
/// exactly one sample per channel.
pub proof fn lemma_block_is_whole_frames(config: Config)
    requires
        config.valid(),
    ensures
        config.block_length % config.num_channels == 0,
        config.num_frames_spec() * config.num_channels == config.block_length,
        0 <= config.num_frames_spec() <= config.block_length,
{
    let l = config.block_length as int;
    let c = config.num_channels as int;
    vstd::arithmetic::div_mod::lemma_fundamental_div_mod(l, c);
    assert(l == c * (l / c) + l % c);
    assert(c * (l / c) == (l / c) * c) by (nonlinear_arith);
    assert(0 <= l / c <= l) by (nonlinear_arith)
        requires
            l >= 0,
            c >= 1,
    ;
}

/// One operation of the block loop.
#[derive(Copy, Clone, Debug, PartialEq, Eq, Structural)]
pub enum Step {
    /// Pull one block from the transport.
    Read,
    /// Hand the block to the user callback, inside the critical section.
    Callback,
    /// Push the block to the transport.
    Write,
}

impl Step {
    /// The operation that follows `self` in the block loop.
    pub open spec fn succ(self) -> Step {
        match self {
            Step::Read => Step::Callback,
            Step::Callback => Step::Write,
            Step::Write => Step::Read,
        }
    }

    /// The operation that follows `self` in the block loop.
    pub fn next(self) -> (step: Step)
        ensures
            step == self.succ(),
    {
        match self {
            Step::Read => Step::Callback,
            Step::Callback => Step::Write,
            Step::Write => Step::Read,
        }
    }
}

/// The operation that the block loop performs after `n` completed ones.
pub open spec fn nth_step(n: nat) -> Step
    decreases n,
{
    if n == 0 {
        Step::Read
    } else {
        nth_step((n - 1) as nat).succ()
    }
}

/// Within every iteration of the block loop the transport is read first, the
/// callback runs second and the transport is written last: operation `3k` is
/// the read of iteration `k`, operation `3k + 1` its callback and operation
/// `3k + 2` its write.
pub proof fn lemma_pipeline_order(k: nat)
    ensures
        nth_step(3 * k) == Step::Read,
        nth_step(3 * k + 1) == Step::Callback,
        nth_step(3 * k + 2) == Step::Write,
    decreases k,
{
    if k > 0 {
        lemma_pipeline_order((k - 1) as nat);
        assert(nth_step(3 * k) == nth_step((3 * k - 1) as nat).succ());
        assert(nth_step((3 * k - 1) as nat) == nth_step((3 * (k - 1) + 2) as nat));
    }
    assert(nth_step(3 * k + 1) == nth_step(3 * k).succ());
    assert(nth_step(3 * k + 2) == nth_step(3 * k + 1).succ());
}

/// How far the start-up of a session has come.
#[derive(Copy, Clone, Debug, PartialEq, Eq, Structural)]
pub enum Stage {
    /// Constructed; the dedicated execution context has not reported.
    Created,
    /// The execution context is ready; the transport holds no scratch
    /// buffer.
    ThreadReady,
    /// The transport holds its scratch buffer; its buses and its chip are
    /// not known to be up.
    Allocated,
    /// The bring-up of the transport has been reported complete, and the
    /// block loop may run.
    Streaming,
}

/// A failed transport operation of the block loop, to be logged.
#[derive(Copy, Clone, Debug, PartialEq, Eq, Structural)]
pub struct Failure {
    /// The operation that failed.
    pub step: Step,
    /// The error it failed with.
    pub error: EspError,
}

/// The failure to log for an operation `step` that ended with `outcome`.
pub open spec fn failure_of(step: Step, outcome: Result<(), EspError>) -> Option<Failure> {
    match outcome {
        Ok(_) => None,
        Err(error) => Some(Failure { step, error }),
    }
}

/// One full-duplex audio session over the transport `D`.
pub struct Interface<D> {
    config: Config,
    driver: D,
    stage: Stage,
    step: Step,
    completed: Ghost<nat>,
}

impl<D: Codec> Interface<D> {
    /// The session parameters.
    pub closed spec fn spec_config(&self) -> Config {
        self.config
    }

    /// The transport.
    pub closed spec fn spec_driver(&self) -> &D {
        &self.driver
    }

    /// How far the start-up has come.
    pub closed spec fn stage(&self) -> Stage {
        self.stage
    }

    /// The operation that the block loop performs next.
    pub closed spec fn step(&self) -> Step {
        self.step
    }

    /// The number of operations that the block loop has completed.
    pub closed spec fn completed(&self) -> nat {
        self.completed@
    }

    /// The session parameters are valid, the loop has completed nothing
    /// before it streams, and its next operation is the one that its count of
    /// completed operations gives.
    pub open spec fn wf(&self) -> bool {
        &&& self.config().valid()
        &&& self.step() == nth_step(self.completed())
        &&& self.stage() != Stage::Streaming ==> self.completed() == 0
    }

    /// A stereo session of 16-bit words at sample rate `fs` with blocks of
    /// `block_length` samples, over a transport that holds no resources yet.
    pub fn new(fs: u32, block_length: usize) -> (interface: Interface<D>)
        requires
            block_length % 2 == 0,
            block_length * 2 <= usize::MAX,
        ensures
            interface.config() == (Config { fs, num_channels: 2, word_size: 2, block_length }),
            interface.config().valid(),
            interface.driver().idle(),
            interface.stage() == Stage::Created,
            interface.completed() == 0,
            interface.wf(),
    {
        Interface {
            config: Config { fs, num_channels: 2, word_size: 2, block_length },
            driver: D::new(),
            stage: Stage::Created,
            step: Step::Read,
            completed: Ghost(0),
        }
    }

    /// A stereo session of 16-bit words at sample rate `fs` with blocks of
    /// `block_length` samples, or nothing when such a block would split a
    /// frame or could not be addressed.
    pub fn try_new(fs: u32, block_length: usize) -> (interface: Option<Interface<D>>)
        ensures
            (Config { fs, num_channels: 2, word_size: 2, block_length }).valid() ==> {
                &&& interface matches Some(i)
                &&& i.config() == (Config { fs, num_channels: 2, word_size: 2, block_length })
                &&& i.driver().idle()
                &&& i.stage() == Stage::Created
                &&& i.completed() == 0
                &&& i.wf()
            },
            !(Config { fs, num_channels: 2, word_size: 2, block_length }).valid()
                ==> interface is None,
    {
        let config = Config { fs, num_channels: 2, word_size: 2, block_length };
        if config.is_valid() {
            Some(Interface::new(fs, block_length))
        } else {
            None
        }
    }

    /// The session parameters.
    #[verifier::when_used_as_spec(spec_config)]
    pub fn config(&self) -> (config: Config)
        ensures
            config == self.spec_config(),
    {
        self.config
    }

    /// The transport.
    #[verifier::when_used_as_spec(spec_driver)]
    pub fn driver(&self) -> (driver: &D)
        ensures
            driver == self.spec_driver(),
    {
        &self.driver
    }

    /// The transport, for the firmware to move its scratch buffer over the
    /// bus and to pack and unpack blocks. The session itself stays where it is.
    pub fn driver_mut(&mut self) -> (driver: &mut D)
        ensures
            *driver == *old(self).driver(),
            *final(self).driver() == *final(driver),
            final(self).config() == old(self).config(),
            final(self).stage() == old(self).stage(),
            final(self).step() == old(self).step(),
            final(self).completed() == old(self).completed(),
    {
        &mut self.driver
    }

    /// How far the start-up has come.
    pub fn current_stage(&self) -> (stage: Stage)
        ensures
            stage == self.stage(),
    {
        self.stage
    }

    /// Records that the dedicated execution context has signalled its
    /// readiness. Anything but a freshly created session is left as it is.
    pub fn thread_ready(&mut self)
        ensures
            final(self).stage() == (if old(self).stage() == Stage::Created {
                Stage::ThreadReady
            } else {
                old(self).stage()
            }),
            final(self).config() == old(self).config(),
            final(self).driver() == old(self).driver(),
            final(self).step() == old(self).step(),
            final(self).completed() == old(self).completed(),
    {
        if self.stage == Stage::Created {
            self.stage = Stage::ThreadReady;
        }
    }

    /// Takes the `outcome` of the transport's acquisition of its scratch
    /// buffer, once the execution context is ready: with the buffer the
    /// session is allocated, without it the session stays where it was. The
    /// outcome goes on to the caller.
    pub fn acquired(&mut self, outcome: Result<(), EspError>) -> (result: Result<(), EspError>)
        requires
            old(self).wf(),
            old(self).stage() == Stage::ThreadReady,
        ensures
            result == outcome,
            final(self).stage() == (if outcome is Ok {
                Stage::Allocated
            } else {
                Stage::ThreadReady
            }),
            final(self).config() == old(self).config(),
            final(self).driver() == old(self).driver(),
            final(self).step() == old(self).step(),
            final(self).completed() == 0,
            final(self).wf(),
    {
        if outcome.is_ok() {
            self.stage = Stage::Allocated;
        }
        outcome
    }

    /// Has the transport acquire its scratch buffer, once the execution
    /// context is ready. This is the first part of the transport's
    /// initialisation; the block loop stays closed until the outcome of the
    /// rest, the bring-up of the buses and the chip, is handed to
    /// `configured`. A transport that cannot get its buffer leaves the
    /// session where it was, and its error goes to the caller.
    pub fn start(&mut self) -> (result: Result<(), EspError>)
        requires
            old(self).wf(),
            old(self).stage() == Stage::ThreadReady,
        ensures
            final(self).wf(),
            final(self).config() == old(self).config(),
            final(self).step() == old(self).step(),
            final(self).completed() == 0,
            result is Ok ==> {
                &&& final(self).stage() == Stage::Allocated
                &&& old(self).driver().armed(&old(self).config(), final(self).driver())
                &&& final(self).driver().ready(&final(self).config())
            },
            result is Err ==> {
                &&& result == Err::<(), EspError>(EspError(ESP_ERR_NO_MEM))
                &&& final(self).stage() == Stage::ThreadReady
                &&& final(self).driver() == old(self).driver()
            },
    {
        let config = self.config;
        let outcome = self.driver.init(&config);
        self.acquired(outcome)
    }

    /// Takes the `outcome` of the bring-up of the transport's buses and
    /// chip, which follows the acquisition of the scratch buffer. Only a
    /// bring-up that succeeded opens the block loop, with the read of the
    /// first block pending. A failure is fatal to this start: the session
    /// falls back to where the transport is initialised anew, and the error
    /// goes to the caller.
    pub fn configured(&mut self, outcome: Result<(), EspError>) -> (result: Result<(), EspError>)
        requires
            old(self).wf(),
            old(self).stage() == Stage::Allocated,
        ensures
            result == outcome,
            final(self).stage() == (if outcome is Ok {
                Stage::Streaming
            } else {
                Stage::ThreadReady
            }),
            final(self).config() == old(self).config(),
            final(self).driver() == old(self).driver(),
            final(self).step() == Step::Read,
            final(self).completed() == 0,
            final(self).wf(),
    {
        if outcome.is_ok() {
            self.stage = Stage::Streaming;
        } else {
            self.stage = Stage::ThreadReady;
        }
        outcome
    }

    /// The operation that the block loop must perform now.
    pub fn pending(&self) -> (step: Step)
        requires
            self.stage() == Stage::Streaming,
        ensures
            step == self.step(),
    {
        self.step
    }

    /// Records the `outcome` of the pending operation and moves on to the
    /// next one. A failure never stops or reorders the loop: it is handed
    /// back to be logged, and the loop goes on.
    pub fn complete(&mut self, outcome: Result<(), EspError>) -> (failure: Option<Failure>)
        requires
            old(self).wf(),
            old(self).stage() == Stage::Streaming,
        ensures
            final(self).wf(),
            final(self).stage() == Stage::Streaming,
            final(self).step() == old(self).step().succ(),
            final(self).completed() == old(self).completed() + 1,
            final(self).config() == old(self).config(),
            final(self).driver() == old(self).driver(),
            failure == failure_of(old(self).step(), outcome),
    {
        let step = self.step;
        self.step = step.next();
        proof {
            self.completed = Ghost((self.completed@ + 1) as nat);
        }
        match outcome {
            Ok(()) => None,
            Err(error) => Some(Failure { step, error }),
        }
    }

    /// Tells whether a buffer of `buffer_size` samples, as foreign code hands
    /// it to the callback, is one block of this session.
    pub fn accepts(&self, buffer_size: usize) -> (fits: bool)
        ensures
            fits == (buffer_size == self.config().block_length),
    {
        buffer_size == self.config.block_length
    }
}

/// Every session has blocks of whole frames: the block length is a multiple
/// of the channel count.
pub proof fn lemma_session_block_is_whole_frames<D: Codec>(interface: &Interface<D>)
    requires
        interface.wf(),
    ensures
        interface.config().block_length % interface.config().num_channels == 0,
        interface.config().num_frames_spec() * interface.config().num_channels
            == interface.config().block_length,
{
    lemma_block_is_whole_frames(interface.config());
}

/// In a streaming session the pending operation is decided by the count of
/// completed operations alone: a read after every third, then the callback,
/// then the write.
pub proof fn lemma_pending_by_count<D: Codec>(interface: &Interface<D>)
    requires
        interface.wf(),
    ensures
        interface.completed() % 3 == 0 ==> interface.step() == Step::Read,
        interface.completed() % 3 == 1 ==> interface.step() == Step::Callback,
        interface.completed() % 3 == 2 ==> interface.step() == Step::Write,
{
    let n = interface.completed();
    let k = n / 3;
    lemma_pipeline_order(k);
    assert(n == 3 * k + n % 3);
}

/// The interfaces that foreign code may name, each by the handle that its
/// registration returned.
pub struct Registry<D> {
    interfaces: Vec<Interface<D>>,
}

impl<D: Codec> View for Registry<D> {
    type V = Seq<Interface<D>>;

    closed spec fn view(&self) -> Seq<Interface<D>> {
        self.interfaces@
    }
}

impl<D: Codec> Registry<D> {
    /// A registry without interfaces.
    pub fn new() -> (registry: Registry<D>)
        ensures
            registry@.len() == 0,
    {
        Registry { interfaces: Vec::new() }
    }

    /// Takes `interface` in and returns the handle that names it from now
    /// on. The handles given out before keep naming what they named.
    pub fn register(&mut self, interface: Interface<D>) -> (handle: OpaqueInterface)
        ensures
            final(self)@ == old(self)@.push(interface),
            handle.index == old(self)@.len(),
    {
        let index = self.interfaces.len();
        self.interfaces.push(interface);
        OpaqueInterface { index }
    }

    /// The interface that `handle` names, if it names one.
    pub fn get(&self, handle: OpaqueInterface) -> (interface: Option<&Interface<D>>)
        ensures
            handle.index < self@.len() ==> interface == Some(&self@[handle.index as int]),
            handle.index >= self@.len() ==> interface is None,
    {
        if handle.index < self.interfaces.len() {
            Some(&self.interfaces[handle.index])
        } else {
            None
        }
    }

    /// Tells whether foreign code that names `handle` and brings a buffer of
    /// `buffer_size` samples may have the callback run: the handle names an
    /// interface, and the buffer is one block of its session.
    pub fn admits(&self, handle: OpaqueInterface, buffer_size: usize) -> (admitted: bool)
        ensures
            admitted == (handle.index < self@.len() && buffer_size
                == self@[handle.index as int].config().block_length),
    {
        match self.get(handle) {
            Some(interface) => interface.accepts(buffer_size),
            None => false,
        }
    }
}

} // verus!
