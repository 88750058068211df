use vstd::prelude::*;

use byteorder::{BigEndian, ByteOrder};

use crate::config::Config;
use crate::protocol::{Action, Error, Event, Step};
use crate::startup::Startup;

verus! {

/// Window for the ready edge that announces each sample.
pub const READ_READY_TIMEOUT_MS: u32 = 110;

/// Width of one sample on the wire, in bytes.
pub const SAMPLE_BYTES: usize = 3;

/// Three bytes, most significant first, read as a two's-complement 24-bit
/// integer.
pub open spec fn i24_be(b0: u8, b1: u8, b2: u8) -> int {
    let u = b0 as int * 65536 + b1 as int * 256 + b2 as int;
    if u >= 0x800000 {
        u - 0x1000000
    } else {
        u
    }
}

/// Relies on byteorder's `BigEndian::read_i24`: the three bytes as a
/// big-endian two's-complement 24-bit integer, sign-extended to 32 bits.
#[verifier::external_body]
fn read_i24_be(buf: &[u8; 3]) -> (r: i32)
    ensures
        r as int == i24_be(buf@[0], buf@[1], buf@[2]),
{
    BigEndian::read_i24(buf)
}

/// Decodes one sample as the chip sends it.
pub fn decode_sample(b0: u8, b1: u8, b2: u8) -> (r: i32)
    ensures
        r as int == i24_be(b0, b1, b2),
{
    let buf: [u8; 3] = [b0, b1, b2];
    read_i24_be(&buf)
}

/// Where a sample read stands.
#[derive(Clone, Copy, Debug, PartialEq, Eq, Structural)]
pub enum ReadPhase {
    Idle,
    AwaitingReady,
    Receiving,
}

/// The action a read in phase `p` waits on.
pub open spec fn read_action(p: ReadPhase) -> Action {
    match p {
        ReadPhase::Receiving => Action::Receive { len: SAMPLE_BYTES },
        _ => Action::AwaitReady { timeout_ms: READ_READY_TIMEOUT_MS },
    }
}

/// A configured converter. Only a completed start-up sequence yields one.
#[derive(Debug)]
pub struct Cs1237 {
    phase: ReadPhase,
}

impl Cs1237 {
    pub closed spec fn phase(self) -> ReadPhase {
        self.phase
    }

    pub open spec fn is_idle(self) -> bool {
        self.phase() == ReadPhase::Idle
    }

    pub(crate) fn configured() -> (d: Cs1237)
        ensures
            d.is_idle(),
    {
        Cs1237 { phase: ReadPhase::Idle }
    }

    /// Starts bringing up a converter with `config`. The returned sequence
    /// asks for each line action in turn and yields the driver once the chip
    /// has taken the configuration, or `Error::Timeout`.
    pub fn try_new(config: Config) -> (s: Startup)
        ensures
            s.control_byte() == config.spec_packed(),
            s.position() == 0,
    {
        Startup::begin(&config)
    }

    /// Starts reading the next sample: the first action is always a wait
    /// for a fresh ready edge, whatever an earlier read left behind.
    pub fn read(&mut self) -> (a: Action)
        ensures
            a == (Action::AwaitReady { timeout_ms: READ_READY_TIMEOUT_MS }),
            final(self).phase() == ReadPhase::AwaitingReady,
    {
        self.phase = ReadPhase::AwaitingReady;
        Action::AwaitReady { timeout_ms: READ_READY_TIMEOUT_MS }
    }

    /// Takes the outcome of the action in progress: a seen edge leads to the
    /// transfer, the transfer's bytes to the decoded sample; a missed edge or
    /// a failed transfer ends the read with its error.
    pub fn step(&mut self, e: Event) -> (r: Step<i32>)
        requires
            old(self).phase() != ReadPhase::Idle,
            crate::protocol::answers(read_action(old(self).phase()), e),
        ensures
            e is TimedOut ==> r == Step::<i32>::Finished(Err(Error::Timeout)) && final(self).is_idle(),
            e is Ready ==> r == Step::<i32>::Perform(Action::Receive { len: SAMPLE_BYTES })
                && final(self).phase() == ReadPhase::Receiving,
            e is TransferFailed ==> r == Step::<i32>::Finished(Err(Error::SpiError))
                && final(self).is_idle(),
            e matches Event::Received(b0, b1, b2) ==> r == Step::<i32>::Finished(
                Ok(i24_be(b0, b1, b2) as i32),
            ) && final(self).is_idle(),
    {
        match e {
            Event::Ready => {
                self.phase = ReadPhase::Receiving;
                Step::Perform(Action::Receive { len: SAMPLE_BYTES })
            },
            Event::Received(b0, b1, b2) => {
                self.phase = ReadPhase::Idle;
                Step::Finished(Ok(decode_sample(b0, b1, b2)))
            },
            Event::TransferFailed => {
                self.phase = ReadPhase::Idle;
                Step::Finished(Err(Error::SpiError))
            },
            _ => {
                self.phase = ReadPhase::Idle;
                Step::Finished(Err(Error::Timeout))
            },
        }
    }
}

/// Distinct byte patterns decode to distinct samples.
pub proof fn lemma_decode_injective(a0: u8, a1: u8, a2: u8, b0: u8, b1: u8, b2: u8)
    requires
        a0 != b0 || a1 != b1 || a2 != b2,
    ensures
        i24_be(a0, a1, a2) != i24_be(b0, b1, b2),
{
    let ua = a0 as int * 65536 + a1 as int * 256 + a2 as int;
    let ub = b0 as int * 65536 + b1 as int * 256 + b2 as int;
    assert(ua != ub) by (nonlinear_arith)
        requires
            a0 != b0 || a1 != b1 || a2 != b2,
            ua == a0 as int * 65536 + a1 as int * 256 + a2 as int,
            ub == b0 as int * 65536 + b1 as int * 256 + b2 as int,
            0 <= a0 < 256,
            0 <= a1 < 256,
            0 <= a2 < 256,
            0 <= b0 < 256,
            0 <= b1 < 256,
            0 <= b2 < 256,
    ;
}

} // verus!
