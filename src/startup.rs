use vstd::prelude::*;

use crate::config::Config;
use crate::driver::Cs1237;
use crate::protocol::{answers, Action, Error, Event, Line, Step};

verus! {

/// Clock held high this long powers the chip down.
pub const POWER_OFF_HOLD_US: u32 = 1000;

/// Width of each half of a clock pulse.
pub const PULSE_US: u32 = 1;

/// Window for each ready edge of the start-up sequence.
pub const STARTUP_READY_TIMEOUT_MS: u32 = 330;

/// Clock pulses that flush the pending sample and status bits.
pub const DISCARD_PULSES: usize = 29;

/// The seven-bit "write configuration" command.
pub const WRITE_CONFIG_COMMAND: u8 = 0x65;

/// Number of actions in the whole start-up sequence.
pub const STARTUP_LEN: usize = 114;

pub open spec fn drive(line: Line, high: bool, hold_us: u32) -> Action {
    Action::Drive { line, high, hold_us }
}

/// Bit `i` of `v`, counting from the least significant.
pub open spec fn bit(v: u8, i: int) -> bool {
    (v >> (i as u8)) & 1u8 == 1u8
}

/// One clock pulse: high for a pulse width, then low for a pulse width.
pub open spec fn pulse() -> Seq<Action> {
    seq![drive(Line::Clock, true, PULSE_US), drive(Line::Clock, false, PULSE_US)]
}

/// `n` clock pulses in a row.
pub open spec fn pulses(n: nat) -> Seq<Action> {
    Seq::new(2 * n, |k: int| if k % 2 == 0 { pulse()[0] } else { pulse()[1] })
}

/// The low `n` bits of `v`, most significant first: for each bit the data
/// line is set to it, then the clock is pulsed once.
pub open spec fn write_bits(v: u8, n: nat) -> Seq<Action> {
    Seq::new(
        3 * n,
        |k: int|
            if k % 3 == 0 {
                drive(Line::Data, bit(v, n - 1 - k / 3), 0)
            } else if k % 3 == 1 {
                pulse()[0]
            } else {
                pulse()[1]
            },
    )
}

/// The full reset and configure sequence for control byte `packed`:
/// power-off, power-on, first ready edge, discard pulses, command, the gap
/// bit (data low), the control byte, release of the data line, the latch
/// pulse and the second ready edge.
pub open spec fn startup_script(packed: u8) -> Seq<Action> {
    seq![
        drive(Line::Clock, true, POWER_OFF_HOLD_US),
        drive(Line::Clock, false, 0),
        Action::AwaitReady { timeout_ms: STARTUP_READY_TIMEOUT_MS },
    ] + pulses(DISCARD_PULSES as nat) + seq![Action::DataOutput] + write_bits(
        WRITE_CONFIG_COMMAND,
        7,
    ) + write_bits(0, 1) + write_bits(packed, 8) + seq![Action::DataInput] + pulses(1) + seq![
        Action::AwaitReady { timeout_ms: STARTUP_READY_TIMEOUT_MS },
    ]
}

/// Where the sequence goes from action `pos` on event `e`: the next
/// position, or the error that ends it. Position `STARTUP_LEN` is success.
pub open spec fn startup_next(pos: nat, e: Event) -> Result<nat, Error> {
    if e is TimedOut {
        Err(Error::Timeout)
    } else {
        Ok(pos + 1)
    }
}

pub proof fn lemma_script_len(packed: u8)
    ensures
        startup_script(packed).len() == STARTUP_LEN,
{
}

/// Action `k` of `write_bits(v, n)`.
fn bit_action(v: u8, n: usize, k: usize) -> (r: Action)
    requires
        1 <= n <= 8,
        k < 3 * n,
    ensures
        r == write_bits(v, n as nat)[k as int],
{
    let phase = k % 3;
    if phase == 0 {
        let i: usize = n - 1 - k / 3;
        Action::Drive { line: Line::Data, high: (v >> (i as u8)) & 1 == 1, hold_us: 0 }
    } else if phase == 1 {
        Action::Drive { line: Line::Clock, high: true, hold_us: PULSE_US }
    } else {
        Action::Drive { line: Line::Clock, high: false, hold_us: PULSE_US }
    }
}

/// Action `pos` of the start-up sequence for control byte `packed`.
pub fn startup_action(packed: u8, pos: usize) -> (r: Action)
    requires
        pos < STARTUP_LEN,
    ensures
        r == startup_script(packed)[pos as int],
{
    let high = Action::Drive { line: Line::Clock, high: true, hold_us: PULSE_US };
    let low = Action::Drive { line: Line::Clock, high: false, hold_us: PULSE_US };
    if pos == 0 {
        Action::Drive { line: Line::Clock, high: true, hold_us: POWER_OFF_HOLD_US }
    } else if pos == 1 {
        Action::Drive { line: Line::Clock, high: false, hold_us: 0 }
    } else if pos == 2 {
        Action::AwaitReady { timeout_ms: STARTUP_READY_TIMEOUT_MS }
    } else if pos < 61 {
        if (pos - 3) % 2 == 0 {
            high
        } else {
            low
        }
    } else if pos == 61 {
        Action::DataOutput
    } else if pos < 83 {
        bit_action(WRITE_CONFIG_COMMAND, 7, pos - 62)
    } else if pos < 86 {
        bit_action(0, 1, pos - 83)
    } else if pos < 110 {
        bit_action(packed, 8, pos - 86)
    } else if pos == 110 {
        Action::DataInput
    } else if pos < 113 {
        if pos == 111 {
            high
        } else {
            low
        }
    } else {
        Action::AwaitReady { timeout_ms: STARTUP_READY_TIMEOUT_MS }
    }
}

} // verus!

verus! {

/// A reset and configure sequence in progress. It hands out the actions of
/// `startup_script` one by one and, once the chip has signalled ready after
/// configuration, the configured driver.
#[derive(Debug)]
pub struct Startup {
    packed: u8,
    pos: usize,
}

impl Startup {
    /// The control byte this sequence writes.
    pub closed spec fn control_byte(self) -> u8 {
        self.packed
    }

    /// Index of the action now in progress; `STARTUP_LEN` once finished.
    pub closed spec fn position(self) -> nat {
        self.pos as nat
    }

    pub(crate) fn begin(config: &Config) -> (s: Startup)
        ensures
            s.control_byte() == config.spec_packed(),
            s.position() == 0,
    {
        Startup { packed: config.packed(), pos: 0 }
    }

    /// Whether the sequence has ended, in success or failure.
    pub fn is_finished(&self) -> (r: bool)
        ensures
            r == (self.position() >= STARTUP_LEN),
    {
        self.pos >= STARTUP_LEN
    }

    /// The action now in progress.
    pub fn action(&self) -> (a: Action)
        requires
            self.position() < STARTUP_LEN,
        ensures
            a == startup_script(self.control_byte())[self.position() as int],
    {
        startup_action(self.packed, self.pos)
    }

    /// Takes the outcome of the action in progress and moves on: the next
    /// action, a timeout, or the configured driver after the last edge.
    pub fn step(&mut self, e: Event) -> (r: Step<Cs1237>)
        requires
            old(self).position() < STARTUP_LEN,
            answers(startup_script(old(self).control_byte())[old(self).position() as int], e),
        ensures
            final(self).control_byte() == old(self).control_byte(),
            match startup_next(old(self).position(), e) {
                Err(err) => r == Step::<Cs1237>::Finished(Err(err)) && final(self).position()
                    == STARTUP_LEN,
                Ok(next) => if next < STARTUP_LEN {
                    &&& r == Step::<Cs1237>::Perform(startup_script(old(self).control_byte())[next as int])
                    &&& final(self).position() == next
                } else {
                    &&& r matches Step::Finished(Ok(d)) && d.is_idle()
                    &&& final(self).position() == STARTUP_LEN
                },
            },
    {
        if matches!(e, Event::TimedOut) {
            self.pos = STARTUP_LEN;
            Step::Finished(Err(Error::Timeout))
        } else if self.pos + 1 < STARTUP_LEN {
            self.pos = self.pos + 1;
            Step::Perform(startup_action(self.packed, self.pos))
        } else {
            self.pos = STARTUP_LEN;
            Step::Finished(Ok(Cs1237::configured()))
        }
    }
}

/// Right after power-on the sequence waits at most 330 ms for the first
/// ready edge, and a missed edge ends it with a timeout.
pub proof fn lemma_wake_timeout(config: Config)
    ensures
        startup_script(config.spec_packed())[0] == drive(Line::Clock, true, POWER_OFF_HOLD_US),
        startup_script(config.spec_packed())[1] == drive(Line::Clock, false, 0),
        startup_script(config.spec_packed())[2] == (Action::AwaitReady { timeout_ms: 330 }),
        startup_next(2, Event::TimedOut) == Err::<nat, Error>(Error::Timeout),
{
}

/// After the latch pulse the sequence waits at most 330 ms for the second
/// ready edge; a missed edge ends it with a timeout, a seen one completes it.
pub proof fn lemma_settle_timeout(config: Config)
    ensures
        startup_script(config.spec_packed())[STARTUP_LEN - 4] == Action::DataInput,
        startup_script(config.spec_packed())[STARTUP_LEN - 3] == drive(Line::Clock, true, PULSE_US),
        startup_script(config.spec_packed())[STARTUP_LEN - 2] == drive(Line::Clock, false, PULSE_US),
        startup_script(config.spec_packed())[STARTUP_LEN - 1] == (Action::AwaitReady {
            timeout_ms: 330,
        }),
        startup_next((STARTUP_LEN - 1) as nat, Event::TimedOut) == Err::<nat, Error>(
            Error::Timeout,
        ),
        startup_next((STARTUP_LEN - 1) as nat, Event::Ready) == Ok::<nat, Error>(
            STARTUP_LEN as nat,
        ),
{
}

} // verus!
