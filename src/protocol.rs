use vstd::prelude::*;

verus! {

/// Failure of a start-up sequence or of a sample read.
#[derive(Clone, Copy, Debug, PartialEq, Eq, Structural)]
pub enum Error {
    /// The serial transfer itself reported a fault.
    SpiError,
    /// The chip did not pull the data line low within the allotted window.
    Timeout,
}

/// The two wires shared with the chip.
#[derive(Clone, Copy, Debug, PartialEq, Eq, Structural)]
pub enum Line {
    Clock,
    Data,
}

/// One piece of work on the wires, asked of the caller by a protocol machine.
#[derive(Clone, Copy, Debug, PartialEq, Eq, Structural)]
pub enum Action {
    /// Drive `line` to the given level, then hold it for `hold_us` microseconds.
    Drive { line: Line, high: bool, hold_us: u32 },
    /// Turn the data line into a driven output.
    DataOutput,
    /// Release the data line back to a floating input.
    DataInput,
    /// Wait for a falling edge on the data line, for at most `timeout_ms`.
    AwaitReady { timeout_ms: u32 },
    /// Clock in `len` bytes through the serial peripheral.
    Receive { len: usize },
}

/// What happened when the caller performed the last action.
#[derive(Clone, Copy, Debug, PartialEq, Eq, Structural)]
pub enum Event {
    /// A drive or a change of line direction is done.
    Completed,
    /// The falling edge came within the window.
    Ready,
    /// The window closed without a falling edge.
    TimedOut,
    /// The transfer delivered these three bytes, in the order received.
    Received(u8, u8, u8),
    /// The transfer failed.
    TransferFailed,
}

/// What a protocol machine wants next: more work, or its final result.
#[derive(Debug)]
pub enum Step<T> {
    Perform(Action),
    Finished(Result<T, Error>),
}

/// Whether `e` is a possible outcome of performing `a`.
pub open spec fn answers(a: Action, e: Event) -> bool {
    match a {
        Action::AwaitReady { .. } => e is Ready || e is TimedOut,
        Action::Receive { .. } => e is Received || e is TransferFailed,
        _ => e is Completed,
    }
}

/// Checks that `e` is a possible outcome of performing `a`.
pub fn is_answer(a: Action, e: Event) -> (r: bool)
    ensures
        r == answers(a, e),
{
    match a {
        Action::AwaitReady { .. } => matches!(e, Event::Ready) || matches!(e, Event::TimedOut),
        Action::Receive { .. } => {
            matches!(e, Event::Received(..)) || matches!(e, Event::TransferFailed)
        },
        _ => matches!(e, Event::Completed),
    }
}

} // verus!
