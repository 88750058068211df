//! Driver logic for the CS1237 24-bit delta-sigma converter.
//!
//! The chip shares two wires (clock and data) between a bit-banged
//! configuration protocol, run once at start-up, and a clocked serial
//! readout, run once per sample. The library holds the protocol itself:
//! the configuration byte, the exact start-up line sequence as a state
//! machine, and the per-sample acquisition with its decoding. The caller
//! performs each line action the machines ask for and reports what happened.
mod config;
mod driver;
mod protocol;
mod startup;

pub use config::{lemma_pack_fields, pack, Channel, Config, Gain, SamplesPerSecond};
pub use driver::{
    decode_sample, i24_be, lemma_decode_injective, read_action, Cs1237, ReadPhase,
    READ_READY_TIMEOUT_MS, SAMPLE_BYTES,
};
pub use protocol::{answers, is_answer, Action, Error, Event, Line, Step};
pub use startup::{
    bit, drive, lemma_script_len, lemma_settle_timeout, lemma_wake_timeout, pulse, pulses,
    startup_action, startup_next, startup_script, write_bits, Startup, DISCARD_PULSES,
    POWER_OFF_HOLD_US, PULSE_US, STARTUP_LEN, STARTUP_READY_TIMEOUT_MS, WRITE_CONFIG_COMMAND,
};
