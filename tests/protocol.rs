use cs1237::{
    decode_sample, is_answer, Action, Channel, Config, Cs1237, Error, Event, Gain, Line,
    SamplesPerSecond, Step, STARTUP_LEN,
};

const RATES: [SamplesPerSecond; 4] = [
    SamplesPerSecond::SPS10,
    SamplesPerSecond::SPS40,
    SamplesPerSecond::SPS640,
    SamplesPerSecond::SPS1280,
];
const GAINS: [Gain; 4] = [Gain::G1, Gain::G2, Gain::G64, Gain::G128];
const CHANNELS: [Channel; 4] = [
    Channel::ChannelA,
    Channel::Reserved,
    Channel::Temperature,
    Channel::InternalShort,
];

/// Runs a start-up sequence, answering every drive with `Completed` and the
/// two ready waits with `first` and `second`. Returns every action asked for.
fn run_startup(config: Config, first: Event, second: Event) -> (Vec<Action>, Result<Cs1237, Error>) {
    let mut startup = Cs1237::try_new(config);
    let mut actions = vec![startup.action()];
    let mut waits = 0;
    loop {
        let action = *actions.last().unwrap();
        let event = match action {
            Action::AwaitReady { .. } => {
                waits += 1;
                if waits == 1 {
                    first
                } else {
                    second
                }
            }
            _ => Event::Completed,
        };
        assert!(is_answer(action, event));
        match startup.step(event) {
            Step::Perform(next) => actions.push(next),
            Step::Finished(result) => {
                assert!(startup.is_finished());
                return (actions, result);
            }
        }
    }
}

fn clock(high: bool, hold_us: u32) -> Action {
    Action::Drive { line: Line::Clock, high, hold_us }
}

#[test]
fn packs_every_combination() {
    for (r, rate) in RATES.iter().enumerate() {
        for (g, gain) in GAINS.iter().enumerate() {
            for (c, channel) in CHANNELS.iter().enumerate() {
                let config = Config { sample_rate: *rate, gain: *gain, channel: *channel };
                let expected = ((r as u8) << 4) | ((g as u8) << 2) | (c as u8);
                assert_eq!(config.packed(), expected);
            }
        }
    }
}

#[test]
fn default_config_packs_to_0x0c() {
    let config = Config::default();
    assert_eq!(config.sample_rate, SamplesPerSecond::SPS10);
    assert_eq!(config.gain, Gain::G128);
    assert_eq!(config.channel, Channel::ChannelA);
    assert_eq!(config.packed(), 0x0C);
    let config = Config { sample_rate: SamplesPerSecond::SPS1280, gain: Gain::G1, channel: Channel::Temperature };
    assert_eq!(config.packed(), 0x32);
}

#[test]
fn sign_extends_samples() {
    assert_eq!(decode_sample(0x00, 0x00, 0x01), 1);
    assert_eq!(decode_sample(0xFF, 0xFF, 0xFF), -1);
    assert_eq!(decode_sample(0x80, 0x00, 0x00), -8_388_608);
    assert_eq!(decode_sample(0x7F, 0xFF, 0xFF), 8_388_607);
    assert_eq!(decode_sample(0x12, 0x34, 0x56), 0x12_3456);
    assert_eq!(decode_sample(0x00, 0x00, 0x00), 0);
}

#[test]
fn startup_times_out_without_first_edge() {
    let (actions, result) = run_startup(Config::default(), Event::TimedOut, Event::Ready);
    assert_eq!(actions, vec![clock(true, 1000), clock(false, 0), Action::AwaitReady { timeout_ms: 330 }]);
    assert!(matches!(result, Err(Error::Timeout)));
}

#[test]
fn startup_times_out_without_second_edge() {
    let (actions, result) = run_startup(Config::default(), Event::Ready, Event::TimedOut);
    assert_eq!(actions.len(), STARTUP_LEN);
    let n = actions.len();
    assert_eq!(actions[n - 4], Action::DataInput);
    assert_eq!(actions[n - 3], clock(true, 1));
    assert_eq!(actions[n - 2], clock(false, 1));
    assert_eq!(actions[n - 1], Action::AwaitReady { timeout_ms: 330 });
    assert!(matches!(result, Err(Error::Timeout)));
}

#[test]
fn startup_yields_driver_after_both_edges() {
    for rate in RATES {
        let config = Config { sample_rate: rate, gain: Gain::G2, channel: Channel::InternalShort };
        let (actions, result) = run_startup(config, Event::Ready, Event::Ready);
        assert_eq!(actions.len(), STARTUP_LEN);
        assert!(result.is_ok());
    }
}

#[test]
fn startup_write_sequence_for_default_config() {
    let (actions, result) = run_startup(Config::default(), Event::Ready, Event::Ready);
    assert!(result.is_ok());
    let output_at = actions.iter().position(|a| *a == Action::DataOutput).unwrap();
    let input_at = actions.iter().position(|a| *a == Action::DataInput).unwrap();
    let pulses_in = |from: usize, to: usize| {
        actions[from..to].iter().filter(|a| **a == clock(true, 1)).count()
    };
    // Discard pulses: plain clock pulses between the first ready edge and
    // the switch of the data line to output.
    assert_eq!(&actions[3..output_at], [clock(true, 1), clock(false, 1)].repeat(29).as_slice());
    // Bits written: for each one the data level, then one pulse.
    let mut levels = Vec::new();
    let mut i = output_at + 1;
    while i < input_at {
        match actions[i] {
            Action::Drive { line: Line::Data, high, hold_us: 0 } => {
                assert_eq!(actions[i + 1], clock(true, 1));
                assert_eq!(actions[i + 2], clock(false, 1));
                levels.push(high as u8);
                i += 3;
            }
            other => panic!("unexpected action {:?}", other),
        }
    }
    assert_eq!(levels, vec![1, 1, 0, 0, 1, 0, 1, 0, 0, 0, 0, 0, 1, 1, 0, 0]);
    assert_eq!(pulses_in(input_at, actions.len()), 1);
    assert_eq!(pulses_in(0, actions.len()), 46);
    assert_eq!(pulses_in(output_at, actions.len()), 46 - 29);
}

fn read_with(driver: &mut Cs1237, bytes: (u8, u8, u8)) -> Result<i32, Error> {
    assert_eq!(driver.read(), Action::AwaitReady { timeout_ms: 110 });
    match driver.step(Event::Ready) {
        Step::Perform(Action::Receive { len: 3 }) => {}
        other => panic!("unexpected step {:?}", other),
    }
    match driver.step(Event::Received(bytes.0, bytes.1, bytes.2)) {
        Step::Finished(result) => result,
        other => panic!("unexpected step {:?}", other),
    }
}

fn configured_driver() -> Cs1237 {
    run_startup(Config::default(), Event::Ready, Event::Ready).1.unwrap()
}

#[test]
fn read_times_out_without_edge() {
    let mut driver = configured_driver();
    assert_eq!(driver.read(), Action::AwaitReady { timeout_ms: 110 });
    assert!(matches!(driver.step(Event::TimedOut), Step::Finished(Err(Error::Timeout))));
    assert_eq!(read_with(&mut driver, (0x00, 0x00, 0x05)), Ok(5));
}

#[test]
fn read_reports_transfer_fault() {
    let mut driver = configured_driver();
    driver.read();
    assert!(matches!(driver.step(Event::Ready), Step::Perform(Action::Receive { len: 3 })));
    assert!(matches!(driver.step(Event::TransferFailed), Step::Finished(Err(Error::SpiError))));
}

#[test]
fn repeated_reads_decode_fresh_samples() {
    let mut driver = configured_driver();
    let first = read_with(&mut driver, (0x00, 0x00, 0x01)).unwrap();
    let second = read_with(&mut driver, (0xFF, 0xFF, 0xFE)).unwrap();
    assert_eq!(first, 1);
    assert_eq!(second, -2);
    assert_ne!(first, second);
}

#[test]
fn answers_match_actions() {
    assert!(is_answer(Action::DataOutput, Event::Completed));
    assert!(!is_answer(Action::DataOutput, Event::Ready));
    assert!(is_answer(Action::AwaitReady { timeout_ms: 330 }, Event::TimedOut));
    assert!(!is_answer(Action::AwaitReady { timeout_ms: 330 }, Event::Completed));
    assert!(is_answer(Action::Receive { len: 3 }, Event::Received(1, 2, 3)));
    assert!(is_answer(Action::Receive { len: 3 }, Event::TransferFailed));
    assert!(!is_answer(Action::Receive { len: 3 }, Event::Ready));
}
