use vstd::prelude::*;

verus! {

/// Output data rates of the converter.
#[derive(Clone, Copy, Debug, PartialEq, Eq, Structural)]
pub enum SamplesPerSecond {
    SPS10,
    SPS40,
    SPS640,
    SPS1280,
}

/// Amplification applied before conversion.
#[derive(Clone, Copy, Debug, PartialEq, Eq, Structural)]
pub enum Gain {
    G1,
    G2,
    G64,
    G128,
}

/// Input selected for conversion.
#[derive(Clone, Copy, Debug, PartialEq, Eq, Structural)]
pub enum Channel {
    ChannelA,
    Reserved,
    Temperature,
    InternalShort,
}

impl SamplesPerSecond {
    /// The two-bit field value of this rate.
    pub open spec fn spec_code(self) -> u8 {
        match self {
            SamplesPerSecond::SPS10 => 0,
            SamplesPerSecond::SPS40 => 1,
            SamplesPerSecond::SPS640 => 2,
            SamplesPerSecond::SPS1280 => 3,
        }
    }

    pub fn code(self) -> (r: u8)
        ensures
            r == self.spec_code(),
    {
        match self {
            SamplesPerSecond::SPS10 => 0,
            SamplesPerSecond::SPS40 => 1,
            SamplesPerSecond::SPS640 => 2,
            SamplesPerSecond::SPS1280 => 3,
        }
    }
}

impl Gain {
    /// The two-bit field value of this gain.
    pub open spec fn spec_code(self) -> u8 {
        match self {
            Gain::G1 => 0,
            Gain::G2 => 1,
            Gain::G64 => 2,
            Gain::G128 => 3,
        }
    }

    pub fn code(self) -> (r: u8)
        ensures
            r == self.spec_code(),
    {
        match self {
            Gain::G1 => 0,
            Gain::G2 => 1,
            Gain::G64 => 2,
            Gain::G128 => 3,
        }
    }
}

impl Channel {
    /// The two-bit field value of this channel.
    pub open spec fn spec_code(self) -> u8 {
        match self {
            Channel::ChannelA => 0,
            Channel::Reserved => 1,
            Channel::Temperature => 2,
            Channel::InternalShort => 3,
        }
    }

    pub fn code(self) -> (r: u8)
        ensures
            r == self.spec_code(),
    {
        match self {
            Channel::ChannelA => 0,
            Channel::Reserved => 1,
            Channel::Temperature => 2,
            Channel::InternalShort => 3,
        }
    }
}

/// Rate, gain and input written to the chip once, during start-up.
#[derive(Clone, Copy, Debug, PartialEq, Eq, Structural)]
pub struct Config {
    pub sample_rate: SamplesPerSecond,
    pub gain: Gain,
    pub channel: Channel,
}

/// The configuration register value: rate in bits 5-4, gain in bits 3-2,
/// channel in bits 1-0.
pub open spec fn pack(rate: u8, gain: u8, channel: u8) -> u8 {
    ((rate << 4u8) | (gain << 2u8) | channel) as u8
}

impl Config {
    pub open spec fn spec_packed(self) -> u8 {
        pack(self.sample_rate.spec_code(), self.gain.spec_code(), self.channel.spec_code())
    }

    /// The control byte written to the chip for this configuration.
    pub fn packed(&self) -> (r: u8)
        ensures
            r == self.spec_packed(),
            r == self.sample_rate.spec_code() * 16 + self.gain.spec_code() * 4
                + self.channel.spec_code(),
            (r >> 4u8) & 3 == self.sample_rate.spec_code(),
            (r >> 2u8) & 3 == self.gain.spec_code(),
            r & 3 == self.channel.spec_code(),
            r < 64,
    {
        let rate = self.sample_rate.code();
        let gain = self.gain.code();
        let channel = self.channel.code();
        proof {
            lemma_pack_fields(rate, gain, channel);
        }
        (rate << 4u8) | (gain << 2u8) | channel
    }
}

impl Default for Config {
    /// Slowest rate, highest gain, primary input.
    fn default() -> (r: Config)
        ensures
            r == (Config {
                sample_rate: SamplesPerSecond::SPS10,
                gain: Gain::G128,
                channel: Channel::ChannelA,
            }),
    {
        Config { sample_rate: SamplesPerSecond::SPS10, gain: Gain::G128, channel: Channel::ChannelA }
    }
}

/// Packing three two-bit codes is the same as placing them by weight, and
/// each code can be read back from its own field.
pub proof fn lemma_pack_fields(rate: u8, gain: u8, channel: u8)
    requires
        rate < 4,
        gain < 4,
        channel < 4,
    ensures
        pack(rate, gain, channel) == rate * 16 + gain * 4 + channel,
        (pack(rate, gain, channel) >> 4u8) & 3 == rate,
        (pack(rate, gain, channel) >> 2u8) & 3 == gain,
        pack(rate, gain, channel) & 3 == channel,
        pack(rate, gain, channel) < 64,
{
    let p = pack(rate, gain, channel);
    assert(p == ((rate << 4u8) | (gain << 2u8) | channel) as u8);
    assert((((rate << 4u8) | (gain << 2u8) | channel) as u8) == rate * 16 + gain * 4 + channel
        && ((((rate << 4u8) | (gain << 2u8) | channel) as u8) >> 4u8) & 3 == rate
        && ((((rate << 4u8) | (gain << 2u8) | channel) as u8) >> 2u8) & 3 == gain
        && (((rate << 4u8) | (gain << 2u8) | channel) as u8) & 3 == channel
        && (((rate << 4u8) | (gain << 2u8) | channel) as u8) < 64) by (bit_vector)
        requires
            rate < 4,
            gain < 4,
            channel < 4,
    ;
}

} // verus!
