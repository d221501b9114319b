//! Audio capture settings and the `arecord` command line that records raw
//! 16-bit little-endian PCM to standard output.

use vstd::prelude::*;

use crate::text::{decimal, to_decimal};

verus! {

/// Captures audio at a sample rate and channel count.
#[derive(Debug, Clone, Copy)]
pub struct AudioCapture {
    sample_rate: u32,
    channels: u16,
}

/// The arguments of `arecord` for a sample rate and channel count.
pub open spec fn arecord_args_spec(sample_rate: u32, channels: u16) -> Seq<Seq<char>> {
    seq![
        "-f"@,
        "S16_LE"@,
        "-r"@,
        decimal(sample_rate as nat),
        "-c"@,
        decimal(channels as nat),
        "-t"@,
        "raw"@,
        "-"@,
    ]
}

impl AudioCapture {
    pub closed spec fn sample_rate_spec(&self) -> u32 {
        self.sample_rate
    }

    pub closed spec fn channels_spec(&self) -> u16 {
        self.channels
    }

    pub fn new(sample_rate: u32, channels: u16) -> (r: Self)
        ensures
            r.sample_rate_spec() == sample_rate,
            r.channels_spec() == channels,
    {
        AudioCapture { sample_rate, channels }
    }

    pub fn sample_rate(&self) -> (r: u32)
        ensures
            r == self.sample_rate_spec(),
    {
        self.sample_rate
    }

    pub fn channels(&self) -> (r: u16)
        ensures
            r == self.channels_spec(),
    {
        self.channels
    }

    /// The program that records.
    pub fn program(&self) -> (r: String)
        ensures
            r@ == "arecord"@,
    {
        String::from_str("arecord")
    }

    /// The arguments that make `arecord` write raw S16_LE PCM at the
    /// configured rate and channel count to standard output.
    pub fn arecord_args(&self) -> (r: Vec<String>)
        ensures
            r@.map_values(|s: String| s@) == arecord_args_spec(
                self.sample_rate_spec(),
                self.channels_spec(),
            ),
    {
        let r = vec![
            String::from_str("-f"),
            String::from_str("S16_LE"),
            String::from_str("-r"),
            to_decimal(self.sample_rate as u64),
            String::from_str("-c"),
            to_decimal(self.channels as u64),
            String::from_str("-t"),
            String::from_str("raw"),
            String::from_str("-"),
        ];
        assert(r@.map_values(|s: String| s@) =~= arecord_args_spec(
            self.sample_rate_spec(),
            self.channels_spec(),
        ));
        r
    }
}

} // verus!
