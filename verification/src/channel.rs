//! Configuration of the two hardware channels: their device names, their
//! sample clocks and the size of the batches they deliver.
//!
//! Nothing here touches the driver. A channel value says what is to be
//! configured; the driver side carries it out.

use vstd::prelude::*;
use vstd::string::*;
use crate::text::{decimal_digits, push_decimal};

verus! {

/// Terminal on which the sample clock is put out.
pub const CLK_SRC_OUTPUT_PFI_ID: u8 = 13;

/// Counter that generates the sample clock.
pub const CLK_SRC_COUNTER_ID: u8 = 1;

/// Counter that counts the encoder's pulses.
pub const ENCODER_COUNTER_ID: u8 = 0;

/// How often per second the driver hands over a batch.
pub const DAQ_CALLBACK_FREQ: usize = 100;

/// How many seconds of samples the driver's own buffer holds.
pub const DRIVER_BUFFER_SECONDS: usize = 10;

/// Name of the counter with the given number.
pub open spec fn counter_chan_desc(counter_id: u8) -> Seq<char> {
    "Dev1/ctr"@ + decimal_digits(counter_id as nat)
}

/// Name of the terminal with the given number.
pub open spec fn clock_src_desc(pfi_id: u8) -> Seq<char> {
    "/Dev1/PFI"@ + decimal_digits(pfi_id as nat)
}

/// The device name of a counter: `Dev1/ctr` and the counter's number.
pub fn counter_generate_chan_desc(counter_id: u8) -> (desc: String)
    ensures
        desc@ == counter_chan_desc(counter_id),
{
    let mut desc: String = String::from_str("Dev1/ctr");
    push_decimal(&mut desc, counter_id as u64);
    desc
}

/// The device name of a clock terminal: `/Dev1/PFI` and the terminal's
/// number.
pub fn generate_clock_src_desc(pfi_id: u8) -> (desc: String)
    ensures
        desc@ == clock_src_desc(pfi_id),
{
    let mut desc: String = String::from_str("/Dev1/PFI");
    push_decimal(&mut desc, pfi_id as u64);
    desc
}

/// The number of samples in one batch at the given rates, where the sample
/// rate is a positive multiple of the callback frequency.
pub open spec fn batch_size_of(sample_rate: nat, callback_freq: nat) -> Option<nat> {
    if callback_freq > 0 && sample_rate > 0 && sample_rate % callback_freq == 0 {
        Some(sample_rate / callback_freq)
    } else {
        None
    }
}

/// Computes `batch_size_of`. A batch size that comes back satisfies
/// `batch_size * callback_freq == sample_rate`.
pub fn batch_size_for(sample_rate: usize, callback_freq: usize) -> (size: Option<usize>)
    ensures
        match size {
            Some(n) => batch_size_of(sample_rate as nat, callback_freq as nat) == Some(n as nat) && n
                * callback_freq == sample_rate && n > 0,
            None => batch_size_of(sample_rate as nat, callback_freq as nat).is_none(),
        },
{
    if callback_freq > 0 && sample_rate > 0 && sample_rate % callback_freq == 0 {
        let n: usize = sample_rate / callback_freq;
        proof {
            vstd::arithmetic::div_mod::lemma_fundamental_div_mod(
                sample_rate as int,
                callback_freq as int,
            );
            assert(n * callback_freq == callback_freq * n) by (nonlinear_arith);
        }
        Some(n)
    } else {
        None
    }
}

/// What the driver is told about a channel's sample clock.
#[derive(Debug, Clone, PartialEq, Eq)]
pub struct SampleClock {
    /// Device name of the channel that is sampled.
    pub channel: String,
    /// Device name of the terminal that supplies the clock.
    pub source: String,
    /// Samples per second.
    pub sample_rate: usize,
    /// Samples that the driver's own buffer holds.
    pub buffer_size: u64,
}

/// The encoder pulse counter, sampled on the clock that the clock counter
/// puts out and delivered in batches at the callback frequency.
#[derive(Debug, Clone, Copy, PartialEq, Eq, Structural)]
pub struct CiEncoderChannel {
    sample_rate: usize,
    batch_size: usize,
}

impl CiEncoderChannel {
    /// Samples per second.
    pub closed spec fn spec_sample_rate(&self) -> nat {
        self.sample_rate as nat
    }

    /// Samples in one batch.
    pub closed spec fn spec_batch_size(&self) -> nat {
        self.batch_size as nat
    }

    /// Samples that the driver's own buffer holds: ten seconds' worth.
    pub closed spec fn spec_buffer_size(&self) -> nat {
        (DRIVER_BUFFER_SECONDS * self.sample_rate) as nat
    }

    /// The rate is one that `valid_rate` admits, and a batch holds what
    /// falls between two callbacks.
    pub closed spec fn wf(&self) -> bool {
        &&& Self::valid_rate(self.sample_rate)
        &&& self.batch_size * DAQ_CALLBACK_FREQ == self.sample_rate
    }

    /// The sample rates that a channel can have: positive multiples of the
    /// callback frequency, small enough for the size of the driver's buffer
    /// to be a `usize`.
    pub open spec fn valid_rate(sample_rate: usize) -> bool {
        &&& 0 < sample_rate
        &&& sample_rate % DAQ_CALLBACK_FREQ == 0
        &&& DRIVER_BUFFER_SECONDS * sample_rate <= usize::MAX
    }

    /// Decides `valid_rate`.
    pub fn check_rate(sample_rate: usize) -> (valid: bool)
        ensures
            valid == Self::valid_rate(sample_rate),
    {
        0 < sample_rate && sample_rate % DAQ_CALLBACK_FREQ == 0 && sample_rate <= usize::MAX
            / DRIVER_BUFFER_SECONDS
    }

    /// A channel at the given rate. Its batches hold as many samples as
    /// fall between two callbacks.
    pub fn new(sample_rate: usize) -> (channel: Self)
        requires
            Self::valid_rate(sample_rate),
        ensures
            channel.wf(),
            channel.spec_sample_rate() == sample_rate,
            channel.spec_batch_size() * DAQ_CALLBACK_FREQ == sample_rate,
            channel.spec_buffer_size() == DRIVER_BUFFER_SECONDS * sample_rate,
    {
        let batch_size: usize = sample_rate / DAQ_CALLBACK_FREQ;
        proof {
            vstd::arithmetic::div_mod::lemma_fundamental_div_mod(
                sample_rate as int,
                DAQ_CALLBACK_FREQ as int,
            );
        }
        CiEncoderChannel { sample_rate, batch_size }
    }

    /// Samples per second.
    pub fn sample_rate(&self) -> (rate: usize)
        ensures
            rate == self.spec_sample_rate(),
    {
        self.sample_rate
    }

    /// Samples in one batch: as many as fall between two callbacks.
    pub fn batch_size(&self) -> (size: usize)
        ensures
            size == self.spec_batch_size(),
            self.wf() ==> size > 0 && size * DAQ_CALLBACK_FREQ == self.spec_sample_rate()
                && batch_size_of(self.spec_sample_rate(), DAQ_CALLBACK_FREQ as nat) == Some(
                size as nat,
            ),
    {
        proof {
            if self.wf() {
                vstd::arithmetic::div_mod::lemma_fundamental_div_mod_converse(
                    self.sample_rate as int,
                    DAQ_CALLBACK_FREQ as int,
                    self.batch_size as int,
                    0,
                );
            }
        }
        self.batch_size
    }

    /// Samples that the driver's own buffer holds.
    pub fn buffer_size(&self) -> (size: usize)
        requires
            self.wf(),
        ensures
            size == self.spec_buffer_size(),
            size == DRIVER_BUFFER_SECONDS * self.spec_sample_rate(),
    {
        DRIVER_BUFFER_SECONDS * self.sample_rate
    }

    /// What the driver is to configure: the encoder's counter, sampled on
    /// the clock terminal at the channel's rate, with ten seconds of
    /// buffer.
    pub fn setup(&self) -> (clock: SampleClock)
        requires
            self.wf(),
        ensures
            clock.channel@ == counter_chan_desc(ENCODER_COUNTER_ID),
            clock.source@ == clock_src_desc(CLK_SRC_OUTPUT_PFI_ID),
            clock.sample_rate == self.spec_sample_rate(),
            clock.buffer_size == self.spec_buffer_size(),
            clock.buffer_size == DRIVER_BUFFER_SECONDS * self.spec_sample_rate(),
    {
        SampleClock {
            channel: counter_generate_chan_desc(ENCODER_COUNTER_ID),
            source: generate_clock_src_desc(CLK_SRC_OUTPUT_PFI_ID),
            sample_rate: self.sample_rate,
            buffer_size: self.buffer_size() as u64,
        }
    }
}

/// The analog input lines, sampled on an outside clock and delivered in
/// batches at the callback frequency.
#[derive(Debug, Clone, PartialEq, Eq)]
pub struct AiChannel {
    clk_src: String,
    chan_desc: String,
    sample_rate: usize,
}

impl AiChannel {
    /// Samples per second.
    pub closed spec fn spec_sample_rate(&self) -> nat {
        self.sample_rate as nat
    }

    /// Device name of the terminal that supplies the clock.
    pub closed spec fn spec_clk_src(&self) -> Seq<char> {
        self.clk_src@
    }

    /// Device name of the lines that are sampled.
    pub closed spec fn spec_chan_desc(&self) -> Seq<char> {
        self.chan_desc@
    }

    /// The rate is one that `valid_rate` admits.
    pub closed spec fn wf(&self) -> bool {
        Self::valid_rate(self.sample_rate)
    }

    /// The sample rates that a channel can have: positive multiples of the
    /// callback frequency, small enough for the size of the driver's buffer
    /// to be a `usize`.
    pub open spec fn valid_rate(sample_rate: usize) -> bool {
        &&& 0 < sample_rate
        &&& sample_rate % DAQ_CALLBACK_FREQ == 0
        &&& DRIVER_BUFFER_SECONDS * sample_rate <= usize::MAX
    }

    /// Decides `valid_rate`.
    pub fn check_rate(sample_rate: usize) -> (valid: bool)
        ensures
            valid == Self::valid_rate(sample_rate),
    {
        0 < sample_rate && sample_rate % DAQ_CALLBACK_FREQ == 0 && sample_rate <= usize::MAX
            / DRIVER_BUFFER_SECONDS
    }

    /// A channel on the given lines, clocked from the given terminal at the
    /// given rate.
    pub fn new(clk_src: String, chan_desc: String, sample_rate: usize) -> (channel: Self)
        requires
            Self::valid_rate(sample_rate),
        ensures
            channel.wf(),
            channel.spec_sample_rate() == sample_rate,
            channel.spec_clk_src() == clk_src@,
            channel.spec_chan_desc() == chan_desc@,
    {
        AiChannel { clk_src, chan_desc, sample_rate }
    }

    /// Samples per second.
    pub fn sample_rate(&self) -> (rate: usize)
        ensures
            rate == self.spec_sample_rate(),
    {
        self.sample_rate
    }

    /// Samples in one batch: as many as fall between two callbacks.
    pub fn batch_size(&self) -> (size: usize)
        requires
            self.wf(),
        ensures
            size > 0,
            size * DAQ_CALLBACK_FREQ == self.spec_sample_rate(),
            batch_size_of(self.spec_sample_rate(), DAQ_CALLBACK_FREQ as nat) == Some(size as nat),
    {
        let size: usize = self.sample_rate / DAQ_CALLBACK_FREQ;
        proof {
            vstd::arithmetic::div_mod::lemma_fundamental_div_mod(
                self.sample_rate as int,
                DAQ_CALLBACK_FREQ as int,
            );
        }
        size
    }

    /// What the driver is to configure: the analog lines, sampled on the
    /// channel's clock at its rate, with ten seconds of buffer.
    pub fn setup(&self) -> (clock: SampleClock)
        requires
            self.wf(),
        ensures
            clock.channel@ == self.spec_chan_desc(),
            clock.source@ == self.spec_clk_src(),
            clock.sample_rate == self.spec_sample_rate(),
            clock.buffer_size == DRIVER_BUFFER_SECONDS * self.spec_sample_rate(),
    {
        SampleClock {
            channel: self.chan_desc.clone(),
            source: self.clk_src.clone(),
            sample_rate: self.sample_rate,
            buffer_size: (DRIVER_BUFFER_SECONDS * self.sample_rate) as u64,
        }
    }
}

} // verus!
