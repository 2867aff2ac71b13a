//! The state of a fingerprinting context and the decisions taken around each
//! call of the C library that drives it.
//!
//! The context itself lives in the C library. This module keeps what the
//! binding knows of it (its algorithm, sample rate and number of channels)
//! and decides, from the status codes and values that the C library hands
//! back, what each operation returns and how that state changes.

use vstd::prelude::*;

use crate::algorithm::Algorithm;
use crate::error::{check_ret, raw_len_result, result_view, status_ok, ChromaprintError};
use crate::fingerprint::{raw_fingerprint_data, raw_outcome, Fingerprint, RawReply};

verus! {

/// An option of the fingerprinting algorithm that a context can be given.
#[derive(Clone, Copy, Debug, PartialEq, Eq, Structural)]
#[non_exhaustive]
pub enum ChromaprintOption {
    /// Threshold below which audio counts as silence, 0-32767.
    SilenceThreshold(i16),
}

impl ChromaprintOption {
    /// Name of the option in the C interface.
    pub open spec fn spec_name(self) -> Seq<char> {
        match self {
            ChromaprintOption::SilenceThreshold(_) => "silence_threshold"@,
        }
    }

    /// Value of the option as handed to the C interface.
    pub open spec fn spec_value(self) -> i32 {
        match self {
            ChromaprintOption::SilenceThreshold(v) => v as i32,
        }
    }

    /// Name of the option in the C interface.
    pub fn name(&self) -> (res: &'static str)
        ensures
            res@ == self.spec_name(),
    {
        match self {
            ChromaprintOption::SilenceThreshold(_) => "silence_threshold",
        }
    }

    /// The value lies in the documented range of the option.
    pub open spec fn spec_in_range(self) -> bool {
        match self {
            ChromaprintOption::SilenceThreshold(v) => 0 <= v,
        }
    }

    /// Value of the option as handed to the C interface.
    pub fn value(&self) -> (res: i32)
        ensures
            res == self.spec_value(),
            self matches ChromaprintOption::SilenceThreshold(v) ==> res == v,
    {
        match self {
            ChromaprintOption::SilenceThreshold(v) => *v as i32,
        }
    }
}

/// The value handed to the C library for a silence threshold is the
/// threshold itself, and the option's range is exactly the thresholds that
/// are not negative.
pub proof fn lemma_option_value_is_threshold(v: i16)
    ensures
        ChromaprintOption::SilenceThreshold(v).spec_value() == v,
        ChromaprintOption::SilenceThreshold(v).spec_in_range() <==> v >= 0,
        ChromaprintOption::SilenceThreshold(v).spec_name() == "silence_threshold"@,
{
}

/// What the binding knows of a fingerprinting context of the C library.
pub struct Context {
    algorithm: Algorithm,
    sample_rate: i32,
    channels: i32,
}

/// Arguments of one call that feeds audio samples to a context.
pub struct FeedCall<'a> {
    /// The samples handed to the C library.
    pub data: &'a [i16],
    /// Their number.
    pub size: i32,
}

/// Arguments of one call that sets an option of a context.
pub struct OptionCall {
    /// Name of the option in the C interface.
    pub name: &'static str,
    /// Its value.
    pub value: i32,
}

impl OptionCall {
    /// The result of setting the option, from the status that the C library
    /// reported.
    pub fn finish(self, status: i32) -> (res: Result<(), ChromaprintError>)
        ensures
            res is Ok <==> status_ok(status),
            res matches Err(e) ==> e == ChromaprintError::Chromaprint,
    {
        check_ret(status)
    }
}

impl<'a> FeedCall<'a> {
    /// The result of feeding, from the status that the C library reported.
    pub fn finish(self, status: i32) -> (res: Result<(), ChromaprintError>)
        ensures
            res is Ok <==> status_ok(status),
            res matches Err(e) ==> e == ChromaprintError::Chromaprint,
    {
        check_ret(status)
    }
}

impl Context {
    /// Sample rate and number of channels fit in a C `int` and are not
    /// negative.
    #[verifier::type_invariant]
    spec fn inv(self) -> bool {
        self.sample_rate >= 0 && self.channels >= 0
    }

    /// The algorithm the context computes fingerprints with.
    pub closed spec fn spec_algorithm(&self) -> Algorithm {
        self.algorithm
    }

    /// Sample rate of the audio stream last started.
    pub closed spec fn spec_sample_rate(&self) -> u32 {
        self.sample_rate as u32
    }

    /// Number of channels of the audio stream last started.
    pub closed spec fn spec_channels(&self) -> u32 {
        self.channels as u32
    }

    /// A new context, once the C library has allocated one for `algorithm`
    /// (`allocated` is false where it handed back a null pointer) and has
    /// reported `start_status` for starting it with `sample_rate` and
    /// `channels`. Starting is only attempted on an allocated context, and
    /// then both values must fit in a C `int`.
    pub fn new(
        algorithm: Algorithm,
        sample_rate: u32,
        channels: u32,
        allocated: bool,
        start_status: i32,
    ) -> (res: Result<Context, ChromaprintError>)
        requires
            allocated ==> sample_rate <= i32::MAX && channels <= i32::MAX,
        ensures
            res is Ok <==> allocated && status_ok(start_status),
            res matches Ok(c) ==> c.spec_algorithm() == algorithm && c.spec_sample_rate()
                == sample_rate && c.spec_channels() == channels,
            res matches Err(e) ==> e == ChromaprintError::Chromaprint,
    {
        if !allocated {
            return Err(ChromaprintError::Chromaprint);
        }
        let new = Context { algorithm, sample_rate: sample_rate as i32, channels: channels as i32 };
        check_ret(start_status)?;
        Ok(new)
    }

    /// Restarts the computation with a new audio stream of `sample_rate`
    /// and `channels`, for which the C library reported `start_status`.
    /// Both values must fit in a C `int`. The stream's parameters are kept
    /// only where the restart succeeded.
    pub fn restart(&mut self, sample_rate: u32, channels: u32, start_status: i32) -> (res: Result<
        (),
        ChromaprintError,
    >)
        requires
            sample_rate <= i32::MAX,
            channels <= i32::MAX,
        ensures
            res is Ok <==> status_ok(start_status),
            res matches Err(e) ==> e == ChromaprintError::Chromaprint,
            final(self).spec_algorithm() == old(self).spec_algorithm(),
            res is Ok ==> final(self).spec_sample_rate() == sample_rate
                && final(self).spec_channels() == channels,
            res is Err ==> final(self).spec_sample_rate() == old(self).spec_sample_rate()
                && final(self).spec_channels() == old(self).spec_channels(),
    {
        let sample_rate = sample_rate as i32;
        let channels = channels as i32;
        match check_ret(start_status) {
            Ok(()) => {
                *self = Context { algorithm: self.algorithm, sample_rate, channels };
                Ok(())
            },
            Err(e) => Err(e),
        }
    }

    /// Prepares feeding audio samples; more samples than a C `int` can
    /// count are refused.
    pub fn feed<'a>(&self, data: &'a [i16]) -> (res: Result<FeedCall<'a>, ChromaprintError>)
        ensures
            res is Ok <==> data@.len() <= i32::MAX,
            res matches Ok(call) ==> call.data@ == data@ && call.size == data@.len(),
            res matches Err(e) ==> e == ChromaprintError::InputTooLong,
    {
        if data.len() > i32::MAX as usize {
            return Err(ChromaprintError::InputTooLong);
        }
        Ok(FeedCall { data, size: data.len() as i32 })
    }

    /// The result of processing the remaining buffered audio, from the
    /// status that the C library reported.
    pub fn finish(&mut self, status: i32) -> (res: Result<(), ChromaprintError>)
        ensures
            res is Ok <==> status_ok(status),
            res matches Err(e) ==> e == ChromaprintError::Chromaprint,
            *final(self) == *old(self),
    {
        check_ret(status)
    }

    /// The result of clearing the current fingerprint, from the status that
    /// the C library reported.
    pub fn clear(&mut self, status: i32) -> (res: Result<(), ChromaprintError>)
        ensures
            res is Ok <==> status_ok(status),
            res matches Err(e) ==> e == ChromaprintError::Chromaprint,
            *final(self) == *old(self),
    {
        check_ret(status)
    }

    /// The fingerprint computed so far, from the reply of the C library;
    /// it carries the context's algorithm.
    pub fn get_fingerprint(&mut self, reply: RawReply<u32>) -> (res: Result<
        Fingerprint,
        ChromaprintError,
    >)
        requires
            reply.read_with(raw_len_result(reply.status, reply.size)),
        ensures
            result_view(res) == match raw_outcome(reply.status, reply.size, reply.is_null, reply.items()) {
                Ok(d) => Ok((old(self).spec_algorithm(), d)),
                Err(e) => Err(e),
            },
            *final(self) == *old(self),
            res is Ok <==> reply.status == 1 && !reply.is_null && reply.size >= 0,
            res matches Ok(fp) ==> reply.items() == Some(fp@.1) && fp@.1.len() == reply.size
                && fp@.0 == old(self).spec_algorithm(),
    {
        let data = raw_fingerprint_data(reply)?;
        Ok(Fingerprint::from_parts(self.algorithm, data))
    }

    /// Prepares setting `option`; a value outside the option's documented
    /// range is refused before anything reaches the C library.
    pub fn set_option(&self, option: ChromaprintOption) -> (res: Result<
        OptionCall,
        ChromaprintError,
    >)
        ensures
            res is Ok <==> option.spec_in_range(),
            res matches Ok(call) ==> call.name@ == option.spec_name() && call.value
                == option.spec_value(),
            res matches Ok(call) ==> (option matches ChromaprintOption::SilenceThreshold(v)
                && call.value == v && 0 <= call.value <= 32767 && call.name@
                == "silence_threshold"@),
            option matches ChromaprintOption::SilenceThreshold(v) ==> (res is Ok <==> v >= 0),
            res matches Err(e) ==> e == ChromaprintError::InvalidOption,
    {
        let value = option.value();
        if value < 0 {
            return Err(ChromaprintError::InvalidOption);
        }
        Ok(OptionCall { name: option.name(), value })
    }

    /// Number of channels of the audio stream last started.
    pub fn get_num_channels(&self) -> (res: u32)
        ensures
            res == self.spec_channels(),
            res <= i32::MAX,
    {
        proof {
            use_type_invariant(self);
        }
        self.channels as u32
    }

    /// Sample rate of the audio stream last started.
    pub fn get_sample_rate(&self) -> (res: u32)
        ensures
            res == self.spec_sample_rate(),
            res <= i32::MAX,
    {
        proof {
            use_type_invariant(self);
        }
        self.sample_rate as u32
    }

    /// The algorithm the context computes fingerprints with.
    pub fn get_alorithm(&self) -> (res: Algorithm)
        ensures
            res == self.spec_algorithm(),
    {
        self.algorithm
    }

    /// Delay of the internal buffers in samples, from the value that the C
    /// library reported, which must not be negative.
    pub fn get_delay_samples(&self, delay: i32) -> (res: u32)
        requires
            delay >= 0,
        ensures
            res == delay,
    {
        delay as u32
    }

    /// Duration of one item of the raw fingerprint in samples, from the
    /// value that the C library reported, which must not be negative.
    pub fn get_duration_samples(&self, duration: i32) -> (res: u32)
        requires
            duration >= 0,
        ensures
            res == duration,
    {
        duration as u32
    }
}

} // verus!
