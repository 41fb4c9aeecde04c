//! The three parameters of code generation, checked once when they are put
//! together.

use vstd::prelude::*;
use crate::defaults::{EpochTime, CODE_WIDTH, START_TIME, STEP_SIZE};
use crate::error::TotpError;
use crate::hotp::{valid_code_width, MAX_CODE_WIDTH};

verus! {

/// Start time, step size and code width. Every value of this type has a step
/// size above zero and a code width in `1..=9`.
#[derive(Debug, Clone, Copy)]
pub struct Config {
    start_time: EpochTime,
    step_size: u64,
    code_width: u8,
}

/// The parameters that make a configuration: a step of at least one second
/// and a code of one to nine digits.
pub open spec fn valid_parameters(step_size: u64, code_width: u8) -> bool {
    step_size > 0 && valid_code_width(code_width)
}

impl Config {
    /// The instant from which steps are counted.
    pub closed spec fn spec_start_time(&self) -> EpochTime {
        self.start_time
    }

    /// The length of a step, in seconds.
    pub closed spec fn spec_step_size(&self) -> u64 {
        self.step_size
    }

    /// The number of digits of a code.
    pub closed spec fn spec_code_width(&self) -> u8 {
        self.code_width
    }

    /// What holds of every configuration.
    #[verifier::type_invariant]
    pub open spec fn valid(&self) -> bool {
        valid_parameters(self.spec_step_size(), self.spec_code_width())
    }

    /// A configuration of the given parameters, or [`TotpError::Config`]
    /// where the step size is zero or the code width is outside `1..=9`.
    pub fn new(start_time: EpochTime, step_size: u64, code_width: u8) -> (config: Result<
        Config,
        TotpError,
    >)
        ensures
            config.is_ok() <==> valid_parameters(step_size, code_width),
            config matches Ok(c) ==> c.valid() && c.spec_start_time() == start_time
                && c.spec_step_size() == step_size && c.spec_code_width() == code_width,
            config matches Err(e) ==> e == TotpError::Config,
    {
        if step_size == 0 || code_width < 1 || code_width > MAX_CODE_WIDTH {
            Err(TotpError::Config)
        } else {
            Ok(Config { start_time, step_size, code_width })
        }
    }

    /// The instant from which steps are counted.
    #[verifier::when_used_as_spec(spec_start_time)]
    pub fn start_time(&self) -> (t: EpochTime)
        ensures
            t == self.spec_start_time(),
    {
        self.start_time
    }

    /// The length of a step, in seconds: never zero.
    #[verifier::when_used_as_spec(spec_step_size)]
    pub fn step_size(&self) -> (s: u64)
        ensures
            s == self.spec_step_size(),
            s > 0,
    {
        proof {
            use_type_invariant(self);
        }
        self.step_size
    }

    /// The number of digits of a code: between one and nine.
    #[verifier::when_used_as_spec(spec_code_width)]
    pub fn code_width(&self) -> (w: u8)
        ensures
            w == self.spec_code_width(),
            valid_code_width(w),
    {
        proof {
            use_type_invariant(self);
        }
        self.code_width
    }
}

impl Default for Config {
    /// Steps of 30 seconds counted from the epoch, codes of six digits.
    fn default() -> (config: Config)
        ensures
            config.valid(),
            config.spec_start_time() == START_TIME,
            config.spec_step_size() == STEP_SIZE,
            config.spec_code_width() == CODE_WIDTH,
    {
        Config { start_time: START_TIME, step_size: 30, code_width: CODE_WIDTH }
    }
}

} // verus!
