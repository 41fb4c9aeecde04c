//! Time-based one-time passwords (RFC 6238): the code of the current time
//! step, and the seconds until it changes.

use vstd::prelude::*;
use vstd::arithmetic::power::pow;
use crate::clock::unix_time;
use crate::config::{valid_parameters, Config};
use crate::defaults::{EpochTime, CODE_WIDTH, START_TIME, STEP_SIZE};
use crate::error::TotpError;
use crate::hotp::{get_hotp, hotp_outcome};
use crate::secret::Secret;
use crate::time_step::{
    lemma_remainder_reaches_next_step,
    remainder_at,
    remainder_of,
    step_at,
    step_of,
    totp_remainder_at,
    totp_step_at,
};

verus! {

/// The results that computing the code of a given time may have. Parameters
/// that make no configuration are a configuration error and a time before
/// the start a clock error; otherwise the result is one that the code of the
/// time's step may have.
pub open spec fn totp_outcome(
    key: Seq<u8>,
    now: EpochTime,
    start_time: EpochTime,
    step_size: u64,
    code_width: u8,
    r: Result<u32, TotpError>,
) -> bool {
    if !valid_parameters(step_size, code_width) {
        r == Err::<u32, TotpError>(TotpError::Config)
    } else if now < start_time {
        r == Err::<u32, TotpError>(TotpError::Clock)
    } else {
        hotp_outcome(
            key,
            step_of(now as int, start_time as int, step_size as int) as u64,
            code_width,
            r,
        )
    }
}

/// The results that computing the current code may have: a configuration
/// error for parameters that make no configuration; otherwise a clock error,
/// or a result that the code of some time may have.
pub open spec fn current_code_outcome(
    key: Seq<u8>,
    start_time: EpochTime,
    step_size: u64,
    code_width: u8,
    r: Result<u32, TotpError>,
) -> bool {
    if !valid_parameters(step_size, code_width) {
        r == Err::<u32, TotpError>(TotpError::Config)
    } else {
        r == Err::<u32, TotpError>(TotpError::Clock) || exists|now: EpochTime| #[trigger]
            totp_outcome(key, now, start_time, step_size, code_width, r)
    }
}

/// The results that asking for the current step may have: a configuration
/// error for a zero step size; otherwise a clock error, or the step of some
/// time.
pub open spec fn current_step_outcome(
    start_time: EpochTime,
    step_size: u64,
    r: Result<u64, TotpError>,
) -> bool {
    if step_size == 0 {
        r == Err::<u64, TotpError>(TotpError::Config)
    } else {
        r == Err::<u64, TotpError>(TotpError::Clock) || exists|now: EpochTime|
            r == #[trigger] step_at(now, start_time, step_size)
    }
}

/// The results that asking for the seconds left in the current step may
/// have: as for the step, with the seconds left at some time.
pub open spec fn current_remainder_outcome(
    start_time: EpochTime,
    step_size: u64,
    r: Result<u64, TotpError>,
) -> bool {
    if step_size == 0 {
        r == Err::<u64, TotpError>(TotpError::Config)
    } else {
        r == Err::<u64, TotpError>(TotpError::Clock) || exists|now: EpochTime|
            r == #[trigger] remainder_at(now, start_time, step_size)
    }
}

/// Computing the code of one time twice, for one key and one set of
/// parameters, gives one result, unless the hash itself failed on one of the
/// two occasions.
pub proof fn lemma_totp_deterministic(
    key: Seq<u8>,
    now: EpochTime,
    start_time: EpochTime,
    step_size: u64,
    code_width: u8,
    first: Result<u32, TotpError>,
    second: Result<u32, TotpError>,
)
    requires
        totp_outcome(key, now, start_time, step_size, code_width, first),
        totp_outcome(key, now, start_time, step_size, code_width, second),
    ensures
        first == second || first == Err::<u32, TotpError>(TotpError::Crypto) || second == Err::<
            u32,
            TotpError,
        >(TotpError::Crypto),
        first.is_ok() && second.is_ok() ==> first == second,
{
}

/// A time before the start never yields a code: with parameters that make a
/// configuration the result is a clock error.
pub proof fn lemma_time_before_start_rejected(
    key: Seq<u8>,
    now: EpochTime,
    start_time: EpochTime,
    step_size: u64,
    code_width: u8,
    r: Result<u32, TotpError>,
)
    requires
        valid_parameters(step_size, code_width),
        now < start_time,
        totp_outcome(key, now, start_time, step_size, code_width, r),
    ensures
        r == Err::<u32, TotpError>(TotpError::Clock),
        step_at(now, start_time, step_size) == Err::<u64, TotpError>(TotpError::Clock),
        remainder_at(now, start_time, step_size) == Err::<u64, TotpError>(TotpError::Clock),
{
}

/// All the times of one step have one code: two codes produced for times in
/// the same step are equal.
pub proof fn lemma_same_step_same_code(
    key: Seq<u8>,
    earlier: EpochTime,
    later: EpochTime,
    start_time: EpochTime,
    step_size: u64,
    code_width: u8,
    first: Result<u32, TotpError>,
    second: Result<u32, TotpError>,
)
    requires
        start_time <= earlier <= later,
        step_size > 0,
        later - earlier < remainder_of(earlier as int, start_time as int, step_size as int),
        totp_outcome(key, earlier, start_time, step_size, code_width, first),
        totp_outcome(key, later, start_time, step_size, code_width, second),
    ensures
        first.is_ok() && second.is_ok() ==> first == second,
{
    lemma_remainder_reaches_next_step(
        earlier as int,
        start_time as int,
        step_size as int,
        later - earlier,
    );
}

/// The code that is valid at `now` under a configuration: the one-time
/// password of the step that holds `now`.
pub fn totp_at(secret: &Secret, now: EpochTime, config: &Config) -> (code: Result<u32, TotpError>)
    ensures
        totp_outcome(
            secret@,
            now,
            config.start_time(),
            config.step_size(),
            config.code_width(),
            code,
        ),
        code matches Ok(c) ==> c < pow(10, config.code_width() as nat),
{
    let step_size: u64 = config.step_size();
    let code_width: u8 = config.code_width();
    match totp_step_at(now, config.start_time(), step_size) {
        Ok(time_step) => get_hotp(secret, time_step, code_width),
        Err(e) => Err(e),
    }
}

/// The step that holds the current time.
pub fn get_totp_step(start_time: EpochTime, step_size: u8) -> (step: Result<u64, TotpError>)
    ensures
        current_step_outcome(start_time, step_size as u64, step),
{
    if step_size == 0 {
        return Err(TotpError::Config);
    }
    match unix_time() {
        Ok(now) => totp_step_at(now, start_time, step_size as u64),
        Err(e) => Err(e),
    }
}

/// The seconds until the current code changes, between 1 and `step_size`.
pub fn get_totp_remainder(start_time: EpochTime, step_size: EpochTime) -> (left: Result<
    EpochTime,
    TotpError,
>)
    ensures
        current_remainder_outcome(start_time, step_size, left),
        left matches Ok(r) ==> 1 <= r <= step_size,
{
    if step_size == 0 {
        return Err(TotpError::Config);
    }
    match unix_time() {
        Ok(now) => totp_remainder_at(now, start_time, step_size),
        Err(e) => Err(e),
    }
}

/// The start time that is used where a caller may leave it out.
pub open spec fn start_time_or_default(start_time: Option<EpochTime>) -> EpochTime {
    match start_time {
        Some(t) => t,
        None => START_TIME,
    }
}

/// The step size that is used where a caller may leave it out.
pub open spec fn step_size_or_default(step_size: Option<u8>) -> u64 {
    match step_size {
        Some(s) => s as u64,
        None => STEP_SIZE as u64,
    }
}

/// The code width that is used where a caller may leave it out.
pub open spec fn code_width_or_default(code_width: Option<u8>) -> u8 {
    match code_width {
        Some(w) => w,
        None => CODE_WIDTH,
    }
}

/// The code of the current time, with each parameter given or left at its
/// default. The parameters are checked before the clock is read and before
/// anything is hashed.
pub fn get_totp_ext(
    secret: &Secret,
    start_time: Option<EpochTime>,
    step_size: Option<u8>,
    code_width: Option<u8>,
) -> (code: Result<u32, TotpError>)
    ensures
        current_code_outcome(
            secret@,
            start_time_or_default(start_time),
            step_size_or_default(step_size),
            code_width_or_default(code_width),
            code,
        ),
        code matches Ok(c) ==> c < pow(10, code_width_or_default(code_width) as nat),
{
    let start: EpochTime = match start_time {
        Some(t) => t,
        None => START_TIME,
    };
    let step: u64 = match step_size {
        Some(s) => s as u64,
        None => STEP_SIZE as u64,
    };
    let width: u8 = match code_width {
        Some(w) => w,
        None => CODE_WIDTH,
    };
    let config: Config = match Config::new(start, step, width) {
        Ok(c) => c,
        Err(e) => {
            return Err(e);
        },
    };
    match unix_time() {
        Ok(now) => {
            let code = totp_at(secret, now, &config);
            assert(totp_outcome(secret@, now, start, step, width, code));
            code
        },
        Err(e) => Err(e),
    }
}

/// The code of the current time under the default configuration: six digits,
/// steps of 30 seconds counted from the epoch.
pub fn get_totp(secret: &Secret) -> (code: Result<u32, TotpError>)
    ensures
        current_code_outcome(secret@, START_TIME, STEP_SIZE as u64, CODE_WIDTH, code),
        code matches Ok(c) ==> c < 1_000_000,
{
    proof {
        reveal_with_fuel(pow, 7);
    }
    get_totp_ext(secret, None, None, None)
}

} // verus!
