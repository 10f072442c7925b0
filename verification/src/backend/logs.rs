//! The log directory of each launch: its name, and which old ones are removed
//! at start-up.

use vstd::prelude::*;

use super::error::BackendError;
use crate::text::{decimal, decimal_string, lemma_parse_decimal, parse_u64, parse_u64_exec};

verus! {

/// How many days of launch logs are kept.
pub const MAX_AGE_DAYS: u64 = 7;

/// The directory of this launch's logs, under the application log directory.
pub struct LogState {
    pub session_dir: String,
}

/// The oldest launch time a log directory may have and stay: `now` minus the
/// given days, each multiplication and subtraction saturating.
pub open spec fn log_cutoff(now: u64, max_age_days: u64) -> u64 {
    let age = if max_age_days * 86_400 > u64::MAX {
        u64::MAX
    } else {
        (max_age_days * 86_400) as u64
    };
    if now >= age {
        (now - age) as u64
    } else {
        0
    }
}

/// `now.saturating_sub(max_age_days.saturating_mul(86_400))`.
pub fn cleanup_cutoff(now: u64, max_age_days: u64) -> (r: u64)
    ensures
        r == log_cutoff(now, max_age_days),
{
    let age: u64 = if max_age_days > u64::MAX / 86_400 {
        u64::MAX
    } else {
        max_age_days * 86_400
    };
    now.saturating_sub(age)
}

/// Removed at start-up: a directory whose name is a launch time (in decimal
/// seconds) older than the cutoff. Files, and directories with other names, stay.
pub open spec fn is_old_log_dir(is_dir: bool, name: Seq<char>, cut: u64) -> bool {
    is_dir && (parse_u64(name) matches Some(t) && t < cut)
}

/// Whether the start-up cleanup removes an entry of the log directory (its
/// name as lossy UTF-8).
pub fn cleanup_old_logs(is_dir: bool, name: &str, cut: u64) -> (r: bool)
    ensures
        r == is_old_log_dir(is_dir, name@, cut),
{
    if !is_dir {
        return false;
    }
    match parse_u64_exec(name) {
        Some(t) => t < cut,
        None => false,
    }
}

/// The name of this launch's log directory: the launch time in decimal
/// seconds; a clock before the epoch makes it impossible.
pub fn create_session_log_dir(secs_since_epoch: Option<u64>) -> (r: Result<String, BackendError>)
    ensures
        match secs_since_epoch {
            Some(t) => r matches Ok(s) && s@ == decimal(t as nat),
            None => r == Err::<String, BackendError>(BackendError::LogDirCreateFailed),
        },
{
    match secs_since_epoch {
        Some(t) => Ok(decimal_string(t)),
        None => Err(BackendError::LogDirCreateFailed),
    }
}

/// A launch directory is removed exactly when it is older than the cutoff: a
/// directory named after launch time `t` goes when `t` lies before the
/// cutoff and stays otherwise; a plain file of the same name always stays.
pub proof fn law_cleanup_removes_exactly_the_old(t: u64, cut: u64)
    ensures
        is_old_log_dir(true, decimal(t as nat), cut) <==> t < cut,
        !is_old_log_dir(false, decimal(t as nat), cut),
{
    lemma_parse_decimal(t);
}

/// A cleanup never removes a directory created at or after the moment it
/// reads the clock, such as the directory of the launch that runs it: the name
/// a directory is created with reads back as its launch time, and no cutoff
/// lies after the clock it was taken from.
pub proof fn law_fresh_log_dir_survives_cleanup(launch: u64, now: u64, max_age_days: u64)
    requires
        now <= launch,
    ensures
        !is_old_log_dir(true, decimal(launch as nat), log_cutoff(now, max_age_days)),
{
    lemma_parse_decimal(launch);
}

} // verus!
