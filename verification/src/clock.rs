//! The cluster's clock.

use anchor_lang::prelude::{Clock, ProgramError, SolanaSysvar};
use vstd::prelude::*;

verus! {

/// `ProgramError` of `anchor_lang`: the runtime's own failures. The library
/// hands such a value on and never looks inside.
#[verifier::external_type_specification]
#[verifier::external_body]
pub struct ExProgramError(ProgramError);

/// The current wall-clock time, in seconds since the Unix epoch, as
/// `Clock::get` of `anchor_lang` reports it in its `unix_timestamp` field.
///
/// Trusted, and without a contract: the time differs from call to call,
/// and where no runtime serves the clock the call answers with an error.
/// Callers are verified for every answer.
#[verifier::external_body]
pub(crate) fn unix_timestamp() -> (now: Result<i64, ProgramError>) {
    match Clock::get() {
        Ok(clock) => Ok(clock.unix_timestamp),
        Err(error) => Err(error),
    }
}

} // verus!
