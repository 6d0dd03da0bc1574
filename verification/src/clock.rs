//! The host's clock.

use vstd::prelude::*;
use anchor_lang::solana_program::clock::Clock;
use anchor_lang::solana_program::program_error::ProgramError;
use anchor_lang::solana_program::sysvar::Sysvar;

verus! {

/// The host's error type, carried through unread.
#[verifier::external_type_specification]
#[verifier::external_body]
pub struct ExProgramError(anchor_lang::solana_program::program_error::ProgramError);

/// Asks the host for its clock with `Clock::get` (the `Sysvar` method of
/// `solana_program`) and hands back the clock's `unix_timestamp`, or the
/// host's error where it gave no clock. Nothing is claimed of the answer:
/// the time is whatever the host says it is, and callers must be right for
/// every answer.
#[verifier::external_body]
pub(crate) fn host_unix_timestamp() -> (now: Result<i64, ProgramError>) {
    match Clock::get() {
        Ok(clock) => Ok(clock.unix_timestamp),
        Err(err) => Err(err),
    }
}

} // verus!
