//! The command surface: resolving the single recognized subcommand, and the
//! total mapping from run outcomes and usage errors to the documented,
//! stable process exit codes.

use vstd::prelude::*;

use crate::executor::RunOutcome;

verus! {

/// Exit code when every step of the run passed.
pub const EXIT_SUCCESS: u8 = 0;

/// Exit code when some step of the run failed.
pub const EXIT_CHECKS_FAILED: u8 = 1;

/// Exit code for an invalid invocation (missing or unrecognized
/// subcommand); reserved for bad usage alone.
pub const EXIT_USAGE: u8 = 2;

/// What the command line asked for: the one recognized subcommand, or an
/// invalid invocation.
#[derive(Clone, Copy, PartialEq, Eq, Structural, Debug)]
pub enum Invocation {
    /// Run the full check suite.
    CheckAll,
    /// Anything else: print usage and exit with the bad-usage code.
    Usage,
}

/// The invocation that a first command-line argument (if any) resolves to.
pub open spec fn invocation_of(arg: Option<Seq<char>>) -> Invocation {
    match arg {
        Some(s) => if s == "check-all"@ {
            Invocation::CheckAll
        } else {
            Invocation::Usage
        },
        None => Invocation::Usage,
    }
}

/// Resolves the first command-line argument to an invocation: exactly the
/// subcommand `check-all` triggers a run; a missing or different argument
/// is bad usage.
pub fn parse_invocation(arg: Option<&String>) -> (r: Invocation)
    ensures
        arg matches Some(s) ==> r == invocation_of(Some(s@)),
        arg is None ==> r == Invocation::Usage,
{
    match arg {
        Some(s) => {
            let expected: String = "check-all".to_owned();
            if *s == expected {
                Invocation::CheckAll
            } else {
                Invocation::Usage
            }
        },
        None => Invocation::Usage,
    }
}

/// Maps a run outcome to its documented exit code: the success code
/// exactly when every step passed, the checks-failed code otherwise.
pub fn exit_code_for(outcome: &RunOutcome) -> (r: u8)
    ensures
        *outcome is AllPassed ==> r == EXIT_SUCCESS,
        *outcome is StepFailed ==> r == EXIT_CHECKS_FAILED,
{
    match outcome {
        RunOutcome::AllPassed => EXIT_SUCCESS,
        RunOutcome::StepFailed { .. } => EXIT_CHECKS_FAILED,
    }
}

/// The three documented exit codes are pairwise distinct, so external
/// callers can tell success, failed checks, and bad usage apart.
pub proof fn lemma_exit_codes_distinct()
    ensures
        EXIT_SUCCESS != EXIT_CHECKS_FAILED,
        EXIT_SUCCESS != EXIT_USAGE,
        EXIT_CHECKS_FAILED != EXIT_USAGE,
{
}

} // verus!
