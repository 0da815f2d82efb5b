//! The success evaluator: whether one executed command counts as a success.

use vstd::prelude::*;
use vstd::utf8::{decode_utf8, valid_utf8};

use crate::error::{AuditError, ErrorKind};
use crate::model::{ExecutionOutcome, ExecutionOutcomeView};
use crate::outside::{pattern_compiles, pattern_matches};

verus! {

/// A step succeeds when its command exited with success and, where a
/// pattern is expected, standard output matched it. `stdout_matches` is
/// `None` where no pattern is expected.
pub open spec fn step_success(exit_success: bool, stdout_matches: Option<bool>) -> bool {
    exit_success && match stdout_matches {
        Some(matched) => matched,
        None => true,
    }
}

/// The judgement on one outcome. Without a pattern the exit status decides.
/// With one, the pattern must compile, then standard output must be valid
/// UTF-8, and then the step succeeds when the pattern matches somewhere in
/// that text and the command exited with success.
pub open spec fn judgement(outcome: ExecutionOutcomeView, expect: Option<Seq<char>>) -> Result<
    bool,
    ErrorKind,
> {
    match expect {
        None => Ok(step_success(outcome.exit_success, None)),
        Some(pattern) => if !pattern_compiles(pattern) {
            Err(ErrorKind::Pattern)
        } else if !valid_utf8(outcome.stdout) {
            Err(ErrorKind::Encoding)
        } else {
            Ok(
                step_success(
                    outcome.exit_success,
                    Some(pattern_matches(pattern, decode_utf8(outcome.stdout))),
                ),
            )
        },
    }
}

/// What a judgement says once the error it carries is forgotten.
pub open spec fn judged(r: Result<bool, AuditError>) -> Result<bool, ErrorKind> {
    match r {
        Ok(success) => Ok(success),
        Err(e) => Err(e@),
    }
}

/// Combines the exit status with the result of matching standard output.
pub fn combine(exit_success: bool, stdout_matches: Option<bool>) -> (success: bool)
    ensures
        success == step_success(exit_success, stdout_matches),
{
    match stdout_matches {
        Some(matched) => matched && exit_success,
        None => exit_success,
    }
}

/// Judges the outcome of one command against the step's expected pattern.
pub fn is_success(output: &ExecutionOutcome, expect: &Option<String>) -> (r: Result<
    bool,
    AuditError,
>)
    ensures
        judged(r) == judgement(output@, expect.deep_view()),
{
    let stdout_matches = match expect {
        Some(pattern) => {
            let re = match regex::Regex::new(pattern.as_str()) {
                Ok(re) => re,
                Err(e) => {
                    return Err(AuditError::from(e));
                },
            };
            let stdout = match String::from_utf8(output.stdout.clone()) {
                Ok(stdout) => stdout,
                Err(e) => {
                    return Err(AuditError::from(e));
                },
            };
            Some(re.is_match(stdout.as_str()))
        },
        None => None,
    };
    Ok(combine(output.exit_success, stdout_matches))
}

/// With a pattern expected, a step succeeds only when both hold: the command
/// exited with success and its standard output matches. A match does not
/// make up for a failed exit, nor a clean exit for a missing match.
pub proof fn lemma_expect_needs_both(outcome: ExecutionOutcomeView, pattern: Seq<char>)
    ensures
        judgement(outcome, Some(pattern)) == Ok::<bool, ErrorKind>(true) <==> {
            &&& pattern_compiles(pattern)
            &&& valid_utf8(outcome.stdout)
            &&& outcome.exit_success
            &&& pattern_matches(pattern, decode_utf8(outcome.stdout))
        },
        pattern_compiles(pattern) && valid_utf8(outcome.stdout) ==> judgement(
            outcome,
            Some(pattern),
        ) == Ok::<bool, ErrorKind>(
            outcome.exit_success && pattern_matches(pattern, decode_utf8(outcome.stdout)),
        ),
{
}

} // verus!
