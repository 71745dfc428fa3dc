//! Reading what an SSH voting command leaves behind.

use vstd::prelude::*;

use crate::aur_vote::AurPackageVoteState;
use crate::aur_vote::AurVoteError;
use crate::aur_vote::AurVoteErrorView;
use crate::aur_vote::AurVoteOutcome;
use crate::aur_vote::AurVoteOutcomeView;
use crate::aur_vote::VoteAction;
use crate::process;
use crate::process::CommandOutput;
use crate::sanitize;
use crate::split;
use crate::text;

verus! {

/// Exit code of SSH for failures of its own, such as a refused key.
pub const SSH_ERROR_EXIT_CODE: i32 = 255;

/// What the server says when it does not know the command that lists votes.
pub const LIST_VOTES_UNSUPPORTED_PATTERN: &'static str = "invalid command: list-votes";

/// What the user is told when votes cannot be listed.
pub const LOOKUP_UNSUPPORTED_DETAIL: &'static str =
    "AUR SSH server does not support vote-state lookup.";

/// The result of a vote as a mathematical value.
pub open spec fn vote_view(res: Result<AurVoteOutcome, AurVoteError>) -> Result<
    AurVoteOutcomeView,
    AurVoteErrorView,
> {
    match res {
        Ok(outcome) => Ok(outcome@),
        Err(error) => Err(error@),
    }
}

/// The result of a look-up as a mathematical value.
pub open spec fn state_view(res: Result<AurPackageVoteState, AurVoteError>) -> Result<
    AurPackageVoteState,
    AurVoteErrorView,
> {
    match res {
        Ok(state) => Ok(state),
        Err(error) => Err(error@),
    }
}

/// The exit code, or -1 for a process that a signal ended.
pub open spec fn code_of(exit_code: Option<i32>) -> int {
    match exit_code {
        Some(code) => code as int,
        None => -1,
    }
}

/// The exit code, or -1 for a process that a signal ended.
fn code_or_default(exit_code: Option<i32>) -> (res: i32)
    ensures
        res == code_of(exit_code),
{
    match exit_code {
        Some(code) => code,
        None => -1,
    }
}

// ---------------------------------------------------------------------------
// Failures of the connection
// ---------------------------------------------------------------------------

/// The error for a failure that the server did not explain. What SSH printed
/// tells a lost connection and an unreachable host from a refused key, which
/// all end with the same exit code.
pub open spec fn connection_error(code: int, stderr: Seq<char>) -> AurVoteErrorView {
    let detail = sanitize::sanitized(stderr);
    if text::occurs("Connection timed out"@, stderr) || text::occurs(
        "Connection refused"@,
        stderr,
    ) {
        AurVoteErrorView::Timeout(detail)
    } else if text::occurs("Could not resolve hostname"@, stderr) || text::occurs(
        "Network is unreachable"@,
        stderr,
    ) || text::occurs("No route to host"@, stderr) {
        AurVoteErrorView::NetworkError(detail)
    } else if code == SSH_ERROR_EXIT_CODE {
        AurVoteErrorView::AuthFailed(detail)
    } else {
        AurVoteErrorView::Unexpected(detail)
    }
}

/// The error for a failure that the server did not explain.
fn connection_failure(code: i32, stderr: &str) -> (res: AurVoteError)
    ensures
        res@ == connection_error(code as int, stderr@),
{
    let detail = sanitize::sanitize_stderr(stderr);
    if text::contains(stderr, "Connection timed out") || text::contains(
        stderr,
        "Connection refused",
    ) {
        return AurVoteError::Timeout(detail);
    }
    if text::contains(stderr, "Could not resolve hostname") || text::contains(
        stderr,
        "Network is unreachable",
    ) || text::contains(stderr, "No route to host") {
        return AurVoteError::NetworkError(detail);
    }
    if code == SSH_ERROR_EXIT_CODE {
        return AurVoteError::AuthFailed(detail);
    }
    AurVoteError::Unexpected(detail)
}

// ---------------------------------------------------------------------------
// Votes
// ---------------------------------------------------------------------------

/// The error for a vote that the server refused, if it said why.
pub open spec fn vote_refusal(stderr: Seq<char>, pkgbase: Seq<char>) -> Option<AurVoteErrorView> {
    if text::occurs("already voted for package base"@, stderr) {
        Some(AurVoteErrorView::AlreadyVoted(pkgbase))
    } else if text::occurs("missing vote for package base"@, stderr) {
        Some(AurVoteErrorView::NotVoted(pkgbase))
    } else if text::occurs("package base not found"@, stderr) {
        Some(AurVoteErrorView::NotFound(pkgbase))
    } else if text::occurs("AUR is down due to maintenance"@, stderr) {
        Some(AurVoteErrorView::Maintenance)
    } else if text::occurs("SSH interface is disabled"@, stderr) {
        Some(AurVoteErrorView::Banned)
    } else {
        None
    }
}

/// The result of a vote whose process ended with `exit_code` and printed
/// `stderr`.
pub open spec fn vote_result(
    exit_code: Option<i32>,
    stderr: Seq<char>,
    action: VoteAction,
    pkgbase: Seq<char>,
) -> Result<AurVoteOutcomeView, AurVoteErrorView> {
    let code = code_of(exit_code);
    let refusal = vote_refusal(text::trimmed(stderr), pkgbase);
    if code == 0 {
        Ok(AurVoteOutcomeView { action, pkgbase, dry_run: false })
    } else if code == 1 && refusal is Some {
        Err(refusal->0)
    } else {
        Err(connection_error(code, text::trimmed(stderr)))
    }
}

/// The error for a vote that the server refused, if it said why.
fn refusal_of_vote(stderr: &str, pkgbase: &str) -> (res: Option<AurVoteError>)
    ensures
        res is Some <==> vote_refusal(stderr@, pkgbase@) is Some,
        res is Some ==> res->0@ == vote_refusal(stderr@, pkgbase@)->0,
{
    if text::contains(stderr, "already voted for package base") {
        return Some(AurVoteError::AlreadyVoted(pkgbase.to_owned()));
    }
    if text::contains(stderr, "missing vote for package base") {
        return Some(AurVoteError::NotVoted(pkgbase.to_owned()));
    }
    if text::contains(stderr, "package base not found") {
        return Some(AurVoteError::NotFound(pkgbase.to_owned()));
    }
    if text::contains(stderr, "AUR is down due to maintenance") {
        return Some(AurVoteError::Maintenance);
    }
    if text::contains(stderr, "SSH interface is disabled") {
        return Some(AurVoteError::Banned);
    }
    None
}

/// The result of a vote whose process ended with `exit_code` and printed
/// `stderr`.
pub fn parse_vote_text(
    exit_code: Option<i32>,
    stderr: &str,
    action: VoteAction,
    pkgbase: &str,
) -> (res: Result<AurVoteOutcome, AurVoteError>)
    ensures
        vote_view(res) == vote_result(exit_code, stderr@, action, pkgbase@),
{
    let code = code_or_default(exit_code);
    if code == 0 {
        return Ok(AurVoteOutcome { action, pkgbase: pkgbase.to_owned(), dry_run: false });
    }
    let printed = text::trim(stderr);
    if code == 1 {
        if let Some(error) = refusal_of_vote(printed, pkgbase) {
            return Err(error);
        }
    }
    Err(connection_failure(code, printed))
}

/// The result of a vote whose process left `output` behind.
pub fn parse_ssh_result(output: &CommandOutput, action: VoteAction, pkgbase: &str) -> (res: Result<
    AurVoteOutcome,
    AurVoteError,
>)
    ensures
        vote_view(res) == vote_result(
            output.exit_code,
            process::decoded(output.stderr@),
            action,
            pkgbase@,
        ),
{
    let stderr = process::decode(&output.stderr);
    parse_vote_text(output.exit_code, stderr.as_str(), action, pkgbase)
}

// ---------------------------------------------------------------------------
// Look-ups
// ---------------------------------------------------------------------------

/// The error for a look-up that the server refused, if it said why.
pub open spec fn list_votes_refusal(stderr: Seq<char>) -> Option<AurVoteErrorView> {
    if text::occurs("AUR is down due to maintenance"@, stderr) {
        Some(AurVoteErrorView::Maintenance)
    } else if text::occurs(LIST_VOTES_UNSUPPORTED_PATTERN@, stderr) {
        Some(AurVoteErrorView::Unexpected(LOOKUP_UNSUPPORTED_DETAIL@))
    } else if text::occurs("SSH interface is disabled"@, stderr) {
        Some(AurVoteErrorView::Banned)
    } else {
        None
    }
}

/// Whether a list of votes, separated by white space, has `pkgbase` in it.
pub open spec fn listed_state(stdout: Seq<char>, pkgbase: Seq<char>) -> AurPackageVoteState {
    if split::words(stdout).contains(pkgbase) {
        AurPackageVoteState::Voted
    } else {
        AurPackageVoteState::NotVoted
    }
}

/// The result of a look-up whose process ended with `exit_code` and printed
/// `stdout` and `stderr`.
pub open spec fn list_votes_result(
    exit_code: Option<i32>,
    stdout: Seq<char>,
    stderr: Seq<char>,
    pkgbase: Seq<char>,
) -> Result<AurPackageVoteState, AurVoteErrorView> {
    let code = code_of(exit_code);
    let refusal = list_votes_refusal(text::trimmed(stderr));
    if code == 0 {
        Ok(listed_state(stdout, pkgbase))
    } else if refusal is Some {
        Err(refusal->0)
    } else {
        Err(connection_error(code, text::trimmed(stderr)))
    }
}

/// The error for a look-up that the server refused, if it said why.
fn refusal_of_list_votes(stderr: &str) -> (res: Option<AurVoteError>)
    ensures
        res is Some <==> list_votes_refusal(stderr@) is Some,
        res is Some ==> res->0@ == list_votes_refusal(stderr@)->0,
{
    if text::contains(stderr, "AUR is down due to maintenance") {
        return Some(AurVoteError::Maintenance);
    }
    if text::contains(stderr, LIST_VOTES_UNSUPPORTED_PATTERN) {
        return Some(AurVoteError::Unexpected(LOOKUP_UNSUPPORTED_DETAIL.to_owned()));
    }
    if text::contains(stderr, "SSH interface is disabled") {
        return Some(AurVoteError::Banned);
    }
    None
}

/// Whether a list of votes has `pkgbase` in it.
fn state_in_list(stdout: &str, pkgbase: &str) -> (res: AurPackageVoteState)
    ensures
        res == listed_state(stdout@, pkgbase@),
{
    let names = split::split_words(stdout);
    let mut i: usize = 0;
    while i < names.len()
        invariant
            i <= names@.len(),
            split::views(names@) == split::words(stdout@),
            forall|j: int| 0 <= j < i ==> names@[j]@ != pkgbase@,
        decreases names@.len() - i,
    {
        if text::same_text(names[i].as_str(), pkgbase) {
            assert(split::words(stdout@)[i as int] == pkgbase@);
            return AurPackageVoteState::Voted;
        }
        i += 1;
    }
    assert forall|j: int| 0 <= j < split::words(stdout@).len() implies split::words(stdout@)[j]
        != pkgbase@ by {
        assert(split::views(names@)[j] == names@[j]@);
    }
    AurPackageVoteState::NotVoted
}

/// The result of a look-up whose process ended with `exit_code` and printed
/// `stdout` and `stderr`.
pub fn parse_list_votes_text(
    exit_code: Option<i32>,
    stdout: &str,
    stderr: &str,
    pkgbase: &str,
) -> (res: Result<AurPackageVoteState, AurVoteError>)
    ensures
        state_view(res) == list_votes_result(exit_code, stdout@, stderr@, pkgbase@),
{
    let code = code_or_default(exit_code);
    if code == 0 {
        return Ok(state_in_list(stdout, pkgbase));
    }
    let printed = text::trim(stderr);
    if let Some(error) = refusal_of_list_votes(printed) {
        return Err(error);
    }
    Err(connection_failure(code, printed))
}

/// The result of a look-up whose process left `output` behind.
pub fn parse_list_votes_result(output: &CommandOutput, pkgbase: &str) -> (res: Result<
    AurPackageVoteState,
    AurVoteError,
>)
    ensures
        state_view(res) == list_votes_result(
            output.exit_code,
            process::decoded(output.stdout@),
            process::decoded(output.stderr@),
            pkgbase@,
        ),
{
    let stdout = process::decode(&output.stdout);
    let stderr = process::decode(&output.stderr);
    parse_list_votes_text(output.exit_code, stdout.as_str(), stderr.as_str(), pkgbase)
}

/// The error says that the server cannot list votes.
pub open spec fn is_lookup_unsupported(error: AurVoteErrorView) -> bool {
    match error {
        AurVoteErrorView::Unexpected(detail) => text::occurs(
            "does not support vote-state lookup"@,
            detail,
        ),
        _ => false,
    }
}

/// Whether the error of a look-up says that the server cannot list votes, which
/// leaves the state unknown rather than being worth a report.
#[must_use]
pub fn is_vote_state_unsupported_error(error: &AurVoteError) -> (res: bool)
    ensures
        res == is_lookup_unsupported(error@),
{
    match error {
        AurVoteError::Unexpected(detail) => text::contains(
            detail.as_str(),
            "does not support vote-state lookup",
        ),
        _ => false,
    }
}

} // verus!
