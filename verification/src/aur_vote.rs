//! AUR package voting over SSH.
//!
//! A vote is cast by `ssh aur@aur.archlinux.org {vote|unvote} <pkgbase>`. The
//! user's SSH public key identifies the account. Exit code 0 means success. A
//! refused request ends with exit code 1 and a message on standard error:
//!
//! - `already voted for package base: {name}`: the vote exists already
//! - `missing vote for package base: {name}`: there is no vote to remove
//! - `package base not found: {name}`: the package base does not exist
//! - `The AUR is down due to maintenance`: try again later
//! - `The SSH interface is disabled for your IP address`: the address is banned
//!
//! SSH itself ends with exit code 255 when it cannot connect or authenticate.
//!
//! This module holds the types. [`crate::vote_reply`] reads what SSH leaves
//! behind, and [`crate::vote_transport`] builds the command lines and runs a
//! vote over a transport.

use vstd::prelude::*;

verus! {

/// Voting action on a package base. The AUR has no downvotes.
#[derive(Clone, Copy, Debug, PartialEq, Eq, Structural)]
pub enum VoteAction {
    /// Add a vote.
    Vote,
    /// Remove an existing vote.
    Unvote,
}

/// The SSH subcommand for an action.
pub open spec fn ssh_arg(action: VoteAction) -> Seq<char> {
    match action {
        VoteAction::Vote => "vote"@,
        VoteAction::Unvote => "unvote"@,
    }
}

/// The name of an action.
pub open spec fn action_name(action: VoteAction) -> Seq<char> {
    match action {
        VoteAction::Vote => "Vote"@,
        VoteAction::Unvote => "Unvote"@,
    }
}

impl VoteAction {
    /// The SSH subcommand for this action.
    pub fn as_ssh_arg(self) -> (res: &'static str)
        ensures
            res@ == ssh_arg(self),
    {
        match self {
            VoteAction::Vote => "vote",
            VoteAction::Unvote => "unvote",
        }
    }

    /// The name of this action.
    pub fn to_string(&self) -> (res: String)
        ensures
            res@ == action_name(*self),
    {
        match self {
            VoteAction::Vote => "Vote".to_owned(),
            VoteAction::Unvote => "Unvote".to_owned(),
        }
    }
}

/// Whether the account has a vote for a package base.
#[derive(Clone, Copy, Debug, PartialEq, Eq, Structural)]
pub enum AurPackageVoteState {
    /// The account has voted for the package base.
    Voted,
    /// The account has not voted for the package base.
    NotVoted,
}

/// Successful outcome of a vote.
#[derive(Clone, Debug, PartialEq, Eq)]
pub struct AurVoteOutcome {
    /// The action that was performed.
    pub action: VoteAction,
    /// The package base that it was performed on.
    pub pkgbase: String,
    /// Whether it was only simulated.
    pub dry_run: bool,
}

/// The mathematical value of an [`AurVoteOutcome`].
#[verifier::ext_equal]
pub struct AurVoteOutcomeView {
    pub action: VoteAction,
    pub pkgbase: Seq<char>,
    pub dry_run: bool,
}

impl View for AurVoteOutcome {
    type V = AurVoteOutcomeView;

    open spec fn view(&self) -> AurVoteOutcomeView {
        AurVoteOutcomeView {
            action: self.action,
            pkgbase: self.pkgbase@,
            dry_run: self.dry_run,
        }
    }
}

/// What an outcome's message says before the package base.
pub open spec fn outcome_lead(action: VoteAction, dry_run: bool) -> Seq<char> {
    match (action, dry_run) {
        (VoteAction::Vote, true) => "[dry-run] Would vote for '"@,
        (VoteAction::Unvote, true) => "[dry-run] Would remove vote for '"@,
        (VoteAction::Vote, false) => "Voted for '"@,
        (VoteAction::Unvote, false) => "Removed vote for '"@,
    }
}

/// The message that tells the user of an outcome.
pub open spec fn outcome_message(outcome: AurVoteOutcomeView) -> Seq<char> {
    outcome_lead(outcome.action, outcome.dry_run) + outcome.pkgbase + "'"@
}

/// `lead`, then `middle`, then `tail`.
fn sandwich(lead: &str, middle: &str, tail: &str) -> (res: String)
    ensures
        res@ == lead@ + middle@ + tail@,
{
    lead.to_owned().concat(middle).concat(tail)
}

impl AurVoteOutcome {
    /// The message that tells the user of this outcome.
    #[must_use]
    pub fn message(&self) -> (res: String)
        ensures
            res@ == outcome_message(self@),
    {
        let lead = if self.dry_run {
            match self.action {
                VoteAction::Vote => "[dry-run] Would vote for '",
                VoteAction::Unvote => "[dry-run] Would remove vote for '",
            }
        } else {
            match self.action {
                VoteAction::Vote => "Voted for '",
                VoteAction::Unvote => "Removed vote for '",
            }
        };
        sandwich(lead, self.pkgbase.as_str(), "'")
    }
}

/// Why a vote, or the look-up of one, failed.
#[derive(Clone, Debug, PartialEq, Eq)]
pub enum AurVoteError {
    /// The vote for this package base exists already.
    AlreadyVoted(String),
    /// There is no vote for this package base to remove.
    NotVoted(String),
    /// The package base does not exist.
    NotFound(String),
    /// SSH could not authenticate.
    AuthFailed(String),
    /// The AUR is under maintenance.
    Maintenance,
    /// The SSH interface is disabled for the user's IP address.
    Banned,
    /// The connection timed out or was refused.
    Timeout(String),
    /// The host could not be resolved or reached.
    NetworkError(String),
    /// The SSH program does not exist.
    SshNotFound(String),
    /// Anything else, with what SSH printed.
    Unexpected(String),
}

/// The mathematical value of an [`AurVoteError`].
#[verifier::ext_equal]
pub enum AurVoteErrorView {
    AlreadyVoted(Seq<char>),
    NotVoted(Seq<char>),
    NotFound(Seq<char>),
    AuthFailed(Seq<char>),
    Maintenance,
    Banned,
    Timeout(Seq<char>),
    NetworkError(Seq<char>),
    SshNotFound(Seq<char>),
    Unexpected(Seq<char>),
}

impl View for AurVoteError {
    type V = AurVoteErrorView;

    open spec fn view(&self) -> AurVoteErrorView {
        match self {
            AurVoteError::AlreadyVoted(pkg) => AurVoteErrorView::AlreadyVoted(pkg@),
            AurVoteError::NotVoted(pkg) => AurVoteErrorView::NotVoted(pkg@),
            AurVoteError::NotFound(pkg) => AurVoteErrorView::NotFound(pkg@),
            AurVoteError::AuthFailed(detail) => AurVoteErrorView::AuthFailed(detail@),
            AurVoteError::Maintenance => AurVoteErrorView::Maintenance,
            AurVoteError::Banned => AurVoteErrorView::Banned,
            AurVoteError::Timeout(detail) => AurVoteErrorView::Timeout(detail@),
            AurVoteError::NetworkError(detail) => AurVoteErrorView::NetworkError(detail@),
            AurVoteError::SshNotFound(cmd) => AurVoteErrorView::SshNotFound(cmd@),
            AurVoteError::Unexpected(detail) => AurVoteErrorView::Unexpected(detail@),
        }
    }
}

/// The message that tells the user of an error.
pub open spec fn error_message(error: AurVoteErrorView) -> Seq<char> {
    match error {
        AurVoteErrorView::AlreadyVoted(pkg) => "You have already voted for '"@ + pkg + "'"@,
        AurVoteErrorView::NotVoted(pkg) => "You haven't voted for '"@ + pkg + "'"@,
        AurVoteErrorView::NotFound(pkg) => "Package base '"@ + pkg + "' not found on AUR"@,
        AurVoteErrorView::AuthFailed(detail) => {
            "SSH auth failed. Ensure your SSH key is uploaded to your AUR account at https://aur.archlinux.org/account ("@
                + detail + ")"@
        },
        AurVoteErrorView::Maintenance => "AUR is under maintenance. Try again later"@,
        AurVoteErrorView::Banned => "SSH interface disabled for your IP. Contact AUR support"@,
        AurVoteErrorView::Timeout(detail) => {
            "Connection to aur.archlinux.org timed out. Check network ("@ + detail + ")"@
        },
        AurVoteErrorView::NetworkError(detail) => {
            "Could not connect to aur.archlinux.org. Check connectivity ("@ + detail + ")"@
        },
        AurVoteErrorView::SshNotFound(cmd) => {
            "SSH binary '"@ + cmd
                + "' not found. Install openssh or configure aur_vote_ssh_command in settings"@
        },
        AurVoteErrorView::Unexpected(detail) => {
            "AUR vote failed unexpectedly: "@ + detail
        },
    }
}

impl AurVoteError {
    /// The message that tells the user of this error.
    pub fn to_string(&self) -> (res: String)
        ensures
            res@ == error_message(self@),
    {
        match self {
            AurVoteError::AlreadyVoted(pkg) => {
                sandwich("You have already voted for '", pkg.as_str(), "'")
            },
            AurVoteError::NotVoted(pkg) => sandwich("You haven't voted for '", pkg.as_str(), "'"),
            AurVoteError::NotFound(pkg) => {
                sandwich("Package base '", pkg.as_str(), "' not found on AUR")
            },
            AurVoteError::AuthFailed(detail) => sandwich(
                "SSH auth failed. Ensure your SSH key is uploaded to your AUR account at https://aur.archlinux.org/account (",
                detail.as_str(),
                ")",
            ),
            AurVoteError::Maintenance => "AUR is under maintenance. Try again later".to_owned(),
            AurVoteError::Banned => {
                "SSH interface disabled for your IP. Contact AUR support".to_owned()
            },
            AurVoteError::Timeout(detail) => sandwich(
                "Connection to aur.archlinux.org timed out. Check network (",
                detail.as_str(),
                ")",
            ),
            AurVoteError::NetworkError(detail) => sandwich(
                "Could not connect to aur.archlinux.org. Check connectivity (",
                detail.as_str(),
                ")",
            ),
            AurVoteError::SshNotFound(cmd) => sandwich(
                "SSH binary '",
                cmd.as_str(),
                "' not found. Install openssh or configure aur_vote_ssh_command in settings",
            ),
            AurVoteError::Unexpected(detail) => {
                "AUR vote failed unexpectedly: ".to_owned().concat(detail.as_str())
            },
        }
    }
}

/// How to reach the AUR.
#[derive(Clone, Debug)]
pub struct AurVoteContext {
    /// Simulate votes, without network activity.
    pub dry_run: bool,
    /// SSH connect timeout in seconds.
    pub ssh_timeout_secs: u32,
    /// Path or name of the SSH program.
    pub ssh_command: String,
}

impl Default for AurVoteContext {
    fn default() -> (res: Self)
        ensures
            !res.dry_run,
            res.ssh_timeout_secs == 10,
            res.ssh_command@ == "ssh"@,
    {
        AurVoteContext { dry_run: false, ssh_timeout_secs: 10, ssh_command: "ssh".to_owned() }
    }
}

// ---------------------------------------------------------------------------
// Laws
// ---------------------------------------------------------------------------

/// The value of an outcome has each of its fields.
pub proof fn law_outcome_value(outcome: AurVoteOutcome)
    ensures
        outcome@.action == outcome.action,
        outcome@.pkgbase == outcome.pkgbase@,
        outcome@.dry_run == outcome.dry_run,
{
}

/// The value of an error tells the same variant and the same text.
pub proof fn law_error_value(error: AurVoteError)
    ensures
        error matches AurVoteError::AlreadyVoted(s) ==> error@ == AurVoteErrorView::AlreadyVoted(
            s@,
        ),
        error matches AurVoteError::NotVoted(s) ==> error@ == AurVoteErrorView::NotVoted(s@),
        error matches AurVoteError::NotFound(s) ==> error@ == AurVoteErrorView::NotFound(s@),
        error matches AurVoteError::AuthFailed(s) ==> error@ == AurVoteErrorView::AuthFailed(s@),
        error is Maintenance ==> error@ == AurVoteErrorView::Maintenance,
        error is Banned ==> error@ == AurVoteErrorView::Banned,
        error matches AurVoteError::Timeout(s) ==> error@ == AurVoteErrorView::Timeout(s@),
        error matches AurVoteError::NetworkError(s) ==> error@ == AurVoteErrorView::NetworkError(
            s@,
        ),
        error matches AurVoteError::SshNotFound(s) ==> error@ == AurVoteErrorView::SshNotFound(s@),
        error matches AurVoteError::Unexpected(s) ==> error@ == AurVoteErrorView::Unexpected(s@),
{
}

/// The subcommand and the name of an action tell the two actions apart.
pub proof fn law_action_words(action: VoteAction)
    ensures
        action is Vote <==> ssh_arg(action) == "vote"@,
        action is Unvote <==> ssh_arg(action) == "unvote"@,
        action is Vote <==> action_name(action) == "Vote"@,
        action is Unvote <==> action_name(action) == "Unvote"@,
{
    reveal_strlit("vote");
    reveal_strlit("unvote");
    reveal_strlit("Vote");
    reveal_strlit("Unvote");
    assert("vote"@.len() != "unvote"@.len());
    assert("Vote"@.len() != "Unvote"@.len());
}

/// The message of an outcome is one sentence for each action, live or
/// simulated, with the package base in quotes, whatever its name.
pub proof fn law_outcome_sentences(pkgbase: Seq<char>)
    ensures
        outcome_message(
            AurVoteOutcomeView { action: VoteAction::Vote, pkgbase, dry_run: false },
        ) == "Voted for '"@ + pkgbase + "'"@,
        outcome_message(
            AurVoteOutcomeView { action: VoteAction::Unvote, pkgbase, dry_run: false },
        ) == "Removed vote for '"@ + pkgbase + "'"@,
        outcome_message(
            AurVoteOutcomeView { action: VoteAction::Vote, pkgbase, dry_run: true },
        ) == "[dry-run] Would vote for '"@ + pkgbase + "'"@,
        outcome_message(
            AurVoteOutcomeView { action: VoteAction::Unvote, pkgbase, dry_run: true },
        ) == "[dry-run] Would remove vote for '"@ + pkgbase + "'"@,
{
}

/// The message of an error is one sentence for each kind, with its text in it,
/// whatever the text.
pub proof fn law_error_sentences(s: Seq<char>)
    ensures
        error_message(AurVoteErrorView::AlreadyVoted(s)) == "You have already voted for '"@ + s
            + "'"@,
        error_message(AurVoteErrorView::NotVoted(s)) == "You haven't voted for '"@ + s + "'"@,
        error_message(AurVoteErrorView::NotFound(s)) == "Package base '"@ + s
            + "' not found on AUR"@,
        error_message(AurVoteErrorView::AuthFailed(s))
            == "SSH auth failed. Ensure your SSH key is uploaded to your AUR account at https://aur.archlinux.org/account ("@
            + s + ")"@,
        error_message(AurVoteErrorView::Maintenance)
            == "AUR is under maintenance. Try again later"@,
        error_message(AurVoteErrorView::Banned)
            == "SSH interface disabled for your IP. Contact AUR support"@,
        error_message(AurVoteErrorView::Timeout(s))
            == "Connection to aur.archlinux.org timed out. Check network ("@ + s + ")"@,
        error_message(AurVoteErrorView::NetworkError(s))
            == "Could not connect to aur.archlinux.org. Check connectivity ("@ + s + ")"@,
        error_message(AurVoteErrorView::SshNotFound(s)) == "SSH binary '"@ + s
            + "' not found. Install openssh or configure aur_vote_ssh_command in settings"@,
        error_message(AurVoteErrorView::Unexpected(s)) == "AUR vote failed unexpectedly: "@ + s,
{
}

} // verus!
