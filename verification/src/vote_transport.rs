//! The SSH commands of a vote and of a look-up, and what their replies mean.

use vstd::prelude::*;

use crate::aur_vote::AurPackageVoteState;
use crate::aur_vote::AurVoteContext;
use crate::aur_vote::AurVoteError;
use crate::aur_vote::AurVoteErrorView;
use crate::aur_vote::AurVoteOutcome;
use crate::aur_vote::AurVoteOutcomeView;
use crate::aur_vote::VoteAction;
use crate::number;
use crate::process;
use crate::process::CommandLine;
use crate::process::CommandLineView;
use crate::process::CommandOutput;
use crate::process::SpawnFailure;
use crate::process::SpawnFailureKind;
use crate::split;
use crate::vote_reply;

verus! {

/// Host that answers the voting commands.
pub const AUR_SSH_HOST: &'static str = "aur@aur.archlinux.org";

// ---------------------------------------------------------------------------
// Command lines
// ---------------------------------------------------------------------------

/// The arguments that every command begins with: a bound on the time to
/// connect, no interactive prompts, and the host.
pub open spec fn ssh_options(timeout_secs: u32) -> Seq<Seq<char>> {
    seq![
        "-o"@,
        "ConnectTimeout="@ + number::decimal(timeout_secs as nat),
        "-o"@,
        "BatchMode=yes"@,
        AUR_SSH_HOST@,
    ]
}

/// The command that performs `action` on `pkgbase`.
pub open spec fn vote_command_line(
    action: VoteAction,
    pkgbase: Seq<char>,
    ctx: AurVoteContext,
) -> CommandLineView {
    CommandLineView {
        program: ctx.ssh_command@,
        args: ssh_options(ctx.ssh_timeout_secs) + seq![crate::aur_vote::ssh_arg(action), pkgbase],
    }
}

/// The command that lists the votes of the account.
pub open spec fn list_votes_command_line(ctx: AurVoteContext) -> CommandLineView {
    CommandLineView {
        program: ctx.ssh_command@,
        args: ssh_options(ctx.ssh_timeout_secs) + seq!["list-votes"@],
    }
}

/// The arguments that every command begins with.
fn ssh_option_args(timeout_secs: u32) -> (res: Vec<String>)
    ensures
        split::views(res@) == ssh_options(timeout_secs),
{
    let mut args: Vec<String> = Vec::new();
    args.push("-o".to_owned());
    args.push(
        "ConnectTimeout=".to_owned().concat(number::u32_to_decimal(timeout_secs).as_str()),
    );
    args.push("-o".to_owned());
    args.push("BatchMode=yes".to_owned());
    args.push(AUR_SSH_HOST.to_owned());
    assert(split::views(args@) =~= ssh_options(timeout_secs));
    args
}

/// The command that performs `action` on `pkgbase`.
pub fn vote_command(action: VoteAction, pkgbase: &str, ctx: &AurVoteContext) -> (res: CommandLine)
    ensures
        res@ == vote_command_line(action, pkgbase@, *ctx),
{
    let mut args = ssh_option_args(ctx.ssh_timeout_secs);
    args.push(action.as_ssh_arg().to_owned());
    args.push(pkgbase.to_owned());
    let line = CommandLine { program: ctx.ssh_command.clone(), args };
    assert(line@ =~= vote_command_line(action, pkgbase@, *ctx));
    line
}

/// The command that lists the votes of the account.
fn list_votes_command(ctx: &AurVoteContext) -> (res: CommandLine)
    ensures
        res@ == list_votes_command_line(*ctx),
{
    let mut args = ssh_option_args(ctx.ssh_timeout_secs);
    args.push("list-votes".to_owned());
    let line = CommandLine { program: ctx.ssh_command.clone(), args };
    assert(line@ =~= list_votes_command_line(*ctx));
    line
}

/// The command to run for a look-up. There is none in a dry run, in which no
/// SSH process is started.
pub fn look_up_command(ctx: &AurVoteContext) -> (res: Option<CommandLine>)
    ensures
        ctx.dry_run ==> res is None,
        !ctx.dry_run ==> (res matches Some(line) && line@ == list_votes_command_line(*ctx)),
{
    if ctx.dry_run {
        return None;
    }
    Some(list_votes_command(ctx))
}

// ---------------------------------------------------------------------------
// Replies
// ---------------------------------------------------------------------------

/// The error for an SSH program that could not be started.
pub open spec fn spawn_error(failure: SpawnFailure, ssh_command: Seq<char>) -> AurVoteErrorView {
    match failure.kind {
        SpawnFailureKind::NotFound => AurVoteErrorView::SshNotFound(ssh_command),
        SpawnFailureKind::Other => AurVoteErrorView::NetworkError(failure.message@),
    }
}

/// The error for an SSH program that could not be started.
pub fn spawn_failure_error(failure: SpawnFailure, ctx: &AurVoteContext) -> (res: AurVoteError)
    ensures
        res@ == spawn_error(failure, ctx.ssh_command@),
{
    match failure.kind {
        SpawnFailureKind::NotFound => AurVoteError::SshNotFound(ctx.ssh_command.clone()),
        SpawnFailureKind::Other => AurVoteError::NetworkError(failure.message),
    }
}

/// What the reply to a vote means.
pub open spec fn vote_answer(
    reply: Result<CommandOutput, SpawnFailure>,
    action: VoteAction,
    pkgbase: Seq<char>,
    ctx: AurVoteContext,
) -> Result<AurVoteOutcomeView, AurVoteErrorView> {
    match reply {
        Ok(output) => vote_reply::vote_result(
            output.exit_code,
            process::decoded(output.stderr@),
            action,
            pkgbase,
        ),
        Err(failure) => Err(spawn_error(failure, ctx.ssh_command@)),
    }
}

/// What the reply to a vote means.
pub fn finish_vote(
    reply: Result<CommandOutput, SpawnFailure>,
    action: VoteAction,
    pkgbase: &str,
    ctx: &AurVoteContext,
) -> (res: Result<AurVoteOutcome, AurVoteError>)
    ensures
        vote_reply::vote_view(res) == vote_answer(reply, action, pkgbase@, *ctx),
{
    match reply {
        Ok(output) => vote_reply::parse_ssh_result(&output, action, pkgbase),
        Err(failure) => Err(spawn_failure_error(failure, ctx)),
    }
}

/// What the reply to a look-up means.
pub open spec fn state_answer(
    reply: Result<CommandOutput, SpawnFailure>,
    pkgbase: Seq<char>,
    ctx: AurVoteContext,
) -> Result<AurPackageVoteState, AurVoteErrorView> {
    match reply {
        Ok(output) => vote_reply::list_votes_result(
            output.exit_code,
            process::decoded(output.stdout@),
            process::decoded(output.stderr@),
            pkgbase,
        ),
        Err(failure) => Err(spawn_error(failure, ctx.ssh_command@)),
    }
}

/// What the reply to a look-up means.
pub fn finish_vote_state(
    reply: Result<CommandOutput, SpawnFailure>,
    pkgbase: &str,
    ctx: &AurVoteContext,
) -> (res: Result<AurPackageVoteState, AurVoteError>)
    ensures
        vote_reply::state_view(res) == state_answer(reply, pkgbase@, *ctx),
{
    match reply {
        Ok(output) => vote_reply::parse_list_votes_result(&output, pkgbase),
        Err(failure) => Err(spawn_failure_error(failure, ctx)),
    }
}

// ---------------------------------------------------------------------------
// Voting
// ---------------------------------------------------------------------------

/// Something that runs the SSH command of a vote.
///
/// Nothing is promised of the reply.
pub trait SshVoteTransport {
    /// Whether the transport may be asked for this vote. A transport that does
    /// not say otherwise may be asked for any.
    open spec fn may_run(&self, action: VoteAction, pkgbase: Seq<char>, ctx: AurVoteContext) -> bool {
        true
    }

    /// Runs the command that performs `action` on `pkgbase`. The reply is what
    /// the process left behind, whatever its exit code, or why it could not be
    /// started.
    fn execute(&self, action: VoteAction, pkgbase: &str, ctx: &AurVoteContext) -> (reply: Result<
        CommandOutput,
        SpawnFailure,
    >)
        requires
            !ctx.dry_run,
            self.may_run(action, pkgbase@, *ctx),
    ;
}

/// The outcome of a simulated vote.
pub open spec fn simulated_outcome(action: VoteAction, pkgbase: Seq<char>) -> AurVoteOutcomeView {
    AurVoteOutcomeView { action, pkgbase, dry_run: true }
}

/// Performs `action` on `pkgbase` over `transport`.
///
/// A dry run succeeds without the transport, which need not allow anything for
/// it. Else the transport has to allow this vote, is asked for nothing else,
/// and the answer is that of [`finish_vote`] to its reply.
pub fn aur_vote<T: SshVoteTransport>(
    transport: &T,
    pkgbase: &str,
    action: VoteAction,
    ctx: &AurVoteContext,
) -> (res: Result<AurVoteOutcome, AurVoteError>)
    requires
        !ctx.dry_run ==> transport.may_run(action, pkgbase@, *ctx),
    ensures
        ctx.dry_run ==> vote_reply::vote_view(res) == Ok::<AurVoteOutcomeView, AurVoteErrorView>(
            simulated_outcome(action, pkgbase@),
        ),
        !ctx.dry_run ==> exists|reply: Result<CommandOutput, SpawnFailure>| #[trigger]
            call_ensures(T::execute, (transport, action, pkgbase, ctx), reply)
                && vote_reply::vote_view(res) == vote_answer(reply, action, pkgbase@, *ctx),
{
    if ctx.dry_run {
        return Ok(AurVoteOutcome { action, pkgbase: pkgbase.to_owned(), dry_run: true });
    }
    let reply = transport.execute(action, pkgbase, ctx);
    finish_vote(reply, action, pkgbase, ctx)
}

} // verus!
