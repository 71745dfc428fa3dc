use pacsea::aur_vote::{
    AurPackageVoteState, AurVoteContext, AurVoteError, AurVoteOutcome, VoteAction,
};
use pacsea::process::{decode, CommandOutput, SpawnFailure, SpawnFailureKind};
use pacsea::sanitize::sanitize_stderr;
use pacsea::vote_reply::{
    is_vote_state_unsupported_error, parse_list_votes_result, parse_list_votes_text,
    parse_ssh_result, parse_vote_text,
};
use pacsea::vote_transport::{
    aur_vote, finish_vote, finish_vote_state, look_up_command, vote_command, SshVoteTransport,
};

/// Mock transport that returns a configurable exit code and stderr.
struct MockSshTransport {
    exit_code: i32,
    stderr: String,
}

impl MockSshTransport {
    fn new(exit_code: i32, stderr: &str) -> Self {
        Self {
            exit_code,
            stderr: stderr.to_string(),
        }
    }
}

impl SshVoteTransport for MockSshTransport {
    fn execute(
        &self,
        _action: VoteAction,
        _pkgbase: &str,
        _ctx: &AurVoteContext,
    ) -> Result<CommandOutput, SpawnFailure> {
        Ok(CommandOutput {
            exit_code: Some(self.exit_code),
            stdout: Vec::new(),
            stderr: self.stderr.as_bytes().to_vec(),
        })
    }
}

/// Mock transport that fails to start the process.
struct FailingTransport {
    kind: SpawnFailureKind,
}

impl SshVoteTransport for FailingTransport {
    fn execute(
        &self,
        _action: VoteAction,
        _pkgbase: &str,
        _ctx: &AurVoteContext,
    ) -> Result<CommandOutput, SpawnFailure> {
        Err(SpawnFailure {
            kind: self.kind,
            message: "mock io error".to_string(),
        })
    }
}

/// Transport that must not be used.
struct ForbiddenTransport;

impl SshVoteTransport for ForbiddenTransport {
    fn execute(
        &self,
        _action: VoteAction,
        _pkgbase: &str,
        _ctx: &AurVoteContext,
    ) -> Result<CommandOutput, SpawnFailure> {
        panic!("the transport was used")
    }
}

/// Transport that hands back what it was asked for.
struct EchoTransport;

impl SshVoteTransport for EchoTransport {
    fn execute(
        &self,
        action: VoteAction,
        pkgbase: &str,
        ctx: &AurVoteContext,
    ) -> Result<CommandOutput, SpawnFailure> {
        let line = vote_command(action, pkgbase, ctx);
        Err(SpawnFailure {
            kind: SpawnFailureKind::Other,
            message: format!("{} {}", line.program, line.args.join(" ")),
        })
    }
}

fn default_ctx() -> AurVoteContext {
    AurVoteContext::default()
}

fn dry_run_ctx() -> AurVoteContext {
    AurVoteContext {
        dry_run: true,
        ..AurVoteContext::default()
    }
}

fn output(exit_code: Option<i32>, stdout: &[u8], stderr: &[u8]) -> CommandOutput {
    CommandOutput {
        exit_code,
        stdout: stdout.to_vec(),
        stderr: stderr.to_vec(),
    }
}

#[test]
fn test_dry_run_vote() {
    let transport = MockSshTransport::new(0, "");
    let result = aur_vote(&transport, "pacsea-bin", VoteAction::Vote, &dry_run_ctx());
    let outcome = result.expect("dry-run vote should succeed");
    assert!(outcome.dry_run);
    assert_eq!(outcome.action, VoteAction::Vote);
    assert!(outcome.message().contains("[dry-run]"));
    assert!(outcome.message().contains("pacsea-bin"));
}

#[test]
fn test_dry_run_unvote() {
    let transport = MockSshTransport::new(0, "");
    let result = aur_vote(&transport, "pacsea-bin", VoteAction::Unvote, &dry_run_ctx());
    let outcome = result.expect("dry-run unvote should succeed");
    assert!(outcome.dry_run);
    assert_eq!(outcome.action, VoteAction::Unvote);
    assert!(outcome.message().contains("[dry-run]"));
    assert!(outcome.message().contains("remove vote"));
}

#[test]
fn test_success_vote() {
    let transport = MockSshTransport::new(0, "");
    let result = aur_vote(&transport, "yay-bin", VoteAction::Vote, &default_ctx());
    let outcome = result.expect("success vote should return outcome");
    assert!(!outcome.dry_run);
    assert_eq!(outcome.action, VoteAction::Vote);
    assert_eq!(outcome.pkgbase, "yay-bin");
    assert!(outcome.message().contains("Voted for"));
}

#[test]
fn test_success_unvote() {
    let transport = MockSshTransport::new(0, "");
    let result = aur_vote(&transport, "yay-bin", VoteAction::Unvote, &default_ctx());
    let outcome = result.expect("success unvote should return outcome");
    assert_eq!(outcome.action, VoteAction::Unvote);
    assert!(outcome.message().contains("Removed vote"));
}

#[test]
fn test_already_voted() {
    let transport = MockSshTransport::new(1, "vote: already voted for package base: yay-bin\n");
    let result = aur_vote(&transport, "yay-bin", VoteAction::Vote, &default_ctx());
    match result {
        Err(AurVoteError::AlreadyVoted(pkg)) => assert_eq!(pkg, "yay-bin"),
        other => panic!("expected AlreadyVoted, got {other:?}"),
    }
}

#[test]
fn test_not_voted() {
    let transport = MockSshTransport::new(1, "unvote: missing vote for package base: yay-bin\n");
    let result = aur_vote(&transport, "yay-bin", VoteAction::Unvote, &default_ctx());
    match result {
        Err(AurVoteError::NotVoted(pkg)) => assert_eq!(pkg, "yay-bin"),
        other => panic!("expected NotVoted, got {other:?}"),
    }
}

#[test]
fn test_package_not_found() {
    let transport = MockSshTransport::new(1, "vote: package base not found: nonexistent-pkg\n");
    let result = aur_vote(
        &transport,
        "nonexistent-pkg",
        VoteAction::Vote,
        &default_ctx(),
    );
    match result {
        Err(AurVoteError::NotFound(pkg)) => assert_eq!(pkg, "nonexistent-pkg"),
        other => panic!("expected NotFound, got {other:?}"),
    }
}

#[test]
fn test_auth_failure() {
    let transport = MockSshTransport::new(
        255,
        "Permission denied (publickey).\r\nfatal: Could not read from remote repository.",
    );
    let result = aur_vote(&transport, "foo", VoteAction::Vote, &default_ctx());
    match result {
        Err(AurVoteError::AuthFailed(detail)) => {
            assert!(detail.contains("Permission denied"));
        }
        other => panic!("expected AuthFailed, got {other:?}"),
    }
}

#[test]
fn test_maintenance() {
    let transport = MockSshTransport::new(
        1,
        "The AUR is down due to maintenance. We will be back soon.\n",
    );
    let result = aur_vote(&transport, "foo", VoteAction::Vote, &default_ctx());
    match result {
        Err(AurVoteError::Maintenance) => {}
        other => panic!("expected Maintenance, got {other:?}"),
    }
}

#[test]
fn test_banned() {
    let transport =
        MockSshTransport::new(1, "The SSH interface is disabled for your IP address.\n");
    let result = aur_vote(&transport, "foo", VoteAction::Vote, &default_ctx());
    match result {
        Err(AurVoteError::Banned) => {}
        other => panic!("expected Banned, got {other:?}"),
    }
}

#[test]
fn test_ssh_not_found() {
    let transport = FailingTransport {
        kind: SpawnFailureKind::NotFound,
    };
    let result = aur_vote(&transport, "foo", VoteAction::Vote, &default_ctx());
    match result {
        Err(AurVoteError::SshNotFound(cmd)) => assert_eq!(cmd, "ssh"),
        other => panic!("expected SshNotFound, got {other:?}"),
    }
}

#[test]
fn test_timeout() {
    let transport = MockSshTransport::new(
        255,
        "ssh: connect to host aur.archlinux.org port 22: Connection timed out\n",
    );
    let result = aur_vote(&transport, "foo", VoteAction::Vote, &default_ctx());
    match result {
        Err(AurVoteError::Timeout(_)) => {}
        other => panic!("expected Timeout, got {other:?}"),
    }
}

#[test]
fn test_network_error() {
    let transport = MockSshTransport::new(
        255,
        "ssh: Could not resolve hostname aur.archlinux.org: Name or service not known\n",
    );
    let result = aur_vote(&transport, "foo", VoteAction::Vote, &default_ctx());
    match result {
        Err(AurVoteError::NetworkError(_)) => {}
        other => panic!("expected NetworkError, got {other:?}"),
    }
}

#[test]
fn test_unexpected_error() {
    let transport = MockSshTransport::new(99, "something completely unexpected happened\n");
    let result = aur_vote(&transport, "foo", VoteAction::Vote, &default_ctx());
    match result {
        Err(AurVoteError::Unexpected(msg)) => {
            assert!(msg.contains("something completely unexpected"));
        }
        other => panic!("expected Unexpected, got {other:?}"),
    }
}

#[test]
fn test_sanitize_stderr_redacts_ssh_paths() {
    let raw = "debug1: Offering public key: /home/user/.ssh/id_ed25519\n\
               Permission denied (publickey).";
    let sanitized = sanitize_stderr(raw);
    assert!(!sanitized.contains("/.ssh/"));
    assert!(sanitized.contains("Permission denied"));
}

#[test]
fn test_sanitize_stderr_truncates_long_output() {
    let raw = "x".repeat(500);
    let sanitized = sanitize_stderr(&raw);
    assert!(sanitized.len() <= 203); // 200 + "..."
    assert!(sanitized.ends_with("..."));
}

#[test]
fn test_vote_action_display() {
    assert_eq!(VoteAction::Vote.to_string(), "Vote");
    assert_eq!(VoteAction::Unvote.to_string(), "Unvote");
}

#[test]
fn test_vote_action_ssh_arg() {
    assert_eq!(VoteAction::Vote.as_ssh_arg(), "vote");
    assert_eq!(VoteAction::Unvote.as_ssh_arg(), "unvote");
}

#[test]
fn test_error_display_messages() {
    let err = AurVoteError::AlreadyVoted("foo".into());
    let msg = err.to_string();
    assert!(msg.contains("already voted"));
    assert!(msg.contains("foo"));

    let err = AurVoteError::SshNotFound("ssh".into());
    let msg = err.to_string();
    assert!(msg.contains("not found"));
    assert!(msg.contains("openssh"));
}

#[test]
fn test_context_default() {
    let ctx = AurVoteContext::default();
    assert!(!ctx.dry_run);
    assert_eq!(ctx.ssh_timeout_secs, 10);
    assert_eq!(ctx.ssh_command, "ssh");
}

#[test]
fn test_parse_list_votes_result_voted() {
    let output = output(Some(0), b"pacsea-bin\nyay-bin\n", b"");
    let state =
        parse_list_votes_result(&output, "pacsea-bin").expect("list-votes parsing should succeed");
    assert_eq!(state, AurPackageVoteState::Voted);
}

#[test]
fn test_parse_list_votes_result_not_voted() {
    let output = output(Some(0), b"yay-bin\nparu-bin\n", b"");
    let state =
        parse_list_votes_result(&output, "pacsea-bin").expect("list-votes parsing should succeed");
    assert_eq!(state, AurPackageVoteState::NotVoted);
}

#[test]
fn test_parse_list_votes_result_auth_failed() {
    let output = output(Some(255), b"", b"Permission denied (publickey).");
    let result = parse_list_votes_result(&output, "pacsea-bin");
    match result {
        Err(AurVoteError::AuthFailed(detail)) => {
            assert!(detail.contains("Permission denied"));
        }
        other => panic!("expected AuthFailed, got {other:?}"),
    }
}

#[test]
fn test_parse_list_votes_result_unsupported_command() {
    let output = output(Some(1), b"", b"list-votes: invalid command: list-votes");
    let result = parse_list_votes_result(&output, "pacsea-bin");
    match result {
        Err(AurVoteError::Unexpected(detail)) => {
            assert!(detail.contains("does not support vote-state lookup"));
        }
        other => panic!("expected Unexpected unsupported-command error, got {other:?}"),
    }
}

#[test]
fn test_aur_vote_state_missing_ssh_binary_error() {
    let ctx = AurVoteContext {
        dry_run: false,
        ssh_timeout_secs: 10,
        ssh_command: "__pacsea_missing_ssh__".to_string(),
    };
    let missing = SpawnFailure {
        kind: SpawnFailureKind::NotFound,
        message: "No such file or directory (os error 2)".to_string(),
    };
    let result = finish_vote_state(Err(missing), "pacsea-bin", &ctx);
    match result {
        Err(AurVoteError::SshNotFound(cmd)) => {
            assert_eq!(cmd, "__pacsea_missing_ssh__");
        }
        other => panic!("expected SshNotFound, got {other:?}"),
    }
}

#[test]
fn dry_run_does_not_use_the_transport() {
    let outcome = aur_vote(&ForbiddenTransport, "foo", VoteAction::Vote, &dry_run_ctx())
        .expect("dry-run vote should succeed");
    assert_eq!(
        outcome,
        AurVoteOutcome {
            action: VoteAction::Vote,
            pkgbase: "foo".to_string(),
            dry_run: true,
        }
    );
}

#[test]
fn vote_hands_the_request_to_the_transport() {
    let ctx = AurVoteContext {
        dry_run: false,
        ssh_timeout_secs: 25,
        ssh_command: "/usr/bin/ssh".to_string(),
    };
    assert_eq!(
        aur_vote(&EchoTransport, "foo", VoteAction::Unvote, &ctx),
        Err(AurVoteError::NetworkError(
            "/usr/bin/ssh -o ConnectTimeout=25 -o BatchMode=yes aur@aur.archlinux.org unvote foo"
                .to_string()
        ))
    );
}

#[test]
fn command_lines_are_exact() {
    let ctx = default_ctx();
    let line = vote_command(VoteAction::Vote, "yay-bin", &ctx);
    assert_eq!(line.program, "ssh");
    assert_eq!(
        line.args,
        vec![
            "-o",
            "ConnectTimeout=10",
            "-o",
            "BatchMode=yes",
            "aur@aur.archlinux.org",
            "vote",
            "yay-bin"
        ]
    );
    let line = look_up_command(&ctx).expect("a look-up has a command");
    assert_eq!(line.program, "ssh");
    assert_eq!(
        line.args,
        vec![
            "-o",
            "ConnectTimeout=10",
            "-o",
            "BatchMode=yes",
            "aur@aur.archlinux.org",
            "list-votes"
        ]
    );
}

#[test]
fn outcome_messages_are_exact() {
    let message = |action: VoteAction, dry_run: bool| {
        AurVoteOutcome {
            action,
            pkgbase: "foo".to_string(),
            dry_run,
        }
        .message()
    };
    assert_eq!(message(VoteAction::Vote, false), "Voted for 'foo'");
    assert_eq!(message(VoteAction::Unvote, false), "Removed vote for 'foo'");
    assert_eq!(
        message(VoteAction::Vote, true),
        "[dry-run] Would vote for 'foo'"
    );
    assert_eq!(
        message(VoteAction::Unvote, true),
        "[dry-run] Would remove vote for 'foo'"
    );
}

#[test]
fn error_messages_are_exact() {
    let x = || "x".to_string();
    for (error, message) in [
        (
            AurVoteError::AlreadyVoted(x()),
            "You have already voted for 'x'",
        ),
        (AurVoteError::NotVoted(x()), "You haven't voted for 'x'"),
        (
            AurVoteError::NotFound(x()),
            "Package base 'x' not found on AUR",
        ),
        (
            AurVoteError::AuthFailed(x()),
            "SSH auth failed. Ensure your SSH key is uploaded to your AUR account \
             at https://aur.archlinux.org/account (x)",
        ),
        (
            AurVoteError::Maintenance,
            "AUR is under maintenance. Try again later",
        ),
        (
            AurVoteError::Banned,
            "SSH interface disabled for your IP. Contact AUR support",
        ),
        (
            AurVoteError::Timeout(x()),
            "Connection to aur.archlinux.org timed out. Check network (x)",
        ),
        (
            AurVoteError::NetworkError(x()),
            "Could not connect to aur.archlinux.org. Check connectivity (x)",
        ),
        (
            AurVoteError::SshNotFound(x()),
            "SSH binary 'x' not found. Install openssh or configure \
             aur_vote_ssh_command in settings",
        ),
        (
            AurVoteError::Unexpected(x()),
            "AUR vote failed unexpectedly: x",
        ),
    ] {
        assert_eq!(error.to_string(), message);
    }
}

#[test]
fn refusals_count_only_with_exit_code_one() {
    let text = "already voted for package base: foo";
    let result = |code: Option<i32>| parse_vote_text(code, text, VoteAction::Vote, "foo");
    assert_eq!(
        result(Some(1)),
        Err(AurVoteError::AlreadyVoted("foo".to_string()))
    );
    assert_eq!(
        result(Some(2)),
        Err(AurVoteError::Unexpected(text.to_string()))
    );
    assert_eq!(
        result(None),
        Err(AurVoteError::Unexpected(text.to_string()))
    );
    assert_eq!(
        result(Some(255)),
        Err(AurVoteError::AuthFailed(text.to_string()))
    );
    assert!(result(Some(0)).is_ok());
}

#[test]
fn the_first_refusal_counts() {
    let all = "SSH interface is disabled AUR is down due to maintenance package base not found \
               missing vote for package base already voted for package base";
    let result = |text: &str| parse_vote_text(Some(1), text, VoteAction::Vote, "p");
    assert_eq!(
        result(all),
        Err(AurVoteError::AlreadyVoted("p".to_string()))
    );
    let text = all.replace("already", "");
    assert_eq!(result(&text), Err(AurVoteError::NotVoted("p".to_string())));
    let text = text.replace("missing", "");
    assert_eq!(result(&text), Err(AurVoteError::NotFound("p".to_string())));
    let text = text.replace("not found", "");
    assert_eq!(result(&text), Err(AurVoteError::Maintenance));
    let text = text.replace("down", "");
    assert_eq!(result(&text), Err(AurVoteError::Banned));
}

#[test]
fn connection_failures_are_told_apart() {
    for text in ["Connection timed out", "Connection refused"] {
        for code in [Some(1), Some(255), None] {
            assert_eq!(
                parse_vote_text(code, text, VoteAction::Vote, "p"),
                Err(AurVoteError::Timeout(text.to_string()))
            );
            assert_eq!(
                parse_list_votes_text(code, "", text, "p"),
                Err(AurVoteError::Timeout(text.to_string()))
            );
        }
    }
    for text in [
        "Could not resolve hostname",
        "Network is unreachable",
        "No route to host",
    ] {
        for code in [Some(1), Some(255), None] {
            assert_eq!(
                parse_vote_text(code, text, VoteAction::Vote, "p"),
                Err(AurVoteError::NetworkError(text.to_string()))
            );
            assert_eq!(
                parse_list_votes_text(code, "", text, "p"),
                Err(AurVoteError::NetworkError(text.to_string()))
            );
        }
    }
}

#[test]
fn look_ups_report_the_server_s_reason_whatever_the_code() {
    for code in [Some(1), Some(255), None] {
        assert_eq!(
            parse_list_votes_text(code, "", "The AUR is down due to maintenance", "p"),
            Err(AurVoteError::Maintenance)
        );
        assert_eq!(
            parse_list_votes_text(code, "", "SSH interface is disabled", "p"),
            Err(AurVoteError::Banned)
        );
        let error = parse_list_votes_text(code, "", "invalid command: list-votes", "p")
            .expect_err("the command is not known");
        assert_eq!(
            error,
            AurVoteError::Unexpected(
                "AUR SSH server does not support vote-state lookup.".to_string()
            )
        );
        assert!(is_vote_state_unsupported_error(&error));
    }
    assert_eq!(
        parse_list_votes_text(Some(3), "p", " strange \n", "p"),
        Err(AurVoteError::Unexpected("strange".to_string()))
    );
    assert!(!is_vote_state_unsupported_error(&AurVoteError::Unexpected(
        "strange".to_string()
    )));
    // The same words in the output of the server count as well.
    assert!(is_vote_state_unsupported_error(&AurVoteError::Unexpected(
        "this host does not support vote-state lookup".to_string()
    )));
    assert!(!is_vote_state_unsupported_error(&AurVoteError::AuthFailed(
        "does not support vote-state lookup".to_string()
    )));
}

#[test]
fn names_in_the_list_are_compared_whole() {
    let state = |stdout: &str, pkgbase: &str| {
        parse_list_votes_text(Some(0), stdout, "", pkgbase).expect("exit code 0 is success")
    };
    assert_eq!(state(" a\tbb\r\nccc", "bb"), AurPackageVoteState::Voted);
    assert_eq!(state(" a\tbb\r\nccc", "ccc"), AurPackageVoteState::Voted);
    assert_eq!(state(" a\tbb\r\nccc", "b"), AurPackageVoteState::NotVoted);
    assert_eq!(state(" a\tbb\r\nccc", "a bb"), AurPackageVoteState::NotVoted);
    assert_eq!(state(" a\tbb\r\nccc", ""), AurPackageVoteState::NotVoted);
    assert_eq!(state("", "a"), AurPackageVoteState::NotVoted);
}

#[test]
fn invalid_bytes_are_replaced() {
    assert_eq!(decode(&b"a\xffb".to_vec()), "a\u{fffd}b");
    let reply = output(Some(255), b"", b" key \xff refused\n");
    assert_eq!(
        parse_ssh_result(&reply, VoteAction::Vote, "p"),
        Err(AurVoteError::AuthFailed("key \u{fffd} refused".to_string()))
    );
    let reply = output(Some(0), b"a \xff b", b"");
    assert_eq!(
        parse_list_votes_result(&reply, "\u{fffd}"),
        Ok(AurPackageVoteState::Voted)
    );
}

#[test]
fn sanitized_lines_are_joined() {
    assert_eq!(sanitize_stderr(""), "");
    assert_eq!(sanitize_stderr("one short line"), "one short line");
    assert_eq!(sanitize_stderr("a\r\n\nb\n"), "a; ; b");
    assert_eq!(
        sanitize_stderr("no such identity file: x\nb\nkey /root/.ssh/id"),
        "b"
    );
    let exact = "y".repeat(200);
    assert_eq!(sanitize_stderr(&exact), exact);
    assert_eq!(sanitize_stderr(&format!("{exact}y")), format!("{exact}..."));
}

#[test]
fn long_text_is_cut_after_a_whole_character() {
    let cases: [(usize, &str, &str); 7] = [
        (198, "\u{e9}b", "\u{e9}"),
        (199, "\u{e9}", ""),
        (199, "\u{e9}b", ""),
        (197, "\u{20ac}b", "\u{20ac}"),
        (198, "\u{20ac}", ""),
        (196, "\u{1f600}b", "\u{1f600}"),
        (197, "\u{1f600}b", ""),
    ];
    for (n, rest, kept) in cases {
        let raw = format!("{}{rest}", "x".repeat(n));
        let sanitized = sanitize_stderr(&raw);
        assert_eq!(sanitized, format!("{}{kept}...", "x".repeat(n)));
        assert!(sanitized.len() <= 203);
    }
    let exact = format!("{}\u{e9}", "x".repeat(198));
    assert_eq!(sanitize_stderr(&exact), exact);
}

#[test]
fn long_replies_are_answered() {
    let stderr = format!("{}\u{e9}", "x".repeat(199));
    let detail = format!("{}...", "x".repeat(199));
    let ctx = default_ctx();
    let reply = || Ok(output(Some(255), b"", stderr.as_bytes()));
    assert_eq!(
        finish_vote(reply(), VoteAction::Vote, "p", &ctx),
        Err(AurVoteError::AuthFailed(detail.clone()))
    );
    assert_eq!(
        finish_vote_state(reply(), "p", &ctx),
        Err(AurVoteError::AuthFailed(detail))
    );
}

#[test]
fn look_ups_have_no_command_in_a_dry_run() {
    assert!(look_up_command(&dry_run_ctx()).is_none());
    assert!(look_up_command(&default_ctx()).is_some());
}

#[test]
fn the_action_does_not_change_the_error() {
    for (code, stderr) in [
        (Some(1), "already voted for package base"),
        (Some(1), "missing vote for package base"),
        (Some(255), "Permission denied"),
        (None, "killed"),
        (Some(0), ""),
    ] {
        let mut noisy = output(code, b"", stderr.as_bytes());
        let quiet = noisy.clone();
        noisy.stdout = b"some output".to_vec();
        assert_eq!(
            parse_ssh_result(&quiet, VoteAction::Vote, "p").err(),
            parse_ssh_result(&noisy, VoteAction::Unvote, "p").err()
        );
    }
}

#[test]
fn votes_and_look_ups_fail_alike() {
    for (code, stderr) in [
        (Some(1), "The AUR is down due to maintenance"),
        (Some(1), "The SSH interface is disabled for your IP address"),
        (
            Some(1),
            "invalid command: list-votes, AUR is down due to maintenance",
        ),
        (Some(1), "Connection refused"),
        (Some(255), "Permission denied"),
        (Some(2), "already voted for package base"),
        (None, ""),
    ] {
        assert_eq!(
            parse_vote_text(code, stderr, VoteAction::Vote, "p").err(),
            parse_list_votes_text(code, "", stderr, "p").err()
        );
    }
}

#[test]
fn processes_that_do_not_start_are_reported() {
    let ctx = default_ctx();
    let failure = |kind: SpawnFailureKind| SpawnFailure {
        kind,
        message: "denied".to_string(),
    };
    assert_eq!(
        finish_vote_state(Err(failure(SpawnFailureKind::Other)), "p", &ctx),
        Err(AurVoteError::NetworkError("denied".to_string()))
    );
    assert_eq!(
        aur_vote(
            &FailingTransport {
                kind: SpawnFailureKind::Other
            },
            "p",
            VoteAction::Vote,
            &ctx
        ),
        Err(AurVoteError::NetworkError("mock io error".to_string()))
    );
}

#[test]
fn errors_hide_key_files_and_are_bounded() {
    let noise = "debug1: identity file /home/u/.ssh/id_rsa type 0\n".repeat(3);
    let stderr = format!("{noise}{}\nkey: /root/.ssh/id\nPermission denied", "z".repeat(190));
    let error = parse_vote_text(Some(255), &stderr, VoteAction::Vote, "p")
        .expect_err("exit code 255 is a failure");
    let detail = format!("{}; Permissi...", "z".repeat(190));
    assert_eq!(error, AurVoteError::AuthFailed(detail));
    let message = error.to_string();
    assert!(!message.contains("/.ssh/"));
    assert!(!message.contains("identity file"));
    let same = parse_list_votes_text(Some(255), "", &stderr, "p");
    assert_eq!(same, Err(error));
}
