//! What holds of votes and look-ups as a whole.

use vstd::prelude::*;

use crate::aur_vote;
use crate::aur_vote::AurPackageVoteState;
use crate::aur_vote::AurVoteContext;
use crate::aur_vote::AurVoteError;
use crate::aur_vote::AurVoteErrorView;
use crate::aur_vote::AurVoteOutcome;
use crate::aur_vote::AurVoteOutcomeView;
use crate::aur_vote::VoteAction;
use crate::number;
use crate::process;
use crate::process::CommandOutput;
use crate::process::SpawnFailure;
use crate::sanitize;
use crate::split;
use crate::text;
use crate::vote_reply;
use crate::vote_transport;

verus! {

/// Exit code 0 is the only sign of success, for votes and for look-ups.
pub proof fn law_only_exit_code_zero_succeeds(
    exit_code: Option<i32>,
    stdout: Seq<char>,
    stderr: Seq<char>,
    action: VoteAction,
    pkgbase: Seq<char>,
)
    ensures
        vote_reply::vote_result(exit_code, stderr, action, pkgbase) is Ok <==> exit_code == Some(
            0i32,
        ),
        vote_reply::list_votes_result(exit_code, stdout, stderr, pkgbase) is Ok <==> exit_code
            == Some(0i32),
{
}

/// A package base counts as voted for just if its name stands in the list that
/// the server printed, between white space or the ends of the list.
pub proof fn law_voted_means_listed(stdout: Seq<char>, stderr: Seq<char>, pkgbase: Seq<char>)
    ensures
        vote_reply::list_votes_result(Some(0i32), stdout, stderr, pkgbase) == Ok::<
            AurPackageVoteState,
            AurVoteErrorView,
        >(AurPackageVoteState::Voted) <==> exists|i: int|
            split::is_delimited_at(pkgbase, stdout, i),
{
    split::law_words_are_delimited(pkgbase, stdout);
}

/// White space around what SSH printed makes no difference to which refusal is
/// seen in it.
proof fn lemma_refusal_texts_survive_trimming(stderr: Seq<char>)
    ensures
        ({
            let t = text::trimmed(stderr);
            &&& text::occurs("already voted for package base"@, t) == text::occurs(
                "already voted for package base"@,
                stderr,
            )
            &&& text::occurs("missing vote for package base"@, t) == text::occurs(
                "missing vote for package base"@,
                stderr,
            )
            &&& text::occurs("package base not found"@, t) == text::occurs(
                "package base not found"@,
                stderr,
            )
            &&& text::occurs("AUR is down due to maintenance"@, t) == text::occurs(
                "AUR is down due to maintenance"@,
                stderr,
            )
            &&& text::occurs("SSH interface is disabled"@, t) == text::occurs(
                "SSH interface is disabled"@,
                stderr,
            )
            &&& text::occurs("invalid command: list-votes"@, t) == text::occurs(
                "invalid command: list-votes"@,
                stderr,
            )
        }),
{
    reveal_strlit("already voted for package base");
    reveal_strlit("missing vote for package base");
    reveal_strlit("package base not found");
    reveal_strlit("AUR is down due to maintenance");
    reveal_strlit("SSH interface is disabled");
    reveal_strlit("invalid command: list-votes");
    text::lemma_occurs_in_trimmed("already voted for package base"@, stderr);
    text::lemma_occurs_in_trimmed("missing vote for package base"@, stderr);
    text::lemma_occurs_in_trimmed("package base not found"@, stderr);
    text::lemma_occurs_in_trimmed("AUR is down due to maintenance"@, stderr);
    text::lemma_occurs_in_trimmed("SSH interface is disabled"@, stderr);
    text::lemma_occurs_in_trimmed("invalid command: list-votes"@, stderr);
}

/// White space around what SSH printed makes no difference to which failure of
/// the connection is seen in it.
proof fn lemma_connection_texts_survive_trimming(stderr: Seq<char>)
    ensures
        ({
            let t = text::trimmed(stderr);
            &&& text::occurs("Connection timed out"@, t) == text::occurs(
                "Connection timed out"@,
                stderr,
            )
            &&& text::occurs("Connection refused"@, t) == text::occurs(
                "Connection refused"@,
                stderr,
            )
            &&& text::occurs("Could not resolve hostname"@, t) == text::occurs(
                "Could not resolve hostname"@,
                stderr,
            )
            &&& text::occurs("Network is unreachable"@, t) == text::occurs(
                "Network is unreachable"@,
                stderr,
            )
            &&& text::occurs("No route to host"@, t) == text::occurs("No route to host"@, stderr)
        }),
{
    reveal_strlit("Connection timed out");
    reveal_strlit("Connection refused");
    reveal_strlit("Could not resolve hostname");
    reveal_strlit("Network is unreachable");
    reveal_strlit("No route to host");
    text::lemma_occurs_in_trimmed("Connection timed out"@, stderr);
    text::lemma_occurs_in_trimmed("Connection refused"@, stderr);
    text::lemma_occurs_in_trimmed("Could not resolve hostname"@, stderr);
    text::lemma_occurs_in_trimmed("Network is unreachable"@, stderr);
    text::lemma_occurs_in_trimmed("No route to host"@, stderr);
}

/// A vote that ends with exit code 1 is answered by what the server gave as its
/// reason, anywhere in the error output. Where the output holds several
/// reasons, the first of this list counts.
pub proof fn law_refused_vote_is_answered(
    stderr: Seq<char>,
    action: VoteAction,
    pkgbase: Seq<char>,
)
    ensures
        ({
            let already = text::occurs("already voted for package base"@, stderr);
            let missing = text::occurs("missing vote for package base"@, stderr);
            let unknown = text::occurs("package base not found"@, stderr);
            let down = text::occurs("AUR is down due to maintenance"@, stderr);
            let banned = text::occurs("SSH interface is disabled"@, stderr);
            let res = vote_reply::vote_result(Some(1i32), stderr, action, pkgbase);
            &&& already ==> res == Err::<AurVoteOutcomeView, AurVoteErrorView>(
                AurVoteErrorView::AlreadyVoted(pkgbase),
            )
            &&& missing && !already ==> res == Err::<AurVoteOutcomeView, AurVoteErrorView>(
                AurVoteErrorView::NotVoted(pkgbase),
            )
            &&& unknown && !missing && !already ==> res == Err::<
                AurVoteOutcomeView,
                AurVoteErrorView,
            >(AurVoteErrorView::NotFound(pkgbase))
            &&& down && !unknown && !missing && !already ==> res == Err::<
                AurVoteOutcomeView,
                AurVoteErrorView,
            >(AurVoteErrorView::Maintenance)
            &&& banned && !down && !unknown && !missing && !already ==> res == Err::<
                AurVoteOutcomeView,
                AurVoteErrorView,
            >(AurVoteErrorView::Banned)
        }),
{
    lemma_refusal_texts_survive_trimming(stderr);
}

/// A look-up that fails is answered by what the server gave as its reason,
/// anywhere in the error output and whatever the exit code. Where the output
/// holds several reasons, the first of this list counts.
pub proof fn law_refused_look_up_is_answered(
    exit_code: Option<i32>,
    stdout: Seq<char>,
    stderr: Seq<char>,
    pkgbase: Seq<char>,
)
    requires
        exit_code != Some(0i32),
    ensures
        ({
            let down = text::occurs("AUR is down due to maintenance"@, stderr);
            let unsupported = text::occurs("invalid command: list-votes"@, stderr);
            let banned = text::occurs("SSH interface is disabled"@, stderr);
            let res = vote_reply::list_votes_result(exit_code, stdout, stderr, pkgbase);
            &&& down ==> res == Err::<AurPackageVoteState, AurVoteErrorView>(
                AurVoteErrorView::Maintenance,
            )
            &&& unsupported && !down ==> res is Err && vote_reply::is_lookup_unsupported(
                res->Err_0,
            )
            &&& banned && !unsupported && !down ==> res == Err::<
                AurPackageVoteState,
                AurVoteErrorView,
            >(AurVoteErrorView::Banned)
        }),
{
    lemma_refusal_texts_survive_trimming(stderr);
    reveal_strlit("AUR SSH server does not support vote-state lookup.");
    reveal_strlit("does not support vote-state lookup");
    assert(text::occurs_at(
        "does not support vote-state lookup"@,
        vote_reply::LOOKUP_UNSUPPORTED_DETAIL@,
        15,
    ));
}

/// The error of a look-up counts as an unsupported look-up just if the server
/// rejected the command that lists votes, unless the output that is shown
/// happens to hold the very words of that error.
pub proof fn law_unsupported_means_rejected_command(
    exit_code: Option<i32>,
    stdout: Seq<char>,
    stderr: Seq<char>,
    pkgbase: Seq<char>,
)
    requires
        exit_code != Some(0i32),
        !text::occurs(
            "does not support vote-state lookup"@,
            sanitize::sanitized(text::trimmed(stderr)),
        ),
    ensures
        vote_reply::list_votes_result(exit_code, stdout, stderr, pkgbase) is Err,
        vote_reply::is_lookup_unsupported(
            vote_reply::list_votes_result(exit_code, stdout, stderr, pkgbase)->Err_0,
        ) <==> text::occurs("invalid command: list-votes"@, stderr) && !text::occurs(
            "AUR is down due to maintenance"@,
            stderr,
        ),
{
    lemma_refusal_texts_survive_trimming(stderr);
    law_refused_look_up_is_answered(exit_code, stdout, stderr, pkgbase);
}

/// A vote whose failure the server did not explain is told from what SSH
/// printed. A lost connection and an unreachable host are recognised whatever
/// the exit code; the code of SSH's own failures means a refused key only where
/// the output shows neither.
pub proof fn law_connection_failure_is_answered(
    exit_code: Option<i32>,
    stderr: Seq<char>,
    action: VoteAction,
    pkgbase: Seq<char>,
)
    requires
        exit_code != Some(0i32),
        exit_code != Some(1i32),
    ensures
        ({
            let lost = text::occurs("Connection timed out"@, stderr) || text::occurs(
                "Connection refused"@,
                stderr,
            );
            let unreachable = text::occurs("Could not resolve hostname"@, stderr) || text::occurs(
                "Network is unreachable"@,
                stderr,
            ) || text::occurs("No route to host"@, stderr);
            let res = vote_reply::vote_result(exit_code, stderr, action, pkgbase);
            let detail = sanitize::sanitized(text::trimmed(stderr));
            res == Err::<AurVoteOutcomeView, AurVoteErrorView>(
                if lost {
                    AurVoteErrorView::Timeout(detail)
                } else if unreachable {
                    AurVoteErrorView::NetworkError(detail)
                } else if exit_code == Some(255i32) {
                    AurVoteErrorView::AuthFailed(detail)
                } else {
                    AurVoteErrorView::Unexpected(detail)
                },
            )
        }),
{
    lemma_connection_texts_survive_trimming(stderr);
}

/// The error that a result holds, if it is one.
pub open spec fn error_of<T>(res: Result<T, AurVoteErrorView>) -> Option<AurVoteErrorView> {
    match res {
        Ok(_) => None,
        Err(error) => Some(error),
    }
}

/// The error of a vote depends on the exit code, the error output and the
/// package base alone: neither standard output nor the action changes which
/// error is reported, or whether one is.
pub proof fn law_error_ignores_action_and_stdout(
    a: CommandOutput,
    b: CommandOutput,
    a_action: VoteAction,
    b_action: VoteAction,
    pkgbase: Seq<char>,
)
    requires
        a.exit_code == b.exit_code,
        a.stderr@ == b.stderr@,
    ensures
        error_of(
            vote_reply::vote_result(
                a.exit_code,
                process::decoded(a.stderr@),
                a_action,
                pkgbase,
            ),
        ) == error_of(
            vote_reply::vote_result(
                b.exit_code,
                process::decoded(b.stderr@),
                b_action,
                pkgbase,
            ),
        ),
{
}

/// The reasons for which the server refuses, as far as error output holds them,
/// are the same for a vote and for a look-up: those that only one of the two
/// knows are absent, or come after one that both know.
///
/// With exit code 1, the vote knows three reasons of its own, and the look-up
/// an unsupported command. With any other code, only the look-up asks for
/// reasons at all.
pub open spec fn reasons_are_shared(exit_code: Option<i32>, stderr: Seq<char>) -> bool {
    let down = text::occurs("AUR is down due to maintenance"@, stderr);
    let banned = text::occurs("SSH interface is disabled"@, stderr);
    let unsupported = text::occurs("invalid command: list-votes"@, stderr);
    if exit_code == Some(1i32) {
        &&& !text::occurs("already voted for package base"@, stderr)
        &&& !text::occurs("missing vote for package base"@, stderr)
        &&& !text::occurs("package base not found"@, stderr)
        &&& down || !unsupported
    } else {
        !down && !banned && !unsupported
    }
}

/// A vote and a look-up that fail with the same exit code and error output end
/// with the same error, unless the output holds a reason that only one of the
/// two knows. Maintenance, a ban, a lost connection, an unreachable host and a
/// refused key are answered alike.
pub proof fn law_votes_and_look_ups_fail_alike(
    exit_code: Option<i32>,
    stdout: Seq<char>,
    stderr: Seq<char>,
    action: VoteAction,
    pkgbase: Seq<char>,
)
    requires
        exit_code != Some(0i32),
        reasons_are_shared(exit_code, stderr),
    ensures
        error_of(vote_reply::vote_result(exit_code, stderr, action, pkgbase)) is Some,
        error_of(vote_reply::vote_result(exit_code, stderr, action, pkgbase)) == error_of(
            vote_reply::list_votes_result(exit_code, stdout, stderr, pkgbase),
        ),
{
    lemma_refusal_texts_survive_trimming(stderr);
}

/// What an error tells of the output of SSH.
pub open spec fn shown_detail(error: AurVoteErrorView) -> Option<Seq<char>> {
    match error {
        AurVoteErrorView::AuthFailed(detail) => Some(detail),
        AurVoteErrorView::Timeout(detail) => Some(detail),
        AurVoteErrorView::NetworkError(detail) => Some(detail),
        AurVoteErrorView::Unexpected(detail) => Some(detail),
        _ => None,
    }
}

/// The text is bounded in length and does not tell where an identity file lies.
pub open spec fn is_safe_to_show(detail: Seq<char>) -> bool {
    &&& !sanitize::names_key_file(detail)
    &&& vstd::utf8::encode_utf8(detail).len() <= sanitize::MAX_LEN + 3
}

/// No error of a vote tells where an identity file lies, and what it tells of
/// the output of SSH is bounded in length.
pub proof fn law_vote_errors_are_safe_to_show(
    exit_code: Option<i32>,
    stderr: Seq<char>,
    action: VoteAction,
    pkgbase: Seq<char>,
)
    ensures
        vote_reply::vote_result(exit_code, stderr, action, pkgbase) matches Err(error) ==> (
        shown_detail(error) matches Some(detail) ==> is_safe_to_show(detail)),
{
    sanitize::law_sanitized_hides_key_files(text::trimmed(stderr));
    sanitize::law_sanitized_is_bounded(text::trimmed(stderr));
}

/// No error of a look-up tells where an identity file lies, and what it tells of
/// the output of SSH is bounded in length.
pub proof fn law_look_up_errors_are_safe_to_show(
    exit_code: Option<i32>,
    stdout: Seq<char>,
    stderr: Seq<char>,
    pkgbase: Seq<char>,
)
    ensures
        vote_reply::list_votes_result(exit_code, stdout, stderr, pkgbase) matches Err(error) ==> (
        shown_detail(error) matches Some(detail) ==> is_safe_to_show(detail)),
{
    sanitize::law_sanitized_hides_key_files(text::trimmed(stderr));
    sanitize::law_sanitized_is_bounded(text::trimmed(stderr));
    lemma_unsupported_detail_is_safe();
}

/// The text for look-ups that the server does not know is safe to show.
proof fn lemma_unsupported_detail_is_safe()
    ensures
        is_safe_to_show(vote_reply::LOOKUP_UNSUPPORTED_DETAIL@),
{
    reveal_strlit("AUR SSH server does not support vote-state lookup.");
    reveal_strlit("/.ssh/");
    reveal_strlit("identity file");
    let detail = vote_reply::LOOKUP_UNSUPPORTED_DETAIL@;
    vstd::utf8::is_ascii_chars_encode_utf8(detail);
    if text::occurs("/.ssh/"@, detail) {
        let i = choose|i: int| text::occurs_at("/.ssh/"@, detail, i);
        assert(detail.subrange(i, i + 6)[0] == detail[i]);
    }
    if text::occurs("identity file"@, detail) {
        let i = choose|i: int| text::occurs_at("identity file"@, detail, i);
        assert(detail.subrange(i, i + 13)[0] == detail[i]);
    }
}

/// A needle without the last character of `a` stands in `a` or in `b` if it
/// stands in both together.
proof fn lemma_occurs_in_concat(needle: Seq<char>, a: Seq<char>, b: Seq<char>)
    requires
        needle.len() > 0,
        a.len() > 0,
        forall|i: int| 0 <= i < needle.len() ==> needle[i] != a.last(),
        text::occurs(needle, a + b),
    ensures
        text::occurs(needle, a) || text::occurs(needle, b),
{
    let both = a + b;
    let at = choose|i: int| text::occurs_at(needle, both, i);
    let end = at + needle.len();
    let found = both.subrange(at, end);
    let n = a.len() as int;
    if at <= n - 1 < end {
        assert(found[n - 1 - at] == a.last());
    } else if end <= n - 1 {
        assert(a.subrange(at, end) =~= found);
        assert(text::occurs_at(needle, a, at));
    } else {
        assert(b.subrange(at - n, end - n) =~= found);
        assert(text::occurs_at(needle, b, at - n));
    }
}

/// A text between a beginning and an end that are free of identity files, where
/// the beginning closes with a character of no path, tells of no identity file
/// if the text in the middle does not.
proof fn lemma_framed_text_is_clean(lead: Seq<char>, middle: Seq<char>, tail: char)
    requires
        lead.len() > 0,
        lead.last() == '(' || lead.last() == ':',
        tail == ')',
        !sanitize::names_key_file(lead),
        !sanitize::names_key_file(middle),
    ensures
        !sanitize::names_key_file(lead + middle + seq![tail]),
        !sanitize::names_key_file(lead + (seq![' '] + middle)),
{
    reveal_strlit("/.ssh/");
    reveal_strlit("identity file");
    lemma_framed_needle("/.ssh/"@, lead, middle, tail);
    lemma_framed_needle("identity file"@, lead, middle, tail);
}

proof fn lemma_framed_needle(needle: Seq<char>, lead: Seq<char>, middle: Seq<char>, tail: char)
    requires
        needle.len() > 1,
        needle[0] != ' ',
        lead.len() > 0,
        forall|i: int| 0 <= i < needle.len() ==> needle[i] != lead.last(),
        forall|i: int| 0 <= i < needle.len() ==> needle[i] != tail,
        !text::occurs(needle, lead),
        !text::occurs(needle, middle),
    ensures
        !text::occurs(needle, lead + middle + seq![tail]),
        !text::occurs(needle, lead + (seq![' '] + middle)),
{
    let framed = lead + middle + seq![tail];
    if text::occurs(needle, framed) {
        let at = choose|i: int| text::occurs_at(needle, framed, i);
        let end = at + needle.len();
        let found = framed.subrange(at, end);
        let inner = lead + middle;
        if end == framed.len() {
            assert(found[needle.len() - 1] == tail);
        }
        assert(inner.subrange(at, end) =~= found);
        assert(text::occurs_at(needle, inner, at));
        lemma_occurs_in_concat(needle, lead, middle);
    }
    let spaced = seq![' '] + middle;
    if text::occurs(needle, lead + spaced) {
        lemma_occurs_in_concat(needle, lead, spaced);
        let at = choose|i: int| text::occurs_at(needle, spaced, i);
        let end = at + needle.len();
        assert(spaced.subrange(at, end)[0] == spaced[at]);
        assert(middle.subrange(at - 1, end - 1) =~= spaced.subrange(at, end));
        assert(text::occurs_at(needle, middle, at - 1));
    }
}

/// A text in which no slash is followed by a full stop and no `i` by a `d` tells
/// of no identity file.
proof fn lemma_no_key_file(text: Seq<char>)
    requires
        forall|i: int| 0 <= i < text.len() - 1 && #[trigger] text[i] == '/' ==> text[i + 1] != '.',
        forall|i: int| 0 <= i < text.len() - 1 && #[trigger] text[i] == 'i' ==> text[i + 1] != 'd',
    ensures
        !sanitize::names_key_file(text),
{
    reveal_strlit("/.ssh/");
    reveal_strlit("identity file");
    if text::occurs("/.ssh/"@, text) {
        let i = choose|i: int| text::occurs_at("/.ssh/"@, text, i);
        let found = text.subrange(i, i + 6);
        assert(found[0] == text[i] && found[1] == text[i + 1]);
    }
    if text::occurs("identity file"@, text) {
        let i = choose|i: int| text::occurs_at("identity file"@, text, i);
        let found = text.subrange(i, i + 13);
        assert(found[0] == text[i] && found[1] == text[i + 1]);
    }
}

/// The message of an error that shows what SSH printed tells of no identity file
/// if what it shows does not.
pub proof fn law_error_message_hides_key_files(error: AurVoteErrorView)
    requires
        shown_detail(error) is Some,
        !sanitize::names_key_file(shown_detail(error)->0),
    ensures
        !sanitize::names_key_file(aur_vote::error_message(error)),
{
    reveal_strlit(")");
    let detail = shown_detail(error)->0;
    assert(")"@ =~= seq![')']);
    match error {
        AurVoteErrorView::AuthFailed(_) => {
            reveal_strlit(
                "SSH auth failed. Ensure your SSH key is uploaded to your AUR account at https://aur.archlinux.org/account (",
            );
            let lead =
                "SSH auth failed. Ensure your SSH key is uploaded to your AUR account at https://aur.archlinux.org/account ("@;
            lemma_no_key_file(lead);
            lemma_framed_text_is_clean(lead, detail, ')');
        },
        AurVoteErrorView::Timeout(_) => {
            reveal_strlit("Connection to aur.archlinux.org timed out. Check network (");
            let lead = "Connection to aur.archlinux.org timed out. Check network ("@;
            lemma_no_key_file(lead);
            lemma_framed_text_is_clean(lead, detail, ')');
        },
        AurVoteErrorView::NetworkError(_) => {
            reveal_strlit("Could not connect to aur.archlinux.org. Check connectivity (");
            let lead = "Could not connect to aur.archlinux.org. Check connectivity ("@;
            lemma_no_key_file(lead);
            lemma_framed_text_is_clean(lead, detail, ')');
        },
        _ => {
            reveal_strlit("AUR vote failed unexpectedly: ");
            let whole = "AUR vote failed unexpectedly: "@;
            let lead = whole.drop_last();
            lemma_no_key_file(lead);
            lemma_framed_text_is_clean(lead, detail, ')');
            assert(whole + detail =~= lead + (seq![' '] + detail));
        },
    }
}

/// What an error is about: the package base, the SSH program, or what SSH
/// printed.
pub open spec fn subject(error: AurVoteErrorView) -> Option<Seq<char>> {
    match error {
        AurVoteErrorView::AlreadyVoted(pkg) => Some(pkg),
        AurVoteErrorView::NotVoted(pkg) => Some(pkg),
        AurVoteErrorView::NotFound(pkg) => Some(pkg),
        AurVoteErrorView::SshNotFound(cmd) => Some(cmd),
        _ => shown_detail(error),
    }
}

/// `middle` stands in a text that it is put into.
proof fn lemma_occurs_in_frame(lead: Seq<char>, middle: Seq<char>, tail: Seq<char>)
    ensures
        text::occurs(middle, lead + middle + tail),
        text::occurs(middle, lead + middle),
{
    assert(text::occurs_at(middle, lead + middle + tail, lead.len() as int));
    assert(text::occurs_at(middle, lead + middle, lead.len() as int));
}

/// The message of an error names what the error is about.
pub proof fn law_error_message_names_its_subject(error: AurVoteErrorView)
    ensures
        subject(error) matches Some(about) ==> text::occurs(about, aur_vote::error_message(error)),
{
    match error {
        AurVoteErrorView::AlreadyVoted(pkg) => {
            lemma_occurs_in_frame("You have already voted for '"@, pkg, "'"@);
        },
        AurVoteErrorView::NotVoted(pkg) => {
            lemma_occurs_in_frame("You haven't voted for '"@, pkg, "'"@);
        },
        AurVoteErrorView::NotFound(pkg) => {
            lemma_occurs_in_frame("Package base '"@, pkg, "' not found on AUR"@);
        },
        AurVoteErrorView::AuthFailed(detail) => {
            lemma_occurs_in_frame(
                "SSH auth failed. Ensure your SSH key is uploaded to your AUR account at https://aur.archlinux.org/account ("@,
                detail,
                ")"@,
            );
        },
        AurVoteErrorView::Timeout(detail) => {
            lemma_occurs_in_frame(
                "Connection to aur.archlinux.org timed out. Check network ("@,
                detail,
                ")"@,
            );
        },
        AurVoteErrorView::NetworkError(detail) => {
            lemma_occurs_in_frame(
                "Could not connect to aur.archlinux.org. Check connectivity ("@,
                detail,
                ")"@,
            );
        },
        AurVoteErrorView::SshNotFound(cmd) => {
            lemma_occurs_in_frame(
                "SSH binary '"@,
                cmd,
                "' not found. Install openssh or configure aur_vote_ssh_command in settings"@,
            );
        },
        AurVoteErrorView::Unexpected(detail) => {
            lemma_occurs_in_frame("AUR vote failed unexpectedly: "@, detail, seq![]);
        },
        _ => {},
    }
}

/// The message of an outcome names the package base, and says at its beginning
/// whether the vote was only simulated.
pub proof fn law_outcome_message_is_clear(outcome: AurVoteOutcomeView)
    ensures
        text::occurs(outcome.pkgbase, aur_vote::outcome_message(outcome)),
        text::occurs_at("[dry-run]"@, aur_vote::outcome_message(outcome), 0) <==> outcome.dry_run,
{
    reveal_strlit("[dry-run]");
    reveal_strlit("[dry-run] Would vote for '");
    reveal_strlit("[dry-run] Would remove vote for '");
    reveal_strlit("Voted for '");
    reveal_strlit("Removed vote for '");
    let lead = aur_vote::outcome_lead(outcome.action, outcome.dry_run);
    let message = aur_vote::outcome_message(outcome);
    assert(text::occurs_at(outcome.pkgbase, message, lead.len() as int));
    assert(message[0] == lead[0]);
    assert(message.subrange(0, 9)[0] == message[0]);
    if outcome.dry_run {
        assert(text::occurs_at("[dry-run]"@, message, 0));
    }
}

// ---------------------------------------------------------------------------
// Whole replies
// ---------------------------------------------------------------------------

/// A result and its value are alike: success with the value of what succeeded,
/// failure with the value of the error.
pub proof fn law_result_values(
    vote: Result<AurVoteOutcome, AurVoteError>,
    state: Result<AurPackageVoteState, AurVoteError>,
)
    ensures
        vote is Ok <==> vote_reply::vote_view(vote) is Ok,
        vote matches Ok(outcome) ==> vote_reply::vote_view(vote)->Ok_0 == outcome@,
        vote matches Err(error) ==> vote_reply::vote_view(vote)->Err_0 == error@,
        state is Ok <==> vote_reply::state_view(state) is Ok,
        state matches Ok(found) ==> vote_reply::state_view(state)->Ok_0 == found,
        state matches Err(error) ==> vote_reply::state_view(state)->Err_0 == error@,
{
}

/// Whoever reads the output of a finished process, the reader of the reply or
/// the reader of the output, comes to the same answer: from the exit code, the
/// decoded error output and, for a look-up, the decoded standard output.
pub proof fn law_reply_is_read_like_its_output(
    output: CommandOutput,
    action: VoteAction,
    pkgbase: Seq<char>,
    ctx: AurVoteContext,
)
    ensures
        vote_transport::vote_answer(Ok(output), action, pkgbase, ctx) == vote_reply::vote_result(
            output.exit_code,
            process::decoded(output.stderr@),
            action,
            pkgbase,
        ),
        vote_transport::state_answer(Ok(output), pkgbase, ctx) == vote_reply::list_votes_result(
            output.exit_code,
            process::decoded(output.stdout@),
            process::decoded(output.stderr@),
            pkgbase,
        ),
{
}

/// With exit code 0 a vote succeeds with just what was asked for: this action on
/// this package base, and no simulation. What the process printed makes no
/// difference.
pub proof fn law_successful_vote_is_the_request(
    output: CommandOutput,
    stderr: Seq<char>,
    action: VoteAction,
    pkgbase: Seq<char>,
    ctx: AurVoteContext,
)
    requires
        output.exit_code == Some(0i32),
    ensures
        vote_transport::vote_answer(Ok(output), action, pkgbase, ctx) matches Ok(outcome)
            && outcome.action == action && outcome.pkgbase == pkgbase && !outcome.dry_run,
        vote_reply::vote_result(Some(0i32), stderr, action, pkgbase) matches Ok(outcome)
            && outcome.action == action && outcome.pkgbase == pkgbase && !outcome.dry_run,
{
}

/// A simulated vote ends with just what was asked for, marked as simulated.
pub proof fn law_simulated_vote_is_the_request(action: VoteAction, pkgbase: Seq<char>)
    ensures
        vote_transport::simulated_outcome(action, pkgbase).action == action,
        vote_transport::simulated_outcome(action, pkgbase).pkgbase == pkgbase,
        vote_transport::simulated_outcome(action, pkgbase).dry_run,
{
}

/// With exit code 0 the answer to a look-up is that the account has voted just
/// if the name of the package base stands in the decoded standard output of the
/// process, between white space or the ends, whatever its error output holds.
pub proof fn law_look_up_is_answered_from_stdout(
    output: CommandOutput,
    pkgbase: Seq<char>,
    ctx: AurVoteContext,
)
    requires
        output.exit_code == Some(0i32),
    ensures
        vote_transport::state_answer(Ok(output), pkgbase, ctx) is Ok,
        vote_transport::state_answer(Ok(output), pkgbase, ctx)->Ok_0 is Voted <==> pkgbase.len()
            > 0 && (forall|i: int| 0 <= i < pkgbase.len() ==> !text::is_space(pkgbase[i]))
            && exists|a: Seq<char>, b: Seq<char>|
            process::decoded(output.stdout@) == #[trigger] (a + pkgbase + b) && (a.len() == 0
                || text::is_space(a[a.len() - 1])) && (b.len() == 0 || text::is_space(b[0])),
{
    let stdout = process::decoded(output.stdout@);
    split::law_words_are_delimited(pkgbase, stdout);
    if exists|i: int| split::is_delimited_at(pkgbase, stdout, i) {
        let i = choose|i: int| split::is_delimited_at(pkgbase, stdout, i);
        text::law_occurs_at_is_a_middle(pkgbase, stdout, i);
        let (a, b) = choose|a: Seq<char>, b: Seq<char>|
            a.len() == i && stdout == #[trigger] (a + pkgbase + b);
        if a.len() > 0 {
            assert(stdout[i - 1] == a[a.len() - 1]);
        }
        if b.len() > 0 {
            assert(stdout[i + pkgbase.len()] == b[0]);
        }
    }
    if pkgbase.len() > 0 && (forall|i: int| 0 <= i < pkgbase.len() ==> !text::is_space(pkgbase[i]))
        && exists|a: Seq<char>, b: Seq<char>|
        stdout == #[trigger] (a + pkgbase + b) && (a.len() == 0 || text::is_space(a[a.len() - 1]))
            && (b.len() == 0 || text::is_space(b[0])) {
        let (a, b) = choose|a: Seq<char>, b: Seq<char>|
            stdout == #[trigger] (a + pkgbase + b) && (a.len() == 0 || text::is_space(
                a[a.len() - 1],
            )) && (b.len() == 0 || text::is_space(b[0]));
        let i = a.len() as int;
        text::law_occurs_at_is_a_middle(pkgbase, stdout, i);
        if a.len() > 0 {
            assert(stdout[i - 1] == a[a.len() - 1]);
        }
        if b.len() > 0 {
            assert(stdout[i + pkgbase.len()] == b[0]);
        }
        assert(split::is_delimited_at(pkgbase, stdout, i));
    }
}

/// A vote that fails without a reason of the server, which only exit code 1
/// comes with, is told by what SSH printed.
pub proof fn law_unexplained_vote_failure(
    exit_code: Option<i32>,
    stderr: Seq<char>,
    action: VoteAction,
    pkgbase: Seq<char>,
)
    requires
        exit_code != Some(0i32),
        exit_code == Some(1i32) ==> !text::occurs("already voted for package base"@, stderr)
            && !text::occurs("missing vote for package base"@, stderr) && !text::occurs(
            "package base not found"@,
            stderr,
        ) && !text::occurs("AUR is down due to maintenance"@, stderr) && !text::occurs(
            "SSH interface is disabled"@,
            stderr,
        ),
    ensures
        ({
            let lost = text::occurs("Connection timed out"@, stderr) || text::occurs(
                "Connection refused"@,
                stderr,
            );
            let unreachable = text::occurs("Could not resolve hostname"@, stderr) || text::occurs(
                "Network is unreachable"@,
                stderr,
            ) || text::occurs("No route to host"@, stderr);
            let detail = sanitize::sanitized(text::trimmed(stderr));
            let res = vote_reply::vote_result(exit_code, stderr, action, pkgbase);
            &&& lost ==> res == Err::<AurVoteOutcomeView, AurVoteErrorView>(
                AurVoteErrorView::Timeout(detail),
            )
            &&& unreachable && !lost ==> res == Err::<AurVoteOutcomeView, AurVoteErrorView>(
                AurVoteErrorView::NetworkError(detail),
            )
            &&& !unreachable && !lost && exit_code == Some(255i32) ==> res == Err::<AurVoteOutcomeView, AurVoteErrorView>(
                AurVoteErrorView::AuthFailed(detail),
            )
            &&& !unreachable && !lost && exit_code != Some(255i32) ==> res == Err::<AurVoteOutcomeView, AurVoteErrorView>(
                AurVoteErrorView::Unexpected(detail),
            )
        }),
{
    lemma_refusal_texts_survive_trimming(stderr);
    lemma_connection_texts_survive_trimming(stderr);
}

/// A look-up that fails without a reason of the server is told by what SSH
/// printed.
pub proof fn law_unexplained_look_up_failure(
    exit_code: Option<i32>,
    stdout: Seq<char>,
    stderr: Seq<char>,
    pkgbase: Seq<char>,
)
    requires
        exit_code != Some(0i32),
        !text::occurs("AUR is down due to maintenance"@, stderr),
        !text::occurs("invalid command: list-votes"@, stderr),
        !text::occurs("SSH interface is disabled"@, stderr),
    ensures
        ({
            let lost = text::occurs("Connection timed out"@, stderr) || text::occurs(
                "Connection refused"@,
                stderr,
            );
            let unreachable = text::occurs("Could not resolve hostname"@, stderr) || text::occurs(
                "Network is unreachable"@,
                stderr,
            ) || text::occurs("No route to host"@, stderr);
            let detail = sanitize::sanitized(text::trimmed(stderr));
            let res = vote_reply::list_votes_result(exit_code, stdout, stderr, pkgbase);
            &&& lost ==> res == Err::<AurPackageVoteState, AurVoteErrorView>(
                AurVoteErrorView::Timeout(detail),
            )
            &&& unreachable && !lost ==> res == Err::<AurPackageVoteState, AurVoteErrorView>(
                AurVoteErrorView::NetworkError(detail),
            )
            &&& !unreachable && !lost && exit_code == Some(255i32) ==> res == Err::<AurPackageVoteState, AurVoteErrorView>(
                AurVoteErrorView::AuthFailed(detail),
            )
            &&& !unreachable && !lost && exit_code != Some(255i32) ==> res == Err::<AurPackageVoteState, AurVoteErrorView>(
                AurVoteErrorView::Unexpected(detail),
            )
        }),
{
    lemma_refusal_texts_survive_trimming(stderr);
    lemma_connection_texts_survive_trimming(stderr);
}

/// A look-up whose command the server rejected ends with one fixed text, unless
/// the AUR is under maintenance.
pub proof fn law_rejected_look_up_has_a_fixed_text(
    exit_code: Option<i32>,
    stdout: Seq<char>,
    stderr: Seq<char>,
    pkgbase: Seq<char>,
)
    requires
        exit_code != Some(0i32),
        text::occurs("invalid command: list-votes"@, stderr),
        !text::occurs("AUR is down due to maintenance"@, stderr),
    ensures
        vote_reply::list_votes_result(exit_code, stdout, stderr, pkgbase) == Err::<
            AurPackageVoteState,
            AurVoteErrorView,
        >(AurVoteErrorView::Unexpected("AUR SSH server does not support vote-state lookup."@)),
{
    lemma_refusal_texts_survive_trimming(stderr);
}

/// An error says that look-ups are not supported just if it is of the unexpected
/// kind and the words that say so are a part of its text.
pub proof fn law_unsupported_words(error: AurVoteErrorView)
    ensures
        vote_reply::is_lookup_unsupported(error) <==> error is Unexpected && exists|
            a: Seq<char>,
            b: Seq<char>,
        |
            error->Unexpected_0 == #[trigger] (a + "does not support vote-state lookup"@ + b),
{
    if error is Unexpected {
        text::law_occurs_is_a_middle(
            "does not support vote-state lookup"@,
            error->Unexpected_0,
        );
    }
}

/// An SSH program that could not be started is answered alike for a vote and for
/// a look-up: by its name if it does not exist, else by the system's message.
pub proof fn law_ssh_that_does_not_start(
    failure: SpawnFailure,
    action: VoteAction,
    pkgbase: Seq<char>,
    ctx: AurVoteContext,
)
    ensures
        failure.kind is NotFound ==> vote_transport::vote_answer(
            Err(failure),
            action,
            pkgbase,
            ctx,
        ) == Err::<AurVoteOutcomeView, AurVoteErrorView>(
            AurVoteErrorView::SshNotFound(ctx.ssh_command@),
        ),
        failure.kind is Other ==> vote_transport::vote_answer(Err(failure), action, pkgbase, ctx)
            == Err::<AurVoteOutcomeView, AurVoteErrorView>(
            AurVoteErrorView::NetworkError(failure.message@),
        ),
        failure.kind is NotFound ==> vote_transport::state_answer(Err(failure), pkgbase, ctx)
            == Err::<AurPackageVoteState, AurVoteErrorView>(
            AurVoteErrorView::SshNotFound(ctx.ssh_command@),
        ),
        failure.kind is Other ==> vote_transport::state_answer(Err(failure), pkgbase, ctx) == Err::<
            AurPackageVoteState,
            AurVoteErrorView,
        >(AurVoteErrorView::NetworkError(failure.message@)),
        failure.kind is NotFound ==> vote_transport::spawn_error(failure, ctx.ssh_command@)
            == AurVoteErrorView::SshNotFound(ctx.ssh_command@),
        failure.kind is Other ==> vote_transport::spawn_error(failure, ctx.ssh_command@)
            == AurVoteErrorView::NetworkError(failure.message@),
{
}

/// Both commands run the configured program, bound the time to connect, ask for
/// no prompts, and go to the AUR. A vote then names the action and, last, the
/// package base; a look-up ends with the command that lists the votes.
pub proof fn law_command_arguments(
    action: VoteAction,
    pkgbase: Seq<char>,
    ctx: AurVoteContext,
    i: int,
)
    requires
        0 <= i < 5,
    ensures
        ({
            let vote = vote_transport::vote_command_line(action, pkgbase, ctx);
            let list = vote_transport::list_votes_command_line(ctx);
            &&& vote.program == ctx.ssh_command@
            &&& list.program == ctx.ssh_command@
            &&& vote.args.len() == 7
            &&& list.args.len() == 6
            &&& vote.args[i] == list.args[i]
            &&& vote.args[0] == "-o"@
            &&& vote.args[1] == "ConnectTimeout="@ + number::decimal(ctx.ssh_timeout_secs as nat)
            &&& vote.args[2] == "-o"@
            &&& vote.args[3] == "BatchMode=yes"@
            &&& vote.args[4] == "aur@aur.archlinux.org"@
            &&& action is Vote ==> vote.args[5] == "vote"@
            &&& action is Unvote ==> vote.args[5] == "unvote"@
            &&& vote.args[6] == pkgbase
            &&& list.args[5] == "list-votes"@
        }),
{
}

} // verus!
