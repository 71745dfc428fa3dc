//! The temporary pacman database that update checks sync without root.

use vstd::prelude::*;

use crate::number;
use crate::process;
use crate::process::CommandOutput;
use crate::process::SpawnFailure;
use crate::split;
use crate::text;

verus! {

// ---------------------------------------------------------------------------
// User
// ---------------------------------------------------------------------------

/// A line of the process status with the user ids on it.
pub open spec fn is_uid_line(line: Seq<char>) -> bool {
    text::occurs_at("Uid:"@, line, 0) && split::words(line).len() >= 2
}

/// The first value on the first line with user ids, if it is a number.
pub open spec fn uid_in_lines(lines: Seq<Seq<char>>) -> Option<u32>
    decreases lines.len(),
{
    if lines.len() == 0 {
        None
    } else if is_uid_line(lines[0]) {
        number::parsed_u32(split::words(lines[0])[1])
    } else {
        uid_in_lines(lines.drop_first())
    }
}

/// The real user id in the process status.
pub open spec fn uid_in_status(status: Seq<char>) -> Option<u32> {
    uid_in_lines(split::lines(status))
}

/// The real user id in the text of `/proc/self/status`.
pub fn parse_uid(status: &str) -> (res: Option<u32>)
    ensures
        res == uid_in_status(status@),
{
    let lines = split::split_lines(status);
    let ghost all = split::views(lines@);
    let mut i: usize = 0;
    assert(all.skip(0) =~= all);
    while i < lines.len()
        invariant
            i <= lines@.len(),
            all == split::views(lines@),
            all == split::lines(status@),
            uid_in_lines(all.skip(i as int)) == uid_in_lines(all),
        decreases lines@.len() - i,
    {
        let line = lines[i].as_str();
        assert(all.skip(i as int)[0] == line@);
        assert(all.skip(i as int).drop_first() =~= all.skip(i + 1));
        if text::starts_with(line, "Uid:") {
            let parts = split::split_words(line);
            assert(split::words(line@).len() == parts@.len());
            if parts.len() >= 2 {
                assert(split::words(line@)[1] == parts@[1]@);
                return number::parse_u32(parts[1].as_str());
            }
        }
        i += 1;
    }
    None
}

// ---------------------------------------------------------------------------
// Set-up
// ---------------------------------------------------------------------------

/// The directory of the temporary database of a user.
pub open spec fn temp_db_dir(uid: u32) -> Seq<char> {
    "/tmp/pacsea-db-"@ + number::decimal(uid as nat)
}

/// Next step in setting up the temporary database.
#[derive(Clone, Debug)]
pub enum TempDbStep {
    /// Create this directory unless it exists.
    CreateDir(String),
    /// Find out whether there is something at this path.
    CheckLink(String),
    /// Create a symbolic link to the first path at the second.
    MakeLink(String, String),
    /// Done, with the directory if it is ready.
    Finished(Option<String>),
}

/// The mathematical value of a [`TempDbStep`].
#[verifier::ext_equal]
pub enum TempDbStepView {
    CreateDir(Seq<char>),
    CheckLink(Seq<char>),
    MakeLink(Seq<char>, Seq<char>),
    Finished(Option<Seq<char>>),
}

impl View for TempDbStep {
    type V = TempDbStepView;

    open spec fn view(&self) -> TempDbStepView {
        match self {
            TempDbStep::CreateDir(dir) => TempDbStepView::CreateDir(dir@),
            TempDbStep::CheckLink(link) => TempDbStepView::CheckLink(link@),
            TempDbStep::MakeLink(target, link) => TempDbStepView::MakeLink(target@, link@),
            TempDbStep::Finished(Some(dir)) => TempDbStepView::Finished(Some(dir@)),
            TempDbStep::Finished(None) => TempDbStepView::Finished(None),
        }
    }
}

/// The next step, given the user and what came of the steps so far: whether the
/// directory was created, whether the link was there, and whether it was made.
///
/// The directory holds a link `local` to the system's database of installed
/// packages. It is made only where there is none, and a step that fails ends
/// the set-up.
pub open spec fn temp_db_step(
    uid: Option<u32>,
    dir_created: Option<bool>,
    link_present: Option<bool>,
    link_made: Option<bool>,
) -> TempDbStepView {
    match uid {
        None => TempDbStepView::Finished(None),
        Some(uid) => {
            let dir = temp_db_dir(uid);
            let link = dir + "/local"@;
            match (dir_created, link_present, link_made) {
                (None, _, _) => TempDbStepView::CreateDir(dir),
                (Some(false), _, _) => TempDbStepView::Finished(None),
                (Some(true), None, _) => TempDbStepView::CheckLink(link),
                (Some(true), Some(true), _) => TempDbStepView::Finished(Some(dir)),
                (Some(true), Some(false), None) => TempDbStepView::MakeLink(
                    "/var/lib/pacman/local"@,
                    link,
                ),
                (Some(true), Some(false), Some(false)) => TempDbStepView::Finished(None),
                (Some(true), Some(false), Some(true)) => TempDbStepView::Finished(Some(dir)),
            }
        },
    }
}

/// The directory of the temporary database of a user.
pub fn temp_db_path(uid: u32) -> (res: String)
    ensures
        res@ == temp_db_dir(uid),
{
    "/tmp/pacsea-db-".to_owned().concat(number::u32_to_decimal(uid).as_str())
}

/// The next step in setting up the temporary database, given the user and what
/// came of the steps so far.
pub fn next_temp_db_step(
    uid: Option<u32>,
    dir_created: Option<bool>,
    link_present: Option<bool>,
    link_made: Option<bool>,
) -> (res: TempDbStep)
    ensures
        res@ == temp_db_step(uid, dir_created, link_present, link_made),
{
    let dir = match uid {
        None => return TempDbStep::Finished(None),
        Some(uid) => temp_db_path(uid),
    };
    match dir_created {
        None => TempDbStep::CreateDir(dir),
        Some(false) => TempDbStep::Finished(None),
        Some(true) => match link_present {
            None => TempDbStep::CheckLink(dir.concat("/local")),
            Some(true) => TempDbStep::Finished(Some(dir)),
            Some(false) => match link_made {
                None => TempDbStep::MakeLink(
                    "/var/lib/pacman/local".to_owned(),
                    dir.concat("/local"),
                ),
                Some(false) => TempDbStep::Finished(None),
                Some(true) => TempDbStep::Finished(Some(dir)),
            },
        },
    }
}

// ---------------------------------------------------------------------------
// Sync
// ---------------------------------------------------------------------------

/// The command that syncs the temporary database. The path of the database goes
/// between the leading and the trailing arguments.
#[derive(Clone, Debug)]
pub struct SyncCommand {
    /// Name of the program.
    pub program: String,
    /// Arguments before the path.
    pub leading: Vec<String>,
    /// Arguments after the path.
    pub trailing: Vec<String>,
}

/// The command that syncs the temporary database, as if it were run by root and
/// without a log.
pub fn sync_command() -> (res: SyncCommand)
    ensures
        res.program@ == "fakeroot"@,
        split::views(res.leading@) == seq!["--"@, "pacman"@, "-Sy"@, "--dbpath"@],
        split::views(res.trailing@) == seq!["--logfile"@, "/dev/null"@],
{
    let mut leading: Vec<String> = Vec::new();
    leading.push("--".to_owned());
    leading.push("pacman".to_owned());
    leading.push("-Sy".to_owned());
    leading.push("--dbpath".to_owned());
    let mut trailing: Vec<String> = Vec::new();
    trailing.push("--logfile".to_owned());
    trailing.push("/dev/null".to_owned());
    assert(split::views(leading@) =~= seq!["--"@, "pacman"@, "-Sy"@, "--dbpath"@]);
    assert(split::views(trailing@) =~= seq!["--logfile"@, "/dev/null"@]);
    SyncCommand { program: "fakeroot".to_owned(), leading, trailing }
}

/// The result of a sync as a mathematical value.
pub open spec fn sync_view(res: Result<(), String>) -> Result<(), Seq<char>> {
    match res {
        Ok(()) => Ok(()),
        Err(message) => Err(message@),
    }
}

/// The result of a sync whose process ended with `exit_code` and printed
/// `stderr`.
pub open spec fn sync_outcome(exit_code: Option<i32>, stderr: Seq<char>) -> Result<(), Seq<char>> {
    if exit_code == Some(0i32) {
        Ok(())
    } else {
        Err(text::trimmed(stderr))
    }
}

/// The result of a sync whose process ended with `exit_code` and printed
/// `stderr`.
pub fn sync_text_result(exit_code: Option<i32>, stderr: &str) -> (res: Result<(), String>)
    ensures
        sync_view(res) == sync_outcome(exit_code, stderr@),
{
    match exit_code {
        Some(0) => Ok(()),
        _ => Err(text::trim(stderr).to_owned()),
    }
}

/// The result of a sync: success for exit code 0, else what the process printed
/// or why it could not be started.
pub fn sync_result(reply: Result<CommandOutput, SpawnFailure>) -> (res: Result<(), String>)
    ensures
        sync_view(res) == match reply {
            Ok(output) => sync_outcome(output.exit_code, process::decoded(output.stderr@)),
            Err(failure) => Err(failure.message@),
        },
{
    match reply {
        Ok(output) => {
            let stderr = process::decode(&output.stderr);
            sync_text_result(output.exit_code, stderr.as_str())
        },
        Err(failure) => Err(failure.message),
    }
}

// ---------------------------------------------------------------------------
// Laws
// ---------------------------------------------------------------------------

/// The second word of a line with user ids separated by tabs is the first id.
proof fn lemma_uid_line(uid: u32, rest: Seq<char>)
    ensures
        ({
            let line = "Uid:\t"@ + number::decimal(uid as nat) + "\t"@ + rest;
            is_uid_line(line) && split::words(line)[1] == number::decimal(uid as nat)
        }),
{
    reveal_strlit("Uid:\t");
    reveal_strlit("Uid:");
    reveal_strlit("\t");
    number::lemma_decimal(uid as nat);
    let id = number::decimal(uid as nat);
    let line = "Uid:\t"@ + id + "\t"@ + rest;
    split::lemma_word_len_is(line, 4);
    let second = line.skip(4);
    assert(text::is_space(second[0]));
    split::lemma_word_len_is(second, 0);
    let third = second.drop_first();
    assert(third =~= id + "\t"@ + rest);
    assert forall|i: int| 0 <= i < id.len() implies !text::is_space(third[i]) by {
        assert(third[i] == id[i]);
        assert(number::is_digit(id[i]));
    }
    assert(third[id.len() as int] == '\t');
    split::lemma_word_len_is(third, id.len() as int);
    assert(third.take(id.len() as int) =~= id);
    assert(split::words(third)[0] == id);
    assert(split::words(second) == split::words(third));
    assert(split::words(line) == seq![line.take(4)] + split::words(second));
    assert(text::occurs_at("Uid:"@, line, 0));
}

/// Lines that are not lines with user ids do not count.
proof fn lemma_uid_in_later_line(lines: Seq<Seq<char>>, k: int)
    requires
        0 <= k < lines.len(),
        forall|i: int| 0 <= i < k ==> !is_uid_line(#[trigger] lines[i]),
    ensures
        uid_in_lines(lines) == uid_in_lines(lines.skip(k)),
    decreases k,
{
    if k == 0 {
        assert(lines.skip(0) =~= lines);
    } else {
        let rest = lines.drop_first();
        assert forall|i: int| 0 <= i < k - 1 implies !is_uid_line(#[trigger] rest[i]) by {
            assert(rest[i] == lines[i + 1]);
        }
        lemma_uid_in_later_line(rest, k - 1);
        assert(rest.skip(k - 1) =~= lines.skip(k));
    }
}

/// The real user id is read from the status line that the kernel writes, the
/// first of the values on it, wherever in the status the line stands.
pub proof fn law_real_uid_is_read(status: Seq<char>, k: int, uid: u32, rest: Seq<char>)
    requires
        0 <= k < split::lines(status).len(),
        forall|i: int| 0 <= i < k ==> !text::occurs_at("Uid:"@, #[trigger] split::lines(status)[i], 0),
        split::lines(status)[k] == "Uid:\t"@ + number::decimal(uid as nat) + "\t"@ + rest,
    ensures
        uid_in_status(status) == Some(uid),
{
    let lines = split::lines(status);
    lemma_uid_line(uid, rest);
    lemma_uid_in_later_line(lines, k);
    assert(lines.skip(k)[0] == lines[k]);
    number::law_decimal_reads_back(uid);
}

/// A status without a line of user ids gives none.
pub proof fn law_no_uid_line_no_uid(lines: Seq<Seq<char>>)
    requires
        forall|i: int| 0 <= i < lines.len() ==> !is_uid_line(#[trigger] lines[i]),
    ensures
        uid_in_lines(lines) is None,
    decreases lines.len(),
{
    if lines.len() > 0 {
        let rest = lines.drop_first();
        assert forall|i: int| 0 <= i < rest.len() implies !is_uid_line(#[trigger] rest[i]) by {
            assert(rest[i] == lines[i + 1]);
        }
        law_no_uid_line_no_uid(rest);
    }
}

/// Different users have different directories.
pub proof fn law_users_do_not_share_a_dir(a: u32, b: u32)
    requires
        temp_db_dir(a) == temp_db_dir(b),
    ensures
        a == b,
{
    let lead = "/tmp/pacsea-db-"@;
    assert(temp_db_dir(a).skip(lead.len() as int) =~= number::decimal(a as nat));
    assert(temp_db_dir(b).skip(lead.len() as int) =~= number::decimal(b as nat));
    number::law_decimal_reads_back(a);
    number::law_decimal_reads_back(b);
}

/// The set-up ends with the user's directory just if the user is known, the
/// directory was created, and the link was there or could be made.
pub proof fn law_set_up_succeeds(
    uid: Option<u32>,
    dir_created: bool,
    link_present: bool,
    link_made: bool,
)
    ensures
        temp_db_step(uid, Some(dir_created), Some(link_present), Some(link_made))
            == TempDbStepView::Finished(
            if uid is Some && dir_created && (link_present || link_made) {
                Some(temp_db_dir(uid->0))
            } else {
                None
            },
        ),
{
}

/// A set-up that succeeded can be repeated: where the directory and its link are
/// as it left them, a later set-up of the same user looks at the same places,
/// makes no link, and ends with the same directory.
pub proof fn law_set_up_is_repeatable(
    uid: Option<u32>,
    link_present: Option<bool>,
    link_made: Option<bool>,
    dir: Seq<char>,
    later_made: Option<bool>,
)
    requires
        temp_db_step(uid, Some(true), link_present, link_made) == TempDbStepView::Finished(
            Some(dir),
        ),
    ensures
        temp_db_step(uid, None, None, later_made) == TempDbStepView::CreateDir(dir),
        temp_db_step(uid, Some(true), None, later_made) == TempDbStepView::CheckLink(
            dir + "/local"@,
        ),
        temp_db_step(uid, Some(true), Some(true), later_made) == TempDbStepView::Finished(
            Some(dir),
        ),
{
}

/// The set-up asks for a step only while its result is unknown, looks for the
/// link only in a directory that was created, and makes it only where there was
/// none.
pub proof fn law_set_up_asks_in_order(
    uid: Option<u32>,
    dir_created: Option<bool>,
    link_present: Option<bool>,
    link_made: Option<bool>,
)
    ensures
        temp_db_step(uid, dir_created, link_present, link_made) is CreateDir ==> dir_created is None,
        temp_db_step(uid, dir_created, link_present, link_made) is CheckLink ==> dir_created == Some(
            true,
        ) && link_present is None,
        temp_db_step(uid, dir_created, link_present, link_made) is MakeLink ==> dir_created == Some(
            true,
        ) && link_present == Some(false) && link_made is None,
{
}

/// The status is read line by line, from the text itself. A line without newline
/// that begins with `Uid:` and has a second word decides by that word. Any
/// other line leaves the decision to the rest, and to none if there is no rest.
pub proof fn law_uid_is_read_line_by_line(line: Seq<char>, rest: Seq<char>)
    requires
        forall|i: int| 0 <= i < line.len() ==> line[i] != '\n',
    ensures
        text::occurs_at("Uid:"@, line, 0) && split::words(line).len() >= 2 ==> uid_in_status(
            line + seq!['\n'] + rest,
        ) == number::parsed_u32(split::words(line)[1]) && uid_in_status(line)
            == number::parsed_u32(split::words(line)[1]),
        !(text::occurs_at("Uid:"@, line, 0) && split::words(line).len() >= 2) ==> uid_in_status(
            line + seq!['\n'] + rest,
        ) == uid_in_status(rest) && uid_in_status(line) is None,
{
    reveal_with_fuel(uid_in_lines, 2);
    split::law_text_without_newline_is_one_line(line);
    split::law_first_line_and_the_rest(line, rest);
    let text = line + seq!['\n'] + rest;
    let shown = split::lines(text)[0];
    assert(split::lines(text).drop_first() =~= split::lines(rest));
    if line.len() == 0 {
        reveal_strlit("Uid:");
    } else {
        assert(split::lines(line).drop_first() =~= seq![]);
        if line[line.len() - 1] == '\r' {
            lemma_return_does_not_hide_a_uid_line(shown);
            assert(line =~= shown.push('\r'));
        }
    }
}

/// A carriage return at the end of a line makes no difference to its user ids.
proof fn lemma_return_does_not_hide_a_uid_line(line: Seq<char>)
    ensures
        is_uid_line(line.push('\r')) == is_uid_line(line),
        split::words(line.push('\r')) == split::words(line),
{
    reveal_strlit("Uid:");
    let longer = line.push('\r');
    split::law_space_at_the_end_adds_no_word(line, '\r');
    if line.len() >= 4 {
        assert(longer.subrange(0, 4) =~= line.subrange(0, 4));
    } else if line.len() == 3 {
        assert(longer.subrange(0, 4)[3] == '\r');
    }
}

/// The real user id is read wherever its line stands in the text: after any
/// number of whole lines that do not begin with `Uid:`, and before anything.
pub proof fn law_real_uid_is_found_in_the_text(
    status: Seq<char>,
    before: Seq<char>,
    uid: u32,
    rest: Seq<char>,
)
    requires
        status == before + "Uid:\t"@ + number::decimal(uid as nat) + "\t"@ + rest,
        before.len() == 0 || before[before.len() - 1] == '\n',
        forall|i: int|
            0 <= i < before.len() && (i == 0 || before[i - 1] == '\n') ==> !(
            #[trigger] text::occurs_at("Uid:"@, before, i)),
    ensures
        uid_in_status(status) == Some(uid),
    decreases before.len(),
{
    let frame = "Uid:\t"@ + number::decimal(uid as nat) + "\t"@;
    reveal_strlit("Uid:");
    if before.len() == 0 {
        split::lemma_line_len(rest);
        let n = split::line_len(rest) as int;
        let tail = rest.take(n);
        let line = frame + tail;
        lemma_uid_line(uid, tail);
        lemma_frame_has_no_newline(uid);
        assert forall|i: int| 0 <= i < line.len() implies line[i] != '\n' by {
            if i < frame.len() {
                assert(line[i] == frame[i]);
            } else {
                assert(line[i] == rest[i - frame.len()]);
            }
        }
        assert(status =~= frame + rest);
        number::law_decimal_reads_back(uid);
        if n == rest.len() {
            assert(tail =~= rest);
            law_uid_is_read_line_by_line(line, seq![]);
        } else {
            let later = rest.skip(n + 1);
            assert(rest =~= tail + seq!['\n'] + later);
            assert(status =~= line + seq!['\n'] + later);
            law_uid_is_read_line_by_line(line, later);
        }
    } else {
        split::lemma_line_len(before);
        let n = split::line_len(before) as int;
        if n == before.len() {
            assert(before[before.len() - 1] != '\n');
        }
        let line = before.take(n);
        let next = before.skip(n + 1);
        let remaining = next + "Uid:\t"@ + number::decimal(uid as nat) + "\t"@ + rest;
        assert(status =~= line + seq!['\n'] + remaining);
        if text::occurs_at("Uid:"@, line, 0) {
            assert(before.subrange(0, 4) =~= line.subrange(0, 4));
            assert(text::occurs_at("Uid:"@, before, 0));
        }
        law_uid_is_read_line_by_line(line, remaining);
        if next.len() > 0 {
            assert(next[next.len() - 1] == before[before.len() - 1]);
        }
        assert forall|i: int|
            0 <= i < next.len() && (i == 0 || next[i - 1] == '\n') implies !(
        #[trigger] text::occurs_at("Uid:"@, next, i)) by {
            let k = i + n + 1;
            assert(before[k - 1] == '\n') by {
                if i > 0 {
                    assert(next[i - 1] == before[k - 1]);
                }
            }
            if text::occurs_at("Uid:"@, next, i) {
                assert(before.subrange(k, k + 4) =~= next.subrange(i, i + 4));
                assert(text::occurs_at("Uid:"@, before, k));
            }
        }
        law_real_uid_is_found_in_the_text(remaining, next, uid, rest);
    }
}

/// What stands before the second value of a line with user ids has no newline.
proof fn lemma_frame_has_no_newline(uid: u32)
    ensures
        ({
            let frame = "Uid:\t"@ + number::decimal(uid as nat) + "\t"@;
            forall|i: int| 0 <= i < frame.len() ==> frame[i] != '\n'
        }),
{
    reveal_strlit("Uid:\t");
    reveal_strlit("\t");
    number::lemma_decimal(uid as nat);
    let id = number::decimal(uid as nat);
    let frame = "Uid:\t"@ + id + "\t"@;
    assert forall|i: int| 0 <= i < frame.len() implies frame[i] != '\n' by {
        if 5 <= i < 5 + id.len() {
            assert(number::is_digit(id[i - 5]));
        }
    }
}

/// The directory of a user is named by the user id.
pub proof fn law_dir_is_named_by_the_user(uid: u32)
    ensures
        temp_db_dir(uid) == "/tmp/pacsea-db-"@ + number::decimal(uid as nat),
{
}

/// What each step of the set-up touches: the user's directory, `local` in it,
/// and the system's database of installed packages. Without a user there is
/// nothing to do.
pub proof fn law_set_up_steps(
    uid: u32,
    dir_created: Option<bool>,
    link_present: Option<bool>,
    link_made: Option<bool>,
)
    ensures
        temp_db_step(None, dir_created, link_present, link_made) == TempDbStepView::Finished(None),
        dir_created is None ==> temp_db_step(Some(uid), dir_created, link_present, link_made)
            == TempDbStepView::CreateDir("/tmp/pacsea-db-"@ + number::decimal(uid as nat)),
        dir_created == Some(false) ==> temp_db_step(Some(uid), dir_created, link_present, link_made)
            == TempDbStepView::Finished(None),
        dir_created == Some(true) && link_present is None ==> temp_db_step(
            Some(uid),
            dir_created,
            link_present,
            link_made,
        ) == TempDbStepView::CheckLink(
            "/tmp/pacsea-db-"@ + number::decimal(uid as nat) + "/local"@,
        ),
        dir_created == Some(true) && link_present == Some(false) && link_made is None
            ==> temp_db_step(Some(uid), dir_created, link_present, link_made)
            == TempDbStepView::MakeLink(
            "/var/lib/pacman/local"@,
            "/tmp/pacsea-db-"@ + number::decimal(uid as nat) + "/local"@,
        ),
        dir_created == Some(true) && link_present == Some(false) && link_made == Some(false)
            ==> temp_db_step(Some(uid), dir_created, link_present, link_made)
            == TempDbStepView::Finished(None),
        dir_created == Some(true) && (link_present == Some(true) || (link_present == Some(false)
            && link_made == Some(true))) ==> temp_db_step(
            Some(uid),
            dir_created,
            link_present,
            link_made,
        ) == TempDbStepView::Finished(Some("/tmp/pacsea-db-"@ + number::decimal(uid as nat))),
{
}

/// The value of a step tells the same step and the same paths.
pub proof fn law_step_value(step: TempDbStep)
    ensures
        step matches TempDbStep::CreateDir(dir) ==> step@ == TempDbStepView::CreateDir(dir@),
        step matches TempDbStep::CheckLink(link) ==> step@ == TempDbStepView::CheckLink(link@),
        step matches TempDbStep::MakeLink(target, link) ==> step@ == TempDbStepView::MakeLink(
            target@,
            link@,
        ),
        step matches TempDbStep::Finished(Some(dir)) ==> step@ == TempDbStepView::Finished(
            Some(dir@),
        ),
        step == TempDbStep::Finished(None) ==> step@ == TempDbStepView::Finished(None),
{
}

/// A sync whose process finished succeeds just if its exit code is 0, whatever
/// it printed. Else the error is what it printed, without outer white space.
pub proof fn law_sync_succeeds_only_with_exit_code_zero(exit_code: Option<i32>, stderr: Seq<char>)
    ensures
        sync_outcome(exit_code, stderr) is Ok <==> exit_code == Some(0i32),
        exit_code != Some(0i32) ==> sync_outcome(exit_code, stderr) == Err::<(), Seq<char>>(
            text::trimmed(stderr),
        ),
{
}

/// The value of a sync result tells success from failure, and the message.
pub proof fn law_sync_value(res: Result<(), String>)
    ensures
        res is Ok <==> sync_view(res) is Ok,
        res matches Err(message) ==> sync_view(res) == Err::<(), Seq<char>>(message@),
{
}

} // verus!
