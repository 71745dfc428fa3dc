//! Helpers of the background package update check.

use vstd::prelude::*;

use crate::split;
use crate::text;

verus! {

// ---------------------------------------------------------------------------
// AUR helper
// ---------------------------------------------------------------------------

/// Next step in finding out which AUR helper there is.
#[derive(Clone, Copy, Debug)]
pub enum HelperStep {
    /// Find out whether this program can be started.
    Probe(&'static str),
    /// Done: whether there is `paru`, whether there is `yay`, and which of the
    /// two to use.
    Finished(bool, bool, &'static str),
}

/// The next step, given what is known of `paru` and of `yay` so far.
///
/// `paru` comes first, and `yay` is only asked for where there is no `paru`.
pub fn next_helper_step(paru: Option<bool>, yay: Option<bool>) -> (res: HelperStep)
    ensures
        match (paru, yay) {
            (None, _) => res matches HelperStep::Probe(program) && program@ == "paru"@,
            (Some(true), _) => res matches HelperStep::Finished(has_paru, has_yay, helper)
                && has_paru && !has_yay && helper@ == "paru"@,
            (Some(false), None) => res matches HelperStep::Probe(program) && program@ == "yay"@,
            (Some(false), Some(found)) => res matches HelperStep::Finished(
                has_paru,
                has_yay,
                helper,
            ) && !has_paru && has_yay == found && helper@ == "yay"@,
        },
{
    match paru {
        None => HelperStep::Probe("paru"),
        Some(true) => HelperStep::Finished(true, false, "paru"),
        Some(false) => match yay {
            None => HelperStep::Probe("yay"),
            Some(found) => HelperStep::Finished(false, found, "yay"),
        },
    }
}

// ---------------------------------------------------------------------------
// Result of the check
// ---------------------------------------------------------------------------

/// `a` comes before `b` in the order of their characters.
pub open spec fn comes_before(a: Seq<char>, b: Seq<char>) -> bool
    decreases a.len(),
{
    if a.len() == 0 || b.len() == 0 {
        a.len() < b.len()
    } else {
        a[0] < b[0] || (a[0] == b[0] && comes_before(a.drop_first(), b.drop_first()))
    }
}

/// What the background update check found.
#[derive(Debug, Clone)]
pub struct UpdateCheckPayload {
    /// Number of names in `package_names`.
    pub count: usize,
    /// Names of the packages with updates, sorted and without duplicates.
    pub package_names: Vec<String>,
    /// Whether the list of the official repositories came from a synced
    /// database.
    pub authoritative: bool,
    /// Reason codes of the steps that failed, in order.
    pub reason_codes: Vec<String>,
    /// How the list of the official repositories was obtained.
    pub official_strategy: &'static str,
}

impl UpdateCheckPayload {
    /// The names are sorted and without duplicates, and they are counted.
    pub open spec fn well_formed(self) -> bool {
        let names = split::views(self.package_names@);
        &&& self.count == names.len()
        &&& forall|i: int, j: int|
            0 <= i < j < names.len() ==> comes_before(#[trigger] names[i], #[trigger] names[j])
    }

    /// The result when the worker panicked: no updates, not authoritative, and
    /// `worker_panic` as the reason.
    pub fn worker_panic() -> (res: Self)
        ensures
            res.well_formed(),
            res.count == 0,
            res.package_names@.len() == 0,
            !res.authoritative,
            split::views(res.reason_codes@) == seq!["worker_panic"@],
            res.official_strategy@ == "none"@,
    {
        let mut reason_codes: Vec<String> = Vec::new();
        reason_codes.push("worker_panic".to_owned());
        assert(split::views(reason_codes@) =~= seq!["worker_panic"@]);
        UpdateCheckPayload {
            count: 0,
            package_names: Vec::new(),
            authoritative: false,
            reason_codes,
            official_strategy: "none",
        }
    }
}

// ---------------------------------------------------------------------------
// Reason codes
// ---------------------------------------------------------------------------

/// The sandbox of pacman could not apply its Landlock rules.
pub const REASON_LANDLOCK_SANDBOX_FAILURE: &'static str = "landlock_sandbox_failure";

/// Switching to the sandbox user `alpm` failed.
pub const REASON_ALPM_SANDBOX_FAILURE: &'static str = "alpm_sandbox_failure";

/// An operation was not permitted.
pub const REASON_PERMISSION_DENIED: &'static str = "permission_denied";

/// Syncing the temporary database failed.
pub const REASON_TEMP_DB_SYNC_FAILED: &'static str = "temp_db_sync_failed";

/// `checkupdates` failed.
pub const REASON_CHECKUPDATES_FAILED: &'static str = "checkupdates_failed";

/// The system database was used without a fresh sync.
pub const REASON_STALE_DB_FALLBACK: &'static str = "stale_db_fallback";

/// There is no `fakeroot`, so the temporary database was not synced.
pub const REASON_FAKEROOT_UNAVAILABLE: &'static str = "fakeroot_unavailable";

/// There is no `checkupdates`.
pub const REASON_CHECKUPDATES_UNAVAILABLE: &'static str = "checkupdates_unavailable";

/// `reason` alone if `applies`, else nothing.
pub open spec fn reason_if(applies: bool, reason: Seq<char>) -> Seq<Seq<char>> {
    if applies {
        seq![reason]
    } else {
        seq![]
    }
}

/// The reason codes that pacman's error output gives, in order. Letter case
/// makes no difference for the letters of ASCII.
pub open spec fn pacman_reasons(stderr: Seq<char>) -> Seq<Seq<char>> {
    let lower = text::ascii_lowered(stderr);
    reason_if(text::occurs("landlock"@, lower), REASON_LANDLOCK_SANDBOX_FAILURE@) + reason_if(
        text::occurs("alpm"@, lower) && text::occurs("sandbox"@, lower),
        REASON_ALPM_SANDBOX_FAILURE@,
    ) + reason_if(
        text::occurs("operation not permitted"@, lower) || text::occurs(
            "die operation ist nicht erlaubt"@,
            lower,
        ),
        REASON_PERMISSION_DENIED@,
    )
}

/// The reason codes that pacman's error output gives, in order.
pub fn classify_pacman_stderr_for_update_check(stderr: &str) -> (res: Vec<String>)
    ensures
        split::views(res@) == pacman_reasons(stderr@),
{
    let lower = text::ascii_lowercase_chars(stderr);
    let mut out: Vec<String> = Vec::new();
    if text::contains_chars(&lower, &text::chars_of("landlock")) {
        out.push(REASON_LANDLOCK_SANDBOX_FAILURE.to_owned());
    }
    if text::contains_chars(&lower, &text::chars_of("alpm")) && text::contains_chars(
        &lower,
        &text::chars_of("sandbox"),
    ) {
        out.push(REASON_ALPM_SANDBOX_FAILURE.to_owned());
    }
    if text::contains_chars(&lower, &text::chars_of("operation not permitted"))
        || text::contains_chars(&lower, &text::chars_of("die operation ist nicht erlaubt")) {
        out.push(REASON_PERMISSION_DENIED.to_owned());
    }
    assert(split::views(out@) =~= pacman_reasons(stderr@));
    out
}

/// The reason codes do not depend on the case of ASCII letters.
pub proof fn law_reasons_ignore_ascii_case(a: Seq<char>, b: Seq<char>)
    requires
        text::ascii_lowered(a) == text::ascii_lowered(b),
    ensures
        pacman_reasons(a) == pacman_reasons(b),
{
}

/// No reason code is given twice.
pub proof fn law_reasons_are_distinct(stderr: Seq<char>)
    ensures
        pacman_reasons(stderr).no_duplicates(),
{
    reveal_strlit("landlock_sandbox_failure");
    reveal_strlit("alpm_sandbox_failure");
    reveal_strlit("permission_denied");
    assert(REASON_LANDLOCK_SANDBOX_FAILURE@.len() != REASON_ALPM_SANDBOX_FAILURE@.len());
    assert(REASON_LANDLOCK_SANDBOX_FAILURE@.len() != REASON_PERMISSION_DENIED@.len());
    assert(REASON_ALPM_SANDBOX_FAILURE@.len() != REASON_PERMISSION_DENIED@.len());
}

/// Each reason code is given just for its own words, in any case of ASCII
/// letters and whatever else the output holds, and there is no other code.
pub proof fn law_each_reason_has_its_words(stderr: Seq<char>, reason: Seq<char>)
    ensures
        pacman_reasons(stderr).contains("landlock_sandbox_failure"@) <==> text::occurs(
            "landlock"@,
            text::ascii_lowered(stderr),
        ),
        pacman_reasons(stderr).contains("alpm_sandbox_failure"@) <==> text::occurs(
            "alpm"@,
            text::ascii_lowered(stderr),
        ) && text::occurs("sandbox"@, text::ascii_lowered(stderr)),
        pacman_reasons(stderr).contains("permission_denied"@) <==> text::occurs(
            "operation not permitted"@,
            text::ascii_lowered(stderr),
        ) || text::occurs("die operation ist nicht erlaubt"@, text::ascii_lowered(stderr)),
        pacman_reasons(stderr).contains(reason) ==> reason == "landlock_sandbox_failure"@ || reason
            == "alpm_sandbox_failure"@ || reason == "permission_denied"@,
{
    lemma_reasons_differ();
    let lower = text::ascii_lowered(stderr);
    let first = reason_if(text::occurs("landlock"@, lower), "landlock_sandbox_failure"@);
    let second = reason_if(
        text::occurs("alpm"@, lower) && text::occurs("sandbox"@, lower),
        "alpm_sandbox_failure"@,
    );
    let third = reason_if(
        text::occurs("operation not permitted"@, lower) || text::occurs(
            "die operation ist nicht erlaubt"@,
            lower,
        ),
        "permission_denied"@,
    );
    let all = pacman_reasons(stderr);
    assert(all =~= first + second + third);
    if first.len() > 0 {
        assert(all[0] == "landlock_sandbox_failure"@);
    }
    if second.len() > 0 {
        assert(all[first.len() as int] == "alpm_sandbox_failure"@);
    }
    if third.len() > 0 {
        assert(all[(first.len() + second.len()) as int] == "permission_denied"@);
    }
}

proof fn lemma_reasons_differ()
    ensures
        "landlock_sandbox_failure"@ != "alpm_sandbox_failure"@,
        "landlock_sandbox_failure"@ != "permission_denied"@,
        "alpm_sandbox_failure"@ != "permission_denied"@,
{
    reveal_strlit("landlock_sandbox_failure");
    reveal_strlit("alpm_sandbox_failure");
    reveal_strlit("permission_denied");
    assert("landlock_sandbox_failure"@.len() == 24);
    assert("alpm_sandbox_failure"@.len() == 20);
    assert("permission_denied"@.len() == 17);
}

/// The reason codes come in one order: Landlock, then the sandbox user, then
/// permissions.
pub proof fn law_reasons_come_in_order(stderr: Seq<char>, i: int, j: int)
    requires
        0 <= i < j < pacman_reasons(stderr).len(),
    ensures
        pacman_reasons(stderr)[i] == "landlock_sandbox_failure"@ || pacman_reasons(stderr)[j]
            == "permission_denied"@,
        pacman_reasons(stderr)[i] != "permission_denied"@,
        pacman_reasons(stderr)[j] != "landlock_sandbox_failure"@,
{
    lemma_reasons_differ();
}

/// The reason codes that the update check exchanges.
pub proof fn law_reason_code_texts()
    ensures
        REASON_LANDLOCK_SANDBOX_FAILURE@ == "landlock_sandbox_failure"@,
        REASON_ALPM_SANDBOX_FAILURE@ == "alpm_sandbox_failure"@,
        REASON_PERMISSION_DENIED@ == "permission_denied"@,
        REASON_TEMP_DB_SYNC_FAILED@ == "temp_db_sync_failed"@,
        REASON_CHECKUPDATES_FAILED@ == "checkupdates_failed"@,
        REASON_STALE_DB_FALLBACK@ == "stale_db_fallback"@,
        REASON_FAKEROOT_UNAVAILABLE@ == "fakeroot_unavailable"@,
        REASON_CHECKUPDATES_UNAVAILABLE@ == "checkupdates_unavailable"@,
{
}

/// The order of names: nothing comes before itself, a text comes before what it
/// is a proper beginning of, and else the first character that differs decides.
pub proof fn law_order_of_names(p: Seq<char>, x: char, y: char, a: Seq<char>, b: Seq<char>)
    ensures
        !comes_before(p, p),
        comes_before(p, p + seq![x] + a),
        !comes_before(p + seq![x] + a, p),
        x != y ==> (comes_before(p + seq![x] + a, p + seq![y] + b) <==> x < y),
    decreases p.len(),
{
    let left = p + seq![x] + a;
    let right = p + seq![y] + b;
    if p.len() == 0 {
        assert(left[0] == x);
        assert(right[0] == y);
    } else {
        let q = p.drop_first();
        law_order_of_names(q, x, y, a, b);
        assert(left.drop_first() =~= q + seq![x] + a);
        assert(right.drop_first() =~= q + seq![y] + b);
        assert(left[0] == p[0]);
        assert(right[0] == p[0]);
    }
}

/// A payload that is well formed counts its names and holds none twice.
pub proof fn law_payload_names_are_distinct(payload: UpdateCheckPayload)
    requires
        payload.well_formed(),
    ensures
        payload.count == payload.package_names@.len(),
        split::views(payload.package_names@).no_duplicates(),
{
    let names = split::views(payload.package_names@);
    assert forall|i: int, j: int| 0 <= i < j < names.len() implies names[i] != names[j] by {
        law_order_of_names(names[i], 'a', 'a', seq![], seq![]);
        assert(comes_before(names[i], names[j]));
    }
}

} // verus!
