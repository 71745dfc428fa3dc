use pacsea::process::{CommandOutput, SpawnFailure, SpawnFailureKind};
use pacsea::temp_db::{
    next_temp_db_step, parse_uid, sync_command, sync_result, sync_text_result, temp_db_path,
    TempDbStep,
};
use pacsea::updates_helpers::{
    classify_pacman_stderr_for_update_check, next_helper_step, HelperStep, UpdateCheckPayload,
    REASON_ALPM_SANDBOX_FAILURE, REASON_LANDLOCK_SANDBOX_FAILURE, REASON_PERMISSION_DENIED,
};

#[test]
fn classify_stderr_detects_landlock() {
    let msg = "Fehler: restricting filesystem access failed because the Landlock ruleset could not be applied";
    let v = classify_pacman_stderr_for_update_check(msg);
    assert!(v.iter().any(|s| s == REASON_LANDLOCK_SANDBOX_FAILURE));
}

#[test]
fn classify_stderr_detects_alpm_sandbox() {
    let msg = "Fehler: switching to sandbox user 'alpm' failed!";
    let v = classify_pacman_stderr_for_update_check(msg);
    assert!(v.iter().any(|s| s == REASON_ALPM_SANDBOX_FAILURE));
}

#[test]
fn classify_stderr_detects_german_permission_denied() {
    let msg = "Die Operation ist nicht erlaubt";
    let v = classify_pacman_stderr_for_update_check(msg);
    assert!(v.iter().any(|s| s == REASON_PERMISSION_DENIED));
}

#[test]
fn classify_gives_all_reasons_in_order() {
    let msg = "LANDLOCK\nALPM SandBox\nOperation NOT permitted";
    assert_eq!(
        classify_pacman_stderr_for_update_check(msg),
        vec![
            "landlock_sandbox_failure",
            "alpm_sandbox_failure",
            "permission_denied"
        ]
    );
    assert_eq!(
        classify_pacman_stderr_for_update_check(msg),
        classify_pacman_stderr_for_update_check(&msg.to_ascii_lowercase())
    );
}

#[test]
fn classify_needs_both_words_for_the_sandbox_user() {
    let none: Vec<String> = Vec::new();
    assert_eq!(classify_pacman_stderr_for_update_check(""), none);
    assert_eq!(classify_pacman_stderr_for_update_check("alpm"), none);
    assert_eq!(classify_pacman_stderr_for_update_check("sandbox"), none);
    // Only ASCII letters change case: this ends with the Kelvin sign.
    assert_eq!(
        classify_pacman_stderr_for_update_check("landloc\u{212a}"),
        none
    );
}

#[test]
fn worker_panic_has_no_updates() {
    let payload = UpdateCheckPayload::worker_panic();
    assert_eq!(payload.count, 0);
    assert!(payload.package_names.is_empty());
    assert!(!payload.authoritative);
    assert_eq!(payload.reason_codes, vec!["worker_panic"]);
    assert_eq!(payload.official_strategy, "none");
}

#[test]
fn helper_steps_prefer_paru() {
    assert!(matches!(
        next_helper_step(None, None),
        HelperStep::Probe("paru")
    ));
    assert!(matches!(
        next_helper_step(Some(true), None),
        HelperStep::Finished(true, false, "paru")
    ));
    assert!(matches!(
        next_helper_step(Some(true), Some(true)),
        HelperStep::Finished(true, false, "paru")
    ));
    assert!(matches!(
        next_helper_step(Some(false), None),
        HelperStep::Probe("yay")
    ));
    assert!(matches!(
        next_helper_step(Some(false), Some(true)),
        HelperStep::Finished(false, true, "yay")
    ));
    assert!(matches!(
        next_helper_step(Some(false), Some(false)),
        HelperStep::Finished(false, false, "yay")
    ));
}

#[test]
fn uid_is_the_first_value_on_the_line() {
    let status = "Name:\tcat\nUmask:\t0022\nUid:\t1000\t1001\t1002\t1003\nGid:\t5\t5\t5\t5\n";
    assert_eq!(parse_uid(status), Some(1000));
    assert_eq!(parse_uid("Uid:\t0\t0\t0\t0"), Some(0));
    assert_eq!(parse_uid("Uid:\t4294967295\t0\t0\t0\r\n"), Some(4294967295));
}

#[test]
fn uid_is_missing_without_a_readable_line() {
    assert_eq!(parse_uid(""), None);
    assert_eq!(parse_uid("Name:\tcat\n"), None);
    assert_eq!(parse_uid(" Uid:\t7\n"), None);
    assert_eq!(parse_uid("Uid:\t4294967296\n"), None);
    assert_eq!(parse_uid("Uid:\t-1\n"), None);
    assert_eq!(parse_uid("Uid:\tx\nUid:\t7\n"), None);
    // A line without values is passed over.
    assert_eq!(parse_uid("Uid:\nUid:\t7\n"), Some(7));
}

#[test]
fn temp_db_paths_differ_by_user() {
    assert_eq!(temp_db_path(0), "/tmp/pacsea-db-0");
    assert_eq!(temp_db_path(1000), "/tmp/pacsea-db-1000");
    assert_ne!(temp_db_path(1), temp_db_path(10));
}

#[test]
fn temp_db_steps_run_to_the_end() {
    let uid = Some(1000);
    match next_temp_db_step(uid, None, None, None) {
        TempDbStep::CreateDir(dir) => assert_eq!(dir, "/tmp/pacsea-db-1000"),
        other => panic!("expected CreateDir, got {other:?}"),
    }
    match next_temp_db_step(uid, Some(true), None, None) {
        TempDbStep::CheckLink(link) => assert_eq!(link, "/tmp/pacsea-db-1000/local"),
        other => panic!("expected CheckLink, got {other:?}"),
    }
    match next_temp_db_step(uid, Some(true), Some(false), None) {
        TempDbStep::MakeLink(target, link) => {
            assert_eq!(target, "/var/lib/pacman/local");
            assert_eq!(link, "/tmp/pacsea-db-1000/local");
        }
        other => panic!("expected MakeLink, got {other:?}"),
    }
    for (present, made) in [(true, None), (false, Some(true))] {
        match next_temp_db_step(uid, Some(true), Some(present), made) {
            TempDbStep::Finished(Some(dir)) => assert_eq!(dir, "/tmp/pacsea-db-1000"),
            other => panic!("expected a directory, got {other:?}"),
        }
    }
}

#[test]
fn temp_db_set_up_can_be_repeated() {
    let finished = |present: bool, made: Option<bool>| {
        match next_temp_db_step(Some(1000), Some(true), Some(present), made) {
            TempDbStep::Finished(dir) => dir,
            other => panic!("expected Finished, got {other:?}"),
        }
    };
    let first = finished(false, Some(true));
    assert_eq!(first, Some("/tmp/pacsea-db-1000".to_string()));
    assert_eq!(finished(true, None), first);
}

#[test]
fn temp_db_steps_stop_at_a_failure() {
    assert!(matches!(
        next_temp_db_step(None, None, None, None),
        TempDbStep::Finished(None)
    ));
    assert!(matches!(
        next_temp_db_step(Some(1), Some(false), None, None),
        TempDbStep::Finished(None)
    ));
    assert!(matches!(
        next_temp_db_step(Some(1), Some(true), Some(false), Some(false)),
        TempDbStep::Finished(None)
    ));
}

#[test]
fn sync_runs_pacman_under_fakeroot() {
    let command = sync_command();
    assert_eq!(command.program, "fakeroot");
    assert_eq!(command.leading, vec!["--", "pacman", "-Sy", "--dbpath"]);
    assert_eq!(command.trailing, vec!["--logfile", "/dev/null"]);
}

#[test]
fn sync_reports_what_was_printed() {
    let output = |exit_code: Option<i32>, stderr: &[u8]| {
        Ok(CommandOutput {
            exit_code,
            stdout: Vec::new(),
            stderr: stderr.to_vec(),
        })
    };
    assert_eq!(sync_result(output(Some(0), b"warning")), Ok(()));
    assert_eq!(
        sync_result(output(Some(1), b" error: no \xff sync\n")),
        Err("error: no \u{fffd} sync".to_string())
    );
    assert_eq!(sync_result(output(None, b"")), Err(String::new()));
    assert_eq!(
        sync_result(Err(SpawnFailure {
            kind: SpawnFailureKind::NotFound,
            message: "no such file".to_string(),
        })),
        Err("no such file".to_string())
    );
    assert_eq!(
        sync_text_result(Some(2), "\tdenied "),
        Err("denied".to_string())
    );
}
