use vrchat_x3d_start_fix::autostart::{
    after_change, change_failed, identity_matches, normalize_windows_path, observe_stable_state,
    first_task_check, inspection_step, task_name_for_sid, unquoted_path, verify_stable_state,
    windows_paths_textually_equal, ChangeOutcome, ChangeStep, TaskCheck, TaskState, UpdateResult,
    UserIdentity,
};

#[test]
fn per_user_task_names_are_stable_and_distinct() {
    assert_eq!(
        task_name_for_sid("S-1-5-21-123-1001"),
        task_name_for_sid("s-1-5-21-123-1001")
    );
    assert_ne!(
        task_name_for_sid("S-1-5-21-123-1001"),
        task_name_for_sid("S-1-5-21-123-1002")
    );
}

fn fnv_reference(sid: &str) -> String {
    let mut hash = 0xcbf29ce484222325u64;
    for unit in sid.to_uppercase().encode_utf16() {
        for byte in unit.to_le_bytes() {
            hash ^= u64::from(byte);
            hash = hash.wrapping_mul(0x100000001b3);
        }
    }
    format!("VRChatX3DStartFix-AutoStart-{hash:016x}")
}

#[test]
fn task_name_is_prefix_and_padded_fnv_hex() {
    for sid in ["S-1-5-21-123-1001", "", "s-1-ä-𝄞"] {
        assert_eq!(task_name_for_sid(sid), fnv_reference(sid));
    }
    assert_eq!(task_name_for_sid(""), "VRChatX3DStartFix-AutoStart-cbf29ce484222325");
}

#[test]
fn windows_path_comparison_is_case_and_separator_insensitive() {
    assert!(windows_paths_textually_equal(
        r"C:\Tools\VRChatFix.exe",
        "c:/tools/vrchatfix.exe"
    ));
    assert!(windows_paths_textually_equal(
        r"\\?\C:\Tools\VRChatFix.exe",
        r"C:\Tools\VRChatFix.exe"
    ));
    assert!(!windows_paths_textually_equal(
        r"C:\Tools\v1\VRChatFix.exe",
        r"C:\Tools\v2\VRChatFix.exe"
    ));
}

#[test]
fn path_normalization() {
    assert_eq!(normalize_windows_path(r"C:\Tools\\"), r"c:\tools");
    assert_eq!(normalize_windows_path("C:/A/"), r"c:\a");
    assert_eq!(normalize_windows_path(r"\\?\D:\X"), r"d:\x");
    assert_eq!(normalize_windows_path(""), "");
}

fn identity() -> UserIdentity {
    UserIdentity { account: r"PC\Alice".to_string(), sid: "S-1-5-21-1".to_string() }
}

#[test]
fn identity_matching() {
    assert!(identity_matches("s-1-5-21-1", &identity(), None));
    assert!(identity_matches(r"pc\alice", &identity(), None));
    assert!(!identity_matches("Bob", &identity(), None));
    assert!(identity_matches("Alice", &identity(), Some("S-1-5-21-1")));
    assert!(!identity_matches("Bob", &identity(), Some("S-1-5-21-2")));
}

fn ok(values: &[bool]) -> Vec<Result<bool, String>> {
    values.iter().map(|v| Ok(*v)).collect()
}

#[test]
fn change_is_confirmed_only_by_three_trailing_reads() {
    let confirmed = verify_stable_state(true, &ok(&[false, false, false, true, true, true]));
    assert_eq!(confirmed, UpdateResult { enabled_for_current_executable: Some(true), error: None });
    let flapping = verify_stable_state(true, &ok(&[true, true, true, true, false, true]));
    assert_eq!(flapping.enabled_for_current_executable, None);
    assert_eq!(
        flapping.error.as_deref(),
        Some("verification failed: state did not remain stable: requested true, last actual Some(true)")
    );
    let reverted = verify_stable_state(true, &ok(&[true, true, true, true, true, false]));
    assert_eq!(reverted.enabled_for_current_executable, Some(false));
    assert_eq!(
        reverted.error.as_deref(),
        Some("verification failed: state did not remain stable: requested true, last actual Some(false)")
    );
    let mut reads = ok(&[false, false, false, false, false]);
    reads.push(Err("access denied".to_string()));
    let failed = verify_stable_state(false, &reads);
    assert_eq!(failed.enabled_for_current_executable, None);
    assert_eq!(failed.error.as_deref(), Some("verification failed: access denied"));
    let empty = verify_stable_state(false, &Vec::new());
    assert_eq!(
        empty.error.as_deref(),
        Some("verification failed: state did not remain stable: requested false, last actual None")
    );
}

#[test]
fn initial_state_needs_three_agreeing_reads() {
    let stable = observe_stable_state(&ok(&[true, false, true, false, false, false]));
    assert_eq!(stable, UpdateResult { enabled_for_current_executable: Some(false), error: None });
    let unstable = observe_stable_state(&ok(&[true, true, true, true, false, true]));
    assert_eq!(unstable.enabled_for_current_executable, None);
    assert_eq!(unstable.error.as_deref(), Some("initial state did not stabilize: last actual Some(true)"));
    let mut reads = ok(&[true, true, true, true, true]);
    reads.push(Err("offline".to_string()));
    let errored = observe_stable_state(&reads);
    assert_eq!(errored.error.as_deref(), Some("initial state did not stabilize: offline"));
}

#[test]
fn change_steps() {
    assert!(matches!(after_change(ChangeOutcome::Applied), ChangeStep::Verify));
    match after_change(ChangeOutcome::ExecutableMissing) {
        ChangeStep::Finished(result) => {
            assert_eq!(result, UpdateResult { enabled_for_current_executable: Some(false), error: None })
        }
        _ => panic!("expected a finished step"),
    }
    match after_change(ChangeOutcome::Failed("denied".to_string())) {
        ChangeStep::Requery(message) => assert_eq!(message, "denied"),
        _ => panic!("expected a requery"),
    }
    let failed = change_failed(Some(true), "denied");
    assert_eq!(failed.enabled_for_current_executable, Some(true));
    assert_eq!(failed.error.as_deref(), Some("change failed: denied"));
}

#[test]
fn task_checks_decide_in_order() {
    assert_eq!(first_task_check(), TaskCheck::PrincipalIsUser);
    assert_eq!(inspection_step(TaskCheck::PrincipalIsUser, false), Ok(TaskState::Foreign));
    assert_eq!(inspection_step(TaskCheck::PrincipalIsUser, true), Err(TaskCheck::TaskEnabled));
    assert_eq!(inspection_step(TaskCheck::TaskEnabled, false), Ok(TaskState::InactiveOwned));
    assert_eq!(inspection_step(TaskCheck::TaskEnabled, true), Err(TaskCheck::SingleLogonTrigger));
    assert_eq!(inspection_step(TaskCheck::SingleLogonTrigger, false), Ok(TaskState::StaleOwned));
    assert_eq!(inspection_step(TaskCheck::SingleLogonTrigger, true), Err(TaskCheck::TriggerIsUser));
    assert_eq!(inspection_step(TaskCheck::TriggerIsUser, false), Ok(TaskState::StaleOwned));
    assert_eq!(inspection_step(TaskCheck::TriggerIsUser, true), Err(TaskCheck::SingleAction));
    assert_eq!(inspection_step(TaskCheck::SingleAction, false), Ok(TaskState::StaleOwned));
    assert_eq!(inspection_step(TaskCheck::SingleAction, true), Err(TaskCheck::TargetNamed));
    assert_eq!(inspection_step(TaskCheck::TargetNamed, false), Ok(TaskState::InactiveOwned));
    assert_eq!(inspection_step(TaskCheck::TargetNamed, true), Err(TaskCheck::TargetExists));
    assert_eq!(inspection_step(TaskCheck::TargetExists, false), Ok(TaskState::InactiveOwned));
    assert_eq!(inspection_step(TaskCheck::TargetExists, true), Err(TaskCheck::TargetIsCurrent));
    assert_eq!(inspection_step(TaskCheck::TargetIsCurrent, false), Ok(TaskState::StaleOwned));
    assert_eq!(inspection_step(TaskCheck::TargetIsCurrent, true), Ok(TaskState::Current));
}

fn inspect(results: &[bool]) -> TaskState {
    let mut check = first_task_check();
    let mut i = 0;
    loop {
        match inspection_step(check, results[i]) {
            Ok(state) => return state,
            Err(next) => {
                check = next;
                i += 1;
            }
        }
    }
}

#[test]
fn inspection_stops_at_the_first_failed_check() {
    assert_eq!(inspect(&[true; 8]), TaskState::Current);
    assert_eq!(inspect(&[false, false, false, false, false, false, false, false]), TaskState::Foreign);
    assert_eq!(inspect(&[true, true, true, true, true, false, true, true]), TaskState::InactiveOwned);
    assert_eq!(inspect(&[true, true, false, true, true, true, true, true]), TaskState::StaleOwned);
}

#[test]
fn registered_paths_lose_their_quotes() {
    let quoted: Vec<u16> = "\"C:\\App\\fix.exe\"".encode_utf16().collect();
    let bare: Vec<u16> = "C:\\App\\fix.exe".encode_utf16().collect();
    assert_eq!(unquoted_path(&quoted), Some(bare.clone()));
    assert_eq!(unquoted_path(&bare), Some(bare.clone()));
    let lone: Vec<u16> = "\"".encode_utf16().collect();
    assert_eq!(unquoted_path(&lone), Some(lone.clone()));
    let empty_quotes: Vec<u16> = "\"\"".encode_utf16().collect();
    assert_eq!(unquoted_path(&empty_quotes), None);
    assert_eq!(unquoted_path(&[]), None);
}
