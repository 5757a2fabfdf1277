use std::collections::HashSet;

use vrchat_x3d_start_fix::lifecycle::TriggerSource;
use vrchat_x3d_start_fix::monitor::{
    find_named_associated, find_trigger, find_vrchat, has_associated_werfault, is_name, logical_processor_count,
    physical_core_count, vrchat_pids, ProcessEntry,
};
use vrchat_x3d_start_fix::platform::{is_fatal_gc_text, wide, WindowScan};

fn entry(pid: u32, name: &str, exe: Option<&str>, cmd: &[&str]) -> ProcessEntry {
    ProcessEntry {
        pid,
        name: name.to_string(),
        exe: exe.map(str::to_string),
        cmd: cmd.iter().map(|part| part.to_string()).collect(),
        run_time_secs: 3,
        dead: false,
    }
}

fn scan() -> Vec<ProcessEntry> {
    vec![
        entry(10, "explorer.exe", Some(r"C:\Windows\explorer.exe"), &[]),
        entry(20, "VRChat.exe", Some(r"D:\Steam\VRChat\VRChat.exe"), &[]),
        entry(30, "EasyAntiCheat_EOS.exe", Some(r"C:\EAC\EasyAntiCheat_EOS.exe"), &["--game", "VRChat"]),
        entry(40, "WerFault.exe", Some(r"C:\Windows\WerFault.exe"), &["-u", "-p", "20"]),
    ]
}

#[test]
fn names_match_ignoring_ascii_case() {
    assert!(is_name(&scan()[1], "vrchat.exe"));
    assert!(!is_name(&scan()[0], "vrchat.exe"));
}

#[test]
fn vrchat_selection_skips_ignored_pids() {
    let processes = scan();
    assert_eq!(find_vrchat(&processes, &HashSet::new()), Some(1));
    assert_eq!(find_vrchat(&processes, &HashSet::from([20])), None);
    assert_eq!(vrchat_pids(&processes), HashSet::from([20]));
}

#[test]
fn trigger_priority_launcher_then_eac_then_vrchat() {
    let mut processes = scan();
    let eac = find_trigger(&processes, &HashSet::new()).unwrap();
    assert_eq!(eac.trigger.source, TriggerSource::EasyAntiCheat);
    assert_eq!(eac.trigger.source_pid, 30);
    assert_eq!(eac.vrchat, Some(1));
    assert_eq!(find_named_associated(&processes, "easyanticheat_eos.exe", &HashSet::new(), true), None);
    processes.push(entry(50, "start_protected_game.exe", Some(r"D:\Steam\VRChat\start_protected_game.exe"), &[]));
    let launcher = find_trigger(&processes, &HashSet::new()).unwrap();
    assert_eq!(launcher.trigger.source, TriggerSource::ProtectedLauncher);
    assert_eq!(launcher.trigger.path.as_deref(), Some(r"D:\Steam\VRChat\start_protected_game.exe"));
    let only_vrchat = find_trigger(&processes, &HashSet::from([30, 50])).unwrap();
    assert_eq!(only_vrchat.trigger.source, TriggerSource::VrchatProcess);
    assert_eq!(only_vrchat.trigger.source_pid, 20);
    assert!(find_trigger(&processes, &HashSet::from([20, 30, 50])).is_none());
}

#[test]
fn werfault_detection_by_pid_in_command_line() {
    let processes = scan();
    assert!(has_associated_werfault(&processes, 20));
    assert!(has_associated_werfault(&processes, 2));
    assert!(!has_associated_werfault(&processes, 21));
}

#[test]
fn core_counts_are_at_least_one() {
    assert_eq!(physical_core_count(Some(8), 16), 8);
    assert_eq!(physical_core_count(None, 16), 16);
    assert_eq!(physical_core_count(Some(0), 0), 1);
    assert_eq!(logical_processor_count(0), 1);
    assert_eq!(logical_processor_count(12), 12);
}

#[test]
fn fatal_gc_texts() {
    assert!(is_fatal_gc_text("Fatal Error in GC: SuspendThread Loop failed"));
    assert!(is_fatal_gc_text("SUSPENDTHREAD LOOP FAILED"));
    assert!(is_fatal_gc_text("fatal: gc could not suspendthread"));
    assert!(!is_fatal_gc_text("VRChat"));
    assert!(!is_fatal_gc_text("fatal gc"));
}

#[test]
fn wide_strings_are_nul_terminated_utf16() {
    assert_eq!(wide("A"), vec![65, 0]);
    assert_eq!(wide("中𝄞"), vec![0x4e2d, 0xd834, 0xdd1e, 0]);
    assert_eq!(wide(""), vec![0]);
}

#[test]
fn window_scan_keeps_the_first_crash_text_and_limits_child_reads() {
    let mut scan = WindowScan::new();
    assert!(scan.wants_caption());
    scan.visible_top_level(false);
    scan.text_read("VRChat".to_string());
    assert!(scan.wants_caption());
    for _ in 0..16 {
        assert!(scan.take_child_text_read());
    }
    assert!(!scan.take_child_text_read());
    scan.text_read("Fatal Error in GC: SuspendThread Loop failed".to_string());
    scan.text_read("fatal error in gc (second dialog)".to_string());
    assert!(!scan.wants_caption());
    let found = scan.finish();
    assert!(found.visible_top_level);
    assert!(found.hung_top_level);
    assert_eq!(
        found.fatal_text.as_deref(),
        Some("Fatal Error in GC: SuspendThread Loop failed")
    );

    let mut responsive = WindowScan::new();
    responsive.visible_top_level(false);
    responsive.visible_top_level(true);
    let found = responsive.finish();
    assert!(found.visible_top_level && !found.hung_top_level);
    assert!(!WindowScan::new().finish().hung_top_level);
}
