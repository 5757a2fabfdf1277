use vrchat_x3d_start_fix::config::{AppConfig, CpuCoverage, Language, Profile};
use vrchat_x3d_start_fix::supervisor::SupervisorCommand;
use vrchat_x3d_start_fix::tray::{
    config_line, duration_label, duty_label, entry_checked, labelled, menu_command,
    version_line, AutoStartPhase, AutostartItem, AutostartOperation, MenuEntry,
};

#[test]
fn autostart_item_runs_one_operation_at_a_time() {
    let mut item = AutostartItem::new();
    assert_eq!(item.phase, AutoStartPhase::Checking);
    assert!(!item.checked());
    assert!(item.begin(AutostartOperation::Query));
    assert!(item.in_flight);
    assert!(!item.begin(AutostartOperation::Change(true)));
    assert_eq!(item.phase, AutoStartPhase::Checking);
    assert_eq!(item.clicked(), None);

    item.finished(Some(true), false);
    assert_eq!(item.phase, AutoStartPhase::Ready);
    assert!(item.checked());
    assert!(!item.in_flight);

    assert_eq!(item.clicked(), Some(false));
    assert_eq!(item.phase, AutoStartPhase::Applying);
    assert!(item.in_flight);
    assert!(item.checked());

    item.finished(Some(true), true);
    assert_eq!(item.phase, AutoStartPhase::Failed);
    assert!(item.checked());

    item.worker_lost();
    assert_eq!(item.verified, None);
    assert_eq!(item.phase, AutoStartPhase::Failed);
    assert_eq!(item.clicked(), Some(true));

    item.spawn_failed();
    assert_eq!(item.phase, AutoStartPhase::Failed);
    assert!(!item.in_flight);
}

#[test]
fn menu_entries_send_commands() {
    assert_eq!(menu_command(MenuEntry::Exit), Some(SupervisorCommand::Shutdown));
    assert_eq!(menu_command(MenuEntry::Autostart), None);
    assert_eq!(menu_command(MenuEntry::OpenLogs), Some(SupervisorCommand::OpenLogFolder));
    assert_eq!(menu_command(MenuEntry::Reset), Some(SupervisorCommand::ResetDefaults));
    assert_eq!(
        menu_command(MenuEntry::Language(Language::ZhCn)),
        Some(SupervisorCommand::SetLanguage(Language::ZhCn))
    );
    assert_eq!(
        menu_command(MenuEntry::Profile(Profile::Gentle)),
        Some(SupervisorCommand::SelectProfile(Profile::Gentle))
    );
    assert_eq!(menu_command(MenuEntry::Duty(35)), Some(SupervisorCommand::SetDuty(35)));
    assert_eq!(menu_command(MenuEntry::Duration(45)), Some(SupervisorCommand::SetDuration(45)));
    assert_eq!(
        menu_command(MenuEntry::Coverage(CpuCoverage::Unpinned)),
        Some(SupervisorCommand::SetCoverage(CpuCoverage::Unpinned))
    );
}

#[test]
fn check_marks_follow_the_configuration() {
    let config = AppConfig::default();
    let params = config.resolved_params();
    assert!(entry_checked(MenuEntry::Profile(Profile::Robust), &config, Language::En));
    assert!(!entry_checked(MenuEntry::Profile(Profile::Gentle), &config, Language::En));
    assert!(entry_checked(MenuEntry::Duty(params.duty_percent), &config, Language::En));
    assert!(entry_checked(MenuEntry::Duration(60), &config, Language::En));
    assert!(!entry_checked(MenuEntry::Duration(90), &config, Language::En));
    assert!(entry_checked(MenuEntry::Coverage(params.coverage), &config, Language::En));
    assert!(entry_checked(MenuEntry::Language(Language::ZhCn), &config, Language::ZhCn));
    assert!(!entry_checked(MenuEntry::Language(Language::En), &config, Language::ZhCn));
    assert!(!entry_checked(MenuEntry::Exit, &config, Language::En));
}

#[test]
fn menu_labels() {
    assert_eq!(duty_label(25), "25%");
    assert_eq!(duration_label(60, "s"), "60 s");
    assert_eq!(labelled("Status", "Waiting"), "Status: Waiting");
    assert_eq!(version_line("Version", "0.1.0"), "Version: v0.1.0");
    let params = Profile::Robust.params();
    assert_eq!(
        config_line("Config", "Robust", &params, "s"),
        format!("Config: Robust / CPU {}% / 60 s", params.duty_percent)
    );
}
