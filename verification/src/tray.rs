//! Presentation decisions of the tray: icons, labels and the autostart item.

use vstd::prelude::*;
use crate::config::{AppConfig, CpuCoverage, DisturbanceParams, Language, Profile, menu_options_are_in_bounds, resolved};
use crate::supervisor::{SupervisorCommand, UiStatus, command_in_bounds, commanded, commands_keep_config_valid};
use crate::supervisor::state::{SupervisorState, supervisor_inv};
use crate::text::{decimal, decimal_text, push_str};

verus! {

/// Which of the three tray icons a status uses.
#[derive(Debug, Clone, Copy, PartialEq, Eq, Structural)]
pub enum StatusIcon {
    Ready,
    Working,
    Attention,
}

/// The icon of each status: busy while detecting or disturbing, attention
/// after a failure or an unknown result, ready otherwise.
pub fn icon_for_status(status: UiStatus) -> (icon: StatusIcon)
    ensures
        icon == match status {
            UiStatus::Detected | UiStatus::Disturbing => StatusIcon::Working,
            UiStatus::Failed | UiStatus::Unknown => StatusIcon::Attention,
            _ => StatusIcon::Ready,
        },
{
    match status {
        UiStatus::Waiting | UiStatus::Success => StatusIcon::Ready,
        UiStatus::Detected | UiStatus::Disturbing => StatusIcon::Working,
        UiStatus::Failed | UiStatus::Unknown => StatusIcon::Attention,
        UiStatus::ShuttingDown | UiStatus::ShutdownComplete => StatusIcon::Ready,
    }
}

/// The name of a language in that language.
pub fn language_label(language: Language) -> (label: &'static str)
    ensures
        label@ == match language {
            Language::ZhCn => "中文"@,
            Language::En => "English"@,
        },
{
    match language {
        Language::ZhCn => "中文",
        Language::En => "English",
    }
}

/// Where the autostart menu item stands.
#[derive(Debug, Clone, Copy, PartialEq, Eq, Structural)]
pub enum AutoStartPhase {
    Checking,
    Ready,
    Applying,
    Failed,
}

/// The label key of the autostart item and whether it can be clicked: it is
/// disabled while a query or change is in flight.
pub fn autostart_item_state(phase: AutoStartPhase) -> (r: (&'static str, bool))
    ensures
        r.0@ == match phase {
            AutoStartPhase::Checking => "menu.autostart_checking"@,
            AutoStartPhase::Applying => "menu.autostart_confirming"@,
            AutoStartPhase::Failed => "menu.autostart_failed"@,
            AutoStartPhase::Ready => "menu.autostart"@,
        },
        r.1 == (phase == AutoStartPhase::Ready || phase == AutoStartPhase::Failed),
{
    match phase {
        AutoStartPhase::Checking => ("menu.autostart_checking", false),
        AutoStartPhase::Applying => ("menu.autostart_confirming", false),
        AutoStartPhase::Failed => ("menu.autostart_failed", true),
        AutoStartPhase::Ready => ("menu.autostart", true),
    }
}

/// The state a click on the autostart item asks for: the opposite of the last
/// verified state, and on when no state was verified.
pub fn desired_autostart(verified: Option<bool>) -> (desired: bool)
    ensures
        desired == !(verified == Some(true)),
{
    match verified {
        Some(enabled) => !enabled,
        None => true,
    }
}

/// The phase after a query or change reports back.
pub fn phase_after_result(has_error: bool) -> (phase: AutoStartPhase)
    ensures
        phase == if has_error { AutoStartPhase::Failed } else { AutoStartPhase::Ready },
{
    if has_error { AutoStartPhase::Failed } else { AutoStartPhase::Ready }
}

/// The autostart menu item: the last verified state, the phase shown, and
/// whether a query or change is running in the background.
#[derive(Debug, Clone, Copy, PartialEq, Eq)]
pub struct AutostartItem {
    pub verified: Option<bool>,
    pub phase: AutoStartPhase,
    pub in_flight: bool,
}

/// A background autostart operation.
#[derive(Debug, Clone, Copy, PartialEq, Eq, Structural)]
pub enum AutostartOperation {
    Query,
    Change(bool),
}

/// The item can only be clicked while no operation runs.
pub open spec fn autostart_item_inv(item: AutostartItem) -> bool {
    item.in_flight ==> (item.phase == AutoStartPhase::Checking || item.phase == AutoStartPhase::Applying)
}

/// The item after asking for `op`: nothing changes while another operation
/// runs.
pub open spec fn begun(item: AutostartItem, op: AutostartOperation) -> AutostartItem {
    if item.in_flight {
        item
    } else {
        AutostartItem {
            phase: match op {
                AutostartOperation::Query => AutoStartPhase::Checking,
                AutostartOperation::Change(_) => AutoStartPhase::Applying,
            },
            in_flight: true,
            ..item
        }
    }
}

impl AutostartItem {
    /// The item before the first query: nothing verified yet.
    pub fn new() -> (item: Self)
        ensures
            item == (AutostartItem { verified: None, phase: AutoStartPhase::Checking, in_flight: false }),
            autostart_item_inv(item),
    {
        AutostartItem { verified: None, phase: AutoStartPhase::Checking, in_flight: false }
    }

    /// Asks for a background operation; returns whether its worker must be
    /// started now. At most one runs at a time.
    pub fn begin(&mut self, op: AutostartOperation) -> (start: bool)
        ensures
            start == !old(self).in_flight,
            *final(self) == begun(*old(self), op),
            autostart_item_inv(*old(self)) ==> autostart_item_inv(*final(self)),
    {
        if self.in_flight {
            return false;
        }
        self.phase = match op {
            AutostartOperation::Query => AutoStartPhase::Checking,
            AutostartOperation::Change(_) => AutoStartPhase::Applying,
        };
        self.in_flight = true;
        true
    }

    /// The worker of the operation could not be started.
    pub fn spawn_failed(&mut self)
        ensures
            *final(self) == (AutostartItem { phase: AutoStartPhase::Failed, in_flight: false, ..*old(self) }),
            autostart_item_inv(*final(self)),
    {
        self.phase = AutoStartPhase::Failed;
        self.in_flight = false;
    }

    /// A click on the item asks to flip the last verified state (to turn it
    /// on when nothing was verified). Returns the state to apply when a
    /// change starts.
    pub fn clicked(&mut self) -> (desired: Option<bool>)
        ensures
            desired == if old(self).in_flight { None } else { Some(!(old(self).verified == Some(true))) },
            *final(self) == begun(*old(self), AutostartOperation::Change(!(old(self).verified == Some(true)))),
            autostart_item_inv(*old(self)) ==> autostart_item_inv(*final(self)),
    {
        let desired = desired_autostart(self.verified);
        if self.begin(AutostartOperation::Change(desired)) {
            Some(desired)
        } else {
            None
        }
    }

    /// The operation reported back: the state it verified, and whether it
    /// failed.
    pub fn finished(&mut self, enabled: Option<bool>, failed: bool)
        ensures
            *final(self) == (AutostartItem {
                verified: enabled,
                phase: if failed { AutoStartPhase::Failed } else { AutoStartPhase::Ready },
                in_flight: false,
            }),
            autostart_item_inv(*final(self)),
    {
        self.verified = enabled;
        self.phase = phase_after_result(failed);
        self.in_flight = false;
    }

    /// The worker went away without a report: nothing is known any more.
    pub fn worker_lost(&mut self)
        ensures
            *final(self) == (AutostartItem { verified: None, phase: AutoStartPhase::Failed, in_flight: false }),
            autostart_item_inv(*final(self)),
    {
        self.verified = None;
        self.phase = AutoStartPhase::Failed;
        self.in_flight = false;
    }

    /// The check mark shows only a verified "on".
    pub fn checked(&self) -> (r: bool)
        ensures
            r == (self.verified == Some(true)),
    {
        match self.verified {
            Some(enabled) => enabled,
            None => false,
        }
    }
}

/// While a background operation runs the autostart item cannot be clicked,
/// and its check mark never shows a state that was not verified.
pub proof fn autostart_item_is_disabled_while_busy(item: AutostartItem)
    requires
        autostart_item_inv(item),
        item.in_flight,
    ensures
        !(item.phase == AutoStartPhase::Ready || item.phase == AutoStartPhase::Failed),
{
}

/// An entry of the tray menu that reacts to a click.
#[derive(Debug, Clone, Copy, PartialEq, Eq, Structural)]
pub enum MenuEntry {
    Exit,
    Autostart,
    OpenLogs,
    Reset,
    Language(Language),
    Profile(Profile),
    Duty(u8),
    Duration(u64),
    Coverage(CpuCoverage),
}

/// The command a click on an entry sends to the supervisor; the autostart
/// item is handled by the tray itself.
pub open spec fn entry_command(entry: MenuEntry) -> Option<SupervisorCommand> {
    match entry {
        MenuEntry::Exit => Some(SupervisorCommand::Shutdown),
        MenuEntry::Autostart => None,
        MenuEntry::OpenLogs => Some(SupervisorCommand::OpenLogFolder),
        MenuEntry::Reset => Some(SupervisorCommand::ResetDefaults),
        MenuEntry::Language(l) => Some(SupervisorCommand::SetLanguage(l)),
        MenuEntry::Profile(p) => Some(SupervisorCommand::SelectProfile(p)),
        MenuEntry::Duty(d) => Some(SupervisorCommand::SetDuty(d)),
        MenuEntry::Duration(s) => Some(SupervisorCommand::SetDuration(s)),
        MenuEntry::Coverage(c) => Some(SupervisorCommand::SetCoverage(c)),
    }
}

pub fn menu_command(entry: MenuEntry) -> (command: Option<SupervisorCommand>)
    ensures
        command == entry_command(entry),
{
    match entry {
        MenuEntry::Exit => Some(SupervisorCommand::Shutdown),
        MenuEntry::Autostart => None,
        MenuEntry::OpenLogs => Some(SupervisorCommand::OpenLogFolder),
        MenuEntry::Reset => Some(SupervisorCommand::ResetDefaults),
        MenuEntry::Language(l) => Some(SupervisorCommand::SetLanguage(l)),
        MenuEntry::Profile(p) => Some(SupervisorCommand::SelectProfile(p)),
        MenuEntry::Duty(d) => Some(SupervisorCommand::SetDuty(d)),
        MenuEntry::Duration(s) => Some(SupervisorCommand::SetDuration(s)),
        MenuEntry::Coverage(c) => Some(SupervisorCommand::SetCoverage(c)),
    }
}

/// The entries the menu builds: the presets, and the duties and durations
/// of the advanced menu.
pub open spec fn offered(entry: MenuEntry) -> bool {
    match entry {
        MenuEntry::Profile(p) => Profile::PRESETS@.contains(p),
        MenuEntry::Duty(d) => DisturbanceParams::DUTY_OPTIONS@.contains(d),
        MenuEntry::Duration(s) => DisturbanceParams::DURATION_OPTIONS@.contains(s),
        _ => true,
    }
}

/// Every command that a menu entry sends lies inside the bounds under which
/// the supervisor keeps its configuration valid.
pub proof fn menu_sends_only_commands_in_bounds(entry: MenuEntry)
    requires
        offered(entry),
    ensures
        entry_command(entry) matches Some(c) ==> command_in_bounds(c),
{
    menu_options_are_in_bounds();
    assert(Profile::PRESETS@ =~= seq![Profile::Gentle, Profile::Balanced, Profile::Robust, Profile::Maximum]);
    match entry {
        MenuEntry::Duty(d) => {
            let i = DisturbanceParams::DUTY_OPTIONS@.index_of(d);
            assert(DisturbanceParams::DUTY_OPTIONS@[i] == d);
        },
        MenuEntry::Duration(s) => {
            let i = DisturbanceParams::DURATION_OPTIONS@.index_of(s);
            assert(DisturbanceParams::DURATION_OPTIONS@[i] == s);
        },
        _ => {},
    }
}

/// A click on a profile, duty, duration or coverage entry sends the command
/// that, once the supervisor applies it, puts the check mark on that entry.
pub proof fn clicking_a_choice_checks_it(c: AppConfig, entry: MenuEntry, language: Language)
    requires
        offered(entry),
        entry is Profile || entry is Duty || entry is Duration || entry is Coverage,
    ensures
        entry_command(entry) is Some,
        entry_is_checked(entry, commanded(c, entry_command(entry)->0).0, language),
{
    assert(Profile::PRESETS@ =~= seq![Profile::Gentle, Profile::Balanced, Profile::Robust, Profile::Maximum]);
    if let MenuEntry::Profile(p) = entry {
        let i = Profile::PRESETS@.index_of(p);
        assert(Profile::PRESETS@[i] == p);
    }
}

/// Whatever configuration change a click in the menu sends, the supervisor
/// that applies it stays consistent, and its configuration stays valid.
pub proof fn menu_clicks_keep_supervisor_consistent(s: SupervisorState, entry: MenuEntry)
    requires
        supervisor_inv(s),
        offered(entry),
    ensures
        entry_command(entry) matches Some(c) ==> supervisor_inv(SupervisorState { config: commanded(s.config, c).0, ..s }),
{
    menu_sends_only_commands_in_bounds(entry);
    if let Some(c) = entry_command(entry) {
        commands_keep_config_valid(s.config, c);
    }
}

/// Whether an entry shows a check mark under `config`, with the user
/// interface in `language`: the chosen profile, and the duty, duration and
/// coverage in effect.
pub open spec fn entry_is_checked(entry: MenuEntry, config: AppConfig, language: Language) -> bool {
    match entry {
        MenuEntry::Profile(p) => config.profile == p,
        MenuEntry::Duty(d) => resolved(config).duty_percent == d,
        MenuEntry::Duration(s) => resolved(config).hard_stop_secs == s,
        MenuEntry::Coverage(c) => resolved(config).coverage == c,
        MenuEntry::Language(l) => language == l,
        _ => false,
    }
}

pub fn entry_checked(entry: MenuEntry, config: &AppConfig, language: Language) -> (r: bool)
    ensures
        r == entry_is_checked(entry, *config, language),
{
    let params = config.resolved_params();
    match entry {
        MenuEntry::Profile(p) => config.profile == p,
        MenuEntry::Duty(d) => params.duty_percent == d,
        MenuEntry::Duration(s) => params.hard_stop_secs == s,
        MenuEntry::Coverage(c) => params.coverage == c,
        MenuEntry::Language(l) => language == l,
        _ => false,
    }
}

/// `label: text`, as in the status line of the menu.
pub fn labelled(label: &str, text: &str) -> (s: String)
    ensures
        s@ == label@ + ": "@ + text@,
{
    let mut s = String::new();
    push_str(&mut s, label);
    push_str(&mut s, ": ");
    push_str(&mut s, text);
    assert(s@ =~= label@ + ": "@ + text@);
    s
}

/// `label: vVERSION`, the version line of the menu.
pub fn version_line(label: &str, version: &str) -> (s: String)
    ensures
        s@ == label@ + ": v"@ + version@,
{
    let mut s = String::new();
    push_str(&mut s, label);
    push_str(&mut s, ": v");
    push_str(&mut s, version);
    assert(s@ =~= label@ + ": v"@ + version@);
    s
}

/// `N%`, the label of a duty entry.
pub fn duty_label(duty: u8) -> (s: String)
    ensures
        s@ == decimal(duty as nat) + "%"@,
{
    let mut s = decimal_text(duty as u64);
    push_str(&mut s, "%");
    s
}

/// `N unit`, the label of a duration entry.
pub fn duration_label(secs: u64, unit: &str) -> (s: String)
    ensures
        s@ == decimal(secs as nat) + " "@ + unit@,
{
    let mut s = decimal_text(secs);
    push_str(&mut s, " ");
    push_str(&mut s, unit);
    assert(s@ =~= decimal(secs as nat) + " "@ + unit@);
    s
}

/// `label: profile / CPU N% / N unit`, the configuration line of the menu.
pub fn config_line(label: &str, profile: &str, params: &DisturbanceParams, unit: &str) -> (s: String)
    ensures
        s@ == label@ + ": "@ + profile@ + " / CPU "@ + decimal(params.duty_percent as nat) + "% / "@
            + decimal(params.hard_stop_secs as nat) + " "@ + unit@,
{
    let mut s = labelled(label, profile);
    push_str(&mut s, " / CPU ");
    let duty = decimal_text(params.duty_percent as u64);
    push_str(&mut s, duty.as_str());
    push_str(&mut s, "% / ");
    let secs = duration_label(params.hard_stop_secs, unit);
    push_str(&mut s, secs.as_str());
    assert(s@ =~= label@ + ": "@ + profile@ + " / CPU "@ + decimal(params.duty_percent as nat) + "% / "@
        + decimal(params.hard_stop_secs as nat) + " "@ + unit@);
    s
}

} // verus!
