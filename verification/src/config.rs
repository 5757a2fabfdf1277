//! Disturbance parameters, presets and the persisted application configuration.

use vstd::prelude::*;
use crate::text::{decimal, decimal_text, push_str};

verus! {

/// Version of the configuration schema that this library reads and writes.
pub const CONFIG_SCHEMA_VERSION: u32 = 1;

/// A named set of disturbance parameters.
#[derive(Debug, Clone, Copy, PartialEq, Eq, Structural)]
pub enum Profile {
    Gentle,
    Balanced,
    Robust,
    Maximum,
    Custom,
}

/// How the disturbance workers are spread over the processors.
#[derive(Debug, Clone, Copy, PartialEq, Eq, Structural)]
pub enum CpuCoverage {
    AllLogical,
    PhysicalCores,
    Unpinned,
}

/// Scheduling priority of the disturbance workers.
#[derive(Debug, Clone, Copy, PartialEq, Eq, Structural)]
pub enum WorkerPriority {
    BelowNormal,
}

/// Parameters of one disturbance session.
#[derive(Debug, Clone, Copy, PartialEq, Eq, Structural)]
pub struct DisturbanceParams {
    pub duty_percent: u8,
    pub period_ms: u64,
    pub success_after_secs: u64,
    pub hard_stop_secs: u64,
    pub coverage: CpuCoverage,
    pub priority: WorkerPriority,
}

/// Errors of loading, saving and validating the configuration.
#[derive(Debug)]
pub enum ConfigError {
    NoProjectDirectory,
    Io(std::io::Error),
    Parse(toml::de::Error),
    Serialize(toml::ser::Error),
    Validation(&'static str),
}

pub open spec fn params_of(duty: u8, period: u64, success: u64, hard_stop: u64) -> DisturbanceParams {
    DisturbanceParams {
        duty_percent: duty,
        period_ms: period,
        success_after_secs: success,
        hard_stop_secs: hard_stop,
        coverage: CpuCoverage::AllLogical,
        priority: WorkerPriority::BelowNormal,
    }
}

/// The first rule that `p` breaks, checked in order, with its message.
pub open spec fn params_check(p: DisturbanceParams) -> Result<(), ConfigError> {
    if !(10 <= p.duty_percent <= 80) {
        Err(ConfigError::Validation("duty_percent must be between 10 and 80"))
    } else if !(50 <= p.period_ms <= 500) {
        Err(ConfigError::Validation("period_ms must be between 50 and 500"))
    } else if !(20 <= p.success_after_secs <= 90) {
        Err(ConfigError::Validation("success_after_secs must be between 20 and 90"))
    } else if p.hard_stop_secs < p.success_after_secs || p.hard_stop_secs > 120 {
        Err(ConfigError::Validation("hard_stop_secs must be >= success_after_secs and <= 120"))
    } else {
        Ok(())
    }
}

/// Every bound that valid parameters keep.
pub open spec fn params_valid(p: DisturbanceParams) -> bool {
    &&& 10 <= p.duty_percent <= 80
    &&& 50 <= p.period_ms <= 500
    &&& 20 <= p.success_after_secs <= 90
    &&& p.success_after_secs <= p.hard_stop_secs <= 120
}

impl DisturbanceParams {
    pub fn new(duty_percent: u8, period_ms: u64, success_after_secs: u64, hard_stop_secs: u64) -> (p: Self)
        ensures
            p == params_of(duty_percent, period_ms, success_after_secs, hard_stop_secs),
    {
        DisturbanceParams {
            duty_percent,
            period_ms,
            success_after_secs,
            hard_stop_secs,
            coverage: CpuCoverage::AllLogical,
            priority: WorkerPriority::BelowNormal,
        }
    }

    pub fn validate(&self) -> (r: Result<(), ConfigError>)
        ensures
            r == params_check(*self),
            r is Ok <==> params_valid(*self),
    {
        if !(10 <= self.duty_percent && self.duty_percent <= 80) {
            return Err(ConfigError::Validation("duty_percent must be between 10 and 80"));
        }
        if !(50 <= self.period_ms && self.period_ms <= 500) {
            return Err(ConfigError::Validation("period_ms must be between 50 and 500"));
        }
        if !(20 <= self.success_after_secs && self.success_after_secs <= 90) {
            return Err(ConfigError::Validation("success_after_secs must be between 20 and 90"));
        }
        if self.hard_stop_secs < self.success_after_secs || self.hard_stop_secs > 120 {
            return Err(ConfigError::Validation("hard_stop_secs must be >= success_after_secs and <= 120"));
        }
        Ok(())
    }
}


/// Parameters of each preset; `Custom` falls back to the `Robust` values.
pub open spec fn profile_params(p: Profile) -> DisturbanceParams {
    match p {
        Profile::Gentle => params_of(25, 100, 35, 45),
        Profile::Balanced => params_of(35, 100, 40, 50),
        Profile::Robust | Profile::Custom => params_of(50, 100, 45, 60),
        Profile::Maximum => params_of(70, 100, 60, 75),
    }
}

/// Milliseconds of each period spent busy, as integer division rounds it.
pub open spec fn spec_busy_ms(p: DisturbanceParams) -> int {
    (p.period_ms * p.duty_percent) / 100
}

/// Milliseconds of each period spent resting; never negative.
pub open spec fn spec_rest_ms(p: DisturbanceParams) -> int {
    if spec_busy_ms(p) <= p.period_ms {
        p.period_ms - spec_busy_ms(p)
    } else {
        0
    }
}

impl Profile {
    /// The presets offered by the tray menu, in menu order.
    pub const PRESETS: [Profile; 4] = [Profile::Gentle, Profile::Balanced, Profile::Robust, Profile::Maximum];

    pub fn params(self) -> (p: DisturbanceParams)
        ensures
            p == profile_params(self),
    {
        match self {
            Profile::Gentle => DisturbanceParams::new(25, 100, 35, 45),
            Profile::Balanced => DisturbanceParams::new(35, 100, 40, 50),
            Profile::Robust | Profile::Custom => DisturbanceParams::new(50, 100, 45, 60),
            Profile::Maximum => DisturbanceParams::new(70, 100, 60, 75),
        }
    }

    pub fn locale_key(self) -> (key: &'static str)
        ensures
            key@ == match self {
                Profile::Gentle => "profile.gentle"@,
                Profile::Balanced => "profile.balanced"@,
                Profile::Robust => "profile.robust"@,
                Profile::Maximum => "profile.maximum"@,
                Profile::Custom => "profile.custom"@,
            },
    {
        match self {
            Profile::Gentle => "profile.gentle",
            Profile::Balanced => "profile.balanced",
            Profile::Robust => "profile.robust",
            Profile::Maximum => "profile.maximum",
            Profile::Custom => "profile.custom",
        }
    }
}

impl CpuCoverage {
    /// The coverage choices offered by the tray menu, in menu order.
    pub const ALL: [CpuCoverage; 3] = [CpuCoverage::AllLogical, CpuCoverage::PhysicalCores, CpuCoverage::Unpinned];

    pub fn locale_key(self) -> (key: &'static str)
        ensures
            key@ == match self {
                CpuCoverage::AllLogical => "coverage.all_logical"@,
                CpuCoverage::PhysicalCores => "coverage.physical_cores"@,
                CpuCoverage::Unpinned => "coverage.unpinned"@,
            },
    {
        match self {
            CpuCoverage::AllLogical => "coverage.all_logical",
            CpuCoverage::PhysicalCores => "coverage.physical_cores",
            CpuCoverage::Unpinned => "coverage.unpinned",
        }
    }
}

impl DisturbanceParams {
    pub fn busy_ms(&self) -> (ms: u64)
        requires
            self.period_ms * self.duty_percent <= u64::MAX,
        ensures
            ms == spec_busy_ms(*self),
    {
        self.period_ms * (self.duty_percent as u64) / 100
    }

    pub fn rest_ms(&self) -> (ms: u64)
        requires
            self.period_ms * self.duty_percent <= u64::MAX,
        ensures
            ms == spec_rest_ms(*self),
    {
        self.period_ms.saturating_sub(self.busy_ms())
    }
}

impl DisturbanceParams {
    /// Duty-cycle choices offered by the tray menu.
    pub const DUTY_OPTIONS: [u8; 5] = [25, 35, 50, 65, 70];
    /// Hard-stop durations (seconds) offered by the tray menu.
    pub const DURATION_OPTIONS: [u64; 5] = [30, 45, 60, 75, 90];
}

/// A user interface language.
#[derive(Debug, Clone, Copy, PartialEq, Eq, Structural)]
pub enum Language {
    En,
    ZhCn,
}

/// The locale identifier of each language.
pub open spec fn language_locale(language: Language) -> Seq<char> {
    match language {
        Language::En => "en"@,
        Language::ZhCn => "zh-CN"@,
    }
}

impl Language {
    /// The languages offered by the tray menu, in menu order.
    pub const ALL: [Language; 2] = [Language::En, Language::ZhCn];

    /// The locale identifier used for translations.
    pub fn locale(self) -> (locale: &'static str)
        ensures
            locale@ == language_locale(self),
    {
        match self {
            Language::En => "en",
            Language::ZhCn => "zh-CN",
        }
    }
}

/// The persisted application configuration.
#[derive(Debug, Clone, Copy, PartialEq, Eq, Structural)]
pub struct AppConfig {
    pub schema_version: u32,
    pub profile: Profile,
    pub custom: Option<DisturbanceParams>,
    pub language_override: Option<Language>,
}

/// The configuration of a fresh installation.
pub open spec fn default_config() -> AppConfig {
    AppConfig {
        schema_version: CONFIG_SCHEMA_VERSION,
        profile: Profile::Robust,
        custom: None,
        language_override: None,
    }
}

/// The first rule that `c` breaks, checked in order, with its message.
pub open spec fn config_check(c: AppConfig) -> Result<(), ConfigError> {
    if c.schema_version != CONFIG_SCHEMA_VERSION {
        Err(ConfigError::Validation("unsupported config schema version"))
    } else if c.profile == Profile::Custom && c.custom is None {
        Err(ConfigError::Validation("custom profile requires custom parameters"))
    } else {
        match c.custom {
            Some(p) => params_check(p),
            None => Ok(()),
        }
    }
}

/// A configuration that can be saved and used.
pub open spec fn config_valid(c: AppConfig) -> bool {
    &&& c.schema_version == CONFIG_SCHEMA_VERSION
    &&& c.profile == Profile::Custom ==> c.custom is Some
    &&& c.custom matches Some(p) ==> params_valid(p)
}

/// The parameters that a new attempt uses under configuration `c`.
pub open spec fn resolved(c: AppConfig) -> DisturbanceParams {
    if c.profile == Profile::Custom {
        match c.custom {
            Some(p) => p,
            None => profile_params(Profile::Robust),
        }
    } else {
        profile_params(c.profile)
    }
}

/// One change made from the advanced menu.
#[derive(Debug, Clone, Copy)]
pub enum ParamEdit {
    Duty(u8),
    HardStop(u64),
    Coverage(CpuCoverage),
}

/// What an advanced-menu change does to the parameters.
pub open spec fn apply_edit(p: DisturbanceParams, edit: ParamEdit) -> DisturbanceParams {
    match edit {
        ParamEdit::Duty(d) => DisturbanceParams { duty_percent: d, ..p },
        ParamEdit::HardStop(h) => DisturbanceParams {
            hard_stop_secs: h,
            success_after_secs: if p.success_after_secs <= h {
                if p.success_after_secs >= 20 { p.success_after_secs } else { 20 }
            } else {
                if h >= 20 { h } else { 20 }
            },
            ..p
        },
        ParamEdit::Coverage(cov) => DisturbanceParams { coverage: cov, ..p },
    }
}

/// The configuration after an advanced-menu change: a custom profile that
/// starts from the parameters in effect before the change.
pub open spec fn edited(c: AppConfig, edit: ParamEdit) -> AppConfig {
    AppConfig { profile: Profile::Custom, custom: Some(apply_edit(resolved(c), edit)), ..c }
}

impl Default for AppConfig {
    fn default() -> (c: Self)
        ensures
            c == default_config(),
    {
        AppConfig {
            schema_version: CONFIG_SCHEMA_VERSION,
            profile: Profile::Robust,
            custom: None,
            language_override: None,
        }
    }
}

impl AppConfig {
    pub fn validate(&self) -> (r: Result<(), ConfigError>)
        ensures
            r == config_check(*self),
            r is Ok <==> config_valid(*self),
    {
        if self.schema_version != CONFIG_SCHEMA_VERSION {
            return Err(ConfigError::Validation("unsupported config schema version"));
        }
        if self.profile == Profile::Custom {
            match &self.custom {
                None => {
                    return Err(ConfigError::Validation("custom profile requires custom parameters"));
                },
                Some(custom) => {
                    custom.validate()?;
                },
            }
        }
        if let Some(custom) = &self.custom {
            custom.validate()?;
        }
        Ok(())
    }

    pub fn resolved_params(&self) -> (p: DisturbanceParams)
        ensures
            p == resolved(*self),
    {
        if self.profile == Profile::Custom {
            match self.custom {
                Some(custom) => custom,
                None => Profile::Robust.params(),
            }
        } else {
            self.profile.params()
        }
    }

    /// Switches to a preset and drops any custom parameters.
    pub fn select_profile(&mut self, profile: Profile)
        requires
            profile != Profile::Custom,
        ensures
            *final(self) == (AppConfig { profile: profile, custom: None, ..*old(self) }),
    {
        self.profile = profile;
        self.custom = None;
    }

    fn edit_custom(&mut self, edit: ParamEdit)
        ensures
            *final(self) == edited(*old(self), edit),
    {
        let mut params = self.resolved_params();
        match edit {
            ParamEdit::Duty(duty_percent) => {
                params.duty_percent = duty_percent;
            },
            ParamEdit::HardStop(hard_stop_secs) => {
                params.hard_stop_secs = hard_stop_secs;
                let capped = if params.success_after_secs <= hard_stop_secs {
                    params.success_after_secs
                } else {
                    hard_stop_secs
                };
                params.success_after_secs = if capped >= 20 { capped } else { 20 };
            },
            ParamEdit::Coverage(coverage) => {
                params.coverage = coverage;
            },
        }
        self.profile = Profile::Custom;
        self.custom = Some(params);
    }

    pub fn set_duty(&mut self, duty_percent: u8)
        ensures
            *final(self) == edited(*old(self), ParamEdit::Duty(duty_percent)),
    {
        self.edit_custom(ParamEdit::Duty(duty_percent));
    }

    pub fn set_hard_stop(&mut self, hard_stop_secs: u64)
        ensures
            *final(self) == edited(*old(self), ParamEdit::HardStop(hard_stop_secs)),
    {
        self.edit_custom(ParamEdit::HardStop(hard_stop_secs));
    }

    pub fn set_coverage(&mut self, coverage: CpuCoverage)
        ensures
            *final(self) == edited(*old(self), ParamEdit::Coverage(coverage)),
    {
        self.edit_custom(ParamEdit::Coverage(coverage));
    }

    pub fn reset(&mut self)
        ensures
            *final(self) == default_config(),
    {
        *self = AppConfig::default();
    }
}

/// The result of loading the configuration file.
#[derive(Debug)]
pub struct LoadResult {
    pub config: AppConfig,
    pub invalid_backup: Option<String>,
}

/// Where the configuration file lives.
#[derive(Debug, Clone)]
pub struct ConfigStore {
    path: String,
}

impl View for ConfigStore {
    type V = Seq<char>;

    closed spec fn view(&self) -> Seq<char> {
        self.path@
    }
}

/// One plain file name: not empty, without a path separator, and neither
/// `.` nor `..`.
pub open spec fn plain_file_name(name: Seq<char>) -> bool {
    &&& name.len() > 0
    &&& forall|i: int| 0 <= i < name.len() ==> #[trigger] name[i] != '\\' && name[i] != '/'
    &&& name != "."@
    &&& name != ".."@
}

/// The characters of a decimal number are digits.
proof fn decimal_is_digits(n: nat)
    ensures
        forall|i: int| 0 <= i < decimal(n).len() ==> '0' <= #[trigger] decimal(n)[i] <= '9',
    decreases n,
{
    if n >= 10 {
        decimal_is_digits(n / 10);
        assert forall|i: int| 0 <= i < decimal(n).len() implies '0' <= #[trigger] decimal(n)[i] <= '9' by {
            if i < decimal(n / 10).len() {
                assert(decimal(n)[i] == decimal(n / 10)[i]);
            }
        }
    }
}

/// A backup file name is a plain file name.
proof fn backup_file_name_is_plain(timestamp_secs: u64)
    ensures
        plain_file_name(backup_file_name(timestamp_secs)),
{
    reveal_strlit("config.invalid.");
    reveal_strlit(".toml");
    reveal_strlit(".");
    reveal_strlit("..");
    decimal_is_digits(timestamp_secs as nat);
    let d = decimal(timestamp_secs as nat);
    let name = backup_file_name(timestamp_secs);
    assert forall|i: int| 0 <= i < name.len() implies #[trigger] name[i] != '\\' && name[i] != '/' by {
        if 15 <= i < 15 + d.len() {
            assert(name[i] == d[i - 15]);
        }
    }
    assert(name.len() > 2);
}

/// Calls `Path::with_file_name` on `path` with a plain file name and returns
/// the result as text. Stated: the result ends with `name`. Not stated: which
/// directory part it keeps, since that follows the platform's path rules.
#[verifier::external_body]
fn with_file_name(path: &str, name: &str) -> (r: String)
    requires
        plain_file_name(name@),
    ensures
        r@.len() >= name@.len(),
        r@.subrange(r@.len() - name@.len(), r@.len() as int) == name@,
{
    std::path::Path::new(path).with_file_name(name).to_string_lossy().into_owned()
}

/// The file name that a corrupt configuration is moved to.
pub open spec fn backup_file_name(timestamp_secs: u64) -> Seq<char> {
    "config.invalid."@ + decimal(timestamp_secs as nat) + ".toml"@
}

/// The configuration to use after reading and parsing the file: a parsed
/// configuration that passes validation, else the error.
pub open spec fn checked_load(parsed: Result<AppConfig, ConfigError>) -> Result<AppConfig, ConfigError> {
    match parsed {
        Ok(c) => match config_check(c) {
            Ok(_) => Ok(c),
            Err(e) => Err(e),
        },
        Err(e) => Err(e),
    }
}

impl ConfigStore {
    pub fn at(path: String) -> (store: Self)
        ensures
            store@ == path@,
    {
        ConfigStore { path }
    }

    pub fn path(&self) -> (path: &str)
        ensures
            path@ == self@,
    {
        self.path.as_str()
    }

    /// The path a corrupt configuration is moved to: `config.invalid.`, the
    /// UNIX time in seconds and `.toml`, in the configuration's directory.
    pub fn invalid_backup_path(&self, timestamp_secs: u64) -> (backup: String)
        ensures
            backup@.len() >= backup_file_name(timestamp_secs).len(),
            backup@.subrange(backup@.len() - backup_file_name(timestamp_secs).len(), backup@.len() as int)
                == backup_file_name(timestamp_secs),
    {
        let mut name = String::new();
        push_str(&mut name, "config.invalid.");
        let digits = decimal_text(timestamp_secs);
        push_str(&mut name, digits.as_str());
        push_str(&mut name, ".toml");
        assert(name@ =~= backup_file_name(timestamp_secs));
        proof {
            backup_file_name_is_plain(timestamp_secs);
        }
        with_file_name(self.path.as_str(), name.as_str())
    }

    /// Validates a parsed configuration.
    pub fn check_loaded(parsed: Result<AppConfig, ConfigError>) -> (r: Result<AppConfig, ConfigError>)
        ensures
            r == checked_load(parsed),
            r matches Ok(c) ==> config_valid(c),
    {
        match parsed {
            Ok(config) => match config.validate() {
                Ok(()) => Ok(config),
                Err(e) => Err(e),
            },
            Err(e) => Err(e),
        }
    }

    /// The load result for a checked configuration: the configuration itself,
    /// or the defaults with the path the corrupt file was moved to.
    pub fn recovered(checked: Result<AppConfig, ConfigError>, backup: String) -> (r: LoadResult)
        ensures
            match checked {
                Ok(c) => r.config == c && r.invalid_backup is None,
                Err(_) => r.config == default_config() && r.invalid_backup == Some(backup),
            },
    {
        match checked {
            Ok(config) => LoadResult { config, invalid_backup: None },
            Err(_) => LoadResult { config: AppConfig::default(), invalid_backup: Some(backup) },
        }
    }
}

/// Whatever the file holds, loading yields a valid configuration: the file's
/// own when it parses and validates, the defaults otherwise.
pub proof fn loading_yields_valid_config(parsed: Result<AppConfig, ConfigError>)
    ensures
        match checked_load(parsed) {
            Ok(c) => config_valid(c) && parsed == Ok::<AppConfig, ConfigError>(c),
            Err(_) => config_valid(default_config()),
        },
{
}

/// With a duty cycle of at most 100 %, each period splits into a busy part
/// of `period * duty / 100` milliseconds (rounded down) and a rest part that
/// fills the remainder.
pub proof fn busy_and_rest_split_the_period(p: DisturbanceParams)
    requires
        p.duty_percent <= 100,
    ensures
        spec_busy_ms(p) <= p.period_ms,
        spec_busy_ms(p) + spec_rest_ms(p) == p.period_ms,
{
    assert(p.period_ms * p.duty_percent <= p.period_ms * 100) by (nonlinear_arith)
        requires p.duty_percent <= 100;
    assert((p.period_ms * p.duty_percent) / 100 <= p.period_ms) by (nonlinear_arith)
        requires p.period_ms * p.duty_percent <= p.period_ms * 100, 0 <= p.period_ms * p.duty_percent;
}

/// Whether a menu change keeps parameters inside the validated bounds.
pub open spec fn edit_in_bounds(edit: ParamEdit) -> bool {
    match edit {
        ParamEdit::Duty(d) => 10 <= d <= 80,
        ParamEdit::HardStop(h) => 20 <= h <= 120,
        ParamEdit::Coverage(_) => true,
    }
}

/// Every preset, and the fallback used by a custom profile without
/// parameters, passes validation; a fresh configuration is valid and uses
/// the `Robust` preset.
pub proof fn presets_and_default_are_valid()
    ensures
        forall|p: Profile| #[trigger] params_valid(profile_params(p)),
        profile_params(Profile::Custom) == profile_params(Profile::Robust),
        config_valid(default_config()),
        resolved(default_config()) == profile_params(Profile::Robust),
{
}

/// Every duty and duration that the tray menu offers lies inside the bounds
/// that validation accepts.
pub proof fn menu_options_are_in_bounds()
    ensures
        forall|i: int| 0 <= i < 5 ==> edit_in_bounds(ParamEdit::Duty(#[trigger] DisturbanceParams::DUTY_OPTIONS@[i])),
        forall|i: int| 0 <= i < 5 ==> edit_in_bounds(ParamEdit::HardStop(#[trigger] DisturbanceParams::DURATION_OPTIONS@[i])),
{
    assert(DisturbanceParams::DUTY_OPTIONS@ =~= seq![25u8, 35, 50, 65, 70]);
    assert(DisturbanceParams::DURATION_OPTIONS@ =~= seq![30u64, 45, 60, 75, 90]);
}

/// An advanced-menu change inside the bounds turns a valid configuration into
/// a valid custom one whose parameters are the previous effective parameters
/// with just that change applied; a hard stop of at least 20 seconds never
/// leaves the success threshold above it.
pub proof fn edits_keep_config_valid(c: AppConfig, edit: ParamEdit)
    requires
        config_valid(c),
        edit_in_bounds(edit),
    ensures
        config_valid(edited(c, edit)),
        edited(c, edit).profile == Profile::Custom,
        resolved(edited(c, edit)) == apply_edit(resolved(c), edit),
        edited(c, edit).language_override == c.language_override,
{
    resolved_params_are_valid(c);
}

/// The parameters that a valid configuration resolves to pass validation.
pub proof fn resolved_params_are_valid(c: AppConfig)
    requires
        config_valid(c),
    ensures
        params_valid(resolved(c)),
{
}

/// Choosing a preset keeps a valid configuration valid and makes the preset's
/// parameters the effective ones.
pub proof fn preset_selection_keeps_config_valid(c: AppConfig, p: Profile)
    requires
        config_valid(c),
        p != Profile::Custom,
    ensures
        config_valid(AppConfig { profile: p, custom: None, ..c }),
        resolved(AppConfig { profile: p, custom: None, ..c }) == profile_params(p),
{
}

} // verus!
