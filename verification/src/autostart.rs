//! Autostart: per-user task names, identity checks and the verdicts that turn
//! a series of Task Scheduler reads into a state the tray may show.

use vstd::prelude::*;
use crate::platform::{encode_utf16, utf16};
use crate::text::{chars_equal, chars_of, eq_ignore_ascii_case, has_prefix, hex16_text, hex_padded, lower, push_str, starts_with, string_of};

verus! {

/// Prefix of the per-user autostart task names; also the legacy task's name.
pub const TASK_NAME_PREFIX: &'static str = "VRChatX3DStartFix-AutoStart";

/// Seconds slept before each verification read.
pub const VERIFICATION_DELAY_SECS: [u64; 6] = [0, 1, 2, 3, 4, 5];

/// Consecutive agreeing reads needed before a state counts as stable.
pub const REQUIRED_STABLE_READS: usize = 3;

/// What the tray may show after an autostart query or change.
#[derive(Debug, Clone, PartialEq, Eq)]
pub struct UpdateResult {
    pub enabled_for_current_executable: Option<bool>,
    pub error: Option<String>,
}

/// `s.to_uppercase()`: the full Unicode uppercase mapping of the standard
/// library.
pub uninterp spec fn spec_to_uppercase(s: Seq<char>) -> Seq<char>;

/// Calls `str::to_uppercase`; claims only that the result is
/// `spec_to_uppercase` of the argument, a function of the argument alone.
#[verifier::external_body]
fn to_uppercase(s: &str) -> (r: String)
    ensures
        r@ == spec_to_uppercase(s@),
{
    s.to_uppercase()
}

/// FNV-1a offset basis and prime (64 bit).
pub const FNV_OFFSET: u64 = 0xcbf29ce484222325;
pub const FNV_PRIME: u64 = 0x100000001b3;

/// The little-endian bytes of UTF-16 code units.
pub open spec fn le_bytes(units: Seq<u16>) -> Seq<u8>
    decreases units.len(),
{
    if units.len() == 0 {
        seq![]
    } else {
        le_bytes(units.drop_last()) + seq![(units.last() % 256) as u8, (units.last() / 256) as u8]
    }
}

/// 64-bit FNV-1a over a byte sequence.
pub open spec fn fnv1a(bytes: Seq<u8>) -> u64
    decreases bytes.len(),
{
    if bytes.len() == 0 {
        FNV_OFFSET
    } else {
        (fnv1a(bytes.drop_last()) ^ (bytes.last() as u64)).wrapping_mul(FNV_PRIME)
    }
}

/// The task name of a user: the prefix, a hyphen and the FNV-1a hash of the
/// uppercased SID's UTF-16LE bytes as 16 lowercase hex digits.
pub open spec fn task_name(sid: Seq<char>) -> Seq<char> {
    TASK_NAME_PREFIX@ + "-"@ + hex_padded(fnv1a(le_bytes(utf16(spec_to_uppercase(sid)))) as nat, 16)
}

/// One FNV-1a round.
pub open spec fn fnv_round(h: u64, b: u8) -> u64 {
    (h ^ (b as u64)).wrapping_mul(FNV_PRIME)
}

/// Hashing one more code unit adds its low byte, then its high byte.
proof fn fnv1a_push_unit(units: Seq<u16>, u: u16)
    ensures
        fnv1a(le_bytes(units.push(u))) == fnv_round(fnv_round(fnv1a(le_bytes(units)), (u % 256) as u8), (u / 256) as u8),
{
    let prev = le_bytes(units);
    let lo = (u % 256) as u8;
    let hi = (u / 256) as u8;
    assert(units.push(u).drop_last() =~= units);
    let b = le_bytes(units.push(u));
    assert(b =~= prev + seq![lo, hi]);
    assert(b.drop_last() =~= prev.push(lo));
    assert(b.drop_last().drop_last() =~= prev);
    assert(b.last() == hi);
    assert(b.drop_last().last() == lo);
    assert(fnv1a(b) == fnv_round(fnv1a(b.drop_last()), hi));
    assert(fnv1a(b.drop_last()) == fnv_round(fnv1a(prev), lo));
}

/// FNV-1a over the little-endian bytes of `units`.
fn fnv1a_units(units: &Vec<u16>) -> (h: u64)
    ensures
        h == fnv1a(le_bytes(units@)),
{
    let mut hash: u64 = FNV_OFFSET;
    let mut i: usize = 0;
    while i < units.len()
        invariant
            i <= units@.len(),
            hash == fnv1a(le_bytes(units@.subrange(0, i as int))),
        decreases units@.len() - i,
    {
        let unit = units[i];
        let lo: u8 = (unit % 256) as u8;
        let hi: u8 = (unit / 256) as u8;
        hash = (hash ^ (lo as u64)).wrapping_mul(FNV_PRIME);
        hash = (hash ^ (hi as u64)).wrapping_mul(FNV_PRIME);
        proof {
            assert(units@.subrange(0, i + 1) =~= units@.subrange(0, i as int).push(unit));
            fnv1a_push_unit(units@.subrange(0, i as int), unit);
        }
        i = i + 1;
    }
    assert(units@.subrange(0, units@.len() as int) =~= units@);
    hash
}

/// The name of the per-user autostart task of the user with this SID.
pub fn task_name_for_sid(sid: &str) -> (name: String)
    ensures
        name@ == task_name(sid@),
{
    let upper = to_uppercase(sid);
    let units = encode_utf16(upper.as_str());
    let hash = fnv1a_units(&units);
    let mut name = String::new();
    push_str(&mut name, TASK_NAME_PREFIX);
    push_str(&mut name, "-");
    let digits = hex16_text(hash);
    push_str(&mut name, digits.as_str());
    assert(name@ =~= task_name(sid@));
    name
}

/// A task name depends on the SID only through its uppercase form, so SIDs
/// that differ only in letter case share one task.
pub proof fn task_names_ignore_sid_case(a: Seq<char>, b: Seq<char>)
    requires
        spec_to_uppercase(a) == spec_to_uppercase(b),
    ensures
        task_name(a) == task_name(b),
{
}

/// The account the Task Scheduler connection runs as.
#[derive(Debug, Clone)]
pub struct UserIdentity {
    pub account: String,
    pub sid: String,
}

/// Equality up to ASCII case.
pub open spec fn same_ignoring_case(a: Seq<char>, b: Seq<char>) -> bool {
    lower(a) == lower(b)
}

/// Whether a task's user field names this identity: its SID or account name,
/// or an account whose SID (`value_sid`, when it could be resolved) is this
/// identity's SID; all compared ignoring ASCII case.
pub fn identity_matches(value: &str, identity: &UserIdentity, value_sid: Option<&str>) -> (r: bool)
    ensures
        r == (same_ignoring_case(value@, identity.sid@) || same_ignoring_case(value@, identity.account@)
            || (value_sid matches Some(s) && same_ignoring_case(s@, identity.sid@))),
{
    if eq_ignore_ascii_case(value, identity.sid.as_str()) {
        return true;
    }
    if eq_ignore_ascii_case(value, identity.account.as_str()) {
        return true;
    }
    match value_sid {
        Some(sid) => eq_ignore_ascii_case(sid, identity.sid.as_str()),
        None => false,
    }
}

/// The running state of a series of reads: how many consecutive reads
/// agreed, the last value read, and the last read's error.
pub struct ReadTally {
    pub consecutive: nat,
    pub last_actual: Option<bool>,
    pub last_error: Option<String>,
}

/// The tally after the reads that verify a requested state `expected`: a read
/// counts when it shows `expected`; an error resets everything.
pub open spec fn verify_tally(expected: bool, reads: Seq<Result<bool, String>>) -> ReadTally
    decreases reads.len(),
{
    if reads.len() == 0 {
        ReadTally { consecutive: 0, last_actual: None, last_error: None }
    } else {
        let t = verify_tally(expected, reads.drop_last());
        match reads.last() {
            Ok(actual) => ReadTally {
                consecutive: if actual == expected { t.consecutive + 1 } else { 0 },
                last_actual: Some(actual),
                last_error: None,
            },
            Err(message) => ReadTally { consecutive: 0, last_actual: None, last_error: Some(message) },
        }
    }
}

/// The tally after reads that establish the current state: a read counts
/// when it repeats the previous value; an error resets everything.
pub open spec fn observe_tally(reads: Seq<Result<bool, String>>) -> ReadTally
    decreases reads.len(),
{
    if reads.len() == 0 {
        ReadTally { consecutive: 0, last_actual: None, last_error: None }
    } else {
        let t = observe_tally(reads.drop_last());
        match reads.last() {
            Ok(actual) => ReadTally {
                consecutive: if t.last_actual == Some(actual) { t.consecutive + 1 } else { 1 },
                last_actual: Some(actual),
                last_error: None,
            },
            Err(message) => ReadTally { consecutive: 0, last_actual: None, last_error: Some(message) },
        }
    }
}

/// `Display` text of a boolean.
pub open spec fn bool_text(b: bool) -> Seq<char> {
    if b { "true"@ } else { "false"@ }
}

/// `Debug` text of an optional boolean.
pub open spec fn option_bool_text(o: Option<bool>) -> Seq<char> {
    match o {
        Some(b) => "Some("@ + bool_text(b) + ")"@,
        None => "None"@,
    }
}

/// The error text of a failed verification of `expected`.
pub open spec fn verify_failure_text(expected: bool, t: ReadTally) -> Seq<char> {
    "verification failed: "@ + match t.last_error {
        Some(message) => message@,
        None => "state did not remain stable: requested "@ + bool_text(expected) + ", last actual "@
            + option_bool_text(t.last_actual),
    }
}

/// The error text of a state that did not settle.
pub open spec fn observe_failure_text(t: ReadTally) -> Seq<char> {
    "initial state did not stabilize: "@ + match t.last_error {
        Some(message) => message@,
        None => "last actual "@ + option_bool_text(t.last_actual),
    }
}

fn append_bool(s: &mut String, b: bool)
    ensures
        final(s)@ == old(s)@ + bool_text(b),
{
    if b {
        push_str(s, "true");
    } else {
        push_str(s, "false");
    }
}

fn append_option_bool(s: &mut String, o: Option<bool>)
    ensures
        final(s)@ == old(s)@ + option_bool_text(o),
{
    match o {
        Some(b) => {
            push_str(s, "Some(");
            append_bool(s, b);
            push_str(s, ")");
            assert(final(s)@ =~= old(s)@ + option_bool_text(o));
        },
        None => push_str(s, "None"),
    }
}

/// The verdict after the reads that follow a change to `expected`: the state
/// is confirmed only when the last three or more reads all showed it.
/// Otherwise the error says why, and the opposite state is reported only if
/// the last read showed it.
pub fn verify_stable_state(expected: bool, reads: &Vec<Result<bool, String>>) -> (r: UpdateResult)
    ensures
        ({
            let t = verify_tally(expected, reads@);
            if t.consecutive >= REQUIRED_STABLE_READS && t.last_actual == Some(expected) {
                r.enabled_for_current_executable == Some(expected) && r.error is None
            } else {
                &&& r.enabled_for_current_executable == (if t.last_actual == Some(!expected) { Some(!expected) } else { None })
                &&& r.error matches Some(m) && m@ == verify_failure_text(expected, t)
            }
        }),
{
    let mut consecutive: usize = 0;
    let mut last_actual: Option<bool> = None;
    let mut last_error: Option<String> = None;
    let mut i: usize = 0;
    while i < reads.len()
        invariant
            i <= reads@.len(),
            consecutive <= i,
            verify_tally(expected, reads@.subrange(0, i as int))
                == (ReadTally { consecutive: consecutive as nat, last_actual, last_error }),
        decreases reads@.len() - i,
    {
        assert(reads@.subrange(0, i + 1).drop_last() =~= reads@.subrange(0, i as int));
        match &reads[i] {
            Ok(actual) => {
                last_actual = Some(*actual);
                last_error = None;
                if *actual == expected {
                    consecutive = consecutive + 1;
                } else {
                    consecutive = 0;
                }
            },
            Err(message) => {
                consecutive = 0;
                last_actual = None;
                last_error = Some(message.clone());
            },
        }
        i = i + 1;
    }
    assert(reads@.subrange(0, reads@.len() as int) =~= reads@);
    if consecutive >= REQUIRED_STABLE_READS && last_actual == Some(expected) {
        UpdateResult { enabled_for_current_executable: last_actual, error: None }
    } else {
        let mut text = String::new();
        push_str(&mut text, "verification failed: ");
        match &last_error {
            Some(message) => push_str(&mut text, message.as_str()),
            None => {
                push_str(&mut text, "state did not remain stable: requested ");
                append_bool(&mut text, expected);
                push_str(&mut text, ", last actual ");
                append_option_bool(&mut text, last_actual);
            },
        }
        assert(text@ =~= verify_failure_text(expected, ReadTally { consecutive: consecutive as nat, last_actual, last_error }));
        let opposite = if last_actual == Some(!expected) { Some(!expected) } else { None };
        UpdateResult { enabled_for_current_executable: opposite, error: Some(text) }
    }
}

/// The verdict after the reads that establish the state after a restart:
/// a state counts only when the last three or more reads agreed on it.
pub fn observe_stable_state(reads: &Vec<Result<bool, String>>) -> (r: UpdateResult)
    ensures
        ({
            let t = observe_tally(reads@);
            if t.consecutive >= REQUIRED_STABLE_READS {
                r.enabled_for_current_executable == t.last_actual && r.error is None
            } else {
                &&& r.enabled_for_current_executable is None
                &&& r.error matches Some(m) && m@ == observe_failure_text(t)
            }
        }),
{
    let mut consecutive: usize = 0;
    let mut last_actual: Option<bool> = None;
    let mut last_error: Option<String> = None;
    let mut i: usize = 0;
    while i < reads.len()
        invariant
            i <= reads@.len(),
            consecutive <= i,
            observe_tally(reads@.subrange(0, i as int))
                == (ReadTally { consecutive: consecutive as nat, last_actual, last_error }),
        decreases reads@.len() - i,
    {
        assert(reads@.subrange(0, i + 1).drop_last() =~= reads@.subrange(0, i as int));
        match &reads[i] {
            Ok(actual) => {
                consecutive = if last_actual == Some(*actual) { consecutive + 1 } else { 1 };
                last_actual = Some(*actual);
                last_error = None;
            },
            Err(message) => {
                consecutive = 0;
                last_actual = None;
                last_error = Some(message.clone());
            },
        }
        i = i + 1;
    }
    assert(reads@.subrange(0, reads@.len() as int) =~= reads@);
    if consecutive >= REQUIRED_STABLE_READS {
        UpdateResult { enabled_for_current_executable: last_actual, error: None }
    } else {
        let mut text = String::new();
        push_str(&mut text, "initial state did not stabilize: ");
        match &last_error {
            Some(message) => push_str(&mut text, message.as_str()),
            None => {
                push_str(&mut text, "last actual ");
                append_option_bool(&mut text, last_actual);
            },
        }
        assert(text@ =~= observe_failure_text(ReadTally { consecutive: consecutive as nat, last_actual, last_error }));
        UpdateResult { enabled_for_current_executable: None, error: Some(text) }
    }
}

/// How an attempt to change the autostart task went.
#[derive(Debug, Clone)]
pub enum ChangeOutcome {
    /// The task was created or removed.
    Applied,
    /// The running executable no longer exists, so nothing can be enabled.
    ExecutableMissing,
    /// The change failed with this message.
    Failed(String),
}

/// What follows an attempted change.
#[derive(Debug, Clone)]
pub enum ChangeStep {
    /// The verdict is known without further reads.
    Finished(UpdateResult),
    /// Read the state once and report it with this failure message.
    Requery(String),
    /// Run the verification reads.
    Verify,
}

/// The step after a change: a missing executable leaves autostart off, a
/// failure is reported with one fresh read, and an applied change is
/// verified.
pub fn after_change(outcome: ChangeOutcome) -> (step: ChangeStep)
    ensures
        match outcome {
            ChangeOutcome::Applied => step is Verify,
            ChangeOutcome::ExecutableMissing => step == ChangeStep::Finished(
                UpdateResult { enabled_for_current_executable: Some(false), error: None },
            ),
            ChangeOutcome::Failed(message) => step == ChangeStep::Requery(message),
        },
{
    match outcome {
        ChangeOutcome::Applied => ChangeStep::Verify,
        ChangeOutcome::ExecutableMissing => ChangeStep::Finished(
            UpdateResult { enabled_for_current_executable: Some(false), error: None },
        ),
        ChangeOutcome::Failed(message) => ChangeStep::Requery(message),
    }
}

/// The verdict of a failed change: the freshly read state, if the read
/// worked, and the failure.
pub fn change_failed(actual: Option<bool>, error: &str) -> (r: UpdateResult)
    ensures
        r.enabled_for_current_executable == actual,
        r.error matches Some(m) && m@ == "change failed: "@ + error@,
{
    let mut text = String::new();
    push_str(&mut text, "change failed: ");
    push_str(&mut text, error);
    UpdateResult { enabled_for_current_executable: actual, error: Some(text) }
}

/// `s.to_lowercase()`: the full Unicode lowercase mapping of the standard
/// library.
pub uninterp spec fn spec_to_lowercase(s: Seq<char>) -> Seq<char>;

/// Calls `str::to_lowercase`; claims only that the result is
/// `spec_to_lowercase` of the argument, a function of the argument alone.
#[verifier::external_body]
fn to_lowercase(s: &str) -> (r: String)
    ensures
        r@ == spec_to_lowercase(s@),
{
    s.to_lowercase()
}

/// `s` without its trailing backslashes.
pub open spec fn trim_trailing_backslashes(s: Seq<char>) -> Seq<char>
    decreases s.len(),
{
    if s.len() > 0 && s.last() == '\\' {
        trim_trailing_backslashes(s.drop_last())
    } else {
        s
    }
}

/// The comparable form of a Windows path: without a `\\?\` prefix, with
/// forward slashes turned into backslashes, without trailing backslashes,
/// lowercased.
pub open spec fn normalized_path(text: Seq<char>) -> Seq<char> {
    let stripped = if has_prefix(text, "\\\\?\\"@) { text.skip(4) } else { text };
    let slashed = stripped.map_values(|c: char| if c == '/' { '\\' } else { c });
    spec_to_lowercase(trim_trailing_backslashes(slashed))
}

/// The comparable form of a Windows path.
pub fn normalize_windows_path(text: &str) -> (r: String)
    ensures
        r@ == normalized_path(text@),
{
    let chars = chars_of(text);
    let prefix = chars_of("\\\\?\\");
    let start: usize = if starts_with(&chars, &prefix) { prefix.len() } else { 0 };
    proof {
        reveal_strlit("\\\\?\\");
    }
    let mut slashed: Vec<char> = Vec::new();
    let mut i: usize = start;
    let ghost stripped = chars@.skip(start as int);
    assert(stripped == (if has_prefix(text@, "\\\\?\\"@) { text@.skip(4) } else { text@ }));
    while i < chars.len()
        invariant
            start <= i <= chars@.len(),
            stripped == chars@.skip(start as int),
            slashed@ =~= stripped.subrange(0, i - start).map_values(|c: char| if c == '/' { '\\' } else { c }),
        decreases chars@.len() - i,
    {
        let c = chars[i];
        slashed.push(if c == '/' { '\\' } else { c });
        i = i + 1;
        assert(slashed@ =~= stripped.subrange(0, i - start).map_values(|c: char| if c == '/' { '\\' } else { c }));
    }
    assert(stripped.subrange(0, stripped.len() as int) =~= stripped);
    let ghost full = slashed@;
    let mut end: usize = slashed.len();
    assert(full.subrange(0, end as int) =~= full);
    while end > 0 && slashed[end - 1] == '\\'
        invariant
            end <= slashed@.len(),
            slashed@ == full,
            trim_trailing_backslashes(full) == trim_trailing_backslashes(full.subrange(0, end as int)),
        decreases end,
    {
        assert(full.subrange(0, end as int).drop_last() =~= full.subrange(0, end - 1));
        end = end - 1;
    }
    let mut kept: Vec<char> = Vec::new();
    let mut k: usize = 0;
    while k < end
        invariant
            end <= slashed@.len(),
            k <= end,
            kept@ =~= slashed@.subrange(0, k as int),
        decreases end - k,
    {
        kept.push(slashed[k]);
        k = k + 1;
        assert(kept@ =~= slashed@.subrange(0, k as int));
    }
    assert(trim_trailing_backslashes(full.subrange(0, end as int)) == full.subrange(0, end as int));
    let trimmed = string_of(&kept);
    to_lowercase(trimmed.as_str())
}

/// The backslash form of a path's text.
pub open spec fn backslashed(text: Seq<char>) -> Seq<char> {
    text.map_values(|c: char| if c == '/' { '\\' } else { c })
}

/// Path comparison ignores a `\\?\` prefix, the choice between `/` and
/// `\\` as separator, and trailing separators.
pub proof fn path_normalization_ignores_prefix_separators_and_trailing(a: Seq<char>, b: Seq<char>)
    requires
        !has_prefix(a, "\\\\?\\"@),
        !has_prefix(b, "\\\\?\\"@),
        trim_trailing_backslashes(backslashed(a)) == trim_trailing_backslashes(backslashed(b)),
    ensures
        normalized_path(a) == normalized_path(b),
        normalized_path("\\\\?\\"@ + a) == normalized_path(a),
{
    let p = "\\\\?\\"@;
    assert(has_prefix(p + a, p)) by {
        assert((p + a).subrange(0, p.len() as int) =~= p);
    }
    reveal_strlit("\\\\?\\");
    assert((p + a).skip(4) =~= a);
    assert(backslashed(a) =~= a.map_values(|c: char| if c == '/' { '\\' } else { c }));
}

/// Whether two paths name the same file by text alone, ignoring case,
/// separators, trailing backslashes and a `\\?\` prefix.
pub fn windows_paths_textually_equal(registered: &str, executable: &str) -> (r: bool)
    ensures
        r == (normalized_path(registered@) == normalized_path(executable@)),
{
    let a = normalize_windows_path(registered);
    let b = normalize_windows_path(executable);
    chars_equal(&chars_of(a.as_str()), &chars_of(b.as_str()))
}

/// The account name of a Task Scheduler connection: `domain\\user`, or the
/// bare user name when there is no domain.
pub fn account_name(domain: &str, user: &str) -> (account: String)
    ensures
        account@ == if domain@.len() == 0 { user@ } else { domain@ + "\\"@ + user@ },
{
    let mut account = String::new();
    if domain.unicode_len() == 0 {
        push_str(&mut account, user);
    } else {
        push_str(&mut account, domain);
        push_str(&mut account, "\\");
        push_str(&mut account, user);
    }
    account
}

/// What an autostart task found under a name turned out to be.
#[derive(Debug, Clone, Copy, PartialEq, Eq, Structural)]
pub enum TaskState {
    Missing,
    /// The task belongs to another account.
    Foreign,
    /// The task launches this executable at this user's sign-in.
    Current,
    /// The task cannot currently launch anything (disabled or missing target).
    InactiveOwned,
    /// The task may launch, but not with the definition this version expects.
    StaleOwned,
}

/// The checks made on a registered autostart task, in the order they are
/// made; the first that fails decides the task's state.
#[derive(Debug, Clone, Copy, PartialEq, Eq, Structural)]
pub enum TaskCheck {
    /// The task's principal is this user.
    PrincipalIsUser,
    /// The task is enabled.
    TaskEnabled,
    /// The task has exactly one trigger, an enabled logon trigger.
    SingleLogonTrigger,
    /// The logon trigger is for this user.
    TriggerIsUser,
    /// The task has exactly one action.
    SingleAction,
    /// The action names an executable path.
    TargetNamed,
    /// That executable exists.
    TargetExists,
    /// It is the running executable.
    TargetIsCurrent,
}

/// The state that a failed check gives the task.
pub open spec fn failed_check_state(check: TaskCheck) -> TaskState {
    match check {
        TaskCheck::PrincipalIsUser => TaskState::Foreign,
        TaskCheck::TaskEnabled | TaskCheck::TargetNamed | TaskCheck::TargetExists => TaskState::InactiveOwned,
        _ => TaskState::StaleOwned,
    }
}

/// The outcome of one check: the task's state when it failed, or when it
/// was the last one; otherwise the next check is made.
pub open spec fn check_outcome(check: TaskCheck, passed: bool) -> Option<TaskState> {
    if !passed {
        Some(failed_check_state(check))
    } else if check == TaskCheck::TargetIsCurrent {
        Some(TaskState::Current)
    } else {
        None
    }
}

/// The checks in the order they are made.
pub open spec fn task_checks() -> Seq<TaskCheck> {
    seq![
        TaskCheck::PrincipalIsUser,
        TaskCheck::TaskEnabled,
        TaskCheck::SingleLogonTrigger,
        TaskCheck::TriggerIsUser,
        TaskCheck::SingleAction,
        TaskCheck::TargetNamed,
        TaskCheck::TargetExists,
        TaskCheck::TargetIsCurrent,
    ]
}

/// The state of a task whose checks, made in order, gave `passed` (one entry
/// per check made): the first failed check decides, and a task that passes
/// them all is current.
pub open spec fn inspected_state(passed: Seq<bool>) -> TaskState {
    inspected_from(passed, 0)
}

/// The state decided by the checks from the `i`-th on.
pub open spec fn inspected_from(passed: Seq<bool>, i: nat) -> TaskState
    decreases task_checks().len() - i,
{
    if i >= task_checks().len() || i >= passed.len() {
        TaskState::Current
    } else {
        match check_outcome(task_checks()[i as int], passed[i as int]) {
            Some(state) => state,
            None => inspected_from(passed, i + 1),
        }
    }
}

/// Where each check stands in the order.
pub open spec fn check_index(check: TaskCheck) -> int {
    match check {
        TaskCheck::PrincipalIsUser => 0,
        TaskCheck::TaskEnabled => 1,
        TaskCheck::SingleLogonTrigger => 2,
        TaskCheck::TriggerIsUser => 3,
        TaskCheck::SingleAction => 4,
        TaskCheck::TargetNamed => 5,
        TaskCheck::TargetExists => 6,
        TaskCheck::TargetIsCurrent => 7,
    }
}

/// The check an inspection starts with.
pub fn first_task_check() -> (check: TaskCheck)
    ensures
        check == task_checks()[0],
{
    TaskCheck::PrincipalIsUser
}

/// One step of an inspection, with the result `passed` of `check`: the
/// task's state once the check decides it, else the check made next. Taking
/// these steps from the first check gives `inspected_state` of the results.
pub fn inspection_step(check: TaskCheck, passed: bool) -> (r: Result<TaskState, TaskCheck>)
    ensures
        task_checks()[check_index(check)] == check,
        r == match check_outcome(check, passed) {
            Some(state) => Ok::<TaskState, TaskCheck>(state),
            None => Err(task_checks()[check_index(check) + 1]),
        },
        forall|ps: Seq<bool>|
            check_index(check) < ps.len() && ps[check_index(check)] == passed ==>
                #[trigger] inspected_from(ps, check_index(check) as nat) == match r {
                    Ok(state) => state,
                    Err(_) => inspected_from(ps, (check_index(check) + 1) as nat),
                },
{
    if !passed {
        return Ok(
            match check {
                TaskCheck::PrincipalIsUser => TaskState::Foreign,
                TaskCheck::TaskEnabled | TaskCheck::TargetNamed | TaskCheck::TargetExists => TaskState::InactiveOwned,
                _ => TaskState::StaleOwned,
            },
        );
    }
    match check {
        TaskCheck::PrincipalIsUser => Err(TaskCheck::TaskEnabled),
        TaskCheck::TaskEnabled => Err(TaskCheck::SingleLogonTrigger),
        TaskCheck::SingleLogonTrigger => Err(TaskCheck::TriggerIsUser),
        TaskCheck::TriggerIsUser => Err(TaskCheck::SingleAction),
        TaskCheck::SingleAction => Err(TaskCheck::TargetNamed),
        TaskCheck::TargetNamed => Err(TaskCheck::TargetExists),
        TaskCheck::TargetExists => Err(TaskCheck::TargetIsCurrent),
        TaskCheck::TargetIsCurrent => Ok(TaskState::Current),
    }
}

/// A task is current only when all eight checks passed, and foreign exactly
/// when its principal is another account.
pub proof fn current_only_when_every_check_passes(passed: Seq<bool>)
    requires
        passed.len() == task_checks().len(),
    ensures
        inspected_state(passed) == TaskState::Current <==> forall|i: int| 0 <= i < passed.len() ==> #[trigger] passed[i],
        inspected_state(passed) == TaskState::Foreign <==> !passed[0],
{
    reveal_with_fuel(inspected_from, 9);
    if forall|i: int| 0 <= i < passed.len() ==> #[trigger] passed[i] {
        assert(passed[0] && passed[1] && passed[2] && passed[3] && passed[4] && passed[5] && passed[6] && passed[7]);
    } else {
        let k = choose|k: int| 0 <= k < passed.len() && !#[trigger] passed[k];
        assert(!passed[k]);
    }
}

/// The path text of a task action: surrounding double quotes are dropped,
/// and an empty path names nothing.
pub open spec fn unquoted(wide: Seq<u16>) -> Option<Seq<u16>> {
    let inner = if wide.len() >= 2 && wide[0] == 0x22u16 && wide[wide.len() - 1] == 0x22u16 {
        wide.subrange(1, wide.len() - 1)
    } else {
        wide
    };
    if inner.len() == 0 { None } else { Some(inner) }
}

pub fn unquoted_path(wide: &[u16]) -> (path: Option<Vec<u16>>)
    ensures
        match (path, unquoted(wide@)) {
            (Some(p), Some(q)) => p@ == q,
            (None, None) => true,
            _ => false,
        },
{
    let n = wide.len();
    let (start, end) = if n >= 2 && wide[0] == 0x22u16 && wide[n - 1] == 0x22u16 {
        (1, n - 1)
    } else {
        (0, n)
    };
    if start >= end {
        return None;
    }
    let mut out: Vec<u16> = Vec::new();
    let mut i: usize = start;
    while i < end
        invariant
            start <= i <= end <= n == wide@.len(),
            out@ =~= wide@.subrange(start as int, i as int),
        decreases end - i,
    {
        out.push(wide[i]);
        i = i + 1;
    }
    Some(out)
}

/// What to do about the per-user task.
#[derive(Debug, Clone, Copy, PartialEq, Eq, Structural)]
pub enum PerUserAction {
    /// Autostart is on; remove an owned legacy task.
    ReportEnabled,
    /// Look at the legacy task.
    CheckLegacy,
    /// Report that the task belongs to another account.
    ReportForeign,
    /// Remove the task if possible, then look at the legacy task.
    CleanUpThenCheckLegacy,
    /// Remove the task, failing if that fails, then look at the legacy task.
    RemoveThenCheckLegacy,
}

/// What to do about the legacy fixed-name task.
#[derive(Debug, Clone, Copy, PartialEq, Eq, Structural)]
pub enum LegacyAction {
    ReportEnabled,
    ReportDisabled,
    /// Remove the task if possible; autostart is off.
    CleanUpThenReportDisabled,
    /// Remove the task, failing if that fails; autostart is off.
    RemoveThenReportDisabled,
}

/// The action for each state of the per-user task.
pub open spec fn per_user_decision(state: TaskState) -> PerUserAction {
    match state {
        TaskState::Current => PerUserAction::ReportEnabled,
        TaskState::Missing => PerUserAction::CheckLegacy,
        TaskState::Foreign => PerUserAction::ReportForeign,
        TaskState::InactiveOwned => PerUserAction::CleanUpThenCheckLegacy,
        TaskState::StaleOwned => PerUserAction::RemoveThenCheckLegacy,
    }
}

/// The action for each state of the legacy task.
pub open spec fn legacy_decision(state: TaskState) -> LegacyAction {
    match state {
        TaskState::Current => LegacyAction::ReportEnabled,
        TaskState::Missing | TaskState::Foreign => LegacyAction::ReportDisabled,
        TaskState::InactiveOwned => LegacyAction::CleanUpThenReportDisabled,
        TaskState::StaleOwned => LegacyAction::RemoveThenReportDisabled,
    }
}

pub fn per_user_action(state: TaskState) -> (action: PerUserAction)
    ensures
        action == per_user_decision(state),
{
    match state {
        TaskState::Current => PerUserAction::ReportEnabled,
        TaskState::Missing => PerUserAction::CheckLegacy,
        TaskState::Foreign => PerUserAction::ReportForeign,
        TaskState::InactiveOwned => PerUserAction::CleanUpThenCheckLegacy,
        TaskState::StaleOwned => PerUserAction::RemoveThenCheckLegacy,
    }
}

pub fn legacy_action(state: TaskState) -> (action: LegacyAction)
    ensures
        action == legacy_decision(state),
{
    match state {
        TaskState::Current => LegacyAction::ReportEnabled,
        TaskState::Missing | TaskState::Foreign => LegacyAction::ReportDisabled,
        TaskState::InactiveOwned => LegacyAction::CleanUpThenReportDisabled,
        TaskState::StaleOwned => LegacyAction::RemoveThenReportDisabled,
    }
}

/// Autostart is reported on only for a task that launches the current
/// executable for this user, under either name.
pub proof fn enabled_only_for_current_task(per_user: TaskState, legacy: TaskState)
    ensures
        (per_user_decision(per_user) == PerUserAction::ReportEnabled) <==> per_user == TaskState::Current,
        (legacy_decision(legacy) == LegacyAction::ReportEnabled) <==> legacy == TaskState::Current,
{
}

/// What each state of a task leads to: a missing per-user task only sends
/// the query on to the legacy task, only a task of another account is
/// reported as foreign, an inactive task is cleaned up on a best-effort basis
/// and a stale one must be removed; a legacy task that is missing or belongs
/// to another account leaves autostart off.
pub proof fn task_states_lead_to_their_actions(state: TaskState)
    ensures
        per_user_decision(TaskState::Missing) == PerUserAction::CheckLegacy,
        (per_user_decision(state) == PerUserAction::ReportForeign) <==> state == TaskState::Foreign,
        (per_user_decision(state) == PerUserAction::CheckLegacy) <==> state == TaskState::Missing,
        (per_user_decision(state) == PerUserAction::CleanUpThenCheckLegacy) <==> state == TaskState::InactiveOwned,
        (per_user_decision(state) == PerUserAction::RemoveThenCheckLegacy) <==> state == TaskState::StaleOwned,
        (legacy_decision(state) == LegacyAction::ReportDisabled)
            <==> (state == TaskState::Missing || state == TaskState::Foreign),
        (legacy_decision(state) == LegacyAction::CleanUpThenReportDisabled) <==> state == TaskState::InactiveOwned,
        (legacy_decision(state) == LegacyAction::RemoveThenReportDisabled) <==> state == TaskState::StaleOwned,
{
}

/// The last `n` reads all showed `value`.
pub open spec fn last_reads_show(reads: Seq<Result<bool, String>>, n: int, value: bool) -> bool {
    n <= reads.len() && forall|j: int| reads.len() - n <= j < reads.len() ==> #[trigger] reads[j] == Ok::<bool, String>(value)
}

/// When verifying a change, the count of agreeing reads is exactly the length
/// of the run of reads at the end that showed the requested state; so a
/// change is confirmed exactly when the last three reads showed it.
pub proof fn verify_counts_trailing_agreement(expected: bool, reads: Seq<Result<bool, String>>, n: int)
    requires
        n >= 1,
    ensures
        verify_tally(expected, reads).consecutive >= n <==> last_reads_show(reads, n, expected),
        verify_tally(expected, reads).consecutive >= 1 ==> verify_tally(expected, reads).last_actual == Some(expected),
    decreases reads.len(),
{
    if reads.len() > 0 {
        let front = reads.drop_last();
        if n > 1 {
            verify_counts_trailing_agreement(expected, front, n - 1);
        }
        verify_counts_trailing_agreement(expected, front, 1);
        if last_reads_show(reads, n, expected) {
            assert(reads[reads.len() - 1] == Ok::<bool, String>(expected));
            if n > 1 {
                assert forall|j: int| front.len() - (n - 1) <= j < front.len() implies #[trigger] front[j] == Ok::<bool, String>(expected) by {
                    assert(front[j] == reads[j]);
                }
            }
        }
        if verify_tally(expected, reads).consecutive >= n {
            assert(reads.last() == Ok::<bool, String>(expected));
            if n > 1 {
                assert(last_reads_show(front, n - 1, expected));
            }
            assert forall|j: int| reads.len() - n <= j < reads.len() implies #[trigger] reads[j] == Ok::<bool, String>(expected) by {
                if j < reads.len() - 1 {
                    assert(reads[j] == front[j]);
                }
            }
        }
    }
}

/// When establishing the state after a restart, the count of agreeing reads
/// is exactly the length of the run of equal successful reads at the end; so
/// a state is reported exactly when the last three reads agreed on it.
pub proof fn observe_counts_trailing_agreement(reads: Seq<Result<bool, String>>, n: int)
    requires
        n >= 1,
    ensures
        observe_tally(reads).consecutive >= n <==>
            (observe_tally(reads).last_actual matches Some(v) && last_reads_show(reads, n, v)),
        observe_tally(reads).last_actual matches Some(v) ==> reads.last() == Ok::<bool, String>(v),
        observe_tally(reads).consecutive >= 1 <==> observe_tally(reads).last_actual is Some,
    decreases reads.len(),
{
    if reads.len() > 0 {
        let front = reads.drop_last();
        if n > 1 {
            observe_counts_trailing_agreement(front, n - 1);
        }
        observe_counts_trailing_agreement(front, 1);
        let t = observe_tally(reads);
        if let Some(v) = t.last_actual {
            if last_reads_show(reads, n, v) && n > 1 {
                assert(reads[reads.len() - 2] == Ok::<bool, String>(v));
                assert(front.last() == Ok::<bool, String>(v));
                assert(observe_tally(front).last_actual == Some(v));
                assert forall|j: int| front.len() - (n - 1) <= j < front.len() implies #[trigger] front[j] == Ok::<bool, String>(v) by {
                    assert(front[j] == reads[j]);
                }
            }
            if t.consecutive >= n {
                if n > 1 {
                    assert(observe_tally(front).last_actual == Some(v));
                    assert(last_reads_show(front, n - 1, v));
                }
                assert forall|j: int| reads.len() - n <= j < reads.len() implies #[trigger] reads[j] == Ok::<bool, String>(v) by {
                    if j < reads.len() - 1 {
                        assert(reads[j] == front[j]);
                    }
                }
            }
        }
    }
}

/// The verification delays add up to fifteen seconds.
pub proof fn verification_window_is_fifteen_seconds()
    ensures
        VERIFICATION_DELAY_SECS@.len() == 6,
        VERIFICATION_DELAY_SECS@[0] + VERIFICATION_DELAY_SECS@[1] + VERIFICATION_DELAY_SECS@[2]
            + VERIFICATION_DELAY_SECS@[3] + VERIFICATION_DELAY_SECS@[4] + VERIFICATION_DELAY_SECS@[5] == 15,
{
    assert(VERIFICATION_DELAY_SECS@ =~= seq![0u64, 1, 2, 3, 4, 5]);
}

} // verus!
