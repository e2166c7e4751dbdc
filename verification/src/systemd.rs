//! Read-only systemd unit inspection: unit-name safety, the parsing of
//! `systemctl show` output, and what a `systemctl` invocation's outcome means.
use vstd::prelude::*;
use crate::text::{
    append, char_is_alnum, chars_of, contains, ends_with, is_alnum, lines, lines_of, owned,
    parse_u64, parse_u64_spec, split_once, split_once_vec, string_from, trim, trim_bounds, trim_string, trim_vec,
    vec_contains_str, vec_ends_with, vec_eq, vec_eq_str, views,
};

verus! {

/// Coarse state of a unit, as the dashboard shows it.
#[derive(Clone, Copy, PartialEq, Eq, Structural, Debug)]
pub enum UnitState {
    ActiveRunning,
    Activating,
    InactiveDead,
    Failed,
    Unknown,
}

/// The label of a unit state.
pub open spec fn unit_state_label(s: UnitState) -> Seq<char> {
    match s {
        UnitState::ActiveRunning => "active (running)"@,
        UnitState::Activating => "activating"@,
        UnitState::InactiveDead => "inactive (dead)"@,
        UnitState::Failed => "failed"@,
        UnitState::Unknown => "unknown"@,
    }
}

impl UnitState {
    /// The state as shown on the dashboard.
    pub fn as_str(&self) -> (res: &'static str)
        ensures
            res@ == unit_state_label(*self),
    {
        match self {
            UnitState::ActiveRunning => "active (running)",
            UnitState::Activating => "activating",
            UnitState::InactiveDead => "inactive (dead)",
            UnitState::Failed => "failed",
            UnitState::Unknown => "unknown",
        }
    }
}

/// The view of an optional string.
pub open spec fn opt_view(o: Option<String>) -> Option<Seq<char>> {
    match o {
        Some(s) => Some(s@),
        None => None,
    }
}

/// What is known of one systemd unit.
#[derive(Clone, Debug)]
pub struct UnitStatus {
    pub unit: String,
    pub source: String,
    pub exists: bool,
    pub loaded: bool,
    pub state: String,
    pub active: bool,
    pub active_state: String,
    pub sub_state: String,
    pub description: Option<String>,
    pub since: Option<String>,
    pub main_pid: Option<u32>,
    pub memory_current_bytes: Option<u64>,
    pub tasks_current: Option<u64>,
    pub error: Option<String>,
}

/// `st` is the status reported for a unit whose state cannot be read.
pub open spec fn is_unavailable_status(
    st: UnitStatus,
    unit: Seq<char>,
    source: Seq<char>,
    error: Seq<char>,
) -> bool {
    &&& st.unit@ == unit
    &&& st.source@ == source
    &&& !st.exists
    &&& !st.loaded
    &&& st.state@ == "systemd unavailable"@
    &&& !st.active
    &&& st.active_state@ == "unavailable"@
    &&& st.sub_state@ == "unknown"@
    &&& st.description is None
    &&& st.since is None
    &&& st.main_pid is None
    &&& st.memory_current_bytes is None
    &&& st.tasks_current is None
    &&& opt_view(st.error) == Some(error)
}

impl UnitStatus {
    /// The status of a unit that could not be inspected, with the reason.
    pub fn unavailable(unit: &str, source: &str, error: &str) -> (res: Self)
        ensures
            is_unavailable_status(res, unit@, source@, error@),
    {
        UnitStatus {
            unit: owned(unit),
            source: owned(source),
            exists: false,
            loaded: false,
            state: owned("systemd unavailable"),
            active: false,
            active_state: owned("unavailable"),
            sub_state: owned("unknown"),
            description: None,
            since: None,
            main_pid: None,
            memory_current_bytes: None,
            tasks_current: None,
            error: Some(owned(error)),
        }
    }
}

/// Characters allowed in a unit name.
pub open spec fn unit_char_ok(c: char) -> bool {
    is_alnum(c) || c == '@' || c == '.' || c == '_' || c == '-'
}

/// A unit name that may be handed to `systemctl`: non-empty, at most 128
/// bytes, ending in `.service`, without `..`, and made of ASCII letters,
/// digits and `@._-` only.
pub open spec fn safe_unit_name(u: Seq<char>) -> bool {
    &&& u.len() > 0
    &&& u.len() <= 128
    &&& ends_with(u, ".service"@)
    &&& !contains(u, ".."@)
    &&& forall|i: int| 0 <= i < u.len() ==> unit_char_ok(#[trigger] u[i])
}

/// Whether `unit` is a safe unit name.
pub fn is_safe_unit_name(unit: &str) -> (res: bool)
    ensures
        res == safe_unit_name(unit@),
{
    let v = chars_of(unit);
    let mut i: usize = 0;
    while i < v.len()
        invariant
            0 <= i <= v@.len(),
            v@ == unit@,
            forall|j: int| 0 <= j < i ==> unit_char_ok(#[trigger] v@[j]),
        decreases v@.len() - i,
    {
        let c = v[i];
        if !(char_is_alnum(c) || c == '@' || c == '.' || c == '_' || c == '-') {
            assert(!unit_char_ok(v@[i as int]));
            return false;
        }
        i = i + 1;
    }
    // Every character is ASCII here, so the byte length is the character count.
    if v.len() == 0 || v.len() > 128 {
        return false;
    }
    vec_ends_with(&v, ".service") && !vec_contains_str(&v, "..")
}

/// The label `systemctl`'s active and sub state give.
pub open spec fn state_label(active_state: Seq<char>, sub_state: Seq<char>) -> Seq<char> {
    if active_state == "active"@ && sub_state == "running"@ {
        "active (running)"@
    } else if active_state == "activating"@ {
        "activating"@
    } else if active_state == "inactive"@ && sub_state == "dead"@ {
        "inactive (dead)"@
    } else if active_state == "failed"@ {
        "failed"@
    } else {
        "unknown"@
    }
}

fn state_label_of(active_state: &Vec<char>, sub_state: &Vec<char>) -> (res: &'static str)
    ensures
        res@ == state_label(active_state@, sub_state@),
{
    if vec_eq_str(active_state, "active") && vec_eq_str(sub_state, "running") {
        UnitState::ActiveRunning.as_str()
    } else if vec_eq_str(active_state, "activating") {
        UnitState::Activating.as_str()
    } else if vec_eq_str(active_state, "inactive") && vec_eq_str(sub_state, "dead") {
        UnitState::InactiveDead.as_str()
    } else if vec_eq_str(active_state, "failed") {
        UnitState::Failed.as_str()
    } else {
        UnitState::Unknown.as_str()
    }
}

/// The value of `key` among the `key=value` lines `ls`: the value of the
/// last line whose text before its first `=` is `key`.
pub open spec fn show_value(ls: Seq<Seq<char>>, key: Seq<char>) -> Option<Seq<char>>
    decreases ls.len(),
{
    if ls.len() == 0 {
        None
    } else {
        match split_once(ls.last(), '=') {
            Some((k, v)) => if k == key {
                Some(v)
            } else {
                show_value(ls.drop_last(), key)
            },
            None => show_value(ls.drop_last(), key),
        }
    }
}

fn lookup(ls: &Vec<Vec<char>>, key: &str) -> (res: Option<Vec<char>>)
    ensures
        match res {
            Some(v) => show_value(views(ls@), key@) == Some(v@),
            None => show_value(views(ls@), key@) is None,
        },
{
    let kv = chars_of(key);
    let mut i: usize = ls.len();
    assert(views(ls@).take(i as int) =~= views(ls@));
    while i > 0
        invariant
            0 <= i <= ls@.len(),
            kv@ == key@,
            show_value(views(ls@), key@) == show_value(views(ls@).take(i as int), key@),
        decreases i,
    {
        let ghost pre = views(ls@).take(i as int);
        assert(pre.drop_last() =~= views(ls@).take(i - 1));
        assert(pre.last() == ls@[i - 1]@);
        match split_once_vec(&ls[i - 1], '=') {
            Some((k, v)) => {
                if vec_eq(&k, &kv) {
                    return Some(v);
                }
            },
            None => {},
        }
        i = i - 1;
    }
    None
}

/// A value with surrounding whitespace removed; `None` when that leaves nothing
/// or, when `na` holds, the text `n/a`.
pub open spec fn trimmed_present(v: Option<Seq<char>>, na: bool) -> Option<Seq<char>> {
    match v {
        Some(t) => if trim(t).len() == 0 || (na && trim(t) == "n/a"@) {
            None
        } else {
            Some(trim(t))
        },
        None => None,
    }
}

fn trimmed_present_of(v: Option<Vec<char>>, na: bool) -> (res: Option<String>)
    ensures
        opt_view(res) == trimmed_present(
            match v {
                Some(t) => Some(t@),
                None => None,
            },
            na,
        ),
{
    match v {
        Some(t) => {
            let tt = trim_vec(&t);
            if tt.len() == 0 || (na && vec_eq_str(&tt, "n/a")) {
                None
            } else {
                Some(string_from(&tt))
            }
        },
        None => None,
    }
}

/// A positive integer value (`parse::<u64>` of the trimmed text), `None`
/// when missing, malformed or zero.
pub open spec fn nonzero_u64(v: Option<Seq<char>>) -> Option<u64> {
    match v {
        Some(t) => match parse_u64_spec(trim(t)) {
            Some(n) => if n == 0 {
                None
            } else {
                Some(n)
            },
            None => None,
        },
        None => None,
    }
}

/// As `nonzero_u64`, and `None` when the value does not fit in a `u32`.
pub open spec fn nonzero_u32(v: Option<Seq<char>>) -> Option<u32> {
    match nonzero_u64(v) {
        Some(n) => if n <= u32::MAX {
            Some(n as u32)
        } else {
            None
        },
        None => None,
    }
}

fn parse_nonzero_u64(v: &Option<Vec<char>>) -> (res: Option<u64>)
    ensures
        res == nonzero_u64(
            match v {
                Some(t) => Some(t@),
                None => None,
            },
        ),
{
    match v {
        Some(t) => {
            let (a, b) = trim_bounds(t, 0, t.len());
            assert(t@.subrange(0, t@.len() as int) =~= t@);
            match parse_u64(t, a, b) {
                Some(n) => if n == 0 {
                    None
                } else {
                    Some(n)
                },
                None => None,
            }
        },
        None => None,
    }
}

fn parse_nonzero_u32(v: &Option<Vec<char>>) -> (res: Option<u32>)
    ensures
        res == nonzero_u32(
            match v {
                Some(t) => Some(t@),
                None => None,
            },
        ),
{
    match parse_nonzero_u64(v) {
        Some(n) => if n <= 0xffff_ffff {
            Some(n as u32)
        } else {
            None
        },
        None => None,
    }
}

pub open spec fn or_default(v: Option<Seq<char>>, d: Seq<char>) -> Seq<char> {
    match v {
        Some(t) => t,
        None => d,
    }
}

/// `st` is what `systemctl show` output `input` says of `unit`.
pub open spec fn is_parsed_status(
    st: UnitStatus,
    unit: Seq<char>,
    input: Seq<char>,
    source: Seq<char>,
) -> bool {
    let ls = lines(input);
    let load_state = or_default(show_value(ls, "LoadState"@), "unknown"@);
    let active_state = or_default(show_value(ls, "ActiveState"@), "unknown"@);
    let sub_state = or_default(show_value(ls, "SubState"@), "unknown"@);
    let since_key = if active_state == "active"@ {
        "ActiveEnterTimestamp"@
    } else {
        "InactiveEnterTimestamp"@
    };
    &&& st.unit@ == or_default(show_value(ls, "Id"@), unit)
    &&& st.source@ == source
    &&& st.exists == (load_state != "not-found"@ && load_state != "not-found-bad-setting"@)
    &&& st.loaded == (load_state == "loaded"@)
    &&& st.state@ == state_label(active_state, sub_state)
    &&& st.active == (active_state == "active"@)
    &&& st.active_state@ == active_state
    &&& st.sub_state@ == sub_state
    &&& opt_view(st.description) == trimmed_present(show_value(ls, "Description"@), false)
    &&& opt_view(st.since) == trimmed_present(show_value(ls, since_key), true)
    &&& st.main_pid == nonzero_u32(show_value(ls, "MainPID"@))
    &&& st.memory_current_bytes == nonzero_u64(show_value(ls, "MemoryCurrent"@))
    &&& st.tasks_current == nonzero_u64(show_value(ls, "TasksCurrent"@))
    &&& st.error is None
}

fn value_or(v: &Option<Vec<char>>, d: &str) -> (res: Vec<char>)
    ensures
        res@ == or_default(
            match v {
                Some(t) => Some(t@),
                None => None,
            },
            d@,
        ),
{
    match v {
        Some(t) => t.clone(),
        None => chars_of(d),
    }
}

/// Reads the output of `systemctl show <unit> --property=...`.
pub fn parse_systemctl_show(unit: &str, input: &str, source: &str) -> (res: UnitStatus)
    ensures
        is_parsed_status(res, unit@, input@, source@),
{
    let iv = chars_of(input);
    let ls = lines_of(&iv);
    let load_state = value_or(&lookup(&ls, "LoadState"), "unknown");
    let active_state = value_or(&lookup(&ls, "ActiveState"), "unknown");
    let sub_state = value_or(&lookup(&ls, "SubState"), "unknown");
    let state = state_label_of(&active_state, &sub_state);
    let is_active = vec_eq_str(&active_state, "active");
    let since_raw = if is_active {
        lookup(&ls, "ActiveEnterTimestamp")
    } else {
        lookup(&ls, "InactiveEnterTimestamp")
    };
    let since = trimmed_present_of(since_raw, true);
    let description = trimmed_present_of(lookup(&ls, "Description"), false);
    let id = value_or(&lookup(&ls, "Id"), unit);
    let exists = !vec_eq_str(&load_state, "not-found") && !vec_eq_str(
        &load_state,
        "not-found-bad-setting",
    );
    let loaded = vec_eq_str(&load_state, "loaded");
    let main_pid = parse_nonzero_u32(&lookup(&ls, "MainPID"));
    let memory = parse_nonzero_u64(&lookup(&ls, "MemoryCurrent"));
    let tasks = parse_nonzero_u64(&lookup(&ls, "TasksCurrent"));
    UnitStatus {
        unit: string_from(&id),
        source: owned(source),
        exists,
        loaded,
        state: owned(state),
        active: is_active,
        active_state: string_from(&active_state),
        sub_state: string_from(&sub_state),
        description,
        since,
        main_pid,
        memory_current_bytes: memory,
        tasks_current: tasks,
        error: None,
    }
}

/// Why a systemd operation did not happen.
#[derive(Clone, Debug)]
pub enum SystemdError {
    NotImplemented(String),
    UnsafeUnitName(String),
    CommandFailed { action: String, unit: String, message: String },
    Timeout { action: String, unit: String },
}

/// The message of a systemd error.
pub open spec fn systemd_error_message(e: SystemdError) -> Seq<char> {
    match e {
        SystemdError::NotImplemented(u) => "systemd control is not implemented in this phase (unit: "@
            + u@ + ")"@,
        SystemdError::UnsafeUnitName(u) => "unsafe systemd unit name rejected: "@ + u@,
        SystemdError::CommandFailed { action, unit, message } => "systemctl "@ + action@
            + " failed for "@ + unit@ + ": "@ + message@,
        SystemdError::Timeout { action, unit } => "systemctl "@ + action@ + " timed out for "@
            + unit@,
    }
}

impl SystemdError {
    /// The error's message.
    pub fn message(&self) -> (res: String)
        ensures
            res@ == systemd_error_message(*self),
    {
        let mut s = String::new();
        match self {
            SystemdError::NotImplemented(u) => {
                append(&mut s, "systemd control is not implemented in this phase (unit: ");
                append(&mut s, u.as_str());
                append(&mut s, ")");
            },
            SystemdError::UnsafeUnitName(u) => {
                append(&mut s, "unsafe systemd unit name rejected: ");
                append(&mut s, u.as_str());
            },
            SystemdError::CommandFailed { action, unit, message } => {
                append(&mut s, "systemctl ");
                append(&mut s, action.as_str());
                append(&mut s, " failed for ");
                append(&mut s, unit.as_str());
                append(&mut s, ": ");
                append(&mut s, message.as_str());
            },
            SystemdError::Timeout { action, unit } => {
                append(&mut s, "systemctl ");
                append(&mut s, action.as_str());
                append(&mut s, " timed out for ");
                append(&mut s, unit.as_str());
            },
        }
        s
    }
}

/// How an invocation of `systemctl` ended, as the caller observed it.
#[derive(Clone, Debug)]
pub enum CommandOutcome {
    /// The process ran and exited; `status` describes its exit status.
    Exited { success: bool, stdout: String, stderr: String, status: String },
    /// The process could not be started.
    SpawnFailed(String),
    /// No answer within the time limit.
    TimedOut,
    /// systemd is not queried on this platform.
    Unsupported,
}

/// The failure text of an exited command: its trimmed standard error, or
/// `prefix` followed by the exit status when that is empty.
pub open spec fn failure_text(stderr: Seq<char>, prefix: Seq<char>, status: Seq<char>) -> Seq<char> {
    if trim(stderr).len() == 0 {
        prefix + status
    } else {
        trim(stderr)
    }
}

fn failure_text_of(stderr: &str, prefix: &str, status: &str) -> (res: String)
    ensures
        res@ == failure_text(stderr@, prefix@, status@),
{
    let t = trim_string(stderr);
    if t.as_str().unicode_len() == 0 {
        let mut s = owned(prefix);
        append(&mut s, status);
        s
    } else {
        t
    }
}

/// The result of `systemctl show` for `unit` that ended with `outcome`.
pub open spec fn show_result(
    unit: Seq<char>,
    outcome: CommandOutcome,
    res: Result<UnitStatus, SystemdError>,
) -> bool {
    if !safe_unit_name(unit) {
        res matches Err(SystemdError::UnsafeUnitName(u)) && u@ == unit
    } else {
        match outcome {
            CommandOutcome::Exited { success, stdout, stderr, status } => if success {
                res matches Ok(st) && is_parsed_status(st, unit, stdout@, "systemd"@)
            } else {
                res matches Ok(st) && is_unavailable_status(
                    st,
                    unit,
                    "systemd"@,
                    failure_text(stderr@, "systemctl show exited with "@, status@),
                )
            },
            CommandOutcome::SpawnFailed(e) => res matches Ok(st) && is_unavailable_status(
                st,
                unit,
                "systemd"@,
                "failed to execute systemctl: "@ + e@,
            ),
            CommandOutcome::TimedOut => res matches Ok(st) && is_unavailable_status(
                st,
                unit,
                "systemd"@,
                "systemctl show timed out"@,
            ),
            CommandOutcome::Unsupported => res matches Ok(st) && is_unavailable_status(
                st,
                unit,
                "fallback"@,
                "systemd is only queried on Linux hosts"@,
            ),
        }
    }
}

/// The result of `systemctl <action> <unit>` that ended with `outcome`.
pub open spec fn action_result(
    action: Seq<char>,
    unit: Seq<char>,
    outcome: CommandOutcome,
    res: Result<(), SystemdError>,
) -> bool {
    if !safe_unit_name(unit) {
        res matches Err(SystemdError::UnsafeUnitName(u)) && u@ == unit
    } else {
        match outcome {
            CommandOutcome::Exited { success, stdout, stderr, status } => if success {
                res is Ok
            } else {
                res matches Err(SystemdError::CommandFailed { action: a, unit: u, message: m })
                    && a@ == action && u@ == unit && m@ == failure_text(
                    stderr@,
                    "systemctl exited with "@,
                    status@,
                )
            },
            CommandOutcome::SpawnFailed(e) => res matches Err(
                SystemdError::CommandFailed { action: a, unit: u, message: m },
            ) && a@ == action && u@ == unit && m@ == "failed to execute systemctl: "@ + e@,
            CommandOutcome::TimedOut => res matches Err(SystemdError::Timeout { action: a, unit: u })
                && a@ == action && u@ == unit,
            CommandOutcome::Unsupported => res matches Err(SystemdError::NotImplemented(u)) && u@
                == unit,
        }
    }
}

/// The host's systemd, driven through `systemctl`.
#[derive(Clone, Copy, Debug, Default)]
pub struct RealSystemd;

impl RealSystemd {
    /// Refuses a unit name that may not be handed to `systemctl`.
    pub fn check_unit(&self, unit: &str) -> (res: Result<(), SystemdError>)
        ensures
            res is Ok <==> safe_unit_name(unit@),
            res matches Err(SystemdError::UnsafeUnitName(u)) ==> u@ == unit@,
            res is Err ==> res matches Err(SystemdError::UnsafeUnitName(_)),
    {
        if is_safe_unit_name(unit) {
            Ok(())
        } else {
            Err(SystemdError::UnsafeUnitName(owned(unit)))
        }
    }

    /// The status of `unit` given how `systemctl show` ended.
    pub fn status_from_outcome(&self, unit: &str, outcome: &CommandOutcome) -> (res: Result<
        UnitStatus,
        SystemdError,
    >)
        ensures
            show_result(unit@, *outcome, res),
    {
        if !is_safe_unit_name(unit) {
            return Err(SystemdError::UnsafeUnitName(owned(unit)));
        }
        match outcome {
            CommandOutcome::Exited { success, stdout, stderr, status } => {
                if *success {
                    Ok(parse_systemctl_show(unit, stdout.as_str(), "systemd"))
                } else {
                    let msg = failure_text_of(
                        stderr.as_str(),
                        "systemctl show exited with ",
                        status.as_str(),
                    );
                    Ok(UnitStatus::unavailable(unit, "systemd", msg.as_str()))
                }
            },
            CommandOutcome::SpawnFailed(e) => {
                let mut msg = owned("failed to execute systemctl: ");
                append(&mut msg, e.as_str());
                Ok(UnitStatus::unavailable(unit, "systemd", msg.as_str()))
            },
            CommandOutcome::TimedOut => Ok(
                UnitStatus::unavailable(unit, "systemd", "systemctl show timed out"),
            ),
            CommandOutcome::Unsupported => Ok(
                UnitStatus::unavailable(unit, "fallback", "systemd is only queried on Linux hosts"),
            ),
        }
    }

    /// The result of a start, stop or restart given how `systemctl` ended.
    pub fn action_from_outcome(&self, action: &str, unit: &str, outcome: &CommandOutcome) -> (res:
        Result<(), SystemdError>)
        ensures
            action_result(action@, unit@, *outcome, res),
    {
        if !is_safe_unit_name(unit) {
            return Err(SystemdError::UnsafeUnitName(owned(unit)));
        }
        match outcome {
            CommandOutcome::Exited { success, stdout: _, stderr, status } => {
                if *success {
                    Ok(())
                } else {
                    let msg = failure_text_of(
                        stderr.as_str(),
                        "systemctl exited with ",
                        status.as_str(),
                    );
                    Err(
                        SystemdError::CommandFailed {
                            action: owned(action),
                            unit: owned(unit),
                            message: msg,
                        },
                    )
                }
            },
            CommandOutcome::SpawnFailed(e) => {
                let mut msg = owned("failed to execute systemctl: ");
                append(&mut msg, e.as_str());
                Err(
                    SystemdError::CommandFailed {
                        action: owned(action),
                        unit: owned(unit),
                        message: msg,
                    },
                )
            },
            CommandOutcome::TimedOut => Err(
                SystemdError::Timeout { action: owned(action), unit: owned(unit) },
            ),
            CommandOutcome::Unsupported => Err(SystemdError::NotImplemented(owned(unit))),
        }
    }
}

/// A stand-in for systemd in tests: units named for a travel slot run, the
/// others are stopped, and control is refused.
#[derive(Clone, Copy, Debug, Default)]
pub struct TestSystemd;

/// Whether the test stand-in reports `unit` as running.
pub open spec fn test_unit_active(unit: Seq<char>) -> bool {
    contains(unit, "travel-a"@) || contains(unit, "travel-b"@)
}

impl TestSystemd {
    /// A fixed status: units named for a travel slot run, others are stopped.
    pub fn get_status(&self, unit: &str) -> (res: Result<UnitStatus, SystemdError>)
        ensures
            res matches Ok(st) && {
                let active = test_unit_active(unit@);
                &&& st.unit@ == unit@
                &&& st.source@ == "test"@
                &&& st.exists && st.loaded
                &&& st.state@ == (if active {
                    "active (running)"@
                } else {
                    "inactive (dead)"@
                })
                &&& st.active == active
                &&& st.active_state@ == (if active {
                    "active"@
                } else {
                    "inactive"@
                })
                &&& st.sub_state@ == (if active {
                    "running"@
                } else {
                    "dead"@
                })
                &&& opt_view(st.description) == Some("Test ARK unit "@ + unit@)
                &&& st.since is None && st.main_pid is None
                &&& st.memory_current_bytes is None && st.tasks_current is None
                &&& st.error is None
            },
    {
        let v = chars_of(unit);
        let active = vec_contains_str(&v, "travel-a") || vec_contains_str(&v, "travel-b");
        let mut description = owned("Test ARK unit ");
        append(&mut description, unit);
        Ok(
            UnitStatus {
                unit: owned(unit),
                source: owned("test"),
                exists: true,
                loaded: true,
                state: owned(
                    if active {
                        UnitState::ActiveRunning.as_str()
                    } else {
                        UnitState::InactiveDead.as_str()
                    },
                ),
                active,
                active_state: owned(
                    if active {
                        "active"
                    } else {
                        "inactive"
                    },
                ),
                sub_state: owned(
                    if active {
                        "running"
                    } else {
                        "dead"
                    },
                ),
                description: Some(description),
                since: None,
                main_pid: None,
                memory_current_bytes: None,
                tasks_current: None,
                error: None,
            },
        )
    }

    /// Starting is not available here.
    pub fn start_unit(&self, unit: &str) -> (res: Result<(), SystemdError>)
        ensures
            res matches Err(SystemdError::NotImplemented(u)) && u@ == unit@,
    {
        Err(SystemdError::NotImplemented(owned(unit)))
    }

    /// Stopping is not available here.
    pub fn stop_unit(&self, unit: &str) -> (res: Result<(), SystemdError>)
        ensures
            res matches Err(SystemdError::NotImplemented(u)) && u@ == unit@,
    {
        Err(SystemdError::NotImplemented(owned(unit)))
    }

    /// Restarting is not available here.
    pub fn restart_unit(&self, unit: &str) -> (res: Result<(), SystemdError>)
        ensures
            res matches Err(SystemdError::NotImplemented(u)) && u@ == unit@,
    {
        Err(SystemdError::NotImplemented(owned(unit)))
    }
}

/// The state of a unit the dashboard shows briefly.
#[derive(Clone, Debug)]
pub struct UnitSummary {
    pub active: bool,
    pub enabled: bool,
    pub active_state: String,
    pub sub_state: String,
}

/// The value of `key` in `systemctl show` output, or `unknown`.
pub open spec fn shown_or_unknown(input: Seq<char>, key: Seq<char>) -> Seq<char> {
    match show_value(lines(input), key) {
        Some(v) => v,
        None => "unknown"@,
    }
}

/// A unit's summary from `systemctl show -p ActiveState -p SubState -p
/// UnitFileState` output: active when its state is `active`, enabled when
/// its unit file is `enabled`; a missing property reads as `unknown`.
pub fn unit_summary_from(input: &str) -> (res: UnitSummary)
    ensures
        res.active_state@ == shown_or_unknown(input@, "ActiveState"@),
        res.sub_state@ == shown_or_unknown(input@, "SubState"@),
        res.active == (shown_or_unknown(input@, "ActiveState"@) == "active"@),
        res.enabled == (shown_or_unknown(input@, "UnitFileState"@) == "enabled"@),
{
    let iv = chars_of(input);
    let ls = lines_of(&iv);
    let active_state = value_or(&lookup(&ls, "ActiveState"), "unknown");
    let sub_state = value_or(&lookup(&ls, "SubState"), "unknown");
    let file_state = value_or(&lookup(&ls, "UnitFileState"), "unknown");
    UnitSummary {
        active: vec_eq_str(&active_state, "active"),
        enabled: vec_eq_str(&file_state, "enabled"),
        active_state: string_from(&active_state),
        sub_state: string_from(&sub_state),
    }
}

/// The summary of a unit whose state could not be read.
pub fn unit_summary_unavailable() -> (res: UnitSummary)
    ensures
        !res.active && !res.enabled && res.active_state@ == "unavailable"@ && res.sub_state@ == "unknown"@,
{
    UnitSummary { active: false, enabled: false, active_state: owned("unavailable"), sub_state: owned("unknown") }
}


/// The state label of a parsed unit: a unit whose `ActiveState` is
/// `failed` is labelled `failed` whatever its sub state, and the label is
/// `active (running)` exactly for an active unit whose sub state is
/// `running`.
pub proof fn lemma_parsed_state_label(st: UnitStatus, unit: Seq<char>, input: Seq<char>, source: Seq<char>)
    requires
        is_parsed_status(st, unit, input, source),
    ensures
        st.active_state@ == "failed"@ ==> st.state@ == "failed"@,
        st.state@ == "active (running)"@ <==> (st.active && st.sub_state@ == "running"@),
{
    reveal_strlit("failed");
    reveal_strlit("active");
    reveal_strlit("activating");
    reveal_strlit("inactive");
    reveal_strlit("running");
    reveal_strlit("active (running)");
    reveal_strlit("inactive (dead)");
    reveal_strlit("unknown");
    assert("failed"@[0] != "active"@[0]);
    assert("failed"@.len() != "activating"@.len());
    assert("failed"@.len() != "inactive"@.len());
    assert("active (running)"@.len() != "activating"@.len());
    assert("active (running)"@.len() != "inactive (dead)"@.len());
    assert("active (running)"@.len() != "failed"@.len());
    assert("active (running)"@.len() != "unknown"@.len());
}

} // verus!
