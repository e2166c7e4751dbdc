//! Guarded operations: capability flags, the checks in front of every
//! systemd action, and the resource guard in front of on-demand maps.
use vstd::prelude::*;
use crate::config::{Config, ServerSlot, map_estimate};
use crate::text::{append, cat2, cat3, decimal, eq_str, owned, u64_to_string};

verus! {

/// An operation on a server slot.
#[derive(Clone, Copy, Debug, PartialEq, Eq, Structural)]
pub enum ServerAction {
    Start,
    Stop,
    Restart,
    Backup,
}

pub open spec fn action_label(a: ServerAction) -> Seq<char> {
    match a {
        ServerAction::Start => "start"@,
        ServerAction::Stop => "stop"@,
        ServerAction::Restart => "restart"@,
        ServerAction::Backup => "backup"@,
    }
}

impl ServerAction {
    /// The action as named in audit records and `systemctl`.
    pub fn as_str(&self) -> (res: &'static str)
        ensures
            res@ == action_label(*self),
    {
        match self {
            ServerAction::Start => "start",
            ServerAction::Stop => "stop",
            ServerAction::Restart => "restart",
            ServerAction::Backup => "backup",
        }
    }
}

/// What the operator sent with an action.
#[derive(Clone, Debug)]
pub struct ActionRequest {
    pub confirm: bool,
    pub strong_confirm: bool,
    pub admin_override: bool,
    pub reason: String,
}

/// Whether one capability is on, and why not when it is off.
#[derive(Clone, Debug)]
pub struct CapabilityItem {
    pub enabled: bool,
    pub available: bool,
    pub reason: String,
}

#[derive(Clone, Debug)]
pub struct Capabilities {
    pub systemd_control: CapabilityItem,
    pub backup: CapabilityItem,
    pub rcon: CapabilityItem,
    pub discord: CapabilityItem,
    pub config_writes: CapabilityItem,
    pub mod_management: CapabilityItem,
    pub restore: CapabilityItem,
    pub travel_scheduler: CapabilityItem,
    pub maintenance: CapabilityItem,
    pub mode: String,
    pub backend_source: String,
}

/// An item that is on exactly when `on`, with `available` or the reason it is off.
pub open spec fn is_item(i: CapabilityItem, on: bool, off_reason: Seq<char>) -> bool {
    &&& i.enabled == on
    &&& i.available == on
    &&& i.reason@ == if on {
        "available"@
    } else {
        off_reason
    }
}

fn item(enabled: bool, available: bool, disabled_reason: &str) -> (res: CapabilityItem)
    ensures
        res.enabled == enabled,
        res.available == available,
        res.reason@ == if enabled && available {
            "available"@
        } else {
            disabled_reason@
        },
{
    CapabilityItem {
        enabled,
        available,
        reason: if enabled && available {
            owned("available")
        } else {
            owned(disabled_reason)
        },
    }
}

/// What the dashboard may offer, from the operation flags.
pub fn capabilities(config: &Config, backend_source: &str) -> (res: Capabilities)
    ensures
        ({
            let o = config.operations;
            let rcon_on = o.rcon_enabled && config.rcon.enabled;
            &&& is_item(res.systemd_control, o.systemd_control_enabled, "systemd control disabled in manager config"@)
            &&& is_item(res.backup, o.backup_enabled, "backup disabled in manager config"@)
            &&& is_item(res.rcon, rcon_on, "RCON disabled or unconfigured"@)
            &&& is_item(res.discord, false, "Discord actions are not implemented"@)
            &&& is_item(res.config_writes, o.config_writes_enabled, "config writes disabled in manager config"@)
            &&& is_item(res.mod_management, o.mod_management_enabled, "mod management disabled in manager config"@)
            &&& is_item(res.restore, false, "backup restore is not implemented"@)
            &&& is_item(res.travel_scheduler, o.travel_scheduler_enabled, "travel scheduler disabled in manager config"@)
            &&& is_item(res.maintenance, o.maintenance_enabled, "ARK maintenance disabled in manager config"@)
            &&& res.mode@ == "guarded_operations_foundation"@
            &&& res.backend_source@ == backend_source@
        }),
{
    let ops = &config.operations;
    let rcon_on = ops.rcon_enabled && config.rcon.enabled;
    Capabilities {
        systemd_control: item(
            ops.systemd_control_enabled,
            ops.systemd_control_enabled,
            "systemd control disabled in manager config",
        ),
        backup: item(ops.backup_enabled, ops.backup_enabled, "backup disabled in manager config"),
        rcon: item(rcon_on, rcon_on, "RCON disabled or unconfigured"),
        discord: item(false, false, "Discord actions are not implemented"),
        config_writes: item(
            ops.config_writes_enabled,
            ops.config_writes_enabled,
            "config writes disabled in manager config",
        ),
        mod_management: item(
            ops.mod_management_enabled,
            ops.mod_management_enabled,
            "mod management disabled in manager config",
        ),
        restore: item(false, false, "backup restore is not implemented"),
        travel_scheduler: item(
            ops.travel_scheduler_enabled,
            ops.travel_scheduler_enabled,
            "travel scheduler disabled in manager config",
        ),
        maintenance: item(
            ops.maintenance_enabled,
            ops.maintenance_enabled,
            "ARK maintenance disabled in manager config",
        ),
        mode: owned("guarded_operations_foundation"),
        backend_source: owned(backend_source),
    }
}

/// Why a guarded action was refused.
#[derive(Clone, Debug, PartialEq, Eq)]
pub enum GuardError {
    ControlDisabled,
    BackupDisabled,
    InvalidConfirmation,
    HomeProtected,
    ResourcePolicyBlocked(String),
    PlayersOnline,
}

pub open spec fn guard_code(e: GuardError) -> Seq<char> {
    match e {
        GuardError::ControlDisabled => "CONTROL_DISABLED"@,
        GuardError::BackupDisabled => "BACKUP_DISABLED"@,
        GuardError::InvalidConfirmation => "INVALID_CONFIRMATION"@,
        GuardError::HomeProtected => "HOME_PROTECTED"@,
        GuardError::ResourcePolicyBlocked(_) => "RESOURCE_POLICY_BLOCKED"@,
        GuardError::PlayersOnline => "PLAYERS_ONLINE"@,
    }
}

pub open spec fn guard_message(e: GuardError) -> Seq<char> {
    match e {
        GuardError::ControlDisabled => "Systemd control is disabled in manager config."@,
        GuardError::BackupDisabled => "Backups are disabled in manager config."@,
        GuardError::InvalidConfirmation => "This action requires explicit confirmation."@,
        GuardError::HomeProtected => "Home stop is protected by manager policy."@,
        GuardError::ResourcePolicyBlocked(m) => m@,
        GuardError::PlayersOnline => "Players are online; explicit admin override is required."@,
    }
}

impl GuardError {
    /// The stable error code the API reports.
    pub fn code(&self) -> (res: &'static str)
        ensures
            res@ == guard_code(*self),
    {
        match self {
            GuardError::ControlDisabled => "CONTROL_DISABLED",
            GuardError::BackupDisabled => "BACKUP_DISABLED",
            GuardError::InvalidConfirmation => "INVALID_CONFIRMATION",
            GuardError::HomeProtected => "HOME_PROTECTED",
            GuardError::ResourcePolicyBlocked(_) => "RESOURCE_POLICY_BLOCKED",
            GuardError::PlayersOnline => "PLAYERS_ONLINE",
        }
    }

    /// The human-readable error message.
    pub fn message(&self) -> (res: String)
        ensures
            res@ == guard_message(*self),
    {
        match self {
            GuardError::ControlDisabled => owned("Systemd control is disabled in manager config."),
            GuardError::BackupDisabled => owned("Backups are disabled in manager config."),
            GuardError::InvalidConfirmation => owned("This action requires explicit confirmation."),
            GuardError::HomeProtected => owned("Home stop is protected by manager policy."),
            GuardError::ResourcePolicyBlocked(m) => m.clone(),
            GuardError::PlayersOnline => owned(
                "Players are online; explicit admin override is required.",
            ),
        }
    }
}

/// Host resource readings, in the whole units the guard compares: the
/// caller rounds the sampled gigabytes and percentages.
#[derive(Clone, Debug)]
pub struct ResourceFacts {
    /// Where the sample came from (`host` for a real reading).
    pub source: String,
    /// Whether total RAM was read as a positive amount.
    pub ram_total_positive: bool,
    pub available_ram_mb: u32,
    pub ram_used_percent: u32,
    pub swap_used_percent: u32,
    pub free_swap_mb: u32,
    /// Free disk space in whole MB (rounded down).
    pub disk_free_mb: u64,
    /// Free disk space in GB with one decimal, as shown to operators.
    pub disk_free_text: String,
}

/// The resource guard's verdict and the numbers it used.
#[derive(Clone, Debug)]
pub struct TravelResourceGuardStatus {
    pub enabled: bool,
    pub allowed: bool,
    pub reason: String,
    pub active_travel_slots: usize,
    pub max_travel_servers: u32,
    pub sample_source: String,
    pub min_available_ram_mb: u32,
    pub available_ram_mb: u32,
    pub ram_used_percent: u32,
    pub max_ram_used_percent: u8,
    pub swap_used_percent: u32,
    pub max_swap_used_percent: u8,
    pub free_swap_mb: u32,
    pub min_free_swap_mb: u32,
    pub disk_free_mb: u64,
    pub min_disk_free_gb: u32,
    /// The map's memory estimate used for the RAM floor (0 when not map-aware).
    pub map_memory_estimate_mb: u32,
}

/// The RAM floor and the map's estimate: for a known map, its estimate plus
/// the reserve plus, when a travel slot already runs, the second-slot extra;
/// otherwise the first- or second-travel floor.
pub open spec fn ram_floor(c: Config, active: nat, map: Option<Seq<char>>) -> (int, int) {
    let g = c.resource_guard;
    match map {
        Some(name) => {
            let e = map_estimate(g, name);
            (e + g.map_memory_reserve_mb + if active == 0 {
                0
            } else {
                g.second_slot_extra_mb as int
            }, e as int)
        },
        None => (if active == 0 {
            g.min_available_ram_mb_for_first_travel as int
        } else {
            g.min_available_ram_mb_for_second_travel as int
        }, 0),
    }
}

/// The guard's verdict and reason, checked in order.
pub open spec fn guard_verdict(c: Config, f: ResourceFacts, active: nat, min_ram: int) -> (bool, Seq<char>) {
    let g = c.resource_guard;
    let max = c.resource_policy.max_travel_servers;
    let unknown = f.source@ != "host"@ || !f.ram_total_positive;
    if !g.enabled {
        (true, "Resource guard disabled by config."@)
    } else if active >= max {
        (false, "Travel rejected: active travel slot count "@ + decimal(active) + " is already at max "@
            + decimal(max as nat) + "."@)
    } else if unknown && g.block_on_unknown_resources {
        (false, "Travel rejected: resource sample unavailable; refusing to start an on-demand map."@)
    } else if unknown {
        (true, "Resource sample unavailable; guard skipped by config."@)
    } else if f.available_ram_mb < min_ram {
        (false, "Travel rejected: not enough available RAM ("@ + decimal(f.available_ram_mb as nat)
            + " MB available, need "@ + decimal(min_ram as nat) + " MB)."@)
    } else if f.ram_used_percent > g.max_ram_used_percent_before_travel {
        (false, "Travel rejected: RAM usage is too high ("@ + decimal(f.ram_used_percent as nat)
            + "% used, max "@ + decimal(g.max_ram_used_percent_before_travel as nat) + "%)."@)
    } else if f.swap_used_percent > g.max_swap_used_percent {
        (false, "Travel rejected: swap usage is too high ("@ + decimal(f.swap_used_percent as nat)
            + "% used, max "@ + decimal(g.max_swap_used_percent as nat) + "%)."@)
    } else if f.free_swap_mb < g.min_free_swap_mb {
        (false, "Travel rejected: free swap is too low ("@ + decimal(f.free_swap_mb as nat)
            + " MB free, need "@ + decimal(g.min_free_swap_mb as nat) + " MB)."@)
    } else if f.disk_free_mb < g.min_disk_free_gb as int * 1024 {
        (false, "Travel rejected: disk free space is too low ("@ + f.disk_free_text@ + " GB free, need "@
            + decimal(g.min_disk_free_gb as nat) + " GB)."@)
    } else {
        (true, "Resource guard passed."@)
    }
}

/// The RAM floor fits in a `u32`.
pub open spec fn ram_floor_fits(c: Config, active: nat, map: Option<Seq<char>>) -> bool {
    ram_floor(c, active, map).0 <= u32::MAX
}

/// Whether an on-demand map may start now, and why.
pub fn travel_resource_guard_status(
    config: &Config,
    facts: &ResourceFacts,
    active_travel_slots: usize,
    map_ark_name: Option<&str>,
) -> (res: TravelResourceGuardStatus)
    requires
        ram_floor_fits(
            *config,
            active_travel_slots as nat,
            match map_ark_name {
                Some(n) => Some(n@),
                None => None,
            },
        ),
    ensures
        ({
            let mn = match map_ark_name {
                Some(n) => Some(n@),
                None => None,
            };
            let floor = ram_floor(*config, active_travel_slots as nat, mn);
            let v = guard_verdict(*config, *facts, active_travel_slots as nat, floor.0);
            let g = config.resource_guard;
            &&& res.enabled == g.enabled
            &&& res.allowed == v.0
            &&& res.reason@ == v.1
            &&& res.active_travel_slots == active_travel_slots
            &&& res.max_travel_servers == config.resource_policy.max_travel_servers
            &&& res.sample_source@ == facts.source@
            &&& res.min_available_ram_mb == floor.0
            &&& res.map_memory_estimate_mb == floor.1
            &&& res.available_ram_mb == facts.available_ram_mb
            &&& res.ram_used_percent == facts.ram_used_percent
            &&& res.max_ram_used_percent == g.max_ram_used_percent_before_travel
            &&& res.swap_used_percent == facts.swap_used_percent
            &&& res.max_swap_used_percent == g.max_swap_used_percent
            &&& res.free_swap_mb == facts.free_swap_mb
            &&& res.min_free_swap_mb == g.min_free_swap_mb
            &&& res.disk_free_mb == facts.disk_free_mb
            &&& res.min_disk_free_gb == g.min_disk_free_gb
        }),
{
    let g = &config.resource_guard;
    let max_travel_servers = config.resource_policy.max_travel_servers;
    let (min_available_ram_mb, map_memory_estimate_mb) = match map_ark_name {
        Some(name) => {
            let estimate = g.map_estimate_mb(name);
            let extra = if active_travel_slots == 0 {
                0
            } else {
                g.second_slot_extra_mb
            };
            (estimate + g.map_memory_reserve_mb + extra, estimate)
        },
        None => {
            let threshold = if active_travel_slots == 0 {
                g.min_available_ram_mb_for_first_travel
            } else {
                g.min_available_ram_mb_for_second_travel
            };
            (threshold, 0)
        },
    };
    let unknown = !eq_str(facts.source.as_str(), "host") || !facts.ram_total_positive;
    let (allowed, reason) = if !g.enabled {
        (true, owned("Resource guard disabled by config."))
    } else if active_travel_slots as u64 >= max_travel_servers as u64 {
        let a = u64_to_string(active_travel_slots as u64);
        let m = u64_to_string(max_travel_servers as u64);
        let mut r = cat3("Travel rejected: active travel slot count ", a.as_str(), " is already at max ");
        append(&mut r, m.as_str());
        append(&mut r, ".");
        (false, r)
    } else if unknown && g.block_on_unknown_resources {
        (false, owned("Travel rejected: resource sample unavailable; refusing to start an on-demand map."))
    } else if unknown {
        (true, owned("Resource sample unavailable; guard skipped by config."))
    } else if facts.available_ram_mb < min_available_ram_mb {
        let a = u64_to_string(facts.available_ram_mb as u64);
        let m = u64_to_string(min_available_ram_mb as u64);
        let mut r = cat3("Travel rejected: not enough available RAM (", a.as_str(), " MB available, need ");
        append(&mut r, m.as_str());
        append(&mut r, " MB).");
        (false, r)
    } else if facts.ram_used_percent > g.max_ram_used_percent_before_travel as u32 {
        let a = u64_to_string(facts.ram_used_percent as u64);
        let m = u64_to_string(g.max_ram_used_percent_before_travel as u64);
        let mut r = cat3("Travel rejected: RAM usage is too high (", a.as_str(), "% used, max ");
        append(&mut r, m.as_str());
        append(&mut r, "%).");
        (false, r)
    } else if facts.swap_used_percent > g.max_swap_used_percent as u32 {
        let a = u64_to_string(facts.swap_used_percent as u64);
        let m = u64_to_string(g.max_swap_used_percent as u64);
        let mut r = cat3("Travel rejected: swap usage is too high (", a.as_str(), "% used, max ");
        append(&mut r, m.as_str());
        append(&mut r, "%).");
        (false, r)
    } else if facts.free_swap_mb < g.min_free_swap_mb {
        let a = u64_to_string(facts.free_swap_mb as u64);
        let m = u64_to_string(g.min_free_swap_mb as u64);
        let mut r = cat3("Travel rejected: free swap is too low (", a.as_str(), " MB free, need ");
        append(&mut r, m.as_str());
        append(&mut r, " MB).");
        (false, r)
    } else if facts.disk_free_mb < g.min_disk_free_gb as u64 * 1024 {
        let m = u64_to_string(g.min_disk_free_gb as u64);
        let mut r = cat3(
            "Travel rejected: disk free space is too low (",
            facts.disk_free_text.as_str(),
            " GB free, need ",
        );
        append(&mut r, m.as_str());
        append(&mut r, " GB).");
        (false, r)
    } else {
        (true, owned("Resource guard passed."))
    };
    TravelResourceGuardStatus {
        enabled: g.enabled,
        allowed,
        reason,
        active_travel_slots,
        max_travel_servers,
        sample_source: facts.source.clone(),
        min_available_ram_mb,
        available_ram_mb: facts.available_ram_mb,
        ram_used_percent: facts.ram_used_percent,
        max_ram_used_percent: g.max_ram_used_percent_before_travel,
        swap_used_percent: facts.swap_used_percent,
        max_swap_used_percent: g.max_swap_used_percent,
        free_swap_mb: facts.free_swap_mb,
        min_free_swap_mb: g.min_free_swap_mb,
        disk_free_mb: facts.disk_free_mb,
        min_disk_free_gb: g.min_disk_free_gb,
        map_memory_estimate_mb,
    }
}

/// Everything the systemd-action guard looks at.
pub struct SystemdGuardInput<'a> {
    pub config: &'a Config,
    pub slot_key: &'a str,
    pub slot: &'a ServerSlot,
    pub action: ServerAction,
    pub req: &'a ActionRequest,
    pub facts: &'a ResourceFacts,
    pub active_travel_slots: usize,
    pub player_count: u32,
    /// ARK map name of the destination; `None` for the generic RAM floors.
    pub map_ark_name: Option<String>,
}

/// Reasons accepted for stopping Home.
pub open spec fn home_stop_reason_ok(r: Seq<char>) -> bool {
    r == "manual_admin_override"@ || r == "resource_standby_preparation"@
}

/// The guard's answer: `None` to allow, else the refusal.
pub open spec fn guard_outcome(
    c: Config,
    slot_key: Seq<char>,
    slot: ServerSlot,
    action: ServerAction,
    req: ActionRequest,
    f: ResourceFacts,
    active: nat,
    players: u32,
    map: Option<Seq<char>>,
) -> Option<GuardError> {
    let o = c.operations;
    let stop_or_restart = action == ServerAction::Stop || action == ServerAction::Restart;
    if !o.systemd_control_enabled {
        Some(GuardError::ControlDisabled)
    } else if !slot.enabled {
        Some(GuardError::ResourcePolicyBlocked(arbitrary()))
    } else if stop_or_restart && o.require_confirmation_token && !req.confirm {
        Some(GuardError::InvalidConfirmation)
    } else if slot_key == "home"@ {
        if action == ServerAction::Stop && (!o.allow_home_manual_stop || !req.strong_confirm
            || !home_stop_reason_ok(req.reason@)) {
            Some(GuardError::HomeProtected)
        } else {
            None
        }
    } else if stop_or_restart && players > 0 && !req.admin_override {
        Some(GuardError::PlayersOnline)
    } else if action == ServerAction::Stop && !o.allow_travel_manual_stop {
        Some(GuardError::ControlDisabled)
    } else if action == ServerAction::Start && !guard_verdict(c, f, active, ram_floor(c, active, map).0).0 {
        Some(GuardError::ResourcePolicyBlocked(arbitrary()))
    } else {
        None
    }
}

/// `res` is the guard's answer, with the message of a resource refusal.
pub open spec fn is_guard_result(
    res: Result<(), GuardError>,
    c: Config,
    slot_key: Seq<char>,
    slot: ServerSlot,
    action: ServerAction,
    req: ActionRequest,
    f: ResourceFacts,
    active: nat,
    players: u32,
    map: Option<Seq<char>>,
) -> bool {
    match guard_outcome(c, slot_key, slot, action, req, f, active, players, map) {
        None => res is Ok,
        Some(GuardError::ResourcePolicyBlocked(_)) => res matches Err(GuardError::ResourcePolicyBlocked(m))
            && m@ == if !slot.enabled {
            "slot is disabled in config"@
        } else {
            guard_verdict(c, f, active, ram_floor(c, active, map).0).1
        },
        Some(e) => res == Err::<(), GuardError>(e),
    }
}

/// Checks a start, stop or restart of a slot against the operation flags,
/// the confirmations given, Home's protection, the players online and, for
/// a start, the resource guard.
pub fn guard_systemd_action(input: SystemdGuardInput) -> (res: Result<(), GuardError>)
    requires
        ram_floor_fits(
            *input.config,
            input.active_travel_slots as nat,
            match input.map_ark_name {
                Some(n) => Some(n@),
                None => None,
            },
        ),
    ensures
        is_guard_result(
            res,
            *input.config,
            input.slot_key@,
            *input.slot,
            input.action,
            *input.req,
            *input.facts,
            input.active_travel_slots as nat,
            input.player_count,
            match input.map_ark_name {
                Some(n) => Some(n@),
                None => None,
            },
        ),
{
    let config = input.config;
    let slot = input.slot;
    let action = input.action;
    let req = input.req;
    if !config.operations.systemd_control_enabled {
        return Err(GuardError::ControlDisabled);
    }
    if !slot.enabled {
        return Err(GuardError::ResourcePolicyBlocked(owned("slot is disabled in config")));
    }
    let needs_confirm = action == ServerAction::Stop || action == ServerAction::Restart;
    if needs_confirm && config.operations.require_confirmation_token && !req.confirm {
        return Err(GuardError::InvalidConfirmation);
    }
    if eq_str(input.slot_key, "home") {
        if action == ServerAction::Stop {
            let allowed_reason = eq_str(req.reason.as_str(), "manual_admin_override") || eq_str(
                req.reason.as_str(),
                "resource_standby_preparation",
            );
            if !config.operations.allow_home_manual_stop || !req.strong_confirm || !allowed_reason {
                return Err(GuardError::HomeProtected);
            }
        }
        return Ok(());
    }
    if needs_confirm && input.player_count > 0 && !req.admin_override {
        return Err(GuardError::PlayersOnline);
    }
    if action == ServerAction::Stop && !config.operations.allow_travel_manual_stop {
        return Err(GuardError::ControlDisabled);
    }
    if action == ServerAction::Start {
        let name = match &input.map_ark_name {
            Some(n) => Some(n.as_str()),
            None => None,
        };
        let status = travel_resource_guard_status(config, input.facts, input.active_travel_slots, name);
        if !status.allowed {
            return Err(GuardError::ResourcePolicyBlocked(status.reason));
        }
    }
    Ok(())
}

/// Checks a manual backup against the flags and the confirmation given.
pub fn guard_backup(config: &Config, req: &ActionRequest) -> (res: Result<(), GuardError>)
    ensures
        !config.operations.backup_enabled ==> res == Err::<(), GuardError>(GuardError::BackupDisabled),
        config.operations.backup_enabled && config.operations.require_confirmation_token && !req.confirm
            ==> res == Err::<(), GuardError>(GuardError::InvalidConfirmation),
        config.operations.backup_enabled && !(config.operations.require_confirmation_token && !req.confirm)
            ==> res is Ok,
{
    if !config.operations.backup_enabled {
        return Err(GuardError::BackupDisabled);
    }
    if config.operations.require_confirmation_token && !req.confirm {
        return Err(GuardError::InvalidConfirmation);
    }
    Ok(())
}

/// Home is never stopped by a manual action unless stopping Home is allowed
/// in the configuration, the operator gave the strong confirmation and one
/// of the accepted reasons.
pub proof fn lemma_home_stop_needs_override(
    c: Config,
    slot: ServerSlot,
    req: ActionRequest,
    f: ResourceFacts,
    active: nat,
    players: u32,
    map: Option<Seq<char>>,
)
    requires
        guard_outcome(c, "home"@, slot, ServerAction::Stop, req, f, active, players, map) is None,
    ensures
        c.operations.systemd_control_enabled,
        c.operations.allow_home_manual_stop,
        req.strong_confirm,
        home_stop_reason_ok(req.reason@),
        !c.operations.require_confirmation_token || req.confirm,
{
}

/// A travel slot with players online is never stopped or restarted without
/// the explicit admin override.
pub proof fn lemma_players_block_stop(
    c: Config,
    slot_key: Seq<char>,
    slot: ServerSlot,
    action: ServerAction,
    req: ActionRequest,
    f: ResourceFacts,
    active: nat,
    players: u32,
    map: Option<Seq<char>>,
)
    requires
        slot_key != "home"@,
        action == ServerAction::Stop || action == ServerAction::Restart,
        players > 0,
        !req.admin_override,
    ensures
        guard_outcome(c, slot_key, slot, action, req, f, active, players, map) is Some,
{
}

/// A stop or restart is never let through without the confirmation when
/// the configuration requires one.
pub proof fn lemma_stop_needs_confirmation(
    c: Config,
    slot_key: Seq<char>,
    slot: ServerSlot,
    action: ServerAction,
    req: ActionRequest,
    f: ResourceFacts,
    active: nat,
    players: u32,
    map: Option<Seq<char>>,
)
    requires
        action == ServerAction::Stop || action == ServerAction::Restart,
        c.operations.require_confirmation_token,
        !req.confirm,
    ensures
        guard_outcome(c, slot_key, slot, action, req, f, active, players, map) is Some,
{
}

/// Every action is refused while systemd control is switched off.
pub proof fn lemma_control_off_refuses_all(
    c: Config,
    slot_key: Seq<char>,
    slot: ServerSlot,
    action: ServerAction,
    req: ActionRequest,
    f: ResourceFacts,
    active: nat,
    players: u32,
    map: Option<Seq<char>>,
)
    requires
        !c.operations.systemd_control_enabled,
    ensures
        guard_outcome(c, slot_key, slot, action, req, f, active, players, map) == Some(GuardError::ControlDisabled),
{
}

/// A travel slot is only started when the resource guard allows another
/// travel map.
pub proof fn lemma_travel_start_needs_resources(
    c: Config,
    slot_key: Seq<char>,
    slot: ServerSlot,
    req: ActionRequest,
    f: ResourceFacts,
    active: nat,
    players: u32,
    map: Option<Seq<char>>,
)
    requires
        slot_key != "home"@,
        guard_outcome(c, slot_key, slot, ServerAction::Start, req, f, active, players, map) is None,
    ensures
        guard_verdict(c, f, active, ram_floor(c, active, map).0).0,
{
}

} // verus!
