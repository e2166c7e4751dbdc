//! The manager's configuration and its validation.
//!
//! The whole configuration is checked before anything binds or runs; the
//! first failing check decides the error message.
use vstd::prelude::*;
use crate::text::{
    append, cat2, cat3, cat5, chars_of, contains, ends_with, eq_ignore_case, eq_ignore_case_str,
    eq_str, is_blank, lower_seq, owned, starts_with, str_starts_with, string_from, sub_vec, trim,
    u64_to_string, decimal, vec_eq, vec_eq_str, str_views, is_upper, is_digit, str_eq,
};
use crate::systemd::{is_safe_unit_name, safe_unit_name};

verus! {

/// The environment variable that overrides the API token.
pub const API_TOKEN_ENV: &'static str = "ARK_MANAGER_API_TOKEN";

#[derive(Clone, Debug)]
pub struct ClusterConfig {
    pub name: String,
    pub id: String,
    pub directory: String,
    pub manager_version: String,
}

#[derive(Clone, Debug)]
pub struct ServerConfig {
    pub bind_address: String,
    pub port: u16,
    pub api_token: String,
    /// Public address of a relay in front of the cluster; empty when none.
    pub relay_public_ip: String,
    /// Host that players connect to; empty to use the bind address.
    pub player_connect_host: String,
}

#[derive(Clone, Debug)]
pub struct OperationsConfig {
    pub systemd_control_enabled: bool,
    pub backup_enabled: bool,
    pub rcon_enabled: bool,
    pub allow_home_manual_stop: bool,
    pub allow_travel_manual_stop: bool,
    pub require_confirmation_token: bool,
    pub travel_scheduler_enabled: bool,
    pub travel_idle_shutdown_secs: u32,
    pub config_writes_enabled: bool,
    pub mod_management_enabled: bool,
    pub maintenance_enabled: bool,
    pub home_idle_shutdown_enabled: bool,
    pub home_idle_shutdown_secs: u32,
}

/// The conservative defaults: only backups are on, and every stop needs a
/// confirmation.
pub open spec fn default_operations(o: OperationsConfig) -> bool {
    &&& !o.systemd_control_enabled
    &&& o.backup_enabled
    &&& !o.rcon_enabled
    &&& !o.allow_home_manual_stop
    &&& o.allow_travel_manual_stop
    &&& o.require_confirmation_token
    &&& !o.travel_scheduler_enabled
    &&& o.travel_idle_shutdown_secs == 10800
    &&& !o.config_writes_enabled
    &&& !o.mod_management_enabled
    &&& !o.maintenance_enabled
    &&& !o.home_idle_shutdown_enabled
    &&& o.home_idle_shutdown_secs == 10800
}

impl OperationsConfig {
    /// The operation flags when `[operations]` is absent: everything risky off.
    pub fn default() -> (res: Self)
        ensures
            default_operations(res),
    {
        OperationsConfig {
            systemd_control_enabled: false,
            backup_enabled: true,
            rcon_enabled: false,
            allow_home_manual_stop: false,
            allow_travel_manual_stop: true,
            require_confirmation_token: true,
            travel_scheduler_enabled: false,
            travel_idle_shutdown_secs: 10800,
            config_writes_enabled: false,
            mod_management_enabled: false,
            maintenance_enabled: false,
            home_idle_shutdown_enabled: false,
            home_idle_shutdown_secs: 10800,
        }
    }
}

#[derive(Clone, Debug)]
pub struct PathsConfig {
    pub ark_root: String,
    pub backup_root: String,
    pub cluster_dir: String,
}

impl PathsConfig {
    /// No paths configured.
    pub fn default() -> (res: Self)
        ensures
            res.ark_root@.len() == 0,
            res.backup_root@.len() == 0,
            res.cluster_dir@.len() == 0,
    {
        PathsConfig { ark_root: String::new(), backup_root: String::new(), cluster_dir: String::new() }
    }
}

#[derive(Clone, Debug)]
pub struct ResourcePolicy {
    pub ram_warn_pct: u8,
    pub ram_pressure_pct: u8,
    pub ram_emergency_pct: u8,
    pub max_travel_servers: u32,
    pub empty_shutdown_mins: u32,
    pub home_standby_enabled: bool,
    pub never_stop_with_players: bool,
    pub home_stops_only_when_empty: bool,
    pub prefer_active_player_maps: bool,
    pub auto_restart_home: bool,
}

#[derive(Clone, Debug)]
pub struct BackupPolicy {
    pub before_shutdown: bool,
    pub before_config_save: bool,
    pub before_mod_change: bool,
    pub retention: String,
    pub directory: String,
}

#[derive(Clone, Debug)]
pub struct DiscordConfig {
    pub enabled: bool,
    pub guild: String,
    pub status_channel: String,
    pub bot_token_env: String,
}

#[derive(Clone, Debug)]
pub struct RconConfig {
    pub enabled: bool,
    pub poll_interval_seconds: u32,
}

impl RconConfig {
    /// RCON polling off, every five seconds when on.
    pub fn default() -> (res: Self)
        ensures
            !res.enabled,
            res.poll_interval_seconds == 5,
    {
        RconConfig { enabled: false, poll_interval_seconds: 5 }
    }
}

/// Limits checked before an on-demand map is started.
#[derive(Clone, Debug)]
pub struct ResourceGuardConfig {
    pub enabled: bool,
    pub block_on_unknown_resources: bool,
    pub min_available_ram_mb_for_first_travel: u32,
    pub min_available_ram_mb_for_second_travel: u32,
    pub max_ram_used_percent_before_travel: u8,
    pub max_swap_used_percent: u8,
    pub swap_used_percent_warn: u8,
    pub swap_used_percent_hard: u8,
    pub min_free_swap_mb: u32,
    pub active_swap_io_block_threshold_pages: u32,
    pub min_disk_free_gb: u32,
    pub map_memory_reserve_mb: u32,
    pub second_slot_extra_mb: u32,
    pub unknown_map_memory_mb: u32,
    /// Memory estimates by ARK map name that replace the built-in ones.
    pub map_memory_mb: Vec<(String, u32)>,
}

pub open spec fn default_resource_guard(g: ResourceGuardConfig) -> bool {
    &&& g.enabled
    &&& g.block_on_unknown_resources
    &&& g.min_available_ram_mb_for_first_travel == 6144
    &&& g.min_available_ram_mb_for_second_travel == 10240
    &&& g.max_ram_used_percent_before_travel == 75
    &&& g.max_swap_used_percent == 25
    &&& g.swap_used_percent_warn == 25
    &&& g.swap_used_percent_hard == 50
    &&& g.min_free_swap_mb == 2048
    &&& g.active_swap_io_block_threshold_pages == 1000
    &&& g.min_disk_free_gb == 20
    &&& g.map_memory_reserve_mb == 1500
    &&& g.second_slot_extra_mb == 2048
    &&& g.unknown_map_memory_mb == 11000
    &&& g.map_memory_mb@.len() == 0
}

impl ResourceGuardConfig {
    /// The resource guard thresholds used when none are configured.
    pub fn default() -> (res: Self)
        ensures
            default_resource_guard(res),
    {
        ResourceGuardConfig {
            enabled: true,
            block_on_unknown_resources: true,
            min_available_ram_mb_for_first_travel: 6144,
            min_available_ram_mb_for_second_travel: 10240,
            max_ram_used_percent_before_travel: 75,
            max_swap_used_percent: 25,
            swap_used_percent_warn: 25,
            swap_used_percent_hard: 50,
            min_free_swap_mb: 2048,
            active_swap_io_block_threshold_pages: 1000,
            min_disk_free_gb: 20,
            map_memory_reserve_mb: 1500,
            second_slot_extra_mb: 2048,
            unknown_map_memory_mb: 11000,
            map_memory_mb: Vec::new(),
        }
    }
}

/// The built-in memory estimate, in MB, of an ARK map by its map name.
pub open spec fn builtin_map_memory(name: Seq<char>) -> Option<u32> {
    if name == "Genesis"@ || name == "Gen2"@ {
        Some(11000u32)
    } else if name == "Ragnarok"@ || name == "Valguero_P"@ || name == "CrystalIsles"@ || name
        == "Fjordur"@ || name == "LostIsland"@ || name == "Extinction"@ {
        Some(9000u32)
    } else if name == "TheIsland"@ || name == "TheCenter"@ || name == "ScorchedEarth_P"@ || name
        == "Aberration_P"@ {
        Some(8000u32)
    } else {
        None
    }
}

/// The configured estimate for `name`: the first override with that name.
pub open spec fn override_memory(ov: Seq<(String, u32)>, name: Seq<char>) -> Option<u32>
    decreases ov.len(),
{
    if ov.len() == 0 {
        None
    } else if ov[0].0@ == name {
        Some(ov[0].1)
    } else {
        override_memory(ov.drop_first(), name)
    }
}

/// The memory estimate of a map: the configured override, else the built-in
/// estimate, else the estimate for unknown maps.
pub open spec fn map_estimate(g: ResourceGuardConfig, name: Seq<char>) -> u32 {
    match override_memory(g.map_memory_mb@, name) {
        Some(m) => m,
        None => match builtin_map_memory(name) {
            Some(m) => m,
            None => g.unknown_map_memory_mb,
        },
    }
}

fn builtin_map_memory_of(name: &str) -> (res: Option<u32>)
    ensures
        res == builtin_map_memory(name@),
{
    if eq_str(name, "Genesis") || eq_str(name, "Gen2") {
        Some(11000)
    } else if eq_str(name, "Ragnarok") || eq_str(name, "Valguero_P") || eq_str(name, "CrystalIsles")
        || eq_str(name, "Fjordur") || eq_str(name, "LostIsland") || eq_str(name, "Extinction") {
        Some(9000)
    } else if eq_str(name, "TheIsland") || eq_str(name, "TheCenter") || eq_str(
        name,
        "ScorchedEarth_P",
    ) || eq_str(name, "Aberration_P") {
        Some(8000)
    } else {
        None
    }
}

impl ResourceGuardConfig {
    /// The memory estimate, in MB, of the ARK map `name`.
    pub fn map_estimate_mb(&self, name: &str) -> (res: u32)
        ensures
            res == map_estimate(*self, name@),
    {
        let mut i: usize = 0;
        assert(self.map_memory_mb@.skip(0) =~= self.map_memory_mb@);
        while i < self.map_memory_mb.len()
            invariant
                0 <= i <= self.map_memory_mb@.len(),
                override_memory(self.map_memory_mb@, name@) == override_memory(
                    self.map_memory_mb@.skip(i as int),
                    name@,
                ),
            decreases self.map_memory_mb@.len() - i,
        {
            let ghost rest = self.map_memory_mb@.skip(i as int);
            assert(rest.drop_first() =~= self.map_memory_mb@.skip(i + 1));
            if eq_str(self.map_memory_mb[i].0.as_str(), name) {
                return self.map_memory_mb[i].1;
            }
            i = i + 1;
        }
        match builtin_map_memory_of(name) {
            Some(m) => m,
            None => self.unknown_map_memory_mb,
        }
    }
}

#[derive(Clone, Debug)]
pub struct TravelSlot {
    pub name: String,
    pub role: String,
}

#[derive(Clone, Debug)]
pub struct SlotPaths {
    pub save_dir: Option<String>,
    pub config_dir: Option<String>,
}

#[derive(Clone, Debug)]
pub struct SlotRconConfig {
    pub host: String,
    pub port: u16,
    pub password_env: String,
}

#[derive(Clone, Debug)]
pub struct ServerSlot {
    pub id: String,
    pub label: String,
    pub map_key: String,
    pub systemd_unit: String,
    pub game_port: u16,
    pub query_port: u16,
    pub rcon_port: u16,
    pub save_path: Option<String>,
    pub config_path: Option<String>,
    pub paths: SlotPaths,
    pub rcon: Option<SlotRconConfig>,
    pub enabled: bool,
    pub protected: bool,
    pub home_resource_standby_enabled: bool,
}

fn copy_opt_string(o: &Option<String>) -> (res: Option<String>)
    ensures
        res == *o,
{
    match o {
        Some(s) => Some(s.clone()),
        None => None,
    }
}

/// A copy of a slot.
pub fn copy_slot(slot: &ServerSlot) -> (res: ServerSlot)
    ensures
        res == *slot,
{
    ServerSlot {
        id: slot.id.clone(),
        label: slot.label.clone(),
        map_key: slot.map_key.clone(),
        systemd_unit: slot.systemd_unit.clone(),
        game_port: slot.game_port,
        query_port: slot.query_port,
        rcon_port: slot.rcon_port,
        save_path: copy_opt_string(&slot.save_path),
        config_path: copy_opt_string(&slot.config_path),
        paths: SlotPaths {
            save_dir: copy_opt_string(&slot.paths.save_dir),
            config_dir: copy_opt_string(&slot.paths.config_dir),
        },
        rcon: match &slot.rcon {
            Some(r) => Some(SlotRconConfig { host: r.host.clone(), port: r.port, password_env: r.password_env.clone() }),
            None => None,
        },
        enabled: slot.enabled,
        protected: slot.protected,
        home_resource_standby_enabled: slot.home_resource_standby_enabled,
    }
}

/// The view of an optional string.
pub open spec fn opt_str(o: Option<String>) -> Option<Seq<char>> {
    match o {
        Some(s) => Some(s@),
        None => None,
    }
}

/// `a`, else `b`.
pub open spec fn or_opt(a: Option<Seq<char>>, b: Option<Seq<char>>) -> Option<Seq<char>> {
    match a {
        Some(x) => Some(x),
        None => b,
    }
}

impl ServerSlot {
    /// The save directory: `paths.save_dir`, else `save_path`.
    pub fn save_dir(&self) -> (res: Option<&str>)
        ensures
            match res {
                Some(s) => or_opt(opt_str(self.paths.save_dir), opt_str(self.save_path)) == Some(s@),
                None => or_opt(opt_str(self.paths.save_dir), opt_str(self.save_path)) is None,
            },
    {
        match &self.paths.save_dir {
            Some(s) => Some(s.as_str()),
            None => match &self.save_path {
                Some(s) => Some(s.as_str()),
                None => None,
            },
        }
    }

    /// The config directory: `paths.config_dir`, else `config_path`.
    pub fn config_dir(&self) -> (res: Option<&str>)
        ensures
            match res {
                Some(s) => or_opt(opt_str(self.paths.config_dir), opt_str(self.config_path)) == Some(
                    s@,
                ),
                None => or_opt(opt_str(self.paths.config_dir), opt_str(self.config_path)) is None,
            },
    {
        match &self.paths.config_dir {
            Some(s) => Some(s.as_str()),
            None => match &self.config_path {
                Some(s) => Some(s.as_str()),
                None => None,
            },
        }
    }
}

#[derive(Clone, Debug)]
pub struct SlotsConfig {
    pub home: ServerSlot,
    pub travel_a: Option<ServerSlot>,
    pub travel_b: Option<ServerSlot>,
}

/// The configured slots in order (Home, then the travel slots present),
/// each with its key and whether it is Home.
pub open spec fn slot_list(s: SlotsConfig) -> Seq<(ServerSlot, Seq<char>, bool)> {
    let h = seq![(s.home, "home"@, true)];
    let a = match s.travel_a {
        Some(t) => h.push((t, "travel_a"@, false)),
        None => h,
    };
    match s.travel_b {
        Some(t) => a.push((t, "travel_b"@, false)),
        None => a,
    }
}

/// The views of a list of slots with their keys.
pub open spec fn slot_entries(v: Seq<(&ServerSlot, &'static str, bool)>) -> Seq<(ServerSlot, Seq<char>, bool)> {
    Seq::new(v.len(), |i: int| (*v[i].0, v[i].1@, v[i].2))
}

impl SlotsConfig {
    /// The configured slots: Home first, then `travel_a` and `travel_b` when present.
    pub fn iter(&self) -> (res: Vec<(&ServerSlot, &'static str, bool)>)
        ensures
            slot_entries(res@) == slot_list(*self),
    {
        let mut slots: Vec<(&ServerSlot, &'static str, bool)> = Vec::new();
        slots.push((&self.home, "home", true));
        match &self.travel_a {
            Some(slot) => {
                slots.push((slot, "travel_a", false));
            },
            None => {},
        }
        match &self.travel_b {
            Some(slot) => {
                slots.push((slot, "travel_b", false));
            },
            None => {},
        }
        assert(slot_entries(slots@) =~= slot_list(*self));
        slots
    }
}

// ---------------------------------------------------------------------------
// Errors and path checks
// ---------------------------------------------------------------------------

/// Why a configuration could not be loaded.
#[derive(Clone, Debug)]
pub enum ConfigError {
    NotFound(String),
    Read(String, String),
    Parse(String),
    Invalid(String),
}

pub open spec fn config_error_message(e: ConfigError) -> Seq<char> {
    match e {
        ConfigError::NotFound(p) => "config file not found: "@ + p@,
        ConfigError::Read(p, m) => "failed to read config file "@ + p@ + ": "@ + m@,
        ConfigError::Parse(m) => "failed to parse TOML config: "@ + m@,
        ConfigError::Invalid(m) => "config validation failed: "@ + m@,
    }
}

impl ConfigError {
    /// The human-readable error message.
    pub fn message(&self) -> (res: String)
        ensures
            res@ == config_error_message(*self),
    {
        match self {
            ConfigError::NotFound(p) => cat2("config file not found: ", p.as_str()),
            ConfigError::Read(p, m) => {
                let mut s = cat3("failed to read config file ", p.as_str(), ": ");
                append(&mut s, m.as_str());
                s
            },
            ConfigError::Parse(m) => cat2("failed to parse TOML config: ", m.as_str()),
            ConfigError::Invalid(m) => cat2("config validation failed: ", m.as_str()),
        }
    }
}

/// Whether one of the `/`-separated segments of `p` is `..`.
pub open spec fn has_parent_segment(p: Seq<char>) -> bool {
    exists|i: int|
        0 <= i && i + 2 <= p.len() && #[trigger] p[i] == '.' && p[i + 1] == '.' && (i == 0 || p[i
            - 1] == '/') && (i + 2 == p.len() || p[i + 2] == '/')
}

/// Whether a path has a `..` segment.
pub fn has_parent_segment_of(v: &Vec<char>) -> (res: bool)
    ensures
        res == has_parent_segment(v@),
{
    let n = v.len();
    let mut i: usize = 0;
    while i < n && n - i >= 2
        invariant
            n == v@.len(),
            0 <= i,
            forall|j: int|
                0 <= j < i && j + 2 <= n ==> !(#[trigger] v@[j] == '.' && v@[j + 1] == '.' && (j == 0
                    || v@[j - 1] == '/') && (j + 2 == n || v@[j + 2] == '/')),
        decreases n - i,
    {
        if v[i] == '.' && v[i + 1] == '.' && (i == 0 || v[i - 1] == '/') && (i + 2 == n || v[i + 2]
            == '/') {
            return true;
        }
        i = i + 1;
    }
    false
}

/// What is wrong with a path that must be absolute and free of `..`, if anything.
pub open spec fn safe_path_error(label: Seq<char>, path: Seq<char>) -> Option<Seq<char>> {
    if trim(path).len() == 0 {
        Some(label + " must not be empty"@)
    } else if has_parent_segment(path) {
        Some(label + " '"@ + path + "' contains a '..' segment which is not allowed"@)
    } else if !starts_with(path, "/"@) {
        Some(label + " '"@ + path + "' must be an absolute path"@)
    } else {
        None
    }
}

/// The result of a check that fails with message `e`.
pub open spec fn invalid_if(res: Result<(), ConfigError>, e: Option<Seq<char>>) -> bool {
    match e {
        Some(m) => res matches Err(ConfigError::Invalid(x)) && x@ == m,
        None => res is Ok,
    }
}

/// Rejects relative paths, empty paths and paths with a `..` segment.
pub fn validate_safe_path(label: &str, path: &str) -> (res: Result<(), ConfigError>)
    ensures
        invalid_if(res, safe_path_error(label@, path@)),
{
    if is_blank(path) {
        return Err(ConfigError::Invalid(cat2(label, " must not be empty")));
    }
    let v = chars_of(path);
    if has_parent_segment_of(&v) {
        let mut m = cat3(label, " '", path);
        append(&mut m, "' contains a '..' segment which is not allowed");
        return Err(ConfigError::Invalid(m));
    }
    if !str_starts_with(path, "/") {
        let mut m = cat3(label, " '", path);
        append(&mut m, "' must be an absolute path");
        return Err(ConfigError::Invalid(m));
    }
    Ok(())
}

/// `s` without trailing `/` characters (`trim_end_matches('/')`).
pub open spec fn trim_slashes(s: Seq<char>) -> Seq<char>
    decreases s.len(),
{
    if s.len() > 0 && s.last() == '/' {
        trim_slashes(s.drop_last())
    } else {
        s
    }
}

fn trim_slashes_vec(v: &Vec<char>) -> (res: Vec<char>)
    ensures
        res@ == trim_slashes(v@),
{
    let mut b = v.len();
    assert(v@.take(b as int) =~= v@);
    while b > 0 && v[b - 1] == '/'
        invariant
            0 <= b <= v@.len(),
            trim_slashes(v@) == trim_slashes(v@.take(b as int)),
        decreases b,
    {
        assert(v@.take(b as int).drop_last() =~= v@.take(b - 1));
        b = b - 1;
    }
    let r = sub_vec(v, 0, b);
    assert(r@ =~= v@.take(b as int));
    r
}

/// Whether `path` is `root` or lies below it, trailing slashes aside.
pub open spec fn path_under(path: Seq<char>, root: Seq<char>) -> bool {
    let p = trim_slashes(path);
    let r = trim_slashes(root);
    p == r || starts_with(p, r + "/"@)
}

pub open spec fn under_root_error(label: Seq<char>, path: Seq<char>, root: Seq<char>) -> Option<Seq<char>> {
    if path_under(path, root) {
        None
    } else {
        Some(label + " '"@ + path + "' must stay under cluster.directory '"@ + root + "'"@)
    }
}

/// Rejects a slot path that is not under the allowed root.
pub fn validate_path_under_root(label: &str, path: &str, root: &str) -> (res: Result<(), ConfigError>)
    ensures
        invalid_if(res, under_root_error(label@, path@, root@)),
{
    let pv = chars_of(path);
    let rv = chars_of(root);
    assert(trim_slashes(pv@) == trim_slashes(path@));
    let p = trim_slashes_vec(&pv);
    let r = trim_slashes_vec(&rv);
    let mut rs = r.clone();
    rs.push('/');
    proof {
        reveal_strlit("/");
        assert(rs@ =~= r@ + "/"@);
    }
    let under = vec_eq(&p, &r) || crate::text::vec_starts_with_vec(&p, &rs);
    if under {
        Ok(())
    } else {
        let mut m = cat3(label, " '", path);
        append(&mut m, "' must stay under cluster.directory '");
        append(&mut m, root);
        append(&mut m, "'");
        Err(ConfigError::Invalid(m))
    }
}

/// The full configuration.
#[derive(Clone, Debug)]
pub struct Config {
    pub cluster: ClusterConfig,
    pub server: ServerConfig,
    pub operations: OperationsConfig,
    pub paths: PathsConfig,
    pub resource_policy: ResourcePolicy,
    pub resource_guard: ResourceGuardConfig,
    pub backup_policy: BackupPolicy,
    pub rcon: RconConfig,
    pub discord: DiscordConfig,
    pub slots: Option<SlotsConfig>,
    pub travel_slots: Vec<TravelSlot>,
    pub maps: Vec<MapConfig>,
}

#[derive(Clone, Debug)]
pub struct MapConfig {
    pub id: String,
    pub name: String,
    pub alias: String,
    pub ark_map_name: String,
    pub systemd_unit: String,
    pub query_port: u16,
    pub rcon_port: u16,
    pub game_port: u16,
    pub slot_priority: i32,
    pub can_be_home: bool,
    pub can_auto_stop_when_empty: bool,
    pub can_enter_standby: bool,
    pub assignment: String,
    pub mods: Vec<String>,
}

// ---------------------------------------------------------------------------
// Server slots
// ---------------------------------------------------------------------------

/// `first`, unless it is `None`.
pub open spec fn or_else(first: Option<Seq<char>>, then: Option<Seq<char>>) -> Option<Seq<char>> {
    match first {
        Some(m) => Some(m),
        None => then,
    }
}

/// `Some(m)` exactly when `cond` holds.
pub open spec fn fail_if(cond: bool, m: Seq<char>) -> Option<Seq<char>> {
    if cond {
        Some(m)
    } else {
        None
    }
}

/// The root under which slot paths must stay: `paths.ark_root`, else
/// `cluster.directory`.
pub open spec fn allowed_root(c: Config) -> Seq<char> {
    if trim(c.paths.ark_root@).len() == 0 {
        c.cluster.directory@
    } else {
        c.paths.ark_root@
    }
}

/// A valid environment variable name for a password: upper-case ASCII
/// letters, digits and `_`, not blank.
pub open spec fn env_name_ok(e: Seq<char>) -> bool {
    trim(e).len() > 0 && forall|i: int| 0 <= i < e.len() ==> (is_upper(#[trigger] e[i]) || is_digit(
        e[i],
    ) || e[i] == '_')
}

pub open spec fn slot_path_error(c: Config, key: Seq<char>, label: Seq<char>, p: Option<String>) -> Option<
    Seq<char>,
> {
    match p {
        Some(path) => {
            let l = "slots."@ + key + "."@ + label;
            or_else(safe_path_error(l, path@), under_root_error(l, path@, allowed_root(c)))
        },
        None => None,
    }
}

pub open spec fn slot_port_error(ports: Seq<u16>, port: u16, label: Seq<char>, id: Seq<char>) -> Option<
    Seq<char>,
> {
    fail_if(
        ports.contains(port),
        "duplicate slot port "@ + decimal(port as nat) + " ("@ + label + ") on slot '"@ + id + "'"@,
    )
}

pub open spec fn slot_rcon_error(key: Seq<char>, r: Option<SlotRconConfig>) -> Option<Seq<char>> {
    match r {
        Some(rc) => or_else(
            fail_if(trim(rc.host@).len() == 0, "slots."@ + key + ".rcon.host must not be empty"@),
            fail_if(
                !env_name_ok(rc.password_env@),
                "slots."@ + key + ".rcon.password_env must be an uppercase env var name"@,
            ),
        ),
        None => None,
    }
}

/// The first problem with one slot, given the ids, units and ports of the
/// slots before it.
pub open spec fn slot_error(
    c: Config,
    slot: ServerSlot,
    key: Seq<char>,
    is_home: bool,
    ids: Seq<Seq<char>>,
    units: Seq<Seq<char>>,
    ports: Seq<u16>,
) -> Option<Seq<char>> {
    or_else(fail_if(trim(slot.id@).len() == 0, "slots."@ + key + ".id must not be empty"@),
    or_else(fail_if(trim(slot.label@).len() == 0, "slots."@ + key + ".label must not be empty"@),
    or_else(fail_if(trim(slot.map_key@).len() == 0, "slots."@ + key + ".map_key must not be empty"@),
    or_else(fail_if(ids.contains(slot.id@), "duplicate slot id '"@ + slot.id@ + "'"@),
    or_else(fail_if(!safe_unit_name(slot.systemd_unit@),
        "slots."@ + key + ".systemd_unit '"@ + slot.systemd_unit@ + "' is not a safe unit name"@),
    or_else(fail_if(units.contains(slot.systemd_unit@),
        "duplicate slot systemd unit '"@ + slot.systemd_unit@ + "'"@),
    or_else(slot_port_error(ports, slot.game_port, "game_port"@, slot.id@),
    or_else(slot_port_error(ports.push(slot.game_port), slot.query_port, "query_port"@, slot.id@),
    or_else(slot_port_error(ports.push(slot.game_port).push(slot.query_port), slot.rcon_port,
        "rcon_port"@, slot.id@),
    or_else(fail_if(is_home && !slot.protected, "slots.home.protected must be true"@),
    or_else(slot_path_error(c, key, "save_path"@, slot.save_path),
    or_else(slot_path_error(c, key, "config_path"@, slot.config_path),
    or_else(slot_path_error(c, key, "paths.save_dir"@, slot.paths.save_dir),
    or_else(slot_path_error(c, key, "paths.config_dir"@, slot.paths.config_dir),
    slot_rcon_error(key, slot.rcon)))))))))))))))
}

/// Scans slots in order: the first problem, and the ids, units and ports seen.
pub open spec fn slots_scan(c: Config, list: Seq<(ServerSlot, Seq<char>, bool)>) -> (Option<Seq<char>>, Seq<Seq<char>>, Seq<Seq<char>>, Seq<u16>)
    decreases list.len(),
{
    if list.len() == 0 {
        (None, Seq::empty(), Seq::empty(), Seq::empty())
    } else {
        let prev = slots_scan(c, list.drop_last());
        if prev.0 is Some {
            prev
        } else {
            let e = list.last();
            (
                slot_error(c, e.0, e.1, e.2, prev.1, prev.2, prev.3),
                prev.1.push(e.0.id@),
                prev.2.push(e.0.systemd_unit@),
                prev.3.push(e.0.game_port).push(e.0.query_port).push(e.0.rcon_port),
            )
        }
    }
}

/// The number of entries of `list` that are not Home.
pub open spec fn travel_entries(list: Seq<(ServerSlot, Seq<char>, bool)>) -> nat
    decreases list.len(),
{
    if list.len() == 0 {
        0
    } else {
        travel_entries(list.drop_last()) + if list.last().1 != "home"@ {
            1nat
        } else {
            0nat
        }
    }
}

/// The first problem with the `[slots]` section, if any.
pub open spec fn server_slots_error(c: Config, s: SlotsConfig) -> Option<Seq<char>> {
    let list = slot_list(s);
    let n = travel_entries(list);
    if n > 2 {
        Some("slots config has "@ + decimal(n) + " travel slots; max travel slots is 2 for T1.1"@)
    } else {
        slots_scan(c, list).0
    }
}

fn vec_has_str(v: &Vec<&str>, s: &str) -> (res: bool)
    ensures
        res == Seq::new(v@.len(), |i: int| v@[i]@).contains(s@),
{
    let ghost sv = Seq::new(v@.len(), |i: int| v@[i]@);
    let mut i: usize = 0;
    while i < v.len()
        invariant
            0 <= i <= v@.len(),
            sv == Seq::new(v@.len(), |i: int| v@[i]@),
            forall|j: int| 0 <= j < i ==> sv[j] != s@,
        decreases v@.len() - i,
    {
        if str_eq(v[i], s) {
            assert(sv[i as int] == s@);
            return true;
        }
        i = i + 1;
    }
    false
}

fn vec_has_u16(v: &Vec<u16>, x: u16) -> (res: bool)
    ensures
        res == v@.contains(x),
{
    let mut i: usize = 0;
    while i < v.len()
        invariant
            0 <= i <= v@.len(),
            forall|j: int| 0 <= j < i ==> v@[j] != x,
        decreases v@.len() - i,
    {
        if v[i] == x {
            assert(v@[i as int] == x);
            return true;
        }
        i = i + 1;
    }
    false
}

fn env_name_ok_of(e: &str) -> (res: bool)
    ensures
        res == env_name_ok(e@),
{
    if is_blank(e) {
        return false;
    }
    let v = chars_of(e);
    let mut i: usize = 0;
    while i < v.len()
        invariant
            0 <= i <= v@.len(),
            v@ == e@,
            forall|j: int| 0 <= j < i ==> (is_upper(#[trigger] v@[j]) || is_digit(v@[j]) || v@[j] == '_'),
        decreases v@.len() - i,
    {
        let c = v[i];
        if !(('A' <= c && c <= 'Z') || ('0' <= c && c <= '9') || c == '_') {
            return false;
        }
        i = i + 1;
    }
    true
}

fn slot_port_check(ports: &Vec<u16>, port: u16, label: &str, id: &str) -> (res: Result<(), ConfigError>)
    ensures
        invalid_if(res, slot_port_error(ports@, port, label@, id@)),
{
    if vec_has_u16(ports, port) {
        let n = u64_to_string(port as u64);
        let mut m = cat3("duplicate slot port ", n.as_str(), " (");
        append(&mut m, label);
        append(&mut m, ") on slot '");
        append(&mut m, id);
        append(&mut m, "'");
        return Err(ConfigError::Invalid(m));
    }
    Ok(())
}

impl Config {
    /// The root under which slot paths must stay.
    pub fn allowed_root(&self) -> (res: &str)
        ensures
            res@ == allowed_root(*self),
    {
        if is_blank(self.paths.ark_root.as_str()) {
            self.cluster.directory.as_str()
        } else {
            self.paths.ark_root.as_str()
        }
    }

    fn slot_path_check(&self, key: &str, label: &str, p: &Option<String>) -> (res: Result<(), ConfigError>)
        ensures
            invalid_if(res, slot_path_error(*self, key@, label@, *p)),
    {
        match p {
            Some(path) => {
                let mut l = cat3("slots.", key, ".");
                append(&mut l, label);
                match validate_safe_path(l.as_str(), path.as_str()) {
                    Err(e) => return Err(e),
                    Ok(()) => {},
                }
                validate_path_under_root(l.as_str(), path.as_str(), self.allowed_root())
            },
            None => Ok(()),
        }
    }

    fn check_slot(
        &self,
        slot: &ServerSlot,
        key: &str,
        is_home: bool,
        ids: &Vec<&str>,
        units: &Vec<&str>,
        ports: &Vec<u16>,
    ) -> (res: Result<(), ConfigError>)
        ensures
            invalid_if(
                res,
                slot_error(
                    *self,
                    *slot,
                    key@,
                    is_home,
                    Seq::new(ids@.len(), |i: int| ids@[i]@),
                    Seq::new(units@.len(), |i: int| units@[i]@),
                    ports@,
                ),
            ),
    {
        if is_blank(slot.id.as_str()) {
            return Err(ConfigError::Invalid(cat3("slots.", key, ".id must not be empty")));
        }
        if is_blank(slot.label.as_str()) {
            return Err(ConfigError::Invalid(cat3("slots.", key, ".label must not be empty")));
        }
        if is_blank(slot.map_key.as_str()) {
            return Err(ConfigError::Invalid(cat3("slots.", key, ".map_key must not be empty")));
        }
        if vec_has_str(ids, slot.id.as_str()) {
            return Err(ConfigError::Invalid(cat3("duplicate slot id '", slot.id.as_str(), "'")));
        }
        if !is_safe_unit_name(slot.systemd_unit.as_str()) {
            return Err(
                ConfigError::Invalid(
                    cat5(
                        "slots.",
                        key,
                        ".systemd_unit '",
                        slot.systemd_unit.as_str(),
                        "' is not a safe unit name",
                    ),
                ),
            );
        }
        if vec_has_str(units, slot.systemd_unit.as_str()) {
            return Err(
                ConfigError::Invalid(
                    cat3("duplicate slot systemd unit '", slot.systemd_unit.as_str(), "'"),
                ),
            );
        }
        let mut p = ports.clone();
        assert(p@ == ports@);
        match slot_port_check(&p, slot.game_port, "game_port", slot.id.as_str()) {
            Err(e) => return Err(e),
            Ok(()) => {},
        }
        p.push(slot.game_port);
        match slot_port_check(&p, slot.query_port, "query_port", slot.id.as_str()) {
            Err(e) => return Err(e),
            Ok(()) => {},
        }
        p.push(slot.query_port);
        match slot_port_check(&p, slot.rcon_port, "rcon_port", slot.id.as_str()) {
            Err(e) => return Err(e),
            Ok(()) => {},
        }
        if is_home && !slot.protected {
            return Err(ConfigError::Invalid(owned("slots.home.protected must be true")));
        }
        match self.slot_path_check(key, "save_path", &slot.save_path) {
            Err(e) => return Err(e),
            Ok(()) => {},
        }
        match self.slot_path_check(key, "config_path", &slot.config_path) {
            Err(e) => return Err(e),
            Ok(()) => {},
        }
        match self.slot_path_check(key, "paths.save_dir", &slot.paths.save_dir) {
            Err(e) => return Err(e),
            Ok(()) => {},
        }
        match self.slot_path_check(key, "paths.config_dir", &slot.paths.config_dir) {
            Err(e) => return Err(e),
            Ok(()) => {},
        }
        match &slot.rcon {
            Some(rc) => {
                if is_blank(rc.host.as_str()) {
                    return Err(ConfigError::Invalid(cat3("slots.", key, ".rcon.host must not be empty")));
                }
                if !env_name_ok_of(rc.password_env.as_str()) {
                    return Err(
                        ConfigError::Invalid(
                            cat3("slots.", key, ".rcon.password_env must be an uppercase env var name"),
                        ),
                    );
                }
            },
            None => {},
        }
        Ok(())
    }
}

/// Once a scan has found a problem, scanning further entries keeps it.
pub proof fn lemma_scan_error_sticks(c: Config, list: Seq<(ServerSlot, Seq<char>, bool)>, i: int, j: int)
    requires
        0 <= i <= j <= list.len(),
    ensures
        slots_scan(c, list.take(i)).0 is Some ==> slots_scan(c, list.take(j)).0 == slots_scan(c, list.take(i)).0,
    decreases j - i,
{
    if i < j {
        lemma_scan_error_sticks(c, list, i, j - 1);
        assert(list.take(j).drop_last() =~= list.take(j - 1));
    }
}

pub open spec fn str_seq(v: Seq<&str>) -> Seq<Seq<char>> {
    Seq::new(v.len(), |i: int| v[i]@)
}

impl Config {
    /// Checks the `[slots]` section: at most two travel slots; per slot,
    /// non-blank id, label and map key, unique ids, units and ports, safe
    /// unit names, a protected Home slot, safe paths under the allowed root,
    /// and a usable RCON endpoint.
    pub fn validate_server_slots(&self, slots: &SlotsConfig) -> (res: Result<(), ConfigError>)
        ensures
            invalid_if(res, server_slots_error(*self, *slots)),
    {
        let all = slots.iter();
        let ghost list = slot_entries(all@);
        let mut travel_count: usize = 0;
        let mut k: usize = 0;
        while k < all.len()
            invariant
                0 <= k <= all@.len(),
                all@.len() <= 3,
                list == slot_entries(all@),
                travel_count == travel_entries(list.take(k as int)),
                travel_count <= k,
            decreases all@.len() - k,
        {
            assert(list.take(k + 1).drop_last() =~= list.take(k as int));
            if !eq_str(all[k].1, "home") {
                travel_count = travel_count + 1;
            }
            k = k + 1;
        }
        assert(list.take(all@.len() as int) =~= list);
        if travel_count > 2 {
            let n = u64_to_string(travel_count as u64);
            return Err(
                ConfigError::Invalid(
                    cat3(
                        "slots config has ",
                        n.as_str(),
                        " travel slots; max travel slots is 2 for T1.1",
                    ),
                ),
            );
        }
        let mut ids: Vec<&str> = Vec::new();
        let mut units: Vec<&str> = Vec::new();
        let mut ports: Vec<u16> = Vec::new();
        let mut k: usize = 0;
        while k < all.len()
            invariant
                0 <= k <= all@.len(),
                list == slot_entries(all@),
                list == slot_list(*slots),
                travel_entries(list) <= 2,
                slots_scan(*self, list.take(k as int)) == (
                    None::<Seq<char>>,
                    str_seq(ids@),
                    str_seq(units@),
                    ports@,
                ),
            decreases all@.len() - k,
        {
            let (slot, key, is_home) = all[k];
            assert(list.take(k + 1).drop_last() =~= list.take(k as int));
            assert(list.take(k + 1).last() == (*slot, key@, is_home));
            assert(str_seq(ids@) =~= Seq::new(ids@.len(), |i: int| ids@[i]@));
            assert(str_seq(units@) =~= Seq::new(units@.len(), |i: int| units@[i]@));
            match self.check_slot(slot, key, is_home, &ids, &units, &ports) {
                Err(e) => {
                    proof {
                        let pre = slots_scan(*self, list.take(k as int));
                        assert(slots_scan(*self, list.take(k + 1)).0 == slot_error(*self, *slot, key@, is_home, pre.1, pre.2, pre.3));
                        assert(slots_scan(*self, list.take(k + 1)).0 is Some);
                        lemma_scan_error_sticks(*self, list, k + 1, all@.len() as int);
                        assert(list.take(all@.len() as int) =~= list);
                    }
                    return Err(e);
                },
                Ok(()) => {},
            }
            ids.push(slot.id.as_str());
            units.push(slot.systemd_unit.as_str());
            ports.push(slot.game_port);
            ports.push(slot.query_port);
            ports.push(slot.rcon_port);
            assert(str_seq(ids@) =~= str_seq(ids@.drop_last()).push(slot.id@));
            assert(str_seq(units@) =~= str_seq(units@.drop_last()).push(slot.systemd_unit@));
            k = k + 1;
        }
        assert(list.take(all@.len() as int) =~= list);
        Ok(())
    }
}

// ---------------------------------------------------------------------------
// Travel slots and maps
// ---------------------------------------------------------------------------

/// The first problem with the travel-slot list, and the lower-cased names seen.
pub open spec fn travel_slots_scan(ts: Seq<TravelSlot>) -> (Option<Seq<char>>, Seq<Seq<char>>)
    decreases ts.len(),
{
    if ts.len() == 0 {
        (None, Seq::empty())
    } else {
        let prev = travel_slots_scan(ts.drop_last());
        if prev.0 is Some {
            prev
        } else {
            let t = ts.last();
            let e = or_else(
                fail_if(
                    prev.1.contains(lower_seq(t.name@)),
                    "duplicate travel slot name '"@ + t.name@ + "'"@,
                ),
                fail_if(
                    !eq_ignore_case(t.role@, "home"@) && !eq_ignore_case(t.role@, "travel"@),
                    "travel slot '"@ + t.name@ + "' has invalid role '"@ + t.role@
                        + "' (expected 'home' or 'travel')"@,
                ),
            );
            (e, prev.1.push(lower_seq(t.name@)))
        }
    }
}

/// The number of travel slots whose role is `role`, ignoring ASCII case.
pub open spec fn role_count(ts: Seq<TravelSlot>, role: Seq<char>) -> nat
    decreases ts.len(),
{
    if ts.len() == 0 {
        0
    } else {
        role_count(ts.drop_last(), role) + if eq_ignore_case(ts.last().role@, role) {
            1nat
        } else {
            0nat
        }
    }
}

pub open spec fn map_port_error(ports: Seq<u16>, port: u16, label: Seq<char>, id: Seq<char>) -> Option<
    Seq<char>,
> {
    fail_if(
        ports.contains(port),
        "duplicate port "@ + decimal(port as nat) + " ("@ + label + ") on map '"@ + id
            + "' \u{2014} every query/rcon/game port must be unique"@,
    )
}

/// The first problem with one map, given the ids, units and ports before it.
pub open spec fn map_error(m: MapConfig, ids: Seq<Seq<char>>, units: Seq<Seq<char>>, ports: Seq<u16>) -> Option<
    Seq<char>,
> {
    or_else(fail_if(ids.contains(m.id@), "duplicate map id '"@ + m.id@ + "'"@),
    or_else(fail_if(!safe_unit_name(m.systemd_unit@),
        "map '"@ + m.id@ + "' has unsafe systemd unit name '"@ + m.systemd_unit@ + "'"@),
    or_else(fail_if(units.contains(m.systemd_unit@), "duplicate systemd unit '"@ + m.systemd_unit@ + "'"@),
    or_else(map_port_error(ports, m.query_port, "query_port"@, m.id@),
    or_else(map_port_error(ports.push(m.query_port), m.rcon_port, "rcon_port"@, m.id@),
    or_else(map_port_error(ports.push(m.query_port).push(m.rcon_port), m.game_port, "game_port"@, m.id@),
    fail_if(eq_ignore_case(m.assignment@, "home"@) && !m.can_be_home,
        "map '"@ + m.id@ + "' is assigned Home but can_be_home = false"@)))))))
}

/// Scans the maps in order: the first problem and the ids, units and ports seen.
pub open spec fn maps_scan(ms: Seq<MapConfig>) -> (Option<Seq<char>>, Seq<Seq<char>>, Seq<Seq<char>>, Seq<u16>)
    decreases ms.len(),
{
    if ms.len() == 0 {
        (None, Seq::empty(), Seq::empty(), Seq::empty())
    } else {
        let prev = maps_scan(ms.drop_last());
        if prev.0 is Some {
            prev
        } else {
            let m = ms.last();
            (
                map_error(m, prev.1, prev.2, prev.3),
                prev.1.push(m.id@),
                prev.2.push(m.systemd_unit@),
                prev.3.push(m.query_port).push(m.rcon_port).push(m.game_port),
            )
        }
    }
}

/// The number of maps assigned Home.
pub open spec fn home_assigned_count(ms: Seq<MapConfig>) -> nat
    decreases ms.len(),
{
    if ms.len() == 0 {
        0
    } else {
        home_assigned_count(ms.drop_last()) + if eq_ignore_case(ms.last().assignment@, "home"@) {
            1nat
        } else {
            0nat
        }
    }
}

/// An IP address as `std::net::IpAddr` parses it.
#[derive(Clone, Copy, Debug, PartialEq, Eq, Structural)]
pub enum IpAddress {
    V4(u8, u8, u8, u8),
    V6(u16, u16, u16, u16, u16, u16, u16, u16),
}

/// The first problem with a configuration, checked in order; `bind_ip` is the
/// parse of `server.bind_address` (`None` when it is not an IP address).
pub open spec fn validation_error(c: Config, bind_ip: Option<IpAddress>) -> Option<Seq<char>> {
    let p = c.resource_policy;
    let ts = c.travel_slots@;
    let home_slots = role_count(ts, "home"@);
    let travel_slots = role_count(ts, "travel"@);
    let ms = c.maps@;
    or_else(fail_if(trim(c.server.api_token@).len() == 0,
        "api_token is empty; set it in [server] or via ARK_MANAGER_API_TOKEN"@),
    or_else(fail_if(bind_ip is None,
        "server.bind_address '"@ + c.server.bind_address@ + "' is not a valid IP address"@),
    or_else(fail_if(!(p.ram_warn_pct <= p.ram_pressure_pct && p.ram_pressure_pct <= p.ram_emergency_pct),
        "resource_policy thresholds must satisfy ram_warn_pct <= ram_pressure_pct <= ram_emergency_pct"@),
    or_else(fail_if(p.ram_emergency_pct > 100, "resource_policy.ram_emergency_pct must be <= 100"@),
    or_else(safe_path_error("cluster.directory"@, c.cluster.directory@),
    or_else(safe_path_error("backup_policy.directory"@, c.backup_policy.directory@),
    or_else(if trim(c.paths.ark_root@).len() == 0 { None } else {
        safe_path_error("paths.ark_root"@, c.paths.ark_root@) },
    or_else(if trim(c.paths.backup_root@).len() == 0 { None } else {
        safe_path_error("paths.backup_root"@, c.paths.backup_root@) },
    or_else(if trim(c.paths.cluster_dir@).len() == 0 { None } else {
        safe_path_error("paths.cluster_dir"@, c.paths.cluster_dir@) },
    or_else(fail_if(c.rcon.poll_interval_seconds == 0, "rcon.poll_interval_seconds must be > 0"@),
    or_else(travel_slots_scan(ts).0,
    or_else(fail_if(home_slots != 1,
        "exactly one travel slot must have role 'home' (found "@ + decimal(home_slots) + ")"@),
    or_else(fail_if((travel_slots as u32) > p.max_travel_servers,
        "travel slot count ("@ + decimal(travel_slots) + ") exceeds resource_policy.max_travel_servers ("@
            + decimal(p.max_travel_servers as nat) + ")"@),
    or_else(fail_if(ms.len() == 0, "at least one map must be configured"@),
    or_else(match c.slots { Some(s) => server_slots_error(c, s), None => None },
    or_else(maps_scan(ms).0,
    or_else(fail_if(!(exists|i: int| 0 <= i < ms.len() && (#[trigger] ms[i]).can_be_home),
        "no Home map: at least one map must set can_be_home = true"@),
    fail_if(home_assigned_count(ms) > 1,
        decimal(home_assigned_count(ms)) + " maps are assigned Home; only one map may hold the Home slot"@)
    )))))))))))))))))
}

pub proof fn lemma_travel_scan_sticks(ts: Seq<TravelSlot>, i: int, j: int)
    requires
        0 <= i <= j <= ts.len(),
    ensures
        travel_slots_scan(ts.take(i)).0 is Some ==> travel_slots_scan(ts.take(j)).0 == travel_slots_scan(ts.take(i)).0,
    decreases j - i,
{
    if i < j {
        lemma_travel_scan_sticks(ts, i, j - 1);
        assert(ts.take(j).drop_last() =~= ts.take(j - 1));
    }
}

pub proof fn lemma_maps_scan_sticks(ms: Seq<MapConfig>, i: int, j: int)
    requires
        0 <= i <= j <= ms.len(),
    ensures
        maps_scan(ms.take(i)).0 is Some ==> maps_scan(ms.take(j)).0 == maps_scan(ms.take(i)).0,
    decreases j - i,
{
    if i < j {
        lemma_maps_scan_sticks(ms, i, j - 1);
        assert(ms.take(j).drop_last() =~= ms.take(j - 1));
    }
}

fn vec_has_string(v: &Vec<String>, s: &Vec<char>) -> (res: bool)
    ensures
        res == str_views(v@).contains(s@),
{
    let mut i: usize = 0;
    while i < v.len()
        invariant
            0 <= i <= v@.len(),
            forall|j: int| 0 <= j < i ==> str_views(v@)[j] != s@,
        decreases v@.len() - i,
    {
        if crate::text::vec_eq_str(s, v[i].as_str()) {
            assert(str_views(v@)[i as int] == s@);
            return true;
        }
        i = i + 1;
    }
    false
}

fn map_port_check(ports: &Vec<u16>, port: u16, label: &str, id: &str) -> (res: Result<(), ConfigError>)
    ensures
        invalid_if(res, map_port_error(ports@, port, label@, id@)),
{
    if vec_has_u16(ports, port) {
        let n = u64_to_string(port as u64);
        let mut m = cat3("duplicate port ", n.as_str(), " (");
        append(&mut m, label);
        append(&mut m, ") on map '");
        append(&mut m, id);
        append(&mut m, "' \u{2014} every query/rcon/game port must be unique");
        return Err(ConfigError::Invalid(m));
    }
    Ok(())
}

fn check_map(m: &MapConfig, ids: &Vec<&str>, units: &Vec<&str>, ports: &Vec<u16>) -> (res: Result<(), ConfigError>)
    ensures
        invalid_if(res, map_error(*m, str_seq(ids@), str_seq(units@), ports@)),
{
    assert(str_seq(ids@) =~= Seq::new(ids@.len(), |i: int| ids@[i]@));
    assert(str_seq(units@) =~= Seq::new(units@.len(), |i: int| units@[i]@));
    if vec_has_str(ids, m.id.as_str()) {
        return Err(ConfigError::Invalid(cat3("duplicate map id '", m.id.as_str(), "'")));
    }
    if !is_safe_unit_name(m.systemd_unit.as_str()) {
        return Err(
            ConfigError::Invalid(
                cat5("map '", m.id.as_str(), "' has unsafe systemd unit name '", m.systemd_unit.as_str(), "'"),
            ),
        );
    }
    if vec_has_str(units, m.systemd_unit.as_str()) {
        return Err(ConfigError::Invalid(cat3("duplicate systemd unit '", m.systemd_unit.as_str(), "'")));
    }
    let mut p = ports.clone();
    assert(p@ == ports@);
    match map_port_check(&p, m.query_port, "query_port", m.id.as_str()) {
        Err(e) => return Err(e),
        Ok(()) => {},
    }
    p.push(m.query_port);
    match map_port_check(&p, m.rcon_port, "rcon_port", m.id.as_str()) {
        Err(e) => return Err(e),
        Ok(()) => {},
    }
    p.push(m.rcon_port);
    match map_port_check(&p, m.game_port, "game_port", m.id.as_str()) {
        Err(e) => return Err(e),
        Ok(()) => {},
    }
    if eq_ignore_case_str(m.assignment.as_str(), "home") && !m.can_be_home {
        return Err(ConfigError::Invalid(cat3("map '", m.id.as_str(), "' is assigned Home but can_be_home = false")));
    }
    Ok(())
}

fn travel_slots_check(ts: &Vec<TravelSlot>) -> (res: Result<(), ConfigError>)
    ensures
        invalid_if(res, travel_slots_scan(ts@).0),
{
    let mut names: Vec<String> = Vec::new();
    let mut k: usize = 0;
    while k < ts.len()
        invariant
            0 <= k <= ts@.len(),
            travel_slots_scan(ts@.take(k as int)) == (None::<Seq<char>>, str_views(names@)),
        decreases ts@.len() - k,
    {
        let t = &ts[k];
        assert(ts@.take(k + 1).drop_last() =~= ts@.take(k as int));
        assert(ts@.take(k + 1).last() == *t);
        let lname = crate::text::to_lower(t.name.as_str());
        let lv = chars_of(lname.as_str());
        let err = if vec_has_string(&names, &lv) {
            Some(cat3("duplicate travel slot name '", t.name.as_str(), "'"))
        } else if !eq_ignore_case_str(t.role.as_str(), "home") && !eq_ignore_case_str(t.role.as_str(), "travel") {
            Some(cat5("travel slot '", t.name.as_str(), "' has invalid role '", t.role.as_str(), "' (expected 'home' or 'travel')"))
        } else {
            None
        };
        match err {
            Some(m) => {
                proof {
                    lemma_travel_scan_sticks(ts@, k + 1, ts@.len() as int);
                    assert(ts@.take(ts@.len() as int) =~= ts@);
                }
                return Err(ConfigError::Invalid(m));
            },
            None => {},
        }
        let ghost old_names = names@;
        names.push(lname);
        assert(str_views(names@) =~= str_views(old_names).push(lower_seq(t.name@)));
        k = k + 1;
    }
    assert(ts@.take(ts@.len() as int) =~= ts@);
    Ok(())
}

fn role_count_of(ts: &Vec<TravelSlot>, role: &str) -> (res: u64)
    ensures
        res == role_count(ts@, role@),
{
    let mut n: u64 = 0;
    let mut k: usize = 0;
    while k < ts.len()
        invariant
            0 <= k <= ts@.len(),
            n == role_count(ts@.take(k as int), role@),
            n <= k,
        decreases ts@.len() - k,
    {
        assert(ts@.take(k + 1).drop_last() =~= ts@.take(k as int));
        if eq_ignore_case_str(ts[k].role.as_str(), role) {
            n = n + 1;
        }
        k = k + 1;
    }
    assert(ts@.take(ts@.len() as int) =~= ts@);
    n
}

fn maps_check(ms: &Vec<MapConfig>) -> (res: Result<(), ConfigError>)
    ensures
        invalid_if(res, maps_scan(ms@).0),
{
    let mut ids: Vec<&str> = Vec::new();
    let mut units: Vec<&str> = Vec::new();
    let mut ports: Vec<u16> = Vec::new();
    let mut k: usize = 0;
    while k < ms.len()
        invariant
            0 <= k <= ms@.len(),
            maps_scan(ms@.take(k as int)) == (None::<Seq<char>>, str_seq(ids@), str_seq(units@), ports@),
        decreases ms@.len() - k,
    {
        let m = &ms[k];
        assert(ms@.take(k + 1).drop_last() =~= ms@.take(k as int));
        assert(ms@.take(k + 1).last() == *m);
        match check_map(m, &ids, &units, &ports) {
            Err(e) => {
                proof {
                    lemma_maps_scan_sticks(ms@, k + 1, ms@.len() as int);
                    assert(ms@.take(ms@.len() as int) =~= ms@);
                }
                return Err(e);
            },
            Ok(()) => {},
        }
        ids.push(m.id.as_str());
        units.push(m.systemd_unit.as_str());
        ports.push(m.query_port);
        ports.push(m.rcon_port);
        ports.push(m.game_port);
        assert(str_seq(ids@) =~= str_seq(ids@.drop_last()).push(m.id@));
        assert(str_seq(units@) =~= str_seq(units@.drop_last()).push(m.systemd_unit@));
        k = k + 1;
    }
    assert(ms@.take(ms@.len() as int) =~= ms@);
    Ok(())
}

fn home_capable_of(ms: &Vec<MapConfig>) -> (res: bool)
    ensures
        res == (exists|i: int| 0 <= i < ms@.len() && (#[trigger] ms@[i]).can_be_home),
{
    let mut k: usize = 0;
    while k < ms.len()
        invariant
            0 <= k <= ms@.len(),
            forall|i: int| 0 <= i < k ==> !(#[trigger] ms@[i]).can_be_home,
        decreases ms@.len() - k,
    {
        if ms[k].can_be_home {
            assert(ms@[k as int].can_be_home);
            return true;
        }
        k = k + 1;
    }
    false
}

fn home_assigned_of(ms: &Vec<MapConfig>) -> (res: u64)
    ensures
        res == home_assigned_count(ms@),
{
    let mut n: u64 = 0;
    let mut k: usize = 0;
    while k < ms.len()
        invariant
            0 <= k <= ms@.len(),
            n == home_assigned_count(ms@.take(k as int)),
            n <= k,
        decreases ms@.len() - k,
    {
        assert(ms@.take(k + 1).drop_last() =~= ms@.take(k as int));
        if eq_ignore_case_str(ms[k].assignment.as_str(), "home") {
            n = n + 1;
        }
        k = k + 1;
    }
    assert(ms@.take(ms@.len() as int) =~= ms@);
    n
}

impl Config {
    /// Validates the whole configuration; the first failing check gives the
    /// error. `bind_ip` is the parse of `server.bind_address`.
    pub fn validate(&self, bind_ip: Option<IpAddress>) -> (res: Result<(), ConfigError>)
        ensures
            invalid_if(res, validation_error(*self, bind_ip)),
    {
        if is_blank(self.server.api_token.as_str()) {
            return Err(ConfigError::Invalid(owned("api_token is empty; set it in [server] or via ARK_MANAGER_API_TOKEN")));
        }
        if bind_ip.is_none() {
            return Err(
                ConfigError::Invalid(
                    cat3("server.bind_address '", self.server.bind_address.as_str(), "' is not a valid IP address"),
                ),
            );
        }
        let p = &self.resource_policy;
        if !(p.ram_warn_pct <= p.ram_pressure_pct && p.ram_pressure_pct <= p.ram_emergency_pct) {
            return Err(
                ConfigError::Invalid(
                    owned(
                        "resource_policy thresholds must satisfy ram_warn_pct <= ram_pressure_pct <= ram_emergency_pct",
                    ),
                ),
            );
        }
        if p.ram_emergency_pct > 100 {
            return Err(ConfigError::Invalid(owned("resource_policy.ram_emergency_pct must be <= 100")));
        }
        match validate_safe_path("cluster.directory", self.cluster.directory.as_str()) {
            Err(e) => return Err(e),
            Ok(()) => {},
        }
        match validate_safe_path("backup_policy.directory", self.backup_policy.directory.as_str()) {
            Err(e) => return Err(e),
            Ok(()) => {},
        }
        if !is_blank(self.paths.ark_root.as_str()) {
            match validate_safe_path("paths.ark_root", self.paths.ark_root.as_str()) {
                Err(e) => return Err(e),
                Ok(()) => {},
            }
        }
        if !is_blank(self.paths.backup_root.as_str()) {
            match validate_safe_path("paths.backup_root", self.paths.backup_root.as_str()) {
                Err(e) => return Err(e),
                Ok(()) => {},
            }
        }
        if !is_blank(self.paths.cluster_dir.as_str()) {
            match validate_safe_path("paths.cluster_dir", self.paths.cluster_dir.as_str()) {
                Err(e) => return Err(e),
                Ok(()) => {},
            }
        }
        if self.rcon.poll_interval_seconds == 0 {
            return Err(ConfigError::Invalid(owned("rcon.poll_interval_seconds must be > 0")));
        }
        let home_slots = role_count_of(&self.travel_slots, "home");
        let travel_slots = role_count_of(&self.travel_slots, "travel");
        match travel_slots_check(&self.travel_slots) {
            Err(e) => return Err(e),
            Ok(()) => {},
        }
        if home_slots != 1 {
            let n = u64_to_string(home_slots);
            return Err(
                ConfigError::Invalid(
                    cat3("exactly one travel slot must have role 'home' (found ", n.as_str(), ")"),
                ),
            );
        }
        if (travel_slots as u32) > p.max_travel_servers {
            let n = u64_to_string(travel_slots);
            let mx = u64_to_string(p.max_travel_servers as u64);
            let mut m = cat3("travel slot count (", n.as_str(), ") exceeds resource_policy.max_travel_servers (");
            append(&mut m, mx.as_str());
            append(&mut m, ")");
            return Err(ConfigError::Invalid(m));
        }
        if self.maps.len() == 0 {
            return Err(ConfigError::Invalid(owned("at least one map must be configured")));
        }
        match &self.slots {
            Some(slots) => match self.validate_server_slots(slots) {
                Err(e) => return Err(e),
                Ok(()) => {},
            },
            None => {},
        }
        match maps_check(&self.maps) {
            Err(e) => return Err(e),
            Ok(()) => {},
        }
        if !home_capable_of(&self.maps) {
            return Err(ConfigError::Invalid(owned("no Home map: at least one map must set can_be_home = true")));
        }
        let assigned = home_assigned_of(&self.maps);
        if assigned > 1 {
            let n = u64_to_string(assigned);
            return Err(
                ConfigError::Invalid(
                    cat2(n.as_str(), " maps are assigned Home; only one map may hold the Home slot"),
                ),
            );
        }
        Ok(())
    }
}

/// A private address: IPv4 loopback, RFC 1918 ranges or `100.x.x.x`
/// (Tailscale), IPv6 loopback or unique-local.
pub open spec fn private_ip(ip: IpAddress) -> bool {
    match ip {
        IpAddress::V4(a, b, _c, _d) => a == 127 || a == 10 || (a == 172 && 16 <= b && b <= 31) || (a
            == 192 && b == 168) || a == 100,
        IpAddress::V6(s0, s1, s2, s3, s4, s5, s6, s7) => (s0 == 0 && s1 == 0 && s2 == 0 && s3 == 0
            && s4 == 0 && s5 == 0 && s6 == 0 && s7 == 1) || (s0 & 0xfe00u16) == 0xfc00u16,
    }
}

impl Config {
    /// Whether the bind address (parsed as `bind_ip`) is private, so that the
    /// dashboard is reachable over Tailscale or LAN only.
    pub fn bind_is_private(&self, bind_ip: Option<IpAddress>) -> (res: bool)
        ensures
            res == match bind_ip {
                Some(ip) => private_ip(ip),
                None => false,
            },
    {
        match bind_ip {
            Some(IpAddress::V4(a, b, _c, _d)) => a == 127 || a == 10 || (a == 172 && 16 <= b && b
                <= 31) || (a == 192 && b == 168) || a == 100,
            Some(IpAddress::V6(s0, s1, s2, s3, s4, s5, s6, s7)) => (s0 == 0 && s1 == 0 && s2 == 0
                && s3 == 0 && s4 == 0 && s5 == 0 && s6 == 0 && s7 == 1) || (s0 & 0xfe00u16)
                == 0xfc00u16,
            None => false,
        }
    }

    /// Replaces the API token with the environment's, when that is not blank.
    pub fn apply_token_override(&mut self, env_token: Option<String>)
        ensures
            final(self).server.api_token@ == match env_token {
                Some(t) => if trim(t@).len() == 0 {
                    old(self).server.api_token@
                } else {
                    t@
                },
                None => old(self).server.api_token@,
            },
    {
        match env_token {
            Some(t) => {
                if !is_blank(t.as_str()) {
                    self.server.api_token = t;
                }
            },
            None => {},
        }
    }

    /// The host players connect to: `server.player_connect_host`, else the
    /// bind address.
    pub fn player_connect_host(&self) -> (res: String)
        ensures
            res@ == if trim(self.server.player_connect_host@).len() == 0 {
                self.server.bind_address@
            } else {
                self.server.player_connect_host@
            },
    {
        if is_blank(self.server.player_connect_host.as_str()) {
            self.server.bind_address.clone()
        } else {
            self.server.player_connect_host.clone()
        }
    }
}

// ---------------------------------------------------------------------------
// What a valid configuration guarantees
// ---------------------------------------------------------------------------

/// The query, RCON and game ports of a map.
pub open spec fn map_ports(m: MapConfig) -> Seq<u16> {
    seq![m.query_port, m.rcon_port, m.game_port]
}

/// Map ids, systemd units and ports are all distinct.
pub open spec fn maps_distinct(ms: Seq<MapConfig>) -> bool {
    &&& forall|i: int, j: int| 0 <= i < j < ms.len() ==> (#[trigger] ms[i]).id@ != (#[trigger] ms[j]).id@
    &&& forall|i: int, j: int| 0 <= i < j < ms.len() ==> (#[trigger] ms[i]).systemd_unit@ != (#[trigger] ms[j]).systemd_unit@
    &&& forall|i: int, j: int, a: int, b: int| 0 <= i < j < ms.len() && 0 <= a < 3 && 0 <= b < 3
        ==> #[trigger] map_ports(ms[i])[a] != #[trigger] map_ports(ms[j])[b]
    &&& forall|i: int| 0 <= i < ms.len() ==> (#[trigger] ms[i]).query_port != ms[i].rcon_port
        && ms[i].query_port != ms[i].game_port && ms[i].rcon_port != ms[i].game_port
    &&& forall|i: int| 0 <= i < ms.len() ==> safe_unit_name((#[trigger] ms[i]).systemd_unit@)
}

proof fn lemma_maps_scan_ok(ms: Seq<MapConfig>)
    requires
        maps_scan(ms).0 is None,
    ensures
        maps_scan(ms).1 == Seq::new(ms.len(), |i: int| ms[i].id@),
        maps_scan(ms).2 == Seq::new(ms.len(), |i: int| ms[i].systemd_unit@),
        maps_scan(ms).3.len() == 3 * ms.len(),
        forall|i: int, a: int| 0 <= i < ms.len() && 0 <= a < 3 ==> maps_scan(ms).3[3 * i + a] == #[trigger] map_ports(ms[i])[a],
        maps_distinct(ms),
    decreases ms.len(),
{
    if ms.len() > 0 {
        let init = ms.drop_last();
        let prev = maps_scan(init);
        assert(prev.0 is None);
        lemma_maps_scan_ok(init);
        let m = ms.last();
        let n = ms.len() - 1;
        assert(map_error(m, prev.1, prev.2, prev.3) is None);
        let sc = maps_scan(ms);
        assert(sc.1 =~= Seq::new(ms.len(), |i: int| ms[i].id@));
        assert(sc.2 =~= Seq::new(ms.len(), |i: int| ms[i].systemd_unit@));
        assert forall|i: int, a: int| 0 <= i < ms.len() && 0 <= a < 3 implies sc.3[3 * i + a] == #[trigger] map_ports(ms[i])[a] by {
            if i < n {
                assert(init[i] == ms[i]);
                assert(prev.3[3 * i + a] == map_ports(init[i])[a]);
            }
        }
        assert forall|i: int, j: int| 0 <= i < j < ms.len() implies (#[trigger] ms[i]).id@ != (#[trigger] ms[j]).id@ by {
            if j < n {
                assert(init[i] == ms[i] && init[j] == ms[j]);
            } else {
                assert(prev.1[i] == ms[i].id@);
                assert(!prev.1.contains(m.id@));
            }
        }
        assert forall|i: int, j: int| 0 <= i < j < ms.len() implies (#[trigger] ms[i]).systemd_unit@ != (#[trigger] ms[j]).systemd_unit@ by {
            if j < n {
                assert(init[i] == ms[i] && init[j] == ms[j]);
            } else {
                assert(prev.2[i] == ms[i].systemd_unit@);
                assert(!prev.2.contains(m.systemd_unit@));
            }
        }
        assert forall|i: int, j: int, a: int, b: int| 0 <= i < j < ms.len() && 0 <= a < 3 && 0 <= b < 3
            implies #[trigger] map_ports(ms[i])[a] != #[trigger] map_ports(ms[j])[b] by {
            if j < n {
                assert(init[i] == ms[i] && init[j] == ms[j]);
            } else {
                assert(prev.3[3 * i + a] == map_ports(init[i])[a]);
                assert(init[i] == ms[i]);
                let p0 = prev.3;
                assert(!p0.contains(m.query_port));
                assert(!p0.push(m.query_port).contains(m.rcon_port));
                assert(!p0.push(m.query_port).push(m.rcon_port).contains(m.game_port));
                assert(p0.push(m.query_port)[3 * i + a] == p0[3 * i + a]);
                assert(p0.push(m.query_port).push(m.rcon_port)[3 * i + a] == p0[3 * i + a]);
            }
        }
        assert forall|i: int| 0 <= i < ms.len() implies (#[trigger] ms[i]).query_port != ms[i].rcon_port
            && ms[i].query_port != ms[i].game_port && ms[i].rcon_port != ms[i].game_port by {
            if i < n {
                assert(init[i] == ms[i]);
            } else {
                let p0 = prev.3;
                let p1 = p0.push(m.query_port);
                let p2 = p1.push(m.rcon_port);
                assert(!p1.contains(m.rcon_port));
                assert(!p2.contains(m.game_port));
                assert(p1[p0.len() as int] == m.query_port);
                assert(p2[p0.len() as int] == m.query_port);
                assert(p2[p0.len() as int + 1] == m.rcon_port);
                assert(ms[i] == m);
            }
        }
        assert forall|i: int| 0 <= i < ms.len() implies safe_unit_name((#[trigger] ms[i]).systemd_unit@) by {
            if i < n {
                assert(init[i] == ms[i]);
            }
        }
    }
}

/// A configuration that validates has unique map ids, unique systemd units
/// with safe names, and no port used twice; exactly one travel slot is Home,
/// and some map can be Home.
pub proof fn lemma_valid_config_is_consistent(c: Config, bind_ip: Option<IpAddress>)
    requires
        validation_error(c, bind_ip) is None,
    ensures
        maps_distinct(c.maps@),
        role_count(c.travel_slots@, "home"@) == 1,
        exists|i: int| 0 <= i < c.maps@.len() && (#[trigger] c.maps@[i]).can_be_home,
        home_assigned_count(c.maps@) <= 1,
        c.maps@.len() > 0,
        bind_ip is Some,
        trim(c.server.api_token@).len() > 0,
{
    lemma_maps_scan_ok(c.maps@);
}

} // verus!
