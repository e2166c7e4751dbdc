//! The map list the dashboard shows: configured and official maps, their
//! slots, systemd state, player counts and how players connect.
use vstd::prelude::*;
use crate::config::{Config, MapConfig, ResourcePolicy, ServerSlot, SlotsConfig, opt_str, slot_list, slot_entries};
use crate::systemd::UnitStatus;
use crate::text::{
    append, cat2, cat3, chars_of, eq_ignore_case, eq_ignore_case_str, eq_str, first_where, is_blank,
    lemma_first_where_at, lemma_first_where_none, lines, lines_of, lower_seq, lower_vec, owned,
    parse_u64, parse_u64_spec, split_once, split_once_vec, string_from, trim, trim_bounds, trim_vec,
    u64_to_string, vec_eq_str, views, str_eq, count_where, replace_char, replace_char_str,
    starts_with, vec_starts_with, vec_eq,
};
use crate::travel::{OfficialMapProfile, official_table, effective_map, effective_slot_map_id, normalize, normalize_str, profile_view, strs};

verus! {

/// Settings of a map as configured.
#[derive(Clone, Debug)]
pub struct MapConfigSummary {
    pub systemd_unit: String,
    pub ark_map_name: String,
    pub query_port: u16,
    pub rcon_port: u16,
    pub game_port: u16,
    pub slot_priority: i32,
    pub auto_shutdown_enabled: bool,
    pub can_be_home: bool,
    pub can_auto_stop_when_empty: bool,
    pub can_enter_standby: bool,
    pub mod_list: Vec<String>,
}

/// One map as the dashboard shows it.
#[derive(Clone, Debug)]
pub struct ArkMap {
    pub id: String,
    pub name: String,
    pub alias: String,
    pub role: String,
    pub assignment: String,
    pub state: String,
    pub players: u32,
    pub player_count_source: String,
    pub max_players: u32,
    pub max_players_source: String,
    pub ram_mb: u32,
    pub ram_estimate_mb: u32,
    pub uptime_mins: u32,
    pub idle_mins: u32,
    pub last_backup: String,
    pub rcon: String,
    pub systemd: String,
    pub restart_required: bool,
    pub cpu_pct: u32,
    pub save_size_mb: u32,
    pub is_home: bool,
    pub protected: bool,
    pub configured: bool,
    pub launch_ready: bool,
    pub unavailable_reason: Option<String>,
    pub slot_id: Option<String>,
    pub slot_role: String,
    pub next_action: String,
    pub connect_host: String,
    pub game_port: u16,
    pub query_port: u16,
    pub connection_address: String,
    pub query_address: String,
    pub connection_source: String,
    pub connection_available: bool,
    pub connection_unavailable_reason: String,
    pub public_connection_address: Option<String>,
    pub public_query_address: Option<String>,
    pub config: MapConfigSummary,
    pub systemd_detail: Option<UnitStatus>,
}

/// `s` is the summary of configured map `c`.
pub open spec fn is_summary_of(s: MapConfigSummary, c: MapConfig) -> bool {
    &&& s.systemd_unit@ == c.systemd_unit@
    &&& s.ark_map_name@ == c.ark_map_name@
    &&& s.query_port == c.query_port
    &&& s.rcon_port == c.rcon_port
    &&& s.game_port == c.game_port
    &&& s.slot_priority == c.slot_priority
    &&& s.auto_shutdown_enabled == c.can_auto_stop_when_empty
    &&& s.can_be_home == c.can_be_home
    &&& s.can_auto_stop_when_empty == c.can_auto_stop_when_empty
    &&& s.can_enter_standby == c.can_enter_standby
    &&& s.mod_list@ == c.mods@
}

fn summary_of(cfg: &MapConfig) -> (res: MapConfigSummary)
    ensures
        is_summary_of(res, *cfg),
{
    MapConfigSummary {
        systemd_unit: cfg.systemd_unit.clone(),
        ark_map_name: cfg.ark_map_name.clone(),
        query_port: cfg.query_port,
        rcon_port: cfg.rcon_port,
        game_port: cfg.game_port,
        slot_priority: cfg.slot_priority,
        auto_shutdown_enabled: cfg.can_auto_stop_when_empty,
        can_be_home: cfg.can_be_home,
        can_auto_stop_when_empty: cfg.can_auto_stop_when_empty,
        can_enter_standby: cfg.can_enter_standby,
        mod_list: cfg.mods.clone(),
    }
}

/// A map's role label from whether it can be Home.
pub open spec fn role_label(can_be_home: bool) -> Seq<char> {
    if can_be_home {
        "Home-capable"@
    } else {
        "Travel-capable"@
    }
}

/// The label of a slot key.
pub open spec fn slot_role(key: Seq<char>) -> Seq<char> {
    if key == "home"@ {
        "Home"@
    } else {
        "On-demand"@
    }
}

/// The label of a slot key on the dashboard.
pub fn slot_role_label(key: &str) -> (res: &'static str)
    ensures
        res@ == slot_role(key@),
{
    if eq_str(key, "home") {
        "Home"
    } else {
        "On-demand"
    }
}

/// Fields that a map shows before anything is known of its runtime.
pub open spec fn is_idle_runtime(m: ArkMap) -> bool {
    &&& m.players == 0
    &&& m.ram_mb == 0 && m.ram_estimate_mb == 0 && m.uptime_mins == 0 && m.idle_mins == 0
    &&& !m.restart_required && m.cpu_pct == 0 && m.save_size_mb == 0
    &&& m.unavailable_reason is None && m.slot_id is None
    &&& m.connect_host@.len() == 0 && m.game_port == 0 && m.query_port == 0
    &&& m.connection_address@.len() == 0 && m.query_address@.len() == 0
    &&& m.connection_source@ == "unavailable"@
    &&& !m.connection_available
    &&& m.connection_unavailable_reason@ == "map not running"@
    &&& m.public_connection_address is None && m.public_query_address is None
    &&& m.systemd_detail is None
    &&& m.rcon@ == "Disconnected"@
}

/// `m` is the dashboard entry of configured map `c`.
pub open spec fn is_map_from_config(m: ArkMap, c: MapConfig, max_players: u32, source: Seq<char>) -> bool {
    let home = eq_ignore_case(c.assignment@, "home"@);
    &&& m.id@ == c.id@ && m.name@ == c.name@ && m.alias@ == c.alias@
    &&& m.role@ == role_label(c.can_be_home)
    &&& m.assignment@ == c.assignment@
    &&& m.state@ == "Unknown"@
    &&& m.player_count_source@ == "unavailable"@
    &&& m.max_players == max_players
    &&& m.max_players_source@ == source
    &&& m.last_backup@ == "unknown"@
    &&& m.systemd@ == "unknown"@
    &&& m.is_home == home
    &&& m.protected == (c.can_be_home && home)
    &&& m.configured
    &&& m.launch_ready == (trim(c.ark_map_name@).len() > 0)
    &&& m.slot_role@ == if home {
        "Home"@
    } else {
        "On-demand"@
    }
    &&& m.next_action@ == "Read-only status; control disabled in this phase"@
    &&& is_summary_of(m.config, c)
    &&& is_idle_runtime(m)
}

/// The dashboard entry of a configured map, before runtime state is known.
pub fn map_from_config(cfg: &MapConfig, max_players: u32, max_players_source: &str) -> (res: ArkMap)
    ensures
        is_map_from_config(res, *cfg, max_players, max_players_source@),
{
    let home = eq_ignore_case_str(cfg.assignment.as_str(), "home");
    ArkMap {
        id: cfg.id.clone(),
        name: cfg.name.clone(),
        alias: cfg.alias.clone(),
        role: if cfg.can_be_home {
            owned("Home-capable")
        } else {
            owned("Travel-capable")
        },
        assignment: cfg.assignment.clone(),
        state: owned("Unknown"),
        players: 0,
        player_count_source: owned("unavailable"),
        max_players,
        max_players_source: owned(max_players_source),
        ram_mb: 0,
        ram_estimate_mb: 0,
        uptime_mins: 0,
        idle_mins: 0,
        last_backup: owned("unknown"),
        rcon: owned("Disconnected"),
        systemd: owned("unknown"),
        restart_required: false,
        cpu_pct: 0,
        save_size_mb: 0,
        is_home: home,
        protected: cfg.can_be_home && home,
        configured: true,
        launch_ready: !is_blank(cfg.ark_map_name.as_str()),
        unavailable_reason: None,
        slot_id: None,
        slot_role: if home {
            owned("Home")
        } else {
            owned("On-demand")
        },
        next_action: owned("Read-only status; control disabled in this phase"),
        connect_host: String::new(),
        game_port: 0,
        query_port: 0,
        connection_address: String::new(),
        query_address: String::new(),
        connection_source: owned("unavailable"),
        connection_available: false,
        connection_unavailable_reason: owned("map not running"),
        public_connection_address: None,
        public_query_address: None,
        config: summary_of(cfg),
        systemd_detail: None,
    }
}

/// `m` is the dashboard entry of an official map that is not configured:
/// an available, launch-ready destination that is not running.
pub open spec fn is_map_from_official(m: ArkMap, p: (Seq<char>, Seq<char>, Seq<char>, Seq<char>, Seq<Seq<char>>), max_players: u32, source: Seq<char>) -> bool {
    &&& m.id@ == p.0 && m.name@ == p.1 && m.alias@ == p.2
    &&& m.role@ == "Travel-capable"@
    &&& m.assignment@ == "Available destination"@
    &&& m.state@ == "Not running"@
    &&& m.player_count_source@ == "not_running"@
    &&& m.max_players == max_players
    &&& m.max_players_source@ == if max_players > 0 {
        source
    } else {
        "unknown"@
    }
    &&& m.last_backup@ == "not started"@
    &&& m.systemd@ == "not running"@
    &&& !m.is_home && !m.protected && !m.configured
    &&& m.launch_ready
    &&& m.slot_role@ == "On-demand pool"@
    &&& m.next_action@ == "Launch-ready on-demand destination"@
    &&& m.config.systemd_unit@.len() == 0
    &&& m.config.ark_map_name@ == p.3
    &&& m.config.query_port == 0 && m.config.rcon_port == 0 && m.config.game_port == 0
    &&& m.config.slot_priority == 0
    &&& m.config.auto_shutdown_enabled && !m.config.can_be_home
    &&& m.config.can_auto_stop_when_empty && !m.config.can_enter_standby
    &&& m.config.mod_list@.len() == 0
    &&& is_idle_runtime(m)
}

/// The dashboard entry of an official map that is not configured.
pub fn map_from_official(official: &OfficialMapProfile, max_players: u32, max_players_source: &str) -> (res: ArkMap)
    ensures
        is_map_from_official(res, profile_view(*official), max_players, max_players_source@),
{
    ArkMap {
        id: owned(official.id),
        name: owned(official.name),
        alias: owned(official.alias),
        role: owned("Travel-capable"),
        assignment: owned("Available destination"),
        state: owned("Not running"),
        players: 0,
        player_count_source: owned("not_running"),
        max_players,
        max_players_source: if max_players > 0 {
            owned(max_players_source)
        } else {
            owned("unknown")
        },
        ram_mb: 0,
        ram_estimate_mb: 0,
        uptime_mins: 0,
        idle_mins: 0,
        last_backup: owned("not started"),
        rcon: owned("Disconnected"),
        systemd: owned("not running"),
        restart_required: false,
        cpu_pct: 0,
        save_size_mb: 0,
        is_home: false,
        protected: false,
        configured: false,
        launch_ready: true,
        unavailable_reason: None,
        slot_id: None,
        slot_role: owned("On-demand pool"),
        next_action: owned("Launch-ready on-demand destination"),
        connect_host: String::new(),
        game_port: 0,
        query_port: 0,
        connection_address: String::new(),
        query_address: String::new(),
        connection_source: owned("unavailable"),
        connection_available: false,
        connection_unavailable_reason: owned("map not running"),
        public_connection_address: None,
        public_query_address: None,
        config: MapConfigSummary {
            systemd_unit: String::new(),
            ark_map_name: owned(official.ark_map_name),
            query_port: 0,
            rcon_port: 0,
            game_port: 0,
            slot_priority: 0,
            auto_shutdown_enabled: true,
            can_be_home: false,
            can_auto_stop_when_empty: true,
            can_enter_standby: false,
            mod_list: Vec::new(),
        },
        systemd_detail: None,
    }
}

/// Whether a configured map is one of the official maps: some of its id,
/// name, alias and ARK map name normalizes like one of the official map's.
pub open spec fn config_keys(c: MapConfig) -> Seq<Seq<char>> {
    seq![normalize(c.id@), normalize(c.name@), normalize(c.alias@), normalize(c.ark_map_name@)]
}

pub open spec fn official_keys(p: (Seq<char>, Seq<char>, Seq<char>, Seq<char>, Seq<Seq<char>>)) -> Seq<Seq<char>> {
    seq![normalize(p.0), normalize(p.1), normalize(p.2), normalize(p.3)]
}

pub open spec fn matches_official(c: MapConfig, p: (Seq<char>, Seq<char>, Seq<char>, Seq<char>, Seq<Seq<char>>)) -> bool {
    exists|a: int, b: int| 0 <= a < 4 && 0 <= b < 4 && #[trigger] config_keys(c)[a] == #[trigger] official_keys(p)[b]
}

/// Whether a configured map is the given official map.
pub fn config_matches_official(cfg: &MapConfig, official: &OfficialMapProfile) -> (res: bool)
    ensures
        res == matches_official(*cfg, profile_view(*official)),
{
    let ck: Vec<Vec<char>> = vec![
        normalize_str(cfg.id.as_str()),
        normalize_str(cfg.name.as_str()),
        normalize_str(cfg.alias.as_str()),
        normalize_str(cfg.ark_map_name.as_str()),
    ];
    let ok: Vec<Vec<char>> = vec![
        normalize_str(official.id),
        normalize_str(official.name),
        normalize_str(official.alias),
        normalize_str(official.ark_map_name),
    ];
    let ghost cks = seq![normalize(cfg.id@), normalize(cfg.name@), normalize(cfg.alias@), normalize(cfg.ark_map_name@)];
    let ghost oks = seq![normalize(official.id@), normalize(official.name@), normalize(official.alias@), normalize(official.ark_map_name@)];
    assert(views(ck@) =~= cks);
    assert(views(ok@) =~= oks);
    let mut a: usize = 0;
    while a < 4
        invariant
            0 <= a <= 4,
            ck@.len() == 4 && ok@.len() == 4,
            views(ck@) == cks && views(ok@) == oks,
            cks == seq![normalize(cfg.id@), normalize(cfg.name@), normalize(cfg.alias@), normalize(cfg.ark_map_name@)],
            oks == seq![normalize(official.id@), normalize(official.name@), normalize(official.alias@), normalize(official.ark_map_name@)],
            forall|x: int, y: int| 0 <= x < a && 0 <= y < 4 ==> #[trigger] cks[x] != #[trigger] oks[y],
            cks == config_keys(*cfg) && oks == official_keys(profile_view(*official)),
        decreases 4 - a,
    {
        let mut b: usize = 0;
        while b < 4
            invariant
                0 <= a < 4,
                0 <= b <= 4,
                ck@.len() == 4 && ok@.len() == 4,
                views(ck@) == cks && views(ok@) == oks,
                cks == seq![normalize(cfg.id@), normalize(cfg.name@), normalize(cfg.alias@), normalize(cfg.ark_map_name@)],
                oks == seq![normalize(official.id@), normalize(official.name@), normalize(official.alias@), normalize(official.ark_map_name@)],
                forall|x: int, y: int| 0 <= x < a && 0 <= y < 4 ==> #[trigger] cks[x] != #[trigger] oks[y],
                forall|y: int| 0 <= y < b ==> cks[a as int] != #[trigger] oks[y],
                cks == config_keys(*cfg) && oks == official_keys(profile_view(*official)),
            decreases 4 - b,
        {
            assert(views(ck@)[a as int] == ck@[a as int]@);
            assert(views(ok@)[b as int] == ok@[b as int]@);
            if crate::text::vec_eq(&ck[a], &ok[b]) {
                assert(cks[a as int] == oks[b as int]);
                assert(config_keys(*cfg)[a as int] == official_keys(profile_view(*official))[b as int]);
                return true;
            }
            b = b + 1;
        }
        a = a + 1;
    }
    false
}

// ---------------------------------------------------------------------------
// Labels and codes
// ---------------------------------------------------------------------------

/// The RAM pressure label and its colour for a RAM usage percentage.
pub open spec fn pressure(ram_pct: u32, p: ResourcePolicy) -> (Seq<char>, Seq<char>) {
    if ram_pct >= p.ram_emergency_pct {
        ("Critical"@, "red"@)
    } else if ram_pct >= p.ram_pressure_pct {
        ("Resource Pressure"@, "amber"@)
    } else if ram_pct >= p.ram_warn_pct {
        ("Warning"@, "amber"@)
    } else {
        ("Healthy"@, "green"@)
    }
}

/// The RAM pressure label and its colour for the RAM use in percent.
pub fn pressure_label(ram_pct: u32, cfg: &ResourcePolicy) -> (res: (&'static str, &'static str))
    ensures
        (res.0@, res.1@) == pressure(ram_pct, *cfg),
{
    if ram_pct >= cfg.ram_emergency_pct as u32 {
        ("Critical", "red")
    } else if ram_pct >= cfg.ram_pressure_pct as u32 {
        ("Resource Pressure", "amber")
    } else if ram_pct >= cfg.ram_warn_pct as u32 {
        ("Warning", "amber")
    } else {
        ("Healthy", "green")
    }
}

/// The HTTP status for an API error code.
pub open spec fn http_status(code: Seq<char>) -> u16 {
    if code == "NOT_FOUND"@ {
        404
    } else if code == "INVALID_CONFIRMATION"@ || code == "HOME_PROTECTED"@ || code == "PLAYERS_ONLINE"@
        || code == "PATH_NOT_ALLOWED"@ {
        400
    } else if code == "CONTROL_DISABLED"@ || code == "BACKUP_DISABLED"@ || code == "RCON_DISABLED"@
        || code == "CONFIG_WRITES_DISABLED"@ || code == "MOD_MANAGEMENT_DISABLED"@ || code
        == "MAINTENANCE_DISABLED"@ {
        403
    } else if code == "INVALID_CONFIG_FILE"@ || code == "INVALID_CONFIG_KEY"@ || code
        == "INVALID_WORKSHOP_ID"@ {
        400
    } else if code == "RESOURCE_POLICY_BLOCKED"@ {
        409
    } else if code == "BACKUP_PATH_MISSING"@ || code == "UNIT_NOT_CONFIGURED"@ {
        503
    } else {
        500
    }
}

/// The HTTP status an API error code is answered with.
pub fn status_for_error_code(code: &str) -> (res: u16)
    ensures
        res == http_status(code@),
{
    if eq_str(code, "NOT_FOUND") {
        404
    } else if eq_str(code, "INVALID_CONFIRMATION") || eq_str(code, "HOME_PROTECTED") || eq_str(
        code,
        "PLAYERS_ONLINE",
    ) || eq_str(code, "PATH_NOT_ALLOWED") {
        400
    } else if eq_str(code, "CONTROL_DISABLED") || eq_str(code, "BACKUP_DISABLED") || eq_str(
        code,
        "RCON_DISABLED",
    ) || eq_str(code, "CONFIG_WRITES_DISABLED") || eq_str(code, "MOD_MANAGEMENT_DISABLED") || eq_str(
        code,
        "MAINTENANCE_DISABLED",
    ) {
        403
    } else if eq_str(code, "INVALID_CONFIG_FILE") || eq_str(code, "INVALID_CONFIG_KEY") || eq_str(
        code,
        "INVALID_WORKSHOP_ID",
    ) {
        400
    } else if eq_str(code, "RESOURCE_POLICY_BLOCKED") {
        409
    } else if eq_str(code, "BACKUP_PATH_MISSING") || eq_str(code, "UNIT_NOT_CONFIGURED") {
        503
    } else {
        500
    }
}

// ---------------------------------------------------------------------------
// Max players from the shared game settings
// ---------------------------------------------------------------------------

/// `str::parse::<u32>`.
pub open spec fn parse_u32_spec(s: Seq<char>) -> Option<u32> {
    match parse_u64_spec(s) {
        Some(n) => if n <= u32::MAX {
            Some(n as u32)
        } else {
            None
        },
        None => None,
    }
}

/// The max-players setting on one ini line, if it sets a positive one.
pub open spec fn line_max_players(line: Seq<char>) -> Option<u32> {
    let t = trim(line);
    if starts_with(t, ";"@) || starts_with(t, "#"@) {
        None
    } else {
        match split_once(t, '=') {
            Some((k, v)) => {
                let key = lower_seq(trim(k));
                if key == "maxplayers"@ || key == "maxplayersoverride"@ || key == "maxplayersallowed"@ {
                    match parse_u32_spec(trim(v)) {
                        Some(n) => if n > 0 {
                            Some(n)
                        } else {
                            None
                        },
                        None => None,
                    }
                } else {
                    None
                }
            },
            None => None,
        }
    }
}

/// An ini line `MaxPlayers=<n>` sets the player limit `n`, whatever the
/// case of the key; so do `MaxPlayersOverride` and `MaxPlayersAllowed`.
pub proof fn lemma_max_players_line_read(key: Seq<char>, n: nat)
    requires
        lower_seq(key) == "maxplayers"@ || lower_seq(key) == "maxplayersoverride"@
            || lower_seq(key) == "maxplayersallowed"@,
        0 < n <= u32::MAX,
    ensures
        line_max_players(key + "="@ + crate::text::decimal(n)) == Some(n as u32),
{
    reveal_strlit("maxplayers");
    reveal_strlit("maxplayersoverride");
    reveal_strlit("maxplayersallowed");
    reveal_strlit("=");
    reveal_strlit(";");
    reveal_strlit("#");
    let lk = lower_seq(key);
    assert(key.len() == lk.len());
    assert(key.len() > 0);
    assert forall|i: int| 0 <= i < key.len() implies crate::text::is_upper(#[trigger] key[i])
        || crate::text::is_lower(key[i]) by {
        assert(lk[i] == crate::text::lower(key[i]));
        assert(crate::text::is_lower(lk[i]));
    }
    crate::text::lemma_decimal_value(n);
    let dec = crate::text::decimal(n);
    let line = key + "="@ + dec;
    let m = key.len() as int;
    assert(line[0] == key[0]);
    assert(line.last() == dec.last());
    assert(crate::text::is_digit(dec.last()));
    assert(crate::text::is_digit(dec[0]));
    crate::text::lemma_trim_unchanged(line);
    assert(trim(line) == line);
    assert(!starts_with(line, ";"@)) by {
        if starts_with(line, ";"@) {
            assert(line.take(1)[0] == line[0]);
        }
    }
    assert(!starts_with(line, "#"@)) by {
        if starts_with(line, "#"@) {
            assert(line.take(1)[0] == line[0]);
        }
    }
    assert(line[m] == '=');
    assert forall|j: int| 0 <= j < m implies line[j] != '=' by {
        assert(line[j] == key[j]);
    }
    crate::text::lemma_index_of_from_at(line, '=', 0, m);
    assert(line.take(m) =~= key);
    assert(line.skip(m + 1) =~= dec);
    crate::text::lemma_trim_unchanged(key);
    crate::text::lemma_trim_unchanged(dec);
    assert(dec[0] != '+');
}

/// The first max-players setting among `ls`.
pub open spec fn max_players_in(ls: Seq<Seq<char>>) -> Option<u32>
    decreases ls.len(),
{
    if ls.len() == 0 {
        None
    } else {
        match line_max_players(ls[0]) {
            Some(n) => Some(n),
            None => max_players_in(ls.drop_first()),
        }
    }
}

fn line_max_players_of(line: &Vec<char>) -> (res: Option<u32>)
    ensures
        res == line_max_players(line@),
{
    let t = trim_vec(line);
    if vec_starts_with(&t, ";") || vec_starts_with(&t, "#") {
        return None;
    }
    match split_once_vec(&t, '=') {
        Some((k, v)) => {
            let kt = trim_vec(&k);
            let key = lower_vec(&kt);
            if vec_eq_str(&key, "maxplayers") || vec_eq_str(&key, "maxplayersoverride") || vec_eq_str(
                &key,
                "maxplayersallowed",
            ) {
                let (a, b) = trim_bounds(&v, 0, v.len());
                assert(v@.subrange(0, v@.len() as int) =~= v@);
                match parse_u64(&v, a, b) {
                    Some(n) => if n <= 0xffff_ffff && n > 0 {
                        Some(n as u32)
                    } else {
                        None
                    },
                    None => None,
                }
            } else {
                None
            }
        },
        None => None,
    }
}

/// The positive max-players value set in an ini text, if any.
pub fn parse_max_players(raw: &str) -> (res: Option<u32>)
    ensures
        res == max_players_in(lines(raw@)),
{
    let v = chars_of(raw);
    let ls = lines_of(&v);
    let mut k: usize = 0;
    assert(views(ls@).skip(0) =~= views(ls@));
    while k < ls.len()
        invariant
            0 <= k <= ls@.len(),
            views(ls@) == lines(raw@),
            max_players_in(lines(raw@)) == max_players_in(views(ls@).skip(k as int)),
        decreases ls@.len() - k,
    {
        let ghost rest = views(ls@).skip(k as int);
        assert(rest.drop_first() =~= views(ls@).skip(k + 1));
        assert(rest[0] == ls@[k as int]@);
        match line_max_players_of(&ls[k]) {
            Some(n) => {
                return Some(n);
            },
            None => {},
        }
        k = k + 1;
    }
    None
}

/// Max players and where it came from: `GameUserSettings.ini` first, then
/// `Game.ini`; `(0, "unknown")` when neither sets it.
pub open spec fn max_players_source(gus: Seq<char>, game: Seq<char>) -> (u32, Seq<char>) {
    match max_players_in(lines(gus)) {
        Some(n) => (n, "GameUserSettings.ini: MaxPlayers"@),
        None => match max_players_in(lines(game)) {
            Some(n) => (n, "Game.ini: MaxPlayers"@),
            None => (0, "unknown"@),
        },
    }
}

/// The MaxPlayers setting and where it was read, from the shared ini files.
pub fn max_players_from_shared(game_user_settings_ini: &str, game_ini: &str) -> (res: (u32, String))
    ensures
        (res.0, res.1@) == max_players_source(game_user_settings_ini@, game_ini@),
{
    match parse_max_players(game_user_settings_ini) {
        Some(n) => (n, owned("GameUserSettings.ini: MaxPlayers")),
        None => match parse_max_players(game_ini) {
            Some(n) => (n, owned("Game.ini: MaxPlayers")),
            None => (0, owned("unknown")),
        },
    }
}

// ---------------------------------------------------------------------------
// Slots of maps
// ---------------------------------------------------------------------------

pub type SlotEntry = (ServerSlot, Seq<char>, bool);

/// The slot entry found by `p` among the configured slots.
pub open spec fn find_slot(c: Config, p: spec_fn(SlotEntry) -> bool) -> Option<SlotEntry> {
    match c.slots {
        Some(s) => match first_where(slot_list(s), p) {
            Some(i) => Some(slot_list(s)[i]),
            None => None,
        },
        None => None,
    }
}

/// `res` is the slot and key of entry `e` (or both absent).
pub open spec fn is_slot_answer(res: Option<(&ServerSlot, &'static str)>, e: Option<SlotEntry>) -> bool {
    match e {
        Some(x) => res matches Some(r) && *r.0 == x.0 && r.1@ == x.1,
        None => res is None,
    }
}

pub open spec fn runs_map(map_id: Seq<char>) -> spec_fn(SlotEntry) -> bool {
    |e: SlotEntry| effective_map(e.0) == map_id
}

pub open spec fn has_unit(unit: Seq<char>) -> spec_fn(SlotEntry) -> bool {
    |e: SlotEntry| e.0.systemd_unit@ == unit
}

pub open spec fn identity_match(id: Seq<char>) -> spec_fn(SlotEntry) -> bool {
    |e: SlotEntry| id == e.0.id@ || replace_char(id, '-', '_') == e.1 || id == replace_char(e.1, '_', '-')
}

pub open spec fn effective_match(id: Seq<char>) -> spec_fn(SlotEntry) -> bool {
    |e: SlotEntry| effective_map(e.0) == id || replace_char(effective_map(e.0), '-', '_') == replace_char(id, '-', '_')
}

pub open spec fn map_key_match(id: Seq<char>) -> spec_fn(SlotEntry) -> bool {
    |e: SlotEntry| id == e.0.map_key@
}

pub open spec fn slot_id_match(id: Seq<char>) -> spec_fn(SlotEntry) -> bool {
    |e: SlotEntry| id == e.0.id@
}

/// The slot predicate that `find_slot_by` searches with.
pub open spec fn slot_pred(kind: u8, text: Seq<char>) -> spec_fn(SlotEntry) -> bool {
    if kind == 0 {
        runs_map(text)
    } else if kind == 1 {
        has_unit(text)
    } else if kind == 2 {
        identity_match(text)
    } else if kind == 3 {
        effective_match(text)
    } else if kind == 4 {
        map_key_match(text)
    } else {
        slot_id_match(text)
    }
}

fn find_slot_by<'a>(config: &'a Config, kind: u8, text: &str) -> (res: Option<(&'a ServerSlot, &'static str)>)
    requires
        kind < 6,
    ensures
        is_slot_answer(res, find_slot(*config, slot_pred(kind, text@))),
{
    let ghost p = slot_pred(kind, text@);
    let slots = match &config.slots {
        Some(s) => s,
        None => return None,
    };
    let all = slots.iter();
    let ghost list = slot_entries(all@);
    let normalized = replace_char_str(text, '-', '_');
    let mut i: usize = 0;
    while i < all.len()
        invariant
            0 <= i <= all@.len(),
            kind < 6,
            list == slot_entries(all@),
            list == slot_list(*slots),
            config.slots == Some(*slots),
            normalized@ == replace_char(text@, '-', '_'),
            p == slot_pred(kind, text@),
            forall|j: int| 0 <= j < i ==> !p(#[trigger] list[j]),
        decreases all@.len() - i,
    {
        let (slot, key, _h) = all[i];
        assert(list[i as int] == (*slot, key@, _h));
        let hit = if kind == 0 {
            let e = effective_slot_map_id(config, slot);
            str_eq(e.as_str(), text)
        } else if kind == 1 {
            str_eq(slot.systemd_unit.as_str(), text)
        } else if kind == 2 {
            let kd = replace_char_str(key, '_', '-');
            str_eq(text, slot.id.as_str()) || crate::text::vec_eq_str(&normalized, key) || crate::text::vec_eq_str(&kd, text)
        } else if kind == 3 {
            let e = effective_slot_map_id(config, slot);
            let en = replace_char_str(e.as_str(), '-', '_');
            str_eq(e.as_str(), text) || vec_eq(&en, &normalized)
        } else if kind == 4 {
            str_eq(text, slot.map_key.as_str())
        } else {
            str_eq(text, slot.id.as_str())
        };
        assert(hit == p(list[i as int]));
        if hit {
            proof {
                lemma_first_where_at(list, p, i as int);
            }
            return Some((slot, key));
        }
        i = i + 1;
    }
    proof {
        lemma_first_where_none(list, p);
    }
    None
}

/// The slot that runs map `map_id`.
pub fn configured_slot_for_map<'a>(config: &'a Config, map_id: &str) -> (res: Option<(&'a ServerSlot, &'static str)>)
    ensures
        is_slot_answer(res, find_slot(*config, runs_map(map_id@))),
{
    find_slot_by(config, 0, map_id)
}

/// The slot whose systemd unit is `unit`.
pub fn configured_slot_for_unit<'a>(config: &'a Config, unit: &str) -> (res: Option<(&'a ServerSlot, &'static str)>)
    ensures
        is_slot_answer(res, find_slot(*config, has_unit(unit@))),
{
    find_slot_by(config, 1, unit)
}

/// The slot whose id is `slot_id`.
pub fn configured_slot_by_id<'a>(config: &'a Config, slot_id: &str) -> (res: Option<(&'a ServerSlot, &'static str)>)
    ensures
        is_slot_answer(res, find_slot(*config, slot_id_match(slot_id@))),
{
    find_slot_by(config, 5, slot_id)
}

/// The slot that a server id from a request names: by slot id or key
/// first, then by the map the slot runs, then by its configured map key.
pub open spec fn slot_for_request(c: Config, id: Seq<char>) -> Option<SlotEntry> {
    match find_slot(c, identity_match(id)) {
        Some(e) => Some(e),
        None => match find_slot(c, effective_match(id)) {
            Some(e) => Some(e),
            None => find_slot(c, map_key_match(id)),
        },
    }
}

/// The configured slot a server id from a request names.
pub fn configured_slot_for_request<'a>(config: &'a Config, id: &str) -> (res: Option<(&'a ServerSlot, &'static str)>)
    ensures
        is_slot_answer(res, slot_for_request(*config, id@)),
{
    match find_slot_by(config, 2, id) {
        Some(r) => return Some(r),
        None => {},
    }
    match find_slot_by(config, 3, id) {
        Some(r) => return Some(r),
        None => {},
    }
    find_slot_by(config, 4, id)
}

// ---------------------------------------------------------------------------
// Updating a map entry
// ---------------------------------------------------------------------------

/// Overwrites the configured facts of a map entry with those of `cfg`.
pub fn apply_config_to_map(map: &mut ArkMap, cfg: &MapConfig)
    ensures
        ({
            let home = eq_ignore_case(cfg.assignment@, "home"@);
            &&& *final(map) == (ArkMap {
                role: final(map).role,
                is_home: home,
                protected: home && cfg.can_be_home,
                launch_ready: trim(cfg.ark_map_name@).len() > 0,
                unavailable_reason: None,
                name: final(map).name,
                alias: final(map).alias,
                assignment: final(map).assignment,
                config: final(map).config,
                ..*old(map)
            })
            &&& final(map).name@ == cfg.name@ && final(map).alias@ == cfg.alias@
            &&& final(map).assignment@ == cfg.assignment@
            &&& final(map).role@ == role_label(cfg.can_be_home)
            &&& is_summary_of(final(map).config, *cfg)
        }),
{
    map.name = cfg.name.clone();
    map.alias = cfg.alias.clone();
    map.assignment = cfg.assignment.clone();
    map.role = if cfg.can_be_home {
        owned("Home-capable")
    } else {
        owned("Travel-capable")
    };
    map.is_home = eq_ignore_case_str(cfg.assignment.as_str(), "home");
    map.protected = map.is_home && cfg.can_be_home;
    map.launch_ready = !is_blank(cfg.ark_map_name.as_str());
    map.unavailable_reason = None;
    map.config = summary_of(cfg);
}

/// Marks a map entry as running in a slot.
pub fn apply_slot_to_map(map: &mut ArkMap, slot: &ServerSlot, slot_key: &str)
    ensures
        final(map).assignment@ == slot_role(slot_key@),
        final(map).slot_role@ == slot_role(slot_key@),
        final(map).is_home == (slot_key@ == "home"@),
        final(map).protected == slot.protected,
        opt_str(final(map).slot_id) == Some(slot.id@),
        final(map).config == (MapConfigSummary {
            systemd_unit: slot.systemd_unit,
            game_port: slot.game_port,
            query_port: slot.query_port,
            rcon_port: slot.rcon_port,
            ..old(map).config
        }),
        slot.enabled ==> final(map).role == old(map).role && final(map).state == old(map).state
            && final(map).next_action == old(map).next_action,
        !slot.enabled ==> final(map).role@ == "Disabled"@ && final(map).state@ == "Offline"@
            && final(map).next_action@ == "Slot disabled in config"@,
        *final(map) == (ArkMap {
            assignment: final(map).assignment,
            slot_role: final(map).slot_role,
            is_home: final(map).is_home,
            protected: final(map).protected,
            slot_id: final(map).slot_id,
            config: final(map).config,
            role: final(map).role,
            state: final(map).state,
            next_action: final(map).next_action,
            ..*old(map)
        }),
{
    map.assignment = owned(slot_role_label(slot_key));
    map.is_home = eq_str(slot_key, "home");
    map.protected = slot.protected;
    map.slot_id = Some(slot.id.clone());
    map.slot_role = owned(slot_role_label(slot_key));
    map.config.systemd_unit = slot.systemd_unit.clone();
    map.config.game_port = slot.game_port;
    map.config.query_port = slot.query_port;
    map.config.rcon_port = slot.rcon_port;
    if !slot.enabled {
        map.role = owned("Disabled");
        map.state = owned("Offline");
        map.next_action = owned("Slot disabled in config");
    }
}

/// Whether a map state counts as running.
pub open spec fn running_state(s: Seq<char>) -> bool {
    s == "Online"@ || s == "Ready"@ || s == "Starting"@
}

/// The connection fields a map ends with after `apply_connection_to_map`:
/// available, source, address, query address and the reason when unavailable.
pub open spec fn connection_outcome(state: Seq<char>, host: Seq<char>, rcon: Seq<char>, c: Config, slot: ServerSlot) -> (bool, Seq<char>, Seq<char>, Seq<char>, Seq<char>) {
    if !running_state(state) {
        (false, "systemd"@, Seq::empty(), Seq::empty(), "map not running"@)
    } else if trim(host).len() == 0 {
        (false, "manager_config"@, Seq::empty(), Seq::empty(), "player connect host is not configured"@)
    } else if slot.game_port == 0 || slot.query_port == 0 {
        (false, "slot_config"@, Seq::empty(), Seq::empty(), "slot game/query port is not configured"@)
    } else if c.rcon.enabled && rcon != "Connected"@ {
        (false, "rcon"@, Seq::empty(), Seq::empty(), "server loading: waiting for RCON connection"@)
    } else {
        (true, "slot_config"@, host + ":"@ + crate::text::decimal(slot.game_port as nat), host + ":"@
            + crate::text::decimal(slot.query_port as nat), Seq::empty())
    }
}

/// Fills in how players connect to a map running in `slot`; a map is only
/// advertised as connectable while running with a configured host and
/// ports and, when RCON is on, a live RCON connection.
pub fn apply_connection_to_map(map: &mut ArkMap, config: &Config, slot: &ServerSlot)
    ensures
        ({
            let host = if trim(config.server.player_connect_host@).len() == 0 {
                config.server.bind_address@
            } else {
                config.server.player_connect_host@
            };
            let o = connection_outcome(old(map).state@, host, old(map).rcon@, *config, *slot);
            let relay = config.server.relay_public_ip@;
            &&& final(map).connect_host@ == host
            &&& final(map).game_port == slot.game_port
            &&& final(map).query_port == slot.query_port
            &&& final(map).connection_available == o.0
            &&& final(map).connection_source@ == o.1
            &&& final(map).connection_address@ == o.2
            &&& final(map).query_address@ == o.3
            &&& final(map).connection_unavailable_reason@ == o.4
            &&& if o.0 && relay.len() > 0 {
                &&& opt_str(final(map).public_connection_address) == Some(relay + ":"@ + crate::text::decimal(slot.game_port as nat))
                &&& opt_str(final(map).public_query_address) == Some(relay + ":"@ + crate::text::decimal(slot.query_port as nat))
            } else {
                &&& final(map).public_connection_address == old(map).public_connection_address
                &&& final(map).public_query_address == old(map).public_query_address
            }
            &&& *final(map) == (ArkMap {
                connect_host: final(map).connect_host,
                game_port: final(map).game_port,
                query_port: final(map).query_port,
                connection_available: final(map).connection_available,
                connection_source: final(map).connection_source,
                connection_address: final(map).connection_address,
                query_address: final(map).query_address,
                connection_unavailable_reason: final(map).connection_unavailable_reason,
                public_connection_address: final(map).public_connection_address,
                public_query_address: final(map).public_query_address,
                ..*old(map)
            })
        }),
{
    map.connect_host = config.player_connect_host();
    map.game_port = slot.game_port;
    map.query_port = slot.query_port;
    let running = eq_str(map.state.as_str(), "Online") || eq_str(map.state.as_str(), "Ready") || eq_str(
        map.state.as_str(),
        "Starting",
    );
    if !running {
        map.connection_available = false;
        map.connection_source = owned("systemd");
        map.connection_address = String::new();
        map.query_address = String::new();
        map.connection_unavailable_reason = owned("map not running");
        return;
    }
    if is_blank(map.connect_host.as_str()) {
        map.connection_available = false;
        map.connection_source = owned("manager_config");
        map.connection_address = String::new();
        map.query_address = String::new();
        map.connection_unavailable_reason = owned("player connect host is not configured");
        return;
    }
    if slot.game_port == 0 || slot.query_port == 0 {
        map.connection_available = false;
        map.connection_source = owned("slot_config");
        map.connection_address = String::new();
        map.query_address = String::new();
        map.connection_unavailable_reason = owned("slot game/query port is not configured");
        return;
    }
    if config.rcon.enabled && !eq_str(map.rcon.as_str(), "Connected") {
        map.connection_available = false;
        map.connection_source = owned("rcon");
        map.connection_address = String::new();
        map.query_address = String::new();
        map.connection_unavailable_reason = owned("server loading: waiting for RCON connection");
        return;
    }
    let game = u64_to_string(slot.game_port as u64);
    let query = u64_to_string(slot.query_port as u64);
    map.connection_available = true;
    map.connection_source = owned("slot_config");
    map.connection_address = cat3(map.connect_host.as_str(), ":", game.as_str());
    map.query_address = cat3(map.connect_host.as_str(), ":", query.as_str());
    map.connection_unavailable_reason = String::new();
    let relay = config.server.relay_public_ip.as_str();
    if relay.unicode_len() > 0 {
        map.public_connection_address = Some(cat3(relay, ":", game.as_str()));
        map.public_query_address = Some(cat3(relay, ":", query.as_str()));
    }
}

/// A map's state from its unit's systemd state: active is Online,
/// activating is Starting, failed is Error, inactive is Resource Standby
/// for a Home map that can stand by and Offline otherwise; an unavailable
/// reading keeps the current state.
pub open spec fn state_from_systemd(is_home: bool, can_standby: bool, current: Seq<char>, active_state: Seq<char>) -> Seq<char> {
    if active_state == "active"@ {
        "Online"@
    } else if active_state == "activating"@ {
        "Starting"@
    } else if active_state == "failed"@ {
        "Error"@
    } else if active_state == "inactive"@ && is_home && can_standby {
        "Resource Standby"@
    } else if active_state == "inactive"@ {
        "Offline"@
    } else if active_state == "unavailable"@ {
        current
    } else {
        "Offline"@
    }
}

/// The map state a unit status implies.
pub fn map_state_from_systemd(map: &ArkMap, status: &UnitStatus) -> (res: String)
    ensures
        res@ == state_from_systemd(map.is_home, map.config.can_enter_standby, map.state@, status.active_state@),
{
    let a = status.active_state.as_str();
    if eq_str(a, "active") {
        owned("Online")
    } else if eq_str(a, "activating") {
        owned("Starting")
    } else if eq_str(a, "failed") {
        owned("Error")
    } else if eq_str(a, "inactive") && map.is_home && map.config.can_enter_standby {
        owned("Resource Standby")
    } else if eq_str(a, "inactive") {
        owned("Offline")
    } else if eq_str(a, "unavailable") {
        map.state.clone()
    } else {
        owned("Offline")
    }
}

// ---------------------------------------------------------------------------
// Summaries over the map list
// ---------------------------------------------------------------------------

/// The systemd statuses attached to the maps, in order.
pub open spec fn details(ms: Seq<ArkMap>) -> Seq<UnitStatus>
    decreases ms.len(),
{
    if ms.len() == 0 {
        Seq::empty()
    } else {
        match ms.last().systemd_detail {
            Some(d) => details(ms.drop_last()).push(d),
            None => details(ms.drop_last()),
        }
    }
}

/// The overall systemd picture the dashboard shows.
#[derive(Clone, Debug)]
pub struct SystemdSummary {
    pub status: String,
    pub tone: String,
    pub available: bool,
    pub source: String,
    /// Whether the counts below mean anything (some unit was checked).
    pub has_counts: bool,
    pub active_units: usize,
    pub failed_units: usize,
    pub checked_units: usize,
}

pub open spec fn unit_unavailable() -> spec_fn(UnitStatus) -> bool {
    |st: UnitStatus| st.error is Some
}

pub open spec fn unit_active() -> spec_fn(UnitStatus) -> bool {
    |st: UnitStatus| st.active
}

pub open spec fn unit_failed() -> spec_fn(UnitStatus) -> bool {
    |st: UnitStatus| st.active_state@ == "failed"@ || st.state@ == "failed"@
}

pub open spec fn unit_from_systemd() -> spec_fn(UnitStatus) -> bool {
    |st: UnitStatus| st.source@ == "systemd"@
}

/// `r` summarizes the statuses `sts`.
pub open spec fn is_systemd_summary(r: SystemdSummary, sts: Seq<UnitStatus>) -> bool {
    if sts.len() == 0 {
        &&& r.status@ == "Unavailable"@ && r.tone@ == "gray"@ && !r.available
        &&& r.source@ == "unavailable"@ && !r.has_counts
    } else {
        let unavailable = count_where(sts, unit_unavailable());
        let failed = count_where(sts, unit_failed());
        &&& r.has_counts
        &&& r.active_units == count_where(sts, unit_active())
        &&& r.failed_units == failed
        &&& r.checked_units == sts.len()
        &&& r.source@ == match first_where(sts, unit_from_systemd()) {
            Some(i) => sts[i].source@,
            None => sts[0].source@,
        }
        &&& if unavailable == sts.len() {
            r.status@ == "Unavailable"@ && r.tone@ == "gray"@ && !r.available
        } else if failed > 0 {
            r.status@ == "Failures detected"@ && r.tone@ == "red"@ && r.available
        } else {
            r.status@ == "Read-only available"@ && r.tone@ == "green"@ && r.available
        }
    }
}

/// The systemd summary of the dashboard from the maps' unit states.
pub fn systemd_summary(maps: &Vec<ArkMap>) -> (res: SystemdSummary)
    ensures
        is_systemd_summary(res, details(maps@)),
{
    let mut sts: Vec<&UnitStatus> = Vec::new();
    let mut k: usize = 0;
    while k < maps.len()
        invariant
            0 <= k <= maps@.len(),
            Seq::new(sts@.len(), |i: int| *sts@[i]) == details(maps@.take(k as int)),
            sts@.len() <= k,
        decreases maps@.len() - k,
    {
        assert(maps@.take(k + 1).drop_last() =~= maps@.take(k as int));
        let ghost before = sts@;
        match &maps[k].systemd_detail {
            Some(d) => {
                sts.push(d);
                assert(Seq::new(sts@.len(), |i: int| *sts@[i]) =~= Seq::new(before.len(), |i: int| *before[i]).push(*d));
            },
            None => {},
        }
        k = k + 1;
    }
    assert(maps@.take(maps@.len() as int) =~= maps@);
    let ghost sv = Seq::new(sts@.len(), |i: int| *sts@[i]);
    if sts.len() == 0 {
        return SystemdSummary {
            status: owned("Unavailable"),
            tone: owned("gray"),
            available: false,
            source: owned("unavailable"),
            has_counts: false,
            active_units: 0,
            failed_units: 0,
            checked_units: 0,
        };
    }
    let mut unavailable: usize = 0;
    let mut active: usize = 0;
    let mut failed: usize = 0;
    let mut source_at: Option<usize> = None;
    let mut i: usize = 0;
    while i < sts.len()
        invariant
            0 <= i <= sts@.len(),
            sv == Seq::new(sts@.len(), |i: int| *sts@[i]),
            unavailable == count_where(sv.take(i as int), unit_unavailable()),
            active == count_where(sv.take(i as int), unit_active()),
            failed == count_where(sv.take(i as int), unit_failed()),
            unavailable <= i && active <= i && failed <= i,
            match source_at {
                Some(j) => first_where(sv, unit_from_systemd()) == Some(j as int) && j < i,
                None => forall|j: int| 0 <= j < i ==> !unit_from_systemd()(#[trigger] sv[j]),
            },
        decreases sts@.len() - i,
    {
        let st = sts[i];
        assert(sv.take(i + 1).drop_last() =~= sv.take(i as int));
        assert(sv.take(i + 1).last() == *st);
        if st.error.is_some() {
            unavailable = unavailable + 1;
        }
        if st.active {
            active = active + 1;
        }
        if eq_str(st.active_state.as_str(), "failed") || eq_str(st.state.as_str(), "failed") {
            failed = failed + 1;
        }
        if source_at.is_none() && eq_str(st.source.as_str(), "systemd") {
            proof {
                lemma_first_where_at(sv, unit_from_systemd(), i as int);
            }
            source_at = Some(i);
        }
        i = i + 1;
    }
    assert(sv.take(sts@.len() as int) =~= sv);
    let source = match source_at {
        Some(j) => sts[j].source.clone(),
        None => {
            proof {
                lemma_first_where_none(sv, unit_from_systemd());
            }
            sts[0].source.clone()
        },
    };
    let n = sts.len();
    if unavailable == n {
        SystemdSummary {
            status: owned("Unavailable"),
            tone: owned("gray"),
            available: false,
            source,
            has_counts: true,
            active_units: active,
            failed_units: failed,
            checked_units: n,
        }
    } else if failed > 0 {
        SystemdSummary {
            status: owned("Failures detected"),
            tone: owned("red"),
            available: true,
            source,
            has_counts: true,
            active_units: active,
            failed_units: failed,
            checked_units: n,
        }
    } else {
        SystemdSummary {
            status: owned("Read-only available"),
            tone: owned("green"),
            available: true,
            source,
            has_counts: true,
            active_units: active,
            failed_units: failed,
            checked_units: n,
        }
    }
}

pub open spec fn active_travel_snapshot() -> spec_fn(crate::travel::SlotStatusSnapshot) -> bool {
    |s: crate::travel::SlotStatusSnapshot| s.key@ != "home"@ && s.status.active
}

/// The number of travel slots whose unit is active.
pub fn active_travel_slot_count_from_statuses(statuses: &Vec<crate::travel::SlotStatusSnapshot>) -> (res: usize)
    ensures
        res == count_where(statuses@, active_travel_snapshot()),
{
    let mut n: usize = 0;
    let mut i: usize = 0;
    while i < statuses.len()
        invariant
            0 <= i <= statuses@.len(),
            n == count_where(statuses@.take(i as int), active_travel_snapshot()),
            n <= i,
        decreases statuses@.len() - i,
    {
        assert(statuses@.take(i + 1).drop_last() =~= statuses@.take(i as int));
        if !eq_str(statuses[i].key, "home") && statuses[i].status.active {
            n = n + 1;
        }
        i = i + 1;
    }
    assert(statuses@.take(statuses@.len() as int) =~= statuses@);
    n
}

pub open spec fn active_travel_map() -> spec_fn(ArkMap) -> bool {
    |m: ArkMap| !m.is_home && match m.systemd_detail {
        Some(st) => st.active,
        None => false,
    }
}

/// The number of non-Home maps whose unit is active.
pub fn active_travel_slot_count_from_maps(maps: &Vec<ArkMap>) -> (res: usize)
    ensures
        res == count_where(maps@, active_travel_map()),
{
    let mut n: usize = 0;
    let mut i: usize = 0;
    while i < maps.len()
        invariant
            0 <= i <= maps@.len(),
            n == count_where(maps@.take(i as int), active_travel_map()),
            n <= i,
        decreases maps@.len() - i,
    {
        assert(maps@.take(i + 1).drop_last() =~= maps@.take(i as int));
        let active = match &maps[i].systemd_detail {
            Some(st) => st.active,
            None => false,
        };
        if !maps[i].is_home && active {
            n = n + 1;
        }
        i = i + 1;
    }
    assert(maps@.take(maps@.len() as int) =~= maps@);
    n
}

// ---------------------------------------------------------------------------
// The map list before runtime facts
// ---------------------------------------------------------------------------

/// Where a map entry comes from: a configured map or an official map.
#[derive(Clone, Copy, Debug, PartialEq, Eq, Structural)]
pub enum MapSource {
    Configured(usize),
    Official(usize),
}

pub open spec fn unused_match(used: Seq<Seq<char>>, p: (Seq<char>, Seq<char>, Seq<char>, Seq<char>, Seq<Seq<char>>)) -> spec_fn(MapConfig) -> bool {
    |m: MapConfig| !used.contains(m.id@) && matches_official(m, p)
}

/// The entries for the first `k` official maps, each taken from the first
/// configured map not used yet that matches it, and the ids used.
pub open spec fn official_pass(maps: Seq<MapConfig>, k: nat) -> (Seq<MapSource>, Seq<Seq<char>>)
    decreases k,
{
    if k == 0 {
        (Seq::empty(), Seq::empty())
    } else {
        let prev = official_pass(maps, (k - 1) as nat);
        match first_where(maps, unused_match(prev.1, official_table()[k - 1])) {
            Some(i) => (prev.0.push(MapSource::Configured(i as usize)), prev.1.push(maps[i].id@)),
            None => (prev.0.push(MapSource::Official((k - 1) as usize)), prev.1),
        }
    }
}

/// The configured maps among the first `k` whose id was not used.
pub open spec fn leftover_configs(maps: Seq<MapConfig>, used: Seq<Seq<char>>, k: nat) -> Seq<MapSource>
    decreases k,
{
    if k == 0 {
        Seq::empty()
    } else {
        let prev = leftover_configs(maps, used, (k - 1) as nat);
        if used.contains(maps[k - 1].id@) { prev } else { prev.push(MapSource::Configured((k - 1) as usize)) }
    }
}

/// The dashboard's map list: every official map (configured or not), then
/// the configured maps that are not official.
pub open spec fn map_sources_of(maps: Seq<MapConfig>) -> Seq<MapSource> {
    let o = official_pass(maps, official_table().len());
    o.0 + leftover_configs(maps, o.1, maps.len())
}

fn ids_contain(v: &Vec<String>, t: &str) -> (res: bool)
    ensures
        res == crate::text::str_views(v@).contains(t@),
{
    let mut i: usize = 0;
    while i < v.len()
        invariant
            0 <= i <= v@.len(),
            forall|j: int| 0 <= j < i ==> v@[j]@ != t@,
        decreases v@.len() - i,
    {
        if str_eq(v[i].as_str(), t) {
            assert(crate::text::str_views(v@)[i as int] == t@);
            return true;
        }
        i = i + 1;
    }
    proof {
        if crate::text::str_views(v@).contains(t@) {
            let j = choose|j: int| 0 <= j < crate::text::str_views(v@).len() && crate::text::str_views(v@)[j] == t@;
            assert(v@[j]@ == t@);
        }
    }
    false
}

fn first_unused_match(maps: &Vec<MapConfig>, used: &Vec<String>, official: &OfficialMapProfile) -> (res: Option<usize>)
    ensures
        match first_where(maps@, unused_match(crate::text::str_views(used@), profile_view(*official))) {
            Some(i) => res matches Some(k) && k as int == i && i < maps@.len(),
            None => res is None,
        },
{
    let ghost p = unused_match(crate::text::str_views(used@), profile_view(*official));
    let mut i: usize = 0;
    while i < maps.len()
        invariant
            0 <= i <= maps@.len(),
            p == unused_match(crate::text::str_views(used@), profile_view(*official)),
            forall|j: int| 0 <= j < i ==> !p(#[trigger] maps@[j]),
        decreases maps@.len() - i,
    {
        if !ids_contain(used, maps[i].id.as_str()) && config_matches_official(&maps[i], official) {
            proof {
                lemma_first_where_at(maps@, p, i as int);
            }
            return Some(i);
        }
        i = i + 1;
    }
    proof {
        lemma_first_where_none(maps@, p);
    }
    None
}

/// The first `n` official-map entries: the k-th is the k-th official map
/// itself or a configured map that is that official map.
proof fn lemma_official_pass_entries(maps: Seq<MapConfig>, n: nat)
    requires
        n <= official_table().len(),
        maps.len() <= usize::MAX,
    ensures
        official_pass(maps, n).0.len() == n,
        forall|k: int| 0 <= k < n ==> match #[trigger] official_pass(maps, n).0[k] {
            MapSource::Official(j) => j as int == k,
            MapSource::Configured(i) => (i as int) < maps.len() && matches_official(maps[i as int], official_table()[k]),
        },
    decreases n,
{
    if n > 0 {
        let m = (n - 1) as nat;
        lemma_official_pass_entries(maps, m);
        let prev = official_pass(maps, m);
        let p = unused_match(prev.1, official_table()[m as int]);
        crate::text::lemma_first_where_some(maps, p);
        let cur = official_pass(maps, n);
        assert forall|k: int| 0 <= k < n implies match #[trigger] cur.0[k] {
            MapSource::Official(j) => j as int == k,
            MapSource::Configured(i) => (i as int) < maps.len() && matches_official(maps[i as int], official_table()[k]),
        } by {
            if k < m {
                assert(cur.0[k] == prev.0[k]);
            } else {
                match first_where(maps, p) {
                    Some(i) => {
                        assert(cur.0[k] == MapSource::Configured(i as usize));
                        assert((i as usize) as int == i);
                    },
                    None => {},
                }
            }
        }
    }
}

/// Every official map has its entry in the dashboard's map list, in the
/// official order: the k-th entry is the k-th official map itself, or a
/// configured map that is that official map.
pub proof fn lemma_every_official_map_listed(maps: Seq<MapConfig>)
    requires
        maps.len() <= usize::MAX,
    ensures
        map_sources_of(maps).len() >= official_table().len(),
        forall|k: int| 0 <= k < official_table().len() ==> match #[trigger] map_sources_of(maps)[k] {
            MapSource::Official(j) => j as int == k,
            MapSource::Configured(i) => (i as int) < maps.len() && matches_official(maps[i as int], official_table()[k]),
        },
{
    let n = official_table().len();
    lemma_official_pass_entries(maps, n);
    let o = official_pass(maps, n);
    assert forall|k: int| 0 <= k < n implies #[trigger] map_sources_of(maps)[k] == o.0[k] by {}
}

/// Whether entry `e` lists a configured map with id `id`.
pub open spec fn configured_with_id(e: MapSource, maps: Seq<MapConfig>, id: Seq<char>) -> bool {
    match e {
        MapSource::Configured(j) => (j as int) < maps.len() && maps[j as int].id@ == id,
        MapSource::Official(_) => false,
    }
}

/// Each id the official pass used is the id of a configured map it listed.
proof fn lemma_official_pass_used(maps: Seq<MapConfig>, n: nat)
    requires
        n <= official_table().len(),
        maps.len() <= usize::MAX,
    ensures
        forall|t: int| #![trigger official_pass(maps, n).1[t]] 0 <= t < official_pass(maps, n).1.len() ==> exists|k: int| 0 <= k < official_pass(maps, n).0.len()
            && configured_with_id(#[trigger] official_pass(maps, n).0[k], maps, official_pass(maps, n).1[t]),
    decreases n,
{
    if n > 0 {
        let m = (n - 1) as nat;
        lemma_official_pass_used(maps, m);
        lemma_official_pass_entries(maps, m);
        let prev = official_pass(maps, m);
        let p = unused_match(prev.1, official_table()[m as int]);
        crate::text::lemma_first_where_some(maps, p);
        let cur = official_pass(maps, n);
        assert forall|t: int| #![trigger cur.1[t]] 0 <= t < cur.1.len() implies exists|k: int| 0 <= k < cur.0.len()
            && configured_with_id(#[trigger] cur.0[k], maps, cur.1[t]) by {
            match first_where(maps, p) {
                Some(i) => {
                    if t < prev.1.len() {
                        let k = choose|k: int| 0 <= k < prev.0.len()
                            && configured_with_id(#[trigger] prev.0[k], maps, prev.1[t]);
                        assert(cur.0[k] == prev.0[k]);
                    } else {
                        assert(cur.0[m as int] == MapSource::Configured(i as usize));
                        assert((i as usize) as int == i);
                    }
                },
                None => {
                    let k = choose|k: int| 0 <= k < prev.0.len()
                        && configured_with_id(#[trigger] prev.0[k], maps, prev.1[t]);
                    assert(cur.0[k] == prev.0[k]);
                },
            }
        }
    }
}

/// The leftover pass lists each of the first `k` configured maps whose id
/// was not used.
proof fn lemma_leftover_lists(maps: Seq<MapConfig>, used: Seq<Seq<char>>, k: nat, i: int)
    requires
        k <= maps.len(),
        maps.len() <= usize::MAX,
        0 <= i < k,
        !used.contains(maps[i].id@),
    ensures
        leftover_configs(maps, used, k).contains(MapSource::Configured(i as usize)),
    decreases k,
{
    let prev = leftover_configs(maps, used, (k - 1) as nat);
    if i < k - 1 {
        lemma_leftover_lists(maps, used, (k - 1) as nat, i);
        let w = choose|w: int| 0 <= w < prev.len() && prev[w] == MapSource::Configured(i as usize);
        if !used.contains(maps[k - 1].id@) {
            assert(leftover_configs(maps, used, k)[w] == prev[w]);
        }
    } else {
        let cur = leftover_configs(maps, used, k);
        assert(cur[prev.len() as int] == MapSource::Configured(i as usize));
    }
}

/// With distinct map ids, every configured map is in the dashboard's map
/// list: as the official map it is, or after the official maps.
pub proof fn lemma_every_configured_map_listed(maps: Seq<MapConfig>, i: int)
    requires
        maps.len() <= usize::MAX,
        0 <= i < maps.len(),
        forall|a: int, b: int| 0 <= a < b < maps.len() ==> maps[a].id@ != maps[b].id@,
    ensures
        map_sources_of(maps).contains(MapSource::Configured(i as usize)),
{
    let n = official_table().len();
    let o = official_pass(maps, n);
    let all = map_sources_of(maps);
    if o.1.contains(maps[i].id@) {
        lemma_official_pass_used(maps, n);
        let t = choose|t: int| 0 <= t < o.1.len() && o.1[t] == maps[i].id@;
        let k = choose|k: int| 0 <= k < o.0.len()
            && configured_with_id(#[trigger] o.0[k], maps, o.1[t]);
        let j = o.0[k]->Configured_0;
        assert(j as int == i);
        assert(all[k] == o.0[k]);
    } else {
        lemma_leftover_lists(maps, o.1, maps.len(), i);
        let left = leftover_configs(maps, o.1, maps.len());
        let w = choose|w: int| 0 <= w < left.len() && left[w] == MapSource::Configured(i as usize);
        assert(all[o.0.len() + w] == left[w]);
    }
}

/// The sources of the dashboard's map list, in order.
pub fn map_sources(config: &Config) -> (res: Vec<MapSource>)
    ensures
        res@ == map_sources_of(config.maps@),
{
    let officials = crate::travel::official_maps();
    let ghost table = official_table();
    let mut out: Vec<MapSource> = Vec::new();
    let mut used: Vec<String> = Vec::new();
    let mut k: usize = 0;
    while k < officials.len()
        invariant
            0 <= k <= officials@.len(),
            Seq::new(officials@.len(), |i: int| profile_view(officials@[i])) == table,
            table == official_table(),
            official_pass(config.maps@, k as nat) == (out@, crate::text::str_views(used@)),
        decreases officials@.len() - k,
    {
        assert(profile_view(officials@[k as int]) == Seq::new(officials@.len(), |i: int| profile_view(officials@[i]))[k as int]);
        match first_unused_match(&config.maps, &used, &officials[k]) {
            Some(i) => {
                out.push(MapSource::Configured(i));
                let ghost before = used@;
                used.push(config.maps[i].id.clone());
                assert(crate::text::str_views(used@) =~= crate::text::str_views(before).push(config.maps@[i as int].id@));
            },
            None => {
                out.push(MapSource::Official(k));
            },
        }
        k = k + 1;
    }
    assert(officials@.len() == table.len());
    let ghost used_ids = crate::text::str_views(used@);
    let ghost first = out@;
    let mut j: usize = 0;
    while j < config.maps.len()
        invariant
            0 <= j <= config.maps@.len(),
            crate::text::str_views(used@) == used_ids,
            out@ == first + leftover_configs(config.maps@, used_ids, j as nat),
        decreases config.maps@.len() - j,
    {
        if !ids_contain(&used, config.maps[j].id.as_str()) {
            out.push(MapSource::Configured(j));
            assert(out@ =~= first + leftover_configs(config.maps@, used_ids, (j + 1) as nat));
        } else {
            assert(out@ =~= first + leftover_configs(config.maps@, used_ids, (j + 1) as nat));
        }
        j = j + 1;
    }
    out
}

} // verus!
