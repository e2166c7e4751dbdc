use ark_cluster::config::{
    BackupPolicy, ClusterConfig, Config, DiscordConfig, IpAddress, MapConfig, OperationsConfig, PathsConfig,
    RconConfig, ResourceGuardConfig, ResourcePolicy, ServerConfig, ServerSlot, SlotPaths, SlotRconConfig,
    SlotsConfig, TravelSlot,
};

/// Dotted IPv4 text as an address (the tests only use IPv4 literals).
fn ip(text: &str) -> Option<IpAddress> {
    let parts: Vec<&str> = text.split('.').collect();
    if parts.len() != 4 {
        return None;
    }
    let mut o = [0u8; 4];
    for (i, p) in parts.iter().enumerate() {
        if p.is_empty() || !p.chars().all(|c| c.is_ascii_digit()) {
            return None;
        }
        o[i] = p.parse::<u8>().ok()?;
    }
    Some(IpAddress::V4(o[0], o[1], o[2], o[3]))
}

fn slot_paths() -> SlotPaths {
    SlotPaths { save_dir: None, config_dir: None }
}

fn base() -> Config {
    Config {
        cluster: ClusterConfig {
            name: "c".into(),
            id: "id".into(),
            directory: "/srv/ark".into(),
            manager_version: "v".into(),
        },
        server: ServerConfig {
            bind_address: "127.0.0.1".into(),
            port: 8787,
            api_token: "tok".into(),
            relay_public_ip: String::new(),
            player_connect_host: String::new(),
        },
        operations: OperationsConfig::default(),
        paths: PathsConfig {
            ark_root: "/srv/ark".into(),
            backup_root: "/srv/ark/backups".into(),
            cluster_dir: "/srv/ark/clusters/main".into(),
        },
        resource_policy: ResourcePolicy {
            ram_warn_pct: 70,
            ram_pressure_pct: 82,
            ram_emergency_pct: 92,
            max_travel_servers: 2,
            empty_shutdown_mins: 10,
            home_standby_enabled: true,
            never_stop_with_players: true,
            home_stops_only_when_empty: true,
            prefer_active_player_maps: true,
            auto_restart_home: true,
        },
        resource_guard: ResourceGuardConfig::default(),
        backup_policy: BackupPolicy {
            before_shutdown: true,
            before_config_save: true,
            before_mod_change: true,
            retention: "r".into(),
            directory: "/srv/ark/backups".into(),
        },
        rcon: RconConfig::default(),
        discord: DiscordConfig {
            enabled: false,
            guild: "g".into(),
            status_channel: "#c".into(),
            bot_token_env: "X".into(),
        },
        slots: Some(SlotsConfig {
            home: ServerSlot {
                id: "home".into(),
                label: "Home".into(),
                map_key: "home".into(),
                systemd_unit: "ark-server@home.service".into(),
                game_port: 7777,
                query_port: 27015,
                rcon_port: 27020,
                save_path: Some("/srv/ark/home/Saved".into()),
                config_path: Some("/srv/ark/home/Saved/Config/LinuxServer".into()),
                paths: slot_paths(),
                rcon: Some(SlotRconConfig {
                    host: "127.0.0.1".into(),
                    port: 27020,
                    password_env: "ARK_HOME_RCON_PASSWORD".into(),
                }),
                enabled: true,
                protected: true,
                home_resource_standby_enabled: true,
            },
            travel_a: Some(ServerSlot {
                id: "travel-a".into(),
                label: "Travel A".into(),
                map_key: "rag".into(),
                systemd_unit: "ark-server@travel-a.service".into(),
                game_port: 7779,
                query_port: 27017,
                rcon_port: 27022,
                save_path: None,
                config_path: None,
                paths: slot_paths(),
                rcon: None,
                enabled: true,
                protected: false,
                home_resource_standby_enabled: false,
            }),
            travel_b: Some(ServerSlot {
                id: "travel-b".into(),
                label: "Travel B".into(),
                map_key: "ab".into(),
                systemd_unit: "ark-server@travel-b.service".into(),
                game_port: 7781,
                query_port: 27019,
                rcon_port: 27024,
                save_path: None,
                config_path: None,
                paths: slot_paths(),
                rcon: None,
                enabled: true,
                protected: false,
                home_resource_standby_enabled: false,
            }),
        }),
        travel_slots: vec![
            TravelSlot { name: "Home".into(), role: "home".into() },
            TravelSlot { name: "Travel A".into(), role: "travel".into() },
            TravelSlot { name: "Travel B".into(), role: "travel".into() },
        ],
        maps: vec![
            MapConfig {
                id: "home".into(),
                name: "Home".into(),
                alias: "home".into(),
                ark_map_name: "TheIsland".into(),
                systemd_unit: "ark@home.service".into(),
                query_port: 27015,
                rcon_port: 27020,
                game_port: 7777,
                slot_priority: 0,
                can_be_home: true,
                can_auto_stop_when_empty: false,
                can_enter_standby: true,
                assignment: "Home".into(),
                mods: vec![],
            },
            MapConfig {
                id: "rag".into(),
                name: "Ragnarok".into(),
                alias: "rag".into(),
                ark_map_name: "Ragnarok".into(),
                systemd_unit: "ark@a.service".into(),
                query_port: 27017,
                rcon_port: 27022,
                game_port: 7779,
                slot_priority: 1,
                can_be_home: false,
                can_auto_stop_when_empty: true,
                can_enter_standby: false,
                assignment: "Travel A".into(),
                mods: vec![],
            },
        ],
    }
}

fn validate(c: &Config) -> Result<(), String> {
    c.validate(ip(&c.server.bind_address)).map_err(|e| e.message())
}

#[test]
fn valid_config_passes() {
    assert!(validate(&base()).is_ok());
}

#[test]
fn duplicate_map_id_rejected() {
    let mut c = base();
    c.maps[1].id = "home".into();
    assert!(validate(&c).is_err());
}

#[test]
fn duplicate_port_rejected() {
    let mut c = base();
    c.maps[1].query_port = 27015;
    assert!(validate(&c).is_err());
}

#[test]
fn duplicate_systemd_unit_rejected() {
    let mut c = base();
    c.maps[1].systemd_unit = c.maps[0].systemd_unit.clone();
    assert!(validate(&c).is_err());
}

#[test]
fn unsafe_systemd_unit_rejected() {
    let mut c = base();
    c.maps[0].systemd_unit = "ark@home.service;shutdown".into();
    assert!(validate(&c).is_err());
}

#[test]
fn slot_paths_must_stay_under_cluster_dir() {
    let mut c = base();
    c.slots.as_mut().unwrap().home.save_path = Some("/etc/ark".into());
    assert!(validate(&c).is_err());
}

#[test]
fn nested_slot_paths_must_stay_under_ark_root() {
    let mut c = base();
    c.slots.as_mut().unwrap().home.save_path = None;
    c.slots.as_mut().unwrap().home.paths.save_dir = Some("/tmp/ark".into());
    assert!(validate(&c).is_err());
}

#[test]
fn bad_rcon_password_env_rejected() {
    let mut c = base();
    c.slots.as_mut().unwrap().home.rcon.as_mut().unwrap().password_env = "bad-name".into();
    assert!(validate(&c).is_err());
}

#[test]
fn missing_home_rejected() {
    let mut c = base();
    c.maps[0].can_be_home = false;
    c.maps[0].assignment = "Unassigned".into();
    assert!(validate(&c).is_err());
}

#[test]
fn too_many_travel_slots_rejected() {
    let mut c = base();
    c.resource_policy.max_travel_servers = 1;
    assert!(validate(&c).is_err());
}

#[test]
fn unsafe_path_rejected() {
    let mut c = base();
    c.backup_policy.directory = "/srv/../etc".into();
    assert!(validate(&c).is_err());
}

#[test]
fn empty_token_rejected() {
    let mut c = base();
    c.server.api_token = "".into();
    assert!(validate(&c).is_err());
}

#[test]
fn private_bind_detection() {
    let mut c = base();
    assert!(c.bind_is_private(ip(&c.server.bind_address)));
    c.server.bind_address = "100.84.1.2".into();
    assert!(c.bind_is_private(ip(&c.server.bind_address)));
    c.server.bind_address = "8.8.8.8".into();
    assert!(!c.bind_is_private(ip(&c.server.bind_address)));
}

#[test]
fn empty_token_message_names_the_env_override() {
    let mut c = base();
    c.server.api_token = "  ".into();
    assert_eq!(
        validate(&c).unwrap_err(),
        "config validation failed: api_token is empty; set it in [server] or via ARK_MANAGER_API_TOKEN"
    );
}

#[test]
fn non_ip_bind_address_rejected() {
    let mut c = base();
    c.server.bind_address = "localhost".into();
    assert!(validate(&c).is_err());
}

#[test]
fn player_connect_host_falls_back_to_bind_address() {
    let mut c = base();
    assert_eq!(c.player_connect_host(), "127.0.0.1");
    c.server.player_connect_host = "100.68.7.42".into();
    assert_eq!(c.player_connect_host(), "100.68.7.42");
}

#[test]
fn map_estimates_prefer_configured_values() {
    let mut g = ResourceGuardConfig::default();
    assert_eq!(g.map_estimate_mb("Genesis"), 11000);
    assert_eq!(g.map_estimate_mb("Ragnarok"), 9000);
    assert_eq!(g.map_estimate_mb("SomeNewMap"), 11000);
    g.map_memory_mb.push(("Ragnarok".into(), 10000));
    assert_eq!(g.map_estimate_mb("Ragnarok"), 10000);
}

#[test]
fn slot_iteration_lists_home_first() {
    let c = base();
    let slots = c.slots.as_ref().unwrap().iter();
    let keys: Vec<&str> = slots.iter().map(|(_, k, _)| *k).collect();
    assert_eq!(keys, vec!["home", "travel_a", "travel_b"]);
    assert!(slots[0].2);
    assert!(!slots[1].2);
}

#[test]
fn slot_paths_prefer_nested_paths() {
    let mut c = base();
    let home = &mut c.slots.as_mut().unwrap().home;
    assert_eq!(home.save_dir(), Some("/srv/ark/home/Saved"));
    home.paths.save_dir = Some("/srv/ark/nested".into());
    assert_eq!(home.save_dir(), Some("/srv/ark/nested"));
}

// ---------------------------------------------------------------------------
// Guarded operations
// ---------------------------------------------------------------------------

use ark_cluster::operations::{
    guard_backup, guard_systemd_action, travel_resource_guard_status, ActionRequest, GuardError, ResourceFacts,
    ServerAction, SystemdGuardInput,
};

fn cfg() -> Config {
    let mut c = base();
    c.operations.systemd_control_enabled = true;
    c
}

/// The readings of the fallback sample used when the host cannot be read.
fn fallback_facts() -> ResourceFacts {
    ResourceFacts {
        source: "fallback".into(),
        ram_total_positive: true,
        available_ram_mb: 9216,
        ram_used_percent: 44,
        swap_used_percent: 0,
        free_swap_mb: 4096,
        disk_free_mb: 102400,
        disk_free_text: "100.0".into(),
    }
}

/// A healthy host: 5 of 16 GB RAM used, 9 GB available, 0.2 of 4 GB swap
/// used, 100 GB disk free.
fn safe_facts() -> ResourceFacts {
    ResourceFacts {
        source: "host".into(),
        ram_total_positive: true,
        available_ram_mb: 9216,
        ram_used_percent: 31,
        swap_used_percent: 5,
        free_swap_mb: 3891,
        disk_free_mb: 102400,
        disk_free_text: "100.0".into(),
    }
}

fn request(confirm: bool, strong: bool, admin: bool, reason: &str) -> ActionRequest {
    ActionRequest { confirm, strong_confirm: strong, admin_override: admin, reason: reason.into() }
}

#[test]
fn home_stop_blocked_by_default() {
    let mut c = cfg();
    c.operations.allow_home_manual_stop = false;
    let slot = &c.slots.as_ref().unwrap().home;
    let req = request(true, true, true, "manual_admin_override");
    assert_eq!(
        guard_systemd_action(SystemdGuardInput {
            config: &c,
            slot_key: "home",
            slot,
            action: ServerAction::Stop,
            req: &req,
            facts: &fallback_facts(),
            active_travel_slots: 0,
            player_count: 0,
            map_ark_name: None,
        }),
        Err(GuardError::HomeProtected)
    );
}

#[test]
fn missing_confirmation_rejected() {
    let c = cfg();
    let slot = c.slots.as_ref().unwrap().travel_a.as_ref().unwrap();
    let req = request(false, false, false, "manual");
    assert_eq!(
        guard_systemd_action(SystemdGuardInput {
            config: &c,
            slot_key: "travel_a",
            slot,
            action: ServerAction::Restart,
            req: &req,
            facts: &fallback_facts(),
            active_travel_slots: 0,
            player_count: 0,
            map_ark_name: None,
        }),
        Err(GuardError::InvalidConfirmation)
    );
}

#[test]
fn travel_start_resource_blocked() {
    let c = cfg();
    let slot = c.slots.as_ref().unwrap().travel_a.as_ref().unwrap();
    let mut facts = fallback_facts();
    facts.available_ram_mb = 512;
    let req = request(false, false, false, "manual");
    assert!(matches!(
        guard_systemd_action(SystemdGuardInput {
            config: &c,
            slot_key: "travel_a",
            slot,
            action: ServerAction::Start,
            req: &req,
            facts: &facts,
            active_travel_slots: 0,
            player_count: 0,
            map_ark_name: None,
        }),
        Err(GuardError::ResourcePolicyBlocked(_))
    ));
}

#[test]
fn players_online_block_travel_stop() {
    let c = cfg();
    let slot = c.slots.as_ref().unwrap().travel_a.as_ref().unwrap();
    let req = request(true, false, false, "manual");
    let res = guard_systemd_action(SystemdGuardInput {
        config: &c,
        slot_key: "travel_a",
        slot,
        action: ServerAction::Stop,
        req: &req,
        facts: &safe_facts(),
        active_travel_slots: 1,
        player_count: 3,
        map_ark_name: None,
    });
    assert_eq!(res, Err(GuardError::PlayersOnline));
    assert_eq!(res.unwrap_err().code(), "PLAYERS_ONLINE");
}

#[test]
fn control_disabled_refuses_everything() {
    let c = base();
    let slot = c.slots.as_ref().unwrap().travel_a.as_ref().unwrap();
    let req = request(true, true, true, "manual_admin_override");
    let err = guard_systemd_action(SystemdGuardInput {
        config: &c,
        slot_key: "travel_a",
        slot,
        action: ServerAction::Start,
        req: &req,
        facts: &safe_facts(),
        active_travel_slots: 0,
        player_count: 0,
        map_ark_name: None,
    })
    .unwrap_err();
    assert_eq!(err, GuardError::ControlDisabled);
    assert_eq!(err.code(), "CONTROL_DISABLED");
}

#[test]
fn home_stop_allowed_with_override_and_reason() {
    let mut c = cfg();
    c.operations.allow_home_manual_stop = true;
    let slot = &c.slots.as_ref().unwrap().home;
    let ok = request(true, true, false, "resource_standby_preparation");
    let bad_reason = request(true, true, false, "because");
    let facts = fallback_facts();
    let input = |req| SystemdGuardInput {
        config: &c,
        slot_key: "home",
        slot,
        action: ServerAction::Stop,
        req,
        facts: &facts,
        active_travel_slots: 0,
        player_count: 0,
        map_ark_name: None,
    };
    assert_eq!(guard_systemd_action(input(&ok)), Ok(()));
    assert_eq!(guard_systemd_action(input(&bad_reason)), Err(GuardError::HomeProtected));
}

#[test]
fn backup_guard_follows_flags() {
    let mut c = base();
    assert_eq!(guard_backup(&c, &request(false, false, false, "manual")), Err(GuardError::InvalidConfirmation));
    assert_eq!(guard_backup(&c, &request(true, false, false, "manual")), Ok(()));
    c.operations.backup_enabled = false;
    let err = guard_backup(&c, &request(true, false, false, "manual")).unwrap_err();
    assert_eq!(err.code(), "BACKUP_DISABLED");
}

#[test]
fn travel_resource_guard_allows_first_travel_when_safe() {
    let c = cfg();
    let status = travel_resource_guard_status(&c, &safe_facts(), 0, None);
    assert!(status.allowed);
    assert_eq!(status.reason, "Resource guard passed.");
    assert_eq!(status.min_available_ram_mb, 6144);
}

#[test]
fn travel_resource_guard_rejects_unknown_resource_sample() {
    let c = cfg();
    let status = travel_resource_guard_status(&c, &fallback_facts(), 0, None);
    assert!(!status.allowed);
    assert!(status.reason.contains("resource sample unavailable"));
}

#[test]
fn travel_resource_guard_can_skip_unknown_resource_sample_by_config() {
    let mut c = cfg();
    c.resource_guard.block_on_unknown_resources = false;
    let status = travel_resource_guard_status(&c, &fallback_facts(), 0, None);
    assert!(status.allowed);
    assert!(status.reason.contains("skipped by config"));
}

#[test]
fn travel_resource_guard_rejects_low_available_ram_for_first_slot() {
    let c = cfg();
    let mut facts = safe_facts();
    facts.available_ram_mb = 5120;
    let status = travel_resource_guard_status(&c, &facts, 0, None);
    assert!(!status.allowed);
    assert!(status.reason.contains("not enough available RAM"));
    assert_eq!(status.reason, "Travel rejected: not enough available RAM (5120 MB available, need 6144 MB).");
}

#[test]
fn travel_resource_guard_rejects_second_slot_with_stricter_ram_floor() {
    let c = cfg();
    let facts = safe_facts();
    assert!(travel_resource_guard_status(&c, &facts, 0, None).allowed);
    let status = travel_resource_guard_status(&c, &facts, 1, None);
    assert!(!status.allowed);
    assert_eq!(status.min_available_ram_mb, 10240);
    assert!(status.reason.contains("not enough available RAM"));
}

#[test]
fn travel_resource_guard_rejects_high_ram_used_percent() {
    let c = cfg();
    let mut facts = safe_facts();
    facts.ram_used_percent = 81;
    facts.available_ram_mb = 10240;
    let status = travel_resource_guard_status(&c, &facts, 0, None);
    assert!(!status.allowed);
    assert!(status.reason.contains("RAM usage is too high"));
}

#[test]
fn travel_resource_guard_rejects_high_swap_used_percent() {
    let c = cfg();
    let mut facts = safe_facts();
    facts.swap_used_percent = 50;
    facts.free_swap_mb = 2048;
    let status = travel_resource_guard_status(&c, &facts, 0, None);
    assert!(!status.allowed);
    assert!(status.reason.contains("swap usage is too high"));
}

#[test]
fn travel_resource_guard_rejects_low_free_swap() {
    let mut c = cfg();
    c.resource_guard.max_swap_used_percent = 90;
    let mut facts = safe_facts();
    facts.swap_used_percent = 55;
    facts.free_swap_mb = 1843;
    let status = travel_resource_guard_status(&c, &facts, 0, None);
    assert!(!status.allowed);
    assert!(status.reason.contains("free swap is too low"));
}

#[test]
fn travel_resource_guard_rejects_low_disk_free_space() {
    let c = cfg();
    let mut facts = safe_facts();
    facts.disk_free_mb = 9216;
    facts.disk_free_text = "9.0".into();
    let status = travel_resource_guard_status(&c, &facts, 0, None);
    assert!(!status.allowed);
    assert!(status.reason.contains("disk free space is too low"));
    assert_eq!(status.reason, "Travel rejected: disk free space is too low (9.0 GB free, need 20 GB).");
}

#[test]
fn travel_resource_guard_rejects_max_active_travel_slots() {
    let c = cfg();
    let status = travel_resource_guard_status(&c, &safe_facts(), 2, None);
    assert!(!status.allowed);
    assert!(status.reason.contains("already at max"));
}

#[test]
fn map_aware_guard_rejects_genesis_with_10gb_available() {
    let c = cfg();
    let mut facts = safe_facts();
    facts.available_ram_mb = 10240;
    let status = travel_resource_guard_status(&c, &facts, 0, Some("Genesis"));
    assert!(!status.allowed, "Genesis must be rejected when only 10 GB free");
    assert!(status.reason.contains("not enough available RAM"));
    assert_eq!(status.map_memory_estimate_mb, 11_000);
    assert_eq!(status.min_available_ram_mb, 11_000 + 1_500);
}

#[test]
fn map_aware_guard_allows_genesis_with_13gb_available() {
    let c = cfg();
    let mut facts = safe_facts();
    facts.available_ram_mb = 13312;
    let status = travel_resource_guard_status(&c, &facts, 0, Some("Genesis"));
    assert!(status.allowed, "Genesis must pass with 13 GB free");
    assert_eq!(status.map_memory_estimate_mb, 11_000);
}

#[test]
fn map_aware_guard_uses_config_override_over_builtin() {
    let mut c = cfg();
    c.resource_guard.map_memory_mb.push(("Ragnarok".into(), 10_000));
    let mut facts = safe_facts();
    facts.available_ram_mb = 12288;
    let status = travel_resource_guard_status(&c, &facts, 0, Some("Ragnarok"));
    assert!(status.allowed);
    assert_eq!(status.map_memory_estimate_mb, 10_000);
}

#[test]
fn map_aware_guard_uses_unknown_map_memory_for_unrecognized_map() {
    let c = cfg();
    let mut facts = safe_facts();
    facts.available_ram_mb = 10240;
    let status = travel_resource_guard_status(&c, &facts, 0, Some("SomeNewMap"));
    assert!(!status.allowed);
    assert_eq!(status.map_memory_estimate_mb, 11_000);
}

#[test]
fn second_slot_adds_extra_to_map_floor() {
    let c = cfg();
    let mut facts = safe_facts();
    facts.available_ram_mb = 20000;
    let status = travel_resource_guard_status(&c, &facts, 1, Some("Genesis"));
    assert_eq!(status.min_available_ram_mb, 11_000 + 1_500 + 2_048);
    assert!(status.allowed);
}

// ---------------------------------------------------------------------------
// Travel decisions and the map list
// ---------------------------------------------------------------------------

use ark_cluster::maps::{map_from_official, map_sources, MapSource};
use ark_cluster::systemd::UnitStatus;
use ark_cluster::travel::{
    decide, known_official_map, official_maps, resolve_map, SlotStatusSnapshot, TravelRequestBody,
};

fn unit(active: bool) -> UnitStatus {
    let mut st = UnitStatus::unavailable("u.service", "systemd", "n/a");
    st.active = active;
    st.active_state = if active { "active".into() } else { "inactive".into() };
    st
}

fn snapshots(c: &Config, a_active: bool, a_players: Option<u32>, b_active: bool, b_players: Option<u32>) -> Vec<SlotStatusSnapshot> {
    let s = c.slots.as_ref().unwrap();
    vec![
        SlotStatusSnapshot { slot: s.home.clone(), key: "home", status: unit(true), player_count: Some(2) },
        SlotStatusSnapshot {
            slot: s.travel_a.clone().unwrap(),
            key: "travel_a",
            status: unit(a_active),
            player_count: a_players,
        },
        SlotStatusSnapshot {
            slot: s.travel_b.clone().unwrap(),
            key: "travel_b",
            status: unit(b_active),
            player_count: b_players,
        },
    ]
}

fn travel_req(map: &str) -> TravelRequestBody {
    TravelRequestBody { map: map.into(), source: "api".into(), actor: "tester".into(), actor_discord_id: None }
}

#[test]
fn resolves_alias() {
    let cfg = base();
    assert_eq!(resolve_map(&cfg, "rag").unwrap().id, "rag");
}

#[test]
fn resolves_by_letters_and_digits_ignoring_case() {
    let cfg = base();
    assert_eq!(resolve_map(&cfg, "RAGNAROK").unwrap().id, "rag");
    assert_eq!(resolve_map(&cfg, "the island").unwrap().id, "home");
    assert!(resolve_map(&cfg, "valguero").is_none());
}

#[test]
fn recognizes_unconfigured_official_alias() {
    assert!(known_official_map("crystal"));
    assert!(known_official_map("Genesis Part 2"));
    assert!(!known_official_map("not-a-map"));
}

#[test]
fn travel_blocked_while_scheduler_disabled() {
    let c = base();
    let (d, key) = decide(&c, &travel_req("rag"), &snapshots(&c, false, Some(0), false, Some(0)), "t-1".into());
    assert!(!d.accepted);
    assert_eq!(d.status, "blocked");
    assert_eq!(d.reason, "travel scheduler disabled in manager config");
    assert_eq!(key, "");
    assert_eq!(d.resolved_map.as_deref(), Some("rag"));
}

#[test]
fn travel_rejects_unknown_and_unconfigured_maps() {
    let mut c = base();
    c.operations.travel_scheduler_enabled = true;
    let st = snapshots(&c, false, Some(0), false, Some(0));
    let (d, _) = decide(&c, &travel_req("atlantis"), &st, "t-2".into());
    assert_eq!(d.status, "rejected");
    assert_eq!(d.reason, "unknown map");
    let (d, _) = decide(&c, &travel_req("crystal"), &st, "t-3".into());
    assert_eq!(d.status, "rejected");
    assert_eq!(d.reason, "official map is not configured in this cluster");
}

#[test]
fn travel_picks_free_slot_then_empty_slot_then_queues() {
    let mut c = base();
    c.operations.travel_scheduler_enabled = true;
    let (d, key) = decide(&c, &travel_req("rag"), &snapshots(&c, true, Some(3), false, None), "t-4".into());
    assert_eq!(d.status, "already_online");
    assert_eq!(key, "travel_a");
    let mut c2 = c.clone();
    c2.slots.as_mut().unwrap().travel_a.as_mut().unwrap().map_key = "ab".into();
    c2.slots.as_mut().unwrap().travel_b.as_mut().unwrap().map_key = "other".into();
    let (d, key) = decide(&c2, &travel_req("rag"), &snapshots(&c2, true, Some(1), false, None), "t-5".into());
    assert!(d.accepted);
    assert_eq!(d.status, "accepted");
    assert_eq!(d.chosen_slot.as_deref(), Some("travel-b"));
    assert_eq!(key, "travel_b");
    let (d, key) = decide(&c2, &travel_req("rag"), &snapshots(&c2, true, Some(1), true, Some(0)), "t-6".into());
    assert_eq!(d.status, "accepted_reuse_empty_slot");
    assert_eq!(key, "travel_b");
    let (d, key) = decide(&c2, &travel_req("rag"), &snapshots(&c2, true, Some(1), true, None), "t-7".into());
    assert!(!d.accepted);
    assert_eq!(d.status, "queued");
    assert_eq!(key, "");
}

#[test]
fn official_destination_is_launch_ready_not_unavailable() {
    let profile = official_maps().into_iter().find(|map| map.id == "scorched-earth").unwrap();
    let map = map_from_official(&profile, 70, "GameUserSettings.ini: MaxPlayers");
    assert_eq!(map.assignment, "Available destination");
    assert_eq!(map.state, "Not running");
    assert_eq!(map.player_count_source, "not_running");
    assert_eq!(map.max_players, 70);
    assert!(map.launch_ready);
    assert!(!map.configured);
    assert_ne!(map.assignment, "Unassigned");
    assert_ne!(map.state, "Unavailable");
}

#[test]
fn map_list_merges_configured_and_official_maps() {
    let c = base();
    let sources = map_sources(&c);
    assert_eq!(sources.len(), 12);
    assert_eq!(sources[0], MapSource::Configured(0));
    assert_eq!(sources[1], MapSource::Official(1));
    assert_eq!(sources[7], MapSource::Configured(1));
    let mut c2 = base();
    c2.maps[1].id = "custom".into();
    c2.maps[1].name = "Custom".into();
    c2.maps[1].alias = "cst".into();
    c2.maps[1].ark_map_name = "CustomMap".into();
    let sources = map_sources(&c2);
    assert_eq!(sources.len(), 13);
    assert_eq!(sources[7], MapSource::Official(7));
    assert_eq!(sources[12], MapSource::Configured(1));
}

// ---------------------------------------------------------------------------
// Administrative changes
// ---------------------------------------------------------------------------

use ark_cluster::admin::{
    ark_update_plan, home_set_map_plan, mod_mutation_plan, workshop_lookup, MaintenanceError, MaintenanceRequest,
    ModError, ModMutation, SetMapBody,
};
use ark_cluster::config_edit::{config_target, shared_config_dir, ConfigEditError, ConfigSetRequest};

#[test]
fn home_map_override_rules() {
    let mut c = base();
    let body = |id: &str, confirm: bool| SetMapBody { map_id: id.into(), confirm, reason: " ".into() };
    let r = home_set_map_plan(&c, &body("home", true)).unwrap_err();
    assert_eq!((r.status, r.code.as_str()), (403, "CONTROL_DISABLED"));
    c.operations.systemd_control_enabled = true;
    let r = home_set_map_plan(&c, &body("home", false)).unwrap_err();
    assert_eq!(r.code, "INVALID_CONFIRMATION");
    let r = home_set_map_plan(&c, &body("nowhere", true)).unwrap_err();
    assert_eq!((r.status, r.message.as_str()), (404, "map 'nowhere' not found"));
    let r = home_set_map_plan(&c, &body("rag", true)).unwrap_err();
    assert_eq!(r.message, "map 'rag' has can_be_home = false");
    let o = home_set_map_plan(&c, &body("theisland", true)).unwrap();
    assert_eq!(o.map_id, "home");
    assert_eq!(o.content, "ARK_MAP=TheIsland\n");
    assert_eq!(o.reason, "discord_home_set_map");
    assert_eq!(o.message, "Home map override set to TheIsland. Restart the Home server for the change to take effect.");
}

#[test]
fn mod_changes_need_flag_confirmation_and_digits() {
    let mut c = base();
    let m = |id: &str, confirm: bool| ModMutation { workshop_id: id.into(), confirm };
    assert!(matches!(mod_mutation_plan(&c, &m("123", true), "add"), Err(ModError::Disabled)));
    c.operations.mod_management_enabled = true;
    assert!(matches!(mod_mutation_plan(&c, &m("123", false), "add"), Err(ModError::InvalidConfirmation)));
    let e = mod_mutation_plan(&c, &m("12a", true), "add").unwrap_err();
    assert_eq!(e.code(), "INVALID_WORKSHOP_ID");
    let w = mod_mutation_plan(&c, &m("1428596566", true), "add").unwrap();
    assert_eq!((w.enabled, w.installed), (1, 1));
    assert_eq!(w.name, "Workshop 1428596566");
    assert_eq!(w.status, "add_recorded");
    let w = mod_mutation_plan(&c, &m("1428596566", true), "remove").unwrap();
    assert_eq!((w.enabled, w.installed), (0, 0));
}

#[test]
fn ark_update_dry_run_needs_no_confirmation() {
    let mut c = base();
    let req = |dry: bool, confirm: bool| MaintenanceRequest { dry_run: dry, confirm, reason: "manual_maintenance".into() };
    assert!(matches!(ark_update_plan(&c, &req(true, false), 5), Err(MaintenanceError::Disabled)));
    c.operations.maintenance_enabled = true;
    let j = ark_update_plan(&c, &req(true, false), 1700000000).unwrap();
    assert_eq!(j.id, "maint-1700000000");
    assert_eq!(j.status, "dry_run_ready");
    let e = ark_update_plan(&c, &req(false, false), 5).unwrap_err();
    assert_eq!(e.code(), "INVALID_CONFIRMATION");
    assert_eq!(ark_update_plan(&c, &req(false, true), 5).unwrap().status, "queued");
}

#[test]
fn workshop_ids_are_read_from_urls() {
    let (id, page) =
        workshop_lookup(&None, &Some("https://steamcommunity.com/sharedfiles/filedetails/?id=1428596566&x=1".into()))
            .unwrap();
    assert_eq!(id, "1428596566");
    assert_eq!(page, "https://steamcommunity.com/sharedfiles/filedetails/?id=1428596566");
    assert_eq!(workshop_lookup(&Some("731604991".into()), &None).unwrap().0, "731604991");
    let r = workshop_lookup(&Some("abc".into()), &None).unwrap_err();
    assert_eq!(r.code, "INVALID_WORKSHOP_ID");
}

#[test]
fn config_writes_follow_flags_and_files() {
    let mut c = base();
    let req = |file: &str, confirm: bool| ConfigSetRequest {
        file: file.into(),
        key: "MaxPlayers".into(),
        value: "20".into(),
        confirm,
        reason: "manual_config_change".into(),
    };
    assert!(matches!(config_target(&c, &req("Game.ini", true)), Err(ConfigEditError::Disabled)));
    c.operations.config_writes_enabled = true;
    assert!(matches!(config_target(&c, &req("Game.ini", false)), Err(ConfigEditError::InvalidConfirmation)));
    assert!(matches!(config_target(&c, &req("Other.ini", true)), Err(ConfigEditError::InvalidFile)));
    assert_eq!(
        config_target(&c, &req("GameUserSettings.ini", true)).unwrap(),
        "/srv/ark/server/ShooterGame/Saved/Config/LinuxServer/GameUserSettings.ini"
    );
    c.paths.ark_root = "  ".into();
    assert_eq!(shared_config_dir(&c), "/srv/ark/server/ShooterGame/Saved/Config/LinuxServer");
}

// ---------------------------------------------------------------------------
// The RCON runtime and the automatic policies
// ---------------------------------------------------------------------------

use ark_cluster::rcon::{
    chat_feedback_command, log_candidates, received_feedback, PollResult, RconEndpoint, RconRuntimeState,
};

fn polled(runtime: &mut RconRuntimeState, c: &Config, key: &str, active: bool, players: Option<usize>, now: u64) {
    let s = c.slots.as_ref().unwrap();
    let slot = match key {
        "home" => s.home.clone(),
        "travel_a" => s.travel_a.clone().unwrap(),
        _ => s.travel_b.clone().unwrap(),
    };
    let result = match players {
        Some(n) => PollResult::Players { players: (0..n).map(|i| format!("p{i}")).collect(), chat_source: "rcon".into() },
        None if !active => PollResult::Stopped,
        None => PollResult::Unavailable("missing password env X".into()),
    };
    runtime.update_slot(&slot, key, slot.map_key.clone(), active, None, result, now);
}

#[test]
fn player_counts_only_from_player_polls() {
    let c = base();
    let mut rt = RconRuntimeState::new();
    polled(&mut rt, &c, "home", true, Some(2), 10);
    polled(&mut rt, &c, "travel_a", true, None, 10);
    polled(&mut rt, &c, "travel_b", false, None, 10);
    assert_eq!(rt.player_count("home"), Some(2));
    assert_eq!(rt.player_count("travel-a"), None);
    assert_eq!(rt.player_count("travel-b"), None);
    assert_eq!(rt.slots[0].last_player_poll.as_deref(), Some("10"));
    assert_eq!(rt.slots.len(), 3);
    polled(&mut rt, &c, "home", true, Some(0), 11);
    assert_eq!(rt.slots.len(), 3);
    assert_eq!(rt.player_count("home"), Some(0));
}

#[test]
fn idle_travel_slot_is_stopped_after_threshold() {
    let c = base();
    let mut rt = RconRuntimeState::new();
    polled(&mut rt, &c, "travel_a", true, Some(0), 100);
    assert!(!rt.apply_idle_policy("travel-a", false, 100, 60));
    assert_eq!(rt.slots[0].idle_zero_since, Some(100));
    assert!(!rt.apply_idle_policy("travel-a", false, 130, 60));
    assert!(rt.apply_idle_policy("travel-a", false, 160, 60));
    polled(&mut rt, &c, "travel_a", true, Some(1), 170);
    assert!(!rt.apply_idle_policy("travel-a", false, 400, 60));
    assert_eq!(rt.slots[0].idle_zero_since, None);
    assert!(!rt.apply_idle_policy("nowhere", false, 400, 60));
}

#[test]
fn home_idle_timer_needs_confirmed_empty_home() {
    let c = base();
    let mut rt = RconRuntimeState::new();
    polled(&mut rt, &c, "home", true, None, 1);
    assert!(!rt.home_idle_step("home", 10, 5));
    assert_eq!(rt.home_idle_since, None);
    polled(&mut rt, &c, "home", true, Some(0), 10);
    assert!(!rt.home_idle_step("home", 10, 5));
    assert_eq!(rt.home_idle_since, Some(10));
    assert!(rt.home_idle_step("home", 15, 5));
    assert_eq!(rt.home_idle_since, None);
}

#[test]
fn home_standby_needs_travel_players_and_pressure() {
    let c = base();
    let mut rt = RconRuntimeState::new();
    polled(&mut rt, &c, "home", true, Some(0), 1);
    polled(&mut rt, &c, "travel_a", true, Some(3), 1);
    assert!(rt.home_standby_due(&c, 82));
    assert!(!rt.home_standby_due(&c, 81));
    polled(&mut rt, &c, "home", true, Some(1), 2);
    assert!(!rt.home_standby_due(&c, 95));
    let mut off = base();
    off.resource_policy.home_standby_enabled = false;
    polled(&mut rt, &c, "home", true, Some(0), 3);
    assert!(!rt.home_standby_due(&off, 95));
}

#[test]
fn chat_feedback_goes_to_the_source_slot() {
    let c = base();
    let (host, port, cmd) = chat_feedback_command(&c, "home", "pw", "[ARK Cluster] Travel\nrequest received").unwrap();
    assert_eq!((host.as_str(), port), ("127.0.0.1", 27020));
    assert_eq!(cmd, "ServerChat [ARK Cluster] Travel request received");
    assert_eq!(chat_feedback_command(&c, "home", " ", "x").unwrap_err(), "missing password env ARK_HOME_RCON_PASSWORD");
    assert_eq!(chat_feedback_command(&c, "travel-a", "pw", "x").unwrap_err(), "source slot travel-a has no RCON endpoint");
    assert_eq!(chat_feedback_command(&c, "ghost", "pw", "x").unwrap_err(), "source slot ghost is not configured");
    assert_eq!(received_feedback(&c, "rag"), "[ARK Cluster] Travel request received: Ragnarok.");
    assert_eq!(received_feedback(&c, "xyz"), "[ARK Cluster] Travel request received: xyz.");
}

#[test]
fn log_files_to_tail() {
    let c = base();
    let names = vec!["ShooterGame.log".to_string(), "ShooterGame_2.log".into(), "other.txt".into()];
    assert_eq!(
        log_candidates(&c, &names),
        vec![
            "/srv/ark/server/ShooterGame/Saved/Logs/ShooterGame.log".to_string(),
            "/srv/ark/server/ShooterGame/Saved/Logs/ShooterGame_2.log".to_string(),
        ]
    );
}

#[test]
fn log_offsets_start_at_end_and_follow_rotation() {
    let mut rt = RconRuntimeState::new();
    assert_eq!(rt.advance_log_offset("/l", 100), None);
    assert_eq!(rt.advance_log_offset("/l", 150), Some(100));
    assert_eq!(rt.advance_log_offset("/l", 150), None);
    assert_eq!(rt.advance_log_offset("/l", 20), Some(0));
}

#[test]
fn test_endpoints_describe_fixture_state() {
    let e = RconEndpoint::test_endpoint("rag", "127.0.0.1", 27022, true, 3, 50);
    assert_eq!(e.state, "Connected");
    assert_eq!(e.last_player_poll.as_deref(), Some("50"));
    assert_eq!(e.chat_source, "rcon_gamelog");
    let d = RconEndpoint::test_endpoint("rag", "127.0.0.1", 27022, false, 0, 50);
    assert_eq!(d.player_count_source, "rcon_unavailable");
    assert!(d.last_chat_poll.is_none());
}

// ---------------------------------------------------------------------------
// Dashboard summaries
// ---------------------------------------------------------------------------

use ark_cluster::dashboard::{
    apply_rcon_runtime, apply_unit_status, assigned_elsewhere, player_counts_available, running_map_count,
    slot_player_count, systemd_action_id, systemd_action_severity, total_players,
};
use ark_cluster::governor::evaluate;
use ark_cluster::maps::map_from_config;
use ark_cluster::runtime::{path_check, runtime_layout};

#[test]
fn dashboard_counts_players_and_running_maps() {
    let c = base();
    let mut home = map_from_config(&c.maps[0], 70, "GameUserSettings.ini: MaxPlayers");
    let mut rag = map_from_config(&c.maps[1], 70, "GameUserSettings.ini: MaxPlayers");
    home.state = "Online".into();
    rag.state = "Offline".into();
    let maps = vec![home.clone(), rag.clone()];
    assert_eq!(running_map_count(&maps), 1);
    assert_eq!(total_players(&maps), None);
    assert!(!player_counts_available(&maps));
    home.player_count_source = "rcon".into();
    home.players = 4;
    let maps = vec![home, rag];
    assert_eq!(total_players(&maps), Some(4));
    assert!(player_counts_available(&maps));
    let slot = c.slots.as_ref().unwrap().home.clone();
    assert_eq!(slot_player_count(&maps, &slot), 4);
    let a = c.slots.as_ref().unwrap().travel_a.clone().unwrap();
    assert_eq!(slot_player_count(&maps, &a), 0);
}

#[test]
fn unit_status_and_rcon_fold_into_map() {
    let c = base();
    let mut m = map_from_config(&c.maps[1], 0, "unknown");
    let mut st = UnitStatus::unavailable("ark@a.service", "systemd", "x");
    st.active_state = "active".into();
    st.state = "active (running)".into();
    st.memory_current_bytes = Some(3 * 1024 * 1024 + 5);
    apply_unit_status(&mut m, st);
    assert_eq!(m.state, "Online");
    assert_eq!(m.systemd, "active (running)");
    assert_eq!(m.ram_mb, 3);
    apply_rcon_runtime(&mut m, None, false);
    assert_eq!(m.rcon, "Disabled");
    let mut rt = RconRuntimeState::new();
    polled(&mut rt, &c, "travel_a", true, Some(2), 5);
    apply_rcon_runtime(&mut m, rt.endpoint_for("travel-a"), true);
    assert_eq!((m.players, m.player_count_source.as_str(), m.rcon.as_str()), (2, "rcon", "Connected"));
    assert_eq!(m.next_action, "RCON player polling live");
}

#[test]
fn slot_running_another_map_is_detected() {
    let c = base();
    let mut m = map_from_config(&c.maps[1], 0, "unknown");
    m.id = "valguero".into();
    m.config.systemd_unit = "ark-server@travel-a.service".into();
    assert_eq!(assigned_elsewhere(&c, &m).as_deref(), Some("rag"));
    m.id = "rag".into();
    assert_eq!(assigned_elsewhere(&c, &m), None);
}

#[test]
fn systemd_action_ids_and_severity() {
    assert_eq!(systemd_action_id("home", ServerAction::Stop, 1700), "op-home-stop-1700");
    assert!(matches!(systemd_action_severity("home", ServerAction::Stop), ark_cluster::audit::Severity::Warn));
    assert!(matches!(systemd_action_severity("travel_a", ServerAction::Stop), ark_cluster::audit::Severity::Info));
}

#[test]
fn governor_preview_verdicts() {
    let p = base().resource_policy;
    let d = evaluate(&p, 90, 0, 3);
    assert_eq!(d.decision, "Home eligible for Resource Standby");
    assert!(d.why.starts_with("Home has 0 players and RAM pressure is high (90% >= 82%)."));
    assert_eq!(evaluate(&p, 50, 1, 2).decision, "No action needed");
    assert_eq!(evaluate(&p, 50, 1, 0).why, "RAM at 50%. No standby/shutdown conditions met. (Preview only.)");
    assert_eq!(d.examples[2], "A travel map empty for 10 minutes is eligible for save, backup, and shutdown.");
    assert_eq!(d.policy.max_travel_servers, 2);
}

#[test]
fn runtime_layout_under_ark_root() {
    let mut c = base();
    c.paths.cluster_dir = " ".into();
    let l = runtime_layout(&c);
    assert_eq!(l.executable, "/srv/ark/server/ShooterGame/Binaries/Linux/ShooterGameServer");
    assert_eq!(l.game_ini, "/srv/ark/server/ShooterGame/Saved/Config/LinuxServer/Game.ini");
    assert_eq!(l.cluster_dir, "/srv/ark");
    assert_eq!(path_check("/x", "backup root", false).message, "backup root missing");
}
