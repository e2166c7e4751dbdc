use ark_cluster::agent::{
    active_servers, agent_packet_size_ok, build_payload, decode_agent_packet, extract_cluster_id_from_share,
    launch_args, manager_address, manager_endpoint, map_arg, mod_list, node_checks, plan_task, start_preflight,
    start_refusal, status_refresh_outcome, unknown_task_outcome, AgentTask, NodeConfig, ServerState, TaskPayload,
};
use ark_cluster::audit::{AuditEvent, Severity};
use ark_cluster::backup::{
    check_resolved_source, finished_backup, join_path, validate_clean_abs, validate_under_root, BackupError,
    BackupRecord, BackupRow,
};
use ark_cluster::config_edit::{mask, parse_config_fields, replace_ini_key, ConfigEditError};
use ark_cluster::nodes::{
    build_not_ready_reason, check_node_ready, check_pairing, compute_status, config_version_hash,
    external_travel_reply, gen_id, generate_pairing_code, generate_token, hash_token, heartbeat_promotes,
    node_ports_for, pairing_ttl, quoted_id_list, session_status_after_task, Node, NodeHeartbeat, NodeTask,
    PairingInvite, TaskType,
};

#[test]
fn rejects_traversal() {
    assert!(validate_clean_abs("bad", "/srv/ark/../etc").is_err());
}

#[test]
fn rejects_outside_root() {
    assert!(validate_under_root("src", "/etc/ark", "/srv/ark").is_err());
}

#[test]
fn accepts_paths_under_root_by_component() {
    assert!(validate_under_root("src", "/srv/ark/home//Saved/.", "/srv/ark").is_ok());
    assert!(validate_under_root("src", "/srv/arkive", "/srv/ark").is_err());
    match validate_clean_abs("backup root", "relative/path") {
        Err(BackupError::PathNotAllowed(m)) => assert_eq!(m, "backup root must be an absolute path"),
        _ => panic!("expected refusal"),
    }
    assert_eq!(
        check_resolved_source("/srv/ark/link", "/etc/shadow", "/srv/ark").unwrap_err().message(),
        "path is not allowed: /srv/ark/link escapes allowed root"
    );
}

#[test]
fn joins_paths_like_pathbuf() {
    assert_eq!(join_path("/srv/ark", "home"), "/srv/ark/home");
    assert_eq!(join_path("/srv/ark/", "home"), "/srv/ark/home");
    assert_eq!(join_path("/srv/ark", "/abs"), "/abs");
    assert_eq!(join_path("", "rel"), "rel");
}

#[test]
fn missing_sources_record_a_failed_backup() {
    let row = BackupRow {
        id: "bk-1".into(),
        slot_id: "home".into(),
        server_id: "home".into(),
        map_key: "home".into(),
        kind: "combined".into(),
        reason: "manual".into(),
        status: "success".into(),
        created_at: "1".into(),
        completed_at: None,
        size_bytes: -5,
        path: "/srv/ark/backups/home/bk-1".into(),
        error: None,
    };
    let record = BackupRecord::from(row);
    assert_eq!(record.size_bytes, 0);
    let slot = ark_cluster::config::ServerSlot {
        id: "travel-a".into(),
        label: "A".into(),
        map_key: "rag".into(),
        systemd_unit: "ark@a.service".into(),
        game_port: 1,
        query_port: 2,
        rcon_port: 3,
        save_path: None,
        config_path: None,
        paths: ark_cluster::config::SlotPaths { save_dir: None, config_dir: None },
        rcon: None,
        enabled: true,
        protected: false,
        home_resource_standby_enabled: false,
    };
    let (r, res) = finished_backup("bk-2", "travel_a", &slot, "manual", "10", "/b/travel-a/bk-2", false, 0, "11");
    assert_eq!(r.status, "failed");
    assert_eq!(r.server_id, "travel-a");
    assert_eq!(r.error.as_deref(), Some("configured backup source paths do not exist"));
    assert_eq!(res.unwrap_err().code(), "BACKUP_PATH_MISSING");
    let (r, res) = finished_backup("bk-3", "home", &slot, "manual", "10", "/b", true, 42, "12");
    assert!(res.is_ok());
    assert_eq!((r.status.as_str(), r.size_bytes, r.completed_at.as_deref()), ("success", 42, Some("12")));
}

#[test]
fn setting_an_ini_key_replaces_or_appends() {
    let mut raw = String::from("[ServerSettings]\nMaxPlayers=10\nFoo = 1");
    replace_ini_key(&mut raw, "MaxPlayers", "20").unwrap();
    assert_eq!(raw, "[ServerSettings]\nMaxPlayers=20\nFoo = 1\n");
    replace_ini_key(&mut raw, "Foo", "2").unwrap();
    assert_eq!(raw, "[ServerSettings]\nMaxPlayers=20\nFoo=2\n");
    replace_ini_key(&mut raw, "NewKey", "x").unwrap();
    assert_eq!(raw, "[ServerSettings]\nMaxPlayers=20\nFoo=2\nNewKey=x\n");
    assert!(matches!(replace_ini_key(&mut raw, "ServerPassword", "x"), Err(ConfigEditError::InvalidKey)));
    assert!(matches!(replace_ini_key(&mut raw, "bad key", "x"), Err(ConfigEditError::InvalidKey)));
    assert!(matches!(replace_ini_key(&mut raw, "", "x"), Err(ConfigEditError::InvalidKey)));
    assert_eq!(raw, "[ServerSettings]\nMaxPlayers=20\nFoo=2\nNewKey=x\n");
}

#[test]
fn masks_password_values() {
    assert_eq!(
        mask("ServerPassword=abc\nMaxPlayers=10\nAdminPASSWORD = s3cret"),
        "ServerPassword=********\nMaxPlayers=10\nAdminPASSWORD =********"
    );
}

#[test]
fn reads_fields_by_section() {
    let fields = parse_config_fields("Game.ini", "; comment\nTopLevel=1\n[/Script/ShooterGame]\n MaxPlayers = 70 \nServerPassword=x\n=7\n");
    assert_eq!(fields.len(), 2);
    assert_eq!((fields[0].key.as_str(), fields[0].value.as_str()), ("TopLevel", "1"));
    assert_eq!(fields[0].group, "Game.ini / General");
    assert_eq!(fields[1].key, "MaxPlayers");
    assert_eq!(fields[1].value, "70");
    assert_eq!(fields[1].group, "Game.ini / /Script/ShooterGame");
    assert_eq!(fields[1].hint, "Read from Game.ini; restart may be required after changes.");
}

#[test]
fn audit_events_carry_defaults() {
    let e = AuditEvent::new(Severity::Warn, "Systemd", "blocked").target("rag").detail("slot=a");
    assert_eq!(e.actor, "rust-manager");
    assert_eq!(e.target_map, "rag");
    assert_eq!(e.detail, "slot=a");
    assert_eq!(e.severity.as_str(), "warn");
}

fn node(status: &str) -> Node {
    Node {
        id: "node-1".into(),
        display_name: "Desk PC".into(),
        owner_discord_id: String::new(),
        node_type: "external-windows".into(),
        status: status.into(),
        max_travel_servers: 1,
        tailscale_ip: "100.1.2.3".into(),
        version: "0.1".into(),
        active_travel_servers: 0,
        current_map: None,
        available_ram_mb: None,
        total_ram_mb: None,
        cluster_share_mounted: 1,
        ark_server_installed: 0,
        mods_valid: 1,
        config_valid: 1,
        ports_free: 0,
        rcon_ready: 0,
        last_heartbeat: None,
        last_error: None,
        created_at: String::new(),
        updated_at: String::new(),
    }
}

fn heartbeat() -> NodeHeartbeat {
    NodeHeartbeat {
        node_id: "node-1".into(),
        node_name: None,
        owner_discord_user_id: None,
        version: None,
        tailscale_online: Some(true),
        tailscale_ip: None,
        active_travel_servers: Some(0),
        current_map: None,
        available_ram_mb: None,
        total_ram_mb: None,
        cluster_share_mounted: Some(true),
        ark_server_installed: Some(true),
        mods_valid: Some(true),
        config_valid: Some(true),
        ports_free: Some(true),
        rcon_ready: None,
        last_error: None,
    }
}

#[test]
fn node_status_from_heartbeat() {
    let mut hb = heartbeat();
    assert_eq!(compute_status(&hb), "online");
    hb.ports_free = None;
    assert_eq!(compute_status(&hb), "not_ready");
    hb.active_travel_servers = Some(1);
    assert_eq!(compute_status(&hb), "busy");
}

#[test]
fn node_refusals_explain_why() {
    let n = node("not_ready");
    assert_eq!(
        build_not_ready_reason(&n),
        "Node 'Desk PC' is not ready: ARK dedicated server not installed, ports not free"
    );
    let r = check_node_ready(&n).unwrap();
    assert_eq!((r.status, r.code.as_str()), (503, "NODE_NOT_READY"));
    let mut busy = node("busy");
    busy.current_map = Some("Ragnarok".into());
    assert_eq!(
        check_node_ready(&busy).unwrap().message,
        "Blocked: Desk PC is already hosting Ragnarok. Return to Home and close it before starting another map on this PC."
    );
    assert_eq!(check_node_ready(&node("offline")).unwrap().message, "Node 'Desk PC' is offline.");
    assert!(check_node_ready(&node("online")).is_none());
}

#[test]
fn node_ports_and_reply() {
    let mut n = node("online");
    n.id = "node-2".into();
    assert_eq!(node_ports_for(&n), (7793, 7794, 27019, 27024));
    let mut other = node("online");
    other.id = "desk".into();
    assert_eq!(node_ports_for(&other), (7789, 7790, 27018, 27023));
    let r = external_travel_reply(&other, "", "Ragnarok");
    assert_eq!(r.connection_address, "100.1.2.3:7789");
    assert_eq!(r.public_query_address, "100.1.2.3:27018");
    assert!(r.connection_available);
    assert_eq!(
        r.user_message,
        "Ragnarok is starting on Desk PC. Use terminal 'Join Another Server' once it's ready. Connect: 100.1.2.3:7789"
    );
    other.tailscale_ip = String::new();
    let r = external_travel_reply(&other, "203.0.113.5", "Ragnarok");
    assert_eq!(r.connection_address, "pending:7789");
    assert_eq!(r.public_connection_address, "203.0.113.5:7789");
    assert!(!r.connection_available);
}

#[test]
fn tokens_codes_and_hashes() {
    let t = generate_token();
    assert_eq!(t.len(), 64);
    assert!(t.chars().all(|c| c.is_ascii_hexdigit() && !c.is_ascii_uppercase()));
    assert_eq!(gen_id().len(), 16);
    let code = generate_pairing_code();
    assert_eq!(code.len(), 9);
    assert_eq!(&code[4..5], "-");
    assert!(code.chars().filter(|c| *c != '-').all(|c| c.is_ascii_uppercase() || c.is_ascii_digit()));
    assert_eq!(hash_token("abc"), "ba7816bf8f01cfea414140de5dae2223b00361a396177a9cb410ff61f20015ad");
    assert_eq!(config_version_hash("a", "bc"), hash_token("a:bc"));
}

#[test]
fn pairing_and_session_rules() {
    assert_eq!(pairing_ttl(None), 15);
    assert_eq!(pairing_ttl(Some(1)), 5);
    assert_eq!(pairing_ttl(Some(600)), 60);
    assert_eq!(check_pairing(&None, true), Some(("INVALID_CODE", "pairing code not found")));
    let invite = PairingInvite {
        code: "ABCD-1234".into(),
        suggested_name: "pc".into(),
        created_by: "admin".into(),
        expires_at: String::new(),
        used: 0,
        node_id: String::new(),
        created_at: String::new(),
    };
    assert_eq!(check_pairing(&Some(invite.clone()), false), Some(("CODE_EXPIRED", "pairing code has expired")));
    assert_eq!(check_pairing(&Some(invite.clone()), true), None);
    let mut used = invite;
    used.used = 1;
    assert_eq!(check_pairing(&Some(used), true).unwrap().0, "CODE_USED");
    assert!(heartbeat_promotes(Some(true), "starting"));
    assert!(!heartbeat_promotes(Some(true), "ready"));
    assert_eq!(session_status_after_task(true, "stop_travel"), Some("closed"));
    assert_eq!(session_status_after_task(true, "start_travel"), Some("ready"));
    assert_eq!(session_status_after_task(false, "start_travel"), None);
    assert_eq!(TaskType::UpdateArkServer.as_str(), "update_ark_server");
    let task = |id: &str| NodeTask {
        id: id.into(),
        node_id: "n".into(),
        session_id: None,
        task_type: "ping".into(),
        payload: "{}".into(),
        status: "pending".into(),
        created_at: String::new(),
        sent_at: None,
        completed_at: None,
        result: None,
        error: None,
    };
    assert_eq!(quoted_id_list(&vec![task("a1"), task("b2")]), "'a1','b2'");
}

fn agent_config() -> NodeConfig {
    NodeConfig {
        node_id: "node-1".into(),
        node_name: "Desk".into(),
        owner_discord_user_id: "42".into(),
        manager_url: "http://100.68.7.42:8788/".into(),
        node_token: "tok".into(),
        cluster_share_path: "/mnt/cluster".into(),
        smb_unc_path: String::new(),
        smb_user: String::new(),
        smb_password: String::new(),
        ark_dedicated_dir: "/games/ark".into(),
        mod_ids: vec![731604991, 1428596566],
        game_port: 7777,
        raw_port: 7778,
        query_port: 27015,
        rcon_port: 27020,
        server_admin_password: "pw".into(),
        log_dir: String::new(),
        backup_dir: String::new(),
        heartbeat_interval_secs: 30,
        task_poll_interval_secs: 5,
        max_ram_mb_before_block: 3072,
    }
}

#[test]
fn agent_paths_and_config_checks() {
    let mut cfg = agent_config();
    assert_eq!(cfg.ark_server_exe(), "/games/ark/ShooterGame/Binaries/Win64/ShooterGameServer.exe");
    assert_eq!(cfg.mods_dir(), "/games/ark/ShooterGame/Content/Mods");
    assert!(cfg.validate_minimal().is_ok());
    cfg.node_token = String::new();
    assert_eq!(cfg.validate_minimal().unwrap_err(), "nodeToken is required \u{2014} run setup.ps1 first");
    assert_eq!(manager_address("http://100.68.7.42:8788/"), ("100.68.7.42".to_string(), 8788));
    assert_eq!(manager_address("https://manager.local"), ("manager.local".to_string(), 80));
    assert_eq!(manager_address("host:notaport"), ("host".to_string(), 80));
    assert_eq!(manager_endpoint("http://m:1//", "/api/nodes/heartbeat"), "http://m:1/api/nodes/heartbeat");
}

#[test]
fn agent_launch_arguments() {
    let cfg = agent_config();
    assert_eq!(mod_list(&cfg.mod_ids), "731604991,1428596566");
    assert_eq!(
        map_arg(&cfg, "Ragnarok", "ARK Travel - Ragnarok"),
        "Ragnarok?SessionName=ARK Travel - Ragnarok?Port=7777?QueryPort=27015?RCONEnabled=True?RCONPort=27020?ServerAdminPassword=pw?AltSaveDirectoryName=external-node-1?listen?GameModIds=731604991,1428596566"
    );
    let id = extract_cluster_id_from_share("/mnt/cluster");
    assert_eq!(id.len(), 12);
    assert!(id.starts_with("ark-"));
    assert_eq!(&id[4..], &hash_token("/mnt/cluster")[..8]);
    let args = launch_args(&cfg, "Ragnarok", "S", "/mnt/cluster");
    assert_eq!(args.len(), 7);
    assert_eq!(args[1], format!("-clusterid={}", id));
    assert_eq!(args[2], "-ClusterDirOverride=/mnt/cluster");
    assert_eq!(args[6], "-servergamelog");
}

#[test]
fn agent_tasks_and_checks() {
    let cfg = agent_config();
    let payload = TaskPayload {
        map_id: Some("ragnarok".into()),
        ark_map_name: None,
        session_name: None,
        session_id: Some("s1".into()),
        cluster_share_path: Some(String::new()),
        save_first: None,
        force: Some(true),
    };
    match plan_task("start_travel", &payload) {
        AgentTask::StartTravel { map_id, ark_map_name, session_name, cluster_share, .. } => {
            assert_eq!(map_id, "ragnarok");
            assert_eq!(ark_map_name, "ragnarok");
            assert_eq!(session_name, "ARK Travel");
            assert!(cluster_share.is_none());
        }
        _ => panic!("expected a start"),
    }
    assert!(matches!(plan_task("stop_travel", &payload), AgentTask::StopTravel { save_first: false }));
    assert!(matches!(plan_task("reboot", &payload), AgentTask::Unknown(_)));
    let checks = node_checks(&cfg, true, false, true, true, false, 2048, 16384);
    assert_eq!(
        checks.last_error.as_deref(),
        Some("Cluster share not mounted: /mnt/cluster; Ports in use: 7777/7778/27015/27020")
    );
    assert_eq!(
        start_preflight(&cfg, &checks).as_deref(),
        Some("Not enough RAM (2048 MB available, need 3072 MB)")
    );
    let ok = node_checks(&cfg, true, true, true, true, true, 8192, 16384);
    assert!(ok.last_error.is_none());
    assert!(start_preflight(&cfg, &ok).is_none());
    let hb = build_payload(&cfg, &checks, active_servers(false, true), None, false, "0.1.0");
    assert!(hb.ports_free);
    assert!(hb.config_valid);
    assert_eq!(hb.active_travel_servers, 1);
    assert_eq!(status_refresh_outcome(true).result.as_deref(), Some("running=true"));
    assert_eq!(unknown_task_outcome("x").error.as_deref(), Some("unknown task type: x"));
}

#[test]
fn agent_server_state_and_packets() {
    let mut st = ServerState::new();
    assert!(start_refusal(&st, "/x.exe", false, "/c", true).unwrap().starts_with("ARK server exe not found"));
    st.mark_started("rag", "s1", Some(7));
    assert_eq!(start_refusal(&st, "/x.exe", true, "/c", true).as_deref(), Some("travel server already running (map=rag)"));
    st.mark_stopped();
    assert!(!st.running && st.map_id.is_empty());
    assert!(agent_packet_size_ok(10) && agent_packet_size_ok(4096));
    assert!(!agent_packet_size_ok(9) && !agent_packet_size_ok(4097));
    let p = decode_agent_packet(&[2, 0, 0, 0, 0, 0, 0, 0, b'o', b'k', 0, 0]);
    assert_eq!((p.id, p.packet_type, p.body.as_str()), (2, 0, "ok"));
}
