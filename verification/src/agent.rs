//! The travel node agent's decisions: its configuration, the checks it
//! reports, how it launches and stops the ARK server, the tasks it runs and
//! the heartbeat it sends.
use vstd::prelude::*;
use crate::backup::{path_join, join_path};
use crate::rcon::{lossy_text, le32_at, RconPacket};
use crate::text::{
    append, cat2, cat3, decimal, join, owned, str_eq, trim, u64_to_string, is_blank,
};

verus! {

// ---------------------------------------------------------------------------
// Configuration
// ---------------------------------------------------------------------------

/// The node agent's configuration.
#[derive(Clone, Debug)]
pub struct NodeConfig {
    pub node_id: String,
    pub node_name: String,
    pub owner_discord_user_id: String,
    pub manager_url: String,
    pub node_token: String,
    pub cluster_share_path: String,
    pub smb_unc_path: String,
    pub smb_user: String,
    pub smb_password: String,
    pub ark_dedicated_dir: String,
    pub mod_ids: Vec<u64>,
    pub game_port: u16,
    pub raw_port: u16,
    pub query_port: u16,
    pub rcon_port: u16,
    pub server_admin_password: String,
    pub log_dir: String,
    pub backup_dir: String,
    pub heartbeat_interval_secs: u64,
    pub task_poll_interval_secs: u64,
    pub max_ram_mb_before_block: u64,
}

/// Heartbeat interval when the configuration names none, in seconds.
pub const DEFAULT_HEARTBEAT_SECS: u64 = 30;
/// Task poll interval when the configuration names none, in seconds.
pub const DEFAULT_TASK_POLL_SECS: u64 = 5;
/// Free RAM a travel start needs when the configuration names none, in MB.
pub const DEFAULT_MAX_RAM_MB: u64 = 3072;

/// `dir` joined with each part in turn.
pub open spec fn join_all(dir: Seq<char>, parts: Seq<Seq<char>>) -> Seq<char>
    decreases parts.len(),
{
    if parts.len() == 0 {
        dir
    } else {
        path_join(join_all(dir, parts.drop_last()), parts.last())
    }
}

pub open spec fn exe_parts() -> Seq<Seq<char>> {
    seq!["ShooterGame"@, "Binaries"@, "Win64"@, "ShooterGameServer.exe"@]
}

pub open spec fn mods_parts() -> Seq<Seq<char>> {
    seq!["ShooterGame"@, "Content"@, "Mods"@]
}

/// The configured node has no blank required field: a node id, a token
/// and the manager URL.
pub open spec fn minimal_problem(c: NodeConfig) -> Option<Seq<char>> {
    if c.node_id@.len() == 0 {
        Some("nodeId is required"@)
    } else if c.node_token@.len() == 0 {
        Some("nodeToken is required \u{2014} run setup.ps1 first"@)
    } else if c.manager_url@.len() == 0 {
        Some("managerUrl is required"@)
    } else {
        None
    }
}

impl NodeConfig {
    /// The ARK dedicated server executable.
    pub fn ark_server_exe(&self) -> (res: String)
        ensures
            res@ == join_all(self.ark_dedicated_dir@, exe_parts()),
    {
        let a = join_path(self.ark_dedicated_dir.as_str(), "ShooterGame");
        let b = join_path(a.as_str(), "Binaries");
        let c = join_path(b.as_str(), "Win64");
        let d = join_path(c.as_str(), "ShooterGameServer.exe");
        proof {
            reveal_with_fuel(join_all, 5);
            let ps = exe_parts();
            assert(ps.drop_last().drop_last().drop_last().drop_last() =~= Seq::<Seq<char>>::empty());
            assert(ps.drop_last().drop_last().drop_last().last() == "ShooterGame"@);
            assert(ps.drop_last().drop_last().last() == "Binaries"@);
            assert(ps.drop_last().last() == "Win64"@);
            assert(ps.last() == "ShooterGameServer.exe"@);
        }
        d
    }

    /// The directory the server's mods live in.
    pub fn mods_dir(&self) -> (res: String)
        ensures
            res@ == join_all(self.ark_dedicated_dir@, mods_parts()),
    {
        let a = join_path(self.ark_dedicated_dir.as_str(), "ShooterGame");
        let b = join_path(a.as_str(), "Content");
        let c = join_path(b.as_str(), "Mods");
        proof {
            reveal_with_fuel(join_all, 4);
            let ps = mods_parts();
            assert(ps.drop_last().drop_last().drop_last() =~= Seq::<Seq<char>>::empty());
            assert(ps.drop_last().drop_last().last() == "ShooterGame"@);
            assert(ps.drop_last().last() == "Content"@);
            assert(ps.last() == "Mods"@);
        }
        c
    }

    /// Checks the fields the agent cannot run without.
    pub fn validate_minimal(&self) -> (res: Result<(), String>)
        ensures
            match minimal_problem(*self) {
                Some(m) => res matches Err(e) && e@ == m,
                None => res is Ok,
            },
    {
        if self.node_id.unicode_len() == 0 {
            return Err(owned("nodeId is required"));
        }
        if self.node_token.unicode_len() == 0 {
            return Err(owned("nodeToken is required \u{2014} run setup.ps1 first"));
        }
        if self.manager_url.unicode_len() == 0 {
            return Err(owned("managerUrl is required"));
        }
        Ok(())
    }
}

/// Where the agent's configuration lives by default.
pub fn default_config_path() -> (res: String)
    ensures
        res@ == "C:\\ProgramData\\ArkClusterNode\\config.json"@,
{
    owned("C:\\ProgramData\\ArkClusterNode\\config.json")
}

// ---------------------------------------------------------------------------
// Checks
// ---------------------------------------------------------------------------

/// What the agent found on the node.
#[derive(Clone, Debug)]
pub struct NodeChecks {
    pub tailscale_online: bool,
    pub cluster_share_mounted: bool,
    pub ark_server_installed: bool,
    pub mods_valid: bool,
    pub ports_free: bool,
    pub available_ram_mb: u64,
    pub total_ram_mb: u64,
    pub last_error: Option<String>,
}

/// The problems a set of check results shows, in order.
pub open spec fn check_problems(
    c: NodeConfig,
    tailscale_online: bool,
    cluster_share_mounted: bool,
    ark_server_installed: bool,
    mods_valid: bool,
    ports_free: bool,
) -> Seq<Seq<char>> {
    let a = if !tailscale_online { seq!["Tailscale or manager unreachable"@] } else { Seq::empty() };
    let b = if !cluster_share_mounted { a.push("Cluster share not mounted: "@ + c.cluster_share_path@) } else { a };
    let d = if !ark_server_installed { b.push("ARK server exe not found: "@ + join_all(c.ark_dedicated_dir@, exe_parts())) } else { b };
    let e = if !mods_valid { d.push("One or more required mods missing"@) } else { d };
    if !ports_free {
        e.push("Ports in use: "@ + decimal(c.game_port as nat) + "/"@ + decimal(c.raw_port as nat) + "/"@
            + decimal(c.query_port as nat) + "/"@ + decimal(c.rcon_port as nat))
    } else {
        e
    }
}

/// The check report from what was found: every failed check is named in
/// the error, joined with `; `; no error when all passed.
pub fn node_checks(
    cfg: &NodeConfig,
    tailscale_online: bool,
    cluster_share_mounted: bool,
    ark_server_installed: bool,
    mods_valid: bool,
    ports_free: bool,
    available_ram_mb: u64,
    total_ram_mb: u64,
) -> (res: NodeChecks)
    ensures
        res.tailscale_online == tailscale_online,
        res.cluster_share_mounted == cluster_share_mounted,
        res.ark_server_installed == ark_server_installed,
        res.mods_valid == mods_valid,
        res.ports_free == ports_free,
        res.available_ram_mb == available_ram_mb,
        res.total_ram_mb == total_ram_mb,
        ({
            let ps = check_problems(*cfg, tailscale_online, cluster_share_mounted, ark_server_installed, mods_valid, ports_free);
            if ps.len() == 0 {
                res.last_error is None
            } else {
                res.last_error matches Some(e) && e@ == join(ps, "; "@)
            }
        }),
{
    let ghost c = *cfg;
    let mut errors: Vec<Vec<char>> = Vec::new();
    if !tailscale_online {
        errors.push(crate::text::chars_of("Tailscale or manager unreachable"));
    }
    let ghost a = if !tailscale_online { seq!["Tailscale or manager unreachable"@] } else { Seq::<Seq<char>>::empty() };
    assert(crate::text::views(errors@) =~= a);
    if !cluster_share_mounted {
        let m = cat2("Cluster share not mounted: ", cfg.cluster_share_path.as_str());
        errors.push(crate::text::chars_of(m.as_str()));
    }
    let ghost b = if !cluster_share_mounted { a.push("Cluster share not mounted: "@ + c.cluster_share_path@) } else { a };
    assert(crate::text::views(errors@) =~= b);
    if !ark_server_installed {
        let exe = cfg.ark_server_exe();
        let m = cat2("ARK server exe not found: ", exe.as_str());
        errors.push(crate::text::chars_of(m.as_str()));
    }
    let ghost d = if !ark_server_installed { b.push("ARK server exe not found: "@ + join_all(c.ark_dedicated_dir@, exe_parts())) } else { b };
    assert(crate::text::views(errors@) =~= d);
    if !mods_valid {
        errors.push(crate::text::chars_of("One or more required mods missing"));
    }
    let ghost e = if !mods_valid { d.push("One or more required mods missing"@) } else { d };
    assert(crate::text::views(errors@) =~= e);
    if !ports_free {
        let m = ports_in_use(cfg);
        errors.push(crate::text::chars_of(m.as_str()));
    }
    assert(crate::text::views(errors@) =~= check_problems(c, tailscale_online, cluster_share_mounted, ark_server_installed, mods_valid, ports_free));
    let last_error = if errors.len() == 0 {
        None
    } else {
        let j = crate::text::join_vecs(&errors, "; ");
        Some(crate::text::string_from(&j))
    };
    NodeChecks {
        tailscale_online,
        cluster_share_mounted,
        ark_server_installed,
        mods_valid,
        ports_free,
        available_ram_mb,
        total_ram_mb,
        last_error,
    }
}

fn ports_in_use(cfg: &NodeConfig) -> (res: String)
    ensures
        res@ == "Ports in use: "@ + decimal(cfg.game_port as nat) + "/"@ + decimal(cfg.raw_port as nat) + "/"@
            + decimal(cfg.query_port as nat) + "/"@ + decimal(cfg.rcon_port as nat),
{
    let g = u64_to_string(cfg.game_port as u64);
    let r = u64_to_string(cfg.raw_port as u64);
    let q = u64_to_string(cfg.query_port as u64);
    let c = u64_to_string(cfg.rcon_port as u64);
    let mut s = cat2("Ports in use: ", g.as_str());
    append(&mut s, "/");
    append(&mut s, r.as_str());
    append(&mut s, "/");
    append(&mut s, q.as_str());
    append(&mut s, "/");
    append(&mut s, c.as_str());
    s
}

/// Whether the node has at least `min_mb` of RAM available.
pub fn check_enough_ram(checks: &NodeChecks, min_mb: u64) -> (res: bool)
    ensures
        res == (checks.available_ram_mb >= min_mb),
{
    checks.available_ram_mb >= min_mb
}

/// The folder and `.mod` file each required mod must have.
pub fn mod_paths(cfg: &NodeConfig) -> (res: Vec<(String, String)>)
    ensures
        res@.len() == cfg.mod_ids@.len(),
        forall|i: int| 0 <= i < res@.len() ==> {
            let dir = join_all(cfg.ark_dedicated_dir@, mods_parts());
            let id = decimal(cfg.mod_ids@[i] as nat);
            &&& (#[trigger] res@[i]).0@ == path_join(dir, id)
            &&& res@[i].1@ == path_join(dir, id + ".mod"@)
        },
{
    let dir = cfg.mods_dir();
    let mut out: Vec<(String, String)> = Vec::new();
    let mut i: usize = 0;
    while i < cfg.mod_ids.len()
        invariant
            0 <= i <= cfg.mod_ids@.len(),
            dir@ == join_all(cfg.ark_dedicated_dir@, mods_parts()),
            out@.len() == i,
            forall|k: int| 0 <= k < i ==> {
                let id = decimal(cfg.mod_ids@[k] as nat);
                &&& (#[trigger] out@[k]).0@ == path_join(dir@, id)
                &&& out@[k].1@ == path_join(dir@, id + ".mod"@)
            },
        decreases cfg.mod_ids@.len() - i,
    {
        let id = u64_to_string(cfg.mod_ids[i]);
        let file = cat2(id.as_str(), ".mod");
        let folder = join_path(dir.as_str(), id.as_str());
        let f = join_path(dir.as_str(), file.as_str());
        out.push((folder, f));
        i = i + 1;
    }
    out
}

/// The manager's `host:port` from its URL: without trailing `/` and the
/// `http://` or `https://` scheme; the port after the last `:` (80 when it
/// does not parse), or 80 without one.
pub open spec fn manager_address_of(url: Seq<char>) -> (Seq<char>, u16) {
    let u = trim_end_slashes(url);
    let h = if crate::text::starts_with(u, "http://"@) {
        u.skip(7)
    } else if crate::text::starts_with(u, "https://"@) {
        u.skip(8)
    } else {
        u
    };
    match crate::text::last_index_of(h, ':') {
        Some(i) => (h.take(i), match crate::text::parse_u64_spec(h.skip(i + 1)) {
            Some(p) => if p <= 65535 { p as u16 } else { 80 },
            None => 80,
        }),
        None => (h, 80),
    }
}

pub open spec fn trim_end_slashes(s: Seq<char>) -> Seq<char>
    decreases s.len(),
{
    if s.len() > 0 && s.last() == '/' {
        trim_end_slashes(s.drop_last())
    } else {
        s
    }
}

/// The manager's host and port, as the reachability probe dials them.
pub fn manager_address(url: &str) -> (res: (String, u16))
    ensures
        (res.0@, res.1) == manager_address_of(url@),
{
    let v = crate::text::chars_of(url);
    let mut b = v.len();
    assert(v@.take(b as int) =~= v@);
    while b > 0 && v[b - 1] == '/'
        invariant
            0 <= b <= v@.len(),
            v@ == url@,
            trim_end_slashes(url@) == trim_end_slashes(v@.take(b as int)),
        decreases b,
    {
        assert(v@.take(b as int).drop_last() =~= v@.take(b - 1));
        b = b - 1;
    }
    let u = crate::text::sub_vec(&v, 0, b);
    assert(u@ =~= v@.take(b as int));
    let h = if crate::text::vec_starts_with(&u, "http://") {
        proof {
            reveal_strlit("http://");
        }
        let r = crate::text::sub_vec(&u, 7, u.len());
        assert(r@ =~= u@.skip(7));
        r
    } else if crate::text::vec_starts_with(&u, "https://") {
        proof {
            reveal_strlit("https://");
        }
        let r = crate::text::sub_vec(&u, 8, u.len());
        assert(r@ =~= u@.skip(8));
        r
    } else {
        u
    };
    match crate::text::last_index_of_char(&h, ':') {
        Some(i) => {
            let host = crate::text::sub_vec(&h, 0, i);
            assert(host@ =~= h@.take(i as int));
            let port = match crate::text::parse_u64(&h, i + 1, h.len()) {
                Some(p) => if p <= 65535 { p as u16 } else { 80 },
                None => 80,
            };
            assert(h@.subrange(i + 1, h@.len() as int) =~= h@.skip(i + 1));
            (crate::text::string_from(&host), port)
        },
        None => (crate::text::string_from(&h), 80),
    }
}

// ---------------------------------------------------------------------------
// The ARK server process
// ---------------------------------------------------------------------------

/// What the agent knows of the server it launched.
#[derive(Clone, Debug)]
pub struct ServerState {
    pub running: bool,
    pub map_id: String,
    pub session_id: String,
    pub pid: Option<u32>,
}

impl ServerState {
    /// No server running.
    pub fn new() -> (res: Self)
        ensures
            !res.running && res.map_id@.len() == 0 && res.session_id@.len() == 0 && res.pid is None,
    {
        ServerState { running: false, map_id: String::new(), session_id: String::new(), pid: None }
    }

    /// Records a launched server.
    pub fn mark_started(&mut self, map_id: &str, session_id: &str, pid: Option<u32>)
        ensures
            final(self).running && final(self).map_id@ == map_id@ && final(self).session_id@ == session_id@
                && final(self).pid == pid,
    {
        self.running = true;
        self.map_id = owned(map_id);
        self.session_id = owned(session_id);
        self.pid = pid;
    }

    /// Records that the server process exited on its own: the map and
    /// session stay recorded.
    pub fn mark_exited(&mut self)
        ensures
            !final(self).running && final(self).pid is None && final(self).map_id == old(self).map_id
                && final(self).session_id == old(self).session_id,
    {
        self.running = false;
        self.pid = None;
    }

    /// Records a stopped server: nothing runs and nothing is recorded.
    pub fn mark_stopped(&mut self)
        ensures
            !final(self).running && final(self).pid is None && final(self).map_id@.len() == 0
                && final(self).session_id@.len() == 0,
    {
        self.running = false;
        self.pid = None;
        self.map_id = String::new();
        self.session_id = String::new();
    }
}

/// Why a travel server cannot be launched now, checked in order: one is
/// already running, the executable is missing, the cluster share is
/// missing.
pub fn start_refusal(
    state: &ServerState,
    exe: &str,
    exe_exists: bool,
    cluster_dir: &str,
    cluster_dir_exists: bool,
) -> (res: Option<String>)
    ensures
        state.running ==> (res matches Some(m) && m@ == "travel server already running (map="@ + state.map_id@ + ")"@),
        !state.running && !exe_exists ==> (res matches Some(m) && m@ == "ARK server exe not found: "@ + exe@),
        !state.running && exe_exists && !cluster_dir_exists ==> (res matches Some(m) && m@
            == "cluster share not mounted: "@ + cluster_dir@),
        !state.running && exe_exists && cluster_dir_exists ==> res is None,
{
    if state.running {
        return Some(cat3("travel server already running (map=", state.map_id.as_str(), ")"));
    }
    if !exe_exists {
        return Some(cat2("ARK server exe not found: ", exe));
    }
    if !cluster_dir_exists {
        return Some(cat2("cluster share not mounted: ", cluster_dir));
    }
    None
}

/// The cluster directory a launch uses: the task's override when given,
/// else the configured share.
pub fn cluster_dir_for<'a>(cfg: &'a NodeConfig, cluster_share_override: Option<&'a str>) -> (res: &'a str)
    ensures
        res@ == (match cluster_share_override { Some(o) => o@, None => cfg.cluster_share_path@ }),
{
    match cluster_share_override {
        Some(o) => o,
        None => cfg.cluster_share_path.as_str(),
    }
}

/// The mod ids in decimal, comma-separated.
pub open spec fn mod_list_of(ids: Seq<u64>) -> Seq<char> {
    join(Seq::new(ids.len(), |i: int| decimal(ids[i] as nat)), ","@)
}

/// The mod ids joined with commas.
pub fn mod_list(ids: &Vec<u64>) -> (res: String)
    ensures
        res@ == mod_list_of(ids@),
{
    let mut parts: Vec<Vec<char>> = Vec::new();
    let mut i: usize = 0;
    while i < ids.len()
        invariant
            0 <= i <= ids@.len(),
            crate::text::views(parts@) == Seq::new(i as nat, |k: int| decimal(ids@[k] as nat)),
        decreases ids@.len() - i,
    {
        let d = u64_to_string(ids[i]);
        let ghost before = parts@;
        parts.push(crate::text::chars_of(d.as_str()));
        assert(crate::text::views(parts@) =~= crate::text::views(before).push(decimal(ids@[i as int] as nat)));
        assert(crate::text::views(parts@) =~= Seq::new((i + 1) as nat, |k: int| decimal(ids@[k] as nat)));
        i = i + 1;
    }
    assert(Seq::new(ids@.len(), |k: int| decimal(ids@[k] as nat)) =~= Seq::new(ids@.len() as nat, |k: int| decimal(ids@[k] as nat)));
    let j = crate::text::join_vecs(&parts, ",");
    crate::text::string_from(&j)
}

/// The map argument the server is launched with.
pub open spec fn map_arg_of(c: NodeConfig, ark_map_name: Seq<char>, session_name: Seq<char>) -> Seq<char> {
    let mods = mod_list_of(c.mod_ids@);
    ark_map_name + "?SessionName="@ + session_name + "?Port="@ + decimal(c.game_port as nat) + "?QueryPort="@
        + decimal(c.query_port as nat) + "?RCONEnabled=True?RCONPort="@ + decimal(c.rcon_port as nat)
        + "?ServerAdminPassword="@ + c.server_admin_password@ + "?AltSaveDirectoryName=external-"@ + c.node_id@
        + "?listen"@ + (if mods.len() == 0 { Seq::empty() } else { "?GameModIds="@ + mods })
}

/// The map argument the server is launched with: map, session, ports, RCON password, save directory and mods.
pub fn map_arg(cfg: &NodeConfig, ark_map_name: &str, session_name: &str) -> (res: String)
    ensures
        res@ == map_arg_of(*cfg, ark_map_name@, session_name@),
{
    let mods = mod_list(&cfg.mod_ids);
    let game = u64_to_string(cfg.game_port as u64);
    let query = u64_to_string(cfg.query_port as u64);
    let rcon = u64_to_string(cfg.rcon_port as u64);
    let mut s = cat3(ark_map_name, "?SessionName=", session_name);
    append(&mut s, "?Port=");
    append(&mut s, game.as_str());
    append(&mut s, "?QueryPort=");
    append(&mut s, query.as_str());
    append(&mut s, "?RCONEnabled=True?RCONPort=");
    append(&mut s, rcon.as_str());
    append(&mut s, "?ServerAdminPassword=");
    append(&mut s, cfg.server_admin_password.as_str());
    append(&mut s, "?AltSaveDirectoryName=external-");
    append(&mut s, cfg.node_id.as_str());
    append(&mut s, "?listen");
    if mods.unicode_len() > 0 {
        append(&mut s, "?GameModIds=");
        append(&mut s, mods.as_str());
    }
    s
}

/// The cluster id derived from the share path: `ark-` and the first eight
/// hex digits of the path's SHA-256.
pub open spec fn cluster_id_of(share_path: Seq<char>) -> Seq<char> {
    "ark-"@ + crate::nodes::token_hash(share_path).take(8)
}

/// The cluster id for a cluster share: `ark-` and the first eight hex digits of the SHA-256 of its path.
pub fn extract_cluster_id_from_share(share_path: &str) -> (res: String)
    ensures
        res@ == cluster_id_of(share_path@),
{
    let h = crate::nodes::hash_token(share_path);
    let hv = crate::text::chars_of(h.as_str());
    let first = crate::text::take_vec(&hv, 8);
    let mut s = owned("ark-");
    crate::text::append_vec(&mut s, &first);
    s
}

/// The command-line arguments the server is launched with.
pub fn launch_args(cfg: &NodeConfig, ark_map_name: &str, session_name: &str, cluster_dir: &str) -> (res: Vec<String>)
    ensures
        crate::text::str_views(res@) == seq![
            map_arg_of(*cfg, ark_map_name@, session_name@),
            "-clusterid="@ + cluster_id_of(cluster_dir@),
            "-ClusterDirOverride="@ + cluster_dir@,
            "-NoBattlEye"@,
            "-server"@,
            "-log"@,
            "-servergamelog"@,
        ],
{
    let mut v: Vec<String> = Vec::new();
    v.push(map_arg(cfg, ark_map_name, session_name));
    let id = extract_cluster_id_from_share(cluster_dir);
    v.push(cat2("-clusterid=", id.as_str()));
    v.push(cat2("-ClusterDirOverride=", cluster_dir));
    v.push(owned("-NoBattlEye"));
    v.push(owned("-server"));
    v.push(owned("-log"));
    v.push(owned("-servergamelog"));
    assert(crate::text::str_views(v@) =~= seq![
        map_arg_of(*cfg, ark_map_name@, session_name@),
        "-clusterid="@ + cluster_id_of(cluster_dir@),
        "-ClusterDirOverride="@ + cluster_dir@,
        "-NoBattlEye"@,
        "-server"@,
        "-log"@,
        "-servergamelog"@,
    ]);
    v
}

// ---------------------------------------------------------------------------
// Tasks
// ---------------------------------------------------------------------------

/// What a task from the manager asks for, with its fields read from the
/// payload.
#[derive(Clone, Debug)]
pub enum AgentTask {
    StartTravel {
        map_id: String,
        ark_map_name: String,
        session_name: String,
        session_id: String,
        cluster_share: Option<String>,
    },
    StopTravel { save_first: bool },
    SaveWorld,
    ValidateMods,
    Ping,
    StatusRefresh,
    Unknown(String),
}

/// The fields of a task payload the agent reads (absent when missing or
/// not of the expected kind).
#[derive(Clone, Debug)]
pub struct TaskPayload {
    pub map_id: Option<String>,
    pub ark_map_name: Option<String>,
    pub session_name: Option<String>,
    pub session_id: Option<String>,
    pub cluster_share_path: Option<String>,
    pub save_first: Option<bool>,
    pub force: Option<bool>,
}

pub open spec fn or_str(o: Option<String>, d: Seq<char>) -> Seq<char> {
    match o {
        Some(s) => s@,
        None => d,
    }
}

fn or_string(o: &Option<String>, d: &str) -> (res: String)
    ensures
        res@ == or_str(*o, d@),
{
    match o {
        Some(s) => s.clone(),
        None => owned(d),
    }
}

/// The task a type and payload make: a travel start falls back to the map
/// id for the ARK map name, to `ARK Travel` for the session name and takes
/// a non-empty share override; a stop saves first unless told not to or
/// forced.
pub fn plan_task(task_type: &str, payload: &TaskPayload) -> (res: AgentTask)
    ensures
        if task_type@ == "start_travel"@ {
            res matches AgentTask::StartTravel { map_id, ark_map_name, session_name, session_id, cluster_share }
            && map_id@ == or_str(payload.map_id, ""@)
            && ark_map_name@ == or_str(payload.ark_map_name, or_str(payload.map_id, ""@))
            && session_name@ == or_str(payload.session_name, "ARK Travel"@)
            && session_id@ == or_str(payload.session_id, ""@)
            && match payload.cluster_share_path {
                Some(p) => if p@.len() > 0 { cluster_share matches Some(c) && c@ == p@ } else { cluster_share is None },
                None => cluster_share is None,
            }
        } else if task_type@ == "stop_travel"@ {
            res matches AgentTask::StopTravel { save_first } && save_first == ((match payload.save_first {
                Some(b) => b,
                None => true,
            }) && !(match payload.force {
                Some(b) => b,
                None => false,
            }))
        } else if task_type@ == "save_world"@ {
            res matches AgentTask::SaveWorld
        } else if task_type@ == "validate_mods"@ {
            res matches AgentTask::ValidateMods
        } else if task_type@ == "ping"@ {
            res matches AgentTask::Ping
        } else if task_type@ == "status_refresh"@ {
            res matches AgentTask::StatusRefresh
        } else {
            res matches AgentTask::Unknown(t) && t@ == task_type@
        },
{
    if str_eq(task_type, "start_travel") {
        let map_id = or_string(&payload.map_id, "");
        let ark = match &payload.ark_map_name {
            Some(a) => a.clone(),
            None => map_id.clone(),
        };
        let share = match &payload.cluster_share_path {
            Some(p) => if p.unicode_len() > 0 { Some(p.clone()) } else { None },
            None => None,
        };
        AgentTask::StartTravel {
            map_id,
            ark_map_name: ark,
            session_name: or_string(&payload.session_name, "ARK Travel"),
            session_id: or_string(&payload.session_id, ""),
            cluster_share: share,
        }
    } else if str_eq(task_type, "stop_travel") {
        let save = match payload.save_first {
            Some(b) => b,
            None => true,
        };
        let force = match payload.force {
            Some(b) => b,
            None => false,
        };
        AgentTask::StopTravel { save_first: save && !force }
    } else if str_eq(task_type, "save_world") {
        AgentTask::SaveWorld
    } else if str_eq(task_type, "validate_mods") {
        AgentTask::ValidateMods
    } else if str_eq(task_type, "ping") {
        AgentTask::Ping
    } else if str_eq(task_type, "status_refresh") {
        AgentTask::StatusRefresh
    } else {
        AgentTask::Unknown(owned(task_type))
    }
}

/// Why a travel start is refused by the node's checks, in order: too
/// little RAM, no cluster share, mods not validated.
pub fn start_preflight(cfg: &NodeConfig, checks: &NodeChecks) -> (res: Option<String>)
    ensures
        checks.available_ram_mb < cfg.max_ram_mb_before_block ==> (res matches Some(m) && m@ == "Not enough RAM ("@
            + decimal(checks.available_ram_mb as nat) + " MB available, need "@ + decimal(cfg.max_ram_mb_before_block as nat)
            + " MB)"@),
        checks.available_ram_mb >= cfg.max_ram_mb_before_block && !checks.cluster_share_mounted ==> (res matches Some(m)
            && m@ == "Cluster share not mounted: "@ + cfg.cluster_share_path@),
        checks.available_ram_mb >= cfg.max_ram_mb_before_block && checks.cluster_share_mounted && !checks.mods_valid
            ==> (res matches Some(m) && m@ == "Mods not validated. Run setup.ps1 to install mods."@),
        checks.available_ram_mb >= cfg.max_ram_mb_before_block && checks.cluster_share_mounted && checks.mods_valid
            ==> res is None,
{
    if !check_enough_ram(checks, cfg.max_ram_mb_before_block) {
        let a = u64_to_string(checks.available_ram_mb);
        let n = u64_to_string(cfg.max_ram_mb_before_block);
        let mut m = cat3("Not enough RAM (", a.as_str(), " MB available, need ");
        append(&mut m, n.as_str());
        append(&mut m, " MB)");
        return Some(m);
    }
    if !checks.cluster_share_mounted {
        return Some(cat2("Cluster share not mounted: ", cfg.cluster_share_path.as_str()));
    }
    if !checks.mods_valid {
        return Some(owned("Mods not validated. Run setup.ps1 to install mods."));
    }
    None
}

/// The outcome a task reports: success, a result or an error.
#[derive(Clone, Debug)]
pub struct TaskOutcome {
    pub success: bool,
    pub result: Option<String>,
    pub error: Option<String>,
}

/// A successful task outcome with its result text.
pub fn task_ok(result: String) -> (res: TaskOutcome)
    ensures
        res.success && res.result == Some(result) && res.error is None,
{
    TaskOutcome { success: true, result: Some(result), error: None }
}

/// A failed task outcome with its error text.
pub fn task_failed(error: String) -> (res: TaskOutcome)
    ensures
        !res.success && res.result is None && res.error == Some(error),
{
    TaskOutcome { success: false, result: None, error: Some(error) }
}

/// The result of a started travel server.
pub fn started_message(session_name: &str, map_id: &str) -> (res: String)
    ensures
        res@ == "Started "@ + session_name@ + " (map="@ + map_id@ + ")"@,
{
    let mut s = cat3("Started ", session_name, " (map=");
    append(&mut s, map_id);
    append(&mut s, ")");
    s
}

/// The outcome of a mod validation task.
pub fn validate_mods_outcome(cfg: &NodeConfig, checks: &NodeChecks) -> (res: TaskOutcome)
    ensures
        checks.mods_valid ==> (res.success && res.error is None && (res.result matches Some(r) && r@
            == decimal(cfg.mod_ids@.len() as nat) + " mods validated."@)),
        !checks.mods_valid ==> (!res.success && res.result is None && (res.error matches Some(e) && e@ == match checks.last_error {
            Some(l) => l@,
            None => "Mods invalid"@,
        })),
{
    if checks.mods_valid {
        let n = u64_to_string(cfg.mod_ids.len() as u64);
        task_ok(cat2(n.as_str(), " mods validated."))
    } else {
        task_failed(match &checks.last_error {
            Some(l) => l.clone(),
            None => owned("Mods invalid"),
        })
    }
}

/// The outcome of a status refresh.
pub fn status_refresh_outcome(running: bool) -> (res: TaskOutcome)
    ensures
        res.success,
        res.error is None,
        res.result matches Some(r) && r@ == "running="@ + (if running {
            "true"@
        } else {
            "false"@
        }),
{
    proof {
        reveal_strlit("running=true");
        reveal_strlit("running=false");
        reveal_strlit("running=");
        reveal_strlit("true");
        reveal_strlit("false");
        assert("running=true"@ =~= "running="@ + "true"@);
        assert("running=false"@ =~= "running="@ + "false"@);
    }
    task_ok(if running { owned("running=true") } else { owned("running=false") })
}

/// The outcome of a task type the agent does not know.
pub fn unknown_task_outcome(task_type: &str) -> (res: TaskOutcome)
    ensures
        !res.success,
        res.result is None,
        res.error matches Some(e) && e@ == "unknown task type: "@ + task_type@,
{
    task_failed(cat2("unknown task type: ", task_type))
}

// ---------------------------------------------------------------------------
// Heartbeat
// ---------------------------------------------------------------------------

/// What the agent reports in a heartbeat.
#[derive(Clone, Debug)]
pub struct HeartbeatReport {
    pub node_id: String,
    pub node_name: String,
    pub owner_discord_user_id: String,
    pub node_type: String,
    pub online: bool,
    pub version: String,
    pub tailscale_online: bool,
    pub tailscale_ip: String,
    pub max_travel_servers: u64,
    pub active_travel_servers: u64,
    pub current_map: Option<String>,
    pub available_ram_mb: u64,
    pub total_ram_mb: u64,
    pub cluster_share_mounted: bool,
    pub ark_server_installed: bool,
    pub mods_valid: bool,
    pub config_valid: bool,
    pub ports_free: bool,
    pub rcon_ready: bool,
    pub last_error: Option<String>,
}

/// The number of travel servers the node runs: one when the agent started
/// one or an ARK server process is seen, else none.
pub fn active_servers(agent_running: bool, process_seen: bool) -> (res: u64)
    ensures
        res == (if agent_running || process_seen { 1u64 } else { 0u64 }),
{
    if agent_running || process_seen {
        1
    } else {
        0
    }
}

/// The map the node reports: the one the agent launched while it runs.
pub fn current_map(state: &ServerState) -> (res: Option<String>)
    ensures
        state.running ==> (res matches Some(m) && m@ == state.map_id@),
        !state.running ==> res is None,
{
    if state.running {
        Some(state.map_id.clone())
    } else {
        None
    }
}

/// The heartbeat from the checks: the node's ports count as free while it
/// hosts a server, and valid mods stand for a valid configuration.
pub fn build_payload(
    cfg: &NodeConfig,
    checks: &NodeChecks,
    active_travel_servers: u64,
    current_map: Option<String>,
    rcon_ready: bool,
    version: &str,
) -> (res: HeartbeatReport)
    ensures
        res.node_id == cfg.node_id,
        res.node_name == cfg.node_name,
        res.owner_discord_user_id == cfg.owner_discord_user_id,
        res.node_type@ == "external-windows"@,
        res.online,
        res.version@ == version@,
        res.tailscale_online == checks.tailscale_online,
        res.tailscale_ip@.len() == 0,
        res.max_travel_servers == 1,
        res.active_travel_servers == active_travel_servers,
        res.current_map == current_map,
        res.available_ram_mb == checks.available_ram_mb,
        res.total_ram_mb == checks.total_ram_mb,
        res.cluster_share_mounted == checks.cluster_share_mounted,
        res.ark_server_installed == checks.ark_server_installed,
        res.mods_valid == checks.mods_valid,
        res.config_valid == checks.mods_valid,
        res.ports_free == (checks.ports_free || active_travel_servers > 0),
        res.rcon_ready == rcon_ready,
        res.last_error == checks.last_error,
{
    HeartbeatReport {
        node_id: cfg.node_id.clone(),
        node_name: cfg.node_name.clone(),
        owner_discord_user_id: cfg.owner_discord_user_id.clone(),
        node_type: owned("external-windows"),
        online: true,
        version: owned(version),
        tailscale_online: checks.tailscale_online,
        tailscale_ip: String::new(),
        max_travel_servers: 1,
        active_travel_servers,
        current_map,
        available_ram_mb: checks.available_ram_mb,
        total_ram_mb: checks.total_ram_mb,
        cluster_share_mounted: checks.cluster_share_mounted,
        ark_server_installed: checks.ark_server_installed,
        mods_valid: checks.mods_valid,
        config_valid: checks.mods_valid,
        ports_free: checks.ports_free || active_travel_servers > 0,
        rcon_ready,
        last_error: match &checks.last_error {
            Some(e) => Some(e.clone()),
            None => None,
        },
    }
}

/// A manager endpoint: the URL without trailing `/`, then the path.
pub fn manager_endpoint(manager_url: &str, path: &str) -> (res: String)
    ensures
        res@ == trim_end_slashes(manager_url@) + path@,
{
    let v = crate::text::chars_of(manager_url);
    let mut b = v.len();
    assert(v@.take(b as int) =~= v@);
    while b > 0 && v[b - 1] == '/'
        invariant
            0 <= b <= v@.len(),
            v@ == manager_url@,
            trim_end_slashes(manager_url@) == trim_end_slashes(v@.take(b as int)),
        decreases b,
    {
        assert(v@.take(b as int).drop_last() =~= v@.take(b - 1));
        b = b - 1;
    }
    let mut s = crate::text::string_from_range(&v, 0, b);
    assert(v@.subrange(0, b as int) =~= v@.take(b as int));
    append(&mut s, path);
    s
}

// ---------------------------------------------------------------------------
// The agent's RCON client
// ---------------------------------------------------------------------------

/// Whether a packet size the agent reads is acceptable (10 to 4096 bytes).
pub fn agent_packet_size_ok(size: i32) -> (res: bool)
    ensures
        res == (10 <= size <= 4096),
{
    10 <= size && size <= 4096
}

/// The index of the first zero byte of `b` from `from`, or `None`.
pub open spec fn first_zero_from(b: Seq<u8>, from: int) -> Option<int>
    decreases b.len() - from,
{
    if from >= b.len() {
        None
    } else if b[from] == 0 {
        Some(from)
    } else {
        first_zero_from(b, from + 1)
    }
}

/// A packet the agent read, from the bytes after its size: id, type, and
/// the body up to its first zero byte (or to the end).
pub open spec fn agent_packet_of(data: Seq<u8>) -> (i32, i32, Seq<char>) {
    let end = match first_zero_from(data, 8) {
        Some(z) => z,
        None => data.len() as int,
    };
    (le32_at(data, 0), le32_at(data, 4), lossy_text(data.subrange(8, end)))
}

/// Decodes the body of an agent RCON packet (what follows the size field): id, type, and the text up to the first zero byte.
pub fn decode_agent_packet(data: &[u8]) -> (res: RconPacket)
    requires
        data@.len() >= 10,
    ensures
        (res.id, res.packet_type, res.body@) == agent_packet_of(data@),
{
    let id = crate::rcon::read_le32(data, 0);
    let ptype = crate::rcon::read_le32(data, 4);
    let mut body: Vec<u8> = Vec::new();
    let mut i: usize = 8;
    while i < data.len() && data[i] != 0
        invariant
            8 <= i <= data@.len(),
            body@ == data@.subrange(8, i as int),
            first_zero_from(data@, 8) == first_zero_from(data@, i as int),
        decreases data@.len() - i,
    {
        body.push(data[i]);
        assert(data@.subrange(8, i + 1) =~= data@.subrange(8, i as int).push(data@[i as int]));
        i = i + 1;
    }
    let text = crate::rcon::from_utf8_lossy(body.as_slice());
    RconPacket { id, packet_type: ptype, body: text }
}

} // verus!
