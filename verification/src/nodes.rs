//! External nodes: pairing codes, node tokens and their hashes, node
//! readiness, the ports a node hosts on, travel sessions and node tasks.
use vstd::prelude::*;
use vstd::utf8::encode_utf8;
use crate::text::{append, cat2, cat3, owned, str_eq, str_contains, join, contains};

verus! {

// ---------------------------------------------------------------------------
// Hex, hashing and randomness
// ---------------------------------------------------------------------------

/// The lowercase hex digit of `d` (0..16).
pub open spec fn hex_digit(d: int) -> char {
    if d < 10 { ((d + 48) as u8) as char } else { ((d - 10 + 97) as u8) as char }
}

/// `b` in lowercase hex, two digits per byte, high nibble first.
pub open spec fn hex_of(b: Seq<u8>) -> Seq<char> {
    Seq::new(2 * b.len(), |k: int| if k % 2 == 0 { hex_digit(b[k / 2] as int / 16) } else { hex_digit(b[k / 2] as int % 16) })
}

/// Lowercase hex encoding (`hex::encode`): each byte becomes two digits
/// from `0123456789abcdef`, high nibble first.
#[verifier::external_body]
fn hex_encode(data: &[u8]) -> (res: String)
    ensures
        res@ == hex_of(data@),
{
    hex::encode(data)
}

/// The SHA-256 digest of some bytes.
pub uninterp spec fn sha256(data: Seq<u8>) -> Seq<u8>;

/// SHA-256 of `data` (`<sha2::Sha256 as Digest>::digest`): a 32-byte digest
/// that depends on the bytes alone.
#[verifier::external_body]
fn sha256_digest(data: &[u8]) -> (res: Vec<u8>)
    ensures
        res@ == sha256(data@),
        res@.len() == 32,
{
    <sha2::Sha256 as sha2::Digest>::digest(data).to_vec()
}

/// `n` random bytes (`rand::Rng::fill` on the thread-local generator).
/// Nothing is stated of the bytes but their number.
#[verifier::external_body]
fn random_bytes(n: usize) -> (res: Vec<u8>)
    ensures
        res@.len() == n,
{
    let mut v = vec![0u8; n];
    rand::Rng::fill(&mut rand::thread_rng(), &mut v[..]);
    v
}

/// A random index below `n` (`rand::Rng::gen_range(0..n)` on the
/// thread-local generator); `gen_range` panics on an empty range.
#[verifier::external_body]
fn random_below(n: usize) -> (res: usize)
    requires
        n > 0,
    ensures
        res < n,
{
    rand::Rng::gen_range(&mut rand::thread_rng(), 0..n)
}

/// Whether `s` is the hex encoding of `n` bytes.
pub open spec fn is_hex_of_len(s: Seq<char>, n: nat) -> bool {
    exists|b: Seq<u8>| b.len() == n && s == hex_of(b)
}

/// A fresh node token: 32 random bytes in hex.
pub fn generate_token() -> (res: String)
    ensures
        is_hex_of_len(res@, 32),
{
    let b = random_bytes(32);
    let s = hex_encode(b.as_slice());
    assert(s@ == hex_of(b@));
    s
}

/// A fresh record id: 8 random bytes in hex.
pub fn gen_id() -> (res: String)
    ensures
        is_hex_of_len(res@, 8),
{
    let b = random_bytes(8);
    let s = hex_encode(b.as_slice());
    assert(s@ == hex_of(b@));
    s
}

/// The stored form of a node token: the hex SHA-256 of its UTF-8 bytes.
pub open spec fn token_hash(token: Seq<char>) -> Seq<char> {
    hex_of(sha256(encode_utf8(token)))
}

/// The stored form of a node token.
pub fn hash_token(token: &str) -> (res: String)
    ensures
        res@ == token_hash(token@),
        res@.len() == 64,
{
    let d = sha256_digest(token.as_bytes());
    hex_encode(d.as_slice())
}

/// The characters pairing codes are made of.
pub open spec fn pairing_charset() -> Seq<char> {
    "ABCDEFGHIJKLMNOPQRSTUVWXYZ0123456789"@
}

/// A pairing code: four characters, a dash, four characters, each from
/// the pairing character set.
pub open spec fn is_pairing_code(s: Seq<char>) -> bool {
    &&& s.len() == 9
    &&& s[4] == '-'
    &&& forall|i: int| 0 <= i < 9 && i != 4 ==> pairing_charset().contains(#[trigger] s[i])
}

fn random_code_part(out: &mut String, n: usize)
    requires
        old(out)@.len() + n <= 9,
    ensures
        final(out)@.len() == old(out)@.len() + n,
        final(out)@.take(old(out)@.len() as int) == old(out)@,
        forall|i: int| old(out)@.len() <= i < final(out)@.len() ==> pairing_charset().contains(#[trigger] final(out)@[i]),
{
    let charset = crate::text::chars_of("ABCDEFGHIJKLMNOPQRSTUVWXYZ0123456789");
    proof {
        reveal_strlit("ABCDEFGHIJKLMNOPQRSTUVWXYZ0123456789");
    }
    let ghost start = out@;
    let mut k: usize = 0;
    while k < n
        invariant
            0 <= k <= n,
            charset@ == pairing_charset(),
            charset@.len() == 36,
            out@.len() == start.len() + k,
            out@.take(start.len() as int) == start,
            forall|i: int| start.len() <= i < out@.len() ==> pairing_charset().contains(#[trigger] out@[i]),
        decreases n - k,
    {
        let idx = random_below(charset.len());
        let c = charset[idx];
        let ghost before = out@;
        crate::text::push_char(out, c);
        assert(out@.take(start.len() as int) =~= before.take(start.len() as int));
        assert forall|i: int| start.len() <= i < out@.len() implies pairing_charset().contains(#[trigger] out@[i]) by {
            if i == out@.len() - 1 {
                assert(out@[i] == charset@[idx as int]);
            } else {
                assert(out@[i] == before[i]);
            }
        }
        k = k + 1;
    }
}

/// A fresh pairing code such as `K7QZ-2M9A`.
pub fn generate_pairing_code() -> (res: String)
    ensures
        is_pairing_code(res@),
{
    let mut s = String::new();
    random_code_part(&mut s, 4);
    let ghost first = s@;
    assert(first.len() == 4);
    crate::text::push_char(&mut s, '-');
    let ghost second = s@;
    assert(second == first.push('-'));
    random_code_part(&mut s, 4);
    assert(s@.len() == 9);
    assert(s@.take(5) == second);
    assert(s@[4] == s@.take(5)[4]);
    assert forall|i: int| 0 <= i < 9 && i != 4 implies pairing_charset().contains(#[trigger] s@[i]) by {
        if i < 4 {
            assert(s@[i] == s@.take(5)[i]);
            assert(second[i] == first[i]);
        }
    }
    s
}

/// The hash nodes compare their configuration against: hex SHA-256 of
/// `cluster_id:manager_version`.
pub fn config_version_hash(cluster_id: &str, manager_version: &str) -> (res: String)
    ensures
        res@ == token_hash(cluster_id@ + ":"@ + manager_version@),
{
    let canonical = cat3(cluster_id, ":", manager_version);
    hash_token(canonical.as_str())
}

// ---------------------------------------------------------------------------
// Nodes
// ---------------------------------------------------------------------------

/// A registered external node as stored.
#[derive(Clone, Debug)]
pub struct Node {
    pub id: String,
    pub display_name: String,
    pub owner_discord_id: String,
    pub node_type: String,
    pub status: String,
    pub max_travel_servers: i64,
    pub tailscale_ip: String,
    pub version: String,
    pub active_travel_servers: i64,
    pub current_map: Option<String>,
    pub available_ram_mb: Option<i64>,
    pub total_ram_mb: Option<i64>,
    pub cluster_share_mounted: i64,
    pub ark_server_installed: i64,
    pub mods_valid: i64,
    pub config_valid: i64,
    pub ports_free: i64,
    pub rcon_ready: i64,
    pub last_heartbeat: Option<String>,
    pub last_error: Option<String>,
    pub created_at: String,
    pub updated_at: String,
}

/// What a node reports in a heartbeat.
#[derive(Clone, Debug)]
pub struct NodeHeartbeat {
    pub node_id: String,
    pub node_name: Option<String>,
    pub owner_discord_user_id: Option<String>,
    pub version: Option<String>,
    pub tailscale_online: Option<bool>,
    pub tailscale_ip: Option<String>,
    pub active_travel_servers: Option<i64>,
    pub current_map: Option<String>,
    pub available_ram_mb: Option<i64>,
    pub total_ram_mb: Option<i64>,
    pub cluster_share_mounted: Option<bool>,
    pub ark_server_installed: Option<bool>,
    pub mods_valid: Option<bool>,
    pub config_valid: Option<bool>,
    pub ports_free: Option<bool>,
    pub rcon_ready: Option<bool>,
    pub last_error: Option<String>,
}

/// A pairing invite as stored.
#[derive(Clone, Debug)]
pub struct PairingInvite {
    pub code: String,
    pub suggested_name: String,
    pub created_by: String,
    pub expires_at: String,
    pub used: i64,
    pub node_id: String,
    pub created_at: String,
}

/// A node's request to complete pairing.
#[derive(Clone, Debug)]
pub struct PairCompleteRequest {
    pub code: String,
    pub node_id: String,
    pub node_name: String,
    pub owner_discord_user_id: Option<String>,
    pub node_type: Option<String>,
}

pub open spec fn flag(b: Option<bool>) -> bool {
    match b { Some(x) => x, None => false }
}

/// A node's status from its heartbeat: busy while it hosts a travel
/// server, online when every readiness check passed, else not ready.
pub open spec fn heartbeat_status(hb: NodeHeartbeat) -> Seq<char> {
    if (match hb.active_travel_servers { Some(n) => n, None => 0 }) > 0 {
        "busy"@
    } else if flag(hb.cluster_share_mounted) && flag(hb.ark_server_installed) && flag(hb.mods_valid)
        && flag(hb.config_valid) && flag(hb.ports_free) && flag(hb.tailscale_online) {
        "online"@
    } else {
        "not_ready"@
    }
}

fn flag_of(b: Option<bool>) -> (res: bool)
    ensures
        res == flag(b),
{
    match b {
        Some(x) => x,
        None => false,
    }
}

/// The node status a heartbeat implies: busy, online or not ready.
pub fn compute_status(hb: &NodeHeartbeat) -> (res: &'static str)
    ensures
        res@ == heartbeat_status(*hb),
{
    let active = match hb.active_travel_servers {
        Some(n) => n,
        None => 0,
    };
    if active > 0 {
        return "busy";
    }
    let ready = flag_of(hb.cluster_share_mounted) && flag_of(hb.ark_server_installed) && flag_of(hb.mods_valid)
        && flag_of(hb.config_valid) && flag_of(hb.ports_free) && flag_of(hb.tailscale_online);
    if ready {
        "online"
    } else {
        "not_ready"
    }
}

/// The failed readiness checks of a node, in order.
pub open spec fn not_ready_reasons(n: Node) -> Seq<Seq<char>> {
    let a = if n.cluster_share_mounted == 0 { seq!["cluster share not mounted"@] } else { Seq::empty() };
    let b = if n.ark_server_installed == 0 { a.push("ARK dedicated server not installed"@) } else { a };
    let c = if n.mods_valid == 0 { b.push("mods not validated"@) } else { b };
    let d = if n.config_valid == 0 { c.push("config mismatch"@) } else { c };
    if n.ports_free == 0 { d.push("ports not free"@) } else { d }
}

/// Why a node is not ready, naming each failed check.
pub open spec fn not_ready_text(n: Node) -> Seq<char> {
    let r = not_ready_reasons(n);
    if r.len() == 0 {
        "Node '"@ + n.display_name@ + "' is not ready."@
    } else {
        "Node '"@ + n.display_name@ + "' is not ready: "@ + join(r, ", "@)
    }
}

/// Why a node is not ready, naming each failed check.
pub fn build_not_ready_reason(node: &Node) -> (res: String)
    ensures
        res@ == not_ready_text(*node),
{
    let mut reasons: Vec<Vec<char>> = Vec::new();
    let ghost n = *node;
    if node.cluster_share_mounted == 0 {
        reasons.push(crate::text::chars_of("cluster share not mounted"));
    }
    let ghost a = if n.cluster_share_mounted == 0 { seq!["cluster share not mounted"@] } else { Seq::<Seq<char>>::empty() };
    assert(crate::text::views(reasons@) =~= a);
    if node.ark_server_installed == 0 {
        reasons.push(crate::text::chars_of("ARK dedicated server not installed"));
    }
    let ghost b = if n.ark_server_installed == 0 { a.push("ARK dedicated server not installed"@) } else { a };
    assert(crate::text::views(reasons@) =~= b);
    if node.mods_valid == 0 {
        reasons.push(crate::text::chars_of("mods not validated"));
    }
    let ghost c = if n.mods_valid == 0 { b.push("mods not validated"@) } else { b };
    assert(crate::text::views(reasons@) =~= c);
    if node.config_valid == 0 {
        reasons.push(crate::text::chars_of("config mismatch"));
    }
    let ghost d = if n.config_valid == 0 { c.push("config mismatch"@) } else { c };
    assert(crate::text::views(reasons@) =~= d);
    if node.ports_free == 0 {
        reasons.push(crate::text::chars_of("ports not free"));
    }
    assert(crate::text::views(reasons@) =~= not_ready_reasons(n));
    if reasons.len() == 0 {
        cat3("Node '", node.display_name.as_str(), "' is not ready.")
    } else {
        let j = crate::text::join_vecs(&reasons, ", ");
        let mut s = cat3("Node '", node.display_name.as_str(), "' is not ready: ");
        crate::text::append_vec(&mut s, &j);
        s
    }
}

/// The game, raw, query and RCON ports a node hosts on: a second node
/// (its id holds `friend` or `2`) uses the second set.
pub open spec fn ports_for(id: Seq<char>) -> (i64, i64, i64, i64) {
    if contains(id, "friend"@) || contains(id, "2"@) {
        (7793, 7794, 27019, 27024)
    } else {
        (7789, 7790, 27018, 27023)
    }
}

/// The game, raw, query and RCON ports a node hosts a travel map on.
pub fn node_ports_for(node: &Node) -> (res: (i64, i64, i64, i64))
    ensures
        res == ports_for(node.id@),
{
    if str_contains(node.id.as_str(), "friend") || str_contains(node.id.as_str(), "2") {
        (7793, 7794, 27019, 27024)
    } else {
        (7789, 7790, 27018, 27023)
    }
}

/// Why a node cannot take a travel map now: an error code, an HTTP status
/// and a message.
#[derive(Clone, Debug)]
pub struct NodeRefusal {
    pub status: u16,
    pub code: String,
    pub message: String,
}

/// Whether a node can host a travel map: an offline, busy or not-ready
/// node is refused with the reason; any other status may host.
pub open spec fn node_refusal(n: Node) -> Option<(u16, Seq<char>, Seq<char>)> {
    if n.status@ == "offline"@ {
        Some((503, "NODE_OFFLINE"@, "Node '"@ + n.display_name@ + "' is offline."@))
    } else if n.status@ == "busy"@ {
        Some((409, "NODE_BUSY"@, "Blocked: "@ + n.display_name@ + " is already hosting "@ + (match n.current_map {
            Some(m) => m@,
            None => "unknown map"@,
        }) + ". Return to Home and close it before starting another map on this PC."@))
    } else if n.status@ == "not_ready"@ {
        Some((503, "NODE_NOT_READY"@, not_ready_text(n)))
    } else {
        None
    }
}

/// Why a travel map cannot start on a node now, if it cannot.
pub fn check_node_ready(node: &Node) -> (res: Option<NodeRefusal>)
    ensures
        match node_refusal(*node) {
            Some((st, code, msg)) => res matches Some(r) && r.status == st && r.code@ == code && r.message@ == msg,
            None => res is None,
        },
{
    if str_eq(node.status.as_str(), "offline") {
        return Some(NodeRefusal {
            status: 503,
            code: owned("NODE_OFFLINE"),
            message: cat3("Node '", node.display_name.as_str(), "' is offline."),
        });
    }
    if str_eq(node.status.as_str(), "busy") {
        let current = match &node.current_map {
            Some(m) => m.as_str(),
            None => "unknown map",
        };
        let mut m = cat3("Blocked: ", node.display_name.as_str(), " is already hosting ");
        append(&mut m, current);
        append(&mut m, ". Return to Home and close it before starting another map on this PC.");
        return Some(NodeRefusal { status: 409, code: owned("NODE_BUSY"), message: m });
    }
    if str_eq(node.status.as_str(), "not_ready") {
        return Some(NodeRefusal {
            status: 503,
            code: owned("NODE_NOT_READY"),
            message: build_not_ready_reason(node),
        });
    }
    None
}

/// The node that takes a travel request: the requester's own node when
/// there is one, else the first online node.
pub open spec fn first_online(nodes: Seq<Node>) -> Option<int> {
    crate::text::first_where(nodes, |n: Node| n.status@ == "online"@)
}

/// The index of the first online node.
pub fn first_online_node(nodes: &Vec<Node>) -> (res: Option<usize>)
    ensures
        match first_online(nodes@) {
            Some(i) => res matches Some(k) && k as int == i,
            None => res is None,
        },
{
    let ghost p = |n: Node| n.status@ == "online"@;
    let mut i: usize = 0;
    while i < nodes.len()
        invariant
            0 <= i <= nodes@.len(),
            p == (|n: Node| n.status@ == "online"@),
            forall|j: int| 0 <= j < i ==> !p(#[trigger] nodes@[j]),
        decreases nodes@.len() - i,
    {
        if str_eq(nodes[i].status.as_str(), "online") {
            proof {
                crate::text::lemma_first_where_at(nodes@, p, i as int);
            }
            return Some(i);
        }
        i = i + 1;
    }
    proof {
        crate::text::lemma_first_where_none(nodes@, p);
    }
    None
}

/// How long a pairing invite lives, in minutes: 15 by default, kept
/// between 5 and 60.
pub fn pairing_ttl(ttl_mins: Option<i64>) -> (res: i64)
    ensures
        res == (match ttl_mins {
            Some(t) => if t < 5 { 5 } else if t > 60 { 60 } else { t },
            None => 15,
        }),
{
    let t = match ttl_mins {
        Some(t) => t,
        None => 15,
    };
    if t < 5 {
        5
    } else if t > 60 {
        60
    } else {
        t
    }
}

/// Why a pairing code cannot be used, as an error code and message.
pub open spec fn pairing_refusal(invite: Option<PairingInvite>, unexpired: bool) -> Option<(Seq<char>, Seq<char>)> {
    match invite {
        None => Some(("INVALID_CODE"@, "pairing code not found"@)),
        Some(i) => if i.used != 0 {
            Some(("CODE_USED"@, "pairing code already used"@))
        } else if !unexpired {
            Some(("CODE_EXPIRED"@, "pairing code has expired"@))
        } else {
            None
        },
    }
}

/// Checks a pairing code: it must exist, be unused and not have expired.
pub fn check_pairing(invite: &Option<PairingInvite>, unexpired: bool) -> (res: Option<(&'static str, &'static str)>)
    ensures
        match pairing_refusal(*invite, unexpired) {
            Some((c, m)) => res matches Some(r) && r.0@ == c && r.1@ == m,
            None => res is None,
        },
{
    match invite {
        None => Some(("INVALID_CODE", "pairing code not found")),
        Some(i) => {
            if i.used != 0 {
                Some(("CODE_USED", "pairing code already used"))
            } else if !unexpired {
                Some(("CODE_EXPIRED", "pairing code has expired"))
            } else {
                None
            }
        },
    }
}

/// The node type and owner recorded for a pairing request.
pub fn pairing_identity(req: &PairCompleteRequest) -> (res: (&str, &str))
    ensures
        res.0@ == (match req.node_type { Some(t) => t@, None => "external-windows"@ }),
        res.1@ == (match req.owner_discord_user_id { Some(o) => o@, None => ""@ }),
{
    let t = match &req.node_type {
        Some(t) => t.as_str(),
        None => "external-windows",
    };
    let o = match &req.owner_discord_user_id {
        Some(o) => o.as_str(),
        None => "",
    };
    (t, o)
}

// ---------------------------------------------------------------------------
// Travel sessions
// ---------------------------------------------------------------------------

/// A travel map hosted on an external node.
#[derive(Clone, Debug)]
pub struct TravelSession {
    pub id: String,
    pub node_id: String,
    pub map_id: String,
    pub map_name: String,
    pub session_name: String,
    pub status: String,
    pub requester_discord_id: String,
    pub game_port: Option<i64>,
    pub raw_port: Option<i64>,
    pub query_port: Option<i64>,
    pub rcon_port: Option<i64>,
    pub started_at: String,
    pub ready_at: Option<String>,
    pub closed_at: Option<String>,
    pub last_error: Option<String>,
}

/// A request to close a travel session.
#[derive(Clone, Debug)]
pub struct TravelCloseRequest {
    pub session_id: Option<String>,
    pub force: Option<bool>,
}

/// The name a session is shown under.
pub fn session_name(map_name: &str) -> (res: String)
    ensures
        res@ == "ARK Travel - "@ + map_name@,
{
    cat2("ARK Travel - ", map_name)
}

/// Which timestamp a status change stamps: closing or failing stamps the
/// close time, becoming ready the ready time, anything else none.
#[derive(Clone, Copy, Debug, PartialEq, Eq, Structural)]
pub enum SessionStamp {
    Closed,
    Ready,
    Nothing,
}

/// Which timestamp a session status sets.
pub fn session_stamp(status: &str) -> (res: SessionStamp)
    ensures
        res == (if status@ == "closed"@ || status@ == "error"@ {
            SessionStamp::Closed
        } else if status@ == "ready"@ {
            SessionStamp::Ready
        } else {
            SessionStamp::Nothing
        }),
{
    if str_eq(status, "closed") || str_eq(status, "error") {
        SessionStamp::Closed
    } else if str_eq(status, "ready") {
        SessionStamp::Ready
    } else {
        SessionStamp::Nothing
    }
}

/// A session still in progress: neither closed nor failed.
pub open spec fn session_active(status: Seq<char>) -> bool {
    status != "closed"@ && status != "error"@
}

/// Whether a session is neither closed nor failed.
pub fn is_session_active(s: &TravelSession) -> (res: bool)
    ensures
        res == session_active(s.status@),
{
    !(str_eq(s.status.as_str(), "closed") || str_eq(s.status.as_str(), "error"))
}

/// Whether a heartbeat promotes the node's session to ready: the node
/// reports RCON ready while the session is starting.
pub fn heartbeat_promotes(rcon_ready: Option<bool>, session_status: &str) -> (res: bool)
    ensures
        res == (rcon_ready == Some(true) && session_status@ == "starting"@),
{
    match rcon_ready {
        Some(true) => str_eq(session_status, "starting"),
        _ => false,
    }
}

// ---------------------------------------------------------------------------
// Node tasks
// ---------------------------------------------------------------------------

/// A task queued for a node.
#[derive(Clone, Debug)]
pub struct NodeTask {
    pub id: String,
    pub node_id: String,
    pub session_id: Option<String>,
    pub task_type: String,
    pub payload: String,
    pub status: String,
    pub created_at: String,
    pub sent_at: Option<String>,
    pub completed_at: Option<String>,
    pub result: Option<String>,
    pub error: Option<String>,
}

#[derive(Clone, Copy, Debug, PartialEq, Eq, Structural)]
pub enum TaskType {
    StartTravel,
    StopTravel,
    SaveWorld,
    BackupTravel,
    ValidateMods,
    SyncConfig,
    UpdateArkServer,
    Ping,
    StatusRefresh,
}

pub open spec fn task_type_label(t: TaskType) -> Seq<char> {
    match t {
        TaskType::StartTravel => "start_travel"@,
        TaskType::StopTravel => "stop_travel"@,
        TaskType::SaveWorld => "save_world"@,
        TaskType::BackupTravel => "backup_travel"@,
        TaskType::ValidateMods => "validate_mods"@,
        TaskType::SyncConfig => "sync_config"@,
        TaskType::UpdateArkServer => "update_ark_server"@,
        TaskType::Ping => "ping"@,
        TaskType::StatusRefresh => "status_refresh"@,
    }
}

impl TaskType {
    /// The task type as stored in the task queue.
    pub fn as_str(&self) -> (res: &'static str)
        ensures
            res@ == task_type_label(*self),
    {
        match self {
            TaskType::StartTravel => "start_travel",
            TaskType::StopTravel => "stop_travel",
            TaskType::SaveWorld => "save_world",
            TaskType::BackupTravel => "backup_travel",
            TaskType::ValidateMods => "validate_mods",
            TaskType::SyncConfig => "sync_config",
            TaskType::UpdateArkServer => "update_ark_server",
            TaskType::Ping => "ping",
            TaskType::StatusRefresh => "status_refresh",
        }
    }
}

/// A node's report on a task.
#[derive(Clone, Debug)]
pub struct TaskResultRequest {
    pub success: bool,
    pub result: Option<String>,
    pub error: Option<String>,
}

/// The status a task ends in.
pub fn task_final_status(req: &TaskResultRequest) -> (res: &'static str)
    ensures
        res@ == (if req.success { "completed"@ } else { "failed"@ }),
{
    if req.success {
        "completed"
    } else {
        "failed"
    }
}

/// The status a completed task moves its session to: a successful stop
/// closes it, a successful start makes it ready; otherwise none.
pub fn session_status_after_task(success: bool, task_type: &str) -> (res: Option<&'static str>)
    ensures
        !success ==> res is None,
        success && task_type@ == "stop_travel"@ ==> (res matches Some(s) && s@ == "closed"@),
        success && task_type@ == "start_travel"@ ==> (res matches Some(s) && s@ == "ready"@),
        success && task_type@ != "stop_travel"@ && task_type@ != "start_travel"@ ==> res is None,
{
    proof {
        reveal_strlit("stop_travel");
        reveal_strlit("start_travel");
        assert("start_travel"@[2] != "stop_travel"@[2]);
    }
    if !success {
        None
    } else if str_eq(task_type, "stop_travel") {
        Some("closed")
    } else if str_eq(task_type, "start_travel") {
        Some("ready")
    } else {
        None
    }
}

/// The quoted, comma-separated id list used to mark polled tasks as sent.
pub open spec fn quoted_ids(ids: Seq<Seq<char>>) -> Seq<char> {
    join(Seq::new(ids.len(), |i: int| "'"@ + ids[i] + "'"@), ","@)
}

/// The task ids, each in single quotes, joined with commas.
pub fn quoted_id_list(tasks: &Vec<NodeTask>) -> (res: String)
    ensures
        res@ == quoted_ids(Seq::new(tasks@.len(), |i: int| tasks@[i].id@)),
{
    let ghost ids = Seq::new(tasks@.len(), |i: int| tasks@[i].id@);
    let mut parts: Vec<Vec<char>> = Vec::new();
    let mut k: usize = 0;
    while k < tasks.len()
        invariant
            0 <= k <= tasks@.len(),
            ids == Seq::new(tasks@.len(), |i: int| tasks@[i].id@),
            crate::text::views(parts@) == Seq::new(k as nat, |i: int| "'"@ + ids[i] + "'"@),
        decreases tasks@.len() - k,
    {
        let q = cat3("'", tasks[k].id.as_str(), "'");
        let v = crate::text::chars_of(q.as_str());
        let ghost before = parts@;
        parts.push(v);
        assert(crate::text::views(parts@) =~= crate::text::views(before).push("'"@ + ids[k as int] + "'"@));
        assert(crate::text::views(parts@) =~= Seq::new((k + 1) as nat, |i: int| "'"@ + ids[i] + "'"@));
        k = k + 1;
    }
    assert(Seq::new(tasks@.len(), |i: int| "'"@ + ids[i] + "'"@) =~= Seq::new(ids.len(), |i: int| "'"@ + ids[i] + "'"@));
    let j = crate::text::join_vecs(&parts, ",");
    crate::text::string_from(&j)
}

/// A node that reports a running travel server is busy, whatever its
/// checks say; a node is online only when every readiness check passed.
pub proof fn lemma_heartbeat_status(hb: NodeHeartbeat)
    ensures
        (match hb.active_travel_servers { Some(n) => n, None => 0 }) > 0 ==> heartbeat_status(hb) == "busy"@,
        heartbeat_status(hb) == "online"@ ==> flag(hb.cluster_share_mounted) && flag(hb.ark_server_installed)
            && flag(hb.mods_valid) && flag(hb.config_valid) && flag(hb.ports_free) && flag(hb.tailscale_online),
{
    reveal_strlit("online");
    reveal_strlit("busy");
    reveal_strlit("not_ready");
    assert("online"@ != "busy"@ ) by {
        assert("online"@.len() != "busy"@.len());
    }
    assert("online"@ != "not_ready"@) by {
        assert("online"@.len() != "not_ready"@.len());
    }
}

/// What a travel request routed to an external node answers: where to
/// connect and what the player is told.
#[derive(Clone, Debug)]
pub struct ExternalTravelReply {
    pub connection_address: String,
    pub query_address: String,
    pub public_connection_address: String,
    pub public_query_address: String,
    pub connection_available: bool,
    pub user_message: String,
}

pub open spec fn signed_text(x: i64) -> Seq<char> {
    if x < 0 { "-"@ + crate::text::decimal((-x) as nat) } else { crate::text::decimal(x as nat) }
}

fn i64_to_string(x: i64) -> (res: String)
    ensures
        res@ == signed_text(x),
{
    if x < 0 {
        let m: u64 = if x == i64::MIN { 9223372036854775808u64 } else { (-x) as u64 };
        let d = crate::text::u64_to_string(m);
        cat2("-", d.as_str())
    } else {
        crate::text::u64_to_string(x as u64)
    }
}

/// The reply to a travel started on `node`: its Tailscale address (or
/// `pending` before it reported one) with the game and query ports, the
/// relay address when a relay is configured, and the player's message.
pub fn external_travel_reply(node: &Node, relay_ip: &str, map_name: &str) -> (res: ExternalTravelReply)
    ensures
        ({
            let ports = ports_for(node.id@);
            let ip = if node.tailscale_ip@.len() == 0 { "pending"@ } else { node.tailscale_ip@ };
            let connect = ip + ":"@ + signed_text(ports.0);
            let query = ip + ":"@ + signed_text(ports.2);
            let pub_connect = if relay_ip@.len() > 0 { relay_ip@ + ":"@ + signed_text(ports.0) } else { connect };
            let pub_query = if relay_ip@.len() > 0 { relay_ip@ + ":"@ + signed_text(ports.2) } else { query };
            &&& res.connection_address@ == connect
            &&& res.query_address@ == query
            &&& res.public_connection_address@ == pub_connect
            &&& res.public_query_address@ == pub_query
            &&& res.connection_available == (ip.len() > 0 && ip != "pending"@)
            &&& res.user_message@ == map_name@ + " is starting on "@ + node.display_name@
                + ". Use terminal 'Join Another Server' once it's ready. Connect: "@ + pub_connect
        }),
{
    let ports = node_ports_for(node);
    let has_ip = node.tailscale_ip.unicode_len() > 0;
    let ip: &str = if has_ip { node.tailscale_ip.as_str() } else { "pending" };
    let g = i64_to_string(ports.0);
    let q = i64_to_string(ports.2);
    let connect = cat3(ip, ":", g.as_str());
    let query = cat3(ip, ":", q.as_str());
    let relay = relay_ip.unicode_len() > 0;
    let pub_connect = if relay { cat3(relay_ip, ":", g.as_str()) } else { connect.clone() };
    let pub_query = if relay { cat3(relay_ip, ":", q.as_str()) } else { query.clone() };
    let mut msg = cat3(map_name, " is starting on ", node.display_name.as_str());
    append(&mut msg, ". Use terminal 'Join Another Server' once it's ready. Connect: ");
    append(&mut msg, pub_connect.as_str());
    proof {
        reveal_strlit("pending");
    }
    ExternalTravelReply {
        connection_address: connect,
        query_address: query,
        public_connection_address: pub_connect,
        public_query_address: pub_query,
        connection_available: ip.unicode_len() > 0 && !str_eq(ip, "pending"),
        user_message: msg,
    }
}

} // verus!
