//! Runtime facts folded into the dashboard's map entries (systemd state,
//! RCON player counts, external-node sessions) and the summaries shown over
//! the whole map list.
use vstd::prelude::*;
use crate::config::{Config, ServerSlot, opt_str};
use crate::maps::{ArkMap, find_slot, has_unit, running_state, state_from_systemd, map_state_from_systemd};
use crate::nodes::{Node, TravelSession};
use crate::rcon::{SlotRuntime, conn_label};
use crate::systemd::{UnitStatus, is_unavailable_status};
use crate::text::{append, cat2, cat3, count_where, eq_str, first_where, owned, str_eq, decimal, u64_to_string};
use crate::travel::effective_map;

verus! {

// ---------------------------------------------------------------------------
// Enriching one map entry
// ---------------------------------------------------------------------------

/// The map another slot runs on the unit configured for `map`, when that
/// slot runs a different map.
pub open spec fn elsewhere(c: Config, map: ArkMap) -> Option<Seq<char>> {
    match find_slot(c, has_unit(map.config.systemd_unit@)) {
        Some(e) => if effective_map(e.0) != map.id@ { Some(effective_map(e.0)) } else { None },
        None => None,
    }
}

/// The map that the slot on `map`'s unit runs instead, if any.
pub fn assigned_elsewhere(config: &Config, map: &ArkMap) -> (res: Option<String>)
    ensures
        match elsewhere(*config, *map) {
            Some(e) => res matches Some(r) && r@ == e,
            None => res is None,
        },
{
    match crate::maps::configured_slot_for_unit(config, map.config.systemd_unit.as_str()) {
        Some((slot, _)) => {
            let effective = crate::travel::effective_slot_map_id(config, slot);
            if !str_eq(effective.as_str(), map.id.as_str()) {
                Some(effective)
            } else {
                None
            }
        },
        None => None,
    }
}

/// Marks a map as a launch-ready destination whose slot currently runs
/// `effective`.
pub fn mark_assigned_elsewhere(map: &mut ArkMap, effective: &str)
    ensures
        final(map).assignment@ == "Available destination"@,
        final(map).state@ == "Not running"@,
        final(map).systemd@ == "on-demand slot assigned to another map"@,
        final(map).rcon@ == "Disconnected"@,
        final(map).player_count_source@ == "not_running"@,
        final(map).slot_role@ == "On-demand pool"@,
        final(map).next_action@ == "Launch-ready destination; current slot is running "@ + effective@,
        final(map).systemd_detail is None,
        *final(map) == (ArkMap {
            assignment: final(map).assignment,
            state: final(map).state,
            systemd: final(map).systemd,
            rcon: final(map).rcon,
            player_count_source: final(map).player_count_source,
            slot_role: final(map).slot_role,
            next_action: final(map).next_action,
            systemd_detail: None,
            ..*old(map)
        }),
{
    map.assignment = owned("Available destination");
    map.state = owned("Not running");
    map.systemd = owned("on-demand slot assigned to another map");
    map.rcon = owned("Disconnected");
    map.player_count_source = owned("not_running");
    map.slot_role = owned("On-demand pool");
    map.next_action = cat2("Launch-ready destination; current slot is running ", effective);
    map.systemd_detail = None;
}

/// Marks a map whose systemd unit is not configured.
pub fn mark_unit_unconfigured(map: &mut ArkMap)
    ensures
        final(map).systemd@ == "unavailable"@,
        final(map).systemd_detail matches Some(d) && is_unavailable_status(d, ""@, "config"@, "systemd unit not configured"@),
        *final(map) == (ArkMap { systemd: final(map).systemd, systemd_detail: final(map).systemd_detail, ..*old(map) }),
{
    map.systemd = owned("unavailable");
    map.systemd_detail = Some(UnitStatus::unavailable("", "config", "systemd unit not configured"));
}

/// Folds the status of the map's unit into the map: the systemd state, the
/// map state it implies, the unit's memory in whole MiB when known, and
/// the status itself.
pub fn apply_unit_status(map: &mut ArkMap, detail: UnitStatus)
    ensures
        final(map).systemd == detail.state,
        final(map).state@ == state_from_systemd(old(map).is_home, old(map).config.can_enter_standby, old(map).state@, detail.active_state@),
        final(map).ram_mb == (match detail.memory_current_bytes {
            Some(m) => (m / 1048576) as u32,
            None => old(map).ram_mb,
        }),
        final(map).systemd_detail == Some(detail),
        *final(map) == (ArkMap {
            systemd: final(map).systemd,
            state: final(map).state,
            ram_mb: final(map).ram_mb,
            systemd_detail: final(map).systemd_detail,
            ..*old(map)
        }),
{
    map.systemd = detail.state.clone();
    map.state = map_state_from_systemd(map, &detail);
    match detail.memory_current_bytes {
        Some(m) => {
            map.ram_mb = (m / 1024 / 1024) as u32;
        },
        None => {},
    }
    map.systemd_detail = Some(detail);
}

/// What the RCON runtime says about a map's slot: the connection state; for
/// a running slot the player count (or why it is unknown) and the next
/// action; without an entry, `Connecting` when RCON is on, else `Disabled`.
pub open spec fn rcon_applied(old_map: ArkMap, m: ArkMap, entry: Option<SlotRuntime>, rcon_on: bool) -> bool {
    match entry {
        None => {
            &&& m.rcon@ == (if rcon_on { "Connecting"@ } else { "Disabled"@ })
            &&& m == (ArkMap { rcon: m.rcon, ..old_map })
        },
        Some(e) => {
            &&& m.rcon@ == conn_label(e.state)
            &&& if e.active {
                &&& match e.player_count {
                    Some(n) => m.players == n && m.player_count_source@ == "rcon"@
                        && m.unavailable_reason == old_map.unavailable_reason,
                    None => m.players == 0 && m.player_count_source@ == "rcon_unavailable"@
                        && opt_str(m.unavailable_reason) == Some(match opt_str(e.last_error) {
                            Some(err) => err,
                            None => "RCON connected but player count is not available yet"@,
                        }),
                }
                &&& m.next_action@ == (match opt_str(e.last_error) {
                    Some(err) => err,
                    None => "RCON player polling live"@,
                })
                &&& m == (ArkMap {
                    rcon: m.rcon,
                    players: m.players,
                    player_count_source: m.player_count_source,
                    unavailable_reason: m.unavailable_reason,
                    next_action: m.next_action,
                    ..old_map
                })
            } else {
                m == (ArkMap { rcon: m.rcon, ..old_map })
            }
        },
    }
}

fn copy_opt(o: &Option<String>) -> (res: Option<String>)
    ensures
        res == *o,
{
    match o {
        Some(s) => Some(s.clone()),
        None => None,
    }
}

/// Folds the RCON runtime entry of the map's slot into the map.
pub fn apply_rcon_runtime(map: &mut ArkMap, entry: Option<&SlotRuntime>, rcon_on: bool)
    ensures
        rcon_applied(*old(map), *final(map), match entry { Some(e) => Some(*e), None => None }, rcon_on),
{
    match entry {
        None => {
            map.rcon = if rcon_on {
                owned("Connecting")
            } else {
                owned("Disabled")
            };
        },
        Some(e) => {
            map.rcon = owned(e.state.as_str());
            if e.active {
                match e.player_count {
                    Some(n) => {
                        map.players = n;
                        map.player_count_source = owned("rcon");
                    },
                    None => {
                        map.players = 0;
                        map.player_count_source = owned("rcon_unavailable");
                        map.unavailable_reason = match &e.last_error {
                            Some(err) => Some(err.clone()),
                            None => Some(owned("RCON connected but player count is not available yet")),
                        };
                    },
                }
                map.next_action = match &e.last_error {
                    Some(err) => err.clone(),
                    None => owned("RCON player polling live"),
                };
            }
        },
    }
}

/// Whether RCON polling is switched on.
pub fn rcon_enabled(config: &Config) -> (res: bool)
    ensures
        res == (config.operations.rcon_enabled && config.rcon.enabled),
{
    config.operations.rcon_enabled && config.rcon.enabled
}

// ---------------------------------------------------------------------------
// External-node sessions shown on the map list
// ---------------------------------------------------------------------------

/// The position of the first map with the session's map id.
pub open spec fn session_map(maps: Seq<ArkMap>, session: TravelSession) -> Option<int> {
    first_where(maps, |m: ArkMap| m.id@ == session.map_id@)
}

/// The index of the map a session runs.
pub fn session_map_index(maps: &Vec<ArkMap>, session: &TravelSession) -> (res: Option<usize>)
    ensures
        match session_map(maps@, *session) {
            Some(i) => res matches Some(k) && k as int == i,
            None => res is None,
        },
{
    let ghost p = |m: ArkMap| m.id@ == session.map_id@;
    let mut i: usize = 0;
    while i < maps.len()
        invariant
            0 <= i <= maps@.len(),
            p == (|m: ArkMap| m.id@ == session.map_id@),
            forall|j: int| 0 <= j < i ==> !p(#[trigger] maps@[j]),
        decreases maps@.len() - i,
    {
        if str_eq(maps[i].id.as_str(), session.map_id.as_str()) {
            proof {
                crate::text::lemma_first_where_at(maps@, p, i as int);
            }
            return Some(i);
        }
        i = i + 1;
    }
    proof {
        crate::text::lemma_first_where_none(maps@, p);
    }
    None
}

/// A port stored with a session, as a port number (0 when absent).
pub open spec fn session_port(p: Option<i64>) -> u16 {
    match p {
        Some(x) => x as u16,
        None => 0,
    }
}

fn session_port_of(p: Option<i64>) -> (res: u16)
    ensures
        res == session_port(p),
{
    match p {
        Some(x) => x as u16,
        None => 0,
    }
}

/// `m` shows map `old_map` running on an external node for `session`.
pub open spec fn session_applied(old_map: ArkMap, m: ArkMap, session: TravelSession, node: Option<Node>, relay: Seq<char>) -> bool {
    let host = match node { Some(n) => n.tailscale_ip@, None => Seq::empty() };
    let name = match node { Some(n) => n.display_name@, None => session.node_id@ };
    let game = session_port(session.game_port);
    let query = session_port(session.query_port);
    let ready = session.status@ == "ready"@;
    let available = ready && host.len() > 0;
    &&& m.state@ == (if ready { "Online"@ } else { "Starting"@ })
    &&& m.assignment@ == "External node ("@ + name + ")"@
    &&& m.rcon@ == (if ready { "Connected"@ } else { "Connecting"@ })
    &&& m.systemd@ == "external-node"@
    &&& m.connect_host@ == host
    &&& m.game_port == game
    &&& m.query_port == query
    &&& m.connection_address@ == (if available { host + ":"@ + decimal(game as nat) } else { Seq::empty() })
    &&& m.query_address@ == (if available { host + ":"@ + decimal(query as nat) } else { Seq::empty() })
    &&& m.connection_source@ == "external-node"@
    &&& m.connection_available == available
    &&& m.connection_unavailable_reason@ == (if available { Seq::empty() } else { "node not yet ready"@ })
    &&& m.next_action@ == "Running on external node "@ + name
    &&& m.systemd_detail is None
    &&& opt_str(m.public_connection_address) == (if available && relay.len() > 0 {
        Some(relay + ":"@ + decimal(game as nat))
    } else {
        None
    })
    &&& opt_str(m.public_query_address) == (if available && relay.len() > 0 {
        Some(relay + ":"@ + decimal(query as nat))
    } else {
        None
    })
    &&& m == (ArkMap {
        state: m.state,
        assignment: m.assignment,
        rcon: m.rcon,
        systemd: m.systemd,
        connect_host: m.connect_host,
        game_port: m.game_port,
        query_port: m.query_port,
        connection_address: m.connection_address,
        query_address: m.query_address,
        connection_source: m.connection_source,
        connection_available: m.connection_available,
        connection_unavailable_reason: m.connection_unavailable_reason,
        next_action: m.next_action,
        systemd_detail: m.systemd_detail,
        public_connection_address: m.public_connection_address,
        public_query_address: m.public_query_address,
        ..old_map
    })
}

/// Shows a map as running on the external node of `session`.
pub fn apply_session_to_map(map: &mut ArkMap, session: &TravelSession, node: Option<&Node>, relay_ip: &str)
    ensures
        session_applied(*old(map), *final(map), *session, match node { Some(n) => Some(*n), None => None }, relay_ip@),
{
    let host = match node {
        Some(n) => n.tailscale_ip.clone(),
        None => String::new(),
    };
    let name = match node {
        Some(n) => n.display_name.as_str(),
        None => session.node_id.as_str(),
    };
    let game = session_port_of(session.game_port);
    let query = session_port_of(session.query_port);
    let ready = str_eq(session.status.as_str(), "ready");
    let available = ready && host.unicode_len() > 0;
    let gs = u64_to_string(game as u64);
    let qs = u64_to_string(query as u64);
    map.state = if ready { owned("Online") } else { owned("Starting") };
    map.assignment = cat3("External node (", name, ")");
    map.rcon = if ready { owned("Connected") } else { owned("Connecting") };
    map.systemd = owned("external-node");
    map.connection_address = if available { cat3(host.as_str(), ":", gs.as_str()) } else { String::new() };
    map.query_address = if available { cat3(host.as_str(), ":", qs.as_str()) } else { String::new() };
    map.connect_host = host;
    map.game_port = game;
    map.query_port = query;
    map.connection_source = owned("external-node");
    map.connection_available = available;
    map.connection_unavailable_reason = if available { String::new() } else { owned("node not yet ready") };
    map.next_action = cat2("Running on external node ", name);
    map.systemd_detail = None;
    let relay_set = relay_ip.unicode_len() > 0;
    map.public_connection_address = if available && relay_set { Some(cat3(relay_ip, ":", gs.as_str())) } else { None };
    map.public_query_address = if available && relay_set { Some(cat3(relay_ip, ":", qs.as_str())) } else { None };
}

// ---------------------------------------------------------------------------
// Summaries over the map list
// ---------------------------------------------------------------------------

pub open spec fn running_map() -> spec_fn(ArkMap) -> bool {
    |m: ArkMap| running_state(m.state@)
}

/// The number of maps that are running.
pub fn running_map_count(maps: &Vec<ArkMap>) -> (res: usize)
    ensures
        res == count_where(maps@, running_map()),
{
    let mut n: usize = 0;
    let mut i: usize = 0;
    while i < maps.len()
        invariant
            0 <= i <= maps@.len(),
            n == count_where(maps@.take(i as int), running_map()),
            n <= i,
        decreases maps@.len() - i,
    {
        assert(maps@.take(i + 1).drop_last() =~= maps@.take(i as int));
        let st = maps[i].state.as_str();
        if eq_str(st, "Online") || eq_str(st, "Ready") || eq_str(st, "Starting") {
            n = n + 1;
        }
        i = i + 1;
    }
    assert(maps@.take(maps@.len() as int) =~= maps@);
    n
}

/// The players on the maps selected by `p`.
pub open spec fn players_where(s: Seq<ArkMap>, p: spec_fn(ArkMap) -> bool) -> nat
    decreases s.len(),
{
    if s.len() == 0 {
        0
    } else {
        players_where(s.drop_last(), p) + if p(s.last()) { s.last().players as nat } else { 0nat }
    }
}

pub open spec fn any_map() -> spec_fn(ArkMap) -> bool {
    |m: ArkMap| true
}

pub open spec fn home_map() -> spec_fn(ArkMap) -> bool {
    |m: ArkMap| m.is_home
}

pub open spec fn travel_map() -> spec_fn(ArkMap) -> bool {
    |m: ArkMap| !m.is_home
}

/// A configured map whose count comes from RCON.
pub open spec fn rcon_counted(m: ArkMap) -> bool {
    m.configured && m.player_count_source@ == "rcon"@
}

pub proof fn lemma_players_where_prefix(s: Seq<ArkMap>, p: spec_fn(ArkMap) -> bool, i: int)
    requires
        0 <= i <= s.len(),
    ensures
        players_where(s.take(i), p) <= players_where(s, p),
    decreases s.len() - i,
{
    if i < s.len() {
        lemma_players_where_prefix(s, p, i + 1);
        assert(s.take(i + 1).drop_last() =~= s.take(i));
    } else {
        assert(s.take(i) =~= s);
    }
}

fn sum_players(maps: &Vec<ArkMap>, home: bool, travel: bool) -> (res: u32)
    requires
        home || travel,
        players_where(maps@, if home && travel { any_map() } else if home { home_map() } else { travel_map() }) <= u32::MAX,
    ensures
        res == players_where(maps@, if home && travel { any_map() } else if home { home_map() } else { travel_map() }),
{
    let ghost p = if home && travel { any_map() } else if home { home_map() } else { travel_map() };
    let mut n: u32 = 0;
    let mut i: usize = 0;
    while i < maps.len()
        invariant
            0 <= i <= maps@.len(),
            p == (if home && travel { any_map() } else if home { home_map() } else { travel_map() }),
            players_where(maps@, p) <= u32::MAX,
            n == players_where(maps@.take(i as int), p),
        decreases maps@.len() - i,
    {
        assert(maps@.take(i + 1).drop_last() =~= maps@.take(i as int));
        proof {
            lemma_players_where_prefix(maps@, p, i + 1);
        }
        let counted = if home && travel { true } else if home { maps[i].is_home } else { !maps[i].is_home };
        if counted {
            n = n + maps[i].players;
        }
        i = i + 1;
    }
    assert(maps@.take(maps@.len() as int) =~= maps@);
    n
}

/// The total player count when some configured map counts players over
/// RCON, else unknown.
pub fn total_players(maps: &Vec<ArkMap>) -> (res: Option<u32>)
    requires
        (exists|i: int| 0 <= i < maps@.len() && rcon_counted(#[trigger] maps@[i])) ==> players_where(maps@, any_map()) <= u32::MAX,
    ensures
        (exists|i: int| 0 <= i < maps@.len() && rcon_counted(#[trigger] maps@[i])) ==> res == Some(players_where(maps@, any_map()) as u32),
        !(exists|i: int| 0 <= i < maps@.len() && rcon_counted(#[trigger] maps@[i])) ==> res is None,
{
    let mut known = false;
    let mut i: usize = 0;
    while i < maps.len()
        invariant
            0 <= i <= maps@.len(),
            known == exists|j: int| 0 <= j < i && rcon_counted(#[trigger] maps@[j]),
        decreases maps@.len() - i,
    {
        if maps[i].configured && str_eq(maps[i].player_count_source.as_str(), "rcon") {
            known = true;
        }
        i = i + 1;
    }
    if known {
        Some(sum_players(maps, true, true))
    } else {
        None
    }
}

/// Whether every configured, running map has its count from RCON.
pub open spec fn counts_available(maps: Seq<ArkMap>) -> bool {
    forall|i: int| 0 <= i < maps.len() && (#[trigger] maps[i]).configured && running_state(maps[i].state@)
        ==> maps[i].player_count_source@ == "rcon"@
}

/// Whether every running configured map has a player count from RCON.
pub fn player_counts_available(maps: &Vec<ArkMap>) -> (res: bool)
    ensures
        res == counts_available(maps@),
{
    let mut i: usize = 0;
    while i < maps.len()
        invariant
            0 <= i <= maps@.len(),
            forall|j: int| 0 <= j < i && (#[trigger] maps@[j]).configured && running_state(maps@[j].state@)
                ==> maps@[j].player_count_source@ == "rcon"@,
        decreases maps@.len() - i,
    {
        let st = maps[i].state.as_str();
        let running = eq_str(st, "Online") || eq_str(st, "Ready") || eq_str(st, "Starting");
        if maps[i].configured && running && !str_eq(maps[i].player_count_source.as_str(), "rcon") {
            return false;
        }
        i = i + 1;
    }
    true
}

/// The players on Home maps and on travel maps.
pub fn players_by_role(maps: &Vec<ArkMap>) -> (res: (u32, u32))
    requires
        players_where(maps@, home_map()) <= u32::MAX,
        players_where(maps@, travel_map()) <= u32::MAX,
    ensures
        res.0 == players_where(maps@, home_map()),
        res.1 == players_where(maps@, travel_map()),
{
    (sum_players(maps, true, false), sum_players(maps, false, true))
}

/// The player count used to guard an action on `slot`: the map it runs
/// (by map key or unit) counts its RCON players, else one player while it
/// runs and none while stopped; no map means none.
pub open spec fn guard_player_count(maps: Seq<ArkMap>, slot: ServerSlot) -> u32 {
    match first_where(maps, |m: ArkMap| m.id@ == slot.map_key@ || m.config.systemd_unit@ == slot.systemd_unit@) {
        Some(i) => if maps[i].player_count_source@ == "rcon"@ {
            maps[i].players
        } else if running_state(maps[i].state@) {
            1
        } else {
            0
        },
        None => 0,
    }
}

/// The player count the stop guard uses for a slot: its map's RCON count, else one while it runs, else none.
pub fn slot_player_count(maps: &Vec<ArkMap>, slot: &ServerSlot) -> (res: u32)
    ensures
        res == guard_player_count(maps@, *slot),
{
    let ghost p = |m: ArkMap| m.id@ == slot.map_key@ || m.config.systemd_unit@ == slot.systemd_unit@;
    let mut i: usize = 0;
    while i < maps.len()
        invariant
            0 <= i <= maps@.len(),
            p == (|m: ArkMap| m.id@ == slot.map_key@ || m.config.systemd_unit@ == slot.systemd_unit@),
            forall|j: int| 0 <= j < i ==> !p(#[trigger] maps@[j]),
        decreases maps@.len() - i,
    {
        let m = &maps[i];
        if str_eq(m.id.as_str(), slot.map_key.as_str()) || str_eq(m.config.systemd_unit.as_str(), slot.systemd_unit.as_str()) {
            proof {
                crate::text::lemma_first_where_at(maps@, p, i as int);
            }
            let st = m.state.as_str();
            return if str_eq(m.player_count_source.as_str(), "rcon") {
                m.players
            } else if eq_str(st, "Online") || eq_str(st, "Ready") || eq_str(st, "Starting") {
                1
            } else {
                0
            };
        }
        i = i + 1;
    }
    proof {
        crate::text::lemma_first_where_none(maps@, p);
    }
    0
}

/// A map offered as a travel destination: launch-ready, not Home.
pub open spec fn is_destination(m: ArkMap) -> bool {
    m.launch_ready && !m.is_home
}

/// The indices of the travel destinations, in order.
pub fn destination_indices(maps: &Vec<ArkMap>) -> (res: Vec<usize>)
    ensures
        forall|k: int| 0 <= k < res@.len() ==> #[trigger] res@[k] < maps@.len() && is_destination(maps@[res@[k] as int]),
        forall|k: int, l: int| #![trigger res@[k], res@[l]] 0 <= k < l < res@.len() ==> res@[k] < res@[l],
        forall|j: int| 0 <= j < maps@.len() && is_destination(#[trigger] maps@[j]) ==> res@.contains(j as usize),
{
    let mut out: Vec<usize> = Vec::new();
    let mut i: usize = 0;
    while i < maps.len()
        invariant
            0 <= i <= maps@.len(),
            forall|k: int| 0 <= k < out@.len() ==> #[trigger] out@[k] < i && is_destination(maps@[out@[k] as int]),
            forall|k: int, l: int| #![trigger out@[k], out@[l]] 0 <= k < l < out@.len() ==> out@[k] < out@[l],
            forall|j: int| 0 <= j < i && is_destination(#[trigger] maps@[j]) ==> out@.contains(j as usize),
        decreases maps@.len() - i,
    {
        if maps[i].launch_ready && !maps[i].is_home {
            let ghost before = out@;
            out.push(i);
            assert(out@[out@.len() - 1] == i);
            assert forall|k: int| 0 <= k < out@.len() implies #[trigger] out@[k] < i + 1 && is_destination(maps@[out@[k] as int]) by {
                if k < before.len() {
                    assert(out@[k] == before[k]);
                }
            }
            assert forall|k: int, l: int| #![trigger out@[k], out@[l]] 0 <= k < l < out@.len() implies out@[k] < out@[l] by {
                assert(out@[k] == before[k]);
                if l < before.len() {
                    assert(out@[l] == before[l]);
                }
            }
            assert forall|j: int| 0 <= j < i + 1 && is_destination(#[trigger] maps@[j]) implies out@.contains(j as usize) by {
                if j < i {
                    let k = choose|k: int| 0 <= k < before.len() && before[k] == j as usize;
                    assert(out@[k] == j as usize);
                } else {
                    assert(out@[out@.len() - 1] == j as usize);
                }
            }
        }
        i = i + 1;
    }
    out
}

/// A slot's map as the travel page shows it: a stopped slot's map shows
/// offline with no players and no connection.
pub fn stopped_slot_view(map: &mut ArkMap, status: &UnitStatus)
    ensures
        status.active ==> *final(map) == *old(map),
        !status.active ==> {
            &&& final(map).state@ == "Offline"@
            &&& final(map).players == 0
            &&& final(map).player_count_source@ == "stopped"@
            &&& final(map).rcon@ == "Disconnected"@
            &&& final(map).systemd == status.state
            &&& !final(map).connection_available
            &&& final(map).connection_address@.len() == 0
            &&& final(map).query_address@.len() == 0
            &&& final(map).connection_source@ == "systemd"@
            &&& final(map).connection_unavailable_reason@ == "map not running"@
            &&& *final(map) == (ArkMap {
                state: final(map).state,
                players: 0,
                player_count_source: final(map).player_count_source,
                rcon: final(map).rcon,
                systemd: final(map).systemd,
                connection_available: false,
                connection_address: final(map).connection_address,
                query_address: final(map).query_address,
                connection_source: final(map).connection_source,
                connection_unavailable_reason: final(map).connection_unavailable_reason,
                ..*old(map)
            })
        },
{
    if !status.active {
        map.state = owned("Offline");
        map.players = 0;
        map.player_count_source = owned("stopped");
        map.rcon = owned("Disconnected");
        map.systemd = status.state.clone();
        map.connection_available = false;
        map.connection_address = String::new();
        map.query_address = String::new();
        map.connection_source = owned("systemd");
        map.connection_unavailable_reason = owned("map not running");
    }
}

/// Where a slot's player count comes from on the travel page.
pub fn slot_count_source(active: bool, map: Option<&ArkMap>) -> (res: &str)
    ensures
        !active ==> res@ == "stopped"@,
        active ==> res@ == (match map { Some(m) => m.player_count_source@, None => "unavailable"@ }),
{
    if !active {
        "stopped"
    } else {
        match map {
            Some(m) => m.player_count_source.as_str(),
            None => "unavailable",
        }
    }
}

// ---------------------------------------------------------------------------
// Manual systemd actions
// ---------------------------------------------------------------------------

/// The id of a systemd action: `op-<slot>-<action>-<epoch seconds>`.
pub fn systemd_action_id(slot_id: &str, action: crate::operations::ServerAction, now: u64) -> (res: String)
    ensures
        res@ == "op-"@ + slot_id@ + "-"@ + crate::operations::action_label(action) + "-"@ + decimal(now as nat),
{
    let n = u64_to_string(now);
    let mut s = cat3("op-", slot_id, "-");
    append(&mut s, action.as_str());
    append(&mut s, "-");
    append(&mut s, n.as_str());
    s
}

/// Stopping Home is audited as a warning, other actions as information.
pub fn systemd_action_severity(slot_key: &str, action: crate::operations::ServerAction) -> (res: crate::audit::Severity)
    ensures
        res == (if slot_key@ == "home"@ && action == crate::operations::ServerAction::Stop {
            crate::audit::Severity::Warn
        } else {
            crate::audit::Severity::Info
        }),
{
    if str_eq(slot_key, "home") && action == crate::operations::ServerAction::Stop {
        crate::audit::Severity::Warn
    } else {
        crate::audit::Severity::Info
    }
}

/// The audit detail of a blocked systemd action.
pub fn blocked_action_detail(slot_id: &str, action: crate::operations::ServerAction, code: &str, reason: &str) -> (res: String)
    ensures
        res@ == "slot="@ + slot_id@ + " action="@ + crate::operations::action_label(action) + " code="@ + code@
            + " reason="@ + reason@,
{
    let mut s = cat2("slot=", slot_id);
    append(&mut s, " action=");
    append(&mut s, action.as_str());
    append(&mut s, " code=");
    append(&mut s, code);
    append(&mut s, " reason=");
    append(&mut s, reason);
    s
}

/// The audit detail of a requested systemd action.
pub fn requested_action_detail(action_id: &str, slot: &ServerSlot, action: crate::operations::ServerAction, reason: &str) -> (res: String)
    ensures
        res@ == "action_id="@ + action_id@ + " slot="@ + slot.id@ + " action="@ + crate::operations::action_label(action)
            + " unit="@ + slot.systemd_unit@ + " reason="@ + reason@,
{
    let mut s = cat2("action_id=", action_id);
    append(&mut s, " slot=");
    append(&mut s, slot.id.as_str());
    append(&mut s, " action=");
    append(&mut s, action.as_str());
    append(&mut s, " unit=");
    append(&mut s, slot.systemd_unit.as_str());
    append(&mut s, " reason=");
    append(&mut s, reason);
    s
}

} // verus!
