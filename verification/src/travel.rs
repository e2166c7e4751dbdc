//! Travel between maps: the official ARK maps, map-name resolution, and
//! the decision on a travel request.
use vstd::prelude::*;
use crate::config::{Config, MapConfig, ServerSlot, opt_str};
use crate::systemd::UnitStatus;
use crate::text::{
    cat2, chars_of, char_is_alnum, char_lower, is_alnum, lower, owned, str_eq, vec_eq, views,
    first_where, lemma_first_where_at, lemma_first_where_none, lemma_first_where_some, contains,
    str_contains,
};

verus! {

/// One official ARK map.
#[derive(Clone, Debug)]
pub struct OfficialMapProfile {
    pub id: &'static str,
    pub name: &'static str,
    pub alias: &'static str,
    pub ark_map_name: &'static str,
    pub aliases: Vec<&'static str>,
}

/// The views of a list of string slices.
pub open spec fn strs(v: Seq<&'static str>) -> Seq<Seq<char>> {
    Seq::new(v.len(), |i: int| v[i]@)
}

/// A profile as plain text: id, name, short alias, ARK map name, aliases.
pub open spec fn profile_view(p: OfficialMapProfile) -> (Seq<char>, Seq<char>, Seq<char>, Seq<char>, Seq<Seq<char>>) {
    (p.id@, p.name@, p.alias@, p.ark_map_name@, strs(p.aliases@))
}

/// The official maps, in the order the dashboard lists them.
pub open spec fn official_table() -> Seq<(Seq<char>, Seq<char>, Seq<char>, Seq<char>, Seq<Seq<char>>)> {
    seq![
        ("the-island"@, "The Island"@, "island"@, "TheIsland"@, seq!["the-island"@, "The Island"@, "TheIsland"@, "island"@]),
        ("scorched-earth"@, "Scorched Earth"@, "scorched"@, "ScorchedEarth_P"@, seq!["scorched-earth"@, "Scorched Earth"@, "ScorchedEarth_P"@, "scorched"@]),
        ("aberration"@, "Aberration"@, "abb"@, "Aberration_P"@, seq!["aberration"@, "Aberration_P"@, "abb"@]),
        ("extinction"@, "Extinction"@, "extinction"@, "Extinction"@, seq!["extinction"@]),
        ("genesis-1"@, "Genesis: Part 1"@, "gen1"@, "Genesis"@, seq!["genesis-1"@, "Genesis: Part 1"@, "Genesis"@, "gen1"@]),
        ("genesis-2"@, "Genesis: Part 2"@, "gen2"@, "Gen2"@, seq!["genesis-2"@, "Genesis: Part 2"@, "Gen2"@, "gen2"@]),
        ("the-center"@, "The Center"@, "center"@, "TheCenter"@, seq!["the-center"@, "The Center"@, "TheCenter"@, "center"@]),
        ("ragnarok"@, "Ragnarok"@, "rag"@, "Ragnarok"@, seq!["ragnarok"@, "rag"@]),
        ("valguero"@, "Valguero"@, "val"@, "Valguero_P"@, seq!["valguero"@, "Valguero_P"@, "val"@]),
        ("crystal-isles"@, "Crystal Isles"@, "crystal"@, "CrystalIsles"@, seq!["crystal-isles"@, "Crystal Isles"@, "CrystalIsles"@, "crystal"@]),
        ("lost-island"@, "Lost Island"@, "lost"@, "LostIsland"@, seq!["lost-island"@, "Lost Island"@, "LostIsland"@, "lost"@]),
        ("fjordur"@, "Fjordur"@, "fjord"@, "Fjordur"@, seq!["fjordur"@, "fjord"@]),
    ]
}

/// The official ARK maps.
pub fn official_maps() -> (res: Vec<OfficialMapProfile>)
    ensures
        Seq::new(res@.len(), |i: int| profile_view(res@[i])) == official_table(),
{
    let v: Vec<OfficialMapProfile> = vec![
        OfficialMapProfile { id: "the-island", name: "The Island", alias: "island", ark_map_name: "TheIsland", aliases: vec!["the-island", "The Island", "TheIsland", "island"] },
        OfficialMapProfile { id: "scorched-earth", name: "Scorched Earth", alias: "scorched", ark_map_name: "ScorchedEarth_P", aliases: vec!["scorched-earth", "Scorched Earth", "ScorchedEarth_P", "scorched"] },
        OfficialMapProfile { id: "aberration", name: "Aberration", alias: "abb", ark_map_name: "Aberration_P", aliases: vec!["aberration", "Aberration_P", "abb"] },
        OfficialMapProfile { id: "extinction", name: "Extinction", alias: "extinction", ark_map_name: "Extinction", aliases: vec!["extinction"] },
        OfficialMapProfile { id: "genesis-1", name: "Genesis: Part 1", alias: "gen1", ark_map_name: "Genesis", aliases: vec!["genesis-1", "Genesis: Part 1", "Genesis", "gen1"] },
        OfficialMapProfile { id: "genesis-2", name: "Genesis: Part 2", alias: "gen2", ark_map_name: "Gen2", aliases: vec!["genesis-2", "Genesis: Part 2", "Gen2", "gen2"] },
        OfficialMapProfile { id: "the-center", name: "The Center", alias: "center", ark_map_name: "TheCenter", aliases: vec!["the-center", "The Center", "TheCenter", "center"] },
        OfficialMapProfile { id: "ragnarok", name: "Ragnarok", alias: "rag", ark_map_name: "Ragnarok", aliases: vec!["ragnarok", "rag"] },
        OfficialMapProfile { id: "valguero", name: "Valguero", alias: "val", ark_map_name: "Valguero_P", aliases: vec!["valguero", "Valguero_P", "val"] },
        OfficialMapProfile { id: "crystal-isles", name: "Crystal Isles", alias: "crystal", ark_map_name: "CrystalIsles", aliases: vec!["crystal-isles", "Crystal Isles", "CrystalIsles", "crystal"] },
        OfficialMapProfile { id: "lost-island", name: "Lost Island", alias: "lost", ark_map_name: "LostIsland", aliases: vec!["lost-island", "Lost Island", "LostIsland", "lost"] },
        OfficialMapProfile { id: "fjordur", name: "Fjordur", alias: "fjord", ark_map_name: "Fjordur", aliases: vec!["fjordur", "fjord"] },
    ];
    assert(Seq::new(v@.len(), |i: int| profile_view(v@[i])) =~~= official_table());
    v
}

// ---------------------------------------------------------------------------
// Map-name resolution
// ---------------------------------------------------------------------------

/// The ASCII letters and digits of `s`, lower-cased: the key that map names
/// are compared by.
pub open spec fn normalize(s: Seq<char>) -> Seq<char>
    decreases s.len(),
{
    if s.len() == 0 {
        Seq::empty()
    } else if is_alnum(s.last()) {
        normalize(s.drop_last()).push(lower(s.last()))
    } else {
        normalize(s.drop_last())
    }
}

/// The ASCII digits of `s`, in order.
pub open spec fn digits_of(s: Seq<char>) -> Seq<char>
    decreases s.len(),
{
    if s.len() == 0 {
        Seq::empty()
    } else if crate::text::is_digit(s.last()) {
        digits_of(s.drop_last()).push(s.last())
    } else {
        digits_of(s.drop_last())
    }
}

/// The comparison key of a map name keeps every digit of the name, in
/// order, and holds nothing but digits and lowercase ASCII letters.
pub proof fn lemma_normalize_keeps_digits(s: Seq<char>)
    ensures
        digits_of(normalize(s)) == digits_of(s),
        forall|i: int| 0 <= i < normalize(s).len() ==> crate::text::is_digit(#[trigger] normalize(s)[i])
            || crate::text::is_lower(normalize(s)[i]),
    decreases s.len(),
{
    if s.len() > 0 {
        let p = s.drop_last();
        let c = s.last();
        lemma_normalize_keeps_digits(p);
        if is_alnum(c) {
            let q = normalize(p);
            let l = lower(c);
            let r = q.push(l);
            assert(r.drop_last() =~= q);
            assert(r.last() == l);
            if crate::text::is_upper(c) {
                assert(!crate::text::is_digit(l) && crate::text::is_lower(l));
            }
            assert(crate::text::is_digit(l) == crate::text::is_digit(c));
            if crate::text::is_digit(c) {
                assert(l == c);
            }
            assert forall|i: int| 0 <= i < r.len() implies crate::text::is_digit(#[trigger] r[i])
                || crate::text::is_lower(r[i]) by {
                if i < q.len() {
                    assert(r[i] == q[i]);
                }
            }
        }
    }
}

/// Two names whose digits differ never share a comparison key, so a
/// request for `gen2` cannot resolve to a map named `gen1`.
pub proof fn lemma_names_with_other_digits_differ(a: Seq<char>, b: Seq<char>)
    requires
        digits_of(a) != digits_of(b),
    ensures
        normalize(a) != normalize(b),
{
    lemma_normalize_keeps_digits(a);
    lemma_normalize_keeps_digits(b);
}

/// A map name as compared: lowercase letters and digits only.
pub fn normalize_str(s: &str) -> (res: Vec<char>)
    ensures
        res@ == normalize(s@),
{
    let v = chars_of(s);
    let mut res: Vec<char> = Vec::new();
    let mut i: usize = 0;
    while i < v.len()
        invariant
            0 <= i <= v@.len(),
            v@ == s@,
            res@ == normalize(v@.take(i as int)),
        decreases v@.len() - i,
    {
        assert(v@.take(i + 1).drop_last() =~= v@.take(i as int));
        assert(v@.take(i + 1).last() == v@[i as int]);
        if char_is_alnum(v[i]) {
            res.push(char_lower(v[i]));
        }
        i = i + 1;
    }
    assert(v@.take(v@.len() as int) =~= v@);
    res
}

/// The extra aliases of well-known map ids.
pub open spec fn extra_aliases(id: Seq<char>) -> Seq<Seq<char>> {
    if id == "the-island"@ || id == "home-island"@ {
        seq!["island"@, "theisland"@]
    } else if id == "the-center"@ {
        seq!["center"@]
    } else if id == "scorched-earth"@ {
        seq!["scorched"@]
    } else if id == "ragnarok"@ || id == "travel-rag"@ {
        seq!["rag"@]
    } else if id == "aberration"@ || id == "travel-ab"@ {
        seq!["abb"@]
    } else if id == "valguero"@ {
        seq!["val"@]
    } else if id == "genesis-1"@ {
        seq!["gen1"@, "genesis"@]
    } else if id == "crystal-isles"@ {
        seq!["crystal"@]
    } else if id == "genesis-2"@ {
        seq!["gen2"@]
    } else if id == "lost-island"@ {
        seq!["lost"@]
    } else if id == "fjordur"@ || id == "map-fjordur"@ {
        seq!["fjord"@]
    } else {
        Seq::empty()
    }
}

/// The names a configured map answers to: its id, alias, ARK map name and
/// display name, and the extra aliases of its id.
pub open spec fn map_aliases(m: MapConfig) -> Seq<Seq<char>> {
    seq![m.id@, m.alias@, m.ark_map_name@, m.name@] + extra_aliases(m.id@)
}

fn extra_aliases_of(id: &str) -> (res: Vec<&'static str>)
    ensures
        crate::travel::strs(res@) == extra_aliases(id@),
{
    let r: Vec<&'static str> = if str_eq(id, "the-island") || str_eq(id, "home-island") {
        vec!["island", "theisland"]
    } else if str_eq(id, "the-center") {
        vec!["center"]
    } else if str_eq(id, "scorched-earth") {
        vec!["scorched"]
    } else if str_eq(id, "ragnarok") || str_eq(id, "travel-rag") {
        vec!["rag"]
    } else if str_eq(id, "aberration") || str_eq(id, "travel-ab") {
        vec!["abb"]
    } else if str_eq(id, "valguero") {
        vec!["val"]
    } else if str_eq(id, "genesis-1") {
        vec!["gen1", "genesis"]
    } else if str_eq(id, "crystal-isles") {
        vec!["crystal"]
    } else if str_eq(id, "genesis-2") {
        vec!["gen2"]
    } else if str_eq(id, "lost-island") {
        vec!["lost"]
    } else if str_eq(id, "fjordur") || str_eq(id, "map-fjordur") {
        vec!["fjord"]
    } else {
        Vec::new()
    };
    assert(strs(r@) =~~= extra_aliases(id@));
    r
}

/// Whether some name of `m` normalizes to `key`.
pub open spec fn map_answers_to(m: MapConfig, key: Seq<char>) -> bool {
    exists|k: int| 0 <= k < map_aliases(m).len() && normalize(#[trigger] map_aliases(m)[k]) == key
}

fn map_answers_to_of(m: &MapConfig, key: &Vec<char>) -> (res: bool)
    ensures
        res == map_answers_to(*m, key@),
{
    let base: Vec<&str> = vec![m.id.as_str(), m.alias.as_str(), m.ark_map_name.as_str(), m.name.as_str()];
    let extra = extra_aliases_of(m.id.as_str());
    let ghost all = map_aliases(*m);
    assert(strs(base@) =~= seq![m.id@, m.alias@, m.ark_map_name@, m.name@]);
    let mut i: usize = 0;
    while i < base.len()
        invariant
            0 <= i <= base@.len(),
            base@.len() == 4,
            all == map_aliases(*m),
            strs(base@) == all.take(4),
            forall|k: int| 0 <= k < i ==> normalize(#[trigger] all[k]) != key@,
        decreases base@.len() - i,
    {
        let n = normalize_str(base[i]);
        assert(strs(base@)[i as int] == base@[i as int]@);
        assert(all.take(4)[i as int] == all[i as int]);
        assert(all[i as int] == base@[i as int]@);
        if vec_eq(&n, key) {
            return true;
        }
        i = i + 1;
    }
    let mut j: usize = 0;
    while j < extra.len()
        invariant
            0 <= j <= extra@.len(),
            all == map_aliases(*m),
            all.len() == 4 + extra@.len(),
            strs(extra@) == extra_aliases(m.id@),
            forall|k: int| 0 <= k < 4 + j ==> normalize(#[trigger] all[k]) != key@,
        decreases extra@.len() - j,
    {
        let n = normalize_str(extra[j]);
        assert(strs(extra@)[j as int] == extra@[j as int]@);
        assert(all[4 + j] == extra_aliases(m.id@)[j as int]);
        assert(all[4 + j] == extra@[j as int]@);
        if vec_eq(&n, key) {
            return true;
        }
        j = j + 1;
    }
    false
}

/// The configured map that `raw` names, if any: the first map one of whose
/// names has the same letters and digits, ignoring ASCII case.
pub open spec fn resolved_index(c: Config, raw: Seq<char>) -> Option<int> {
    first_where(c.maps@, |m: MapConfig| map_answers_to(m, normalize(raw)))
}

/// Finds the configured map that `raw` names.
pub fn resolve_map<'a>(config: &'a Config, raw: &str) -> (res: Option<&'a MapConfig>)
    ensures
        match resolved_index(*config, raw@) {
            Some(i) => res matches Some(m) && *m == config.maps@[i],
            None => res is None,
        },
{
    let key = normalize_str(raw);
    let ghost p = |m: MapConfig| map_answers_to(m, normalize(raw@));
    let mut i: usize = 0;
    while i < config.maps.len()
        invariant
            0 <= i <= config.maps@.len(),
            key@ == normalize(raw@),
            p == (|m: MapConfig| map_answers_to(m, normalize(raw@))),
            forall|j: int| 0 <= j < i ==> !p(#[trigger] config.maps@[j]),
        decreases config.maps@.len() - i,
    {
        if map_answers_to_of(&config.maps[i], &key) {
            proof {
                lemma_first_where_at(config.maps@, p, i as int);
            }
            return Some(&config.maps[i]);
        }
        i = i + 1;
    }
    proof {
        lemma_first_where_none(config.maps@, p);
    }
    None
}

/// The names by which official maps are recognized.
pub open spec fn official_alias_list() -> Seq<Seq<char>> {
    seq![
        "the-island"@, "The Island"@, "TheIsland"@, "island"@,
        "scorched-earth"@, "Scorched Earth"@, "ScorchedEarth_P"@, "scorched"@,
        "aberration"@, "Aberration_P"@, "abb"@,
        "extinction"@,
        "genesis-1"@, "Genesis: Part 1"@, "Genesis"@, "gen1"@,
        "genesis-2"@, "Genesis: Part 2"@, "Gen2"@, "gen2"@,
        "the-center"@, "The Center"@, "TheCenter"@, "center"@,
        "ragnarok"@, "rag"@,
        "valguero"@, "Valguero_P"@, "val"@,
        "crystal-isles"@, "Crystal Isles"@, "CrystalIsles"@, "crystal"@,
        "lost-island"@, "Lost Island"@, "LostIsland"@, "lost"@,
        "fjordur"@, "fjord"@,
    ]
}

fn official_aliases() -> (res: Vec<&'static str>)
    ensures
        strs(res@) == official_alias_list(),
{
    let v: Vec<&'static str> = vec![
        "the-island", "The Island", "TheIsland", "island",
        "scorched-earth", "Scorched Earth", "ScorchedEarth_P", "scorched",
        "aberration", "Aberration_P", "abb",
        "extinction",
        "genesis-1", "Genesis: Part 1", "Genesis", "gen1",
        "genesis-2", "Genesis: Part 2", "Gen2", "gen2",
        "the-center", "The Center", "TheCenter", "center",
        "ragnarok", "rag",
        "valguero", "Valguero_P", "val",
        "crystal-isles", "Crystal Isles", "CrystalIsles", "crystal",
        "lost-island", "Lost Island", "LostIsland", "lost",
        "fjordur", "fjord",
    ];
    assert(strs(v@) =~~= official_alias_list());
    v
}

/// Whether `raw` names an official map (configured or not).
pub open spec fn is_official_name(raw: Seq<char>) -> bool {
    exists|k: int| 0 <= k < official_alias_list().len() && normalize(#[trigger] official_alias_list()[k]) == normalize(raw)
}

/// Whether a name is one of the official maps.
pub fn known_official_map(raw: &str) -> (res: bool)
    ensures
        res == is_official_name(raw@),
{
    let key = normalize_str(raw);
    let all = official_aliases();
    let mut i: usize = 0;
    while i < all.len()
        invariant
            0 <= i <= all@.len(),
            strs(all@) == official_alias_list(),
            key@ == normalize(raw@),
            forall|k: int| 0 <= k < i ==> normalize(#[trigger] official_alias_list()[k]) != normalize(raw@),
        decreases all@.len() - i,
    {
        let n = normalize_str(all[i]);
        assert(strs(all@)[i as int] == all@[i as int]@);
        assert(official_alias_list()[i as int] == all@[i as int]@);
        if vec_eq(&n, &key) {
            return true;
        }
        i = i + 1;
    }
    false
}

// ---------------------------------------------------------------------------
// Travel requests
// ---------------------------------------------------------------------------

/// A request to travel to a map.
#[derive(Clone, Debug)]
pub struct TravelRequestBody {
    pub map: String,
    pub source: String,
    pub actor: String,
    pub actor_discord_id: Option<String>,
}

/// The answer to a travel request.
#[derive(Clone, Debug)]
pub struct TravelDecision {
    pub id: String,
    pub accepted: bool,
    pub requested_map: String,
    pub resolved_map: Option<String>,
    pub resolved_map_name: Option<String>,
    pub chosen_slot: Option<String>,
    pub status: String,
    pub reason: String,
    pub user_message: String,
    pub connect_host: Option<String>,
    pub game_port: Option<u16>,
    pub query_port: Option<u16>,
    pub connection_address: Option<String>,
    pub query_address: Option<String>,
    pub connection_source: Option<String>,
    pub connection_available: bool,
    pub connection_unavailable_reason: Option<String>,
    pub resource_warning: Option<String>,
}

/// What is known of one configured slot when a request is decided.
#[derive(Clone, Debug)]
pub struct SlotStatusSnapshot {
    pub slot: ServerSlot,
    pub key: &'static str,
    pub status: UnitStatus,
    pub player_count: Option<u32>,
}

/// The map a slot runs.
pub open spec fn effective_map(slot: ServerSlot) -> Seq<char> {
    slot.map_key@
}

/// The id of the map that `slot` runs: its configured map key.
pub fn effective_slot_map_id(config: &Config, slot: &ServerSlot) -> (res: String)
    ensures
        res@ == effective_map(*slot),
{
    slot.map_key.clone()
}

/// `d` carries exactly the given outcome, with the reason as the message
/// for the player and no connection details.
pub open spec fn decision_is(
    d: TravelDecision,
    id: Seq<char>,
    requested: Seq<char>,
    accepted: bool,
    resolved: Option<Seq<char>>,
    resolved_name: Option<Seq<char>>,
    chosen: Option<Seq<char>>,
    status: Seq<char>,
    reason: Seq<char>,
) -> bool {
    &&& d.id@ == id
    &&& d.accepted == accepted
    &&& d.requested_map@ == requested
    &&& opt_str(d.resolved_map) == resolved
    &&& opt_str(d.resolved_map_name) == resolved_name
    &&& opt_str(d.chosen_slot) == chosen
    &&& d.status@ == status
    &&& d.reason@ == reason
    &&& d.user_message@ == reason
    &&& d.connect_host is None && d.game_port is None && d.query_port is None
    &&& d.connection_address is None && d.query_address is None && d.connection_source is None
    &&& !d.connection_available && d.connection_unavailable_reason is None
    &&& d.resource_warning is None
}

pub open spec fn online_with(map_id: Seq<char>) -> spec_fn(SlotStatusSnapshot) -> bool {
    |s: SlotStatusSnapshot| s.slot.map_key@ == map_id && s.status.active
}

pub open spec fn free_travel_slot() -> spec_fn(SlotStatusSnapshot) -> bool {
    |s: SlotStatusSnapshot| s.key@ != "home"@ && !s.status.active
}

pub open spec fn empty_travel_slot() -> spec_fn(SlotStatusSnapshot) -> bool {
    |s: SlotStatusSnapshot| s.key@ != "home"@ && s.status.active && s.player_count == Some(0u32)
}

/// The decision on request `req` with slots `st`, and the slot key the
/// history records: an unknown map is rejected; with the scheduler off the
/// request is blocked; a map already running is reported online; else the
/// first stopped travel slot is chosen, else the first running travel slot
/// with a confirmed count of zero players is reused, else the request waits.
pub open spec fn is_travel_decision(
    d: TravelDecision,
    key: Seq<char>,
    c: Config,
    req: TravelRequestBody,
    st: Seq<SlotStatusSnapshot>,
    id: Seq<char>,
) -> bool {
    let rq = req.map@;
    match resolved_index(c, rq) {
        None => key == Seq::<char>::empty() && decision_is(d, id, rq, false, None, None, None, "rejected"@,
            if is_official_name(rq) {
                "official map is not configured in this cluster"@
            } else {
                "unknown map"@
            }),
        Some(i) => {
            let m = c.maps@[i];
            let rm = Some(m.id@);
            let rn = Some(m.name@);
            if !c.operations.travel_scheduler_enabled {
                key == Seq::<char>::empty() && decision_is(d, id, rq, false, rm, rn, None, "blocked"@,
                    "travel scheduler disabled in manager config"@)
            } else {
                match first_where(st, online_with(m.id@)) {
                    Some(j) => key == st[j].key@ && decision_is(d, id, rq, true, rm, rn, Some(st[j].slot.id@),
                        "already_online"@, "map already online in "@ + st[j].key@),
                    None => match first_where(st, free_travel_slot()) {
                        Some(j) => key == st[j].key@ && decision_is(d, id, rq, true, rm, rn, Some(st[j].slot.id@),
                            "accepted"@, "free travel slot "@ + st[j].key@ + " selected"@),
                        None => match first_where(st, empty_travel_slot()) {
                            Some(j) => key == st[j].key@ && decision_is(d, id, rq, true, rm, rn,
                                Some(st[j].slot.id@), "accepted_reuse_empty_slot"@,
                                "empty active travel slot can be backed up and reused"@),
                            None => key == Seq::<char>::empty() && decision_is(d, id, rq, false, rm, rn, None,
                                "queued"@, "both travel slots have active players"@),
                        },
                    },
                }
            }
        },
    }
}

fn make_decision(
    id: String,
    requested: &String,
    accepted: bool,
    map: Option<&MapConfig>,
    chosen: Option<String>,
    status: &str,
    reason: String,
) -> (d: TravelDecision)
    ensures
        decision_is(
            d,
            id@,
            requested@,
            accepted,
            match map {
                Some(m) => Some(m.id@),
                None => None,
            },
            match map {
                Some(m) => Some(m.name@),
                None => None,
            },
            opt_str(chosen),
            status@,
            reason@,
        ),
{
    let (resolved, resolved_name) = match map {
        Some(m) => (Some(m.id.clone()), Some(m.name.clone())),
        None => (None, None),
    };
    let user_message = reason.clone();
    TravelDecision {
        id,
        accepted,
        requested_map: requested.clone(),
        resolved_map: resolved,
        resolved_map_name: resolved_name,
        chosen_slot: chosen,
        status: owned(status),
        reason,
        user_message,
        connect_host: None,
        game_port: None,
        query_port: None,
        connection_address: None,
        query_address: None,
        connection_source: None,
        connection_available: false,
        connection_unavailable_reason: None,
        resource_warning: None,
    }
}

fn first_index(st: &Vec<SlotStatusSnapshot>, kind: u8, map_id: &str) -> (res: Option<usize>)
    requires
        kind < 3,
    ensures
        ({
            let p = if kind == 0 {
                online_with(map_id@)
            } else if kind == 1 {
                free_travel_slot()
            } else {
                empty_travel_slot()
            };
            match first_where(st@, p) {
                Some(j) => res matches Some(k) && k as int == j,
                None => res is None,
            }
        }),
        res matches Some(k) ==> k < st@.len(),
{
    let ghost p = if kind == 0 {
        online_with(map_id@)
    } else if kind == 1 {
        free_travel_slot()
    } else {
        empty_travel_slot()
    };
    let mut i: usize = 0;
    while i < st.len()
        invariant
            0 <= i <= st@.len(),
            kind < 3,
            p == (if kind == 0 {
                online_with(map_id@)
            } else if kind == 1 {
                free_travel_slot()
            } else {
                empty_travel_slot()
            }),
            forall|j: int| 0 <= j < i ==> !p(#[trigger] st@[j]),
        decreases st@.len() - i,
    {
        let s = &st[i];
        let hit = if kind == 0 {
            str_eq(s.slot.map_key.as_str(), map_id) && s.status.active
        } else if kind == 1 {
            !str_eq(s.key, "home") && !s.status.active
        } else {
            !str_eq(s.key, "home") && s.status.active && s.player_count == Some(0u32)
        };
        assert(hit == p(st@[i as int]));
        if hit {
            proof {
                lemma_first_where_at(st@, p, i as int);
            }
            return Some(i);
        }
        i = i + 1;
    }
    proof {
        lemma_first_where_none(st@, p);
    }
    None
}

/// Decides a travel request; the second result is the slot key to record
/// in the travel history (empty when no slot is involved).
pub fn decide(config: &Config, req: &TravelRequestBody, statuses: &Vec<SlotStatusSnapshot>, id: String) -> (res: (
    TravelDecision,
    &'static str,
))
    ensures
        is_travel_decision(res.0, res.1@, *config, *req, statuses@, id@),
{
    proof {
        reveal_strlit("");
        assert(""@ =~= Seq::<char>::empty());
    }
    let map = match resolve_map(config, req.map.as_str()) {
        Some(m) => m,
        None => {
            let reason = if known_official_map(req.map.as_str()) {
                owned("official map is not configured in this cluster")
            } else {
                owned("unknown map")
            };
            return (make_decision(id, &req.map, false, None, None, "rejected", reason), "");
        },
    };
    if !config.operations.travel_scheduler_enabled {
        return (
            make_decision(
                id,
                &req.map,
                false,
                Some(map),
                None,
                "blocked",
                owned("travel scheduler disabled in manager config"),
            ),
            "",
        );
    }
    match first_index(statuses, 0, map.id.as_str()) {
        Some(j) => {
            let s = &statuses[j];
            let d = make_decision(
                id,
                &req.map,
                true,
                Some(map),
                Some(s.slot.id.clone()),
                "already_online",
                cat2("map already online in ", s.key),
            );
            assert(first_where(statuses@, online_with(map.id@)) == Some(j as int));
            assert(is_travel_decision(d, s.key@, *config, *req, statuses@, id@));
            return (d, s.key);
        },
        None => {},
    }
    match first_index(statuses, 1, "") {
        Some(j) => {
            let s = &statuses[j];
            let mut reason = cat2("free travel slot ", s.key);
            crate::text::append(&mut reason, " selected");
            let d = make_decision(id, &req.map, true, Some(map), Some(s.slot.id.clone()), "accepted", reason);
            return (d, s.key);
        },
        None => {},
    }
    match first_index(statuses, 2, "") {
        Some(j) => {
            let s = &statuses[j];
            let d = make_decision(
                id,
                &req.map,
                true,
                Some(map),
                Some(s.slot.id.clone()),
                "accepted_reuse_empty_slot",
                owned("empty active travel slot can be backed up and reused"),
            );
            (d, s.key)
        },
        None => (
            make_decision(
                id,
                &req.map,
                false,
                Some(map),
                None,
                "queued",
                owned("both travel slots have active players"),
            ),
            "",
        ),
    }
}

// ---------------------------------------------------------------------------
// Official maps for external nodes
// ---------------------------------------------------------------------------

/// What `str::to_lowercase` (full Unicode lower-casing) makes of a text.
pub uninterp spec fn unicode_lowercase(s: Seq<char>) -> Seq<char>;

/// `str::to_lowercase`. Its result is named: Unicode case mapping takes
/// tables to state.
#[verifier::external_body]
fn to_lowercase(s: &str) -> (res: String)
    ensures
        res@ == unicode_lowercase(s@),
{
    s.to_lowercase()
}

/// Whether the official map `p` answers to the lower-cased request `lower`.
pub open spec fn profile_answers(
    p: (Seq<char>, Seq<char>, Seq<char>, Seq<char>, Seq<Seq<char>>),
    lower: Seq<char>,
) -> bool {
    (exists|k: int| 0 <= k < p.4.len() && unicode_lowercase(#[trigger] p.4[k]) == lower) || p.0 == lower
        || unicode_lowercase(p.3) == lower
}

fn profile_answers_of(p: &OfficialMapProfile, lower: &str) -> (res: bool)
    ensures
        res == profile_answers(profile_view(*p), lower@),
{
    let mut k: usize = 0;
    while k < p.aliases.len()
        invariant
            0 <= k <= p.aliases@.len(),
            forall|j: int| 0 <= j < k ==> unicode_lowercase(#[trigger] strs(p.aliases@)[j]) != lower@,
        decreases p.aliases@.len() - k,
    {
        let l = to_lowercase(p.aliases[k]);
        assert(strs(p.aliases@)[k as int] == p.aliases@[k as int]@);
        if str_eq(l.as_str(), lower) {
            assert(unicode_lowercase(strs(p.aliases@)[k as int]) == lower@);
            assert(profile_view(*p).4 == strs(p.aliases@));
            return true;
        }
        k = k + 1;
    }
    if str_eq(p.id, lower) {
        return true;
    }
    let a = to_lowercase(p.ark_map_name);
    str_eq(a.as_str(), lower)
}

/// The official map that `input` names, compared after Unicode lower-casing
/// against its aliases, its id and its ARK map name.
pub fn resolve_map_profile(input: &str) -> (res: Option<OfficialMapProfile>)
    ensures
        match first_where(official_table(), |p: (Seq<char>, Seq<char>, Seq<char>, Seq<char>, Seq<Seq<char>>)| profile_answers(p, unicode_lowercase(input@))) {
            Some(i) => res matches Some(p) && profile_view(p) == official_table()[i],
            None => res is None,
        },
{
    let lower = to_lowercase(input);
    let mut maps = official_maps();
    let ghost table = official_table();
    let ghost pred = |p: (Seq<char>, Seq<char>, Seq<char>, Seq<char>, Seq<Seq<char>>)| profile_answers(p, unicode_lowercase(input@));
    let mut i: usize = 0;
    while i < maps.len()
        invariant
            0 <= i <= maps@.len(),
            Seq::new(maps@.len(), |j: int| profile_view(maps@[j])) == table,
            table == official_table(),
            lower@ == unicode_lowercase(input@),
            pred == (|p: (Seq<char>, Seq<char>, Seq<char>, Seq<char>, Seq<Seq<char>>)| profile_answers(p, unicode_lowercase(input@))),
            forall|j: int| 0 <= j < i ==> !pred(#[trigger] table[j]),
        decreases maps@.len() - i,
    {
        assert(table[i as int] == profile_view(maps@[i as int]));
        if profile_answers_of(&maps[i], lower.as_str()) {
            proof {
                lemma_first_where_at(table, pred, i as int);
            }
            let p = maps.remove(i);
            return Some(p);
        }
        i = i + 1;
    }
    proof {
        lemma_first_where_none(table, pred);
    }
    None
}

/// The travel page's state.
#[derive(Clone, Debug)]
pub struct TravelState {
    pub enabled: bool,
    pub idle_shutdown_secs: u32,
    pub max_travel_servers: u32,
    pub home_standby_enabled: bool,
    pub slots: Vec<TravelSlotState>,
    pub recent: Vec<TravelHistoryRow>,
}

/// One slot on the travel page.
#[derive(Clone, Debug)]
pub struct TravelSlotState {
    pub slot_id: String,
    pub role: String,
    pub map_key: String,
    pub unit: String,
    pub systemd: String,
    pub active: bool,
    pub player_count: Option<u32>,
    pub idle_shutdown_secs: u32,
    pub policy: String,
}

/// One travel request in the history.
#[derive(Clone, Debug)]
pub struct TravelHistoryRow {
    pub id: String,
    pub ts: String,
    pub source: String,
    pub actor: String,
    pub requested_map: String,
    pub resolved_map: String,
    pub chosen_slot: String,
    pub status: String,
    pub reason: String,
    pub detail: String,
}

/// A slot as the travel page lists it: role from its key, the map it runs,
/// its unit state, and whether it is protected or on demand.
pub fn travel_slot_state(config: &Config, snapshot: &SlotStatusSnapshot) -> (res: TravelSlotState)
    ensures
        res.slot_id == snapshot.slot.id,
        res.role@ == (if snapshot.key@ == "home"@ { "Home"@ } else { "On-demand"@ }),
        res.map_key@ == effective_map(snapshot.slot),
        res.unit == snapshot.slot.systemd_unit,
        res.systemd == snapshot.status.state,
        res.active == snapshot.status.active,
        res.player_count == snapshot.player_count,
        res.idle_shutdown_secs == config.operations.travel_idle_shutdown_secs,
        res.policy@ == (if snapshot.slot.protected { "protected"@ } else { "on_demand"@ }),
{
    TravelSlotState {
        slot_id: snapshot.slot.id.clone(),
        role: owned(crate::maps::slot_role_label(snapshot.key)),
        map_key: effective_slot_map_id(config, &snapshot.slot),
        unit: snapshot.slot.systemd_unit.clone(),
        systemd: snapshot.status.state.clone(),
        active: snapshot.status.active,
        player_count: snapshot.player_count,
        idle_shutdown_secs: config.operations.travel_idle_shutdown_secs,
        policy: if snapshot.slot.protected { owned("protected") } else { owned("on_demand") },
    }
}

/// The snapshot of a slot: its count is what RCON knows while the unit is
/// active, and zero while it is stopped.
pub fn slot_snapshot(
    slot: &ServerSlot,
    key: &'static str,
    status: crate::systemd::UnitStatus,
    runtime: &crate::rcon::RconRuntimeState,
) -> (res: SlotStatusSnapshot)
    ensures
        res.slot == *slot,
        res.key == key,
        res.status == status,
        res.player_count == (if status.active {
            match crate::rcon::slot_index(runtime.slots@, slot.id@) {
                Some(i) => if runtime.slots@[i].active { runtime.slots@[i].player_count } else { None },
                None => None,
            }
        } else {
            Some(0u32)
        }),
{
    let count = if status.active {
        runtime.player_count(slot.id.as_str())
    } else {
        Some(0)
    };
    SlotStatusSnapshot { slot: crate::config::copy_slot(slot), key, status, player_count: count }
}

/// With the travel scheduler off no request is accepted.
pub proof fn lemma_scheduler_off_accepts_nothing(
    d: TravelDecision,
    key: Seq<char>,
    c: Config,
    req: TravelRequestBody,
    st: Seq<SlotStatusSnapshot>,
    id: Seq<char>,
)
    requires
        is_travel_decision(d, key, c, req, st, id),
        !c.operations.travel_scheduler_enabled,
    ensures
        !d.accepted,
        d.chosen_slot is None,
{
}

/// An accepted request that starts or reuses a slot picks a travel slot
/// that is stopped or has a confirmed count of zero players: a travel
/// request never takes over Home or a map with players.
pub proof fn lemma_accepted_slot_is_free(
    d: TravelDecision,
    key: Seq<char>,
    c: Config,
    req: TravelRequestBody,
    st: Seq<SlotStatusSnapshot>,
    id: Seq<char>,
)
    requires
        is_travel_decision(d, key, c, req, st, id),
        d.accepted,
        d.status@ != "already_online"@,
    ensures
        exists|j: int| 0 <= j < st.len() && opt_str(d.chosen_slot) == Some(#[trigger] st[j].slot.id@)
            && st[j].key@ != "home"@ && (!st[j].status.active || st[j].player_count == Some(0u32)),
{
    match resolved_index(c, req.map@) {
        None => {},
        Some(i) => {
            let m = c.maps@[i];
            if c.operations.travel_scheduler_enabled {
                match first_where(st, online_with(m.id@)) {
                    Some(j) => {},
                    None => match first_where(st, free_travel_slot()) {
                        Some(j) => {
                            crate::text::lemma_first_where_some(st, free_travel_slot());
                            assert(free_travel_slot()(st[j]));
                        },
                        None => match first_where(st, empty_travel_slot()) {
                            Some(j) => {
                                crate::text::lemma_first_where_some(st, empty_travel_slot());
                                assert(empty_travel_slot()(st[j]));
                            },
                            None => {},
                        },
                    },
                }
            }
        },
    }
}


/// A request answered as already online names a slot whose unit is
/// running and runs the requested map: a stopped slot is never reported
/// online, so it is started instead.
pub proof fn lemma_already_online_slot_is_running(
    d: TravelDecision,
    key: Seq<char>,
    c: Config,
    req: TravelRequestBody,
    st: Seq<SlotStatusSnapshot>,
    id: Seq<char>,
)
    requires
        is_travel_decision(d, key, c, req, st, id),
        d.status@ == "already_online"@,
    ensures
        exists|j: int| 0 <= j < st.len() && opt_str(d.chosen_slot) == Some(#[trigger] st[j].slot.id@)
            && st[j].status.active && opt_str(d.resolved_map) == Some(st[j].slot.map_key@),
{
    reveal_strlit("already_online");
    reveal_strlit("rejected");
    reveal_strlit("blocked");
    reveal_strlit("accepted");
    reveal_strlit("accepted_reuse_empty_slot");
    reveal_strlit("queued");
    match resolved_index(c, req.map@) {
        None => {
            assert("rejected"@.len() != "already_online"@.len());
        },
        Some(i) => {
            let m = c.maps@[i];
            if !c.operations.travel_scheduler_enabled {
                assert("blocked"@.len() != "already_online"@.len());
            } else {
                match first_where(st, online_with(m.id@)) {
                    Some(j) => {
                        crate::text::lemma_first_where_some(st, online_with(m.id@));
                        assert(online_with(m.id@)(st[j]));
                    },
                    None => match first_where(st, free_travel_slot()) {
                        Some(j) => {
                            assert("accepted"@.len() != "already_online"@.len());
                        },
                        None => match first_where(st, empty_travel_slot()) {
                            Some(j) => {
                                assert("accepted_reuse_empty_slot"@.len() != "already_online"@.len());
                            },
                            None => {
                                assert("queued"@.len() != "already_online"@.len());
                            },
                        },
                    },
                }
            }
        },
    }
}

} // verus!
