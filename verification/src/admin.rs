//! Administrative changes the manager accepts: recording mods, queueing ARK
//! updates and choosing the Home map. Each checks the operation flag and
//! the confirmation first and says exactly what is written.
use vstd::prelude::*;
use crate::config::{Config, MapConfig};
use crate::text::{append, cat2, cat3, chars_of, eq_ignore_case, eq_ignore_case_str, is_blank, is_digit, owned, str_eq, trim, decimal, u64_to_string};

verus! {

// ---------------------------------------------------------------------------
// Mods
// ---------------------------------------------------------------------------

/// A request to record a Steam Workshop mod.
#[derive(Clone, Debug)]
pub struct ModMutation {
    pub workshop_id: String,
    pub confirm: bool,
}

/// A mod as stored.
#[derive(Clone, Debug)]
pub struct ModRecord {
    pub workshop_id: String,
    pub name: String,
    pub enabled: i64,
    pub installed: i64,
    pub load_order: i64,
    pub last_updated: Option<String>,
    pub status: String,
    pub error: Option<String>,
}

/// Why a mod change was refused or failed.
#[derive(Clone, Debug)]
pub enum ModError {
    Disabled,
    InvalidConfirmation,
    InvalidWorkshopId,
    Db(String),
}

pub open spec fn mod_error_code(e: ModError) -> Seq<char> {
    match e {
        ModError::Disabled => "MOD_MANAGEMENT_DISABLED"@,
        ModError::InvalidConfirmation => "INVALID_CONFIRMATION"@,
        ModError::InvalidWorkshopId => "INVALID_WORKSHOP_ID"@,
        ModError::Db(_) => "OPERATION_FAILED"@,
    }
}

pub open spec fn mod_error_message(e: ModError) -> Seq<char> {
    match e {
        ModError::Disabled => "mod management disabled in manager config"@,
        ModError::InvalidConfirmation => "explicit confirmation required"@,
        ModError::InvalidWorkshopId => "invalid workshop id"@,
        ModError::Db(m) => "database error: "@ + m@,
    }
}

impl ModError {
    /// The stable error code the API reports.
    pub fn code(&self) -> (res: &'static str)
        ensures
            res@ == mod_error_code(*self),
    {
        match self {
            ModError::Disabled => "MOD_MANAGEMENT_DISABLED",
            ModError::InvalidConfirmation => "INVALID_CONFIRMATION",
            ModError::InvalidWorkshopId => "INVALID_WORKSHOP_ID",
            ModError::Db(_) => "OPERATION_FAILED",
        }
    }

    /// The human-readable error message.
    pub fn message(&self) -> (res: String)
        ensures
            res@ == mod_error_message(*self),
    {
        match self {
            ModError::Disabled => owned("mod management disabled in manager config"),
            ModError::InvalidConfirmation => owned("explicit confirmation required"),
            ModError::InvalidWorkshopId => owned("invalid workshop id"),
            ModError::Db(m) => cat2("database error: ", m.as_str()),
        }
    }
}

/// The row written for a recorded mod change.
#[derive(Clone, Debug)]
pub struct ModWrite {
    pub workshop_id: String,
    pub name: String,
    pub enabled: i64,
    pub installed: i64,
    pub status: String,
}

/// A workshop id made of ASCII digits only (the empty id passes).
pub open spec fn digits_only(s: Seq<char>) -> bool {
    forall|i: int| 0 <= i < s.len() ==> is_digit(#[trigger] s[i])
}

fn digits_only_of(s: &str) -> (res: bool)
    ensures
        res == digits_only(s@),
{
    let v = chars_of(s);
    let mut i: usize = 0;
    while i < v.len()
        invariant
            0 <= i <= v@.len(),
            v@ == s@,
            forall|j: int| 0 <= j < i ==> is_digit(#[trigger] v@[j]),
        decreases v@.len() - i,
    {
        if !crate::text::char_is_digit(v[i]) {
            return false;
        }
        i = i + 1;
    }
    true
}

/// The row a mod change writes, or why it is refused: mod management must
/// be on, the change confirmed and the workshop id digits only. Enabling or
/// adding enables the mod; removing marks it not installed.
pub fn mod_mutation_plan(config: &Config, req: &ModMutation, action: &str) -> (res: Result<ModWrite, ModError>)
    ensures
        !config.operations.mod_management_enabled ==> res matches Err(ModError::Disabled),
        config.operations.mod_management_enabled && !req.confirm ==> res matches Err(ModError::InvalidConfirmation),
        config.operations.mod_management_enabled && req.confirm && !digits_only(req.workshop_id@)
            ==> res matches Err(ModError::InvalidWorkshopId),
        config.operations.mod_management_enabled && req.confirm && digits_only(req.workshop_id@) ==> (res matches Ok(w)
            && w.workshop_id@ == req.workshop_id@
            && w.name@ == "Workshop "@ + req.workshop_id@
            && w.enabled == (if action@ == "enable"@ || action@ == "add"@ { 1i64 } else { 0i64 })
            && w.installed == (if action@ == "remove"@ { 0i64 } else { 1i64 })
            && w.status@ == action@ + "_recorded"@),
{
    if !config.operations.mod_management_enabled {
        return Err(ModError::Disabled);
    }
    if !req.confirm {
        return Err(ModError::InvalidConfirmation);
    }
    if !digits_only_of(req.workshop_id.as_str()) {
        return Err(ModError::InvalidWorkshopId);
    }
    Ok(ModWrite {
        workshop_id: req.workshop_id.clone(),
        name: cat2("Workshop ", req.workshop_id.as_str()),
        enabled: if str_eq(action, "enable") || str_eq(action, "add") { 1 } else { 0 },
        installed: if str_eq(action, "remove") { 0 } else { 1 },
        status: cat2(action, "_recorded"),
    })
}

// ---------------------------------------------------------------------------
// ARK server updates
// ---------------------------------------------------------------------------

/// A request to update the ARK server.
#[derive(Clone, Debug)]
pub struct MaintenanceRequest {
    pub dry_run: bool,
    pub confirm: bool,
    pub reason: String,
}

/// Why an update request was refused or failed.
#[derive(Clone, Debug)]
pub enum MaintenanceError {
    Disabled,
    InvalidConfirmation,
    Db(String),
}

pub open spec fn maintenance_error_code(e: MaintenanceError) -> Seq<char> {
    match e {
        MaintenanceError::Disabled => "MAINTENANCE_DISABLED"@,
        MaintenanceError::InvalidConfirmation => "INVALID_CONFIRMATION"@,
        MaintenanceError::Db(_) => "OPERATION_FAILED"@,
    }
}

pub open spec fn maintenance_error_message(e: MaintenanceError) -> Seq<char> {
    match e {
        MaintenanceError::Disabled => "ARK maintenance disabled in manager config"@,
        MaintenanceError::InvalidConfirmation => "explicit confirmation required"@,
        MaintenanceError::Db(m) => "database error: "@ + m@,
    }
}

impl MaintenanceError {
    /// The stable error code the API reports.
    pub fn code(&self) -> (res: &'static str)
        ensures
            res@ == maintenance_error_code(*self),
    {
        match self {
            MaintenanceError::Disabled => "MAINTENANCE_DISABLED",
            MaintenanceError::InvalidConfirmation => "INVALID_CONFIRMATION",
            MaintenanceError::Db(_) => "OPERATION_FAILED",
        }
    }

    /// The human-readable error message.
    pub fn message(&self) -> (res: String)
        ensures
            res@ == maintenance_error_message(*self),
    {
        match self {
            MaintenanceError::Disabled => owned("ARK maintenance disabled in manager config"),
            MaintenanceError::InvalidConfirmation => owned("explicit confirmation required"),
            MaintenanceError::Db(m) => cat2("database error: ", m.as_str()),
        }
    }
}

/// The maintenance job an accepted update request records.
#[derive(Clone, Debug)]
pub struct MaintenanceJob {
    pub id: String,
    pub status: String,
    pub detail: String,
}

/// The job an ARK update request records at time `now`, or why it is
/// refused: maintenance must be on, and a real run must be confirmed (a
/// dry run needs no confirmation).
pub fn ark_update_plan(config: &Config, req: &MaintenanceRequest, now: u64) -> (res: Result<MaintenanceJob, MaintenanceError>)
    ensures
        !config.operations.maintenance_enabled ==> res matches Err(MaintenanceError::Disabled),
        config.operations.maintenance_enabled && !req.dry_run && !req.confirm ==> res matches Err(
            MaintenanceError::InvalidConfirmation,
        ),
        config.operations.maintenance_enabled && (req.dry_run || req.confirm) ==> (res matches Ok(j)
            && j.id@ == "maint-"@ + decimal(now as nat)
            && j.status@ == (if req.dry_run { "dry_run_ready"@ } else { "queued"@ })
            && j.detail@ == (if req.dry_run {
                "dry run only; no SteamCMD process started"@
            } else {
                "real update should be run by deploy script after backups"@
            })),
{
    if !config.operations.maintenance_enabled {
        return Err(MaintenanceError::Disabled);
    }
    if !req.dry_run && !req.confirm {
        return Err(MaintenanceError::InvalidConfirmation);
    }
    let n = u64_to_string(now);
    Ok(MaintenanceJob {
        id: cat2("maint-", n.as_str()),
        status: if req.dry_run { owned("dry_run_ready") } else { owned("queued") },
        detail: if req.dry_run {
            owned("dry run only; no SteamCMD process started")
        } else {
            owned("real update should be run by deploy script after backups")
        },
    })
}

// ---------------------------------------------------------------------------
// Choosing the Home map
// ---------------------------------------------------------------------------

/// A request to run another map on the Home slot.
#[derive(Clone, Debug)]
pub struct SetMapBody {
    pub map_id: String,
    pub confirm: bool,
    pub reason: String,
}

/// The file the Home slot reads its map override from.
pub const HOME_OVERRIDE_PATH: &'static str = "/var/lib/ark-cluster-manager/runtime-slots/home.env";

/// What setting the Home map writes and reports.
#[derive(Clone, Debug)]
pub struct HomeOverride {
    pub map_id: String,
    pub ark_map_name: String,
    /// The content of the override file.
    pub content: String,
    pub reason: String,
    pub message: String,
}

/// Why setting the Home map was refused: HTTP status, code, message.
#[derive(Clone, Debug)]
pub struct Refusal {
    pub status: u16,
    pub code: String,
    pub message: String,
}

/// The configured map a Home request names: by id, alias, or ARK map name
/// ignoring ASCII case.
pub open spec fn names_map(m: MapConfig, id: Seq<char>) -> bool {
    m.id@ == id || m.alias@ == id || eq_ignore_case(m.ark_map_name@, id)
}

pub open spec fn names_map_pred(id: Seq<char>) -> spec_fn(MapConfig) -> bool {
    |m: MapConfig| names_map(m, id)
}

pub open spec fn home_target(c: Config, id: Seq<char>) -> Option<int> {
    crate::text::first_where(c.maps@, names_map_pred(id))
}

/// The outcome of a Home map request.
pub open spec fn home_override_outcome(c: Config, body: SetMapBody) -> Result<(int, Seq<char>), (u16, Seq<char>, Seq<char>)> {
    if !c.operations.systemd_control_enabled {
        Err((403, "CONTROL_DISABLED"@, "systemd control is disabled"@))
    } else if !body.confirm {
        Err((400, "INVALID_CONFIRMATION"@, "confirm must be true"@))
    } else {
        match home_target(c, body.map_id@) {
            None => Err((404, "NOT_FOUND"@, "map '"@ + body.map_id@ + "' not found"@)),
            Some(i) => if !c.maps@[i].can_be_home {
                Err((400, "HOME_PROTECTED"@, "map '"@ + c.maps@[i].id@ + "' has can_be_home = false"@))
            } else {
                Ok((i, if trim(body.reason@).len() == 0 { "discord_home_set_map"@ } else { body.reason@ }))
            },
        }
    }
}

fn find_home_target(config: &Config, id: &str) -> (res: Option<usize>)
    ensures
        match home_target(*config, id@) {
            Some(i) => res matches Some(k) && k as int == i && i < config.maps@.len(),
            None => res is None,
        },
{
    let ghost p = names_map_pred(id@);
    let mut i: usize = 0;
    while i < config.maps.len()
        invariant
            0 <= i <= config.maps@.len(),
            p == names_map_pred(id@),
            forall|j: int| 0 <= j < i ==> !p(#[trigger] config.maps@[j]),
        decreases config.maps@.len() - i,
    {
        let m = &config.maps[i];
        if str_eq(m.id.as_str(), id) || str_eq(m.alias.as_str(), id) || eq_ignore_case_str(m.ark_map_name.as_str(), id) {
            proof {
                crate::text::lemma_first_where_at(config.maps@, p, i as int);
            }
            return Some(i);
        }
        i = i + 1;
    }
    proof {
        crate::text::lemma_first_where_none(config.maps@, p);
    }
    None
}

/// What setting the Home map writes, or why it is refused: systemd control
/// must be on, the request confirmed, the map configured and allowed on
/// Home. The override file holds `ARK_MAP=<ark map name>` and a newline.
pub fn home_set_map_plan(config: &Config, body: &SetMapBody) -> (res: Result<HomeOverride, Refusal>)
    ensures
        match (res, home_override_outcome(*config, *body)) {
            (Ok(o), Ok((i, reason))) => {
                let m = config.maps@[i];
                &&& o.map_id@ == m.id@
                &&& o.ark_map_name@ == m.ark_map_name@
                &&& o.content@ == "ARK_MAP="@ + m.ark_map_name@ + "\n"@
                &&& o.reason@ == reason
                &&& o.message@ == "Home map override set to "@ + m.ark_map_name@
                    + ". Restart the Home server for the change to take effect."@
            },
            (Err(r), Err((st, code, msg))) => r.status == st && r.code@ == code && r.message@ == msg,
            _ => false,
        },
{
    if !config.operations.systemd_control_enabled {
        return Err(Refusal { status: 403, code: owned("CONTROL_DISABLED"), message: owned("systemd control is disabled") });
    }
    if !body.confirm {
        return Err(Refusal { status: 400, code: owned("INVALID_CONFIRMATION"), message: owned("confirm must be true") });
    }
    let id = body.map_id.as_str();
    let found = find_home_target(config, id);
    let i = match found {
        Some(i) => i,
        None => {
            return Err(Refusal {
                status: 404,
                code: owned("NOT_FOUND"),
                message: cat3("map '", body.map_id.as_str(), "' not found"),
            });
        },
    };
    let m = &config.maps[i];
    if !m.can_be_home {
        return Err(Refusal {
            status: 400,
            code: owned("HOME_PROTECTED"),
            message: cat3("map '", m.id.as_str(), "' has can_be_home = false"),
        });
    }
    let reason = if is_blank(body.reason.as_str()) {
        owned("discord_home_set_map")
    } else {
        body.reason.clone()
    };
    Ok(HomeOverride {
        map_id: m.id.clone(),
        ark_map_name: m.ark_map_name.clone(),
        content: cat3("ARK_MAP=", m.ark_map_name.as_str(), "\n"),
        reason,
        message: cat3(
            "Home map override set to ",
            m.ark_map_name.as_str(),
            ". Restart the Home server for the change to take effect.",
        ),
    })
}

/// The audit detail of a Home map override.
pub fn home_override_detail(o: &HomeOverride) -> (res: String)
    ensures
        res@ == "ark_map_name="@ + o.ark_map_name@ + " override_path="@ + HOME_OVERRIDE_PATH@ + " reason="@ + o.reason@,
{
    let mut s = cat2("ark_map_name=", o.ark_map_name.as_str());
    append(&mut s, " override_path=");
    append(&mut s, HOME_OVERRIDE_PATH);
    append(&mut s, " reason=");
    append(&mut s, o.reason.as_str());
    s
}

// ---------------------------------------------------------------------------
// Looking up a workshop mod
// ---------------------------------------------------------------------------

/// The leading ASCII digits of `s`.
pub open spec fn digit_prefix(s: Seq<char>) -> Seq<char>
    decreases s.len(),
{
    if s.len() > 0 && is_digit(s[0]) {
        seq![s[0]] + digit_prefix(s.drop_first())
    } else {
        Seq::empty()
    }
}

/// The workshop id in a URL or id: the digits right after the first
/// `id=`, or the leading digits when there is no `id=`.
pub open spec fn workshop_id_of(raw: Seq<char>) -> Seq<char> {
    digit_prefix(match crate::text::find(raw, "id="@) {
        Some(i) => raw.skip(i + 3),
        None => raw,
    })
}

fn digit_prefix_of(v: &Vec<char>, from: usize) -> (res: Vec<char>)
    requires
        from <= v@.len(),
    ensures
        res@ == digit_prefix(v@.skip(from as int)),
{
    let mut j = from;
    while j < v.len() && crate::text::char_is_digit(v[j])
        invariant
            from <= j <= v@.len(),
            digit_prefix(v@.skip(from as int)) == v@.subrange(from as int, j as int) + digit_prefix(v@.skip(j as int)),
        decreases v@.len() - j,
    {
        proof {
            let t = v@.skip(j as int);
            assert(t[0] == v@[j as int]);
            assert(t.drop_first() =~= v@.skip(j + 1));
            assert(v@.subrange(from as int, j + 1) =~= v@.subrange(from as int, j as int) + seq![v@[j as int]]);
        }
        j = j + 1;
    }
    proof {
        assert(digit_prefix(v@.skip(j as int)) =~= Seq::<char>::empty());
    }
    let r = crate::text::sub_vec(v, from, j);
    assert(r@ =~= v@.subrange(from as int, j as int));
    r
}

/// The workshop id named by a request (its id, else its URL), and the
/// workshop page for it; refused when no id can be read.
pub fn workshop_lookup(workshop_id: &Option<String>, url: &Option<String>) -> (res: Result<(String, String), Refusal>)
    ensures
        ({
            let raw = match workshop_id {
                Some(w) => w@,
                None => match url {
                    Some(u) => u@,
                    None => Seq::empty(),
                },
            };
            let id = workshop_id_of(raw);
            if id.len() == 0 {
                res matches Err(r) && r.status == 400 && r.code@ == "INVALID_WORKSHOP_ID"@
                    && r.message@ == "provide a Steam Workshop URL or numeric id"@
            } else {
                res matches Ok((i, page)) && i@ == id
                    && page@ == "https://steamcommunity.com/sharedfiles/filedetails/?id="@ + id
            }
        }),
{
    let raw: &str = match workshop_id {
        Some(w) => w.as_str(),
        None => match url {
            Some(u) => u.as_str(),
            None => "",
        },
    };
    proof {
        reveal_strlit("");
        assert(""@ =~= Seq::<char>::empty());
    }
    let v = chars_of(raw);
    let pat = chars_of("id=");
    proof {
        reveal_strlit("id=");
    }
    assert(pat@.len() == 3);
    let id = match crate::text::find_seq(&v, &pat) {
        Some(i) => {
            let n = v.len();
            assert(i + 3 <= n);
            digit_prefix_of(&v, i + 3)
        },
        None => {
            assert(v@.skip(0) =~= v@);
            digit_prefix_of(&v, 0)
        },
    };
    if id.len() == 0 {
        return Err(Refusal {
            status: 400,
            code: owned("INVALID_WORKSHOP_ID"),
            message: owned("provide a Steam Workshop URL or numeric id"),
        });
    }
    let ids = crate::text::string_from(&id);
    let page = cat2("https://steamcommunity.com/sharedfiles/filedetails/?id=", ids.as_str());
    Ok((ids, page))
}

} // verus!
