//! Records the dashboard shows: travel requests, log events, backups,
//! mods, Discord events and alert settings.
use vstd::prelude::*;

verus! {

/// A travel request as listed.
#[derive(Clone, Debug)]
pub struct TravelRequest {
    pub id: String,
    pub map: String,
    pub requested_by: String,
    pub source: String,
    pub source_raw: String,
    pub source_map: String,
    pub step: u32,
    pub result: String,
    pub reason: String,
    pub at: String,
}

/// One entry of the activity log.
#[derive(Clone, Debug)]
pub struct LogEvent {
    pub id: String,
    pub ts: String,
    pub severity: String,
    pub source: String,
    pub actor: String,
    pub target_map: String,
    pub message: String,
    pub detail: String,
}

/// A backup as listed.
#[derive(Clone, Debug)]
pub struct Backup {
    pub id: String,
    pub map: String,
    pub kind: String,
    pub size_mb: u32,
    pub created: String,
    pub reason: String,
    pub status: String,
    pub progress: Option<u32>,
    pub error: Option<String>,
}

/// A mod as listed.
#[derive(Clone, Debug)]
pub struct Mod {
    pub id: String,
    pub name: String,
    pub workshop_id: String,
    pub enabled: bool,
    pub installed: bool,
    pub load_order: u32,
    pub last_updated: String,
    pub size_mb: u32,
    pub used_by: Vec<String>,
    pub state: String,
    pub progress: Option<u32>,
}

/// A Discord bot event.
#[derive(Clone, Debug)]
pub struct DiscordEvent {
    pub id: String,
    pub ts: String,
    pub kind: String,
    pub text: String,
}

/// One alert switch.
#[derive(Clone, Debug)]
pub struct AlertSetting {
    pub key: String,
    pub label: String,
    pub enabled: bool,
}

/// A maximum player count shown as absent when zero (unknown).
pub fn max_players_shown(value: u32) -> (res: Option<u32>)
    ensures
        value == 0 ==> res is None,
        value != 0 ==> res == Some(value),
{
    if value == 0 {
        None
    } else {
        Some(value)
    }
}

} // verus!
