//! The automatic policies the RCON poller applies after each round: idle
//! shutdown of travel slots, idle shutdown of Home, and Home's Resource
//! Standby. Each step decides from the runtime state; the caller performs
//! the save, backup and stop it asks for.
use vstd::prelude::*;
use crate::config::{Config, SlotsConfig, ServerSlot};
use crate::rcon::{
    idle_decision, idle_policy_update, standby_allowed, home_standby_allowed, slot_index,
    IdlePolicyDecision, RconRuntimeState, SlotRuntime,
};

verus! {

/// Whether the travel idle-shutdown policy runs at all.
pub open spec fn travel_policy_on(c: Config) -> bool {
    c.operations.systemd_control_enabled && c.operations.travel_scheduler_enabled
}

/// Whether the travel idle-shutdown policy runs: systemd control and the travel scheduler on.
pub fn travel_idle_policy_enabled(config: &Config) -> (res: bool)
    ensures
        res == travel_policy_on(*config),
{
    config.operations.systemd_control_enabled && config.operations.travel_scheduler_enabled
}

/// Whether the Home idle-shutdown policy runs at all.
pub open spec fn home_idle_on(c: Config) -> bool {
    c.operations.systemd_control_enabled && c.operations.home_idle_shutdown_enabled
}

/// Whether the Home idle-shutdown policy runs: systemd control and Home idle shutdown on.
pub fn home_idle_policy_enabled(config: &Config) -> (res: bool)
    ensures
        res == home_idle_on(*config),
{
    config.operations.systemd_control_enabled && config.operations.home_idle_shutdown_enabled
}

/// The idle timer of an entry after an idle-policy decision.
pub open spec fn idle_after(e: SlotRuntime, d: IdlePolicyDecision) -> Option<u64> {
    match d {
        IdlePolicyDecision::SetIdleSince(t) => Some(t),
        IdlePolicyDecision::ClearIdle => None,
        _ => e.idle_zero_since,
    }
}

/// `a` and `b` differ at most in the idle timer.
pub open spec fn same_but_idle(a: SlotRuntime, b: SlotRuntime) -> bool {
    &&& a.slot_id == b.slot_id
    &&& a.slot_key == b.slot_key
    &&& a.map_id == b.map_id
    &&& a.host == b.host
    &&& a.port == b.port
    &&& a.configured == b.configured
    &&& a.active == b.active
    &&& a.state == b.state
    &&& a.player_count == b.player_count
    &&& a.players == b.players
    &&& a.last_player_poll == b.last_player_poll
    &&& a.last_chat_poll == b.last_chat_poll
    &&& a.last_error == b.last_error
    &&& a.chat_source == b.chat_source
}

/// Everything but the per-slot entries is unchanged.
pub open spec fn same_outside_slots(a: RconRuntimeState, b: RconRuntimeState) -> bool {
    &&& a.messages == b.messages
    &&& a.detected_commands == b.detected_commands
    &&& a.seen == b.seen
    &&& a.log_offsets == b.log_offsets
}

/// What the Home idle timer becomes, and whether Home is due for shutdown:
/// a stopped Home clears the timer; a confirmed count of zero starts it or,
/// once it has run for `threshold` seconds, makes Home due (and clears it);
/// players clear it; an unknown count leaves it as it is.
pub open spec fn home_idle_next(
    active: bool,
    count: Option<u32>,
    since: Option<u64>,
    now: u64,
    threshold: u64,
) -> (Option<u64>, bool) {
    if !active {
        (None, false)
    } else {
        match count {
            Some(n) => if n == 0 {
                match since {
                    None => (Some(now), false),
                    Some(s) => if (if now >= s { now - s } else { 0 }) >= threshold {
                        (None, true)
                    } else {
                        (since, false)
                    },
                }
            } else {
                (None, false)
            },
            None => (since, false),
        }
    }
}

/// Whether a travel slot has a confirmed count above zero.
pub open spec fn slot_has_players(rt: Seq<SlotRuntime>, slot: Option<ServerSlot>) -> bool {
    match slot {
        Some(s) => match slot_index(rt, s.id@) {
            Some(i) => rt[i].active && (rt[i].player_count matches Some(n) && n > 0),
            None => false,
        },
        None => false,
    }
}

/// Home's confirmed player count, as `player_count` reports it.
pub open spec fn known_count(rt: Seq<SlotRuntime>, id: Seq<char>) -> Option<u32> {
    match slot_index(rt, id) {
        Some(i) => if rt[i].active { rt[i].player_count } else { None },
        None => None,
    }
}

/// Whether Home enters Resource Standby now.
pub open spec fn standby_due(c: Config, rt: Seq<SlotRuntime>, ram_used_pct: u32) -> bool {
    match c.slots {
        Some(slots) => {
            &&& c.resource_policy.home_standby_enabled
            &&& standby_allowed(
                known_count(rt, slots.home.id@),
                slot_has_players(rt, slots.travel_a) || slot_has_players(rt, slots.travel_b),
                ram_used_pct >= c.resource_policy.ram_pressure_pct,
            )
        },
        None => false,
    }
}

impl RconRuntimeState {
    /// Applies the idle-shutdown policy to the entry of `slot_id`: the entry's
    /// idle timer is set, cleared or kept as `idle_decision` says, and the
    /// result says whether the slot is due for shutdown. Without an entry
    /// nothing changes.
    pub fn apply_idle_policy(&mut self, slot_id: &str, is_home: bool, now: u64, threshold_secs: u64) -> (due: bool)
        ensures
            match slot_index(old(self).slots@, slot_id@) {
                Some(i) => {
                    let e = old(self).slots@[i];
                    let d = idle_decision(is_home, e.active, e.player_count, e.idle_zero_since, now, threshold_secs);
                    &&& final(self).slots@.len() == old(self).slots@.len()
                    &&& forall|j: int| 0 <= j < old(self).slots@.len() && j != i ==> final(self).slots@[j] == old(self).slots@[j]
                    &&& same_but_idle(final(self).slots@[i], e)
                    &&& final(self).slots@[i].idle_zero_since == idle_after(e, d)
                    &&& due == (d == IdlePolicyDecision::ShutdownDue)
                },
                None => final(self).slots@ == old(self).slots@ && !due,
            },
            same_outside_slots(*final(self), *old(self)),
            final(self).home_idle_since == old(self).home_idle_since,
    {
        let idx = crate::rcon::find_slot_index(&self.slots, slot_id);
        match idx {
            Some(i) => {
                let d = idle_policy_update(
                    is_home,
                    self.slots[i].active,
                    self.slots[i].player_count,
                    self.slots[i].idle_zero_since,
                    now,
                    threshold_secs,
                );
                match d {
                    IdlePolicyDecision::SetIdleSince(t) => {
                        self.slots[i].idle_zero_since = Some(t);
                    },
                    IdlePolicyDecision::ClearIdle => {
                        self.slots[i].idle_zero_since = None;
                    },
                    _ => {},
                }
                d == IdlePolicyDecision::ShutdownDue
            },
            None => false,
        }
    }

    /// One step of the Home idle-shutdown policy for the Home slot `home_id`:
    /// updates the Home idle timer as `home_idle_next` says and returns
    /// whether Home is due for shutdown. Without an entry for Home nothing
    /// changes.
    pub fn home_idle_step(&mut self, home_id: &str, now: u64, threshold_secs: u64) -> (due: bool)
        ensures
            final(self).slots == old(self).slots,
            same_outside_slots(*final(self), *old(self)),
            match slot_index(old(self).slots@, home_id@) {
                Some(i) => {
                    let e = old(self).slots@[i];
                    let next = home_idle_next(e.active, e.player_count, old(self).home_idle_since, now, threshold_secs);
                    final(self).home_idle_since == next.0 && due == next.1
                },
                None => final(self).home_idle_since == old(self).home_idle_since && !due,
            },
    {
        let idx = crate::rcon::find_slot_index(&self.slots, home_id);
        let i = match idx {
            Some(i) => i,
            None => {
                return false;
            },
        };
        if !self.slots[i].active {
            self.home_idle_since = None;
            return false;
        }
        match self.slots[i].player_count {
            Some(0) => match self.home_idle_since {
                None => {
                    self.home_idle_since = Some(now);
                    false
                },
                Some(since) => {
                    if now.saturating_sub(since) >= threshold_secs {
                        self.home_idle_since = None;
                        true
                    } else {
                        false
                    }
                },
            },
            Some(_) => {
                self.home_idle_since = None;
                false
            },
            None => false,
        }
    }

    fn travel_slot_has_players(&self, slot: &Option<ServerSlot>) -> (res: bool)
        ensures
            res == slot_has_players(self.slots@, *slot),
    {
        match slot {
            Some(s) => match self.player_count(s.id.as_str()) {
                Some(n) => n > 0,
                None => false,
            },
            None => false,
        }
    }

    /// Whether Home enters Resource Standby now, given the RAM use in
    /// percent: only with standby enabled, Home confirmed empty, players on
    /// a travel map and RAM at or above the pressure threshold.
    pub fn home_standby_due(&self, config: &Config, ram_used_pct: u32) -> (res: bool)
        ensures
            res == standby_due(*config, self.slots@, ram_used_pct),
    {
        if !config.resource_policy.home_standby_enabled {
            return false;
        }
        let slots: &SlotsConfig = match &config.slots {
            Some(s) => s,
            None => {
                return false;
            },
        };
        let home_count = self.player_count(slots.home.id.as_str());
        let a = self.travel_slot_has_players(&slots.travel_a);
        let b = self.travel_slot_has_players(&slots.travel_b);
        home_standby_allowed(home_count, a || b, ram_used_pct >= config.resource_policy.ram_pressure_pct as u32)
    }
}

/// Home is shut down for idleness only while it runs, its count is a
/// confirmed zero, and the timer had been started at least `threshold`
/// seconds before; the timer is cleared when it fires.
pub proof fn lemma_home_idle_shutdown_needs_confirmed_empty(
    active: bool,
    count: Option<u32>,
    since: Option<u64>,
    now: u64,
    threshold: u64,
)
    requires
        home_idle_next(active, count, since, now, threshold).1,
    ensures
        active,
        count == Some(0u32),
        since matches Some(s) && (if now >= s { now - s } else { 0 }) >= threshold,
        home_idle_next(active, count, since, now, threshold).0 is None,
{
}

/// An unknown player count never starts, clears or fires the Home timer.
pub proof fn lemma_unknown_count_keeps_home_timer(
    since: Option<u64>,
    now: u64,
    threshold: u64,
)
    ensures
        home_idle_next(true, None, since, now, threshold) == (since, false),
{
}

/// Home enters Resource Standby only with standby enabled, a confirmed
/// count of zero on Home, players on a travel map and RAM at or above the
/// pressure threshold.
pub proof fn lemma_standby_needs_empty_home_and_pressure(c: Config, rt: Seq<SlotRuntime>, ram_used_pct: u32)
    requires
        standby_due(c, rt, ram_used_pct),
    ensures
        c.resource_policy.home_standby_enabled,
        c.slots is Some,
        known_count(rt, c.slots->Some_0.home.id@) == Some(0u32),
        slot_has_players(rt, c.slots->Some_0.travel_a) || slot_has_players(rt, c.slots->Some_0.travel_b),
        ram_used_pct >= c.resource_policy.ram_pressure_pct,
{
}

/// The idle policy only marks a slot due for shutdown when the slot's
/// entry shows it running with a confirmed count of zero, and never marks
/// Home.
pub proof fn lemma_due_slot_is_running_and_empty(
    e: SlotRuntime,
    is_home: bool,
    now: u64,
    threshold_secs: u64,
)
    requires
        idle_decision(is_home, e.active, e.player_count, e.idle_zero_since, now, threshold_secs)
            == IdlePolicyDecision::ShutdownDue,
    ensures
        !is_home,
        e.active,
        e.player_count == Some(0u32),
{
}

} // verus!
