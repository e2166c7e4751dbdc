//! The resource governor's preview: what it would consider given the RAM
//! use and player counts. It describes; it never acts.
use vstd::prelude::*;
use crate::config::ResourcePolicy;
use crate::text::{append, cat2, cat3, owned, decimal, u64_to_string};

verus! {

/// The policy the governor works under.
#[derive(Clone, Debug)]
pub struct GovernorPolicy {
    pub never_stop_with_players: bool,
    pub home_standby_enabled: bool,
    pub home_stops_only_when_empty: bool,
    pub prefer_active_player_maps: bool,
    pub auto_restart_home: bool,
    pub max_travel_servers: u32,
    pub empty_shutdown_mins: u32,
}

pub open spec fn policy_of(p: ResourcePolicy) -> GovernorPolicy {
    GovernorPolicy {
        never_stop_with_players: p.never_stop_with_players,
        home_standby_enabled: p.home_standby_enabled,
        home_stops_only_when_empty: p.home_stops_only_when_empty,
        prefer_active_player_maps: p.prefer_active_player_maps,
        auto_restart_home: p.auto_restart_home,
        max_travel_servers: p.max_travel_servers,
        empty_shutdown_mins: p.empty_shutdown_mins,
    }
}

impl<'a> From<&'a ResourcePolicy> for GovernorPolicy {
    fn from(p: &'a ResourcePolicy) -> (res: Self) {
        GovernorPolicy {
            never_stop_with_players: p.never_stop_with_players,
            home_standby_enabled: p.home_standby_enabled,
            home_stops_only_when_empty: p.home_stops_only_when_empty,
            prefer_active_player_maps: p.prefer_active_player_maps,
            auto_restart_home: p.auto_restart_home,
            max_travel_servers: p.max_travel_servers,
            empty_shutdown_mins: p.empty_shutdown_mins,
        }
    }
}

impl<'a> vstd::std_specs::convert::FromSpecImpl<&'a ResourcePolicy> for GovernorPolicy {
    open spec fn obeys_from_spec() -> bool {
        true
    }

    open spec fn from_spec(p: &'a ResourcePolicy) -> Self {
        policy_of(*p)
    }
}

/// The RAM thresholds the governor compares against.
#[derive(Clone, Debug)]
pub struct GovernorThresholds {
    pub ram_warn_pct: u8,
    pub ram_pressure_pct: u8,
    pub ram_emergency_pct: u8,
    pub max_travel: u32,
    pub empty_shutdown_mins: u32,
}

/// What the governor would consider, and why.
#[derive(Clone, Debug)]
pub struct GovernorDecision {
    pub decision: String,
    pub why: String,
    pub examples: Vec<String>,
    pub policy: GovernorPolicy,
}

/// The governor's verdict for RAM use `ram_pct` (percent) and the players
/// on Home and on travel maps: Home may stand by when it is empty, travel
/// maps have players and RAM is at or above the pressure threshold; with
/// travel players and no pressure nothing is needed; otherwise it watches.
pub open spec fn verdict(p: ResourcePolicy, ram_pct: u8, home: u32, travel: u32) -> (Seq<char>, Seq<char>) {
    let pressure = ram_pct >= p.ram_pressure_pct;
    let pct = decimal(ram_pct as nat);
    if home == 0 && travel > 0 && pressure {
        ("Home eligible for Resource Standby"@, "Home has 0 players and RAM pressure is high ("@ + pct + "% >= "@
            + decimal(p.ram_pressure_pct as nat)
            + "%). Travel maps have active players. Home could be saved, backed up, and stopped so travel players keep playing. (Preview only \u{2014} no action taken.)"@)
    } else if travel > 0 && !pressure {
        ("No action needed"@, "Resources healthy ("@ + pct + "%). Travel maps have players; nothing to reclaim."@)
    } else {
        ("Monitoring"@, "RAM at "@ + pct + "%. No standby/shutdown conditions met. (Preview only.)"@)
    }
}

/// The example situations shown beside the verdict.
pub open spec fn governor_examples(p: ResourcePolicy) -> Seq<Seq<char>> {
    seq![
        "All on-demand slots have active players. New travel requests are blocked."@,
        "Home has 0 players and RAM pressure is high. Home is eligible for Resource Standby."@,
        "A travel map empty for "@ + decimal(p.empty_shutdown_mins as nat) + " minutes is eligible for save, backup, and shutdown."@,
        "No action needed. Resources are healthy."@,
    ]
}

/// The governor's verdict for the RAM use in percent and the players on Home and on travel maps.
pub fn evaluate(policy: &ResourcePolicy, ram_pct: u8, home_players: u32, travel_players: u32) -> (res: GovernorDecision)
    ensures
        (res.decision@, res.why@) == verdict(*policy, ram_pct, home_players, travel_players),
        crate::text::str_views(res.examples@) == governor_examples(*policy),
        res.policy == policy_of(*policy),
{
    let under_pressure = ram_pct >= policy.ram_pressure_pct;
    let pct = u64_to_string(ram_pct as u64);
    let (decision, why) = if home_players == 0 && travel_players > 0 && under_pressure {
        let threshold = u64_to_string(policy.ram_pressure_pct as u64);
        let mut w = cat3("Home has 0 players and RAM pressure is high (", pct.as_str(), "% >= ");
        append(&mut w, threshold.as_str());
        append(
            &mut w,
            "%). Travel maps have active players. Home could be saved, backed up, and stopped so travel players keep playing. (Preview only \u{2014} no action taken.)",
        );
        (owned("Home eligible for Resource Standby"), w)
    } else if travel_players > 0 && !under_pressure {
        let w = cat3("Resources healthy (", pct.as_str(), "%). Travel maps have players; nothing to reclaim.");
        (owned("No action needed"), w)
    } else {
        let w = cat3("RAM at ", pct.as_str(), "%. No standby/shutdown conditions met. (Preview only.)");
        (owned("Monitoring"), w)
    };
    let mins = u64_to_string(policy.empty_shutdown_mins as u64);
    let mut examples: Vec<String> = Vec::new();
    examples.push(owned("All on-demand slots have active players. New travel requests are blocked."));
    examples.push(owned("Home has 0 players and RAM pressure is high. Home is eligible for Resource Standby."));
    examples.push(cat3("A travel map empty for ", mins.as_str(), " minutes is eligible for save, backup, and shutdown."));
    examples.push(owned("No action needed. Resources are healthy."));
    assert(crate::text::str_views(examples@) =~= governor_examples(*policy));
    GovernorDecision { decision, why, examples, policy: GovernorPolicy::from(policy) }
}

} // verus!
