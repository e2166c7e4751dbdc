//! Readiness of the ARK runtime on the manager host: where things are
//! expected, and the verdict from what was found there.
use vstd::prelude::*;
use crate::config::Config;
use crate::text::{cat2, cat3, is_blank, owned, trim};

verus! {

/// One readiness check.
#[derive(Clone, Debug)]
pub struct Check {
    pub ok: bool,
    pub path: String,
    pub message: String,
}

/// The runtime readiness report.
#[derive(Clone, Debug)]
pub struct RuntimeStatus {
    pub ready: bool,
    pub steamcmd: Check,
    pub ark_server: Check,
    pub shared_config: Check,
    pub cluster_dir: Check,
    pub backup_root: Check,
    pub ark_root: String,
    pub server_root: String,
    pub executable: String,
}

/// Where the runtime's parts are expected.
#[derive(Clone, Debug)]
pub struct RuntimeLayout {
    pub ark_root: String,
    pub server_root: String,
    pub executable: String,
    pub config_dir: String,
    pub game_user_settings_ini: String,
    pub game_ini: String,
    pub cluster_dir: String,
    pub backup_root: String,
}

/// `value`, or `fallback` when `value` is blank.
pub open spec fn or_else_blank(value: Seq<char>, fallback: Seq<char>) -> Seq<char> {
    if trim(value).len() == 0 { fallback } else { value }
}

pub open spec fn is_layout(l: RuntimeLayout, c: Config) -> bool {
    let root = or_else_blank(c.paths.ark_root@, "/srv/ark"@);
    let server = root + "/server"@;
    let cfg = server + "/ShooterGame/Saved/Config/LinuxServer"@;
    &&& l.ark_root@ == root
    &&& l.server_root@ == server
    &&& l.executable@ == server + "/ShooterGame/Binaries/Linux/ShooterGameServer"@
    &&& l.config_dir@ == cfg
    &&& l.game_user_settings_ini@ == cfg + "/GameUserSettings.ini"@
    &&& l.game_ini@ == cfg + "/Game.ini"@
    &&& l.cluster_dir@ == or_else_blank(c.paths.cluster_dir@, c.cluster.directory@)
    &&& l.backup_root@ == or_else_blank(c.paths.backup_root@, c.backup_policy.directory@)
}

/// Where the runtime's parts are expected under the configured paths.
pub fn runtime_layout(config: &Config) -> (res: RuntimeLayout)
    ensures
        is_layout(res, *config),
{
    let root = if is_blank(config.paths.ark_root.as_str()) {
        owned("/srv/ark")
    } else {
        config.paths.ark_root.clone()
    };
    let server = cat2(root.as_str(), "/server");
    let executable = cat2(server.as_str(), "/ShooterGame/Binaries/Linux/ShooterGameServer");
    let cfg = cat2(server.as_str(), "/ShooterGame/Saved/Config/LinuxServer");
    let gus = cat2(cfg.as_str(), "/GameUserSettings.ini");
    let game = cat2(cfg.as_str(), "/Game.ini");
    let cluster = if is_blank(config.paths.cluster_dir.as_str()) {
        config.cluster.directory.clone()
    } else {
        config.paths.cluster_dir.clone()
    };
    let backup = if is_blank(config.paths.backup_root.as_str()) {
        config.backup_policy.directory.clone()
    } else {
        config.paths.backup_root.clone()
    };
    RuntimeLayout {
        ark_root: root,
        server_root: server,
        executable,
        config_dir: cfg,
        game_user_settings_ini: gus,
        game_ini: game,
        cluster_dir: cluster,
        backup_root: backup,
    }
}

/// The check of a path that was or was not found.
pub fn path_check(path: &str, label: &str, exists: bool) -> (res: Check)
    ensures
        res.ok == exists,
        res.path@ == path@,
        res.message@ == label@ + (if exists { " present"@ } else { " missing"@ }),
{
    Check {
        ok: exists,
        path: owned(path),
        message: if exists { cat2(label, " present") } else { cat2(label, " missing") },
    }
}

/// The shared-config check: both ini files must be present.
pub fn shared_config_check(config_dir: &str, both_present: bool) -> (res: Check)
    ensures
        res.ok == both_present,
        res.path@ == config_dir@,
        res.message@ == (if both_present {
            "shared config present"@
        } else {
            "GameUserSettings.ini or Game.ini missing"@
        }),
{
    Check {
        ok: both_present,
        path: owned(config_dir),
        message: if both_present {
            owned("shared config present")
        } else {
            owned("GameUserSettings.ini or Game.ini missing")
        },
    }
}

/// The SteamCMD check from where it was found, if it was.
pub fn steamcmd_check(found_at: Option<&str>) -> (res: Check)
    ensures
        match found_at {
            Some(p) => res.ok && res.path@ == trim(p@) && res.message@ == "SteamCMD installed"@,
            None => !res.ok && res.path@ == "steamcmd"@ && res.message@ == "SteamCMD missing"@,
        },
{
    match found_at {
        Some(p) => Check { ok: true, path: crate::text::trim_string(p), message: owned("SteamCMD installed") },
        None => Check { ok: false, path: owned("steamcmd"), message: owned("SteamCMD missing") },
    }
}

/// The readiness report: ready only when every check passed.
pub fn runtime_status(
    layout: RuntimeLayout,
    steamcmd: Check,
    ark_server: Check,
    shared_config: Check,
    cluster_dir: Check,
    backup_root: Check,
) -> (res: RuntimeStatus)
    ensures
        res.ready == (steamcmd.ok && ark_server.ok && shared_config.ok && cluster_dir.ok && backup_root.ok),
        res.steamcmd == steamcmd,
        res.ark_server == ark_server,
        res.shared_config == shared_config,
        res.cluster_dir == cluster_dir,
        res.backup_root == backup_root,
        res.ark_root == layout.ark_root,
        res.server_root == layout.server_root,
        res.executable == layout.executable,
{
    let ready = steamcmd.ok && ark_server.ok && shared_config.ok && cluster_dir.ok && backup_root.ok;
    RuntimeStatus {
        ready,
        steamcmd,
        ark_server,
        shared_config,
        cluster_dir,
        backup_root,
        ark_root: layout.ark_root,
        server_root: layout.server_root,
        executable: layout.executable,
    }
}

} // verus!
