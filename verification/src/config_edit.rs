//! The shared ARK ini files: masking secrets for display and setting one key.
use vstd::prelude::*;
use crate::config::Config;
use crate::text::{
    append, append_vec, cat2, chars_of, contains, is_alnum, is_blank, join, join_vecs, lines,
    lines_of, lower_seq, lower_vec, owned, split_once, split_once_vec, string_from, trim, trim_vec,
    vec_contains_str, vec_eq_str, views, char_is_alnum, eq_str,
};

verus! {

/// A request to set one key in a shared ini file.
#[derive(Clone, Debug)]
pub struct ConfigSetRequest {
    pub file: String,
    pub key: String,
    pub value: String,
    pub confirm: bool,
    pub reason: String,
}

/// The shared ini files as shown (secrets masked).
#[derive(Clone, Debug)]
pub struct SharedConfig {
    pub writable: bool,
    pub shared_config_dir: String,
    pub game_ini_path: String,
    pub game_user_settings_ini_path: String,
    pub game_ini: String,
    pub game_user_settings_ini: String,
    pub masked: bool,
}

/// Why a config change was refused or failed.
#[derive(Clone, Debug)]
pub enum ConfigEditError {
    Disabled,
    InvalidConfirmation,
    InvalidFile,
    InvalidKey,
    Io(String),
    Db(String),
}

pub open spec fn config_edit_code(e: ConfigEditError) -> Seq<char> {
    match e {
        ConfigEditError::Disabled => "CONFIG_WRITES_DISABLED"@,
        ConfigEditError::InvalidConfirmation => "INVALID_CONFIRMATION"@,
        ConfigEditError::InvalidFile => "INVALID_CONFIG_FILE"@,
        ConfigEditError::InvalidKey => "INVALID_CONFIG_KEY"@,
        ConfigEditError::Io(_) => "OPERATION_FAILED"@,
        ConfigEditError::Db(_) => "OPERATION_FAILED"@,
    }
}

pub open spec fn config_edit_message(e: ConfigEditError) -> Seq<char> {
    match e {
        ConfigEditError::Disabled => "config writes disabled in manager config"@,
        ConfigEditError::InvalidConfirmation => "explicit confirmation required"@,
        ConfigEditError::InvalidFile => "invalid config file"@,
        ConfigEditError::InvalidKey => "invalid config key"@,
        ConfigEditError::Io(m) => "io error: "@ + m@,
        ConfigEditError::Db(m) => "database error: "@ + m@,
    }
}

impl ConfigEditError {
    /// The stable error code the API reports.
    pub fn code(&self) -> (res: &'static str)
        ensures
            res@ == config_edit_code(*self),
    {
        match self {
            ConfigEditError::Disabled => "CONFIG_WRITES_DISABLED",
            ConfigEditError::InvalidConfirmation => "INVALID_CONFIRMATION",
            ConfigEditError::InvalidFile => "INVALID_CONFIG_FILE",
            ConfigEditError::InvalidKey => "INVALID_CONFIG_KEY",
            ConfigEditError::Io(_) => "OPERATION_FAILED",
            ConfigEditError::Db(_) => "OPERATION_FAILED",
        }
    }

    /// The human-readable error message.
    pub fn message(&self) -> (res: String)
        ensures
            res@ == config_edit_message(*self),
    {
        match self {
            ConfigEditError::Disabled => owned("config writes disabled in manager config"),
            ConfigEditError::InvalidConfirmation => owned("explicit confirmation required"),
            ConfigEditError::InvalidFile => owned("invalid config file"),
            ConfigEditError::InvalidKey => owned("invalid config key"),
            ConfigEditError::Io(m) => cat2("io error: ", m.as_str()),
            ConfigEditError::Db(m) => cat2("database error: ", m.as_str()),
        }
    }
}

/// The directory of the shared `Game.ini` and `GameUserSettings.ini`.
pub fn shared_config_dir(config: &Config) -> (res: String)
    ensures
        res@ == crate::backup::path_join(
            if trim(config.paths.ark_root@).len() == 0 {
                "/srv/ark"@
            } else {
                config.paths.ark_root@
            },
            "server/ShooterGame/Saved/Config/LinuxServer"@,
        ),
{
    let root = if is_blank(config.paths.ark_root.as_str()) {
        "/srv/ark"
    } else {
        config.paths.ark_root.as_str()
    };
    crate::backup::join_path(root, "server/ShooterGame/Saved/Config/LinuxServer")
}

/// A line shown with the value of a password key replaced by `********`.
pub open spec fn mask_line(l: Seq<char>) -> Seq<char> {
    match split_once(l, '=') {
        Some((k, _)) => if contains(lower_seq(k), "password"@) {
            k + "=********"@
        } else {
            l
        },
        None => l,
    }
}

/// An ini text with every password value masked, lines joined with `\n`.
pub open spec fn masked(raw: Seq<char>) -> Seq<char> {
    join(Seq::new(lines(raw).len(), |i: int| mask_line(lines(raw)[i])), "\n"@)
}

fn mask_line_of(l: &Vec<char>) -> (res: Vec<char>)
    ensures
        res@ == mask_line(l@),
{
    match split_once_vec(l, '=') {
        Some((k, _)) => {
            let lk = lower_vec(&k);
            if vec_contains_str(&lk, "password") {
                let mut r = k.clone();
                let stars = chars_of("=********");
                crate::text::append_vec_vec(&mut r, &stars);
                r
            } else {
                l.clone()
            }
        },
        None => l.clone(),
    }
}

/// Masks the password values of an ini text.
pub fn mask(raw: &str) -> (res: String)
    ensures
        res@ == masked(raw@),
{
    let v = chars_of(raw);
    let ls = lines_of(&v);
    let mut out: Vec<Vec<char>> = Vec::new();
    let mut k: usize = 0;
    while k < ls.len()
        invariant
            0 <= k <= ls@.len(),
            views(ls@) == lines(raw@),
            views(out@) == Seq::new(k as nat, |i: int| mask_line(lines(raw@)[i])),
        decreases ls@.len() - k,
    {
        let m = mask_line_of(&ls[k]);
        assert(views(ls@)[k as int] == ls@[k as int]@);
        let ghost before = out@;
        let ghost mv = m@;
        out.push(m);
        assert(views(out@) =~= views(before).push(mv));
        assert(views(out@) =~= Seq::new((k + 1) as nat, |i: int| mask_line(lines(raw@)[i])));
        k = k + 1;
    }
    let j = join_vecs(&out, "\n");
    string_from(&j)
}

/// Keys that may be set: letters, digits, `_` and `.`, without `password`.
pub open spec fn settable_key(key: Seq<char>) -> bool {
    &&& key.len() > 0
    &&& forall|i: int| 0 <= i < key.len() ==> (is_alnum(#[trigger] key[i]) || key[i] == '_' || key[i] == '.')
    &&& !contains(lower_seq(key), "password"@)
}

/// Whether a line sets `key` (its text before the first `=`, trimmed, is `key`).
pub open spec fn sets_key(l: Seq<char>, key: Seq<char>) -> bool {
    match split_once(l, '=') {
        Some((k, _)) => trim(k) == key,
        None => false,
    }
}

/// The lines after setting `key`: every line that sets it becomes
/// `key=value`; when none did, `key=value` is appended.
pub open spec fn replaced_lines(ls: Seq<Seq<char>>, key: Seq<char>, value: Seq<char>) -> Seq<Seq<char>> {
    let line = key + "="@ + value;
    let mapped = Seq::new(ls.len(), |i: int| if sets_key(ls[i], key) { line } else { ls[i] });
    if exists|i: int| 0 <= i < ls.len() && sets_key(#[trigger] ls[i], key) {
        mapped
    } else {
        mapped.push(line)
    }
}

/// The text after setting `key` to `value`: the replaced lines joined with
/// `\n`, ending in `\n`.
pub open spec fn replaced_text(raw: Seq<char>, key: Seq<char>, value: Seq<char>) -> Seq<char> {
    join(replaced_lines(lines(raw), key, value), "\n"@).push('\n')
}

fn settable_key_of(key: &str) -> (res: bool)
    ensures
        res == settable_key(key@),
{
    let v = chars_of(key);
    if v.len() == 0 {
        return false;
    }
    let mut i: usize = 0;
    while i < v.len()
        invariant
            0 <= i <= v@.len(),
            v@ == key@,
            forall|j: int| 0 <= j < i ==> (is_alnum(#[trigger] v@[j]) || v@[j] == '_' || v@[j] == '.'),
        decreases v@.len() - i,
    {
        let c = v[i];
        if !(char_is_alnum(c) || c == '_' || c == '.') {
            return false;
        }
        i = i + 1;
    }
    let lv = lower_vec(&v);
    !vec_contains_str(&lv, "password")
}

fn sets_key_of(l: &Vec<char>, key: &str) -> (res: bool)
    ensures
        res == sets_key(l@, key@),
{
    match split_once_vec(l, '=') {
        Some((k, _)) => {
            let t = trim_vec(&k);
            vec_eq_str(&t, key)
        },
        None => false,
    }
}

/// Sets `key` to `value` in an ini text, replacing every line that sets it
/// or appending a line; refuses keys that are not settable.
pub fn replace_ini_key(raw: &mut String, key: &str, value: &str) -> (res: Result<(), ConfigEditError>)
    ensures
        settable_key(key@) ==> (res is Ok && final(raw)@ == replaced_text(old(raw)@, key@, value@)),
        !settable_key(key@) ==> ((res matches Err(ConfigEditError::InvalidKey)) && final(raw)@ == old(raw)@),
{
    if !settable_key_of(key) {
        return Err(ConfigEditError::InvalidKey);
    }
    let mut line = cat2(key, "=");
    append(&mut line, value);
    let lv = chars_of(line.as_str());
    let v = chars_of(raw.as_str());
    let ls = lines_of(&v);
    let ghost all = lines(old(raw)@);
    let ghost target = Seq::new(all.len(), |i: int| if sets_key(all[i], key@) { lv@ } else { all[i] });
    let mut out: Vec<Vec<char>> = Vec::new();
    let mut found = false;
    let mut k: usize = 0;
    while k < ls.len()
        invariant
            0 <= k <= ls@.len(),
            views(ls@) == all,
            lv@ == key@ + "="@ + value@,
            target == Seq::new(all.len(), |i: int| if sets_key(all[i], key@) { lv@ } else { all[i] }),
            views(out@) == target.take(k as int),
            found == exists|i: int| 0 <= i < k && sets_key(#[trigger] all[i], key@),
        decreases ls@.len() - k,
    {
        assert(views(ls@)[k as int] == ls@[k as int]@);
        let ghost before = out@;
        if sets_key_of(&ls[k], key) {
            found = true;
            out.push(lv.clone());
            assert(views(out@) =~= views(before).push(lv@));
        } else {
            out.push(ls[k].clone());
            assert(views(out@) =~= views(before).push(ls@[k as int]@));
        }
        assert(target.take(k + 1) =~= target.take(k as int).push(target[k as int]));
        k = k + 1;
    }
    assert(target.take(ls@.len() as int) =~= target);
    assert(all.len() == ls@.len());
    if !found {
        let ghost before = out@;
        out.push(lv);
        assert(views(out@) =~= views(before).push(key@ + "="@ + value@));
        assert(views(out@) =~= replaced_lines(all, key@, value@));
    } else {
        assert(views(out@) =~= replaced_lines(all, key@, value@));
    }
    let j = join_vecs(&out, "\n");
    let mut s = string_from(&j);
    crate::text::push_char(&mut s, '\n');
    *raw = s;
    Ok(())
}

/// The path of a shared ini file that may be written, or why not.
pub fn config_target(config: &Config, req: &ConfigSetRequest) -> (res: Result<String, ConfigEditError>)
    ensures
        !config.operations.config_writes_enabled ==> res matches Err(ConfigEditError::Disabled),
        config.operations.config_writes_enabled && !req.confirm ==> res matches Err(ConfigEditError::InvalidConfirmation),
        config.operations.config_writes_enabled && req.confirm ==> (if req.file@ == "Game.ini"@ || req.file@ == "GameUserSettings.ini"@ {
            res matches Ok(p) && p@ == crate::backup::path_join(
                crate::backup::path_join(
                    if trim(config.paths.ark_root@).len() == 0 {
                        "/srv/ark"@
                    } else {
                        config.paths.ark_root@
                    },
                    "server/ShooterGame/Saved/Config/LinuxServer"@,
                ),
                req.file@,
            )
        } else {
            res matches Err(ConfigEditError::InvalidFile)
        }),
{
    if !config.operations.config_writes_enabled {
        return Err(ConfigEditError::Disabled);
    }
    if !req.confirm {
        return Err(ConfigEditError::InvalidConfirmation);
    }
    if !(eq_str(req.file.as_str(), "Game.ini") || eq_str(req.file.as_str(), "GameUserSettings.ini")) {
        return Err(ConfigEditError::InvalidFile);
    }
    let dir = shared_config_dir(config);
    Ok(crate::backup::join_path(dir.as_str(), req.file.as_str()))
}

/// The shared ini files as shown, from the texts read (empty when missing).
pub fn shared_config_from(config: &Config, game_ini: &str, game_user_settings_ini: &str) -> (res: SharedConfig)
    ensures
        ({
            let dir = crate::backup::path_join(
                if trim(config.paths.ark_root@).len() == 0 {
                    "/srv/ark"@
                } else {
                    config.paths.ark_root@
                },
                "server/ShooterGame/Saved/Config/LinuxServer"@,
            );
            &&& res.writable == config.operations.config_writes_enabled
            &&& res.shared_config_dir@ == dir
            &&& res.game_ini_path@ == crate::backup::path_join(dir, "Game.ini"@)
            &&& res.game_user_settings_ini_path@ == crate::backup::path_join(dir, "GameUserSettings.ini"@)
            &&& res.game_ini@ == masked(game_ini@)
            &&& res.game_user_settings_ini@ == masked(game_user_settings_ini@)
            &&& res.masked
        }),
{
    let dir = shared_config_dir(config);
    let gp = crate::backup::join_path(dir.as_str(), "Game.ini");
    let gup = crate::backup::join_path(dir.as_str(), "GameUserSettings.ini");
    SharedConfig {
        writable: config.operations.config_writes_enabled,
        shared_config_dir: dir,
        game_ini_path: gp,
        game_user_settings_ini_path: gup,
        game_ini: mask(game_ini),
        game_user_settings_ini: mask(game_user_settings_ini),
        masked: true,
    }
}

// ---------------------------------------------------------------------------
// Fields shown from the ini files
// ---------------------------------------------------------------------------

/// One setting read from an ini file: its key, its value text, the group
/// it is shown in and a hint.
#[derive(Clone, Debug)]
pub struct ConfigEntry {
    pub key: String,
    pub value: String,
    pub group: String,
    pub hint: String,
}

pub open spec fn is_bracket(c: char) -> bool {
    c == '[' || c == ']'
}

/// `s` without leading and trailing `[` and `]`.
pub open spec fn strip_brackets_start(s: Seq<char>) -> Seq<char>
    decreases s.len(),
{
    if s.len() > 0 && is_bracket(s[0]) { strip_brackets_start(s.drop_first()) } else { s }
}

pub open spec fn strip_brackets_end(s: Seq<char>) -> Seq<char>
    decreases s.len(),
{
    if s.len() > 0 && is_bracket(s.last()) { strip_brackets_end(s.drop_last()) } else { s }
}

pub open spec fn strip_brackets(s: Seq<char>) -> Seq<char> {
    strip_brackets_end(strip_brackets_start(s))
}

/// The settings read so far (key, value, section) and the current section.
pub open spec fn fields_state(ls: Seq<Seq<char>>) -> (Seq<(Seq<char>, Seq<char>, Seq<char>)>, Seq<char>)
    decreases ls.len(),
{
    if ls.len() == 0 {
        (Seq::empty(), "General"@)
    } else {
        let st = fields_state(ls.drop_last());
        let t = trim(ls.last());
        if t.len() == 0 || crate::text::starts_with(t, ";"@) || crate::text::starts_with(t, "#"@) {
            st
        } else if crate::text::starts_with(t, "["@) && crate::text::ends_with(t, "]"@) {
            (st.0, strip_brackets(t))
        } else {
            match split_once(t, '=') {
                None => st,
                Some((k, v)) => {
                    let key = trim(k);
                    if key.len() == 0 || contains(lower_seq(key), "password"@) {
                        st
                    } else {
                        (st.0.push((key, trim(v), st.1)), st.1)
                    }
                },
            }
        }
    }
}

/// The settings of an ini text: comments, blank lines, lines without `=`
/// and password keys are skipped; `[Section]` lines set the section.
pub open spec fn config_fields(raw: Seq<char>) -> Seq<(Seq<char>, Seq<char>, Seq<char>)> {
    fields_state(lines(raw)).0
}

fn strip_brackets_vec(v: &Vec<char>) -> (res: Vec<char>)
    ensures
        res@ == strip_brackets(v@),
{
    let mut a: usize = 0;
    assert(v@.skip(0) =~= v@);
    while a < v.len() && (v[a] == '[' || v[a] == ']')
        invariant
            0 <= a <= v@.len(),
            strip_brackets_start(v@) == strip_brackets_start(v@.skip(a as int)),
        decreases v@.len() - a,
    {
        assert(v@.skip(a as int).drop_first() =~= v@.skip(a + 1));
        a = a + 1;
    }
    let mid = crate::text::sub_vec(v, a, v.len());
    assert(mid@ =~= v@.skip(a as int));
    let mut b = mid.len();
    assert(mid@.take(b as int) =~= mid@);
    while b > 0 && (mid[b - 1] == '[' || mid[b - 1] == ']')
        invariant
            0 <= b <= mid@.len(),
            strip_brackets_end(mid@) == strip_brackets_end(mid@.take(b as int)),
        decreases b,
    {
        assert(mid@.take(b as int).drop_last() =~= mid@.take(b - 1));
        b = b - 1;
    }
    let r = crate::text::sub_vec(&mid, 0, b);
    assert(r@ =~= mid@.take(b as int));
    r
}

/// The settings shown for ini file `file`: each with the group
/// `<file> / <section>` and a hint naming the file.
pub fn parse_config_fields(file: &str, raw: &str) -> (res: Vec<ConfigEntry>)
    ensures
        res@.len() == config_fields(raw@).len(),
        forall|i: int| 0 <= i < res@.len() ==> {
            let f = config_fields(raw@)[i];
            &&& (#[trigger] res@[i]).key@ == f.0
            &&& res@[i].value@ == f.1
            &&& res@[i].group@ == file@ + " / "@ + f.2
            &&& res@[i].hint@ == "Read from "@ + file@ + "; restart may be required after changes."@
        },
{
    let v = chars_of(raw);
    let ls = lines_of(&v);
    let ghost all = views(ls@);
    let mut section: Vec<char> = chars_of("General");
    let mut out: Vec<ConfigEntry> = Vec::new();
    let mut i: usize = 0;
    while i < ls.len()
        invariant
            0 <= i <= ls@.len(),
            all == views(ls@),
            all == lines(raw@),
            fields_state(all.take(i as int)).1 == section@,
            out@.len() == fields_state(all.take(i as int)).0.len(),
            forall|k: int| 0 <= k < out@.len() ==> {
                let f = fields_state(all.take(i as int)).0[k];
                &&& (#[trigger] out@[k]).key@ == f.0
                &&& out@[k].value@ == f.1
                &&& out@[k].group@ == file@ + " / "@ + f.2
                &&& out@[k].hint@ == "Read from "@ + file@ + "; restart may be required after changes."@
            },
        decreases ls@.len() - i,
    {
        assert(all.take(i + 1).drop_last() =~= all.take(i as int));
        assert(all.take(i + 1).last() == ls@[i as int]@);
        let t = trim_vec(&ls[i]);
        let skip = t.len() == 0 || crate::text::vec_starts_with(&t, ";") || crate::text::vec_starts_with(&t, "#");
        if skip {
        } else if crate::text::vec_starts_with(&t, "[") && crate::text::vec_ends_with(&t, "]") {
            section = strip_brackets_vec(&t);
        } else {
            match split_once_vec(&t, '=') {
                None => {},
                Some((k, val)) => {
                    let key = trim_vec(&k);
                    let lk = lower_vec(&key);
                    if key.len() == 0 || vec_contains_str(&lk, "password") {
                    } else {
                        let value = trim_vec(&val);
                        let mut group = cat2(file, " / ");
                        append_vec(&mut group, &section);
                        let hint = crate::text::cat3("Read from ", file, "; restart may be required after changes.");
                        let ghost before = out@;
                        out.push(ConfigEntry { key: string_from(&key), value: string_from(&value), group, hint });
                        assert forall|k2: int| 0 <= k2 < out@.len() implies {
                            let f = fields_state(all.take(i + 1)).0[k2];
                            &&& (#[trigger] out@[k2]).key@ == f.0
                            &&& out@[k2].value@ == f.1
                            &&& out@[k2].group@ == file@ + " / "@ + f.2
                            &&& out@[k2].hint@ == "Read from "@ + file@ + "; restart may be required after changes."@
                        } by {
                            if k2 < before.len() {
                                assert(out@[k2] == before[k2]);
                            }
                        }
                    }
                },
            }
        }
        i = i + 1;
    }
    assert(all.take(ls@.len() as int) =~= all);
    out
}

/// Whether a previewed change would be shown masked.
pub fn preview_masked(key: &str) -> (res: bool)
    ensures
        res == contains(lower_seq(key@), "password"@),
{
    let v = chars_of(key);
    let l = lower_vec(&v);
    vec_contains_str(&l, "password")
}

/// Setting a key leaves a line `key=value` in the text's lines, and every
/// line that does not set the key stays as it was.
pub proof fn lemma_set_key_is_written(ls: Seq<Seq<char>>, key: Seq<char>, value: Seq<char>)
    ensures
        replaced_lines(ls, key, value).contains(key + "="@ + value),
        forall|i: int| 0 <= i < ls.len() && !sets_key(#[trigger] ls[i], key) ==> replaced_lines(ls, key, value)[i] == ls[i],
        forall|i: int| 0 <= i < ls.len() && sets_key(#[trigger] ls[i], key) ==> replaced_lines(ls, key, value)[i] == key + "="@ + value,
{
    let line = key + "="@ + value;
    let r = replaced_lines(ls, key, value);
    if exists|i: int| 0 <= i < ls.len() && sets_key(#[trigger] ls[i], key) {
        let i = choose|i: int| 0 <= i < ls.len() && sets_key(#[trigger] ls[i], key);
        assert(r[i] == line);
    } else {
        assert(r[r.len() - 1] == line);
    }
}

/// A key naming a password can never be set.
pub proof fn lemma_password_keys_not_settable(key: Seq<char>)
    requires
        contains(lower_seq(key), "password"@),
    ensures
        !settable_key(key),
{
}

} // verus!
