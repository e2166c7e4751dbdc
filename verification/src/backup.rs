//! Backups of configured slot paths: where they may be read from and
//! written to, and the record kept of each.
use vstd::prelude::*;
use crate::config::{Config, ServerSlot, has_parent_segment, has_parent_segment_of, opt_str, or_opt};
use crate::text::{
    append, cat2, cat3, chars_of, is_blank, owned, replace_char, replace_char_str, starts_with,
    str_starts_with, string_from, trim, u64_to_string, vec_eq, views,
};

verus! {

/// One backup as recorded.
#[derive(Clone, Debug)]
pub struct BackupRecord {
    pub id: String,
    pub slot_id: String,
    pub server_id: String,
    pub map_key: String,
    pub kind: String,
    pub reason: String,
    pub status: String,
    pub created_at: String,
    pub completed_at: Option<String>,
    pub size_bytes: u64,
    pub path: String,
    pub error: Option<String>,
}

/// Why a backup failed.
#[derive(Clone, Debug)]
pub enum BackupError {
    PathMissing(String),
    PathNotAllowed(String),
    Io(String),
    Db(String),
}

pub open spec fn backup_code(e: BackupError) -> Seq<char> {
    match e {
        BackupError::PathMissing(_) => "BACKUP_PATH_MISSING"@,
        BackupError::PathNotAllowed(_) => "PATH_NOT_ALLOWED"@,
        BackupError::Io(_) => "OPERATION_FAILED"@,
        BackupError::Db(_) => "OPERATION_FAILED"@,
    }
}

pub open spec fn backup_message(e: BackupError) -> Seq<char> {
    match e {
        BackupError::PathMissing(m) => "backup path missing: "@ + m@,
        BackupError::PathNotAllowed(m) => "path is not allowed: "@ + m@,
        BackupError::Io(m) => "backup failed: "@ + m@,
        BackupError::Db(m) => "database error: "@ + m@,
    }
}

impl BackupError {
    /// The stable error code the API reports.
    pub fn code(&self) -> (res: &'static str)
        ensures
            res@ == backup_code(*self),
    {
        match self {
            BackupError::PathMissing(_) => "BACKUP_PATH_MISSING",
            BackupError::PathNotAllowed(_) => "PATH_NOT_ALLOWED",
            BackupError::Io(_) => "OPERATION_FAILED",
            BackupError::Db(_) => "OPERATION_FAILED",
        }
    }

    /// The human-readable error message.
    pub fn message(&self) -> (res: String)
        ensures
            res@ == backup_message(*self),
    {
        match self {
            BackupError::PathMissing(m) => cat2("backup path missing: ", m.as_str()),
            BackupError::PathNotAllowed(m) => cat2("path is not allowed: ", m.as_str()),
            BackupError::Io(m) => cat2("backup failed: ", m.as_str()),
            BackupError::Db(m) => cat2("database error: ", m.as_str()),
        }
    }
}

/// What is wrong with a path that must be absolute and free of `..`.
pub open spec fn clean_abs_error(label: Seq<char>, path: Seq<char>) -> Option<Seq<char>> {
    if path.len() == 0 || !starts_with(path, "/"@) {
        Some(label + " must be an absolute path"@)
    } else if has_parent_segment(path) {
        Some(label + " contains a parent-directory segment"@)
    } else {
        None
    }
}

pub open spec fn not_allowed_if(res: Result<(), BackupError>, e: Option<Seq<char>>) -> bool {
    match e {
        Some(m) => res matches Err(BackupError::PathNotAllowed(x)) && x@ == m,
        None => res is Ok,
    }
}

/// Rejects a path that is not absolute or has a `..` segment.
pub fn validate_clean_abs(label: &str, path: &str) -> (res: Result<(), BackupError>)
    ensures
        not_allowed_if(res, clean_abs_error(label@, path@)),
{
    let v = chars_of(path);
    if v.len() == 0 || !str_starts_with(path, "/") {
        return Err(BackupError::PathNotAllowed(cat2(label, " must be an absolute path")));
    }
    if has_parent_segment_of(&v) {
        return Err(BackupError::PathNotAllowed(cat2(label, " contains a parent-directory segment")));
    }
    Ok(())
}

/// A `/`-separated part is kept unless it is empty or `.`.
pub open spec fn keep_part(done: Seq<Seq<char>>, p: Seq<char>) -> Seq<Seq<char>> {
    if p.len() == 0 || p == "."@ {
        done
    } else {
        done.push(p)
    }
}

pub open spec fn parts_state(s: Seq<char>) -> (Seq<Seq<char>>, Seq<char>)
    decreases s.len(),
{
    if s.len() == 0 {
        (Seq::empty(), Seq::empty())
    } else {
        let st = parts_state(s.drop_last());
        if s.last() == '/' {
            (keep_part(st.0, st.1), Seq::empty())
        } else {
            (st.0, st.1.push(s.last()))
        }
    }
}

/// The normal components of an absolute path, as `Path::components` gives
/// them after the root: repeated separators and `.` parts are dropped.
pub open spec fn path_parts(s: Seq<char>) -> Seq<Seq<char>> {
    let st = parts_state(s);
    keep_part(st.0, st.1)
}

fn path_parts_of(path: &str) -> (res: Vec<Vec<char>>)
    ensures
        views(res@) == path_parts(path@),
{
    let v = chars_of(path);
    let mut done: Vec<Vec<char>> = Vec::new();
    let mut cur: Vec<char> = Vec::new();
    let mut i: usize = 0;
    while i < v.len()
        invariant
            0 <= i <= v@.len(),
            v@ == path@,
            parts_state(v@.take(i as int)) == (views(done@), cur@),
        decreases v@.len() - i,
    {
        assert(v@.take(i + 1).drop_last() =~= v@.take(i as int));
        assert(v@.take(i + 1).last() == v@[i as int]);
        if v[i] == '/' {
            if !(cur.len() == 0 || crate::text::vec_eq_str(&cur, ".")) {
                let ghost before = done@;
                let c = cur.clone();
                done.push(c);
                assert(views(done@) =~= views(before).push(cur@));
            }
            cur = Vec::new();
        } else {
            cur.push(v[i]);
        }
        i = i + 1;
    }
    assert(v@.take(v@.len() as int) =~= v@);
    if !(cur.len() == 0 || crate::text::vec_eq_str(&cur, ".")) {
        let ghost before = done@;
        done.push(cur);
        assert(views(done@) =~= views(before).push(cur@));
    }
    done
}

/// Whether `a` is a prefix of `b`.
pub open spec fn is_prefix(a: Seq<Seq<char>>, b: Seq<Seq<char>>) -> bool {
    a.len() <= b.len() && b.take(a.len() as int) == a
}

/// What is wrong with a path that must lie under `root`.
pub open spec fn under_root_problem(label: Seq<char>, path: Seq<char>, root: Seq<char>) -> Option<Seq<char>> {
    match clean_abs_error(label, path) {
        Some(e) => Some(e),
        None => match clean_abs_error("root"@, root) {
            Some(e) => Some(e),
            None => if is_prefix(path_parts(root), path_parts(path)) {
                None
            } else {
                Some(label + " '"@ + path + "' must stay under '"@ + root + "'"@)
            },
        },
    }
}

/// Rejects a path that is not clean and absolute or does not lie under
/// `root`, component by component.
pub fn validate_under_root(label: &str, path: &str, root: &str) -> (res: Result<(), BackupError>)
    ensures
        not_allowed_if(res, under_root_problem(label@, path@, root@)),
{
    match validate_clean_abs(label, path) {
        Err(e) => return Err(e),
        Ok(()) => {},
    }
    match validate_clean_abs("root", root) {
        Err(e) => return Err(e),
        Ok(()) => {},
    }
    let p = path_parts_of(path);
    let r = path_parts_of(root);
    let mut ok = r.len() <= p.len();
    if ok {
        let mut i: usize = 0;
        while i < r.len()
            invariant
                0 <= i <= r@.len(),
                r@.len() <= p@.len(),
                ok == forall|j: int| 0 <= j < i ==> views(r@)[j] == views(p@)[j],
            decreases r@.len() - i,
        {
            assert(views(r@)[i as int] == r@[i as int]@);
            assert(views(p@)[i as int] == p@[i as int]@);
            if !vec_eq(&r[i], &p[i]) {
                ok = false;
            }
            i = i + 1;
        }
        proof {
            if ok {
                assert(views(p@).take(r@.len() as int) =~= views(r@));
            } else {
                let j = choose|j: int| 0 <= j < r@.len() && views(r@)[j] != views(p@)[j];
                assert(views(p@).take(r@.len() as int)[j] == views(p@)[j]);
            }
        }
    }
    if ok {
        Ok(())
    } else {
        let mut m = cat3(label, " '", path);
        append(&mut m, "' must stay under '");
        append(&mut m, root);
        append(&mut m, "'");
        Err(BackupError::PathNotAllowed(m))
    }
}

/// The backup root: `paths.backup_root`, else `backup_policy.directory`.
pub open spec fn backup_root_of(c: Config) -> Seq<char> {
    if trim(c.paths.backup_root@).len() == 0 {
        c.backup_policy.directory@
    } else {
        c.paths.backup_root@
    }
}

/// The ARK root: `paths.ark_root`, else `cluster.directory`.
pub open spec fn ark_root_of(c: Config) -> Seq<char> {
    if trim(c.paths.ark_root@).len() == 0 {
        c.cluster.directory@
    } else {
        c.paths.ark_root@
    }
}

/// The backup root: `paths.backup_root`, else the backup policy directory.
pub fn backup_root(config: &Config) -> (res: &str)
    ensures
        res@ == backup_root_of(*config),
{
    if is_blank(config.paths.backup_root.as_str()) {
        config.backup_policy.directory.as_str()
    } else {
        config.paths.backup_root.as_str()
    }
}

/// The ARK root backups copy from: `paths.ark_root`, else the cluster directory.
pub fn ark_root(config: &Config) -> (res: &str)
    ensures
        res@ == ark_root_of(*config),
{
    if is_blank(config.paths.ark_root.as_str()) {
        config.cluster.directory.as_str()
    } else {
        config.paths.ark_root.as_str()
    }
}

/// `PathBuf::join` on Unix: an absolute `b` replaces `a`, an empty `a`
/// gives `b`; otherwise `b` follows a separator.
pub open spec fn path_join(a: Seq<char>, b: Seq<char>) -> Seq<char> {
    if starts_with(b, "/"@) || a.len() == 0 {
        b
    } else if a.last() == '/' {
        a + b
    } else {
        a + "/"@ + b
    }
}

/// `b` appended to `a` as one more path component.
pub fn join_path(a: &str, b: &str) -> (res: String)
    ensures
        res@ == path_join(a@, b@),
{
    let av = chars_of(a);
    if str_starts_with(b, "/") || av.len() == 0 {
        return owned(b);
    }
    if av[av.len() - 1] == '/' {
        cat2(a, b)
    } else {
        cat3(a, "/", b)
    }
}

/// The paths a slot backs up, with their labels: the save directory, then
/// the config directory.
pub open spec fn sources_of(slot: ServerSlot) -> Seq<(Seq<char>, Seq<char>)> {
    let save = or_opt(opt_str(slot.paths.save_dir), opt_str(slot.save_path));
    let cfg = or_opt(opt_str(slot.paths.config_dir), opt_str(slot.config_path));
    let a = match save {
        Some(p) => seq![("save"@, p)],
        None => Seq::empty(),
    };
    match cfg {
        Some(p) => a.push(("config"@, p)),
        None => a,
    }
}

/// The save and config directories configured for a slot, named.
pub fn configured_sources(slot: &ServerSlot) -> (res: Vec<(&'static str, String)>)
    ensures
        Seq::new(res@.len(), |i: int| (res@[i].0@, res@[i].1@)) == sources_of(*slot),
{
    let mut out: Vec<(&'static str, String)> = Vec::new();
    match slot.save_dir() {
        Some(p) => out.push(("save", owned(p))),
        None => {},
    }
    match slot.config_dir() {
        Some(p) => out.push(("config", owned(p))),
        None => {},
    }
    assert(Seq::new(out@.len(), |i: int| (out@[i].0@, out@[i].1@)) =~= sources_of(*slot));
    out
}

/// `r` is a new backup record with the given facts.
pub open spec fn is_new_record(
    r: BackupRecord,
    id: Seq<char>,
    slot_key: Seq<char>,
    slot: ServerSlot,
    reason: Seq<char>,
    status: Seq<char>,
    created_at: Seq<char>,
    dest: Seq<char>,
) -> bool {
    &&& r.id@ == id && r.slot_id@ == slot.id@
    &&& r.server_id@ == replace_char(slot_key, '_', '-')
    &&& r.map_key@ == slot.map_key@ && r.kind@ == "combined"@
    &&& r.reason@ == reason && r.status@ == status && r.created_at@ == created_at
    &&& r.completed_at is None && r.size_bytes == 0 && r.path@ == dest && r.error is None
}

/// A backup record for a slot, not yet completed.
pub fn new_record(
    id: &str,
    slot_key: &str,
    slot: &ServerSlot,
    reason: &str,
    status: &str,
    created_at: &str,
    dest: &str,
) -> (res: BackupRecord)
    ensures
        is_new_record(res, id@, slot_key@, *slot, reason@, status@, created_at@, dest@),
{
    let sid = replace_char_str(slot_key, '_', '-');
    BackupRecord {
        id: owned(id),
        slot_id: slot.id.clone(),
        server_id: string_from(&sid),
        map_key: slot.map_key.clone(),
        kind: owned("combined"),
        reason: owned(reason),
        status: owned(status),
        created_at: owned(created_at),
        completed_at: None,
        size_bytes: 0,
        path: owned(dest),
        error: None,
    }
}

/// Where a new backup of `slot` taken at time `now` goes: its id
/// `bk-<slot>-<now>` and the directory `<backup root>/<slot>/<id>`, both
/// checked; or why it may not be taken.
pub fn backup_destination(config: &Config, slot: &ServerSlot, now: u64) -> (res: Result<(String, String), BackupError>)
    ensures
        ({
            let id = "bk-"@ + slot.id@ + "-"@ + crate::text::decimal(now as nat);
            let root = backup_root_of(*config);
            let dest = path_join(path_join(root, slot.id@), id);
            match clean_abs_error("backup root"@, root) {
                Some(e) => res matches Err(BackupError::PathNotAllowed(m)) && m@ == e,
                None => match under_root_problem("backup destination"@, dest, root) {
                    Some(e) => res matches Err(BackupError::PathNotAllowed(m)) && m@ == e,
                    None => res matches Ok((i, d)) && i@ == id && d@ == dest,
                },
            }
        }),
{
    let n = u64_to_string(now);
    let id = cat3("bk-", slot.id.as_str(), "-");
    let mut id = id;
    append(&mut id, n.as_str());
    let root = backup_root(config);
    match validate_clean_abs("backup root", root) {
        Err(e) => return Err(e),
        Ok(()) => {},
    }
    let a = join_path(root, slot.id.as_str());
    let dest = join_path(a.as_str(), id.as_str());
    match validate_under_root("backup destination", dest.as_str(), root) {
        Err(e) => return Err(e),
        Ok(()) => {},
    }
    Ok((id, dest))
}

/// The record and error of a backup of a slot with no configured source.
pub fn no_source_backup(
    id: &str,
    slot_key: &str,
    slot: &ServerSlot,
    reason: &str,
    created_at: &str,
    dest: &str,
) -> (res: (BackupRecord, BackupError))
    ensures
        ({
            let msg = "no save_dir/config_dir configured for slot"@;
            &&& res.0 == (BackupRecord { error: res.0.error, ..res.0 })
            &&& is_new_record(BackupRecord { error: None, ..res.0 }, id@, slot_key@, *slot, reason@, "failed"@, created_at@, dest@)
            &&& opt_str(res.0.error) == Some(msg)
            &&& res.1 matches BackupError::PathMissing(m) && m@ == msg
        }),
{
    let mut r = new_record(id, slot_key, slot, reason, "failed", created_at, dest);
    r.error = Some(owned("no save_dir/config_dir configured for slot"));
    (r, BackupError::PathMissing(owned("no save_dir/config_dir configured for slot")))
}

/// Checks a configured source before copying: clean, absolute and under
/// the ARK root.
pub fn check_source(name: &str, src: &str, ark_root: &str) -> (res: Result<(), BackupError>)
    ensures
        match clean_abs_error(name@, src@) {
            Some(e) => not_allowed_if(res, Some(e)),
            None => not_allowed_if(res, under_root_problem(name@, src@, ark_root@)),
        },
{
    match validate_clean_abs(name, src) {
        Err(e) => return Err(e),
        Ok(()) => {},
    }
    validate_under_root(name, src, ark_root)
}

/// Checks that a source, after resolving links, still lies under the
/// resolved ARK root (component by component).
pub fn check_resolved_source(src: &str, canonical_src: &str, canonical_root: &str) -> (res: Result<(), BackupError>)
    ensures
        is_prefix(path_parts(canonical_root@), path_parts(canonical_src@)) ==> res is Ok,
        !is_prefix(path_parts(canonical_root@), path_parts(canonical_src@)) ==> (res matches Err(
            BackupError::PathNotAllowed(m),
        ) && m@ == src@ + " escapes allowed root"@),
{
    let p = path_parts_of(canonical_src);
    let r = path_parts_of(canonical_root);
    let mut ok = r.len() <= p.len();
    if ok {
        let mut i: usize = 0;
        while i < r.len()
            invariant
                0 <= i <= r@.len(),
                r@.len() <= p@.len(),
                ok == forall|j: int| 0 <= j < i ==> views(r@)[j] == views(p@)[j],
            decreases r@.len() - i,
        {
            assert(views(r@)[i as int] == r@[i as int]@);
            assert(views(p@)[i as int] == p@[i as int]@);
            if !vec_eq(&r[i], &p[i]) {
                ok = false;
            }
            i = i + 1;
        }
        proof {
            if ok {
                assert(views(p@).take(r@.len() as int) =~= views(r@));
            } else {
                let j = choose|j: int| 0 <= j < r@.len() && views(r@)[j] != views(p@)[j];
                assert(views(p@).take(r@.len() as int)[j] == views(p@)[j]);
            }
        }
    }
    if ok {
        Ok(())
    } else {
        Err(BackupError::PathNotAllowed(cat2(src, " escapes allowed root")))
    }
}

/// The record of a finished backup and its result: a success when some
/// source was copied, else a failure because no source path exists.
pub fn finished_backup(
    id: &str,
    slot_key: &str,
    slot: &ServerSlot,
    reason: &str,
    created_at: &str,
    dest: &str,
    copied_any: bool,
    size_bytes: u64,
    completed_at: &str,
) -> (res: (BackupRecord, Result<(), BackupError>))
    ensures
        ({
            let r = res.0;
            let msg = "configured backup source paths do not exist"@;
            &&& is_new_record(
                BackupRecord { size_bytes: 0, completed_at: None, error: None, ..r },
                id@, slot_key@, *slot, reason@,
                if copied_any { "success"@ } else { "failed"@ },
                created_at@, dest@,
            )
            &&& r.size_bytes == size_bytes
            &&& opt_str(r.completed_at) == Some(completed_at@)
            &&& if copied_any {
                r.error is None && res.1 is Ok
            } else {
                opt_str(r.error) == Some(msg) && (res.1 matches Err(BackupError::PathMissing(m)) && m@ == msg)
            }
        }),
{
    let mut r = new_record(id, slot_key, slot, reason, if copied_any { "success" } else { "failed" }, created_at, dest);
    r.size_bytes = size_bytes;
    r.completed_at = Some(owned(completed_at));
    if copied_any {
        (r, Ok(()))
    } else {
        r.error = Some(owned("configured backup source paths do not exist"));
        (r, Err(BackupError::PathMissing(owned("configured backup source paths do not exist"))))
    }
}

/// A stored backup row.
#[derive(Clone, Debug)]
pub struct BackupRow {
    pub id: String,
    pub slot_id: String,
    pub server_id: String,
    pub map_key: String,
    pub kind: String,
    pub reason: String,
    pub status: String,
    pub created_at: String,
    pub completed_at: Option<String>,
    pub size_bytes: i64,
    pub path: String,
    pub error: Option<String>,
}

pub open spec fn record_of_row(row: BackupRow) -> BackupRecord {
    BackupRecord {
        id: row.id,
        slot_id: row.slot_id,
        server_id: row.server_id,
        map_key: row.map_key,
        kind: row.kind,
        reason: row.reason,
        status: row.status,
        created_at: row.created_at,
        completed_at: row.completed_at,
        size_bytes: if row.size_bytes < 0 { 0 } else { row.size_bytes as u64 },
        path: row.path,
        error: row.error,
    }
}

impl From<BackupRow> for BackupRecord {
    /// A record from a stored row; a negative size reads as zero.
    fn from(row: BackupRow) -> (res: Self) {
        BackupRecord {
            id: row.id,
            slot_id: row.slot_id,
            server_id: row.server_id,
            map_key: row.map_key,
            kind: row.kind,
            reason: row.reason,
            status: row.status,
            created_at: row.created_at,
            completed_at: row.completed_at,
            size_bytes: if row.size_bytes < 0 { 0 } else { row.size_bytes as u64 },
            path: row.path,
            error: row.error,
        }
    }
}

impl vstd::std_specs::convert::FromSpecImpl<BackupRow> for BackupRecord {
    open spec fn obeys_from_spec() -> bool {
        true
    }

    open spec fn from_spec(row: BackupRow) -> Self {
        record_of_row(row)
    }
}

/// A path accepted as lying under a root is clean, absolute, and has the
/// root's components as its first components.
pub proof fn lemma_accepted_path_under_root(label: Seq<char>, path: Seq<char>, root: Seq<char>)
    requires
        under_root_problem(label, path, root) is None,
    ensures
        clean_abs_error(label, path) is None,
        clean_abs_error("root"@, root) is None,
        is_prefix(path_parts(root), path_parts(path)),
{
}

} // verus!
