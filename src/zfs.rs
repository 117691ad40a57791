//! Naming and detection logic of the ZFS driver.

use vstd::prelude::*;
use crate::storage::{BackendDetection, ZfsBranchMetadata, ZfsProjectConfig};
use crate::text::{
    append_chars, chars_of, contains_seq, contains_str, find_char, first_index_of, has_prefix, lines_spec,
    slice_chars, split_lines, str_eq, string_from_chars,
};

verus! {

/// `<root>/projects/<project id>`: the dataset that holds a project's branches.
pub open spec fn project_dataset_spec(root: Seq<char>, project_id: Seq<char>) -> Seq<char> {
    root + "/projects/"@ + project_id
}

/// `<root>/projects/<project id>/branches/<branch id>`: a branch's dataset.
pub open spec fn branch_dataset_spec(root: Seq<char>, project_id: Seq<char>, branch_id: Seq<char>) -> Seq<char> {
    root + "/projects/"@ + project_id + "/branches/"@ + branch_id
}

/// The first eight characters of an identifier (all of it when shorter).
pub open spec fn short_id_spec(s: Seq<char>) -> Seq<char> {
    if s.len() <= 8 {
        s
    } else {
        s.subrange(0, 8)
    }
}

/// `<parent dataset>@pgbranch_<short child id>`: the snapshot a child is cloned from.
pub open spec fn origin_snapshot_spec(parent_dataset: Seq<char>, child_id: Seq<char>) -> Seq<char> {
    parent_dataset + "@"@ + "pgbranch_"@ + short_id_spec(child_id)
}

/// The dataset that holds a project's branches.
pub fn project_dataset_name(config: &ZfsProjectConfig, project_id: &str) -> (r: String)
    ensures
        r@ == project_dataset_spec(config.root_dataset@, project_id@),
{
    let mut v: Vec<char> = Vec::new();
    append_chars(&mut v, config.root_dataset.as_str());
    append_chars(&mut v, "/projects/");
    append_chars(&mut v, project_id);
    string_from_chars(&v)
}

/// The dataset of one branch.
pub fn branch_dataset_name(config: &ZfsProjectConfig, project_id: &str, branch_id: &str) -> (r: String)
    ensures
        r@ == branch_dataset_spec(config.root_dataset@, project_id@, branch_id@),
{
    let mut v: Vec<char> = Vec::new();
    append_chars(&mut v, config.root_dataset.as_str());
    append_chars(&mut v, "/projects/");
    append_chars(&mut v, project_id);
    append_chars(&mut v, "/branches/");
    append_chars(&mut v, branch_id);
    string_from_chars(&v)
}

/// The first eight characters of an identifier.
pub fn short_id(value: &str) -> (r: String)
    ensures
        r@ == short_id_spec(value@),
{
    let cs = chars_of(value);
    let n: usize = if cs.len() <= 8 { cs.len() } else { 8 };
    let mut out: Vec<char> = Vec::new();
    let mut i: usize = 0;
    while i < n
        invariant
            cs@ == value@,
            n <= cs@.len(),
            n == (if cs@.len() <= 8 { cs@.len() } else { 8 }),
            i <= n,
            out@ == cs@.subrange(0, i as int),
        decreases n - i,
    {
        out.push(cs[i]);
        i += 1;
        proof {
            assert(out@ =~= cs@.subrange(0, i as int));
        }
    }
    proof {
        if cs@.len() <= 8 {
            assert(cs@.subrange(0, n as int) =~= cs@);
        }
    }
    string_from_chars(&out)
}

/// The full name of the snapshot of the parent's dataset that a child branch is cloned from.
pub fn origin_snapshot_name(parent_dataset: &str, child_branch_id: &str) -> (r: String)
    ensures
        r@ == origin_snapshot_spec(parent_dataset@, child_branch_id@),
{
    let short = short_id(child_branch_id);
    let mut v: Vec<char> = Vec::new();
    append_chars(&mut v, parent_dataset);
    append_chars(&mut v, "@");
    append_chars(&mut v, "pgbranch_");
    append_chars(&mut v, short.as_str());
    string_from_chars(&v)
}

/// The metadata recorded for a ZFS branch: its dataset and, for a clone, the
/// snapshot of the parent's dataset it was cloned from.
pub fn branch_metadata(config: &ZfsProjectConfig, project_id: &str, branch_id: &str, parent_dataset: Option<&str>) -> (r: ZfsBranchMetadata)
    ensures
        r.dataset@ == branch_dataset_spec(config.root_dataset@, project_id@, branch_id@),
        (match parent_dataset {
            Some(p) => r.origin_snapshot matches Some(s) && s@ == origin_snapshot_spec(p@, branch_id@),
            None => r.origin_snapshot is None,
        }),
{
    let dataset = branch_dataset_name(config, project_id, branch_id);
    let origin_snapshot = match parent_dataset {
        Some(p) => Some(origin_snapshot_name(p, branch_id)),
        None => None,
    };
    ZfsBranchMetadata { dataset, origin_snapshot }
}

/// What `Path::parent` gives for a path: the path without its last component.
pub uninterp spec fn parent_path_of(s: Seq<char>) -> Option<Seq<char>>;

/// Relies on `std::path::Path::parent`: the path without its last component, or
/// `None` for a root or an empty path.
#[verifier::external_body]
fn path_parent(s: &str) -> (r: Option<String>)
    ensures
        (match r {
            Some(p) => parent_path_of(s@) == Some(p@),
            None => parent_path_of(s@) is None,
        }),
{
    std::path::Path::new(s).parent().map(|p| p.to_string_lossy().to_string())
}

/// A data directory with no parent directory.
#[derive(Debug, Clone)]
pub struct NoParentDir {
    pub data_dir: String,
}

/// The branch's root directory: the parent of its data directory, which is the
/// mountpoint of the branch's dataset.
pub fn branch_root_from_data_dir(data_dir: &str) -> (r: Result<String, NoParentDir>)
    ensures
        (match parent_path_of(data_dir@) {
            Some(p) => r matches Ok(s) && s@ == p,
            None => r matches Err(e) && e.data_dir@ == data_dir@,
        }),
{
    match path_parent(data_dir) {
        Some(p) => Ok(p),
        None => Err(NoParentDir { data_dir: String::from_str(data_dir) }),
    }
}

/// Characters with the Unicode `White_Space` property, which
/// `char::is_whitespace` and `str::trim` go by.
pub open spec fn is_white_space(c: char) -> bool {
    ('\u{9}' <= c && c <= '\u{d}') || c == ' ' || c == '\u{85}' || c == '\u{a0}' || c == '\u{1680}'
        || ('\u{2000}' <= c && c <= '\u{200a}') || c == '\u{2028}' || c == '\u{2029}' || c == '\u{202f}'
        || c == '\u{205f}' || c == '\u{3000}'
}

/// The text is empty or only whitespace: what trimming leaves nothing of.
pub open spec fn is_blank(s: Seq<char>) -> bool {
    forall|i: int| 0 <= i < s.len() ==> is_white_space(#[trigger] s[i])
}

fn blank(s: &str) -> (r: bool)
    ensures
        r == is_blank(s@),
{
    let cs = chars_of(s);
    let mut i: usize = 0;
    while i < cs.len()
        invariant
            cs@ == s@,
            i <= cs@.len(),
            forall|j: int| 0 <= j < i ==> is_white_space(#[trigger] s@[j]),
        decreases cs@.len() - i,
    {
        let c = cs[i];
        let w = ('\u{9}' <= c && c <= '\u{d}') || c == ' ' || c == '\u{85}' || c == '\u{a0}' || c == '\u{1680}'
            || ('\u{2000}' <= c && c <= '\u{200a}') || c == '\u{2028}' || c == '\u{2029}' || c == '\u{202f}'
            || c == '\u{205f}' || c == '\u{3000}';
        if !w {
            return false;
        }
        i += 1;
    }
    true
}

/// The root dataset: an explicitly configured one wins (blank meaning none),
/// else the one found from the mountpoints.
pub fn resolve_root_dataset(explicit: Option<String>, detected: Option<String>) -> (r: Option<String>)
    ensures
        (match explicit {
            Some(e) => if is_blank(e@) {
                r is None
            } else {
                r == Some(e)
            },
            None => r == detected,
        }),
{
    match explicit {
        Some(e) => if blank(e.as_str()) {
            None
        } else {
            Some(e)
        },
        None => detected,
    }
}

/// How the permission probe (creating and destroying a child dataset) went.
#[derive(Debug, Clone)]
pub enum ProbeOutcome {
    /// The child dataset was created.
    Created,
    /// `zfs create` ran and refused, with this error output.
    Refused(String),
    /// The command could not be run, with this error.
    Failed(String),
}

/// The error output says that mounting needs root.
pub open spec fn needs_root(stderr: Seq<char>) -> bool {
    contains_seq(stderr, "may only be mounted by root"@) || contains_seq(stderr, "Insufficient privileges"@)
}

fn text_of(parts: &Vec<&str>) -> (r: String)
    ensures
        r@ == concat_all(parts@.map_values(|p: &str| p@)),
{
    let mut v: Vec<char> = Vec::new();
    let mut i: usize = 0;
    while i < parts.len()
        invariant
            i <= parts@.len(),
            v@ == concat_all(parts@.subrange(0, i as int).map_values(|p: &str| p@)),
        decreases parts@.len() - i,
    {
        let ghost before = v@;
        append_chars(&mut v, parts[i]);
        proof {
            let s = parts@.subrange(0, i + 1).map_values(|p: &str| p@);
            assert(s.drop_last() =~= parts@.subrange(0, i as int).map_values(|p: &str| p@));
        }
        i += 1;
    }
    proof {
        assert(parts@.subrange(0, parts@.len() as int) =~= parts@);
    }
    string_from_chars(&v)
}

/// The strings of `s` one after the other.
pub open spec fn concat_all(s: Seq<Seq<char>>) -> Seq<char>
    decreases s.len(),
{
    if s.len() == 0 {
        Seq::empty()
    } else {
        concat_all(s.drop_last()) + s.last()
    }
}

/// Turns the permission probe on a root dataset into the ZFS detection result:
/// available exactly when the probe created its dataset.
pub fn detection_from_probe(root_dataset: String, outcome: &ProbeOutcome) -> (r: BackendDetection)
    ensures
        r.available == (*outcome is Created),
        r.root_dataset == Some(root_dataset),
        (match *outcome {
            ProbeOutcome::Created => r.detail@ == "ZFS available with root dataset '"@ + root_dataset@ + "'"@,
            ProbeOutcome::Refused(e) => if needs_root(e@) {
                r.detail@ == "ZFS dataset detected ('"@ + root_dataset@
                    + "') but mounting child datasets requires root privileges on Linux: "@ + e@
            } else {
                r.detail@ == "ZFS dataset detected ('"@ + root_dataset@ + "') but create permission probe failed: "@ + e@
            },
            ProbeOutcome::Failed(e) => r.detail@ == "ZFS dataset detected ('"@ + root_dataset@
                + "') but probe command failed: "@ + e@,
        }),
{
    proof {
        reveal_with_fuel(concat_all, 5);
    }
    let detail = match outcome {
        ProbeOutcome::Created => {
            let parts = vec!["ZFS available with root dataset '", root_dataset.as_str(), "'"];
            text_of(&parts)
        },
        ProbeOutcome::Refused(stderr) => {
            if contains_str(stderr.as_str(), "may only be mounted by root") || contains_str(
                stderr.as_str(),
                "Insufficient privileges",
            ) {
                let parts = vec![
                    "ZFS dataset detected ('",
                    root_dataset.as_str(),
                    "') but mounting child datasets requires root privileges on Linux: ",
                    stderr.as_str(),
                ];
                text_of(&parts)
            } else {
                let parts = vec![
                    "ZFS dataset detected ('",
                    root_dataset.as_str(),
                    "') but create permission probe failed: ",
                    stderr.as_str(),
                ];
                text_of(&parts)
            }
        },
        ProbeOutcome::Failed(err) => {
            let parts = vec![
                "ZFS dataset detected ('",
                root_dataset.as_str(),
                "') but probe command failed: ",
                err.as_str(),
            ];
            text_of(&parts)
        },
    };
    BackendDetection { available: outcome.is_created(), detail, root_dataset: Some(root_dataset) }
}

impl ProbeOutcome {
    pub fn is_created(&self) -> (r: bool)
        ensures
            r == (*self is Created),
    {
        match self {
            ProbeOutcome::Created => true,
            _ => false,
        }
    }
}

/// Settings of a file-backed ZFS pool.
#[derive(Debug, Clone)]
pub struct ZfsPoolSetupConfig {
    pub pool_name: String,
    pub image_path: String,
    pub image_size: String,
    pub mountpoint: String,
}

impl Default for ZfsPoolSetupConfig {
    fn default() -> (r: ZfsPoolSetupConfig)
        ensures
            r.pool_name@ == "pgbranch"@,
            r.image_path@ == "/var/lib/pgbranch/pgdata.img"@,
            r.image_size@ == "10G"@,
            r.mountpoint@ == "/var/lib/pgbranch/data"@,
    {
        ZfsPoolSetupConfig {
            pool_name: String::from_str("pgbranch"),
            image_path: String::from_str("/var/lib/pgbranch/pgdata.img"),
            image_size: String::from_str("10G"),
            mountpoint: String::from_str("/var/lib/pgbranch/data"),
        }
    }
}

/// How far the machine is from a usable ZFS setup.
#[derive(Debug, Clone)]
pub enum ZfsSetupStatus {
    /// A usable dataset already covers the projects root.
    AlreadyAvailable { root_dataset: String },
    /// The `pgbranch` pool exists but does not cover the projects root; its mountpoint.
    PgbranchPoolExists { mountpoint: String },
    /// The tools are installed but no suitable pool exists.
    ToolsAvailableNoPool,
    /// The `zfs` command is missing.
    ToolsNotInstalled,
    /// Not a Linux machine.
    NotSupported,
}

/// The dataset and mountpoint of one line of `zfs list -H -o name,mountpoint`:
/// the text before the first tab, and the text after it up to the next tab.
/// A line without a tab has no mountpoint.
pub open spec fn line_fields(line: Seq<char>) -> Option<(Seq<char>, Seq<char>)> {
    match first_index_of(line, '\t') {
        None => None,
        Some(t) => {
            let rest = line.subrange(t + 1, line.len() as int);
            let mp = match first_index_of(rest, '\t') {
                Some(u) => rest.subrange(0, u),
                None => rest,
            };
            Some((line.subrange(0, t), mp))
        },
    }
}

/// A mountpoint covers the projects root: it is the root or one of its ancestors.
pub open spec fn covers(root: Seq<char>, mp: Seq<char>) -> bool {
    mp != "-"@ && mp != "legacy"@ && (root == mp || has_prefix(root, mp + "/"@))
}

/// The line names a dataset whose mountpoint covers the root.
pub open spec fn line_covers(root: Seq<char>, line: Seq<char>) -> bool {
    line_fields(line) matches Some((d, mp)) && covers(root, mp)
}

pub open spec fn dataset_of(line: Seq<char>) -> Seq<char> {
    match line_fields(line) {
        Some((d, mp)) => d,
        None => Seq::empty(),
    }
}

pub open spec fn line_score(line: Seq<char>) -> nat {
    match line_fields(line) {
        Some((d, mp)) => mp.len(),
        None => 0,
    }
}

/// Line `i` wins among the first `n` lines: it covers the root with the longest
/// mountpoint, and no earlier line has one as long.
pub open spec fn wins_among(root: Seq<char>, lines: Seq<Seq<char>>, i: int, n: int) -> bool {
    &&& 0 <= i < n
    &&& line_covers(root, lines[i])
    &&& forall|j: int| 0 <= j < n && line_covers(root, #[trigger] lines[j]) ==> line_score(lines[j]) <= line_score(lines[i])
    &&& forall|j: int| 0 <= j < i && line_covers(root, #[trigger] lines[j]) ==> line_score(lines[j]) < line_score(lines[i])
}

fn split_fields(lc: &Vec<char>) -> (r: Option<(Vec<char>, Vec<char>)>)
    ensures
        (match r {
            Some((d, mp)) => line_fields(lc@) == Some((d@, mp@)),
            None => line_fields(lc@) is None,
        }),
{
    let n = lc.len();
    match find_char(lc, '\t') {
        None => None,
        Some(t) => {
            let dataset = slice_chars(lc, 0, t);
            let rest = slice_chars(lc, t + 1, n);
            let mp = match find_char(&rest, '\t') {
                Some(u) => slice_chars(&rest, 0, u),
                None => rest,
            };
            Some((dataset, mp))
        },
    }
}

fn mountpoint_covers(projects_root: &str, mp: &Vec<char>) -> (r: bool)
    ensures
        r == covers(projects_root@, mp@),
{
    let mp_text = string_from_chars(mp);
    let mut mp_slash: Vec<char> = slice_chars(mp, 0, mp.len());
    mp_slash.push('/');
    proof {
        assert(mp@.subrange(0, mp@.len() as int) =~= mp@);
        assert(mp_slash@ =~= mp@ + "/"@) by {
            reveal_strlit("/");
        }
    }
    let slash_text = string_from_chars(&mp_slash);
    let skip = str_eq(mp_text.as_str(), "-") || str_eq(mp_text.as_str(), "legacy");
    !skip && (str_eq(projects_root, mp_text.as_str()) || crate::text::starts_with(projects_root, slash_text.as_str()))
}

/// The dataset of a line whose mountpoint covers the root, with the mountpoint's length.
fn line_match(projects_root: &str, line: &Vec<char>) -> (r: Option<(Vec<char>, usize)>)
    ensures
        (match r {
            Some((d, s)) => line_covers(projects_root@, line@) && d@ == dataset_of(line@) && s == line_score(line@),
            None => !line_covers(projects_root@, line@),
        }),
{
    match split_fields(line) {
        None => None,
        Some((dataset, mp)) => {
            if mountpoint_covers(projects_root, &mp) {
                Some((dataset, mp.len()))
            } else {
                None
            }
        },
    }
}

/// Finds the dataset whose mountpoint is the longest one covering the
/// (canonical) projects root, in the output of `zfs list -H -o name,mountpoint`.
pub fn detect_dataset_from_mountpoints(projects_root: &str, zfs_list_output: &str) -> (r: Option<String>)
    ensures
        (match r {
            Some(d) => exists|i: int| #[trigger] wins_among(projects_root@, lines_spec(zfs_list_output@), i, lines_spec(zfs_list_output@).len() as int)
                && dataset_of(lines_spec(zfs_list_output@)[i]) == d@,
            None => forall|j: int| 0 <= j < lines_spec(zfs_list_output@).len() ==> !line_covers(projects_root@, #[trigger] lines_spec(zfs_list_output@)[j]),
        }),
{
    let lines = split_lines(zfs_list_output);
    let ghost ls = lines_spec(zfs_list_output@);
    let ghost root = projects_root@;
    proof {
        assert(lines@.len() == ls.len());
        assert(forall|k: int| 0 <= k < ls.len() ==> #[trigger] ls[k] == lines@[k]@);
    }
    let mut best: Option<(Vec<char>, usize)> = None;
    let ghost mut best_i: int = -1;
    let mut k: usize = 0;
    while k < lines.len()
        invariant
            ls == lines_spec(zfs_list_output@),
            root == projects_root@,
            lines@.len() == ls.len(),
            forall|x: int| 0 <= x < ls.len() ==> #[trigger] ls[x] == lines@[x]@,
            k <= lines@.len(),
            (match best {
                None => forall|j: int| 0 <= j < k ==> !line_covers(root, #[trigger] ls[j]),
                Some((d, s)) => wins_among(root, ls, best_i, k as int) && dataset_of(ls[best_i]) == d@
                    && s == line_score(ls[best_i]),
            }),
        decreases lines@.len() - k,
    {
        match line_match(projects_root, &lines[k]) {
            None => {},
            Some((dataset, score)) => {
                let better = match &best {
                    None => true,
                    Some((_, s)) => score > *s,
                };
                if better {
                    best = Some((dataset, score));
                    proof {
                        best_i = k as int;
                    }
                }
            },
        }
        k += 1;
    }
    match best {
        Some((d, _)) => Some(string_from_chars(&d)),
        None => None,
    }
}

} // verus!
