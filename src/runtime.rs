//! The container runtime's data: statuses, branch specs, and deterministic
//! container names.

use vstd::prelude::*;
use crate::text::{
    digits_of, has_prefix, push_digits, append_chars, chars_of, collapse_runs, collapse_runs_vec, lemma_trim_end_len, string_from_chars,
    trim_end_char, trim_end_vec, trim_start_char, trim_start_vec,
};

verus! {

/// Longest container name the runtime accepts.
pub const MAX_CONTAINER_NAME_LEN: usize = 128;

/// What the runtime reports about a container.
#[derive(Debug, Clone, PartialEq, Eq)]
pub enum ContainerStatus {
    NotFound,
    Running,
    Paused,
    Exited,
    Other(String),
}

impl ContainerStatus {
    /// Whether the container is running.
    pub fn is_running(&self) -> (r: bool)
        ensures
            r == (*self is Running),
    {
        match self {
            ContainerStatus::Running => true,
            _ => false,
        }
    }
}

/// The names a container name is derived from.
#[derive(Debug, Clone)]
pub struct ReserveBranchSpec {
    pub project_name: String,
    pub branch_name: String,
}

/// A container name reserved for a branch before the container exists.
#[derive(Debug, Clone)]
pub struct ReservedBranchRuntime {
    pub container_name: String,
}

/// Everything needed to create or start a branch's container.
#[derive(Debug, Clone)]
pub struct StartBranchSpec {
    pub image: String,
    pub container_name: String,
    pub data_dir: String,
    pub port: u16,
    pub pg_user: String,
    pub pg_password: String,
    pub pg_db: String,
}

/// Reachability of the container runtime.
#[derive(Debug, Clone)]
pub struct DockerDoctorResult {
    pub available: bool,
    pub detail: String,
    pub version: Option<String>,
}

pub open spec fn is_ascii_upper(c: char) -> bool {
    'A' <= c && c <= 'Z'
}

pub open spec fn is_ascii_alnum(c: char) -> bool {
    ('a' <= c && c <= 'z') || is_ascii_upper(c) || ('0' <= c && c <= '9')
}

pub open spec fn ascii_lower(c: char) -> char {
    if is_ascii_upper(c) {
        ((c as u32) + 32) as char
    } else {
        c
    }
}

/// One input character of a name: alphanumerics lowercased, anything else a dash.
pub open spec fn name_char(c: char) -> char {
    if is_ascii_alnum(c) {
        ascii_lower(c)
    } else {
        '-'
    }
}

pub open spec fn map_name_chars(s: Seq<char>) -> Seq<char> {
    Seq::new(s.len(), |i: int| name_char(s[i]))
}

/// A name reduced to lowercase alphanumerics separated by single dashes;
/// `project` when nothing is left.
pub open spec fn sanitized(s: Seq<char>) -> Seq<char> {
    let t = trim_end_char(trim_start_char(collapse_runs(map_name_chars(s), '-'), '-'), '-');
    if t.len() == 0 {
        "project"@
    } else {
        t
    }
}

/// The container name of branch `b` of project `p`.
pub open spec fn container_name_of(p: Seq<char>, b: Seq<char>) -> Seq<char> {
    let raw = "pgbranch-"@ + sanitized(p) + "-"@ + sanitized(b);
    if raw.len() > 128 {
        trim_end_char(raw.subrange(0, 128), '-')
    } else {
        raw
    }
}

fn name_char_exec(c: char) -> (r: char)
    ensures
        r == name_char(c),
{
    if 'A' <= c && c <= 'Z' {
        ((c as u8) + 32) as char
    } else if ('a' <= c && c <= 'z') || ('0' <= c && c <= '9') {
        c
    } else {
        '-'
    }
}

/// Sanitizes one name component of a container name.
pub fn sanitize(input: &str) -> (r: String)
    ensures
        r@ == sanitized(input@),
{
    let chars = chars_of(input);
    let mut mapped: Vec<char> = Vec::new();
    let mut i: usize = 0;
    while i < chars.len()
        invariant
            chars@ == input@,
            i <= chars@.len(),
            mapped@ == map_name_chars(input@).subrange(0, i as int),
        decreases chars@.len() - i,
    {
        mapped.push(name_char_exec(chars[i]));
        i += 1;
        proof {
            assert(mapped@ =~= map_name_chars(input@).subrange(0, i as int));
        }
    }
    proof {
        assert(mapped@ =~= map_name_chars(input@));
    }
    let collapsed = collapse_runs_vec(&mapped, '-');
    let rest = trim_start_vec(&collapsed, '-');
    let trimmed = trim_end_vec(&rest, '-');
    if trimmed.len() == 0 {
        String::from_str("project")
    } else {
        string_from_chars(&trimmed)
    }
}

/// Derives the container name of a branch. The name depends on the two names
/// alone, so it can be persisted before the container is created.
pub fn reserve_branch(spec: &ReserveBranchSpec) -> (r: ReservedBranchRuntime)
    ensures
        r.container_name@ == container_name_of(spec.project_name@, spec.branch_name@),
        r.container_name@.len() <= MAX_CONTAINER_NAME_LEN,
        well_formed_container_name(r.container_name@),
{
    proof {
        lemma_container_name_well_formed(spec.project_name@, spec.branch_name@);
    }
    let p = sanitize(spec.project_name.as_str());
    let b = sanitize(spec.branch_name.as_str());
    let mut raw: Vec<char> = Vec::new();
    append_chars(&mut raw, "pgbranch-");
    append_chars(&mut raw, p.as_str());
    append_chars(&mut raw, "-");
    append_chars(&mut raw, b.as_str());
    proof {
        assert(raw@ =~= "pgbranch-"@ + sanitized(spec.project_name@) + "-"@ + sanitized(
            spec.branch_name@,
        ));
    }
    if raw.len() > MAX_CONTAINER_NAME_LEN {
        let mut head: Vec<char> = Vec::new();
        let mut i: usize = 0;
        while i < MAX_CONTAINER_NAME_LEN
            invariant
                raw@.len() > MAX_CONTAINER_NAME_LEN,
                i <= MAX_CONTAINER_NAME_LEN,
                head@ == raw@.subrange(0, i as int),
            decreases MAX_CONTAINER_NAME_LEN - i,
        {
            head.push(raw[i]);
            i += 1;
            proof {
                assert(head@ =~= raw@.subrange(0, i as int));
            }
        }
        let t = trim_end_vec(&head, '-');
        proof {
            lemma_trim_end_len(head@, '-');
        }
        ReservedBranchRuntime { container_name: string_from_chars(&t) }
    } else {
        ReservedBranchRuntime { container_name: string_from_chars(&raw) }
    }
}

/// A container name never exceeds the runtime's limit, whatever the two names.
pub proof fn lemma_container_name_capped(p: Seq<char>, b: Seq<char>)
    ensures
        container_name_of(p, b).len() <= 128,
{
    let raw = "pgbranch-"@ + sanitized(p) + "-"@ + sanitized(b);
    if raw.len() > 128 {
        lemma_trim_end_len(raw.subrange(0, 128), '-');
    }
}

/// What starting a branch's container takes, given its status.
#[derive(Debug, Clone, Copy, PartialEq, Eq, Structural)]
pub enum StartPlan {
    /// Running already: nothing to do.
    Nothing,
    /// Paused: unpause it.
    Unpause,
    /// Exited or in another state: start the existing container.
    StartExisting,
    /// Missing: create the container with its mount, port and label, then start it.
    CreateAndStart,
}

/// What stopping a branch's container takes, given its status.
#[derive(Debug, Clone, Copy, PartialEq, Eq, Structural)]
pub enum StopPlan {
    /// Missing, exited or in another state: nothing to do.
    Nothing,
    /// Paused: unpause it, then stop it gracefully.
    UnpauseThenStop,
    /// Running: stop it gracefully.
    Stop,
}

/// Plans the start of a container.
pub fn plan_start(status: &ContainerStatus) -> (r: StartPlan)
    ensures
        (*status is Running) <==> r == StartPlan::Nothing,
        (*status is Paused) <==> r == StartPlan::Unpause,
        (*status is Exited || *status is Other) <==> r == StartPlan::StartExisting,
        (*status is NotFound) <==> r == StartPlan::CreateAndStart,
{
    match status {
        ContainerStatus::Running => StartPlan::Nothing,
        ContainerStatus::Paused => StartPlan::Unpause,
        ContainerStatus::Exited | ContainerStatus::Other(_) => StartPlan::StartExisting,
        ContainerStatus::NotFound => StartPlan::CreateAndStart,
    }
}

/// Plans the stop of a container.
pub fn plan_stop(status: &ContainerStatus) -> (r: StopPlan)
    ensures
        (*status is Running) <==> r == StopPlan::Stop,
        (*status is Paused) <==> r == StopPlan::UnpauseThenStop,
        (*status is NotFound || *status is Exited || *status is Other) <==> r == StopPlan::Nothing,
{
    match status {
        ContainerStatus::Running => StopPlan::Stop,
        ContainerStatus::Paused => StopPlan::UnpauseThenStop,
        ContainerStatus::NotFound | ContainerStatus::Exited | ContainerStatus::Other(_) => StopPlan::Nothing,
    }
}

/// A pause acts only on a running container.
pub fn should_pause(status: &ContainerStatus) -> (r: bool)
    ensures
        r == (*status is Running),
{
    status.is_running()
}

/// An unpause acts only on a paused container.
pub fn should_unpause(status: &ContainerStatus) -> (r: bool)
    ensures
        r == (*status is Paused),
{
    match status {
        ContainerStatus::Paused => true,
        _ => false,
    }
}

/// A removal acts on any container that exists.
pub fn should_remove(status: &ContainerStatus) -> (r: bool)
    ensures
        r == !(*status is NotFound),
{
    match status {
        ContainerStatus::NotFound => false,
        _ => true,
    }
}

/// Characters a container name is made of.
pub open spec fn is_name_char(c: char) -> bool {
    ('a' <= c && c <= 'z') || ('0' <= c && c <= '9') || c == '-'
}

pub open spec fn all_name_chars(s: Seq<char>) -> bool {
    forall|i: int| 0 <= i < s.len() ==> is_name_char(#[trigger] s[i])
}

/// A valid container name: at most 128 characters of `[a-z0-9-]`, starting
/// with `pgbranch-` and not ending in a dash.
pub open spec fn well_formed_container_name(n: Seq<char>) -> bool {
    &&& n.len() <= 128
    &&& has_prefix(n, "pgbranch-"@)
    &&& n.len() > 0 && n.last() != '-'
    &&& all_name_chars(n)
}

proof fn lemma_collapse_keeps_chars(s: Seq<char>, c: char)
    requires
        all_name_chars(s),
    ensures
        all_name_chars(collapse_runs(s, c)),
    decreases s.len(),
{
    if s.len() > 0 {
        assert(all_name_chars(s.drop_last()));
        lemma_collapse_keeps_chars(s.drop_last(), c);
        assert(is_name_char(s.last()));
    }
}

proof fn lemma_trim_start_suffix(s: Seq<char>, c: char)
    ensures
        trim_start_char(s, c).len() <= s.len(),
        trim_start_char(s, c) == s.subrange(s.len() - trim_start_char(s, c).len(), s.len() as int),
        trim_start_char(s, c).len() > 0 ==> trim_start_char(s, c)[0] != c,
    decreases s.len(),
{
    if s.len() > 0 && s[0] == c {
        lemma_trim_start_suffix(s.drop_first(), c);
        let t = trim_start_char(s, c);
        assert(s.drop_first().subrange(s.drop_first().len() - t.len(), s.drop_first().len() as int) =~= s.subrange(
            s.len() - t.len(),
            s.len() as int,
        ));
    } else {
        assert(s.subrange(0, s.len() as int) =~= s);
    }
}

proof fn lemma_trim_end_last(s: Seq<char>, c: char)
    ensures
        trim_end_char(s, c).len() > 0 ==> trim_end_char(s, c).last() != c,
    decreases s.len(),
{
    if s.len() > 0 && s.last() == c {
        lemma_trim_end_last(s.drop_last(), c);
    }
}

proof fn lemma_trim_end_keeps(s: Seq<char>, c: char, i: int)
    requires
        0 <= i < s.len(),
        s[i] != c,
    ensures
        trim_end_char(s, c).len() > i,
    decreases s.len(),
{
    if s.len() > 0 && s.last() == c {
        lemma_trim_end_keeps(s.drop_last(), c, i);
    }
}

/// A sanitized name component is non-empty, made of `[a-z0-9-]`, and neither
/// starts nor ends with a dash.
pub proof fn lemma_sanitized_shape(s: Seq<char>)
    ensures
        sanitized(s).len() > 0,
        all_name_chars(sanitized(s)),
        sanitized(s)[0] != '-',
        sanitized(s).last() != '-',
{
    let m = map_name_chars(s);
    assert forall|i: int| 0 <= i < m.len() implies is_name_char(#[trigger] m[i]) by {
        let c = s[i];
        if is_ascii_upper(c) {
            assert((c as u32) + 32 <= 'z' as u32) by {
                assert('A' as u32 == 65 && 'Z' as u32 == 90 && 'a' as u32 == 97 && 'z' as u32 == 122);
            }
        }
    }
    let col = collapse_runs(m, '-');
    lemma_collapse_keeps_chars(m, '-');
    let st = trim_start_char(col, '-');
    lemma_trim_start_suffix(col, '-');
    assert(all_name_chars(st)) by {
        assert forall|i: int| 0 <= i < st.len() implies is_name_char(#[trigger] st[i]) by {
            assert(st[i] == col[col.len() - st.len() + i]);
        }
    }
    let t = trim_end_char(st, '-');
    lemma_trim_end_len(st, '-');
    lemma_trim_end_last(st, '-');
    if t.len() == 0 {
        reveal_strlit("project");
        assert(sanitized(s) == "project"@);
    } else {
        assert(t[0] == st[0]);
        assert forall|i: int| 0 <= i < t.len() implies is_name_char(#[trigger] t[i]) by {
            assert(t[i] == st[i]);
        }
    }
}

/// Every container name is well formed: at most 128 characters of
/// `[a-z0-9-]`, starting with `pgbranch-` and not ending in a dash.
pub proof fn lemma_container_name_well_formed(p: Seq<char>, b: Seq<char>)
    ensures
        well_formed_container_name(container_name_of(p, b)),
{
    reveal_strlit("pgbranch-");
    reveal_strlit("-");
    let a = sanitized(p);
    let c = sanitized(b);
    lemma_sanitized_shape(p);
    lemma_sanitized_shape(b);
    let pre = "pgbranch-"@;
    let raw = pre + a + "-"@ + c;
    assert(all_name_chars(raw)) by {
        assert forall|i: int| 0 <= i < raw.len() implies is_name_char(#[trigger] raw[i]) by {
            if i < 9 {
                assert(raw[i] == pre[i]);
            } else if i < 9 + a.len() {
                assert(raw[i] == a[i - 9]);
            } else if i == 9 + a.len() {
            } else {
                assert(raw[i] == c[i - 10 - a.len()]);
            }
        }
    }
    assert(raw.subrange(0, 9) =~= pre);
    assert(raw[9] == a[0]);
    lemma_container_name_capped(p, b);
    if raw.len() > 128 {
        let h = raw.subrange(0, 128);
        assert(h[9] != '-');
        lemma_trim_end_keeps(h, '-', 9);
        lemma_trim_end_len(h, '-');
        lemma_trim_end_last(h, '-');
        let t = trim_end_char(h, '-');
        assert(t.subrange(0, 9) =~= pre) by {
            assert forall|i: int| 0 <= i < 9 implies t.subrange(0, 9)[i] == pre[i] by {
                assert(t[i] == h[i]);
                assert(h[i] == raw[i]);
            }
        }
        assert forall|i: int| 0 <= i < t.len() implies is_name_char(#[trigger] t[i]) by {
            assert(t[i] == h[i]);
            assert(h[i] == raw[i]);
        }
    } else {
        assert(raw.last() == c.last());
    }
}

/// Where PostgreSQL keeps its data inside a branch container.
pub const PGDATA_CONTAINER_PATH: &'static str = "/var/lib/postgresql/data";

/// How a new branch container is set up.
#[derive(Debug, Clone)]
pub struct ContainerSettings {
    /// The single bind mount: `<data dir>:<in-container data path>`.
    pub mount: String,
    /// The container port that is published.
    pub container_port: String,
    /// The host address and port it is published on.
    pub host_ip: String,
    pub host_port: String,
    /// `POSTGRES_USER`, `POSTGRES_PASSWORD` and `POSTGRES_DB` settings.
    pub env: Vec<String>,
    /// The management label every branch container carries.
    pub label_key: String,
    pub label_value: String,
}

fn joined(a: &str, b: &str) -> (r: String)
    ensures
        r@ == a@ + b@,
{
    let mut v: Vec<char> = Vec::new();
    append_chars(&mut v, a);
    append_chars(&mut v, b);
    string_from_chars(&v)
}

/// The settings of a branch container created from `spec`.
pub fn container_settings(spec: &StartBranchSpec) -> (r: ContainerSettings)
    ensures
        r.mount@ == spec.data_dir@ + ":"@ + "/var/lib/postgresql/data"@,
        r.container_port@ == "5432/tcp"@,
        r.host_ip@ == "0.0.0.0"@,
        r.host_port@ == digits_of(spec.port as nat, 10),
        r.env@.len() == 3,
        r.env@[0]@ == "POSTGRES_USER="@ + spec.pg_user@,
        r.env@[1]@ == "POSTGRES_PASSWORD="@ + spec.pg_password@,
        r.env@[2]@ == "POSTGRES_DB="@ + spec.pg_db@,
        r.label_key@ == "pgbranch.managed"@,
        r.label_value@ == "true"@,
{
    let mut m: Vec<char> = Vec::new();
    append_chars(&mut m, spec.data_dir.as_str());
    append_chars(&mut m, ":");
    append_chars(&mut m, PGDATA_CONTAINER_PATH);
    let mut p: Vec<char> = Vec::new();
    push_digits(&mut p, spec.port as u64, 10);
    proof {
        assert(p@ =~= digits_of(spec.port as nat, 10));
    }
    let mut env: Vec<String> = Vec::new();
    env.push(joined("POSTGRES_USER=", spec.pg_user.as_str()));
    env.push(joined("POSTGRES_PASSWORD=", spec.pg_password.as_str()));
    env.push(joined("POSTGRES_DB=", spec.pg_db.as_str()));
    ContainerSettings {
        mount: string_from_chars(&m),
        container_port: String::from_str("5432/tcp"),
        host_ip: String::from_str("0.0.0.0"),
        host_port: string_from_chars(&p),
        env,
        label_key: String::from_str("pgbranch.managed"),
        label_value: String::from_str("true"),
    }
}

} // verus!
