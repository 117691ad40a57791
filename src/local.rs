//! Settings and reports of the local backend.

use vstd::prelude::*;
use crate::backends::{ConnectionInfo, DoctorCheck, DoctorReport};
use crate::config::LocalBackendConfig;
use crate::model::backend_text;
use crate::runtime::DockerDoctorResult;
use crate::storage::{StorageDoctorEntry, StorageDoctorReport};
use crate::text::{append_chars, digits_of, has_prefix, push_digits, starts_with, string_from_chars, chars_of, slice_chars};

verus! {

/// Image used for branches when none is configured.
pub const DEFAULT_IMAGE: &'static str = "postgres:17";

/// First port handed to branches when none is configured.
pub const DEFAULT_PORT_RANGE_START: u16 = 55432;

/// Seconds to wait for a new branch's database to accept connections.
pub const STARTUP_TIMEOUT_SECS: u64 = 120;

/// The local backend's effective settings.
#[derive(Debug, Clone)]
pub struct LocalSettings {
    pub image: String,
    pub port_range_start: u16,
    pub pg_user: String,
    pub pg_password: String,
    pub pg_db: String,
    /// The configured data root, before `~/` expansion; `None` for the default.
    pub data_root: Option<String>,
}

/// A configured text setting, or its default.
pub open spec fn setting(config: Option<&LocalBackendConfig>, f: spec_fn(LocalBackendConfig) -> Option<String>, d: Seq<char>) -> Seq<char> {
    match config {
        Some(c) => match f(*c) {
            Some(s) => s@,
            None => d,
        },
        None => d,
    }
}

fn pick(o: &Option<String>, d: &str) -> (r: String)
    ensures
        r@ == (match o {
            Some(s) => s@,
            None => d@,
        }),
{
    match o {
        Some(s) => s.clone(),
        None => String::from_str(d),
    }
}

/// The settings of the local backend: each configured value, else its default
/// (`postgres:17`, port 55432, and `postgres` as user, password and database).
pub fn local_settings(config: Option<&LocalBackendConfig>) -> (r: LocalSettings)
    ensures
        r.image@ == setting(config, |c: LocalBackendConfig| c.image, "postgres:17"@),
        r.port_range_start == (match config {
            Some(c) => match c.port_range_start {
                Some(p) => p,
                None => 55432,
            },
            None => 55432,
        }),
        r.pg_user@ == setting(config, |c: LocalBackendConfig| c.postgres_user, "postgres"@),
        r.pg_password@ == setting(config, |c: LocalBackendConfig| c.postgres_password, "postgres"@),
        r.pg_db@ == setting(config, |c: LocalBackendConfig| c.postgres_db, "postgres"@),
        r.data_root == (match config {
            Some(c) => c.data_root,
            None => None,
        }),
{
    let (image, port_range_start, pg_user, pg_password, pg_db, data_root) = match config {
        Some(c) => (
            pick(&c.image, DEFAULT_IMAGE),
            match c.port_range_start {
                Some(p) => p,
                None => DEFAULT_PORT_RANGE_START,
            },
            pick(&c.postgres_user, "postgres"),
            pick(&c.postgres_password, "postgres"),
            pick(&c.postgres_db, "postgres"),
            match &c.data_root {
                Some(d) => Some(d.clone()),
                None => None,
            },
        ),
        None => (
            String::from_str(DEFAULT_IMAGE),
            DEFAULT_PORT_RANGE_START,
            String::from_str("postgres"),
            String::from_str("postgres"),
            String::from_str("postgres"),
            None,
        ),
    };
    LocalSettings { image, port_range_start, pg_user, pg_password, pg_db, data_root }
}

/// Expands a leading `~/` with the home directory, when it is known.
pub fn shellexpand(path: &str, home: Option<&str>) -> (r: String)
    ensures
        (match home {
            Some(h) => if has_prefix(path@, "~/"@) {
                r@ == h@ + "/"@ + path@.subrange(2, path@.len() as int)
            } else {
                r@ == path@
            },
            None => r@ == path@,
        }),
{
    match home {
        Some(h) => {
            if starts_with(path, "~/") {
                proof {
                    reveal_strlit("~/");
                }
                let cs = chars_of(path);
                let rest = slice_chars(&cs, 2, cs.len());
                let mut v: Vec<char> = Vec::new();
                append_chars(&mut v, h);
                v.push('/');
                let ghost before = v@;
                let mut i: usize = 0;
                while i < rest.len()
                    invariant
                        i <= rest@.len(),
                        v@ == before + rest@.subrange(0, i as int),
                    decreases rest@.len() - i,
                {
                    v.push(rest[i]);
                    i += 1;
                    proof {
                        assert(v@ =~= before + rest@.subrange(0, i as int));
                    }
                }
                proof {
                    reveal_strlit("/");
                    assert(rest@.subrange(0, rest@.len() as int) =~= rest@);
                    assert(v@ =~= h@ + "/"@ + path@.subrange(2, path@.len() as int));
                }
                string_from_chars(&v)
            } else {
                String::from_str(path)
            }
        },
        None => String::from_str(path),
    }
}

/// `<data root>/projects/<project id>/branches/<branch id>/pgdata`.
pub open spec fn branch_data_dir_spec(root: Seq<char>, project_id: Seq<char>, branch_id: Seq<char>) -> Seq<char> {
    root + "/projects/"@ + project_id + "/branches/"@ + branch_id + "/pgdata"@
}

/// The data directory of a branch under the data root.
pub fn branch_data_dir(data_root: &str, project_id: &str, branch_id: &str) -> (r: String)
    ensures
        r@ == branch_data_dir_spec(data_root@, project_id@, branch_id@),
{
    let mut v: Vec<char> = Vec::new();
    append_chars(&mut v, data_root);
    append_chars(&mut v, "/projects/");
    append_chars(&mut v, project_id);
    append_chars(&mut v, "/branches/");
    append_chars(&mut v, branch_id);
    append_chars(&mut v, "/pgdata");
    string_from_chars(&v)
}

/// `postgresql://<user>:<password>@127.0.0.1:<port>/<db>`.
pub open spec fn connection_uri_spec(user: Seq<char>, password: Seq<char>, port: u16, db: Seq<char>) -> Seq<char> {
    "postgresql://"@ + user + ":"@ + password + "@127.0.0.1:"@ + digits_of(port as nat, 10) + "/"@ + db
}

/// The connection string of a branch published on `port`.
pub fn connection_uri(user: &str, password: &str, port: u16, db: &str) -> (r: String)
    ensures
        r@ == connection_uri_spec(user@, password@, port, db@),
{
    let mut v: Vec<char> = Vec::new();
    append_chars(&mut v, "postgresql://");
    append_chars(&mut v, user);
    append_chars(&mut v, ":");
    append_chars(&mut v, password);
    append_chars(&mut v, "@127.0.0.1:");
    push_digits(&mut v, port as u64, 10);
    append_chars(&mut v, "/");
    append_chars(&mut v, db);
    string_from_chars(&v)
}

/// How to reach a local branch published on `port`.
pub fn connection_info(settings: &LocalSettings, port: u16) -> (r: ConnectionInfo)
    ensures
        r.host@ == "127.0.0.1"@,
        r.port == port,
        r.database == settings.pg_db,
        r.user == settings.pg_user,
        r.password == Some(settings.pg_password),
        r.connection_string matches Some(c) && c@ == connection_uri_spec(
            settings.pg_user@,
            settings.pg_password@,
            port,
            settings.pg_db@,
        ),
{
    ConnectionInfo {
        host: String::from_str("127.0.0.1"),
        port,
        database: settings.pg_db.clone(),
        user: settings.pg_user.clone(),
        password: Some(settings.pg_password.clone()),
        connection_string: Some(
            connection_uri(settings.pg_user.as_str(), settings.pg_password.as_str(), port, settings.pg_db.as_str()),
        ),
    }
}

fn concat3(a: &str, b: &str, c: &str) -> (r: String)
    ensures
        r@ == a@ + b@ + c@,
{
    let mut v: Vec<char> = Vec::new();
    append_chars(&mut v, a);
    append_chars(&mut v, b);
    append_chars(&mut v, c);
    string_from_chars(&v)
}

/// The storage backends a health report shows: those available or selected, in order.
pub open spec fn shown_entries(entries: Seq<StorageDoctorEntry>) -> Seq<StorageDoctorEntry> {
    entries.filter(|e: StorageDoctorEntry| e.available || e.selected)
}

/// The check that shows one storage backend: `Storage: <kind>`, with its availability and detail.
pub open spec fn storage_row(e: StorageDoctorEntry, c: DoctorCheck) -> bool {
    c.name@ == "Storage: "@ + e.kind@ && c.available == e.available && c.detail == e.detail
}

/// The local backend's health report: the runtime, each storage backend that is
/// available or selected, the default storage, and the state database.
pub fn local_doctor_report(docker: DockerDoctorResult, storage: &StorageDoctorReport, data_root: &str) -> (r: DoctorReport)
    ensures
        r.checks@.len() >= 3,
        r.checks@[0].name@ == "Docker"@,
        r.checks@[0].available == docker.available,
        r.checks@.last().name@ == "State database"@,
        r.checks@.last().available,
        r.checks@.last().detail@ == data_root@ + "/state.db"@,
        r.checks@[r.checks@.len() - 2].name@ == "Default storage"@,
        r.checks@[r.checks@.len() - 2].detail@ == "Using "@ + backend_text(storage.default_backend) + " for new projects"@,
        r.checks@.len() - 3 == shown_entries(storage.entries@).len(),
        forall|i: int|
            0 <= i < shown_entries(storage.entries@).len() ==> storage_row(
                #[trigger] shown_entries(storage.entries@)[i],
                r.checks@[i + 1],
            ),
{
    let mut checks: Vec<DoctorCheck> = Vec::new();
    let detail = match &docker.version {
        Some(v) => concat3("Docker ", v.as_str(), " available"),
        None => docker.detail,
    };
    checks.push(DoctorCheck { name: String::from_str("Docker"), available: docker.available, detail });
    let ghost pred = |e: StorageDoctorEntry| e.available || e.selected;
    let mut i: usize = 0;
    while i < storage.entries.len()
        invariant
            i <= storage.entries@.len(),
            checks@.len() == 1 + storage.entries@.subrange(0, i as int).filter(pred).len(),
            forall|j: int|
                0 <= j < storage.entries@.subrange(0, i as int).filter(pred).len() ==> storage_row(
                    #[trigger] storage.entries@.subrange(0, i as int).filter(pred)[j],
                    checks@[j + 1],
                ),
            checks@[0].name@ == "Docker"@,
            checks@[0].available == docker.available,
            pred == (|e: StorageDoctorEntry| e.available || e.selected),
        decreases storage.entries@.len() - i,
    {
        let e = &storage.entries[i];
        proof {
            assert(storage.entries@.subrange(0, i + 1) =~= storage.entries@.subrange(0, i as int).push(storage.entries@[i as int]));
            storage.entries@.subrange(0, i as int).lemma_filter_push(storage.entries@[i as int], pred);
        }
        if e.available || e.selected {
            let ghost before = checks@;
            let name = concat3("Storage: ", e.kind.as_str(), "");
            proof {
                reveal_strlit("");
                assert(name@ =~= "Storage: "@ + e.kind@);
            }
            checks.push(DoctorCheck { name, available: e.available, detail: e.detail.clone() });
            proof {
                let f = storage.entries@.subrange(0, i + 1).filter(pred);
                assert forall|j: int| 0 <= j < f.len() implies storage_row(#[trigger] f[j], checks@[j + 1]) by {
                    if j + 1 < checks@.len() - 1 {
                        assert(checks@[j + 1] == before[j + 1]);
                    }
                }
            }
        }
        i += 1;
    }
    proof {
        assert(storage.entries@.subrange(0, storage.entries@.len() as int) =~= storage.entries@);
    }
    let ghost middle = checks@;
    checks.push(DoctorCheck {
        name: String::from_str("Default storage"),
        available: true,
        detail: concat3("Using ", storage.default_backend.as_str(), " for new projects"),
    });
    checks.push(DoctorCheck {
        name: String::from_str("State database"),
        available: true,
        detail: concat3(data_root, "/state.db", ""),
    });
    proof {
        reveal_strlit("");
        assert(data_root@ + "/state.db"@ + ""@ =~= data_root@ + "/state.db"@);
        assert forall|j: int| 0 <= j < shown_entries(storage.entries@).len() implies storage_row(
            #[trigger] shown_entries(storage.entries@)[j],
            checks@[j + 1],
        ) by {
            assert(checks@[j + 1] == middle[j + 1]);
        }
    }
    DoctorReport { checks }
}

} // verus!
