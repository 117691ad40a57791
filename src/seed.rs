//! Seeding: the source grammar and the decisions around a restore.

use vstd::prelude::*;
use crate::text::{
    append_chars, chars_of, contains_seq, contains_str, has_prefix, starts_with, str_eq,
    string_from_chars,
};

verus! {

#[verifier::external_type_specification]
#[verifier::external_body]
pub struct ExUrl(url::Url);

#[verifier::external_type_specification]
#[verifier::external_body]
pub struct ExParseError(url::ParseError);

/// Whether the `url` crate accepts a string as an absolute URL.
pub uninterp spec fn url_parses(s: Seq<char>) -> bool;

/// Relies on `url::Url::parse`: it succeeds exactly on what the URL grammar accepts,
/// which depends on the string alone.
#[verifier::external_body]
fn parse_url(s: &str) -> (r: Result<url::Url, url::ParseError>)
    ensures
        r is Ok <==> url_parses(s@),
{
    url::Url::parse(s)
}

/// Where a seed comes from.
#[derive(Debug)]
pub enum SeedSource {
    /// A remote database to dump.
    PostgresUrl(url::Url),
    /// A dump file on this machine.
    LocalFile(String),
    /// A dump in an object store.
    S3Object { bucket: String, key: String },
}

/// Why a seed failed.
#[derive(Debug, Clone, PartialEq, Eq)]
pub enum SeedError {
    /// A `postgres://` source that is no valid URL.
    InvalidUrl(String),
    /// An `s3://` source without a `/` between bucket and key.
    InvalidS3Url(String),
    /// A local source that does not exist.
    FileNotFound(String),
    /// The restore hit a fatal or connection error; holds its error output.
    RestoreFailed(String),
    /// The remote dump exited with this non-zero code.
    DumpFailed(i64),
    /// The dump could not be read back out of the runtime's archive.
    UnreadableDump,
    /// The dump came back empty.
    EmptyDump,
    /// The dump could not be packed for upload.
    PackFailed,
}

pub open spec fn is_postgres_url(s: Seq<char>) -> bool {
    has_prefix(s, "postgresql://"@) || has_prefix(s, "postgres://"@)
}

/// The index of the first `/` in `s`, if any.
pub open spec fn first_slash(s: Seq<char>) -> Option<int> {
    if exists|i: int| 0 <= i < s.len() && s[i] == '/' {
        Some(choose|i: int| 0 <= i < s.len() && s[i] == '/' && forall|j: int| 0 <= j < i ==> s[j] != '/')
    } else {
        None
    }
}

/// An `s3://bucket/key` source split at the first `/` after the scheme.
pub open spec fn s3_parts(s: Seq<char>) -> Option<(Seq<char>, Seq<char>)> {
    let rest = s.subrange(5, s.len() as int);
    match first_slash(rest) {
        Some(i) => Some((rest.subrange(0, i), rest.subrange(i + 1, rest.len() as int))),
        None => None,
    }
}

/// Classifies a seed source. `path_exists` tells whether the source, read as a
/// path, exists on this machine; it matters only for local sources.
pub fn parse_source(from: &str, path_exists: bool) -> (r: Result<SeedSource, SeedError>)
    ensures
        is_postgres_url(from@) ==> (r is Ok <==> url_parses(from@)),
        is_postgres_url(from@) ==> (r matches Ok(s) ==> s is PostgresUrl),
        !is_postgres_url(from@) && has_prefix(from@, "s3://"@) ==> (match s3_parts(from@) {
            Some((b, k)) => r matches Ok(SeedSource::S3Object { bucket, key }) && bucket@ == b && key@ == k,
            None => r matches Err(SeedError::InvalidS3Url(_)),
        }),
        !is_postgres_url(from@) && !has_prefix(from@, "s3://"@) ==> (if path_exists {
            r matches Ok(SeedSource::LocalFile(p)) && p@ == from@
        } else {
            r matches Err(SeedError::FileNotFound(p)) && p@ == from@
        }),
{
    if starts_with(from, "postgresql://") || starts_with(from, "postgres://") {
        match parse_url(from) {
            Ok(u) => Ok(SeedSource::PostgresUrl(u)),
            Err(_) => Err(SeedError::InvalidUrl(String::from_str(from))),
        }
    } else if starts_with(from, "s3://") {
        proof {
            reveal_strlit("s3://");
        }
        let cs = chars_of(from);
        let mut i: usize = 5;
        while i < cs.len() && cs[i] != '/'
            invariant
                cs@ == from@,
                5 <= i <= cs@.len(),
                forall|j: int| 5 <= j < i ==> cs@[j] != '/',
            decreases cs@.len() - i,
        {
            i += 1;
        }
        let ghost rest = from@.subrange(5, from@.len() as int);
        if i == cs.len() {
            proof {
                assert(!(exists|j: int| 0 <= j < rest.len() && rest[j] == '/')) by {
                    assert forall|j: int| 0 <= j < rest.len() implies rest[j] != '/' by {
                        assert(rest[j] == cs@[j + 5]);
                    }
                }
            }
            return Err(SeedError::InvalidS3Url(String::from_str(from)));
        }
        let mut bucket: Vec<char> = Vec::new();
        let mut k: usize = 5;
        while k < i
            invariant
                cs@ == from@,
                5 <= k <= i,
                i < cs@.len(),
                bucket@ == cs@.subrange(5, k as int),
            decreases i - k,
        {
            bucket.push(cs[k]);
            k += 1;
            proof {
                assert(bucket@ =~= cs@.subrange(5, k as int));
            }
        }
        let mut key: Vec<char> = Vec::new();
        let mut m: usize = i + 1;
        while m < cs.len()
            invariant
                cs@ == from@,
                i + 1 <= m <= cs@.len(),
                key@ == cs@.subrange(i + 1, m as int),
            decreases cs@.len() - m,
        {
            key.push(cs[m]);
            m += 1;
            proof {
                assert(key@ =~= cs@.subrange(i + 1, m as int));
            }
        }
        proof {
            let fi = (i - 5) as int;
            assert(rest[fi] == '/');
            assert(forall|j: int| 0 <= j < fi ==> rest[j] == cs@[j + 5]);
            let c = first_slash(rest)->0;
            assert(c == fi) by {
                if c < fi {
                    assert(rest[c] == cs@[c + 5]);
                }
                if c > fi {
                    assert(rest[fi] != '/');
                }
            }
            assert(bucket@ =~= rest.subrange(0, fi));
            assert(key@ =~= rest.subrange(fi + 1, rest.len() as int));
        }
        Ok(SeedSource::S3Object { bucket: string_from_chars(&bucket), key: string_from_chars(&key) })
    } else if path_exists {
        Ok(SeedSource::LocalFile(String::from_str(from)))
    } else {
        Err(SeedError::FileNotFound(String::from_str(from)))
    }
}

/// What `Path::extension` gives for a path, as text.
pub uninterp spec fn extension_of(s: Seq<char>) -> Option<Seq<char>>;

/// Relies on `std::path::Path::extension`: the part of the file name after its
/// last dot, if any; `to_str` keeps it when it is valid text.
#[verifier::external_body]
fn path_extension(s: &str) -> (r: Option<String>)
    ensures
        (match r {
            Some(e) => extension_of(s@) == Some(e@),
            None => extension_of(s@) is None,
        }),
{
    std::path::Path::new(s).extension().and_then(|e| e.to_str()).map(|e| e.to_string())
}

/// A dump is plain SQL (loaded with `psql`) when its extension is `sql`;
/// anything else is restored with `pg_restore`.
pub fn is_plain_sql(path: &str) -> (r: bool)
    ensures
        r == (extension_of(path@) == Some("sql"@)),
{
    match path_extension(path) {
        Some(e) => str_eq(e.as_str(), "sql"),
        None => false,
    }
}

/// The command that loads a dump at `dump_path` inside the branch's container.
pub fn restore_command(plain_sql: bool, pg_user: &str, pg_db: &str, dump_path: &str) -> (r: Vec<String>)
    ensures
        plain_sql ==> r@.len() == 7 && r@[0]@ == "psql"@ && r@[2]@ == pg_user@ && r@[4]@ == pg_db@
            && r@[5]@ == "-f"@ && r@[6]@ == dump_path@,
        !plain_sql ==> r@.len() == 7 && r@[0]@ == "pg_restore"@ && r@[2]@ == pg_user@ && r@[4]@
            == pg_db@ && r@[5]@ == "--no-owner"@ && r@[6]@ == dump_path@,
        r@[1]@ == "-U"@ && r@[3]@ == "-d"@,
{
    let mut v: Vec<String> = Vec::new();
    if plain_sql {
        v.push(String::from_str("psql"));
    } else {
        v.push(String::from_str("pg_restore"));
    }
    v.push(String::from_str("-U"));
    v.push(String::from_str(pg_user));
    v.push(String::from_str("-d"));
    v.push(String::from_str(pg_db));
    if plain_sql {
        v.push(String::from_str("-f"));
    } else {
        v.push(String::from_str("--no-owner"));
    }
    v.push(String::from_str(dump_path));
    v
}

/// How a restore ended when it did not fail.
#[derive(Debug, Clone, Copy, PartialEq, Eq, Structural)]
pub enum RestoreOutcome {
    /// Exit status zero.
    Clean,
    /// Non-zero exit without a fatal or connection error: warnings to log.
    Warnings,
}

pub open spec fn is_fatal(stderr: Seq<char>) -> bool {
    contains_seq(stderr, "FATAL"@) || contains_seq(stderr, "could not connect"@)
}

/// Judges a restore by its exit code and error output: only a fatal or
/// connection error fails it.
pub fn restore_outcome(exit_code: i64, stderr: &str) -> (r: Result<RestoreOutcome, SeedError>)
    ensures
        exit_code == 0 ==> r == Ok::<RestoreOutcome, SeedError>(RestoreOutcome::Clean),
        exit_code != 0 && !is_fatal(stderr@) ==> r == Ok::<RestoreOutcome, SeedError>(RestoreOutcome::Warnings),
        exit_code != 0 && is_fatal(stderr@) ==> (r matches Err(SeedError::RestoreFailed(e)) && e@ == stderr@),
{
    if exit_code == 0 {
        Ok(RestoreOutcome::Clean)
    } else if contains_str(stderr, "FATAL") || contains_str(stderr, "could not connect") {
        Err(SeedError::RestoreFailed(String::from_str(stderr)))
    } else {
        Ok(RestoreOutcome::Warnings)
    }
}

/// A remote host that the dump container cannot reach as is: the host's loopback.
pub fn needs_gateway_host(host: &str) -> (r: bool)
    ensures
        r == (host@ == "localhost"@ || host@ == "127.0.0.1"@),
{
    str_eq(host, "localhost") || str_eq(host, "127.0.0.1")
}

/// The object store region: `AWS_DEFAULT_REGION`, else `AWS_REGION`, else `us-east-1`.
pub fn resolve_region(default_region: Option<String>, region: Option<String>) -> (r: String)
    ensures
        (match default_region {
            Some(d) => r == d,
            None => match region {
                Some(g) => r == g,
                None => r@ == "us-east-1"@,
            },
        }),
{
    match default_region {
        Some(d) => d,
        None => match region {
            Some(g) => g,
            None => String::from_str("us-east-1"),
        },
    }
}

/// Permissions of a dump uploaded into a container.
pub const SEED_FILE_MODE: u32 = 0o644;

/// What `tar::Builder` makes of one file of this name, mode and content: the
/// archive, or `None` when it refuses the entry.
pub uninterp spec fn tar_pack_of(name: Seq<char>, mode: u32, data: Seq<u8>) -> Option<Seq<u8>>;

/// Relies on `tar::Header::new_gnu` and `tar::Builder::append_data`, writing into
/// memory: whether the entry is accepted, and the archive, depend on the name,
/// mode and content alone.
#[verifier::external_body]
fn tar_single_file(filename: &str, mode: u32, data: &[u8]) -> (r: Option<Vec<u8>>)
    ensures
        (match r {
            Some(v) => tar_pack_of(filename@, mode, data@) == Some(v@),
            None => tar_pack_of(filename@, mode, data@) is None,
        }),
{
    let mut header = tar::Header::new_gnu();
    header.set_size(data.len() as u64);
    header.set_mode(mode);
    header.set_cksum();
    let mut builder = tar::Builder::new(Vec::new());
    builder.append_data(&mut header, filename, data).ok()?;
    builder.into_inner().ok()
}

/// The content of the first entry of a tar archive, as `tar::Archive` reads it.
pub uninterp spec fn tar_first_entry_of(archive: Seq<u8>) -> Option<Seq<u8>>;

/// Relies on `tar::Archive::entries`: reads the first entry of an archive held in
/// memory; `None` when there is none or it cannot be read.
#[verifier::external_body]
fn tar_first_entry(archive: &[u8]) -> (r: Option<Vec<u8>>)
    ensures
        (match r {
            Some(v) => tar_first_entry_of(archive@) == Some(v@),
            None => tar_first_entry_of(archive@) is None,
        }),
{
    let mut ar = tar::Archive::new(archive);
    let mut entries = ar.entries().ok()?;
    let mut entry = entries.next()?.ok()?;
    let mut out = Vec::new();
    std::io::Read::read_to_end(&mut entry, &mut out).ok()?;
    Some(out)
}

/// Packs a dump for upload into a container, as a one-file tar archive.
pub fn create_tar_with_file(filename: &str, data: &[u8]) -> (r: Result<Vec<u8>, SeedError>)
    ensures
        (match tar_pack_of(filename@, SEED_FILE_MODE, data@) {
            Some(a) => r matches Ok(v) && v@ == a,
            None => r == Err::<Vec<u8>, SeedError>(SeedError::PackFailed),
        }),
{
    match tar_single_file(filename, SEED_FILE_MODE, data) {
        Some(v) => Ok(v),
        None => Err(SeedError::PackFailed),
    }
}

/// Takes the dump out of the archive the runtime hands back for the dump file;
/// a missing or empty dump fails the seed.
pub fn extract_dump(archive: &[u8]) -> (r: Result<Vec<u8>, SeedError>)
    ensures
        (match tar_first_entry_of(archive@) {
            None => r == Err::<Vec<u8>, SeedError>(SeedError::UnreadableDump),
            Some(d) => if d.len() == 0 {
                r == Err::<Vec<u8>, SeedError>(SeedError::EmptyDump)
            } else {
                r matches Ok(v) && v@ == d
            },
        }),
{
    match tar_first_entry(archive) {
        None => Err(SeedError::UnreadableDump),
        Some(v) => if v.len() == 0 {
            Err(SeedError::EmptyDump)
        } else {
            Ok(v)
        },
    }
}

/// A remote dump succeeded only with exit code zero.
pub fn check_dump_exit(exit_code: i64) -> (r: Result<(), SeedError>)
    ensures
        exit_code == 0 <==> r is Ok,
        exit_code != 0 ==> r == Err::<(), SeedError>(SeedError::DumpFailed(exit_code)),
{
    if exit_code == 0 {
        Ok(())
    } else {
        Err(SeedError::DumpFailed(exit_code))
    }
}

/// Host name under which a dump container reaches the host.
pub const GATEWAY_HOST: &'static str = "host.docker.internal";

/// The command of the short-lived dump container: a custom-format `pg_dump`
/// of `dump_url` into `dump_path`.
pub fn dump_command(dump_url: &str, dump_path: &str) -> (r: Vec<String>)
    ensures
        r@.len() == 5,
        r@[0]@ == "pg_dump"@,
        r@[1]@ == "-Fc"@,
        r@[2]@ == dump_url@,
        r@[3]@ == "-f"@,
        r@[4]@ == dump_path@,
{
    let mut v: Vec<String> = Vec::new();
    v.push(String::from_str("pg_dump"));
    v.push(String::from_str("-Fc"));
    v.push(String::from_str(dump_url));
    v.push(String::from_str("-f"));
    v.push(String::from_str(dump_path));
    v
}

} // verus!
