//! Project configuration: settings of the database naming scheme, the git
//! integration, and the named branching backends.

use vstd::prelude::*;
use crate::text::{
    append_chars, chars_of, collapse_runs, collapse_runs_vec, digits_of, lower_of, lowercase,
    push_digits, replace_all, replaced, str_eq, string_from_chars, trim_end_char, trim_end_vec,
};

verus! {

/// The whole configuration file.
#[derive(Debug, Clone)]
pub struct Config {
    pub database: DatabaseConfig,
    pub git: GitConfig,
    pub behavior: BehaviorConfig,
    pub post_commands: Vec<PostCommand>,
    /// Kept for older files; the current branch is tracked elsewhere.
    pub current_branch: Option<String>,
    pub backend: Option<BackendConfig>,
    pub backends: Option<Vec<NamedBackendConfig>>,
    pub worktree: Option<WorktreeConfig>,
}

/// A backend with a name, as listed under `backends`.
#[derive(Debug, Clone)]
pub struct NamedBackendConfig {
    pub name: String,
    pub backend_type: String,
    pub default: bool,
    pub local: Option<LocalBackendConfig>,
    pub neon: Option<NeonConfig>,
    pub dblab: Option<DBLabConfig>,
    pub xata: Option<XataConfig>,
}

/// The single backend of older files.
#[derive(Debug, Clone)]
pub struct BackendConfig {
    pub backend_type: String,
    pub local: Option<LocalBackendConfig>,
    pub neon: Option<NeonConfig>,
    pub dblab: Option<DBLabConfig>,
    pub xata: Option<XataConfig>,
}

/// Settings of the local (container and copy-on-write) backend.
#[derive(Debug, Clone)]
pub struct LocalBackendConfig {
    pub image: Option<String>,
    pub data_root: Option<String>,
    pub storage: Option<String>,
    pub port_range_start: Option<u16>,
    pub postgres_user: Option<String>,
    pub postgres_password: Option<String>,
    pub postgres_db: Option<String>,
}

#[derive(Debug, Clone)]
pub struct NeonConfig {
    pub api_key: String,
    pub project_id: String,
    pub base_url: String,
}

#[derive(Debug, Clone)]
pub struct DBLabConfig {
    pub api_url: String,
    pub auth_token: String,
}

#[derive(Debug, Clone)]
pub struct XataConfig {
    pub api_key: String,
    pub organization_id: String,
    pub project_id: String,
    pub base_url: String,
}

#[derive(Debug, Clone)]
pub struct WorktreeConfig {
    pub copy_files: Vec<String>,
}

/// The PostgreSQL server that template-based branches live on.
#[derive(Debug, Clone)]
pub struct DatabaseConfig {
    pub host: String,
    pub port: u16,
    pub user: String,
    pub password: Option<String>,
    pub template_database: String,
    pub database_prefix: String,
    pub auth: AuthConfig,
}

#[derive(Debug, Clone)]
pub struct AuthConfig {
    pub methods: Vec<AuthMethod>,
    pub pgpass_file: Option<String>,
    pub service_name: Option<String>,
    pub prompt_for_password: bool,
}

#[derive(Debug, Clone, Copy, PartialEq, Eq, Structural)]
pub enum AuthMethod {
    Password,
    Pgpass,
    Environment,
    Service,
    Prompt,
    System,
}

#[derive(Debug, Clone)]
pub enum PostCommand {
    Simple(String),
    Complex(PostCommandConfig),
    Replace(ReplaceConfig),
}

#[derive(Debug, Clone)]
pub struct PostCommandConfig {
    pub name: Option<String>,
    pub command: String,
    pub working_dir: Option<String>,
    pub continue_on_error: Option<bool>,
    pub condition: Option<String>,
    /// Environment variables, in the order they are set.
    pub environment: Option<Vec<(String, String)>>,
}

#[derive(Debug, Clone)]
pub struct ReplaceConfig {
    pub action: String,
    pub name: Option<String>,
    pub file: String,
    pub pattern: String,
    pub replacement: String,
    pub create_if_missing: Option<bool>,
    pub continue_on_error: Option<bool>,
    pub condition: Option<String>,
}

#[derive(Debug, Clone)]
pub struct GitConfig {
    pub auto_create_on_branch: bool,
    pub auto_switch_on_branch: bool,
    pub main_branch: String,
    pub auto_create_branch_filter: Option<String>,
    pub branch_filter_regex: Option<String>,
    pub exclude_branches: Vec<String>,
}

#[derive(Debug, Clone)]
pub struct BehaviorConfig {
    pub auto_cleanup: bool,
    pub max_branches: Option<usize>,
    pub naming_strategy: NamingStrategy,
}

/// Where the database prefix goes in a branch database's name.
#[derive(Debug, Clone, Copy, PartialEq, Eq, Structural)]
pub enum NamingStrategy {
    Prefix,
    Suffix,
    Replace,
}

/// Per-checkout overrides of the configuration.
#[derive(Debug, Clone)]
pub struct LocalConfig {
    pub database: Option<LocalDatabaseConfig>,
    pub git: Option<LocalGitConfig>,
    pub behavior: Option<LocalBehaviorConfig>,
    pub post_commands: Option<Vec<PostCommand>>,
    pub disabled: Option<bool>,
    pub disabled_branches: Option<Vec<String>>,
    pub worktree: Option<WorktreeConfig>,
}

#[derive(Debug, Clone)]
pub struct LocalDatabaseConfig {
    pub host: Option<String>,
    pub port: Option<u16>,
    pub user: Option<String>,
    pub password: Option<String>,
    pub template_database: Option<String>,
    pub database_prefix: Option<String>,
    pub auth: Option<LocalAuthConfig>,
}

#[derive(Debug, Clone)]
pub struct LocalAuthConfig {
    pub methods: Option<Vec<AuthMethod>>,
    pub pgpass_file: Option<String>,
    pub service_name: Option<String>,
    pub prompt_for_password: Option<bool>,
}

#[derive(Debug, Clone)]
pub struct LocalGitConfig {
    pub auto_create_on_branch: Option<bool>,
    pub auto_switch_on_branch: Option<bool>,
    pub main_branch: Option<String>,
    pub auto_create_branch_filter: Option<String>,
    pub branch_filter_regex: Option<String>,
    pub exclude_branches: Option<Vec<String>>,
}

#[derive(Debug, Clone)]
pub struct LocalBehaviorConfig {
    pub auto_cleanup: Option<bool>,
    pub max_branches: Option<usize>,
    pub naming_strategy: Option<NamingStrategy>,
}

/// Settings read from the environment.
#[derive(Debug, Clone)]
pub struct EnvConfig {
    pub disabled: Option<bool>,
    pub skip_hooks: Option<bool>,
    pub auto_create: Option<bool>,
    pub auto_switch: Option<bool>,
    pub branch_filter_regex: Option<String>,
    pub disabled_branches: Option<Vec<String>>,
    pub current_branch_disabled: Option<bool>,
    pub database_host: Option<String>,
    pub database_port: Option<u16>,
    pub database_user: Option<String>,
    pub database_password: Option<String>,
    pub database_prefix: Option<String>,
}

/// The configuration after all sources are merged.
#[derive(Debug, Clone)]
pub struct EffectiveConfig {
    pub config: Config,
    pub local_config: Option<LocalConfig>,
    pub env_config: EnvConfig,
    pub disabled: bool,
    pub skip_hooks: bool,
    pub current_branch_disabled: bool,
}

/// Values that post-commands may refer to as `{name}`.
#[derive(Debug, Clone)]
pub struct TemplateContext {
    pub branch_name: String,
    pub db_name: String,
    pub db_host: String,
    pub db_port: u16,
    pub db_user: String,
    pub db_password: Option<String>,
    pub template_db: String,
    pub prefix: String,
}

/// Why a configuration is refused or a change to it fails.
#[derive(Debug, Clone, PartialEq, Eq)]
pub enum ConfigError {
    /// Both the single `backend` and the `backends` list are given.
    BothBackendForms,
    /// Two backends share this name.
    DuplicateBackend(String),
    /// More than one backend is marked default; holds how many.
    MultipleDefaults(usize),
    /// A backend of this name exists and overwriting was not asked for.
    BackendExists(String),
}

impl Default for DatabaseConfig {
    fn default() -> (r: DatabaseConfig)
        ensures
            r.host@ == "localhost"@,
            r.port == 5432,
            r.user@ == "postgres"@,
            r.password is None,
            r.template_database@ == "template0"@,
            r.database_prefix@ == "pgbranch"@,
            r.auth.methods@ == seq![AuthMethod::Environment, AuthMethod::Pgpass, AuthMethod::Password, AuthMethod::Prompt],
            r.auth.pgpass_file is None,
            r.auth.service_name is None,
            !r.auth.prompt_for_password,
    {
        DatabaseConfig {
            host: String::from_str("localhost"),
            port: 5432,
            user: String::from_str("postgres"),
            password: None,
            template_database: String::from_str("template0"),
            database_prefix: String::from_str("pgbranch"),
            auth: AuthConfig {
                methods: vec![AuthMethod::Environment, AuthMethod::Pgpass, AuthMethod::Password, AuthMethod::Prompt],
                pgpass_file: None,
                service_name: None,
                prompt_for_password: false,
            },
        }
    }
}

impl DatabaseConfig {
    /// Whether the server settings are the defaults (authentication aside).
    pub fn is_default(&self) -> (r: bool)
        ensures
            r == (self.host@ == "localhost"@ && self.port == 5432 && self.user@ == "postgres"@
                && self.password is None && self.template_database@ == "template0"@
                && self.database_prefix@ == "pgbranch"@),
    {
        str_eq(self.host.as_str(), "localhost") && self.port == 5432 && str_eq(self.user.as_str(), "postgres")
            && self.password.is_none() && str_eq(self.template_database.as_str(), "template0")
            && str_eq(self.database_prefix.as_str(), "pgbranch")
    }
}

impl Default for Config {
    fn default() -> (r: Config)
        ensures
            r.database.host@ == "localhost"@,
            r.database.template_database@ == "template0"@,
            r.database.database_prefix@ == "pgbranch"@,
            r.git.auto_create_on_branch,
            r.git.auto_switch_on_branch,
            r.git.main_branch@ == "main"@,
            r.git.auto_create_branch_filter is None,
            r.git.branch_filter_regex is None,
            r.git.exclude_branches@.len() == 2,
            r.git.exclude_branches@[0]@ == "main"@,
            r.git.exclude_branches@[1]@ == "master"@,
            !r.behavior.auto_cleanup,
            r.behavior.max_branches == Some(10usize),
            r.behavior.naming_strategy == NamingStrategy::Prefix,
            r.post_commands@.len() == 0,
            r.current_branch is None,
            r.backend is None,
            r.backends is None,
            r.worktree is None,
    {
        Config {
            database: DatabaseConfig::default(),
            git: GitConfig {
                auto_create_on_branch: true,
                auto_switch_on_branch: true,
                main_branch: String::from_str("main"),
                auto_create_branch_filter: None,
                branch_filter_regex: None,
                exclude_branches: vec![String::from_str("main"), String::from_str("master")],
            },
            behavior: BehaviorConfig { auto_cleanup: false, max_branches: Some(10), naming_strategy: NamingStrategy::Prefix },
            post_commands: Vec::new(),
            current_branch: None,
            backend: None,
            backends: None,
            worktree: None,
        }
    }
}

/// Longest identifier PostgreSQL keeps.
pub const MAX_POSTGRES_NAME_LENGTH: usize = 63;

/// Characters a database name keeps as they are.
pub open spec fn is_db_name_char(c: char) -> bool {
    ('a' <= c && c <= 'z') || ('0' <= c && c <= '9') || c == '_' || c == '$'
}

pub open spec fn db_name_char(c: char) -> char {
    if is_db_name_char(c) {
        c
    } else {
        '_'
    }
}

/// A lowercased branch name made into a database name component: other
/// characters become `_`, a leading digit gets a `_` before it, runs of `_`
/// shrink to one, trailing `_` go; `branch` when nothing is left.
pub open spec fn sanitized_branch(lowered: Seq<char>) -> Seq<char> {
    let m = Seq::new(lowered.len(), |i: int| db_name_char(lowered[i]));
    let p = if m.len() > 0 && '0' <= m[0] && m[0] <= '9' {
        seq!['_'] + m
    } else {
        m
    };
    let t = trim_end_char(collapse_runs(p, '_'), '_');
    if t.len() == 0 {
        "branch"@
    } else {
        t
    }
}

/// What `DefaultHasher` makes of a string, as `Hash for str` feeds it.
pub uninterp spec fn default_hash_of(s: Seq<char>) -> u64;

/// Relies on `std::collections::hash_map::DefaultHasher`: `new` always starts
/// from the same keys, so the hash depends on the string alone.
#[verifier::external_body]
fn default_hash(s: &str) -> (r: u64)
    ensures
        r == default_hash_of(s@),
{
    let mut hasher = std::collections::hash_map::DefaultHasher::new();
    std::hash::Hash::hash(s, &mut hasher);
    std::hash::Hasher::finish(&hasher)
}

/// The 16-bit hash that tells truncated names apart.
pub open spec fn name_hash(s: Seq<char>) -> nat {
    (default_hash_of(s) % 65536) as nat
}

/// A name cut to PostgreSQL's limit: a name too long keeps its start and ends
/// in `_` and its hash in hexadecimal, 63 characters in all.
pub open spec fn valid_postgres_name(name: Seq<char>) -> Seq<char> {
    if name.len() <= 63 {
        name
    } else {
        let suffix = seq!['_'] + digits_of(name_hash(name), 16);
        name.subrange(0, 63 - suffix.len()) + suffix
    }
}

pub open spec fn pow16(k: nat) -> nat
    decreases k,
{
    if k == 0 {
        1
    } else {
        16 * pow16((k - 1) as nat)
    }
}

proof fn lemma_hex_len(n: nat, k: nat)
    requires
        k >= 1,
        n < pow16(k),
    ensures
        digits_of(n, 16).len() <= k,
    decreases k,
{
    if n >= 16 {
        let p = pow16((k - 1) as nat);
        if k == 1 {
            assert(pow16(1) == 16 * pow16(0));
        }
        assert(n / 16 < p) by (nonlinear_arith)
            requires
                n < 16 * p,
        ;
        lemma_hex_len(n / 16, (k - 1) as nat);
    }
}



/// Sanitizes an already lowercased branch name into a database name component.
pub fn sanitize_lowered(lowered: &str) -> (r: String)
    ensures
        r@ == sanitized_branch(lowered@),
{
    let cs = chars_of(lowered);
    let mut m: Vec<char> = Vec::new();
    let mut i: usize = 0;
    while i < cs.len()
        invariant
            cs@ == lowered@,
            i <= cs@.len(),
            m@ == Seq::new(lowered@.len(), |k: int| db_name_char(lowered@[k])).subrange(0, i as int),
        decreases cs@.len() - i,
    {
        let c = cs[i];
        let d = if ('a' <= c && c <= 'z') || ('0' <= c && c <= '9') || c == '_' || c == '$' {
            c
        } else {
            '_'
        };
        m.push(d);
        i += 1;
        proof {
            assert(m@ =~= Seq::new(lowered@.len(), |k: int| db_name_char(lowered@[k])).subrange(0, i as int));
        }
    }
    proof {
        assert(m@ =~= Seq::new(lowered@.len(), |k: int| db_name_char(lowered@[k])));
    }
    let p = if m.len() > 0 && '0' <= m[0] && m[0] <= '9' {
        let mut p: Vec<char> = Vec::new();
        p.push('_');
        let mut k: usize = 0;
        while k < m.len()
            invariant
                k <= m@.len(),
                p@ == seq!['_'] + m@.subrange(0, k as int),
            decreases m@.len() - k,
        {
            p.push(m[k]);
            k += 1;
            proof {
                assert(p@ =~= seq!['_'] + m@.subrange(0, k as int));
            }
        }
        proof {
            assert(m@.subrange(0, m@.len() as int) =~= m@);
        }
        p
    } else {
        m
    };
    let c = collapse_runs_vec(&p, '_');
    let t = trim_end_vec(&c, '_');
    if t.len() == 0 {
        String::from_str("branch")
    } else {
        string_from_chars(&t)
    }
}

/// The spec of a branch database name component.
pub open spec fn normalized_branch(branch: Seq<char>) -> Seq<char> {
    sanitized_branch(lower_of(branch))
}

/// The database name of a branch, for the configured prefix and strategy.
pub open spec fn database_name_of(cfg: Config, branch: Seq<char>) -> Seq<char> {
    if branch == "_main"@ || exists|i: int| 0 <= i < cfg.git.exclude_branches@.len() && cfg.git.exclude_branches@[i]@ == branch {
        cfg.database.template_database@
    } else {
        let s = normalized_branch(branch);
        let full = match cfg.behavior.naming_strategy {
            NamingStrategy::Prefix => cfg.database.database_prefix@ + "_"@ + s,
            NamingStrategy::Suffix => s + "_"@ + cfg.database.database_prefix@,
            NamingStrategy::Replace => s,
        };
        valid_postgres_name(full)
    }
}

fn contains_name(v: &Vec<String>, name: &str) -> (r: bool)
    ensures
        r == exists|i: int| 0 <= i < v@.len() && v@[i]@ == name@,
{
    let mut i: usize = 0;
    while i < v.len()
        invariant
            i <= v@.len(),
            forall|j: int| 0 <= j < i ==> v@[j]@ != name@,
        decreases v@.len() - i,
    {
        if str_eq(v[i].as_str(), name) {
            return true;
        }
        i += 1;
    }
    false
}

/// The template post-commands see: `{branch_name}`, `{db_name}`, `{db_host}`,
/// `{db_port}`, `{db_user}`, `{template_db}`, `{prefix}` and, with a password,
/// `{db_password}` replaced in that order.
pub open spec fn substituted(template: Seq<char>, c: TemplateContext) -> Seq<char> {
    let r = replaced(template, "{branch_name}"@, c.branch_name@);
    let r = replaced(r, "{db_name}"@, c.db_name@);
    let r = replaced(r, "{db_host}"@, c.db_host@);
    let r = replaced(r, "{db_port}"@, digits_of(c.db_port as nat, 10));
    let r = replaced(r, "{db_user}"@, c.db_user@);
    let r = replaced(r, "{template_db}"@, c.template_db@);
    let r = replaced(r, "{prefix}"@, c.prefix@);
    match c.db_password {
        Some(p) => replaced(r, "{db_password}"@, p@),
        None => r,
    }
}

impl Config {
    /// Turns a branch name into a database name component.
    pub fn sanitize_branch_name(branch_name: &str) -> (r: String)
        ensures
            r@ == normalized_branch(branch_name@),
    {
        let lowered = lowercase(branch_name);
        sanitize_lowered(lowered.as_str())
    }

    /// Cuts a name to PostgreSQL's identifier limit, keeping names apart by a hash.
    pub fn ensure_valid_postgres_name(name: &str) -> (r: String)
        ensures
            r@ == valid_postgres_name(name@),
            r@.len() <= 63,
    {
        let cs = chars_of(name);
        if cs.len() <= MAX_POSTGRES_NAME_LENGTH {
            return String::from_str(name);
        }
        let hash = Config::calculate_name_hash(name);
        let mut suffix: Vec<char> = Vec::new();
        suffix.push('_');
        push_digits(&mut suffix, hash as u64, 16);
        proof {
            assert(pow16(0) == 1);
            assert(pow16(1) == 16);
            assert(pow16(2) == 256);
            assert(pow16(3) == 4096);
            assert(pow16(4) == 65536);
            lemma_hex_len(hash as nat, 4);
        }
        let keep = MAX_POSTGRES_NAME_LENGTH - suffix.len();
        let mut out: Vec<char> = Vec::new();
        let mut i: usize = 0;
        while i < keep
            invariant
                cs@ == name@,
                keep < cs@.len(),
                i <= keep,
                out@ == cs@.subrange(0, i as int),
            decreases keep - i,
        {
            out.push(cs[i]);
            i += 1;
            proof {
                assert(out@ =~= cs@.subrange(0, i as int));
            }
        }
        let mut j: usize = 0;
        let ghost head = out@;
        while j < suffix.len()
            invariant
                j <= suffix@.len(),
                out@ == head + suffix@.subrange(0, j as int),
            decreases suffix@.len() - j,
        {
            out.push(suffix[j]);
            j += 1;
            proof {
                assert(out@ =~= head + suffix@.subrange(0, j as int));
            }
        }
        proof {
            assert(suffix@.subrange(0, suffix@.len() as int) =~= suffix@);
        }
        string_from_chars(&out)
    }

    /// The hash of a name, reduced to 16 bits.
    pub fn calculate_name_hash(name: &str) -> (r: u32)
        ensures
            r as nat == name_hash(name@),
    {
        let h = default_hash(name);
        let r = (h as u32) & 0xFFFF;
        assert(r == h % 65536) by (bit_vector)
            requires
                r == (h as u32) & 0xFFFF,
        ;
        r
    }

    /// The database a git branch maps to: the template database for the main
    /// marker and excluded branches, else the sanitized name with the prefix.
    pub fn get_database_name(&self, branch_name: &str) -> (r: String)
        ensures
            r@ == database_name_of(*self, branch_name@),
    {
        if str_eq(branch_name, "_main") || contains_name(&self.git.exclude_branches, branch_name) {
            return self.database.template_database.clone();
        }
        let s = Config::sanitize_branch_name(branch_name);
        let mut full: Vec<char> = Vec::new();
        match self.behavior.naming_strategy {
            NamingStrategy::Prefix => {
                append_chars(&mut full, self.database.database_prefix.as_str());
                append_chars(&mut full, "_");
                append_chars(&mut full, s.as_str());
            },
            NamingStrategy::Suffix => {
                append_chars(&mut full, s.as_str());
                append_chars(&mut full, "_");
                append_chars(&mut full, self.database.database_prefix.as_str());
            },
            NamingStrategy::Replace => {
                append_chars(&mut full, s.as_str());
            },
        }
        let full_name = string_from_chars(&full);
        proof {
            assert(full@ =~= (match self.behavior.naming_strategy {
                NamingStrategy::Prefix => self.database.database_prefix@ + "_"@ + s@,
                NamingStrategy::Suffix => s@ + "_"@ + self.database.database_prefix@,
                NamingStrategy::Replace => s@,
            }));
        }
        Config::ensure_valid_postgres_name(full_name.as_str())
    }

    /// The branch name as it appears in database names.
    pub fn get_normalized_branch_name(&self, branch_name: &str) -> (r: String)
        ensures
            r@ == normalized_branch(branch_name@),
    {
        Config::sanitize_branch_name(branch_name)
    }

    /// Replaces the template variables of a post-command.
    pub fn substitute_template_variables(&self, template: &str, context: &TemplateContext) -> (r: String)
        ensures
            r@ == substituted(template@, *context),
    {
        proof {
            reveal_strlit("{branch_name}");
            reveal_strlit("{db_name}");
            reveal_strlit("{db_host}");
            reveal_strlit("{db_port}");
            reveal_strlit("{db_user}");
            reveal_strlit("{template_db}");
            reveal_strlit("{prefix}");
            reveal_strlit("{db_password}");
        }
        let mut port: Vec<char> = Vec::new();
        push_digits(&mut port, context.db_port as u64, 10);
        let port_text = string_from_chars(&port);
        let r = replace_all(template, "{branch_name}", context.branch_name.as_str());
        let r = replace_all(r.as_str(), "{db_name}", context.db_name.as_str());
        let r = replace_all(r.as_str(), "{db_host}", context.db_host.as_str());
        let r = replace_all(r.as_str(), "{db_port}", port_text.as_str());
        let r = replace_all(r.as_str(), "{db_user}", context.db_user.as_str());
        let r = replace_all(r.as_str(), "{template_db}", context.template_db.as_str());
        let r = replace_all(r.as_str(), "{prefix}", context.prefix.as_str());
        match &context.db_password {
            Some(p) => replace_all(r.as_str(), "{db_password}", p.as_str()),
            None => r,
        }
    }

    /// The branch recorded by older files.
    pub fn get_current_branch(&self) -> (r: Option<&String>)
        ensures
            (match self.current_branch {
                Some(b) => r == Some(&b),
                None => r is None,
            }),
    {
        self.current_branch.as_ref()
    }

    /// Records the current branch the way older files did.
    pub fn set_current_branch(&mut self, branch_name: Option<String>)
        ensures
            final(self).current_branch == branch_name,
            final(self).database == old(self).database,
            final(self).git == old(self).git,
            final(self).backend == old(self).backend,
            final(self).backends == old(self).backends,
    {
        self.current_branch = branch_name;
    }
}

impl TemplateContext {
    /// The template values of a branch under a configuration.
    pub fn new(config: &Config, branch_name: &str) -> (r: TemplateContext)
        ensures
            r.branch_name@ == branch_name@,
            r.db_name@ == database_name_of(*config, branch_name@),
            r.db_host == config.database.host,
            r.db_port == config.database.port,
            r.db_user == config.database.user,
            r.db_password == config.database.password,
            r.template_db == config.database.template_database,
            r.prefix == config.database.database_prefix,
    {
        TemplateContext {
            branch_name: String::from_str(branch_name),
            db_name: config.get_database_name(branch_name),
            db_host: config.database.host.clone(),
            db_port: config.database.port,
            db_user: config.database.user.clone(),
            db_password: copy_opt(&config.database.password),
            template_db: config.database.template_database.clone(),
            prefix: config.database.database_prefix.clone(),
        }
    }
}

fn copy_opt(o: &Option<String>) -> (r: Option<String>)
    ensures
        r == *o,
{
    match o {
        Some(s) => Some(s.clone()),
        None => None,
    }
}

fn copy_local(c: &LocalBackendConfig) -> (r: LocalBackendConfig)
    ensures
        r == *c,
{
    LocalBackendConfig {
        image: copy_opt(&c.image),
        data_root: copy_opt(&c.data_root),
        storage: copy_opt(&c.storage),
        port_range_start: c.port_range_start,
        postgres_user: copy_opt(&c.postgres_user),
        postgres_password: copy_opt(&c.postgres_password),
        postgres_db: copy_opt(&c.postgres_db),
    }
}

fn copy_neon(c: &NeonConfig) -> (r: NeonConfig)
    ensures
        r == *c,
{
    NeonConfig { api_key: c.api_key.clone(), project_id: c.project_id.clone(), base_url: c.base_url.clone() }
}

fn copy_dblab(c: &DBLabConfig) -> (r: DBLabConfig)
    ensures
        r == *c,
{
    DBLabConfig { api_url: c.api_url.clone(), auth_token: c.auth_token.clone() }
}

fn copy_xata(c: &XataConfig) -> (r: XataConfig)
    ensures
        r == *c,
{
    XataConfig {
        api_key: c.api_key.clone(),
        organization_id: c.organization_id.clone(),
        project_id: c.project_id.clone(),
        base_url: c.base_url.clone(),
    }
}

fn copy_named(n: &NamedBackendConfig) -> (r: NamedBackendConfig)
    ensures
        r == *n,
{
    NamedBackendConfig {
        name: n.name.clone(),
        backend_type: n.backend_type.clone(),
        default: n.default,
        local: match &n.local {
            Some(c) => Some(copy_local(c)),
            None => None,
        },
        neon: match &n.neon {
            Some(c) => Some(copy_neon(c)),
            None => None,
        },
        dblab: match &n.dblab {
            Some(c) => Some(copy_dblab(c)),
            None => None,
        },
        xata: match &n.xata {
            Some(c) => Some(copy_xata(c)),
            None => None,
        },
    }
}

fn copy_named_list(v: &Vec<NamedBackendConfig>) -> (r: Vec<NamedBackendConfig>)
    ensures
        r@ == v@,
{
    let mut out: Vec<NamedBackendConfig> = Vec::new();
    let mut i: usize = 0;
    while i < v.len()
        invariant
            i <= v@.len(),
            out@ == v@.subrange(0, i as int),
        decreases v@.len() - i,
    {
        out.push(copy_named(&v[i]));
        i += 1;
        proof {
            assert(out@ =~= v@.subrange(0, i as int));
        }
    }
    proof {
        assert(v@.subrange(0, v@.len() as int) =~= v@);
    }
    out
}

/// The single backend of an older file, as the named backend `default`.
pub open spec fn legacy_as_named(b: BackendConfig, n: NamedBackendConfig) -> bool {
    &&& n.name@ == "default"@
    &&& n.backend_type == b.backend_type
    &&& n.default
    &&& n.local == b.local
    &&& n.neon == b.neon
    &&& n.dblab == b.dblab
    &&& n.xata == b.xata
}

/// The named backends a configuration defines: the `backends` list, else the
/// single `backend` named `default`, else none.
pub open spec fn resolved_backends(cfg: Config, r: Seq<NamedBackendConfig>) -> bool {
    match cfg.backends {
        Some(v) => r == v@,
        None => match cfg.backend {
            Some(b) => r.len() == 1 && legacy_as_named(b, r[0]),
            None => r.len() == 0,
        },
    }
}

/// The index of the first backend marked default.
pub open spec fn first_default(v: Seq<NamedBackendConfig>) -> Option<int> {
    if exists|i: int| 0 <= i < v.len() && v[i].default {
        Some(choose|i: int| 0 <= i < v.len() && v[i].default && forall|j: int| 0 <= j < i ==> !v[j].default)
    } else {
        None
    }
}

/// The index of the first backend named `name`.
pub open spec fn first_named(v: Seq<NamedBackendConfig>, name: Seq<char>) -> Option<int> {
    if exists|i: int| 0 <= i < v.len() && v[i].name@ == name {
        Some(choose|i: int| 0 <= i < v.len() && v[i].name@ == name && forall|j: int| 0 <= j < i ==> v[j].name@ != name)
    } else {
        None
    }
}

/// The number of backends marked default.
pub open spec fn default_count(v: Seq<NamedBackendConfig>) -> nat
    decreases v.len(),
{
    if v.len() == 0 {
        0
    } else {
        default_count(v.drop_last()) + if v.last().default { 1nat } else { 0nat }
    }
}

/// Backend `j` reuses the name of an earlier one.
pub open spec fn dup_at(v: Seq<NamedBackendConfig>, j: int) -> bool {
    exists|i: int| 0 <= i < j && #[trigger] v[i].name@ == v[j].name@
}

/// The first backend whose name was used before it in the list.
pub open spec fn first_duplicate(v: Seq<NamedBackendConfig>) -> Option<int> {
    if exists|j: int| 0 <= j < v.len() && #[trigger] dup_at(v, j) {
        Some(choose|j: int| 0 <= j < v.len() && dup_at(v, j) && forall|k: int| 0 <= k < j ==> !#[trigger] dup_at(v, k))
    } else {
        None
    }
}

fn name_used_before(v: &Vec<NamedBackendConfig>, j: usize) -> (r: bool)
    requires
        j < v@.len(),
    ensures
        r == dup_at(v@, j as int),
{
    let mut i: usize = 0;
    while i < j
        invariant
            j < v@.len(),
            i <= j,
            forall|x: int| 0 <= x < i ==> v@[x].name@ != v@[j as int].name@,
        decreases j - i,
    {
        if str_eq(v[i].name.as_str(), v[j].name.as_str()) {
            proof {
                assert(v@[i as int].name@ == v@[j as int].name@);
            }
            return true;
        }
        i += 1;
    }
    false
}

fn find_named(v: &Vec<NamedBackendConfig>, name: &str) -> (r: Option<usize>)
    ensures
        (match r {
            Some(i) => first_named(v@, name@) == Some(i as int) && i < v@.len(),
            None => first_named(v@, name@) is None,
        }),
{
    let mut i: usize = 0;
    while i < v.len()
        invariant
            i <= v@.len(),
            forall|j: int| 0 <= j < i ==> v@[j].name@ != name@,
        decreases v@.len() - i,
    {
        if str_eq(v[i].name.as_str(), name) {
            proof {
                let c = first_named(v@, name@)->0;
                assert(c == i) by {
                    if c < i {
                    }
                    if c > i {
                    }
                }
            }
            return Some(i);
        }
        i += 1;
    }
    None
}

impl Config {
    /// The named backends this configuration defines.
    pub fn resolve_backends(&self) -> (r: Vec<NamedBackendConfig>)
        ensures
            resolved_backends(*self, r@),
    {
        match &self.backends {
            Some(v) => copy_named_list(v),
            None => match &self.backend {
                Some(b) => {
                    let n = NamedBackendConfig {
                        name: String::from_str("default"),
                        backend_type: b.backend_type.clone(),
                        default: true,
                        local: match &b.local {
                            Some(c) => Some(copy_local(c)),
                            None => None,
                        },
                        neon: match &b.neon {
                            Some(c) => Some(copy_neon(c)),
                            None => None,
                        },
                        dblab: match &b.dblab {
                            Some(c) => Some(copy_dblab(c)),
                            None => None,
                        },
                        xata: match &b.xata {
                            Some(c) => Some(copy_xata(c)),
                            None => None,
                        },
                    };
                    vec![n]
                },
                None => Vec::new(),
            },
        }
    }

    /// The name of the default backend: the first marked default, else the first.
    pub fn default_backend_name(&self) -> (r: Option<String>)
        ensures
            (match self.backends {
                Some(v) => if v@.len() == 0 {
                    r is None
                } else {
                    match first_default(v@) {
                        Some(i) => r == Some(v@[i].name),
                        None => r == Some(v@[0].name),
                    }
                },
                None => match self.backend {
                    Some(_) => r matches Some(n) && n@ == "default"@,
                    None => r is None,
                },
            }),
    {
        let backends = self.resolve_backends();
        if backends.len() == 0 {
            return None;
        }
        let mut i: usize = 0;
        while i < backends.len()
            invariant
                resolved_backends(*self, backends@),
                backends@.len() > 0,
                i <= backends@.len(),
                forall|j: int| 0 <= j < i ==> !backends@[j].default,
            decreases backends@.len() - i,
        {
            if backends[i].default {
                proof {
                    let w = backends@;
                    assert(0 <= i < w.len() && w[i as int].default && forall|k: int| 0 <= k < i ==> !w[k].default);
                    assert(exists|k: int| 0 <= k < w.len() && w[k].default);
                    let c = first_default(w)->0;
                    assert(0 <= c < w.len() && w[c].default && forall|k: int| 0 <= k < c ==> !w[k].default);
                    if c < i {
                        assert(!w[c].default);
                    }
                    if c > i {
                        assert(!w[i as int].default);
                    }
                }
                return Some(backends[i].name.clone());
            }
            i += 1;
        }
        Some(backends[0].name.clone())
    }

    /// The backend of this name, if any.
    pub fn get_backend_config(&self, name: &str) -> (r: Option<NamedBackendConfig>)
        ensures
            (match self.backends {
                Some(v) => match first_named(v@, name@) {
                    Some(i) => r == Some(v@[i]),
                    None => r is None,
                },
                None => match self.backend {
                    Some(b) => if name@ == "default"@ {
                        r matches Some(n) && legacy_as_named(b, n)
                    } else {
                        r is None
                    },
                    None => r is None,
                },
            }),
    {
        let backends = self.resolve_backends();
        match find_named(&backends, name) {
            Some(i) => Some(copy_named(&backends[i])),
            None => None,
        }
    }

    /// Checks the backend settings: not both forms, unique names, at most one default.
    pub fn validate_backends(&self) -> (r: Result<(), ConfigError>)
        ensures
            self.backend is Some && self.backends is Some ==> r == Err::<(), ConfigError>(ConfigError::BothBackendForms),
            !(self.backend is Some && self.backends is Some) ==> (match self.backends {
                None => r is Ok,
                Some(v) => match first_duplicate(v@) {
                    Some(j) => r matches Err(ConfigError::DuplicateBackend(n)) && n == v@[j].name,
                    None => if default_count(v@) > 1 {
                        r matches Err(ConfigError::MultipleDefaults(c)) && c == default_count(v@)
                    } else {
                        r is Ok
                    },
                },
            }),
    {
        if self.backend.is_some() && self.backends.is_some() {
            return Err(ConfigError::BothBackendForms);
        }
        match &self.backends {
            None => Ok(()),
            Some(v) => {
                let mut count: usize = 0;
                let mut j: usize = 0;
                while j < v.len()
                    invariant
                        self.backends == Some(*v),
                        self.backend is None,
                        j <= v@.len(),
                        count == default_count(v@.subrange(0, j as int)),
                        count <= j,
                        forall|k: int| 0 <= k < j ==> !#[trigger] dup_at(v@, k),
                    decreases v@.len() - j,
                {
                    if name_used_before(v, j) {
                        proof {
                            let w = v@;
                            assert(exists|k: int| 0 <= k < w.len() && #[trigger] dup_at(w, k));
                            let c = first_duplicate(w)->0;
                            assert(0 <= c < w.len() && dup_at(w, c) && forall|k: int| 0 <= k < c ==> !#[trigger] dup_at(w, k));
                            if c < j {
                                assert(!dup_at(w, c));
                            }
                            if c > j {
                                assert(!dup_at(w, j as int));
                            }
                        }
                        return Err(ConfigError::DuplicateBackend(v[j].name.clone()));
                    }
                    proof {
                        assert(v@.subrange(0, j + 1).drop_last() =~= v@.subrange(0, j as int));
                        assert(!dup_at(v@, j as int));
                    }
                    if v[j].default {
                        count += 1;
                    }
                    j += 1;
                }
                proof {
                    assert(v@.subrange(0, v@.len() as int) =~= v@);
                    assert(first_duplicate(v@) is None);
                }
                if count > 1 {
                    Err(ConfigError::MultipleDefaults(count))
                } else {
                    Ok(())
                }
            },
        }
    }

    /// Moves the single `backend` of an older file into the `backends` list.
    /// Returns whether anything moved.
    pub fn migrate_to_backends_array(&mut self) -> (r: bool)
        ensures
            r == (old(self).backend is Some && old(self).backends is None),
            r ==> final(self).backend is None && (final(self).backends matches Some(v) && v@.len() == 1
                && legacy_as_named(old(self).backend->0, v@[0])),
            !r ==> *final(self) == *old(self),
            final(self).database == old(self).database,
            final(self).git == old(self).git,
            final(self).current_branch == old(self).current_branch,
    {
        if self.backend.is_some() && self.backends.is_none() {
            let b = self.backend.take().unwrap();
            self.backends = Some(vec![NamedBackendConfig {
                name: String::from_str("default"),
                backend_type: b.backend_type,
                default: true,
                local: b.local,
                neon: b.neon,
                dblab: b.dblab,
                xata: b.xata,
            }]);
            true
        } else {
            false
        }
    }

    /// Adds a named backend. A backend of the same name is replaced when
    /// `force` is set and is an error otherwise; the first backend added becomes
    /// the default. The list exists afterwards in every case.
    pub fn add_backend(&mut self, named: NamedBackendConfig, force: bool) -> (r: Result<(), ConfigError>)
        ensures
            final(self).backend == old(self).backend,
            final(self).database == old(self).database,
            final(self).git == old(self).git,
            ({
                let v = match old(self).backends {
                    Some(l) => l@,
                    None => Seq::<NamedBackendConfig>::empty(),
                };
                final(self).backends matches Some(nv) && match first_named(v, named.name@) {
                    Some(p) => if force {
                        r is Ok && nv@ == v.update(p, named)
                    } else {
                        r matches Err(ConfigError::BackendExists(n)) && n == v[p].name && nv@ == v
                    },
                    None => r is Ok && nv@.len() == v.len() + 1 && nv@.subrange(0, v.len() as int) == v
                        && nv@.last().name == named.name && nv@.last().backend_type == named.backend_type
                        && nv@.last().default == (named.default || v.len() == 0)
                        && nv@.last().local == named.local && nv@.last().neon == named.neon
                        && nv@.last().dblab == named.dblab && nv@.last().xata == named.xata,
                }
            }),
    {
        let mut v = match self.backends.take() {
            Some(l) => l,
            None => Vec::new(),
        };
        let ghost v0 = v@;
        let result = match find_named(&v, named.name.as_str()) {
            Some(pos) => {
                if force {
                    v.set(pos, named);
                    Ok(())
                } else {
                    Err(ConfigError::BackendExists(v[pos].name.clone()))
                }
            },
            None => {
                let mut named = named;
                if v.len() == 0 {
                    named.default = true;
                }
                v.push(named);
                proof {
                    assert(v@.subrange(0, v0.len() as int) =~= v0);
                }
                Ok(())
            },
        };
        self.backends = Some(v);
        result
    }

    /// Removes every backend of this name.
    pub fn remove_backend(&mut self, name: &str)
        ensures
            final(self).backend == old(self).backend,
            final(self).database == old(self).database,
            final(self).git == old(self).git,
            final(self).behavior == old(self).behavior,
            final(self).post_commands == old(self).post_commands,
            final(self).current_branch == old(self).current_branch,
            final(self).worktree == old(self).worktree,
            (match old(self).backends {
                None => final(self).backends is None,
                Some(v) => final(self).backends matches Some(nv) && nv@ == v@.filter(|b: NamedBackendConfig| b.name@ != name@),
            }),
    {
        match self.backends.take() {
            None => {},
            Some(v) => {
                let ghost pred = |b: NamedBackendConfig| b.name@ != name@;
                let mut out: Vec<NamedBackendConfig> = Vec::new();
                let mut i: usize = 0;
                let mut v = v;
                let ghost v0 = v@;
                while i < v.len()
                    invariant
                        v@ == v0,
                        i <= v@.len(),
                        out@ == v0.subrange(0, i as int).filter(pred),
                        pred == (|b: NamedBackendConfig| b.name@ != name@),
                    decreases v@.len() - i,
                {
                    proof {
                        assert(v0.subrange(0, i + 1) =~= v0.subrange(0, i as int).push(v0[i as int]));
                        v0.subrange(0, i as int).lemma_filter_push(v0[i as int], pred);
                    }
                    if !str_eq(v[i].name.as_str(), name) {
                        out.push(copy_named(&v[i]));
                    }
                    i += 1;
                }
                proof {
                    assert(v0.subrange(0, v0.len() as int) =~= v0);
                }
                self.backends = Some(out);
            },
        }
    }
}

impl EffectiveConfig {
    /// Merges the sources: the environment decides, then the per-checkout file.
    pub fn new(config: Config, local_config: Option<LocalConfig>, env_config: EnvConfig) -> (r: Result<EffectiveConfig, ConfigError>)
        ensures
            r matches Ok(e) && e.config == config && e.local_config == local_config && e.env_config == env_config
                && e.disabled == (match env_config.disabled {
                    Some(d) => d,
                    None => match local_config {
                        Some(l) => l.disabled == Some(true),
                        None => false,
                    },
                })
                && e.skip_hooks == (env_config.skip_hooks == Some(true))
                && e.current_branch_disabled == (env_config.current_branch_disabled == Some(true)),
    {
        let disabled = match env_config.disabled {
            Some(d) => d,
            None => match &local_config {
                Some(l) => match l.disabled {
                    Some(d) => d,
                    None => false,
                },
                None => false,
            },
        };
        let skip_hooks = match env_config.skip_hooks {
            Some(s) => s,
            None => false,
        };
        let current_branch_disabled = match env_config.current_branch_disabled {
            Some(c) => c,
            None => false,
        };
        Ok(EffectiveConfig { config, local_config, env_config, disabled, skip_hooks, current_branch_disabled })
    }

    pub fn is_disabled(&self) -> (r: bool)
        ensures
            r == self.disabled,
    {
        self.disabled
    }

    pub fn should_skip_hooks(&self) -> (r: bool)
        ensures
            r == self.skip_hooks,
    {
        self.skip_hooks
    }

    pub fn is_current_branch_disabled(&self) -> (r: bool)
        ensures
            r == self.current_branch_disabled,
    {
        self.current_branch_disabled
    }
}

} // verus!
