use pgbranch::config::{
    Config, ConfigError, NamedBackendConfig, BackendConfig, NamingStrategy, TemplateContext,
};
use pgbranch::runtime::{reserve_branch, sanitize, ReserveBranchSpec};
use pgbranch::zfs::{
    branch_dataset_name, branch_metadata, branch_root_from_data_dir, detect_dataset_from_mountpoints,
    origin_snapshot_name, project_dataset_name, resolve_root_dataset, short_id,
};
use pgbranch::storage::ZfsProjectConfig;

fn name_of(project: &str, branch: &str) -> String {
    reserve_branch(&ReserveBranchSpec {
        project_name: project.to_string(),
        branch_name: branch.to_string(),
    })
    .container_name
}

#[test]
fn container_name_sanitizes_both_parts() {
    assert_eq!(name_of("My Proj", "Feat/X_1"), "pgbranch-my-proj-feat-x-1");
}

#[test]
fn container_name_is_deterministic() {
    assert_eq!(name_of("shop", "feature/login"), name_of("shop", "feature/login"));
    assert_eq!(name_of("shop", "feature/login"), "pgbranch-shop-feature-login");
}

#[test]
fn sanitize_collapses_and_trims_dashes() {
    assert_eq!(sanitize("--A__b  C--"), "a-b-c");
    assert_eq!(sanitize("///"), "project");
    assert_eq!(sanitize(""), "project");
    assert_eq!(sanitize("été"), "t");
}

#[test]
fn container_name_is_capped_at_128_without_trailing_dash() {
    let long = "a".repeat(200);
    let n = name_of("p", &long);
    assert_eq!(n.len(), 128);
    assert!(n.starts_with("pgbranch-p-aaa"));
    let tricky = format!("{}-{}", "b".repeat(116), "c".repeat(20));
    let m = name_of("p", &tricky);
    assert!(m.len() <= 128);
    assert!(!m.ends_with('-'));
    assert_eq!(m, format!("pgbranch-p-{}", "b".repeat(116)));
}

#[test]
fn zfs_dataset_names() {
    let cfg = ZfsProjectConfig { root_dataset: "tank/pg".to_string() };
    assert_eq!(project_dataset_name(&cfg, "prj"), "tank/pg/projects/prj");
    assert_eq!(branch_dataset_name(&cfg, "prj", "brx"), "tank/pg/projects/prj/branches/brx");
    assert_eq!(short_id("0123456789abcdef"), "01234567");
    assert_eq!(short_id("abc"), "abc");
    assert_eq!(
        origin_snapshot_name("tank/pg/projects/prj/branches/b0", "deadbeef-1234"),
        "tank/pg/projects/prj/branches/b0@pgbranch_deadbeef"
    );
}

#[test]
fn branch_root_is_parent_of_data_dir() {
    assert_eq!(branch_root_from_data_dir("/data/projects/p/branches/b/pgdata").unwrap(), "/data/projects/p/branches/b");
    assert!(branch_root_from_data_dir("/").is_err());
}

#[test]
fn root_dataset_detection_prefers_longest_mountpoint() {
    let out = "tank\t/tank\ntank/pg\t/tank/pg\ntank/legacy\tlegacy\ntank/other\t/tank/pgx\nbroken line\n";
    assert_eq!(detect_dataset_from_mountpoints("/tank/pg/projects", out), Some("tank/pg".to_string()));
    assert_eq!(detect_dataset_from_mountpoints("/tank/pg", out), Some("tank/pg".to_string()));
    assert_eq!(detect_dataset_from_mountpoints("/srv/data", out), None);
    assert_eq!(detect_dataset_from_mountpoints("/tank/pgx/a", out), Some("tank/other".to_string()));
}

#[test]
fn explicit_root_dataset_wins_and_blank_means_none() {
    assert_eq!(resolve_root_dataset(Some("pool/x".to_string()), Some("tank".to_string())), Some("pool/x".to_string()));
    assert_eq!(resolve_root_dataset(Some("   ".to_string()), Some("tank".to_string())), None);
    assert_eq!(resolve_root_dataset(None, Some("tank".to_string())), Some("tank".to_string()));
}

#[test]
fn database_names_follow_strategy() {
    let mut cfg = Config::default();
    assert_eq!(cfg.get_database_name("feature/Foo-Bar"), "pgbranch_feature_foo_bar");
    assert_eq!(cfg.get_database_name("main"), "template0");
    assert_eq!(cfg.get_database_name("_main"), "template0");
    assert_eq!(cfg.get_database_name("123-fix"), "pgbranch__123_fix");
    cfg.behavior.naming_strategy = NamingStrategy::Suffix;
    assert_eq!(cfg.get_database_name("dev"), "dev_pgbranch");
    cfg.behavior.naming_strategy = NamingStrategy::Replace;
    assert_eq!(cfg.get_database_name("Dev__Branch__"), "dev_branch");
    assert_eq!(cfg.get_database_name("!!!"), "branch");
}

#[test]
fn long_database_names_are_cut_with_hash() {
    let cfg = Config::default();
    let a = cfg.get_database_name(&"x".repeat(100));
    let b = cfg.get_database_name(&format!("{}y", "x".repeat(99)));
    assert!(a.len() <= 63);
    assert!(a.starts_with("pgbranch_xxxx"));
    let hash = Config::calculate_name_hash(&format!("pgbranch_{}", "x".repeat(100)));
    assert!(hash < 0x10000);
    assert!(a.ends_with(&format!("_{:x}", hash)));
    assert_eq!(a.len(), 63);
    assert_ne!(a, b);
}

#[test]
fn name_hash_matches_default_hasher() {
    let mut h = std::collections::hash_map::DefaultHasher::new();
    std::hash::Hash::hash("some_name", &mut h);
    assert_eq!(Config::calculate_name_hash("some_name"), (std::hash::Hasher::finish(&h) as u32) & 0xFFFF);
}

#[test]
fn template_variables_are_substituted() {
    let mut cfg = Config::default();
    cfg.database.password = Some("pw".to_string());
    let ctx = TemplateContext::new(&cfg, "feature/x");
    assert_eq!(ctx.db_name, "pgbranch_feature_x");
    let out = cfg.substitute_template_variables(
        "{db_user}:{db_password}@{db_host}:{db_port}/{db_name} from {template_db} ({prefix}, {branch_name}) {db_name}",
        &ctx,
    );
    assert_eq!(out, "postgres:pw@localhost:5432/pgbranch_feature_x from template0 (pgbranch, feature/x) pgbranch_feature_x");
    let mut ctx2 = ctx.clone();
    ctx2.db_password = None;
    assert_eq!(cfg.substitute_template_variables("{db_password}", &ctx2), "{db_password}");
}

fn named(name: &str, default: bool) -> NamedBackendConfig {
    NamedBackendConfig {
        name: name.to_string(),
        backend_type: "local".to_string(),
        default,
        local: None,
        neon: None,
        dblab: None,
        xata: None,
    }
}

#[test]
fn backends_resolve_from_either_form() {
    let mut cfg = Config::default();
    assert!(cfg.resolve_backends().is_empty());
    assert_eq!(cfg.default_backend_name(), None);
    cfg.backend = Some(BackendConfig { backend_type: "neon".to_string(), local: None, neon: None, dblab: None, xata: None });
    let r = cfg.resolve_backends();
    assert_eq!(r.len(), 1);
    assert_eq!(r[0].name, "default");
    assert!(r[0].default);
    assert_eq!(r[0].backend_type, "neon");
    assert!(cfg.migrate_to_backends_array());
    assert!(cfg.backend.is_none());
    assert!(!cfg.migrate_to_backends_array());
    assert_eq!(cfg.backends.as_ref().unwrap()[0].name, "default");
}

#[test]
fn default_backend_is_marked_or_first() {
    let mut cfg = Config::default();
    cfg.backends = Some(vec![named("a", false), named("b", true), named("c", true)]);
    assert_eq!(cfg.default_backend_name(), Some("b".to_string()));
    assert_eq!(cfg.get_backend_config("c").map(|b| b.name), Some("c".to_string()));
    assert!(cfg.get_backend_config("zzz").is_none());
    cfg.backends = Some(vec![named("a", false), named("b", false)]);
    assert_eq!(cfg.default_backend_name(), Some("a".to_string()));
}

#[test]
fn backend_validation_errors() {
    let mut cfg = Config::default();
    cfg.backends = Some(vec![named("a", true), named("b", false)]);
    assert_eq!(cfg.validate_backends(), Ok(()));
    cfg.backends = Some(vec![named("a", true), named("b", false), named("a", false), named("b", false)]);
    assert_eq!(cfg.validate_backends(), Err(ConfigError::DuplicateBackend("a".to_string())));
    cfg.backends = Some(vec![named("a", true), named("b", true)]);
    assert_eq!(cfg.validate_backends(), Err(ConfigError::MultipleDefaults(2)));
    cfg.backend = Some(BackendConfig { backend_type: "local".to_string(), local: None, neon: None, dblab: None, xata: None });
    assert_eq!(cfg.validate_backends(), Err(ConfigError::BothBackendForms));
}

#[test]
fn adding_and_removing_backends() {
    let mut cfg = Config::default();
    assert_eq!(cfg.add_backend(named("a", false), false), Ok(()));
    assert!(cfg.backends.as_ref().unwrap()[0].default);
    assert_eq!(cfg.add_backend(named("b", false), false), Ok(()));
    assert!(!cfg.backends.as_ref().unwrap()[1].default);
    assert_eq!(cfg.add_backend(named("a", false), false), Err(ConfigError::BackendExists("a".to_string())));
    let mut replacement = named("a", false);
    replacement.backend_type = "neon".to_string();
    assert_eq!(cfg.add_backend(replacement, true), Ok(()));
    assert_eq!(cfg.backends.as_ref().unwrap()[0].backend_type, "neon");
    cfg.remove_backend("a");
    let left: Vec<String> = cfg.backends.as_ref().unwrap().iter().map(|b| b.name.clone()).collect();
    assert_eq!(left, vec!["b".to_string()]);
}

#[test]
fn normalized_branch_name_lowercases_unicode() {
    let cfg = Config::default();
    assert_eq!(cfg.get_normalized_branch_name("ÄBC-Déf"), "_bc_d_f");
    assert_eq!(Config::sanitize_branch_name("Hello$World"), "hello$world");
}

#[test]
fn zfs_branch_metadata_records_dataset_and_origin() {
    let cfg = ZfsProjectConfig { root_dataset: "tank".to_string() };
    let empty = branch_metadata(&cfg, "prj", "abcdef0123", None);
    assert_eq!(empty.dataset, "tank/projects/prj/branches/abcdef0123");
    assert_eq!(empty.origin_snapshot, None);
    let clone = branch_metadata(&cfg, "prj", "abcdef0123", Some("tank/projects/prj/branches/main0"));
    assert_eq!(clone.origin_snapshot, Some("tank/projects/prj/branches/main0@pgbranch_abcdef01".to_string()));
}

#[test]
fn lines_split_like_str_lines() {
    use_lines("a\r\nb\n\nc\r", vec!["a", "b", "", "c\r"]);
    use_lines("", vec![]);
    use_lines("x\n", vec!["x"]);
    use_lines("\n", vec![""]);
}

fn use_lines(text: &str, expected: Vec<&str>) {
    let got: Vec<String> = pgbranch::text::split_lines(text).into_iter().map(|l| l.into_iter().collect()).collect();
    let want: Vec<String> = text.lines().map(|l| l.to_string()).collect();
    assert_eq!(got, want);
    assert_eq!(got, expected.into_iter().map(|s| s.to_string()).collect::<Vec<_>>());
}

#[test]
fn whitespace_only_root_dataset_means_none() {
    assert_eq!(resolve_root_dataset(Some("\t \u{3000}\n".to_string()), None), None);
    assert_eq!(resolve_root_dataset(Some(" tank ".to_string()), None), Some(" tank ".to_string()));
}
