use arqonship::config::Config;
use arqonship::ship::checks::ConstitutionCheck;
use std::path::PathBuf;

#[test]
fn default_configuration() {
    let c = Config::load_default();
    assert_eq!(c.meta.config_version, 1);
    assert_eq!(c.heal.max_attempts, 2);
    assert_eq!(c.heal.ollama_endpoint, "http://localhost:11434");
    assert_eq!(c.oracle.include_globs, vec!["src/**/*.rs", "src/**/*.py"]);
    assert_eq!(c.ship.require_branches, vec!["main"]);
    assert!(c.heal.enabled);
    let d = Config::default();
    assert_eq!(d.ship.version_scheme, "semver");
}

#[test]
fn release_checks_all_must_pass() {
    let c = ConstitutionCheck::new(PathBuf::from("."));
    assert!(c.run_all(true, true));
    assert!(!c.run_all(true, false));
    assert!(!c.run_all(false, true));
}

#[test]
fn untagged_debt_is_counted() {
    let c = ConstitutionCheck::new(PathBuf::from("."));
    let grep = "src/a.rs:3: // TODO(#12) later\nsrc/b.rs:9: // TODO tidy\nsrc/c.rs:1: // TODO[perf] cache\nsrc/d.rs:2: // TODO: x\n";
    assert_eq!(c.count_untagged_debt(grep), 2);
    assert!(!c.no_untagged_debt(grep));
    assert!(c.no_untagged_debt(""));
}
