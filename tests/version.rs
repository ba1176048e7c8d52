use arqonship::ship::commits::{log_range, Commit, CommitParser};
use arqonship::ship::version::{calculate_next_version, generate_changelog, SemVer};
use std::path::PathBuf;

fn make_commit(commit_type: &str, description: &str, is_breaking: bool) -> Commit {
    Commit {
        hash: "abc123".to_string(),
        commit_type: commit_type.to_string(),
        scope: None,
        description: description.to_string(),
        is_breaking,
    }
}

#[test]
fn test_semver_parse_full() {
    let v = SemVer::parse("1.2.3").unwrap();
    assert_eq!(v.major, 1);
    assert_eq!(v.minor, 2);
    assert_eq!(v.patch, 3);
}

#[test]
fn test_semver_parse_with_v_prefix() {
    let v = SemVer::parse("v2.0.1").unwrap();
    assert_eq!(v.major, 2);
    assert_eq!(v.minor, 0);
    assert_eq!(v.patch, 1);
}

#[test]
fn test_semver_parse_partial() {
    let v = SemVer::parse("1.2").unwrap();
    assert_eq!(v.major, 1);
    assert_eq!(v.minor, 2);
    assert_eq!(v.patch, 0);
}

#[test]
fn test_semver_display() {
    let v = SemVer { major: 3, minor: 2, patch: 1 };
    assert_eq!(v.to_string(), "3.2.1");
}

#[test]
fn test_bump_major() {
    let v = SemVer { major: 1, minor: 2, patch: 3 };
    let bumped = v.bump_major();
    assert_eq!(bumped.major, 2);
    assert_eq!(bumped.minor, 0);
    assert_eq!(bumped.patch, 0);
}

#[test]
fn test_bump_minor() {
    let v = SemVer { major: 1, minor: 2, patch: 3 };
    let bumped = v.bump_minor();
    assert_eq!(bumped.major, 1);
    assert_eq!(bumped.minor, 3);
    assert_eq!(bumped.patch, 0);
}

#[test]
fn test_bump_patch() {
    let v = SemVer { major: 1, minor: 2, patch: 3 };
    let bumped = v.bump_patch();
    assert_eq!(bumped.major, 1);
    assert_eq!(bumped.minor, 2);
    assert_eq!(bumped.patch, 4);
}

#[test]
fn test_calculate_next_version_breaking() {
    let current = SemVer { major: 1, minor: 0, patch: 0 };
    let commits = vec![make_commit("feat", "new feature", true)];
    let next = calculate_next_version(&current, &commits);
    assert_eq!(next.major, 2);
    assert_eq!(next.minor, 0);
}

#[test]
fn test_calculate_next_version_feature() {
    let current = SemVer { major: 1, minor: 0, patch: 0 };
    let commits = vec![make_commit("feat", "new feature", false)];
    let next = calculate_next_version(&current, &commits);
    assert_eq!(next.major, 1);
    assert_eq!(next.minor, 1);
}

#[test]
fn test_calculate_next_version_fix() {
    let current = SemVer { major: 1, minor: 0, patch: 0 };
    let commits = vec![make_commit("fix", "bug fix", false)];
    let next = calculate_next_version(&current, &commits);
    assert_eq!(next.major, 1);
    assert_eq!(next.minor, 0);
    assert_eq!(next.patch, 1);
}

#[test]
fn test_generate_changelog_has_version() {
    let v = SemVer { major: 1, minor: 0, patch: 0 };
    let commits = vec![make_commit("feat", "Add new API", false)];
    let changelog = generate_changelog(&v, &commits);
    assert!(changelog.contains("## v1.0.0"));
    assert!(changelog.contains("### Features"));
    assert!(changelog.contains("Add new API"));
}

#[test]
fn semver_parse_edge_cases() {
    let v = SemVer::parse("vv10.x.+7").unwrap();
    assert_eq!((v.major, v.minor, v.patch), (10, 0, 7));
    let v = SemVer::parse("").unwrap();
    assert_eq!((v.major, v.minor, v.patch), (0, 0, 0));
    let v = SemVer::parse("4294967296.1.2").unwrap();
    assert_eq!((v.major, v.minor, v.patch), (0, 1, 2));
    let v = SemVer::parse("4294967295.-1.2.9").unwrap();
    assert_eq!((v.major, v.minor, v.patch), (4294967295, 0, 2));
}

#[test]
fn next_version_without_commits_is_a_patch() {
    let current = SemVer { major: 0, minor: 9, patch: 9 };
    let next = calculate_next_version(&current, &[]);
    assert_eq!(next, SemVer { major: 0, minor: 9, patch: 10 });
}

#[test]
fn changelog_full_text() {
    let v = SemVer { major: 2, minor: 10, patch: 0 };
    let commits = vec![
        make_commit("feat", "feat: add a", false),
        make_commit("chore", "chore: tidy", false),
        make_commit("fix", "fix: b", false),
        make_commit("feat", "feat: c", false),
    ];
    assert_eq!(
        generate_changelog(&v, &commits),
        "## v2.10.0\n\n### Features\n\n- feat: add a\n- feat: c\n\n### Bug Fixes\n\n- fix: b\n\n### Other Changes\n\n- chore: tidy\n\n"
    );
    assert_eq!(generate_changelog(&v, &[]), "## v2.10.0\n\n");
}

#[test]
fn commit_line_classification() {
    let p = CommitParser::new(PathBuf::from("."));
    let c = p.parse_commit_line("0123abc feat(api)!: drop old endpoint").unwrap();
    assert_eq!(c.hash, "0123abc");
    assert_eq!(c.commit_type, "feat");
    assert_eq!(c.description, "feat(api)!: drop old endpoint");
    assert!(c.is_breaking);
    assert!(c.scope.is_none());
    let c = p.parse_commit_line("ff refactor: BREAKING CHANGE in layout").unwrap();
    assert_eq!(c.commit_type, "refactor");
    assert!(c.is_breaking);
    let c = p.parse_commit_line("ee update readme").unwrap();
    assert_eq!(c.commit_type, "other");
    assert!(!c.is_breaking);
    assert!(p.parse_commit_line("nospace").is_none());
}

#[test]
fn commit_log_skips_lines_without_subject() {
    let p = CommitParser::new(PathBuf::from("."));
    let cs = p.parse_commit_log("a1 fix: x\r\nlonely\nb2 docs: y\n");
    assert_eq!(cs.len(), 2);
    assert_eq!(cs[0].commit_type, "fix");
    assert_eq!(cs[0].description, "fix: x");
    assert_eq!(cs[1].hash, "b2");
    assert_eq!(cs[1].commit_type, "docs");
}

#[test]
fn log_range_after_tag() {
    assert_eq!(log_range("v1.2.0\n", true), "v1.2.0..HEAD");
    assert_eq!(log_range("fatal: no tags", false), "HEAD");
    assert_eq!(log_range("  \n", true), "HEAD");
}
