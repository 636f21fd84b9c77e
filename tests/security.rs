use music_mcp_server::config::{Config, SecurityConfig};
use music_mcp_server::security::{
    is_within_root, validate_path, FsFailure, PathProbe, PathSecurityError,
};

fn config(root: Option<&str>, allow_symlinks: bool) -> Config {
    let mut config = Config::default();
    config.security = SecurityConfig { root_path: root.map(|r| r.to_string()), allow_symlinks };
    config
}

fn missing() -> FsFailure {
    FsFailure { not_found: true, message: "No such file or directory (os error 2)".to_string() }
}

fn denied() -> FsFailure {
    FsFailure { not_found: false, message: "Permission denied (os error 13)".to_string() }
}

/// A plain file that exists and resolves to `canonical`, under a root that
/// resolves to `root`.
fn plain(root: &str, canonical: &str) -> PathProbe {
    PathProbe {
        canonical_root: Ok(root.to_string()),
        exists: true,
        is_symlink: false,
        link_target: Err(denied()),
        canonical_target: Err(denied()),
        canonical: Ok(canonical.to_string()),
    }
}

fn link(root: &str, target: &str, canonical: &str) -> PathProbe {
    PathProbe {
        canonical_root: Ok(root.to_string()),
        exists: true,
        is_symlink: true,
        link_target: Ok(target.to_string()),
        canonical_target: Ok(target.to_string()),
        canonical: Ok(canonical.to_string()),
    }
}

#[test]
fn test_no_root_allows_existing_paths() {
    let probe = plain("/unused", "/tmp/t1/test.txt");
    let result = validate_path("/tmp/t1/test.txt", &config(None, true), &probe);
    assert_eq!(result.unwrap(), "/tmp/t1/test.txt");
}

#[test]
fn test_path_within_root() {
    let probe = plain("/tmp/t1", "/tmp/t1/test.txt");
    let result = validate_path("/tmp/t1/test.txt", &config(Some("/tmp/t1"), true), &probe);
    assert!(result.is_ok());
}

#[test]
fn test_path_outside_root() {
    let probe = plain("/tmp/root", "/tmp/outside/outside.txt");
    let result = validate_path("/tmp/outside/outside.txt", &config(Some("/tmp/root"), true), &probe);
    assert!(matches!(result, Err(PathSecurityError::OutsideRootDirectory { .. })));
}

#[test]
fn test_path_traversal_blocked() {
    let probe = plain("/tmp/t1/subdir", "/tmp/t1/test.txt");
    let result =
        validate_path("/tmp/t1/subdir/../test.txt", &config(Some("/tmp/t1/subdir"), true), &probe);
    assert!(matches!(result, Err(PathSecurityError::OutsideRootDirectory { .. })));
}

#[test]
fn test_nonexistent_path() {
    let mut probe = plain("/tmp/t1", "/tmp/t1/does_not_exist.txt");
    probe.exists = false;
    probe.canonical = Err(missing());
    let result = validate_path("/tmp/t1/does_not_exist.txt", &config(Some("/tmp/t1"), true), &probe);
    assert!(matches!(result, Err(PathSecurityError::PathNotFound { .. })));
}

#[test]
fn test_symlink_within_root() {
    let probe = link("/tmp/t1", "/tmp/t1/target.txt", "/tmp/t1/target.txt");
    let result = validate_path("/tmp/t1/link.txt", &config(Some("/tmp/t1"), true), &probe);
    assert!(result.is_ok());
}

#[test]
fn symlink_outside_root_rejected_when_links_disallowed() {
    let probe = link("/tmp/root", "/tmp/outside/target.txt", "/tmp/outside/target.txt");
    let result = validate_path("/tmp/root/link.txt", &config(Some("/tmp/root"), false), &probe);
    match result {
        Err(PathSecurityError::SymlinkOutsideRoot { path }) => assert_eq!(path, "/tmp/root/link.txt"),
        other => panic!("unexpected {:?}", other),
    }
}

#[test]
fn symlink_outside_root_resolved_normally_when_links_allowed() {
    let probe = link("/tmp/root", "/tmp/outside/target.txt", "/tmp/outside/target.txt");
    let result = validate_path("/tmp/root/link.txt", &config(Some("/tmp/root"), true), &probe);
    match result {
        Err(PathSecurityError::OutsideRootDirectory { path, root }) => {
            assert_eq!(path, "/tmp/outside/target.txt");
            assert_eq!(root, "/tmp/root");
        }
        other => panic!("unexpected {:?}", other),
    }
    let inside = link("/tmp/root", "/tmp/outside/t", "/tmp/root/real.txt");
    assert_eq!(
        validate_path("/tmp/root/link.txt", &config(Some("/tmp/root"), true), &inside).unwrap(),
        "/tmp/root/real.txt"
    );
}

#[test]
fn symlink_inside_root_accepted_when_links_disallowed() {
    let probe = link("/tmp/t1", "/tmp/t1/target.txt", "/tmp/t1/target.txt");
    let result = validate_path("/tmp/t1/link.txt", &config(Some("/tmp/t1"), false), &probe);
    assert_eq!(result.unwrap(), "/tmp/t1/target.txt");
}

#[test]
fn unreadable_link_and_unresolvable_target() {
    let mut probe = link("/r", "/r/t", "/r/t");
    probe.link_target = Err(denied());
    assert!(matches!(
        validate_path("/r/l", &config(Some("/r"), false), &probe),
        Err(PathSecurityError::IoError { .. })
    ));
    let mut probe = link("/r", "/r/t", "/r/t");
    probe.canonical_target = Err(missing());
    assert!(matches!(
        validate_path("/r/l", &config(Some("/r"), false), &probe),
        Err(PathSecurityError::SymlinkOutsideRoot { .. })
    ));
}

#[test]
fn root_that_cannot_be_resolved_is_reported() {
    let mut probe = plain("/r", "/r/a");
    probe.canonical_root = Err(missing());
    match validate_path("/r/a", &config(Some("/r"), true), &probe) {
        Err(PathSecurityError::IoError { path, error }) => {
            assert_eq!(path, "/r");
            assert_eq!(error, "No such file or directory (os error 2)");
        }
        other => panic!("unexpected {:?}", other),
    }
}

#[test]
fn canonicalization_failure_in_either_mode() {
    let mut probe = plain("/r", "/r/a");
    probe.canonical = Err(denied());
    assert!(matches!(
        validate_path("/r/a", &config(Some("/r"), true), &probe),
        Err(PathSecurityError::CannotCanonicalize { .. })
    ));
    assert!(matches!(
        validate_path("/r/a", &config(None, true), &probe),
        Err(PathSecurityError::CannotCanonicalize { .. })
    ));
    probe.canonical = Err(missing());
    assert!(matches!(
        validate_path("/nowhere", &config(None, true), &probe),
        Err(PathSecurityError::PathNotFound { .. })
    ));
}

#[test]
fn revalidating_canonical_form_gives_same_path() {
    let cfg = config(Some("/srv"), true);
    let first = validate_path("/srv/a/../b.txt", &cfg, &plain("/srv", "/srv/b.txt")).unwrap();
    let second = validate_path(&first, &cfg, &plain("/srv", &first)).unwrap();
    assert_eq!(first, second);
}

#[test]
fn root_is_compared_by_components() {
    assert!(is_within_root("/root", "/root"));
    assert!(is_within_root("/root/a", "/root"));
    assert!(!is_within_root("/root-evil", "/root"));
    assert!(!is_within_root("/ro", "/root"));
    assert!(is_within_root("/anything", "/"));
    let probe = plain("/root", "/root-evil/x");
    assert!(matches!(
        validate_path("/root-evil/x", &config(Some("/root"), true), &probe),
        Err(PathSecurityError::OutsideRootDirectory { .. })
    ));
}

#[test]
fn dot_dot_segments_decided_by_resolution() {
    let cfg = config(Some("/tmp/r"), true);
    let escape = plain("/tmp/r", "/tmp/escape.txt");
    assert!(matches!(
        validate_path("/tmp/r/subdir/../../escape.txt", &cfg, &escape),
        Err(PathSecurityError::OutsideRootDirectory { .. })
    ));
    let inside = plain("/tmp/r", "/tmp/r/ok.txt");
    assert_eq!(validate_path("/tmp/r/subdir/../ok.txt", &cfg, &inside).unwrap(), "/tmp/r/ok.txt");
}
