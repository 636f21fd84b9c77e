//! The path sandbox: decides whether a path may be used, given what the
//! filesystem said about it, and on success yields its canonical form.
//!
//! The filesystem is asked by the caller: it fills a [`PathProbe`] with the
//! answers (canonical forms, existence, link targets), and
//! [`validate_path`] takes every decision from there.

use vstd::prelude::*;
use vstd::string::StringExecFns;
use crate::config::{Config, SecurityConfig};
use crate::path::{path_within, within_path};

verus! {

/// A failed filesystem call: whether it failed because the path does not
/// exist, and the error's text.
#[derive(Debug, Clone)]
pub struct FsFailure {
    pub not_found: bool,
    pub message: String,
}

/// What the filesystem said about one input path and the configured root.
/// Answers that a decision does not reach are never read.
#[derive(Debug)]
pub struct PathProbe {
    /// Canonical form of the configured root.
    pub canonical_root: Result<String, FsFailure>,
    /// Whether the input path exists.
    pub exists: bool,
    /// Whether the input path is itself a symbolic link.
    pub is_symlink: bool,
    /// The link's target as stored in the link.
    pub link_target: Result<String, FsFailure>,
    /// Canonical form of the link's target.
    pub canonical_target: Result<String, FsFailure>,
    /// Canonical form of the input path.
    pub canonical: Result<String, FsFailure>,
}

/// Why a path was refused. Each names the offending path.
#[derive(Debug, Clone)]
pub enum PathSecurityError {
    /// The path resolves outside the root.
    OutsideRootDirectory { path: String, root: String },
    /// The path is a symlink whose target lies outside the root.
    SymlinkOutsideRoot { path: String },
    /// The path could not be resolved.
    CannotCanonicalize { path: String, error: String },
    /// The path does not exist.
    PathNotFound { path: String },
    /// Another filesystem failure, on the root or on a link.
    IoError { path: String, error: String },
}

/// A refusal, over character sequences.
pub enum PathRefusal {
    OutsideRootDirectory { path: Seq<char>, root: Seq<char> },
    SymlinkOutsideRoot { path: Seq<char> },
    CannotCanonicalize { path: Seq<char>, error: Seq<char> },
    PathNotFound { path: Seq<char> },
    IoError { path: Seq<char>, error: Seq<char> },
}

impl View for PathSecurityError {
    type V = PathRefusal;

    open spec fn view(&self) -> PathRefusal {
        match self {
            PathSecurityError::OutsideRootDirectory { path, root } =>
                PathRefusal::OutsideRootDirectory { path: path@, root: root@ },
            PathSecurityError::SymlinkOutsideRoot { path } =>
                PathRefusal::SymlinkOutsideRoot { path: path@ },
            PathSecurityError::CannotCanonicalize { path, error } =>
                PathRefusal::CannotCanonicalize { path: path@, error: error@ },
            PathSecurityError::PathNotFound { path } => PathRefusal::PathNotFound { path: path@ },
            PathSecurityError::IoError { path, error } =>
                PathRefusal::IoError { path: path@, error: error@ },
        }
    }
}

/// A validation result over character sequences.
pub open spec fn verdict(r: Result<String, PathSecurityError>) -> Result<Seq<char>, PathRefusal> {
    match r {
        Ok(p) => Ok(p@),
        Err(e) => Err(e@),
    }
}

/// `path` lies within `root` or is `root`, compared by path components:
/// `/root-evil` is not within `/root`, and `/root` is within `/root/`.
pub open spec fn within_root(path: Seq<char>, root: Seq<char>) -> bool {
    within_path(path, root)
}

/// The refusal of a failed canonicalization of the input in unrestricted
/// mode.
pub open spec fn unrestricted_failure(input: Seq<char>, f: FsFailure) -> PathRefusal {
    if f.not_found {
        PathRefusal::PathNotFound { path: input }
    } else {
        PathRefusal::CannotCanonicalize { path: input, error: f.message@ }
    }
}

/// Whether the symlink step lets the input through: it runs only for a
/// link when links are not allowed, and asks that the link's target
/// resolve inside the root.
pub open spec fn symlink_step(input: Seq<char>, allow: bool, probe: PathProbe, root: Seq<char>) -> Option<PathRefusal> {
    if probe.is_symlink && !allow {
        match probe.link_target {
            Err(f) => Some(PathRefusal::IoError { path: input, error: f.message@ }),
            Ok(_) => match probe.canonical_target {
                Err(_) => Some(PathRefusal::SymlinkOutsideRoot { path: input }),
                Ok(t) => if within_root(t@, root) {
                    None
                } else {
                    Some(PathRefusal::SymlinkOutsideRoot { path: input })
                },
            },
        }
    } else {
        None
    }
}

/// The decision on an input path, given the sandbox settings and what the
/// filesystem said.
pub open spec fn validate_spec(input: Seq<char>, sec: SecurityConfig, probe: PathProbe) -> Result<Seq<char>, PathRefusal> {
    match sec.root_path {
        None => match probe.canonical {
            Ok(c) => Ok(c@),
            Err(f) => Err(unrestricted_failure(input, f)),
        },
        Some(root) => match probe.canonical_root {
            Err(f) => Err(PathRefusal::IoError { path: root@, error: f.message@ }),
            Ok(r) => if !probe.exists {
                Err(PathRefusal::PathNotFound { path: input })
            } else {
                match symlink_step(input, sec.allow_symlinks, probe, r@) {
                    Some(e) => Err(e),
                    None => match probe.canonical {
                        Err(f) => Err(PathRefusal::CannotCanonicalize { path: input, error: f.message@ }),
                        Ok(c) => if within_root(c@, r@) {
                            Ok(c@)
                        } else {
                            Err(PathRefusal::OutsideRootDirectory { path: c@, root: r@ })
                        },
                    },
                }
            },
        },
    }
}

/// Whether `path` lies within (or is) `root`, compared by path components.
pub fn is_within_root(path: &str, root: &str) -> (r: bool)
    ensures
        r == within_root(path@, root@),
{
    path_within(path, root)
}

/// The result of a canonicalization in unrestricted mode.
pub fn canonicalize_path(input: &str, canonical: &Result<String, FsFailure>) -> (r: Result<String, PathSecurityError>)
    ensures
        verdict(r) == match canonical {
            Ok(c) => Ok(c@),
            Err(f) => Err(unrestricted_failure(input@, *f)),
        },
{
    match canonical {
        Ok(c) => Ok(c.clone()),
        Err(f) => if f.not_found {
            Err(PathSecurityError::PathNotFound { path: String::from_str(input) })
        } else {
            Err(PathSecurityError::CannotCanonicalize { path: String::from_str(input), error: f.message.clone() })
        },
    }
}

/// Decides whether `input_path` may be used under the sandbox of `config`,
/// from what the filesystem said about it in `probe`; on success returns
/// its canonical form.
///
/// Without a root any path that resolves is accepted. With a root: a
/// failure to resolve the root is reported at once; the path must exist;
/// a symlink, when links are not allowed, must point inside the root; and
/// the resolved path must lie within the root.
pub fn validate_path(input_path: &str, config: &Config, probe: &PathProbe) -> (r: Result<String, PathSecurityError>)
    ensures
        verdict(r) == validate_spec(input_path@, config.security, *probe),
{
    let root = match &config.security.root_path {
        None => return canonicalize_path(input_path, &probe.canonical),
        Some(root) => root,
    };
    let canonical_root = match &probe.canonical_root {
        Ok(r) => r,
        Err(f) => return Err(PathSecurityError::IoError { path: root.clone(), error: f.message.clone() }),
    };
    if !probe.exists {
        return Err(PathSecurityError::PathNotFound { path: String::from_str(input_path) });
    }
    if probe.is_symlink && !config.security.allow_symlinks {
        match &probe.link_target {
            Err(f) => return Err(PathSecurityError::IoError { path: String::from_str(input_path), error: f.message.clone() }),
            Ok(_) => {},
        }
        match &probe.canonical_target {
            Err(_) => return Err(PathSecurityError::SymlinkOutsideRoot { path: String::from_str(input_path) }),
            Ok(t) => if !is_within_root(t.as_str(), canonical_root.as_str()) {
                return Err(PathSecurityError::SymlinkOutsideRoot { path: String::from_str(input_path) });
            },
        }
    }
    let canonical = match &probe.canonical {
        Ok(c) => c,
        Err(f) => return Err(PathSecurityError::CannotCanonicalize { path: String::from_str(input_path), error: f.message.clone() }),
    };
    if !is_within_root(canonical.as_str(), canonical_root.as_str()) {
        return Err(PathSecurityError::OutsideRootDirectory { path: canonical.clone(), root: canonical_root.clone() });
    }
    Ok(canonical.clone())
}

/// The probe passes the symlink step: it is no link, links are allowed, or
/// its target resolves inside the root.
pub open spec fn passes_symlink_step(input: Seq<char>, sec: SecurityConfig, probe: PathProbe, root: Seq<char>) -> bool {
    symlink_step(input, sec.allow_symlinks, probe, root) is None
}

/// A path that resolves outside the configured root is refused as outside
/// the root, naming its canonical form and the root.
pub proof fn lemma_outside_root_rejected(input: Seq<char>, sec: SecurityConfig, probe: PathProbe)
    requires
        sec.root_path is Some,
        probe.canonical_root is Ok,
        probe.exists,
        passes_symlink_step(input, sec, probe, probe.canonical_root->Ok_0@),
        probe.canonical is Ok,
        !within_root(probe.canonical->Ok_0@, probe.canonical_root->Ok_0@),
    ensures
        validate_spec(input, sec, probe) == Err::<Seq<char>, PathRefusal>(PathRefusal::OutsideRootDirectory {
            path: probe.canonical->Ok_0@,
            root: probe.canonical_root->Ok_0@,
        }),
{
}

/// A path whose resolution (`..` segments included) stays inside the root
/// is accepted as its canonical form; one whose resolution leaves the root
/// is refused.
pub proof fn lemma_resolution_decides(input: Seq<char>, sec: SecurityConfig, probe: PathProbe)
    requires
        sec.root_path is Some,
        probe.canonical_root is Ok,
        probe.exists,
        passes_symlink_step(input, sec, probe, probe.canonical_root->Ok_0@),
        probe.canonical is Ok,
    ensures
        within_root(probe.canonical->Ok_0@, probe.canonical_root->Ok_0@)
            ==> validate_spec(input, sec, probe) == Ok::<Seq<char>, PathRefusal>(probe.canonical->Ok_0@),
        !within_root(probe.canonical->Ok_0@, probe.canonical_root->Ok_0@)
            ==> validate_spec(input, sec, probe) is Err,
{
}

/// Validating the canonical form that a validation returned succeeds again
/// with the same path. `again` is the filesystem's answer about that
/// canonical form at the same moment: it exists, is no link, and resolves
/// to itself; the root resolves as before.
pub proof fn lemma_validate_idempotent(input: Seq<char>, sec: SecurityConfig, probe: PathProbe, again: PathProbe)
    requires
        validate_spec(input, sec, probe) is Ok,
        again.canonical_root == probe.canonical_root,
        again.exists,
        !again.is_symlink,
        again.canonical is Ok,
        again.canonical->Ok_0@ == validate_spec(input, sec, probe)->Ok_0,
    ensures
        validate_spec(validate_spec(input, sec, probe)->Ok_0, sec, again) == validate_spec(input, sec, probe),
{
}

/// With links disallowed, a link inside the root whose target resolves
/// outside the root is refused as such. With links allowed, the link is
/// resolved as any other path: the verdict is that of a plain path with the
/// same resolution.
pub proof fn lemma_symlink_policy(input: Seq<char>, sec: SecurityConfig, probe: PathProbe)
    requires
        sec.root_path is Some,
        probe.canonical_root is Ok,
        probe.exists,
        probe.is_symlink,
        probe.link_target is Ok,
        probe.canonical_target is Ok,
        !within_root(probe.canonical_target->Ok_0@, probe.canonical_root->Ok_0@),
    ensures
        !sec.allow_symlinks ==> validate_spec(input, sec, probe)
            == Err::<Seq<char>, PathRefusal>(PathRefusal::SymlinkOutsideRoot { path: input }),
        sec.allow_symlinks ==> validate_spec(input, sec, probe)
            == validate_spec(input, sec, PathProbe { is_symlink: false, ..probe }),
{
}

/// Without a root, every path that resolves is accepted wherever it lies,
/// and one that does not exist is refused as not found.
pub proof fn lemma_unrestricted(input: Seq<char>, sec: SecurityConfig, probe: PathProbe)
    requires
        sec.root_path is None,
    ensures
        probe.canonical is Ok ==> validate_spec(input, sec, probe)
            == Ok::<Seq<char>, PathRefusal>(probe.canonical->Ok_0@),
        probe.canonical is Err && probe.canonical->Err_0.not_found ==> validate_spec(input, sec, probe)
            == Err::<Seq<char>, PathRefusal>(PathRefusal::PathNotFound { path: input }),
{
}

} // verus!
