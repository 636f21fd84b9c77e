//! The decisions of the file tools (rename, delete, list): what to check,
//! which operation to run, and what to report. The filesystem calls
//! themselves are made by the caller, which hands over what they returned.

use vstd::prelude::*;
use vstd::string::StrSliceExecFns;
use vstd::string::StringExecFns;
use crate::cover::opt_view;
use crate::path::{paths_equal, same_path};
use crate::text::{decimal, decimal_string};

verus! {

/// Deepest level that a listing descends to.
pub const MAX_DEPTH_LIMIT: usize = 10;

/// Most entries that a listing returns.
pub const MAX_ENTRIES_LIMIT: usize = 1000;

/// What a path names.
#[derive(Debug, Clone, Copy, PartialEq, Eq, Structural)]
pub enum ItemKind {
    Directory,
    File,
    Other,
}

/// The word for a kind of item in messages.
pub open spec fn kind_word(k: ItemKind) -> Seq<char> {
    match k {
        ItemKind::Directory => "directory"@,
        ItemKind::File => "file"@,
        ItemKind::Other => "item"@,
    }
}

/// The kind of an item, a directory first.
pub fn item_kind(is_dir: bool, is_file: bool) -> (r: ItemKind)
    ensures
        is_dir ==> r == ItemKind::Directory,
        !is_dir && is_file ==> r == ItemKind::File,
        !is_dir && !is_file ==> r == ItemKind::Other,
{
    if is_dir {
        ItemKind::Directory
    } else if is_file {
        ItemKind::File
    } else {
        ItemKind::Other
    }
}

fn kind_text(k: ItemKind) -> (r: &'static str)
    ensures
        r@ == kind_word(k),
{
    match k {
        ItemKind::Directory => "directory",
        ItemKind::File => "file",
        ItemKind::Other => "item",
    }
}

/// The broad class of a failed filesystem operation.
#[derive(Debug, Clone, Copy, PartialEq, Eq, Structural)]
pub enum FailureKind {
    PermissionDenied,
    NotFound,
    Other,
}

/// A failed filesystem operation: its class and the error's text.
#[derive(Debug, Clone)]
pub struct OpFailure {
    pub kind: FailureKind,
    pub message: String,
}

/// What `std::path::Path::parent` gives for a path.
pub uninterp spec fn parent_of(p: Seq<char>) -> Option<Seq<char>>;

/// Relies on `std::path::Path::parent`: the parent depends on the path's
/// characters alone.
#[verifier::external_body]
fn path_parent(p: &str) -> (r: Option<String>)
    ensures
        opt_view(r) == parent_of(p@),
{
    std::path::Path::new(p).parent().map(|q| q.to_string_lossy().into_owned())
}

/// Two optional parents are the same place, compared by components.
pub open spec fn same_parent(a: Option<Seq<char>>, b: Option<Seq<char>>) -> bool {
    match (a, b) {
        (Some(x), Some(y)) => same_path(x, y),
        (None, None) => true,
        _ => false,
    }
}

fn same_opt(a: &Option<String>, b: &Option<String>) -> (r: bool)
    ensures
        r == same_parent(opt_view(*a), opt_view(*b)),
{
    match (a, b) {
        (Some(x), Some(y)) => paths_equal(x.as_str(), y.as_str()),
        (None, None) => true,
        _ => false,
    }
}

/// What a rename reports on success.
#[derive(Debug, Clone)]
pub struct RenameResult {
    pub from: String,
    pub to: String,
    pub item_type: String,
    pub operation: String,
    pub success: bool,
    pub overwritten: Option<bool>,
}

/// The path whose validation stands for a rename's destination: the
/// destination itself when it exists, else its parent directory (a path
/// that does not exist cannot be validated). `None`: nothing to validate.
pub fn rename_destination_target(to: &str, to_exists: bool) -> (r: Option<String>)
    ensures
        to_exists ==> opt_view(r) == Some(to@),
        !to_exists ==> opt_view(r) == parent_of(to@),
{
    if to_exists {
        Some(String::from_str(to))
    } else {
        path_parent(to)
    }
}

/// The refusal of a rename onto an existing destination without
/// permission to overwrite it.
pub fn rename_conflict(to: &str, destination_exists: bool, overwrite: bool) -> (r: Option<String>)
    ensures
        destination_exists && !overwrite <==> r is Some,
        r is Some ==> r->Some_0@ == "Destination already exists: "@ + to@
            + ". Use overwrite=true to replace it."@,
{
    if destination_exists && !overwrite {
        let mut m = String::from_str("Destination already exists: ");
        m.append(to);
        m.append(". Use overwrite=true to replace it.");
        Some(m)
    } else {
        None
    }
}

/// The word for a rename: `moved` when the parent directory changes,
/// `renamed` otherwise.
pub open spec fn operation_word(from: Seq<char>, to: Seq<char>) -> Seq<char> {
    if !same_parent(parent_of(from), parent_of(to)) { "moved"@ } else { "renamed"@ }
}

/// Whether a rename moves the item to another directory.
pub fn rename_operation(from: &str, to: &str) -> (r: &'static str)
    ensures
        r@ == operation_word(from@, to@),
{
    let a = path_parent(from);
    let b = path_parent(to);
    if same_opt(&a, &b) { "renamed" } else { "moved" }
}

/// The summary and the record of a rename that succeeded.
pub fn rename_succeeded(from: &str, to: &str, kind: ItemKind, destination_existed: bool, overwrite: bool) -> (r: (String, RenameResult))
    ensures
        r.0@ == "Successfully "@ + operation_word(from@, to@) + " "@ + kind_word(kind)
            + " from '"@ + from@ + "' to '"@ + to@ + "'"@,
        r.1.from@ == from@,
        r.1.to@ == to@,
        r.1.item_type@ == kind_word(kind),
        r.1.operation@ == operation_word(from@, to@),
        r.1.success,
        r.1.overwritten == (if destination_existed && overwrite { Some(true) } else { None::<bool> }),
{
    let op = rename_operation(from, to);
    let mut s = String::from_str("Successfully ");
    s.append(op);
    s.append(" ");
    s.append(kind_text(kind));
    s.append(" from '");
    s.append(from);
    s.append("' to '");
    s.append(to);
    s.append("'");
    let result = RenameResult {
        from: String::from_str(from),
        to: String::from_str(to),
        item_type: String::from_str(kind_text(kind)),
        operation: String::from_str(op),
        success: true,
        overwritten: if destination_existed && overwrite { Some(true) } else { None },
    };
    (s, result)
}

/// The message of a rename that the filesystem refused.
pub fn rename_failed(from: &str, to: &str, failure: &OpFailure) -> (r: String)
    ensures
        failure.kind == FailureKind::PermissionDenied ==> r@ == "Permission denied: Cannot "@
            + operation_word(from@, to@).subrange(0, operation_word(from@, to@).len() - 1)
            + " '"@ + from@ + "' to '"@ + to@ + "'"@,
        failure.kind == FailureKind::NotFound ==> r@ == "Path not found: '"@ + from@ + "'"@,
        failure.kind == FailureKind::Other ==> r@ == "Failed to "@
            + operation_word(from@, to@).subrange(0, operation_word(from@, to@).len() - 1)
            + " '"@ + from@ + "' to '"@ + to@ + "': "@ + failure.message@,
{
    let op = rename_operation(from, to);
    proof {
        reveal_strlit("moved");
        reveal_strlit("renamed");
    }
    // The verb without its final `d`: "move", "rename".
    let verb = op.substring_char(0, op.unicode_len() - 1);
    match failure.kind {
        FailureKind::PermissionDenied => {
            let mut s = String::from_str("Permission denied: Cannot ");
            s.append(verb);
            s.append(" '");
            s.append(from);
            s.append("' to '");
            s.append(to);
            s.append("'");
            s
        },
        FailureKind::NotFound => {
            let mut s = String::from_str("Path not found: '");
            s.append(from);
            s.append("'");
            s
        },
        FailureKind::Other => {
            let mut s = String::from_str("Failed to ");
            s.append(verb);
            s.append(" '");
            s.append(from);
            s.append("' to '");
            s.append(to);
            s.append("': ");
            s.append(failure.message.as_str());
            s
        },
    }
}

/// The filesystem operation that a delete runs.
#[derive(Debug, Clone, Copy, PartialEq, Eq, Structural)]
pub enum DeleteOp {
    RemoveFile,
    RemoveEmptyDir,
    RemoveDirAll,
}

/// Decides a delete: refuses a missing path and, without `recursive`, a
/// directory that has entries (or whose entries cannot be read); otherwise
/// names the operation. `dir_has_entries` is read only for a directory
/// deleted without `recursive`.
pub fn delete_plan(path: &str, exists: bool, kind: ItemKind, recursive: bool, dir_has_entries: &Result<bool, String>) -> (r: Result<DeleteOp, String>)
    ensures
        !exists ==> r is Err && r->Err_0@ == "Path does not exist: "@ + path@,
        exists && kind == ItemKind::Directory && !recursive ==> match dir_has_entries {
            Ok(true) => r is Err && r->Err_0@ == "Directory is not empty: "@ + path@
                + ". Use recursive=true to delete it and its contents."@,
            Ok(false) => r == Ok::<DeleteOp, String>(DeleteOp::RemoveEmptyDir),
            Err(e) => r is Err && r->Err_0@ == "Failed to read directory '"@ + path@ + "': "@ + e@,
        },
        exists && kind == ItemKind::Directory && recursive ==> r == Ok::<DeleteOp, String>(DeleteOp::RemoveDirAll),
        exists && kind != ItemKind::Directory ==> r == Ok::<DeleteOp, String>(DeleteOp::RemoveFile),
{
    if !exists {
        let mut m = String::from_str("Path does not exist: ");
        m.append(path);
        return Err(m);
    }
    match kind {
        ItemKind::Directory => if recursive {
            Ok(DeleteOp::RemoveDirAll)
        } else {
            match dir_has_entries {
                Ok(true) => {
                    let mut m = String::from_str("Directory is not empty: ");
                    m.append(path);
                    m.append(". Use recursive=true to delete it and its contents.");
                    Err(m)
                },
                Ok(false) => Ok(DeleteOp::RemoveEmptyDir),
                Err(e) => {
                    let mut m = String::from_str("Failed to read directory '");
                    m.append(path);
                    m.append("': ");
                    m.append(e.as_str());
                    Err(m)
                },
            }
        },
        _ => Ok(DeleteOp::RemoveFile),
    }
}

/// What a delete reports on success.
#[derive(Debug, Clone)]
pub struct DeleteResult {
    pub path: String,
    pub item_type: String,
    pub success: bool,
    pub recursive: Option<bool>,
}

/// The summary and the record of a delete that succeeded.
pub fn delete_succeeded(path: &str, kind: ItemKind, recursive: bool) -> (r: (String, DeleteResult))
    ensures
        recursive && kind == ItemKind::Directory ==> r.0@ == "Successfully deleted "@ + kind_word(kind)
            + " '"@ + path@ + "' and all its contents"@,
        !(recursive && kind == ItemKind::Directory) ==> r.0@ == "Successfully deleted "@ + kind_word(kind)
            + " '"@ + path@ + "'"@,
        r.1.path@ == path@,
        r.1.item_type@ == kind_word(kind),
        r.1.success,
        r.1.recursive == (if recursive && kind == ItemKind::Directory { Some(true) } else { None::<bool> }),
{
    let all = recursive && kind == ItemKind::Directory;
    let mut s = String::from_str("Successfully deleted ");
    s.append(kind_text(kind));
    s.append(" '");
    s.append(path);
    if all {
        s.append("' and all its contents");
    } else {
        s.append("'");
    }
    let result = DeleteResult {
        path: String::from_str(path),
        item_type: String::from_str(kind_text(kind)),
        success: true,
        recursive: if all { Some(true) } else { None },
    };
    (s, result)
}

/// The message of a delete that the filesystem refused.
pub fn delete_failed(path: &str, failure: &OpFailure) -> (r: String)
    ensures
        failure.kind == FailureKind::PermissionDenied ==> r@ == "Permission denied: Cannot delete '"@ + path@ + "'"@,
        failure.kind == FailureKind::NotFound ==> r@ == "Path not found: '"@ + path@ + "'"@,
        failure.kind == FailureKind::Other ==> r@ == "Failed to delete '"@ + path@ + "': "@ + failure.message@,
{
    let mut s = match failure.kind {
        FailureKind::PermissionDenied => String::from_str("Permission denied: Cannot delete '"),
        FailureKind::NotFound => String::from_str("Path not found: '"),
        FailureKind::Other => String::from_str("Failed to delete '"),
    };
    s.append(path);
    match failure.kind {
        FailureKind::Other => {
            s.append("': ");
            s.append(failure.message.as_str());
        },
        _ => s.append("'"),
    }
    s
}

/// The depth that a listing descends to: the requested one, or the safety
/// limit when unlimited (negative) was asked for.
pub fn effective_depth(recursive_depth: i32) -> (r: usize)
    ensures
        recursive_depth < 0 ==> r == MAX_DEPTH_LIMIT,
        recursive_depth >= 0 ==> r == recursive_depth,
{
    if recursive_depth < 0 {
        MAX_DEPTH_LIMIT
    } else {
        recursive_depth as usize
    }
}

/// Whether a listing leaves an entry out: hidden names (starting with a
/// dot) unless asked for.
pub fn skip_entry(name: &str, include_hidden: bool) -> (r: bool)
    ensures
        r == (!include_hidden && name@.len() > 0 && name@[0] == '.'),
{
    !include_hidden && name.unicode_len() > 0 && name.get_char(0) == '.'
}

/// The type word of a listed entry.
pub fn entry_type(is_dir: bool, is_symlink: bool) -> (r: &'static str)
    ensures
        is_dir ==> r@ == "directory"@,
        !is_dir && is_symlink ==> r@ == "symlink"@,
        !is_dir && !is_symlink ==> r@ == "file"@,
{
    if is_dir {
        "directory"
    } else if is_symlink {
        "symlink"
    } else {
        "file"
    }
}

/// Whether a listing may take one more entry.
pub fn entry_budget_left(total_count: usize) -> (r: bool)
    ensures
        r == (total_count < MAX_ENTRIES_LIMIT),
{
    total_count < MAX_ENTRIES_LIMIT
}

/// Whether a listing descends into a directory found at `current_depth`.
pub fn descend(is_dir: bool, current_depth: usize, max_depth: usize) -> (r: bool)
    ensures
        r == (is_dir && current_depth < max_depth),
{
    is_dir && current_depth < max_depth
}

/// The warnings that end a listing: truncation, and the cap on an
/// unlimited depth.
pub fn closing_warnings(truncated: bool, recursive_depth: i32) -> (r: Vec<String>)
    ensures
        r@.len() == (if truncated { 1int } else { 0int }) + (if recursive_depth < 0 { 1int } else { 0int }),
        truncated ==> r@[0]@ == "Results truncated: exceeded maximum of 1000 entries. Consider reducing recursive_depth."@,
        recursive_depth < 0 ==> r@.last()@ == "Depth limited to 10 levels for safety (requested unlimited)."@,
{
    let mut v: Vec<String> = Vec::new();
    if truncated {
        v.push(String::from_str("Results truncated: exceeded maximum of 1000 entries. Consider reducing recursive_depth."));
    }
    if recursive_depth < 0 {
        v.push(String::from_str("Depth limited to 10 levels for safety (requested unlimited)."));
    }
    v
}

/// The summary line of a listing.
pub fn list_summary(dir_count: usize, file_count: usize, path: &str, warning_count: usize) -> (r: String)
    ensures
        warning_count == 0 ==> r@ == "Found "@ + decimal(dir_count as nat) + " directories and "@
            + decimal(file_count as nat) + " files in '"@ + path@ + "'"@,
        warning_count > 0 ==> r@ == "Found "@ + decimal(dir_count as nat) + " directories and "@
            + decimal(file_count as nat) + " files in '"@ + path@ + "' ("@
            + decimal(warning_count as nat) + " warnings)"@,
{
    let mut s = String::from_str("Found ");
    s.append(decimal_string(dir_count as u64).as_str());
    s.append(" directories and ");
    s.append(decimal_string(file_count as u64).as_str());
    s.append(" files in '");
    s.append(path);
    if warning_count == 0 {
        s.append("'");
    } else {
        s.append("' (");
        s.append(decimal_string(warning_count as u64).as_str());
        s.append(" warnings)");
    }
    s
}

/// One entry of a directory listing, with the entries below it.
#[derive(Debug)]
pub struct EntryInfo {
    pub name: String,
    /// `directory`, `file` or `symlink`.
    pub entry_type: String,
    pub size: Option<u64>,
    pub children: Vec<EntryInfo>,
}

/// Directories and files in a listing, at every depth; symlinks count as
/// neither.
pub open spec fn tree_counts(entries: Seq<EntryInfo>) -> (nat, nat)
    decreases entries,
{
    if entries.len() == 0 {
        (0, 0)
    } else {
        let e = entries.last();
        proof {
            broadcast use vstd::seq::axiom_seq_index_decreases, vstd::std_specs::vec::axiom_vec_decreases_to_view;
            assert(decreases_to!(entries => entries.drop_last()));
            assert(decreases_to!(entries => e));
            assert(decreases_to!(e.children => e.children@));
        }
        let rest = tree_counts(entries.drop_last());
        if e.entry_type@ == "directory"@ {
            let below = tree_counts(e.children@);
            (rest.0 + 1 + below.0, rest.1 + below.1)
        } else if e.entry_type@ == "file"@ {
            (rest.0, rest.1 + 1)
        } else {
            rest
        }
    }
}

/// Counts the directories and files of a listing, at every depth.
pub fn count_entries(entries: &Vec<EntryInfo>) -> (r: (usize, usize))
    requires
        tree_counts(entries@).0 + tree_counts(entries@).1 <= usize::MAX,
    ensures
        r.0 == tree_counts(entries@).0,
        r.1 == tree_counts(entries@).1,
    decreases entries@,
{
    proof {
        reveal_strlit("directory");
        reveal_strlit("file");
    }
    let mut dirs: usize = 0;
    let mut files: usize = 0;
    let mut i: usize = 0;
    while i < entries.len()
        invariant
            i <= entries@.len(),
            tree_counts(entries@).0 + tree_counts(entries@).1 <= usize::MAX,
            dirs == tree_counts(entries@.subrange(0, i as int)).0,
            files == tree_counts(entries@.subrange(0, i as int)).1,
        decreases entries@.len() - i,
    {
        let e = &entries[i];
        proof {
            let pre = entries@.subrange(0, i as int + 1);
            assert(pre.drop_last() =~= entries@.subrange(0, i as int));
            lemma_prefix_counts_bounded(entries@, i as int + 1);
            broadcast use vstd::seq::axiom_seq_index_decreases;
            assert(decreases_to!(entries@ => entries@[i as int]));
        }
        if crate::text::str_equals(e.entry_type.as_str(), "directory") {
            proof {
                broadcast use vstd::std_specs::vec::axiom_vec_decreases_to_view;
                assert(decreases_to!(e.children => e.children@));
            }
            let (d, f) = count_entries(&e.children);
            dirs = dirs + 1 + d;
            files = files + f;
        } else if crate::text::str_equals(e.entry_type.as_str(), "file") {
            files = files + 1;
        }
        i = i + 1;
    }
    assert(entries@.subrange(0, i as int) =~= entries@);
    (dirs, files)
}

/// The counts of a prefix never exceed those of the whole listing.
proof fn lemma_prefix_counts_bounded(entries: Seq<EntryInfo>, k: int)
    requires
        0 <= k <= entries.len(),
    ensures
        tree_counts(entries.subrange(0, k)).0 <= tree_counts(entries).0,
        tree_counts(entries.subrange(0, k)).1 <= tree_counts(entries).1,
        tree_counts(entries.subrange(0, k)).0 + tree_counts(entries.subrange(0, k)).1
            <= tree_counts(entries).0 + tree_counts(entries).1,
    decreases entries.len(),
{
    if k == entries.len() {
        assert(entries.subrange(0, k) =~= entries);
    } else {
        lemma_prefix_counts_bounded(entries.drop_last(), k);
        assert(entries.drop_last().subrange(0, k) =~= entries.subrange(0, k));
    }
}

} // verus!
