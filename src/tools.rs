//! The tool registry: which tools exist, and which one a call names.

use vstd::prelude::*;
use vstd::string::StringExecFns;
use crate::config::Config;
use crate::text::str_equals;

verus! {

/// Why a tool call failed.
#[derive(Debug, Clone)]
pub enum ToolError {
    NotFound(String),
    InvalidArguments(String),
    ExecutionFailed(String),
    Timeout,
    Internal(String),
}

impl ToolError {
    pub fn not_found(name: String) -> (r: ToolError)
        ensures
            r == ToolError::NotFound(name),
    {
        ToolError::NotFound(name)
    }

    pub fn invalid_arguments(msg: String) -> (r: ToolError)
        ensures
            r == ToolError::InvalidArguments(msg),
    {
        ToolError::InvalidArguments(msg)
    }

    pub fn execution_failed(msg: String) -> (r: ToolError)
        ensures
            r == ToolError::ExecutionFailed(msg),
    {
        ToolError::ExecutionFailed(msg)
    }

    pub fn internal(msg: String) -> (r: ToolError)
        ensures
            r == ToolError::Internal(msg),
    {
        ToolError::Internal(msg)
    }

    /// The error's text, as clients see it.
    pub fn message(&self) -> (r: String)
        ensures
            r@ == tool_error_text(*self),
    {
        match self {
            ToolError::Timeout => String::from_str("Tool execution timed out"),
            ToolError::NotFound(s) => {
                let mut m = String::from_str("Tool not found: ");
                m.append(s.as_str());
                m
            },
            ToolError::InvalidArguments(s) => {
                let mut m = String::from_str("Invalid arguments: ");
                m.append(s.as_str());
                m
            },
            ToolError::ExecutionFailed(s) => {
                let mut m = String::from_str("Execution failed: ");
                m.append(s.as_str());
                m
            },
            ToolError::Internal(s) => {
                let mut m = String::from_str("Internal error: ");
                m.append(s.as_str());
                m
            },
        }
    }
}

pub open spec fn tool_error_text(e: ToolError) -> Seq<char> {
    match e {
        ToolError::NotFound(s) => "Tool not found: "@ + s@,
        ToolError::InvalidArguments(s) => "Invalid arguments: "@ + s@,
        ToolError::ExecutionFailed(s) => "Execution failed: "@ + s@,
        ToolError::Timeout => "Tool execution timed out"@,
        ToolError::Internal(s) => "Internal error: "@ + s@,
    }
}

/// The tools that a call can name.
#[derive(Debug, Clone, Copy, PartialEq, Eq, Structural)]
pub enum ToolKind {
    FsListDir,
    FsRename,
    ReadMetadata,
    WriteMetadata,
    MbArtist,
    MbCoverDownload,
    MbIdentifyRecord,
    MbLabel,
    MbRecording,
    MbRelease,
    MbWork,
    FsDelete,
}

/// The registered tool names, in listing order.
pub open spec fn registered_names() -> Seq<Seq<char>> {
    seq![
        "fs_list_dir"@, "fs_rename"@, "read_metadata"@, "write_metadata"@,
        "mb_artist_search"@, "mb_cover_download"@, "mb_identify_record"@,
        "mb_label_search"@, "mb_recording_search"@, "mb_release_search"@, "mb_work_search"@,
    ]
}

/// The tool of each registered name, in the same order.
pub open spec fn registered_kinds() -> Seq<ToolKind> {
    seq![
        ToolKind::FsListDir, ToolKind::FsRename, ToolKind::ReadMetadata, ToolKind::WriteMetadata,
        ToolKind::MbArtist, ToolKind::MbCoverDownload, ToolKind::MbIdentifyRecord,
        ToolKind::MbLabel, ToolKind::MbRecording, ToolKind::MbRelease, ToolKind::MbWork,
    ]
}

/// The tool that `name` names, if any.
pub open spec fn tool_of(name: Seq<char>) -> Option<ToolKind> {
    if exists|i: int| 0 <= i < 11 && registered_names()[i] == name {
        Some(registered_kinds()[choose|i: int| 0 <= i < 11 && registered_names()[i] == name])
    } else {
        None
    }
}

/// The registry of the server's tools.
pub struct ToolRegistry {
    pub config: Config,
}

impl ToolRegistry {
    pub fn new(config: Config) -> (r: ToolRegistry)
        ensures
            r.config == config,
    {
        ToolRegistry { config }
    }

    /// Names of all registered tools, in listing order.
    pub fn tool_names(&self) -> (r: Vec<&'static str>)
        ensures
            r@.len() == 11,
            forall|i: int| 0 <= i < 11 ==> (#[trigger] r@[i])@ == registered_names()[i],
    {
        proof {
            reveal_strlit("fs_list_dir");
            reveal_strlit("fs_rename");
            reveal_strlit("read_metadata");
            reveal_strlit("write_metadata");
            reveal_strlit("mb_artist_search");
            reveal_strlit("mb_cover_download");
            reveal_strlit("mb_identify_record");
            reveal_strlit("mb_label_search");
            reveal_strlit("mb_recording_search");
            reveal_strlit("mb_release_search");
            reveal_strlit("mb_work_search");
        }
        let mut v: Vec<&'static str> = Vec::new();
        v.push("fs_list_dir");
        v.push("fs_rename");
        v.push("read_metadata");
        v.push("write_metadata");
        v.push("mb_artist_search");
        v.push("mb_cover_download");
        v.push("mb_identify_record");
        v.push("mb_label_search");
        v.push("mb_recording_search");
        v.push("mb_release_search");
        v.push("mb_work_search");
        v
    }

    /// The tool that a call names, or the error that an unknown name gets.
    pub fn find_tool(&self, name: &str) -> (r: Result<ToolKind, String>)
        ensures
            tool_of(name@) is Some ==> r == Ok::<ToolKind, String>(tool_of(name@)->Some_0),
            tool_of(name@) is None ==> r is Err && r->Err_0@ == "Unknown tool: "@ + name@,
    {
        let names = self.tool_names();
        let kinds: [ToolKind; 11] = [
            ToolKind::FsListDir, ToolKind::FsRename, ToolKind::ReadMetadata, ToolKind::WriteMetadata,
            ToolKind::MbArtist, ToolKind::MbCoverDownload, ToolKind::MbIdentifyRecord,
            ToolKind::MbLabel, ToolKind::MbRecording, ToolKind::MbRelease, ToolKind::MbWork,
        ];
        assert(kinds@ =~= registered_kinds());
        let mut i: usize = 0;
        while i < 11
            invariant
                names@.len() == 11,
                forall|k: int| 0 <= k < 11 ==> (#[trigger] names@[k])@ == registered_names()[k],
                kinds@ == registered_kinds(),
                i <= 11,
                forall|k: int| 0 <= k < i ==> registered_names()[k] != name@,
            decreases 11 - i,
        {
            if str_equals(names[i], name) {
                proof { lemma_names_distinct(); }
                return Ok(kinds[i]);
            }
            i = i + 1;
        }
        let mut m = String::from_str("Unknown tool: ");
        m.append(name);
        Err(m)
    }
}

impl ToolRegistry {
    /// The tool that a session call names: the registered tools and, beside
    /// them, `fs_delete`, which sessions serve but the HTTP registry does not
    /// list.
    pub fn find_routed_tool(&self, name: &str) -> (r: Result<ToolKind, String>)
        ensures
            name@ == "fs_delete"@ ==> r == Ok::<ToolKind, String>(ToolKind::FsDelete),
            name@ != "fs_delete"@ && tool_of(name@) is Some ==> r == Ok::<ToolKind, String>(tool_of(name@)->Some_0),
            name@ != "fs_delete"@ && tool_of(name@) is None ==> r is Err && r->Err_0@ == "Unknown tool: "@ + name@,
    {
        if str_equals(name, "fs_delete") {
            Ok(ToolKind::FsDelete)
        } else {
            self.find_tool(name)
        }
    }
}

/// No name is registered twice.
proof fn lemma_names_distinct()
    ensures
        forall|i: int, j: int| 0 <= i < 11 && 0 <= j < 11 && i != j
            ==> registered_names()[i] != registered_names()[j],
{
    reveal_strlit("fs_list_dir");
    reveal_strlit("fs_rename");
    reveal_strlit("read_metadata");
    reveal_strlit("write_metadata");
    reveal_strlit("mb_artist_search");
    reveal_strlit("mb_cover_download");
    reveal_strlit("mb_identify_record");
    reveal_strlit("mb_label_search");
    reveal_strlit("mb_recording_search");
    reveal_strlit("mb_release_search");
    reveal_strlit("mb_work_search");
    let n = registered_names();
    assert forall|i: int, j: int| 0 <= i < 11 && 0 <= j < 11 && i != j implies n[i] != n[j] by {
        if n[i].len() == n[j].len() {
            assert(n[i][3] != n[j][3] || n[i][4] != n[j][4] || n[i][0] != n[j][0]);
        }
    }
}

} // verus!
