//! The built-in resources, their registry, and the interface of resource
//! handlers.

use vstd::prelude::*;
use vstd::string::StrSliceExecFns;
use vstd::string::StringExecFns;
use crate::config::ResourcesConfig;
use crate::text::{ends_with, starts_with, starts_with_spec, str_equals};

verus! {

/// What a resource holds.
#[derive(Debug, Clone)]
pub enum ResourceContent {
    Text(String),
    Binary(Vec<u8>),
    /// Computed when read.
    Dynamic(DynamicResourceType),
}

/// Kinds of computed resource.
#[derive(Debug, Clone)]
pub enum DynamicResourceType {
    SystemInfo,
    File(String),
    Custom(String),
}

/// A resource with a fixed address, descriptive metadata and content.
pub trait ResourceDefinition {
    fn content() -> ResourceContent;
}

/// The example configuration resource (static JSON).
pub struct ConfigExampleResource;

impl ConfigExampleResource {
    pub const URI: &'static str = "mcp://server/config/example";
    pub const NAME: &'static str = "Example Configuration";
    pub const DESCRIPTION: &'static str = "An example configuration resource";
    pub const MIME_TYPE: &'static str = "application/json";
}

/// Text of the example configuration resource.
pub open spec fn config_example_text() -> Seq<char> {
    "{\"example\":true,\"settings\":{\"debug\":false,\"max_connections\":100}}"@
}

impl ResourceDefinition for ConfigExampleResource {
    fn content() -> (r: ResourceContent)
        ensures
            r is Text,
            r->Text_0@ == config_example_text(),
    {
        ResourceContent::Text(String::from_str("{\"example\":true,\"settings\":{\"debug\":false,\"max_connections\":100}}"))
    }
}

/// The server's documentation resource (static Markdown).
pub struct DocsReadmeResource;

impl DocsReadmeResource {
    pub const URI: &'static str = "mcp://server/docs/readme";
    pub const NAME: &'static str = "Server Documentation";
    pub const DESCRIPTION: &'static str = "Documentation for using this MCP server";
    pub const MIME_TYPE: &'static str = "text/markdown";
}

/// Text of the documentation resource.
pub open spec fn documentation_text() -> Seq<char> {
    "# MCP Server Template\n\nWelcome to the MCP Server Template!\n\n## Available Tools\n\n- `echo`: Echo back a message\n- `add`: Add two numbers\n- `system_info`: Get system information\n\n## Available Resources\n\n- `mcp://server/info`: Server information\n- `mcp://server/config/example`: Example configuration\n- `mcp://server/docs/readme`: This documentation\n\n## Available Prompts\n\n- `greeting`: A customizable greeting prompt\n- `code_review`: A code review prompt template\n- `explain`: Ask for an explanation of a concept\n- `summarize`: Summarize text or content\n"@
}

impl ResourceDefinition for DocsReadmeResource {
    fn content() -> (r: ResourceContent)
        ensures
            r is Text,
            r->Text_0@ == documentation_text(),
    {
        ResourceContent::Text(String::from_str("# MCP Server Template\n\nWelcome to the MCP Server Template!\n\n## Available Tools\n\n- `echo`: Echo back a message\n- `add`: Add two numbers\n- `system_info`: Get system information\n\n## Available Resources\n\n- `mcp://server/info`: Server information\n- `mcp://server/config/example`: Example configuration\n- `mcp://server/docs/readme`: This documentation\n\n## Available Prompts\n\n- `greeting`: A customizable greeting prompt\n- `code_review`: A code review prompt template\n- `explain`: Ask for an explanation of a concept\n- `summarize`: Summarize text or content\n"))
    }
}

/// The server information resource (computed when read).
pub struct ServerInfoResource;

impl ServerInfoResource {
    pub const URI: &'static str = "mcp://server/info";
    pub const NAME: &'static str = "Server Information";
    pub const DESCRIPTION: &'static str = "Information about this MCP server";
    pub const MIME_TYPE: &'static str = "application/json";
}

impl ResourceDefinition for ServerInfoResource {
    fn content() -> (r: ResourceContent)
        ensures
            r is Dynamic,
            r->Dynamic_0 is SystemInfo,
    {
        ResourceContent::Dynamic(DynamicResourceType::SystemInfo)
    }
}

/// Addresses of the built-in resources.
pub fn resource_uris() -> (r: Vec<&'static str>)
    ensures
        r@.len() == 3,
        r@[0]@ == "mcp://server/info"@,
        r@[1]@ == "mcp://server/config/example"@,
        r@[2]@ == "mcp://server/docs/readme"@,
{
    let mut v: Vec<&'static str> = Vec::new();
    v.push(ServerInfoResource::URI);
    v.push(ConfigExampleResource::URI);
    v.push(DocsReadmeResource::URI);
    v
}

/// Why a resource could not be read.
#[derive(Debug, Clone)]
pub enum ResourceError {
    NotFound(String),
    AccessDenied(String),
    InvalidUri(String),
    Io(String),
    Internal(String),
}

impl ResourceError {
    pub fn not_found(uri: String) -> (r: ResourceError)
        ensures
            r == ResourceError::NotFound(uri),
    {
        ResourceError::NotFound(uri)
    }

    pub fn access_denied(msg: String) -> (r: ResourceError)
        ensures
            r == ResourceError::AccessDenied(msg),
    {
        ResourceError::AccessDenied(msg)
    }

    pub fn invalid_uri(uri: String) -> (r: ResourceError)
        ensures
            r == ResourceError::InvalidUri(uri),
    {
        ResourceError::InvalidUri(uri)
    }

    pub fn internal(msg: String) -> (r: ResourceError)
        ensures
            r == ResourceError::Internal(msg),
    {
        ResourceError::Internal(msg)
    }

    /// The error's text, as clients see it.
    pub fn message(&self) -> (r: String)
        ensures
            r@ == resource_error_text(*self),
    {
        let (prefix, detail) = match self {
            ResourceError::NotFound(s) => ("Resource not found: ", s),
            ResourceError::AccessDenied(s) => ("Access denied: ", s),
            ResourceError::InvalidUri(s) => ("Invalid URI: ", s),
            ResourceError::Io(s) => ("I/O error: ", s),
            ResourceError::Internal(s) => ("Internal error: ", s),
        };
        let mut m = String::from_str(prefix);
        m.append(detail.as_str());
        m
    }
}

pub open spec fn resource_error_text(e: ResourceError) -> Seq<char> {
    match e {
        ResourceError::NotFound(s) => "Resource not found: "@ + s@,
        ResourceError::AccessDenied(s) => "Access denied: "@ + s@,
        ResourceError::InvalidUri(s) => "Invalid URI: "@ + s@,
        ResourceError::Io(s) => "I/O error: "@ + s@,
        ResourceError::Internal(s) => "Internal error: "@ + s@,
    }
}

/// What a handler lists about one resource.
#[derive(Debug, Clone)]
pub struct ResourceMetadata {
    pub uri: String,
    pub name: String,
    pub description: Option<String>,
    pub mime_type: Option<String>,
    pub size: Option<u64>,
    pub last_modified: Option<String>,
}

/// What reading a resource gives.
#[derive(Debug, Clone)]
pub enum ResourceReadResult {
    Text { content: String, mime_type: Option<String> },
    Binary { content: Vec<u8>, mime_type: Option<String> },
}

/// Whether `uri` matches a handler's address pattern: a pattern ending in
/// `*` matches every address that starts with the rest of it; any other
/// pattern matches itself only.
pub open spec fn pattern_matches(pattern: Seq<char>, uri: Seq<char>) -> bool {
    if pattern.len() > 0 && pattern.last() == '*' {
        starts_with_spec(uri, pattern.drop_last())
    } else {
        uri == pattern
    }
}

/// Decides whether `uri` matches the address pattern `pattern`.
pub fn matches_pattern(pattern: &str, uri: &str) -> (r: bool)
    ensures
        r == pattern_matches(pattern@, uri@),
{
    let n = pattern.unicode_len();
    if n > 0 && pattern.get_char(n - 1) == '*' {
        let prefix = pattern.substring_char(0, n - 1);
        assert(prefix@ =~= pattern@.drop_last());
        starts_with(uri, prefix)
    } else {
        str_equals(uri, pattern)
    }
}

/// A source of resources under an address pattern.
pub trait ResourceHandler {
    /// The pattern of the addresses that this handler serves.
    fn uri_pattern(&self) -> &str;

    /// The resources that this handler offers.
    fn list(&self) -> Vec<ResourceMetadata>;

    /// Reads one resource, or says why not.
    fn read(&self, uri: &str) -> Result<ResourceReadResult, String>;
}

/// A handler that stands for a database under an address prefix.
pub struct DatabaseResourceHandler {
    pub prefix: String,
    pub connection_string: String,
}

impl DatabaseResourceHandler {
    pub fn new(prefix: String, connection_string: String) -> (r: DatabaseResourceHandler)
        ensures
            r.prefix == prefix,
            r.connection_string == connection_string,
    {
        DatabaseResourceHandler { prefix, connection_string }
    }
}

impl ResourceHandler for DatabaseResourceHandler {
    fn uri_pattern(&self) -> &str {
        self.prefix.as_str()
    }

    fn list(&self) -> Vec<ResourceMetadata> {
        let mut uri = self.prefix.clone();
        uri.append("tables");
        let mut v: Vec<ResourceMetadata> = Vec::new();
        v.push(ResourceMetadata {
            uri,
            name: String::from_str("Database Tables"),
            description: Some(String::from_str("List of database tables")),
            mime_type: Some(String::from_str("application/json")),
            size: None,
            last_modified: None,
        });
        v
    }

    fn read(&self, uri: &str) -> Result<ResourceReadResult, String> {
        if ends_with(uri, "tables") {
            Ok(ResourceReadResult::Text {
                content: String::from_str("{\"note\":\"This is example data\",\"tables\":[\"users\",\"orders\",\"products\"]}"),
                mime_type: Some(String::from_str("application/json")),
            })
        } else {
            let mut m = String::from_str("Resource not found: ");
            m.append(uri);
            Err(m)
        }
    }
}

/// A handler that stands for a remote HTTP source under an address prefix.
pub struct HttpResourceHandler {
    pub prefix: String,
    pub base_url: String,
}

impl HttpResourceHandler {
    pub fn new(prefix: String, base_url: String) -> (r: HttpResourceHandler)
        ensures
            r.prefix == prefix,
            r.base_url == base_url,
    {
        HttpResourceHandler { prefix, base_url }
    }
}

impl ResourceHandler for HttpResourceHandler {
    fn uri_pattern(&self) -> &str {
        self.prefix.as_str()
    }

    fn list(&self) -> Vec<ResourceMetadata> {
        Vec::new()
    }

    fn read(&self, uri: &str) -> Result<ResourceReadResult, String> {
        let mut m = String::from_str("HTTP resource placeholder for: ");
        m.append(uri);
        Ok(ResourceReadResult::Text { content: m, mime_type: Some(String::from_str("text/plain")) })
    }
}

/// A registered resource: its address, metadata and content.
#[derive(Debug, Clone)]
pub struct ResourceEntry {
    pub uri: String,
    pub name: String,
    pub description: Option<String>,
    pub mime_type: Option<String>,
    pub content: ResourceContent,
}

fn entry(uri: &str, name: &str, description: &str, mime_type: &str, content: ResourceContent) -> (r: ResourceEntry)
    ensures
        r.uri@ == uri@,
        r.name@ == name@,
        r.description is Some && r.description->Some_0@ == description@,
        r.mime_type is Some && r.mime_type->Some_0@ == mime_type@,
        r.content == content,
{
    ResourceEntry {
        uri: String::from_str(uri),
        name: String::from_str(name),
        description: Some(String::from_str(description)),
        mime_type: Some(String::from_str(mime_type)),
        content,
    }
}

/// The built-in resources, in listing order.
pub fn get_all_resources() -> (r: Vec<ResourceEntry>)
    ensures
        r@.len() == 3,
        r@[0].uri@ == "mcp://server/info"@,
        r@[1].uri@ == "mcp://server/config/example"@,
        r@[2].uri@ == "mcp://server/docs/readme"@,
{
    let mut v: Vec<ResourceEntry> = Vec::new();
    v.push(entry(ServerInfoResource::URI, ServerInfoResource::NAME, ServerInfoResource::DESCRIPTION,
        ServerInfoResource::MIME_TYPE, ServerInfoResource::content()));
    v.push(entry(ConfigExampleResource::URI, ConfigExampleResource::NAME, ConfigExampleResource::DESCRIPTION,
        ConfigExampleResource::MIME_TYPE, ConfigExampleResource::content()));
    v.push(entry(DocsReadmeResource::URI, DocsReadmeResource::NAME, DocsReadmeResource::DESCRIPTION,
        DocsReadmeResource::MIME_TYPE, DocsReadmeResource::content()));
    v
}

/// A family of resources named by an address pattern.
#[derive(Debug, Clone)]
pub struct ResourceTemplate {
    pub uri_template: String,
    pub name: String,
    pub title: Option<String>,
    pub description: Option<String>,
    pub mime_type: Option<String>,
}

fn template(uri_template: &str, name: &str, title: &str, description: &str, mime_type: &str) -> (r: ResourceTemplate)
    ensures
        r.uri_template@ == uri_template@,
        r.name@ == name@,
{
    ResourceTemplate {
        uri_template: String::from_str(uri_template),
        name: String::from_str(name),
        title: Some(String::from_str(title)),
        description: Some(String::from_str(description)),
        mime_type: Some(String::from_str(mime_type)),
    }
}

/// The resource templates, in listing order.
pub fn get_all_resource_templates() -> (r: Vec<ResourceTemplate>)
    ensures
        r@.len() == 3,
        r@[0].uri_template@ == "file:///{path}"@,
        r@[1].uri_template@ == "config://{section}/{key}"@,
        r@[2].uri_template@ == "mcp://server/docs/{document}"@,
{
    let mut v: Vec<ResourceTemplate> = Vec::new();
    v.push(template("file:///{path}", "Project Files", "Access Project Files",
        "Read files from the project directory by specifying the path", "application/octet-stream"));
    v.push(template("config://{section}/{key}", "Configuration Values", "Access Configuration",
        "Access configuration values by section and key", "application/json"));
    v.push(template("mcp://server/docs/{document}", "Server Documentation", "Server Docs",
        "Access server documentation by document name", "text/markdown"));
    v
}

/// What reading a resource comes to: content at hand, or content that the
/// caller produces (the server description, or a file's text).
#[derive(Debug, Clone)]
pub enum ResourceRead {
    Text(String),
    Binary { data: Vec<u8>, mime_type: Option<String> },
    /// The server description, with the configured base path.
    ServerInfo { base_path: Option<String> },
    /// The text of the file at this path.
    File(String),
}

/// Index of the first entry with address `uri`.
pub open spec fn entry_index(es: Seq<ResourceEntry>, uri: Seq<char>) -> Option<int>
    decreases es.len(),
{
    if es.len() == 0 {
        None
    } else {
        match entry_index(es.drop_last(), uri) {
            Some(i) => Some(i),
            None => if es.last().uri@ == uri { Some(es.len() - 1) } else { None },
        }
    }
}

proof fn lemma_entry_index_prefix(es: Seq<ResourceEntry>, k: int, uri: Seq<char>)
    requires
        0 <= k <= es.len(),
        entry_index(es.subrange(0, k), uri) is Some,
    ensures
        entry_index(es, uri) == entry_index(es.subrange(0, k), uri),
    decreases es.len() - k,
{
    if k < es.len() {
        assert(es.subrange(0, k + 1).drop_last() =~= es.subrange(0, k));
        lemma_entry_index_prefix(es, k + 1, uri);
    } else {
        assert(es.subrange(0, k) =~= es);
    }
}

proof fn lemma_entry_index_bound(es: Seq<ResourceEntry>, uri: Seq<char>)
    ensures
        entry_index(es, uri) is Some ==> 0 <= entry_index(es, uri)->Some_0 < es.len(),
    decreases es.len(),
{
    if es.len() > 0 {
        lemma_entry_index_bound(es.drop_last(), uri);
    }
}

fn find_entry(es: &Vec<ResourceEntry>, uri: &str) -> (r: Option<usize>)
    ensures
        match r {
            Some(i) => entry_index(es@, uri@) == Some(i as int),
            None => entry_index(es@, uri@) is None,
        },
{
    let mut i: usize = 0;
    while i < es.len()
        invariant
            i <= es@.len(),
            entry_index(es@.subrange(0, i as int), uri@) is None,
        decreases es@.len() - i,
    {
        proof {
            assert(es@.subrange(0, i as int + 1).drop_last() =~= es@.subrange(0, i as int));
        }
        if str_equals(es[i].uri.as_str(), uri) {
            proof { lemma_entry_index_prefix(es@, i as int + 1, uri@); }
            return Some(i);
        }
        i = i + 1;
    }
    assert(es@.subrange(0, i as int) =~= es@);
    None
}

/// Where a computed file resource lies: under the base path when one is
/// configured.
pub open spec fn file_location(base: Option<String>, path: Seq<char>) -> Seq<char> {
    match base {
        Some(b) => b@ + "/"@ + path,
        None => path,
    }
}

/// Holds the registered resources and templates, and reads resources.
pub struct ResourceService {
    pub config: ResourcesConfig,
    pub resources: Vec<ResourceEntry>,
    pub templates: Vec<ResourceTemplate>,
}

impl ResourceService {
    /// A service holding the built-in resources and templates.
    pub fn new(config: ResourcesConfig) -> (r: ResourceService)
        ensures
            r.resources@.len() == 3,
            r.resources@[0].uri@ == "mcp://server/info"@,
            r.resources@[1].uri@ == "mcp://server/config/example"@,
            r.resources@[2].uri@ == "mcp://server/docs/readme"@,
            r.templates@.len() == 3,
            r.config == config,
    {
        ResourceService { config, resources: get_all_resources(), templates: get_all_resource_templates() }
    }

    /// Adds a resource, replacing one with the same address.
    pub fn register_resource(&mut self, entry: ResourceEntry)
        ensures
            entry_index(old(self).resources@, entry.uri@) is Some ==> final(self).resources@
                == old(self).resources@.update(entry_index(old(self).resources@, entry.uri@)->Some_0, entry),
            entry_index(old(self).resources@, entry.uri@) is None ==> final(self).resources@
                == old(self).resources@.push(entry),
    {
        match find_entry(&self.resources, entry.uri.as_str()) {
            Some(i) => {
                proof { lemma_entry_index_bound(self.resources@, entry.uri@); }
                self.resources.set(i, entry);
            },
            None => self.resources.push(entry),
        }
    }

    /// Addresses of the registered resources.
    pub fn resource_uris(&self) -> (r: Vec<String>)
        ensures
            r@.len() == self.resources@.len(),
            forall|i: int| 0 <= i < r@.len() ==> (#[trigger] r@[i])@ == self.resources@[i].uri@,
    {
        let mut v: Vec<String> = Vec::new();
        let mut i: usize = 0;
        while i < self.resources.len()
            invariant
                i <= self.resources@.len(),
                v@.len() == i,
                forall|j: int| 0 <= j < i ==> (#[trigger] v@[j])@ == self.resources@[j].uri@,
            decreases self.resources@.len() - i,
        {
            v.push(self.resources[i].uri.clone());
            i = i + 1;
        }
        v
    }

    /// Reads the resource at `uri`: its content, or what the caller must
    /// produce for a computed one; `NotFound` when nothing is registered
    /// there.
    pub fn read_resource(&self, uri: &str) -> (r: Result<ResourceRead, ResourceError>)
        ensures
            entry_index(self.resources@, uri@) is None ==> r is Err && r->Err_0 is NotFound
                && r->Err_0->NotFound_0@ == uri@,
            entry_index(self.resources@, uri@) is Some ==> ({
                let e = self.resources@[entry_index(self.resources@, uri@)->Some_0];
                &&& r is Ok
                &&& e.content is Text ==> r->Ok_0 is Text && r->Ok_0->Text_0 == e.content->Text_0
                &&& e.content is Binary ==> r->Ok_0 is Binary && r->Ok_0->data@ == e.content->Binary_0@
                    && r->Ok_0->Binary_mime_type == e.mime_type
                &&& (e.content is Dynamic && e.content->Dynamic_0 is SystemInfo) ==> r->Ok_0 is ServerInfo
                    && r->Ok_0->base_path == self.config.base_path
                &&& (e.content is Dynamic && e.content->Dynamic_0 is File) ==> r->Ok_0 is File
                    && r->Ok_0->File_0@ == file_location(self.config.base_path, e.content->Dynamic_0->File_0@)
                &&& (e.content is Dynamic && e.content->Dynamic_0 is Custom) ==> r->Ok_0 is Text
                    && r->Ok_0->Text_0@ == "Custom resource: "@ + e.content->Dynamic_0->Custom_0@
            }),
    {
        let i = match find_entry(&self.resources, uri) {
            Some(i) => i,
            None => return Err(ResourceError::not_found(String::from_str(uri))),
        };
        proof { lemma_entry_index_bound(self.resources@, uri@); }
        let e = &self.resources[i];
        match &e.content {
            ResourceContent::Text(t) => Ok(ResourceRead::Text(t.clone())),
            ResourceContent::Binary(b) => Ok(ResourceRead::Binary { data: b.clone(), mime_type: e.mime_type.clone() }),
            ResourceContent::Dynamic(DynamicResourceType::SystemInfo) =>
                Ok(ResourceRead::ServerInfo { base_path: self.config.base_path.clone() }),
            ResourceContent::Dynamic(DynamicResourceType::File(path)) => {
                let full = match &self.config.base_path {
                    Some(base) => {
                        let mut f = base.clone();
                        f.append("/");
                        f.append(path.as_str());
                        f
                    },
                    None => path.clone(),
                };
                Ok(ResourceRead::File(full))
            },
            ResourceContent::Dynamic(DynamicResourceType::Custom(id)) => {
                let mut t = String::from_str("Custom resource: ");
                t.append(id.as_str());
                Ok(ResourceRead::Text(t))
            },
        }
    }
}

} // verus!
