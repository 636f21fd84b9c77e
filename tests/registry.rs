use music_mcp_server::config::{Config, ConfigEnv, CredentialsConfig};
use music_mcp_server::prompts::{
    get_all_prompts, prompt_names, CodeReviewPrompt, ExplainPrompt, GreetingPrompt, PromptError,
    PromptTemplateBuilder, SummarizePrompt,
};
use music_mcp_server::resources::{
    matches_pattern, resource_uris, ConfigExampleResource, DatabaseResourceHandler,
    DocsReadmeResource, HttpResourceHandler, ResourceContent, ResourceDefinition, ResourceError,
    ResourceHandler, ResourceReadResult, ServerInfoResource, DynamicResourceType,
};
use music_mcp_server::tools::{ToolError, ToolKind, ToolRegistry};
use music_mcp_server::transport_config::TransportEnv;

fn empty_transport_env() -> TransportEnv {
    TransportEnv {
        transport: None,
        tcp_host: None,
        tcp_port: None,
        http_host: None,
        http_port: None,
        http_path: None,
        http_cors: None,
    }
}

fn empty_env() -> ConfigEnv {
    ConfigEnv {
        server_name: None,
        log_level: None,
        resources_base_path: None,
        acoustid_api_key: None,
        root_path: None,
        allow_symlinks: None,
        transport: empty_transport_env(),
    }
}

#[test]
fn test_credentials_redacted_in_debug() {
    let creds = CredentialsConfig { acoustid_api_key: Some("super_secret_key".to_string()) };
    let debug_str = creds.redacted_debug();
    assert!(debug_str.contains("REDACTED"));
    assert!(!debug_str.contains("super_secret_key"));
}

#[test]
fn test_config_default_has_credentials() {
    let config = Config::default();
    assert!(config.credentials.acoustid_api_key.is_some());
}

#[test]
fn credentials_from_environment_and_fallback() {
    let mut env = empty_env();
    env.acoustid_api_key = Some("test_key_12345".to_string());
    let config = Config::from_env(&env);
    assert_eq!(config.credentials.acoustid_api_key.as_deref(), Some("test_key_12345"));
    let config = Config::from_env(&empty_env());
    assert_eq!(config.credentials.acoustid_api_key.as_deref(), Some("Kok2GHQlrAg"));
}

#[test]
fn config_from_environment_sets_sandbox() {
    let mut env = empty_env();
    env.root_path = Some("/srv/music".to_string());
    env.allow_symlinks = Some("false".to_string());
    env.server_name = Some("jukebox".to_string());
    let config = Config::from_env(&env);
    assert_eq!(config.security.root_path.as_deref(), Some("/srv/music"));
    assert!(!config.security.allow_symlinks);
    assert_eq!(config.server.name, "jukebox");
    assert_eq!(config.logging.level, "info");

    env.allow_symlinks = Some("maybe".to_string());
    assert!(Config::from_env(&env).security.allow_symlinks);
    let defaults = Config::new();
    assert!(defaults.security.root_path.is_none());
    assert!(defaults.security.allow_symlinks);
    assert!(defaults.transport.is_stdio());
}

#[test]
fn test_prompt_names() {
    let names = prompt_names();
    assert_eq!(names.len(), 4);
    assert!(names.contains(&"greeting"));
}

#[test]
fn test_get_all_prompts() {
    let prompts = get_all_prompts();
    assert_eq!(prompts.len(), 4);
    let names: Vec<_> = prompts.iter().map(|p| p.name.as_str()).collect();
    assert!(names.contains(&"greeting"));
    assert!(names.contains(&"code_review"));
    assert!(names.contains(&"explain"));
    assert!(names.contains(&"summarize"));
}

#[test]
fn test_greeting_prompt_metadata() {
    assert_eq!(GreetingPrompt::NAME, "greeting");
    assert!(!GreetingPrompt::DESCRIPTION.is_empty());
    assert!(!GreetingPrompt::template().is_empty());
    let args = GreetingPrompt::arguments();
    assert_eq!(args.len(), 2);
    assert_eq!(args[0].name, "name");
    assert_eq!(args[0].required, Some(true));
}

#[test]
fn test_code_review_prompt_metadata() {
    assert_eq!(CodeReviewPrompt::NAME, "code_review");
    assert!(!CodeReviewPrompt::DESCRIPTION.is_empty());
    let args = CodeReviewPrompt::arguments();
    assert_eq!(args.len(), 3);
    assert_eq!(args[0].required, Some(true));
    assert_eq!(args[1].required, Some(true));
    assert_eq!(args[2].required, Some(false));
}

#[test]
fn test_explain_prompt_metadata() {
    assert_eq!(ExplainPrompt::NAME, "explain");
    assert!(!ExplainPrompt::DESCRIPTION.is_empty());
    let args = ExplainPrompt::arguments();
    assert_eq!(args.len(), 2);
    assert_eq!(args[0].name, "topic");
    assert_eq!(args[0].required, Some(true));
}

#[test]
fn test_summarize_prompt_metadata() {
    assert_eq!(SummarizePrompt::NAME, "summarize");
    assert!(!SummarizePrompt::DESCRIPTION.is_empty());
    let args = SummarizePrompt::arguments();
    assert_eq!(args.len(), 2);
    assert_eq!(args[0].name, "content");
    assert_eq!(args[0].required, Some(true));
}

#[test]
fn test_builder() {
    let template = PromptTemplateBuilder::new("greeting")
        .description("A greeting prompt")
        .required_arg("name", "The name to greet")
        .optional_arg("style", "The greeting style")
        .template("Hello, {{name}}!")
        .build();
    assert_eq!(template.name, "greeting");
    assert_eq!(template.arguments.len(), 2);
}

#[test]
fn builder_keeps_argument_order_and_flags() {
    let template = PromptTemplateBuilder::new("p")
        .optional_arg("a", "first")
        .required_arg("b", "second")
        .build();
    assert_eq!(template.arguments[0].name, "a");
    assert_eq!(template.arguments[0].required, Some(false));
    assert_eq!(template.arguments[1].name, "b");
    assert_eq!(template.arguments[1].required, Some(true));
    assert_eq!(template.template, "");
    assert!(template.description.is_none());
}

#[test]
fn prompt_error_texts() {
    assert_eq!(PromptError::not_found("x".to_string()).message(), "Prompt not found: x");
    assert_eq!(
        PromptError::missing_argument("name".to_string()).message(),
        "Missing required argument: name"
    );
    assert_eq!(
        PromptError::invalid_argument("level".to_string(), "bad".to_string()).message(),
        "Invalid argument value for 'level': bad"
    );
    assert_eq!(PromptError::template("t".to_string()).message(), "Template error: t");
    assert_eq!(PromptError::internal("i".to_string()).message(), "Internal error: i");
}

#[test]
fn test_resource_uris() {
    let uris = resource_uris();
    assert_eq!(uris.len(), 3);
    assert!(uris.contains(&"mcp://server/info"));
}

#[test]
fn test_config_example_metadata() {
    assert_eq!(ConfigExampleResource::URI, "mcp://server/config/example");
    assert_eq!(ConfigExampleResource::MIME_TYPE, "application/json");
}

#[test]
fn test_config_example_content() {
    match ConfigExampleResource::content() {
        ResourceContent::Text(text) => {
            assert!(text.contains("example"));
            assert!(text.contains("settings"));
        }
        _ => panic!("Expected Text content"),
    }
}

#[test]
fn test_docs_readme_metadata() {
    assert_eq!(DocsReadmeResource::URI, "mcp://server/docs/readme");
    assert_eq!(DocsReadmeResource::MIME_TYPE, "text/markdown");
}

#[test]
fn test_docs_readme_content() {
    match DocsReadmeResource::content() {
        ResourceContent::Text(text) => {
            assert!(text.contains("MCP Server Template"));
            assert!(text.contains("Available Tools"));
        }
        _ => panic!("Expected Text content"),
    }
}

#[test]
fn test_server_info_metadata() {
    assert_eq!(ServerInfoResource::URI, "mcp://server/info");
    assert_eq!(ServerInfoResource::MIME_TYPE, "application/json");
}

#[test]
fn server_info_is_computed() {
    assert!(matches!(
        ServerInfoResource::content(),
        ResourceContent::Dynamic(DynamicResourceType::SystemInfo)
    ));
}

#[test]
fn resource_patterns_and_handlers() {
    assert!(matches_pattern("db://*", "db://tables"));
    assert!(!matches_pattern("db://*", "http://x"));
    assert!(matches_pattern("exact", "exact"));
    assert!(!matches_pattern("exact", "exactly"));

    let db = DatabaseResourceHandler::new("db://".to_string(), "conn".to_string());
    assert_eq!(db.uri_pattern(), "db://");
    assert_eq!(db.list()[0].uri, "db://tables");
    assert!(matches!(db.read("db://tables"), Ok(ResourceReadResult::Text { .. })));
    assert_eq!(db.read("db://users").unwrap_err(), "Resource not found: db://users");

    let http = HttpResourceHandler::new("web://".to_string(), "http://example.com".to_string());
    assert!(http.list().is_empty());
    match http.read("web://a") {
        Ok(ResourceReadResult::Text { content, .. }) => {
            assert_eq!(content, "HTTP resource placeholder for: web://a")
        }
        _ => panic!("expected text"),
    }
}

#[test]
fn resource_error_texts() {
    assert_eq!(ResourceError::not_found("u".to_string()).message(), "Resource not found: u");
    assert_eq!(ResourceError::access_denied("m".to_string()).message(), "Access denied: m");
    assert_eq!(ResourceError::invalid_uri("u".to_string()).message(), "Invalid URI: u");
    assert_eq!(ResourceError::internal("m".to_string()).message(), "Internal error: m");
}

#[test]
fn test_registry_tool_names() {
    let registry = ToolRegistry::new(Config::default());
    let names = registry.tool_names();
    assert_eq!(names.len(), 11);
    assert!(names.contains(&"fs_list_dir"));
    assert!(names.contains(&"fs_rename"));
    assert!(names.contains(&"mb_artist_search"));
    assert!(names.contains(&"mb_cover_download"));
    assert!(names.contains(&"mb_identify_record"));
    assert!(names.contains(&"mb_label_search"));
    assert!(names.contains(&"mb_recording_search"));
    assert!(names.contains(&"mb_release_search"));
    assert!(names.contains(&"mb_work_search"));
    assert!(names.contains(&"read_metadata"));
    assert!(names.contains(&"write_metadata"));
}

#[test]
fn test_registry_call_unknown() {
    let registry = ToolRegistry::new(Config::default());
    let result = registry.find_tool("unknown");
    assert!(result.is_err());
    assert_eq!(result.unwrap_err(), "Unknown tool: unknown");
}

#[test]
fn registry_finds_each_tool() {
    let registry = ToolRegistry::new(Config::default());
    assert_eq!(registry.find_tool("fs_list_dir"), Ok(ToolKind::FsListDir));
    assert_eq!(registry.find_tool("mb_work_search"), Ok(ToolKind::MbWork));
    assert_eq!(registry.find_tool("write_metadata"), Ok(ToolKind::WriteMetadata));
}

#[test]
fn tool_error_texts() {
    assert_eq!(ToolError::not_found("t".to_string()).message(), "Tool not found: t");
    assert_eq!(ToolError::invalid_arguments("a".to_string()).message(), "Invalid arguments: a");
    assert_eq!(ToolError::execution_failed("e".to_string()).message(), "Execution failed: e");
    assert_eq!(ToolError::internal("i".to_string()).message(), "Internal error: i");
    assert_eq!(ToolError::Timeout.message(), "Tool execution timed out");
}

#[test]
fn sessions_also_reach_fs_delete() {
    let registry = ToolRegistry::new(Config::default());
    assert_eq!(registry.find_routed_tool("fs_delete"), Ok(ToolKind::FsDelete));
    assert_eq!(registry.find_routed_tool("fs_rename"), Ok(ToolKind::FsRename));
    assert!(registry.find_tool("fs_delete").is_err());
    assert_eq!(registry.find_routed_tool("nope").unwrap_err(), "Unknown tool: nope");
}
