use music_mcp_server::config::ResourcesConfig;
use music_mcp_server::resources::{
    get_all_resource_templates, get_all_resources, DynamicResourceType, ResourceContent,
    ResourceEntry, ResourceError, ResourceRead, ResourceService,
};

fn service(base: Option<&str>) -> ResourceService {
    ResourceService::new(ResourcesConfig { base_path: base.map(|b| b.to_string()) })
}

fn dynamic(uri: &str, kind: DynamicResourceType) -> ResourceEntry {
    ResourceEntry {
        uri: uri.to_string(),
        name: "n".to_string(),
        description: None,
        mime_type: None,
        content: ResourceContent::Dynamic(kind),
    }
}

#[test]
fn test_get_all_resources() {
    let resources = get_all_resources();
    assert_eq!(resources.len(), 3);
    let uris: Vec<_> = resources.iter().map(|r| r.uri.as_str()).collect();
    assert!(uris.contains(&"mcp://server/info"));
    assert!(uris.contains(&"mcp://server/config/example"));
    assert!(uris.contains(&"mcp://server/docs/readme"));
}

#[test]
fn test_get_all_resource_templates() {
    let templates = get_all_resource_templates();
    assert_eq!(templates.len(), 3);
    let uri_templates: Vec<_> = templates.iter().map(|t| t.uri_template.as_str()).collect();
    assert!(uri_templates.contains(&"file:///{path}"));
    assert!(uri_templates.contains(&"config://{section}/{key}"));
    assert!(uri_templates.contains(&"mcp://server/docs/{document}"));
}

#[test]
fn test_resource_service_creation() {
    let service = service(None);
    assert!(!service.resource_uris().is_empty());
    assert_eq!(service.templates.len(), 3);
}

#[test]
fn test_read_existing_resource() {
    let result = service(None).read_resource("mcp://server/docs/readme");
    assert!(result.is_ok());
    match result.unwrap() {
        ResourceRead::Text(t) => assert!(t.contains("MCP Server Template")),
        other => panic!("unexpected {:?}", other),
    }
}

#[test]
fn test_read_nonexistent_resource() {
    let result = service(None).read_resource("mcp://server/nonexistent");
    assert!(result.is_err());
    assert!(matches!(result, Err(ResourceError::NotFound(u)) if u == "mcp://server/nonexistent"));
}

#[test]
fn computed_resources() {
    let mut s = service(Some("/srv/data"));
    match s.read_resource("mcp://server/info").unwrap() {
        ResourceRead::ServerInfo { base_path } => assert_eq!(base_path.as_deref(), Some("/srv/data")),
        other => panic!("unexpected {:?}", other),
    }
    s.register_resource(dynamic("file://notes", DynamicResourceType::File("notes.txt".to_string())));
    s.register_resource(dynamic("x://c", DynamicResourceType::Custom("abc".to_string())));
    assert_eq!(s.resource_uris().len(), 5);
    match s.read_resource("file://notes").unwrap() {
        ResourceRead::File(p) => assert_eq!(p, "/srv/data/notes.txt"),
        other => panic!("unexpected {:?}", other),
    }
    match s.read_resource("x://c").unwrap() {
        ResourceRead::Text(t) => assert_eq!(t, "Custom resource: abc"),
        other => panic!("unexpected {:?}", other),
    }
    s.register_resource(dynamic("x://c", DynamicResourceType::Custom("def".to_string())));
    assert_eq!(s.resource_uris().len(), 5);
    match service(None).read_resource("mcp://server/info").unwrap() {
        ResourceRead::ServerInfo { base_path } => assert!(base_path.is_none()),
        other => panic!("unexpected {:?}", other),
    }
}
