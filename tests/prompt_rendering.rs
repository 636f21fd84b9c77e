use music_mcp_server::config::PromptsConfig;
use music_mcp_server::prompts::{PromptError, PromptTemplate, PromptTemplateBuilder};
use music_mcp_server::templates::{
    clean_unmatched_placeholders, find, process_conditionals, replace_text, PromptService,
};

fn args(pairs: &[(&str, &str)]) -> Vec<(String, String)> {
    pairs.iter().map(|(k, v)| (k.to_string(), v.to_string())).collect()
}

#[test]
fn test_simple_substitution() {
    let template = PromptTemplate::new("test", None, vec![], "Hello, {{name}}!");
    let result = template.render(&args(&[("name", "World")])).unwrap();
    assert_eq!(result, "Hello, World!");
}

#[test]
fn test_conditional_with_value() {
    let template = PromptTemplate::new("test", None, vec![], "Hello{{#if name}}, {{name}}{{/if}}!");
    let result = template.render(&args(&[("name", "World")])).unwrap();
    assert_eq!(result, "Hello, World!");
}

#[test]
fn test_conditional_without_value() {
    let template = PromptTemplate::new("test", None, vec![], "Hello{{#if name}}, {{name}}{{/if}}!");
    let result = template.render(&Vec::new()).unwrap();
    assert_eq!(result, "Hello!");
}

#[test]
fn test_conditional_with_else() {
    let template = PromptTemplate::new(
        "test",
        None,
        vec![],
        "Hello, {{#if name}}{{name}}{{else}}stranger{{/if}}!",
    );
    let result = template.render(&Vec::new()).unwrap();
    assert_eq!(result, "Hello, stranger!");
}

#[test]
fn empty_value_counts_as_unset() {
    let template = PromptTemplate::new("t", None, vec![], "A{{#if x}}yes{{else}}no{{/if}}");
    assert_eq!(template.render(&args(&[("x", "")])).unwrap(), "Ano");
    assert_eq!(template.render(&args(&[("x", "1")])).unwrap(), "Ayes");
    let spaced = PromptTemplate::new("t", None, vec![], "{{#if  x }}on{{/if}}");
    assert_eq!(spaced.render(&args(&[("x", "1")])).unwrap(), "on");
}

#[test]
fn malformed_conditionals_are_template_errors() {
    match process_conditionals("Hi {{#if name", &Vec::new()) {
        Err(PromptError::TemplateError(m)) => assert_eq!(m, "Unclosed {{#if}} tag"),
        other => panic!("unexpected {:?}", other),
    }
    match process_conditionals("Hi {{#if name}} there", &Vec::new()) {
        Err(PromptError::TemplateError(m)) => assert_eq!(m, "Missing {{/if}} tag"),
        other => panic!("unexpected {:?}", other),
    }
}

#[test]
fn unfilled_placeholders_are_removed_but_tags_kept() {
    assert_eq!(clean_unmatched_placeholders("a {{x}} b {{#y}} c {{/z}} d {{"), "a  b {{#y}} c {{/z}} d {{");
    let template = PromptTemplate::new("t", None, vec![], "Dear {{title}} {{name}}.");
    assert_eq!(template.render(&args(&[("name", "Ann")])).unwrap(), "Dear  Ann.");
}

#[test]
fn find_and_replace() {
    assert_eq!(find("abcabc", "bc", 0), Some(1));
    assert_eq!(find("abcabc", "bc", 2), Some(4));
    assert_eq!(find("abcabc", "x", 0), None);
    assert_eq!(find("abc", "", 3), Some(3));
    assert_eq!(replace_text("a-b-c", "-", "+"), "a+b+c");
    assert_eq!(replace_text("aaa", "aa", "b"), "ba");
    assert_eq!(replace_text("héllo", "é", "e"), "hello");
    assert_eq!(replace_text("abc", "", "-"), "abc".replace("", "-"));
    assert_eq!(replace_text("", "", "-"), "-");
}

#[test]
fn test_prompt_service_creation() {
    let service = PromptService::new(PromptsConfig {});
    assert!(!service.prompt_names().is_empty());
}

#[test]
fn test_get_prompt_with_arguments() {
    let service = PromptService::new(PromptsConfig {});
    let result = service.get_prompt("greeting", Some(args(&[("name", "World")])));
    assert!(result.is_ok());
    assert_eq!(result.unwrap().content, "Hello, World! ");
}

#[test]
fn test_get_prompt_missing_required_argument() {
    let service = PromptService::new(PromptsConfig {});
    let result = service.get_prompt("greeting", None);
    assert!(result.is_err());
    match result {
        Err(PromptError::MissingArgument(a)) => assert_eq!(a, "name"),
        other => panic!("unexpected {:?}", other.map(|r| r.content)),
    }
}

#[test]
fn test_get_nonexistent_prompt() {
    let service = PromptService::new(PromptsConfig {});
    let result = service.get_prompt("nonexistent", None);
    assert!(result.is_err());
    assert!(matches!(result, Err(PromptError::NotFound(n)) if n == "nonexistent"));
}

#[test]
fn greeting_with_style_and_registration() {
    let mut service = PromptService::new(PromptsConfig {});
    let r = service
        .get_prompt("greeting", Some(args(&[("name", "Bo"), ("style", "formal")])))
        .unwrap();
    assert_eq!(r.content, "Hello, Bo! (Style: formal)");
    let custom = PromptTemplateBuilder::new("greeting").template("Hi {{name}}").build();
    service.register_prompt(custom);
    assert_eq!(service.prompt_names().len(), 4);
    assert_eq!(service.get_prompt("greeting", None).unwrap().content, "Hi ");
    let extra = PromptTemplateBuilder::new("extra").template("x").build();
    service.register_prompt(extra);
    assert_eq!(service.prompt_names().len(), 5);
}

#[test]
fn condition_names_are_trimmed_of_unicode_white_space() {
    let t = PromptTemplate::new("t", None, vec![], "{{#if \u{3000}x\t}}on{{else}}off{{/if}}");
    assert_eq!(t.render(&args(&[("x", "1")])).unwrap(), "on");
    assert_eq!(t.render(&Vec::new()).unwrap(), "off");
}
