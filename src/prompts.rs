//! The prompt templates that the server offers, their arguments, and their
//! registry.

use vstd::prelude::*;
use vstd::string::StringExecFns;

verus! {

/// Why a prompt could not be produced.
#[derive(Debug, Clone)]
pub enum PromptError {
    NotFound(String),
    MissingArgument(String),
    InvalidArgument(String, String),
    TemplateError(String),
    Internal(String),
}

impl PromptError {
    pub fn not_found(name: String) -> (r: PromptError)
        ensures
            r == PromptError::NotFound(name),
    {
        PromptError::NotFound(name)
    }

    pub fn missing_argument(arg: String) -> (r: PromptError)
        ensures
            r == PromptError::MissingArgument(arg),
    {
        PromptError::MissingArgument(arg)
    }

    pub fn invalid_argument(arg: String, reason: String) -> (r: PromptError)
        ensures
            r == PromptError::InvalidArgument(arg, reason),
    {
        PromptError::InvalidArgument(arg, reason)
    }

    pub fn template(msg: String) -> (r: PromptError)
        ensures
            r == PromptError::TemplateError(msg),
    {
        PromptError::TemplateError(msg)
    }

    pub fn internal(msg: String) -> (r: PromptError)
        ensures
            r == PromptError::Internal(msg),
    {
        PromptError::Internal(msg)
    }

    /// The error's text, as clients see it.
    pub fn message(&self) -> (r: String)
        ensures
            r@ == prompt_error_text(*self),
    {
        match self {
            PromptError::InvalidArgument(a, reason) => {
                let mut m = String::from_str("Invalid argument value for '");
                m.append(a.as_str());
                m.append("': ");
                m.append(reason.as_str());
                m
            },
            PromptError::NotFound(s) => {
                let mut m = String::from_str("Prompt not found: ");
                m.append(s.as_str());
                m
            },
            PromptError::MissingArgument(s) => {
                let mut m = String::from_str("Missing required argument: ");
                m.append(s.as_str());
                m
            },
            PromptError::TemplateError(s) => {
                let mut m = String::from_str("Template error: ");
                m.append(s.as_str());
                m
            },
            PromptError::Internal(s) => {
                let mut m = String::from_str("Internal error: ");
                m.append(s.as_str());
                m
            },
        }
    }
}

pub open spec fn prompt_error_text(e: PromptError) -> Seq<char> {
    match e {
        PromptError::NotFound(s) => "Prompt not found: "@ + s@,
        PromptError::MissingArgument(s) => "Missing required argument: "@ + s@,
        PromptError::InvalidArgument(a, r) => "Invalid argument value for '"@ + a@ + "': "@ + r@,
        PromptError::TemplateError(s) => "Template error: "@ + s@,
        PromptError::Internal(s) => "Internal error: "@ + s@,
    }
}

/// One argument that a prompt takes.
#[derive(Debug, Clone)]
pub struct PromptArgument {
    pub name: String,
    pub description: Option<String>,
    pub required: Option<bool>,
}

fn argument(name: &str, description: &str, required: bool) -> (r: PromptArgument)
    ensures
        r.name@ == name@,
        r.description is Some,
        r.description->Some_0@ == description@,
        r.required == Some(required),
{
    PromptArgument {
        name: String::from_str(name),
        description: Some(String::from_str(description)),
        required: Some(required),
    }
}

/// A prompt template: its name, description, arguments and text.
#[derive(Debug, Clone)]
pub struct PromptTemplate {
    pub name: String,
    pub description: Option<String>,
    pub arguments: Vec<PromptArgument>,
    pub template: String,
}

/// A customizable greeting prompt.
pub struct GreetingPrompt;

impl GreetingPrompt {
    pub const NAME: &'static str = "greeting";
    pub const DESCRIPTION: &'static str = "A customizable greeting prompt";

    /// The template text.
    pub fn template() -> (r: &'static str)
        ensures
            r@ == "Hello, {{name}}! {{#if style}}(Style: {{style}}){{/if}}"@,
    {
        "Hello, {{name}}! {{#if style}}(Style: {{style}}){{/if}}"
    }

    /// The arguments, in order.
    pub fn arguments() -> (r: Vec<PromptArgument>)
        ensures
            r@.len() == 2,
            r@[0].name@ == "name"@,
            r@[0].required == Some(true),
            r@[1].name@ == "style"@,
            r@[1].required == Some(false),
    {
        let mut v: Vec<PromptArgument> = Vec::new();
        v.push(argument("name", "The name to greet", true));
        v.push(argument("style", "The greeting style: formal, casual, or enthusiastic", false));
        v
    }

    /// The prompt as a template value.
    pub fn build() -> (r: PromptTemplate)
        ensures
            r.name@ == "greeting"@,
            r.arguments@.len() == 2,
    {
        PromptTemplate {
            name: String::from_str(GreetingPrompt::NAME),
            description: Some(String::from_str(GreetingPrompt::DESCRIPTION)),
            arguments: GreetingPrompt::arguments(),
            template: String::from_str(GreetingPrompt::template()),
        }
    }
}

/// A code review prompt.
pub struct CodeReviewPrompt;

impl CodeReviewPrompt {
    pub const NAME: &'static str = "code_review";
    pub const DESCRIPTION: &'static str = "A code review prompt template";

    /// The template text.
    pub fn template() -> (r: &'static str)
        ensures
            r@ == "Please review the following {{language}} code:\n\n```{{language}}\n{{code}}\n```\n\n{{#if focus}}\nPlease focus specifically on: {{focus}}\n{{else}}\nPlease provide a comprehensive review covering:\n- Code quality and readability\n- Potential bugs or issues\n- Performance considerations\n- Security concerns\n- Suggestions for improvement\n{{/if}}"@,
    {
        "Please review the following {{language}} code:\n\n```{{language}}\n{{code}}\n```\n\n{{#if focus}}\nPlease focus specifically on: {{focus}}\n{{else}}\nPlease provide a comprehensive review covering:\n- Code quality and readability\n- Potential bugs or issues\n- Performance considerations\n- Security concerns\n- Suggestions for improvement\n{{/if}}"
    }

    /// The arguments, in order.
    pub fn arguments() -> (r: Vec<PromptArgument>)
        ensures
            r@.len() == 3,
            r@[0].name@ == "language"@,
            r@[0].required == Some(true),
            r@[1].name@ == "code"@,
            r@[1].required == Some(true),
            r@[2].name@ == "focus"@,
            r@[2].required == Some(false),
    {
        let mut v: Vec<PromptArgument> = Vec::new();
        v.push(argument("language", "The programming language of the code", true));
        v.push(argument("code", "The code to review", true));
        v.push(argument("focus", "Specific areas to focus on (e.g., security, performance)", false));
        v
    }

    /// The prompt as a template value.
    pub fn build() -> (r: PromptTemplate)
        ensures
            r.name@ == "code_review"@,
            r.arguments@.len() == 3,
    {
        PromptTemplate {
            name: String::from_str(CodeReviewPrompt::NAME),
            description: Some(String::from_str(CodeReviewPrompt::DESCRIPTION)),
            arguments: CodeReviewPrompt::arguments(),
            template: String::from_str(CodeReviewPrompt::template()),
        }
    }
}

/// A prompt asking to explain a concept.
pub struct ExplainPrompt;

impl ExplainPrompt {
    pub const NAME: &'static str = "explain";
    pub const DESCRIPTION: &'static str = "Ask for an explanation of a concept";

    /// The template text.
    pub fn template() -> (r: &'static str)
        ensures
            r@ == "Please explain {{topic}}{{#if level}} for someone with {{level}} knowledge{{/if}}.\n\nProvide:\n1. A clear definition\n2. Key concepts\n3. Practical examples\n4. Common use cases"@,
    {
        "Please explain {{topic}}{{#if level}} for someone with {{level}} knowledge{{/if}}.\n\nProvide:\n1. A clear definition\n2. Key concepts\n3. Practical examples\n4. Common use cases"
    }

    /// The arguments, in order.
    pub fn arguments() -> (r: Vec<PromptArgument>)
        ensures
            r@.len() == 2,
            r@[0].name@ == "topic"@,
            r@[0].required == Some(true),
            r@[1].name@ == "level"@,
            r@[1].required == Some(false),
    {
        let mut v: Vec<PromptArgument> = Vec::new();
        v.push(argument("topic", "The topic to explain", true));
        v.push(argument("level", "The expertise level: beginner, intermediate, or advanced", false));
        v
    }

    /// The prompt as a template value.
    pub fn build() -> (r: PromptTemplate)
        ensures
            r.name@ == "explain"@,
            r.arguments@.len() == 2,
    {
        PromptTemplate {
            name: String::from_str(ExplainPrompt::NAME),
            description: Some(String::from_str(ExplainPrompt::DESCRIPTION)),
            arguments: ExplainPrompt::arguments(),
            template: String::from_str(ExplainPrompt::template()),
        }
    }
}

/// A prompt asking to summarize content.
pub struct SummarizePrompt;

impl SummarizePrompt {
    pub const NAME: &'static str = "summarize";
    pub const DESCRIPTION: &'static str = "Summarize text or content";

    /// The template text.
    pub fn template() -> (r: &'static str)
        ensures
            r@ == "Please summarize the following content{{#if length}} ({{length}} summary){{/if}}:\n\n{{content}}"@,
    {
        "Please summarize the following content{{#if length}} ({{length}} summary){{/if}}:\n\n{{content}}"
    }

    /// The arguments, in order.
    pub fn arguments() -> (r: Vec<PromptArgument>)
        ensures
            r@.len() == 2,
            r@[0].name@ == "content"@,
            r@[0].required == Some(true),
            r@[1].name@ == "length"@,
            r@[1].required == Some(false),
    {
        let mut v: Vec<PromptArgument> = Vec::new();
        v.push(argument("content", "The content to summarize", true));
        v.push(argument("length", "Desired length: brief, medium, or detailed", false));
        v
    }

    /// The prompt as a template value.
    pub fn build() -> (r: PromptTemplate)
        ensures
            r.name@ == "summarize"@,
            r.arguments@.len() == 2,
    {
        PromptTemplate {
            name: String::from_str(SummarizePrompt::NAME),
            description: Some(String::from_str(SummarizePrompt::DESCRIPTION)),
            arguments: SummarizePrompt::arguments(),
            template: String::from_str(SummarizePrompt::template()),
        }
    }
}

/// All prompts, in listing order.
pub fn get_all_prompts() -> (r: Vec<PromptTemplate>)
    ensures
        r@.len() == 4,
        r@[0].name@ == "greeting"@,
        r@[1].name@ == "code_review"@,
        r@[2].name@ == "explain"@,
        r@[3].name@ == "summarize"@,
{
    let mut v: Vec<PromptTemplate> = Vec::new();
    v.push(GreetingPrompt::build());
    v.push(CodeReviewPrompt::build());
    v.push(ExplainPrompt::build());
    v.push(SummarizePrompt::build());
    v
}

/// Names of all prompts, in listing order.
pub fn prompt_names() -> (r: Vec<&'static str>)
    ensures
        r@.len() == 4,
        r@[0]@ == "greeting"@,
        r@[1]@ == "code_review"@,
        r@[2]@ == "explain"@,
        r@[3]@ == "summarize"@,
{
    let mut v: Vec<&'static str> = Vec::new();
    v.push(GreetingPrompt::NAME);
    v.push(CodeReviewPrompt::NAME);
    v.push(ExplainPrompt::NAME);
    v.push(SummarizePrompt::NAME);
    v
}

/// Builds a prompt template step by step.
pub struct PromptTemplateBuilder {
    pub name: String,
    pub description: Option<String>,
    pub arguments: Vec<PromptArgument>,
    pub template: String,
}

impl PromptTemplateBuilder {
    pub fn new(name: &str) -> (r: PromptTemplateBuilder)
        ensures
            r.name@ == name@,
            r.description is None,
            r.arguments@.len() == 0,
            r.template@.len() == 0,
    {
        PromptTemplateBuilder { name: String::from_str(name), description: None, arguments: Vec::new(), template: String::new() }
    }

    pub fn description(self, description: &str) -> (r: PromptTemplateBuilder)
        ensures
            r.name == self.name,
            r.description is Some,
            r.description->Some_0@ == description@,
            r.arguments@ == self.arguments@,
            r.template == self.template,
    {
        PromptTemplateBuilder { description: Some(String::from_str(description)), ..self }
    }

    /// Adds a required argument at the end.
    pub fn required_arg(self, name: &str, description: &str) -> (r: PromptTemplateBuilder)
        ensures
            r.name == self.name,
            r.description == self.description,
            r.template == self.template,
            r.arguments@.len() == self.arguments@.len() + 1,
            r.arguments@.drop_last() == self.arguments@,
            r.arguments@.last().name@ == name@,
            r.arguments@.last().description is Some,
            r.arguments@.last().description->Some_0@ == description@,
            r.arguments@.last().required == Some(true),
    {
        let mut b = self;
        b.arguments.push(argument(name, description, true));
        proof {
            assert(b.arguments@.drop_last() =~= self.arguments@);
        }
        b
    }

    /// Adds an optional argument at the end.
    pub fn optional_arg(self, name: &str, description: &str) -> (r: PromptTemplateBuilder)
        ensures
            r.name == self.name,
            r.description == self.description,
            r.template == self.template,
            r.arguments@.len() == self.arguments@.len() + 1,
            r.arguments@.drop_last() == self.arguments@,
            r.arguments@.last().name@ == name@,
            r.arguments@.last().description is Some,
            r.arguments@.last().description->Some_0@ == description@,
            r.arguments@.last().required == Some(false),
    {
        let mut b = self;
        b.arguments.push(argument(name, description, false));
        proof {
            assert(b.arguments@.drop_last() =~= self.arguments@);
        }
        b
    }

    pub fn template(self, template: &str) -> (r: PromptTemplateBuilder)
        ensures
            r.name == self.name,
            r.description == self.description,
            r.arguments@ == self.arguments@,
            r.template@ == template@,
    {
        PromptTemplateBuilder { template: String::from_str(template), ..self }
    }

    pub fn build(self) -> (r: PromptTemplate)
        ensures
            r.name == self.name,
            r.description == self.description,
            r.arguments@ == self.arguments@,
            r.template == self.template,
    {
        PromptTemplate {
            name: self.name,
            description: self.description,
            arguments: self.arguments,
            template: self.template,
        }
    }
}

} // verus!
