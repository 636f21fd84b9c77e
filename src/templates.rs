//! Prompt template rendering: `{{#if var}}...{{else}}...{{/if}}` blocks,
//! `{{name}}` placeholders, and removal of placeholders left unfilled.
//!
//! Arguments are name/value pairs; a name is looked up by its first pair,
//! and placeholders are filled in the pairs' order.

use vstd::prelude::*;
use vstd::string::StrSliceExecFns;
use vstd::string::StringExecFns;
use crate::config::PromptsConfig;
use crate::prompts::{get_all_prompts, PromptArgument, PromptError, PromptTemplate};
use crate::text::str_equals;

verus! {

/// `pat` occurs in `s` at index `i`.
pub open spec fn occurs_at(s: Seq<char>, pat: Seq<char>, i: int) -> bool {
    0 <= i && i + pat.len() <= s.len() && s.subrange(i, i + pat.len()) == pat
}

/// The first index at or after `from` where `pat` occurs in `s`.
pub open spec fn find_from(s: Seq<char>, pat: Seq<char>, from: int) -> Option<int>
    decreases s.len() + 1 - from,
{
    if from < 0 || from + pat.len() > s.len() {
        None
    } else if occurs_at(s, pat, from) {
        Some(from)
    } else {
        find_from(s, pat, from + 1)
    }
}

/// Finds the first occurrence of `pat` in `s` at or after `from`.
pub fn find(s: &str, pat: &str, from: usize) -> (r: Option<usize>)
    ensures
        match r {
            Some(i) => find_from(s@, pat@, from as int) == Some(i as int),
            None => find_from(s@, pat@, from as int) is None,
        },
{
    let n = s.unicode_len();
    let m = pat.unicode_len();
    if m == 0 {
        if from <= n {
            assert(s@.subrange(from as int, from as int) =~= pat@);
            return Some(from);
        }
        return None;
    }
    let mut i = from;
    while i <= n && m <= n - i
        invariant
            n == s@.len(),
            m == pat@.len(),
            m > 0,
            from <= i,
            find_from(s@, pat@, from as int) == find_from(s@, pat@, i as int),
        decreases n + 1 - i,
    {
        if str_equals(s.substring_char(i, i + m), pat) {
            return Some(i);
        }
        i = i + 1;
    }
    None
}

/// A found index is an occurrence, and lies at or after the start.
proof fn lemma_find_from_occurs(s: Seq<char>, pat: Seq<char>, from: int)
    requires
        find_from(s, pat, from) is Some,
    ensures
        occurs_at(s, pat, find_from(s, pat, from)->Some_0),
        from <= find_from(s, pat, from)->Some_0,
    decreases s.len() + 1 - from,
{
    if !occurs_at(s, pat, from) {
        lemma_find_from_occurs(s, pat, from + 1);
    }
}

/// `rep` before each character of `s` and after the last: what replacing
/// the empty pattern gives.
pub open spec fn interleave(s: Seq<char>, rep: Seq<char>) -> Seq<char>
    decreases s.len(),
{
    if s.len() == 0 {
        rep
    } else {
        interleave(s.drop_last(), rep) + seq![s.last()] + rep
    }
}

/// `s` with every occurrence of `pat` replaced by `rep`, from left to
/// right; the empty pattern occurs before each character and at the end.
pub open spec fn replace_all(s: Seq<char>, pat: Seq<char>, rep: Seq<char>) -> Seq<char>
    decreases s.len(),
{
    if pat.len() == 0 {
        interleave(s, rep)
    } else {
        match find_from(s, pat, 0) {
            None => s,
            Some(i) => if 0 <= i && i + pat.len() <= s.len() {
                s.subrange(0, i) + rep + replace_all(s.subrange(i + pat.len(), s.len() as int), pat, rep)
            } else {
                s
            },
        }
    }
}

/// Replaces every occurrence of `pat` in `s` by `rep`.
pub fn replace_text(s: &str, pat: &str, rep: &str) -> (r: String)
    ensures
        r@ == replace_all(s@, pat@, rep@),
{
    let m = pat.unicode_len();
    if m == 0 {
        return interleave_text(s, rep);
    }
    let mut out = String::new();
    let mut rest = String::from_str(s);
    loop
        invariant
            m == pat@.len(),
            m > 0,
            out@ + replace_all(rest@, pat@, rep@) == replace_all(s@, pat@, rep@),
        decreases rest@.len(),
    {
        match find(rest.as_str(), pat, 0) {
            None => {
                out.append(rest.as_str());
                return out;
            },
            Some(i) => {
                proof { lemma_find_from_occurs(rest@, pat@, 0); }
                let n = rest.unicode_len();
                let ghost old_out = out@;
                let ghost old_rest = rest@;
                out.append(rest.as_str().substring_char(0, i));
                out.append(rep);
                let next = String::from_str(rest.as_str().substring_char(i + m, n));
                rest = next;
                assert(old_out + replace_all(old_rest, pat@, rep@) =~= out@ + replace_all(rest@, pat@, rep@));
            },
        }
    }
}

fn interleave_text(s: &str, rep: &str) -> (r: String)
    ensures
        r@ == interleave(s@, rep@),
{
    let n = s.unicode_len();
    let mut out = String::from_str(rep);
    let mut i: usize = 0;
    assert(s@.subrange(0, 0) =~= Seq::<char>::empty());
    while i < n
        invariant
            n == s@.len(),
            i <= n,
            out@ == interleave(s@.subrange(0, i as int), rep@),
        decreases n - i,
    {
        let ghost before = out@;
        out.append(s.substring_char(i, i + 1));
        out.append(rep);
        proof {
            let t = s@.subrange(0, i as int + 1);
            assert(t.drop_last() =~= s@.subrange(0, i as int));
            assert(s@.subrange(i as int, i as int + 1) =~= seq![t.last()]);
            assert(out@ =~= interleave(t, rep@));
        }
        i = i + 1;
    }
    assert(s@.subrange(0, n as int) =~= s@);
    out
}

/// A white-space character, as `char::is_whitespace` counts them.
pub open spec fn is_white(c: char) -> bool {
    ('\u{9}' <= c && c <= '\u{d}') || c == ' ' || c == '\u{85}' || c == '\u{a0}' || c == '\u{1680}'
        || ('\u{2000}' <= c && c <= '\u{200a}') || c == '\u{2028}' || c == '\u{2029}'
        || c == '\u{202f}' || c == '\u{205f}' || c == '\u{3000}'
}

fn white(c: char) -> (r: bool)
    ensures
        r == is_white(c),
{
    ('\u{9}' <= c && c <= '\u{d}') || c == ' ' || c == '\u{85}' || c == '\u{a0}' || c == '\u{1680}'
        || ('\u{2000}' <= c && c <= '\u{200a}') || c == '\u{2028}' || c == '\u{2029}'
        || c == '\u{202f}' || c == '\u{205f}' || c == '\u{3000}'
}

/// `s` without its leading white space.
pub open spec fn trim_start(s: Seq<char>) -> Seq<char>
    decreases s.len(),
{
    if s.len() > 0 && is_white(s[0]) { trim_start(s.drop_first()) } else { s }
}

/// `s` without its trailing white space.
pub open spec fn trim_end(s: Seq<char>) -> Seq<char>
    decreases s.len(),
{
    if s.len() > 0 && is_white(s.last()) { trim_end(s.drop_last()) } else { s }
}

/// `s` without leading and trailing white space.
pub open spec fn trimmed(s: Seq<char>) -> Seq<char> {
    trim_end(trim_start(s))
}

/// Removes leading and trailing white space.
pub fn trim_text(s: &str) -> (r: String)
    ensures
        r@ == trimmed(s@),
{
    let n = s.unicode_len();
    let mut a: usize = 0;
    assert(s@.subrange(0, n as int) =~= s@);
    while a < n && white(s.get_char(a))
        invariant
            n == s@.len(),
            a <= n,
            trim_start(s@.subrange(a as int, n as int)) == trim_start(s@),
        decreases n - a,
    {
        assert(s@.subrange(a as int, n as int).drop_first() =~= s@.subrange(a as int + 1, n as int));
        a = a + 1;
    }
    let mut b: usize = n;
    assert(trim_start(s@) == s@.subrange(a as int, n as int));
    while b > a && white(s.get_char(b - 1))
        invariant
            n == s@.len(),
            a <= b <= n,
            trim_end(s@.subrange(a as int, b as int)) == trimmed(s@),
        decreases b - a,
    {
        assert(s@.subrange(a as int, b as int).drop_last() =~= s@.subrange(a as int, b as int - 1));
        b = b - 1;
    }
    String::from_str(s.substring_char(a, b))
}

/// The value of the first pair named `name`.
pub open spec fn arg_value(args: Seq<(String, String)>, name: Seq<char>) -> Option<Seq<char>>
    decreases args.len(),
{
    if args.len() == 0 {
        None
    } else if args[0].0@ == name {
        Some(args[0].1@)
    } else {
        arg_value(args.drop_first(), name)
    }
}

/// An argument counts as set when it is there and not empty.
pub open spec fn is_set(args: Seq<(String, String)>, name: Seq<char>) -> bool {
    arg_value(args, name) is Some && arg_value(args, name)->Some_0.len() > 0
}

fn lookup(args: &Vec<(String, String)>, name: &str) -> (r: Option<usize>)
    ensures
        match r {
            Some(i) => i < args@.len() && arg_value(args@, name@) == Some(args@[i as int].1@),
            None => arg_value(args@, name@) is None,
        },
{
    let mut i: usize = 0;
    assert(args@.subrange(0, args@.len() as int) =~= args@);
    while i < args.len()
        invariant
            i <= args@.len(),
            arg_value(args@, name@) == arg_value(args@.subrange(i as int, args@.len() as int), name@),
        decreases args@.len() - i,
    {
        let ghost tail = args@.subrange(i as int, args@.len() as int);
        assert(tail.drop_first() =~= args@.subrange(i as int + 1, args@.len() as int));
        if str_equals(args[i].0.as_str(), name) {
            return Some(i);
        }
        i = i + 1;
    }
    None
}

pub open spec fn if_open() -> Seq<char> { "{{#if "@ }
pub open spec fn tag_close() -> Seq<char> { "}}"@ }
pub open spec fn if_end() -> Seq<char> { "{{/if}}"@ }
pub open spec fn else_tag() -> Seq<char> { "{{else}}"@ }

/// The branches of a block: before and after its `{{else}}`, or the whole
/// block and nothing.
pub open spec fn branches(block: Seq<char>) -> (Seq<char>, Seq<char>) {
    match find_from(block, else_tag(), 0) {
        Some(k) => if 0 <= k && k + 8 <= block.len() {
            (block.subrange(0, k), block.subrange(k + 8, block.len() as int))
        } else {
            (block, Seq::empty())
        },
        None => (block, Seq::empty()),
    }
}

/// Resolves the conditional blocks of `s`, the first one first, until none
/// is left; or says which tag is missing.
pub open spec fn conditionals(s: Seq<char>, args: Seq<(String, String)>) -> Result<Seq<char>, Seq<char>>
    decreases s.len(),
{
    match find_from(s, if_open(), 0) {
        None => Ok(s),
        Some(a) => match find_from(s, tag_close(), a) {
            None => Err("Unclosed {{#if}} tag"@),
            Some(v) => match find_from(s, if_end(), v) {
                None => Err("Missing {{/if}} tag"@),
                Some(e) => if 0 <= a && a + 6 <= v && v + 2 <= e && e + 7 <= s.len() {
                    let block = s.subrange(v + 2, e);
                    let chosen = if is_set(args, trimmed(s.subrange(a + 6, v))) {
                        branches(block).0
                    } else {
                        branches(block).1
                    };
                    conditionals(s.subrange(0, a) + chosen + s.subrange(e + 7, s.len() as int), args)
                } else {
                    Ok(s)
                },
            },
        },
    }
}

/// `{{name}}`.
pub open spec fn placeholder(name: Seq<char>) -> Seq<char> {
    "{{"@ + name + "}}"@
}

/// Fills the placeholders of each pair, in the pairs' order.
pub open spec fn substitute(s: Seq<char>, args: Seq<(String, String)>) -> Seq<char>
    decreases args.len(),
{
    if args.len() == 0 {
        s
    } else {
        substitute(replace_all(s, placeholder(args[0].0@), args[0].1@), args.drop_first())
    }
}

/// Removes, from index `start` on, each `{{...}}` that holds neither `#`
/// nor `/`.
pub open spec fn clean(s: Seq<char>, start: int) -> Seq<char>
    decreases 2 * s.len() + 2 - start,
{
    if start < 0 || start > s.len() {
        s
    } else {
        match find_from(s, "{{"@, start) {
            None => s,
            Some(p) => if start <= p && p + 2 <= s.len() {
                match find_from(s, tag_close(), p) {
                    Some(q) => if p + 2 <= q && q + 2 <= s.len()
                        && !s.subrange(p, q + 2).contains('#') && !s.subrange(p, q + 2).contains('/') {
                        clean(s.subrange(0, p) + s.subrange(q + 2, s.len() as int), start)
                    } else {
                        clean(s, p + 2)
                    },
                    None => clean(s, p + 2),
                }
            } else {
                s
            },
        }
    }
}

/// What a template renders to with `args`, or the error's text.
pub open spec fn render_spec(template: Seq<char>, args: Seq<(String, String)>) -> Result<Seq<char>, Seq<char>> {
    match conditionals(template, args) {
        Err(m) => Err(m),
        Ok(c) => Ok(clean(substitute(c, args), 0)),
    }
}

/// The opening and closing tags of the first block lie in order, with
/// room for their text between them.
proof fn lemma_tag_bounds(s: Seq<char>, a: int, v: int, e: int)
    requires
        occurs_at(s, if_open(), a),
        occurs_at(s, tag_close(), v),
        occurs_at(s, if_end(), e),
        a <= v,
        v <= e,
    ensures
        a + 6 <= v,
        v + 2 <= e,
        e + 7 <= s.len(),
{
    reveal_strlit("{{#if ");
    reveal_strlit("}}");
    reveal_strlit("{{/if}}");
    assert(s[v] == s.subrange(v, v + 2)[0]);
    assert(s[e] == s.subrange(e, e + 7)[0]);
    assert(s[e + 1] == s.subrange(e, e + 7)[1]);
    if v < a + 6 {
        assert(s[v] == s.subrange(a, a + 6)[v - a]);
    }
    if e < v + 2 {
        assert(s[e] == s.subrange(v, v + 2)[e - v]);
    }
}

fn has_char(s: &str, c: char) -> (r: bool)
    ensures
        r == s@.contains(c),
{
    let n = s.unicode_len();
    let mut i: usize = 0;
    while i < n
        invariant
            n == s@.len(),
            i <= n,
            forall|j: int| 0 <= j < i ==> s@[j] != c,
        decreases n - i,
    {
        if s.get_char(i) == c {
            return true;
        }
        i = i + 1;
    }
    false
}

/// Splits a block at its first `{{else}}`.
fn split_else(block: &str) -> (r: (String, String))
    ensures
        (r.0@, r.1@) == branches(block@),
{
    proof {
        reveal_strlit("{{else}}");
    }
    let n = block.unicode_len();
    match find(block, "{{else}}", 0) {
        Some(k) => {
            proof { lemma_find_from_occurs(block@, else_tag(), 0); }
            (String::from_str(block.substring_char(0, k)), String::from_str(block.substring_char(k + 8, n)))
        },
        None => (String::from_str(block), String::new()),
    }
}

/// Resolves every conditional block of a template.
pub fn process_conditionals(template: &str, args: &Vec<(String, String)>) -> (r: Result<String, PromptError>)
    ensures
        match conditionals(template@, args@) {
            Ok(c) => r is Ok && r->Ok_0@ == c,
            Err(m) => r is Err && r->Err_0 is TemplateError && r->Err_0->TemplateError_0@ == m,
        },
{
    proof {
        reveal_strlit("{{#if ");
        reveal_strlit("}}");
        reveal_strlit("{{/if}}");
        reveal_strlit("Unclosed {{#if}} tag");
        reveal_strlit("Missing {{/if}} tag");
    }
    let mut result = String::from_str(template);
    loop
        invariant
            conditionals(result@, args@) == conditionals(template@, args@),
        decreases result@.len(),
    {
        let a = match find(result.as_str(), "{{#if ", 0) {
            None => return Ok(result),
            Some(a) => a,
        };
        let v = match find(result.as_str(), "}}", a) {
            None => return Err(PromptError::template(String::from_str("Unclosed {{#if}} tag"))),
            Some(v) => v,
        };
        let e = match find(result.as_str(), "{{/if}}", v) {
            None => return Err(PromptError::template(String::from_str("Missing {{/if}} tag"))),
            Some(e) => e,
        };
        proof {
            lemma_find_from_occurs(result@, if_open(), 0);
            lemma_find_from_occurs(result@, tag_close(), a as int);
            lemma_find_from_occurs(result@, if_end(), v as int);
            lemma_tag_bounds(result@, a as int, v as int, e as int);
        }
        let n = result.unicode_len();
        let name = trim_text(result.as_str().substring_char(a + 6, v));
        let (yes, no) = split_else(result.as_str().substring_char(v + 2, e));
        let set = match lookup(args, name.as_str()) {
            Some(i) => args[i].1.unicode_len() > 0,
            None => false,
        };
        let mut next = String::from_str(result.as_str().substring_char(0, a));
        if set {
            next.append(yes.as_str());
        } else {
            next.append(no.as_str());
        }
        next.append(result.as_str().substring_char(e + 7, n));
        proof {
            let block = result@.subrange(v + 2, e as int);
            assert(block.len() == e - v - 2);
            assert(branches(block).0.len() <= block.len());
            assert(branches(block).1.len() <= block.len());
        }
        result = next;
    }
}

/// Removes the placeholders that no argument filled.
pub fn clean_unmatched_placeholders(template: &str) -> (r: String)
    ensures
        r@ == clean(template@, 0),
{
    proof {
        reveal_strlit("{{");
        reveal_strlit("}}");
    }
    let mut result = String::from_str(template);
    let mut start: usize = 0;
    loop
        invariant
            start <= result@.len(),
            clean(result@, start as int) == clean(template@, 0),
        decreases 2 * result@.len() + 2 - start,
    {
        let n = result.unicode_len();
        let p = match find(result.as_str(), "{{", start) {
            None => return result,
            Some(p) => p,
        };
        proof {
            lemma_find_from_occurs(result@, "{{"@, start as int);
            reveal_strlit("{{");
            assert(p + 2 <= result@.len());
        }
        match find(result.as_str(), "}}", p) {
            Some(q) => {
                proof {
                    lemma_find_from_occurs(result@, tag_close(), p as int);
                    reveal_strlit("{{");
                    reveal_strlit("}}");
                    let s = result@;
                    assert(s[p as int] == s.subrange(p as int, p + 2)[0]);
                    assert(s[p + 1] == s.subrange(p as int, p + 2)[1]);
                    assert(s[q as int] == s.subrange(q as int, q + 2)[0]);
                }
                let inner = result.as_str().substring_char(p, q + 2);
                if !has_char(inner, '#') && !has_char(inner, '/') {
                    let mut next = String::from_str(result.as_str().substring_char(0, p));
                    next.append(result.as_str().substring_char(q + 2, n));
                    result = next;
                    continue;
                }
            },
            None => {},
        }
        start = p + 2;
    }
}

/// Fills the placeholders of each argument, in the arguments' order.
pub fn substitute_arguments(text: &str, args: &Vec<(String, String)>) -> (r: String)
    ensures
        r@ == substitute(text@, args@),
{
    let mut result = String::from_str(text);
    let mut i: usize = 0;
    assert(args@.subrange(0, args@.len() as int) =~= args@);
    while i < args.len()
        invariant
            i <= args@.len(),
            substitute(result@, args@.subrange(i as int, args@.len() as int)) == substitute(text@, args@),
        decreases args@.len() - i,
    {
        let ghost tail = args@.subrange(i as int, args@.len() as int);
        assert(tail.drop_first() =~= args@.subrange(i as int + 1, args@.len() as int));
        let mut ph = String::from_str("{{");
        ph.append(args[i].0.as_str());
        ph.append("}}");
        proof {
            reveal_strlit("{{");
            reveal_strlit("}}");
            assert(ph@ =~= placeholder(args@[i as int].0@));
        }
        result = replace_text(result.as_str(), ph.as_str(), args[i].1.as_str());
        i = i + 1;
    }
    assert(args@.subrange(i as int, args@.len() as int) =~= Seq::<(String, String)>::empty());
    result
}

impl PromptTemplate {
    pub fn new(name: &str, description: Option<String>, arguments: Vec<crate::prompts::PromptArgument>, template: &str) -> (r: PromptTemplate)
        ensures
            r.name@ == name@,
            r.description == description,
            r.arguments@ == arguments@,
            r.template@ == template@,
    {
        PromptTemplate {
            name: String::from_str(name),
            description,
            arguments,
            template: String::from_str(template),
        }
    }

    /// Renders the template: resolves its conditional blocks, fills its
    /// placeholders, and removes those left unfilled.
    pub fn render(&self, arguments: &Vec<(String, String)>) -> (r: Result<String, PromptError>)
        ensures
            match render_spec(self.template@, arguments@) {
                Ok(c) => r is Ok && r->Ok_0@ == c,
                Err(m) => r is Err && r->Err_0 is TemplateError && r->Err_0->TemplateError_0@ == m,
            },
    {
        let resolved = process_conditionals(self.template.as_str(), arguments)?;
        let filled = substitute_arguments(resolved.as_str(), arguments);
        Ok(clean_unmatched_placeholders(filled.as_str()))
    }
}

/// Index of the first template named `name`.
pub open spec fn template_index(ps: Seq<PromptTemplate>, name: Seq<char>) -> Option<int>
    decreases ps.len(),
{
    if ps.len() == 0 {
        None
    } else if ps.last().name@ == name {
        match template_index(ps.drop_last(), name) {
            Some(i) => Some(i),
            None => Some(ps.len() - 1),
        }
    } else {
        template_index(ps.drop_last(), name)
    }
}

/// Index of the first required parameter that `args` does not name.
pub open spec fn first_missing(params: Seq<PromptArgument>, args: Seq<(String, String)>) -> Option<int>
    decreases params.len(),
{
    if params.len() == 0 {
        None
    } else {
        match first_missing(params.drop_last(), args) {
            Some(i) => Some(i),
            None => if params.last().required == Some(true) && arg_value(args, params.last().name@) is None {
                Some(params.len() - 1)
            } else {
                None
            },
        }
    }
}

/// A rendered prompt: the template's description and the text.
#[derive(Debug, Clone)]
pub struct RenderedPrompt {
    pub description: Option<String>,
    pub content: String,
}

/// Holds the prompt templates and renders them on request.
pub struct PromptService {
    pub config: PromptsConfig,
    pub prompts: Vec<PromptTemplate>,
}

fn find_template(ps: &Vec<PromptTemplate>, name: &str) -> (r: Option<usize>)
    ensures
        match r {
            Some(i) => template_index(ps@, name@) == Some(i as int),
            None => template_index(ps@, name@) is None,
        },
{
    let mut i: usize = 0;
    while i < ps.len()
        invariant
            i <= ps@.len(),
            template_index(ps@.subrange(0, i as int), name@) is None,
        decreases ps@.len() - i,
    {
        proof {
            assert(ps@.subrange(0, i as int + 1).drop_last() =~= ps@.subrange(0, i as int));
        }
        if str_equals(ps[i].name.as_str(), name) {
            proof { lemma_template_index_prefix(ps@, i as int + 1, name@); }
            return Some(i);
        }
        i = i + 1;
    }
    assert(ps@.subrange(0, i as int) =~= ps@);
    None
}

/// A name first found in a prefix is first found there in the whole list.
proof fn lemma_template_index_prefix(ps: Seq<PromptTemplate>, k: int, name: Seq<char>)
    requires
        0 <= k <= ps.len(),
        template_index(ps.subrange(0, k), name) is Some,
    ensures
        template_index(ps, name) == template_index(ps.subrange(0, k), name),
    decreases ps.len() - k,
{
    if k < ps.len() {
        assert(ps.subrange(0, k + 1).drop_last() =~= ps.subrange(0, k));
        lemma_template_index_prefix(ps, k + 1, name);
    } else {
        assert(ps.subrange(0, k) =~= ps);
    }
}

fn check_required(params: &Vec<PromptArgument>, args: &Vec<(String, String)>) -> (r: Option<usize>)
    ensures
        match r {
            Some(i) => first_missing(params@, args@) == Some(i as int),
            None => first_missing(params@, args@) is None,
        },
{
    let mut i: usize = 0;
    while i < params.len()
        invariant
            i <= params@.len(),
            first_missing(params@.subrange(0, i as int), args@) is None,
        decreases params@.len() - i,
    {
        proof {
            assert(params@.subrange(0, i as int + 1).drop_last() =~= params@.subrange(0, i as int));
        }
        let required = match params[i].required {
            Some(b) => b,
            None => false,
        };
        if required && lookup(args, params[i].name.as_str()).is_none() {
            proof { lemma_first_missing_prefix(params@, i as int + 1, args@); }
            return Some(i);
        }
        i = i + 1;
    }
    assert(params@.subrange(0, i as int) =~= params@);
    None
}

proof fn lemma_first_missing_prefix(params: Seq<PromptArgument>, k: int, args: Seq<(String, String)>)
    requires
        0 <= k <= params.len(),
        first_missing(params.subrange(0, k), args) is Some,
    ensures
        first_missing(params, args) == first_missing(params.subrange(0, k), args),
    decreases params.len() - k,
{
    if k < params.len() {
        assert(params.subrange(0, k + 1).drop_last() =~= params.subrange(0, k));
        lemma_first_missing_prefix(params, k + 1, args);
    } else {
        assert(params.subrange(0, k) =~= params);
    }
}

impl PromptService {
    /// A service holding every built-in prompt.
    pub fn new(config: PromptsConfig) -> (r: PromptService)
        ensures
            r.prompts@.len() == 4,
            r.prompts@[0].name@ == "greeting"@,
            r.prompts@[1].name@ == "code_review"@,
            r.prompts@[2].name@ == "explain"@,
            r.prompts@[3].name@ == "summarize"@,
    {
        PromptService { config, prompts: get_all_prompts() }
    }

    /// Adds a template, replacing one of the same name.
    pub fn register_prompt(&mut self, template: PromptTemplate)
        ensures
            template_index(old(self).prompts@, template.name@) is Some ==> final(self).prompts@
                == old(self).prompts@.update(template_index(old(self).prompts@, template.name@)->Some_0, template),
            template_index(old(self).prompts@, template.name@) is None ==> final(self).prompts@
                == old(self).prompts@.push(template),
    {
        match find_template(&self.prompts, template.name.as_str()) {
            Some(i) => {
                proof { lemma_index_in_range(self.prompts@, template.name@); }
                self.prompts.set(i, template);
            },
            None => self.prompts.push(template),
        }
    }

    /// Names of the available prompts.
    pub fn prompt_names(&self) -> (r: Vec<String>)
        ensures
            r@.len() == self.prompts@.len(),
            forall|i: int| 0 <= i < r@.len() ==> (#[trigger] r@[i])@ == self.prompts@[i].name@,
    {
        let mut v: Vec<String> = Vec::new();
        let mut i: usize = 0;
        while i < self.prompts.len()
            invariant
                i <= self.prompts@.len(),
                v@.len() == i,
                forall|j: int| 0 <= j < i ==> (#[trigger] v@[j])@ == self.prompts@[j].name@,
            decreases self.prompts@.len() - i,
        {
            v.push(self.prompts[i].name.clone());
            i = i + 1;
        }
        v
    }

    /// Renders the prompt named `name` with `arguments` (none: no
    /// arguments). Fails when no prompt has that name, when a required
    /// argument is missing (the first, in the prompt's order), or when the
    /// template is malformed.
    pub fn get_prompt(&self, name: &str, arguments: Option<Vec<(String, String)>>) -> (r: Result<RenderedPrompt, PromptError>)
        ensures
            template_index(self.prompts@, name@) is None ==> r is Err && r->Err_0 is NotFound
                && r->Err_0->NotFound_0@ == name@,
            template_index(self.prompts@, name@) is Some ==> ({
                let t = self.prompts@[template_index(self.prompts@, name@)->Some_0];
                let args = match arguments { Some(a) => a@, None => Seq::<(String, String)>::empty() };
                match first_missing(t.arguments@, args) {
                    Some(i) => r is Err && r->Err_0 is MissingArgument
                        && r->Err_0->MissingArgument_0@ == t.arguments@[i].name@,
                    None => match render_spec(t.template@, args) {
                        Ok(c) => r is Ok && r->Ok_0.content@ == c && r->Ok_0.description == t.description,
                        Err(m) => r is Err && r->Err_0 is TemplateError && r->Err_0->TemplateError_0@ == m,
                    },
                }
            }),
    {
        let i = match find_template(&self.prompts, name) {
            Some(i) => i,
            None => return Err(PromptError::not_found(String::from_str(name))),
        };
        proof { lemma_index_in_range(self.prompts@, name@); }
        let args = match arguments {
            Some(a) => a,
            None => Vec::new(),
        };
        let t = &self.prompts[i];
        if let Some(k) = check_required(&t.arguments, &args) {
            proof { lemma_missing_in_range(t.arguments@, args@); }
            return Err(PromptError::missing_argument(t.arguments[k].name.clone()));
        }
        let content = t.render(&args)?;
        Ok(RenderedPrompt { description: t.description.clone(), content })
    }
}

proof fn lemma_index_in_range(ps: Seq<PromptTemplate>, name: Seq<char>)
    ensures
        template_index(ps, name) is Some ==> 0 <= template_index(ps, name)->Some_0 < ps.len(),
    decreases ps.len(),
{
    if ps.len() > 0 {
        lemma_index_in_range(ps.drop_last(), name);
    }
}

proof fn lemma_missing_in_range(params: Seq<PromptArgument>, args: Seq<(String, String)>)
    ensures
        first_missing(params, args) is Some ==> 0 <= first_missing(params, args)->Some_0 < params.len(),
    decreases params.len(),
{
    if params.len() > 0 {
        lemma_missing_in_range(params.drop_last(), args);
    }
}

} // verus!
