//! Stripping documentation comments from Rust source text, with the `regex` crate.
use vstd::prelude::*;

verus! {

#[verifier::external_type_specification]
#[verifier::external_body]
pub struct ExRegex(regex::Regex);

/// Whether `regex::Regex::new` accepts this pattern.
pub uninterp spec fn regex_compiles(pattern: Seq<char>) -> bool;

/// What `regex::Regex::replace_all` gives for the regex compiled from `pattern`, the
/// haystack and the replacement string.
pub uninterp spec fn regex_replace_all(pattern: Seq<char>, haystack: Seq<char>, replacement: Seq<char>) -> Seq<char>;

/// A regex together with the pattern it was compiled from. Its fields are private:
/// the only way to build one is `compile_pattern`, so `regex` is always the
/// compilation of `pattern`.
struct CompiledPattern {
    pattern: String,
    regex: regex::Regex,
}

impl CompiledPattern {
    closed spec fn pattern(&self) -> Seq<char> {
        self.pattern@
    }
}

/// Calls `regex::Regex::new`. It returns an error for an invalid pattern or one whose
/// compiled form exceeds the default size limit, both functions of the pattern
/// alone; which patterns those are is only named here.
#[verifier::external_body]
fn compile_pattern(pattern: &str) -> (res: Option<CompiledPattern>)
    ensures
        res is Some <==> regex_compiles(pattern@),
        res is Some ==> res->Some_0.pattern() == pattern@,
{
    match regex::Regex::new(pattern) {
        Ok(regex) => Some(CompiledPattern { pattern: pattern.to_string(), regex }),
        Err(_) => None,
    }
}

/// Calls `regex::Regex::replace_all`: every non-overlapping match in `haystack`
/// replaced by `replacement` (where `$name` expands a capture group). The result is
/// only named here.
#[verifier::external_body]
fn replace_all_matches(re: &CompiledPattern, haystack: &str, replacement: &str) -> (res: String)
    ensures
        res@ == regex_replace_all(re.pattern(), haystack@, replacement@),
{
    re.regex.replace_all(haystack, replacement).into_owned()
}

/// Documentation block comments: `/** .. */` and `/*! .. */`, over any number of
/// lines, each ending at the first `*/`.
pub const DOC_BLOCK_PATTERN: &'static str = r"(?s)/\*[\*!].*?\*/";

/// Documentation line comments: `///` and `//!` up to the end of the line.
pub const DOC_LINE_PATTERN: &'static str = r"(?m)///.*$|//!.*$";

/// Both patterns compile.
pub open spec fn doc_patterns_compile() -> bool {
    regex_compiles(DOC_BLOCK_PATTERN@) && regex_compiles(DOC_LINE_PATTERN@)
}

/// The source with its documentation block comments removed.
pub open spec fn without_doc_block_comments(source: Seq<char>) -> Seq<char> {
    regex_replace_all(DOC_BLOCK_PATTERN@, source, ""@)
}

/// The source with its documentation line comments removed.
pub open spec fn without_doc_line_comments(source: Seq<char>) -> Seq<char> {
    regex_replace_all(DOC_LINE_PATTERN@, source, ""@)
}

/// Removes every match of `pattern`, which must compile.
fn remove_matches(pattern: &str, source: &str) -> (res: String)
    requires
        regex_compiles(pattern@),
    ensures
        res@ == regex_replace_all(pattern@, source@, ""@),
{
    match compile_pattern(pattern) {
        Some(re) => replace_all_matches(&re, source, ""),
        None => String::new(),
    }
}

/// Removes documentation block comments (`/** */` and `/*! */`).
pub fn remove_doc_block_comments(source: &str) -> (res: String)
    requires
        regex_compiles(DOC_BLOCK_PATTERN@),
    ensures
        res@ == without_doc_block_comments(source@),
{
    remove_matches(DOC_BLOCK_PATTERN, source)
}

/// Removes documentation line comments (`///` and `//!`).
pub fn remove_doc_singleline_comments(source: &str) -> (res: String)
    requires
        regex_compiles(DOC_LINE_PATTERN@),
    ensures
        res@ == without_doc_line_comments(source@),
{
    remove_matches(DOC_LINE_PATTERN, source)
}

/// Removes documentation comments: block comments first, then line comments.
pub fn remove_doc_comments(source: &str) -> (res: String)
    requires
        doc_patterns_compile(),
    ensures
        res@ == without_doc_line_comments(without_doc_block_comments(source@)),
{
    let content = remove_doc_block_comments(source);
    remove_doc_singleline_comments(content.as_str())
}

/// `remove_doc_comments`, or `None` where one of the two patterns does not compile.
pub fn try_remove_doc_comments(source: &str) -> (res: Option<String>)
    ensures
        res is Some <==> doc_patterns_compile(),
        res is Some ==> res->Some_0@ == without_doc_line_comments(
            without_doc_block_comments(source@),
        ),
{
    let block = compile_pattern(DOC_BLOCK_PATTERN);
    let line = compile_pattern(DOC_LINE_PATTERN);
    if block.is_some() && line.is_some() {
        Some(remove_doc_comments(source))
    } else {
        None
    }
}

} // verus!
