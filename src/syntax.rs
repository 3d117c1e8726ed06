use vstd::prelude::*;
use crate::backends::ParsedFile;
use crate::imports::opt_view;
use crate::typescript::TypeScriptBackend;

verus! {

#[verifier::external_type_specification]
#[verifier::external_body]
pub struct ExParser(tree_sitter::Parser);

#[verifier::external_type_specification]
#[verifier::external_body]
pub struct ExTree(tree_sitter::Tree);

#[verifier::external_type_specification]
#[verifier::external_body]
pub struct ExQuery(tree_sitter::Query);

#[verifier::external_type_specification]
#[verifier::external_body]
pub struct ExQueryError(tree_sitter::QueryError);

#[verifier::external_type_specification]
#[verifier::external_body]
pub struct ExLanguageError(tree_sitter::LanguageError);

/// Whether the TypeScript grammar accepts a query pattern.
pub uninterp spec fn query_compiles(pattern: Seq<char>) -> bool;

/// The index of a capture name in the compiled pattern, if the pattern has it.
pub uninterp spec fn capture_index_of(pattern: Seq<char>, name: Seq<char>) -> Option<u32>;

/// The matches of a compiled pattern over the TypeScript syntax tree of
/// `source`, each capture given as (index, row, column, text).
pub uninterp spec fn query_matches(pattern: Seq<char>, source: Seq<char>) -> Seq<
    Seq<(u32, usize, usize, Option<Seq<char>>)>,
>;

/// One capture of a query match: the index of its capture name in the query,
/// where the captured node starts (zero-based row, and column in bytes), and
/// the source text it spans (`None` where that span is not a valid slice of
/// the source).
pub struct RawCapture {
    pub index: u32,
    pub row: usize,
    pub column: usize,
    pub text: Option<String>,
}

impl View for RawCapture {
    type V = (u32, usize, usize, Option<Seq<char>>);

    open spec fn view(&self) -> (u32, usize, usize, Option<Seq<char>>) {
        (self.index, self.row, self.column, opt_view(self.text))
    }
}

pub open spec fn raws_view(ms: Seq<Vec<RawCapture>>) -> Seq<Seq<(u32, usize, usize, Option<Seq<char>>)>> {
    ms.map_values(|m: Vec<RawCapture>| m@.map_values(|c: RawCapture| c@))
}

/// A compiled query, with the pattern it was compiled from.
pub struct CompiledQuery {
    query: tree_sitter::Query,
    pattern: Ghost<Seq<char>>,
}

impl CompiledQuery {
    pub closed spec fn spec_pattern(&self) -> Seq<char> {
        self.pattern@
    }
}

/// Relies on tree_sitter::Parser::new, which creates a parser without a language.
pub assume_specification[ tree_sitter::Parser::new ]() -> tree_sitter::Parser;

/// Relies on tree_sitter::Parser::set_language with
/// tree_sitter_typescript::language_typescript: the grammar's ABI version (14)
/// lies within what this tree-sitter accepts (13 to 14), so it always succeeds.
#[verifier::external_body]
pub(crate) fn set_typescript_language(parser: &mut tree_sitter::Parser) -> (r: Result<
    (),
    tree_sitter::LanguageError,
>)
    ensures
        r is Ok,
{
    parser.set_language(tree_sitter_typescript::language_typescript())
}

/// Relies on tree_sitter::Parser::parse, which yields no tree only where the
/// parser has no language, or a timeout or cancellation flag stops it. A
/// backend's parser always has the TypeScript grammar (`new` is its only
/// constructor) and never has a timeout or cancellation flag.
#[verifier::external_body]
pub(crate) fn parse_text(backend: &mut TypeScriptBackend, text: &str) -> (r: Option<tree_sitter::Tree>)
    ensures
        r is Some,
{
    backend.parser.parse(text, None)
}

/// Relies on tree_sitter::Query::new with the TypeScript grammar: it compiles
/// `pattern` or reports why it cannot. A pattern that ends in `)` keeps it
/// from cutting an error's name past the pattern's end.
#[verifier::external_body]
fn compile_query(pattern: &str) -> (r: Result<tree_sitter::Query, tree_sitter::QueryError>)
    requires
        pattern@.len() > 0,
        pattern@.last() == ')',
    ensures
        r is Ok <==> query_compiles(pattern@),
{
    tree_sitter::Query::new(tree_sitter_typescript::language_typescript(), pattern)
}

/// Compiles `pattern`; an error where the grammar does not accept it.
pub fn compile(pattern: &str) -> (r: Result<CompiledQuery, ()>)
    requires
        pattern@.len() > 0,
        pattern@.last() == ')',
    ensures
        r is Ok <==> query_compiles(pattern@),
        r matches Ok(q) ==> q.spec_pattern() == pattern@,
{
    match compile_query(pattern) {
        Ok(query) => Ok(CompiledQuery { query, pattern: Ghost(pattern@) }),
        Err(_) => Err(()),
    }
}

/// Relies on tree_sitter::Query::capture_index_for_name: the position of
/// `name` among the capture names of the compiled pattern.
#[verifier::external_body]
pub(crate) fn capture_index(q: &CompiledQuery, name: &str) -> (r: Option<u32>)
    ensures
        r == capture_index_of(q.spec_pattern(), name@),
{
    q.query.capture_index_for_name(name)
}

/// Relies on tree_sitter::QueryCursor::matches: the matches of the query over
/// the file's tree, which was parsed from the file's own text, in the order the
/// cursor yields them, with their captures in the order it gives them.
#[verifier::external_body]
pub(crate) fn run_query(q: &CompiledQuery, file: &ParsedFile) -> (r: Vec<Vec<RawCapture>>)
    requires
        file.spec_tree() is Some,
    ensures
        raws_view(r@) == query_matches(q.spec_pattern(), file.spec_source_code()),
{
    let (tree, source) = (file.tree.as_ref().unwrap(), file.source_code.as_str());
    let mut cursor = tree_sitter::QueryCursor::new();
    cursor.matches(&q.query, tree.root_node(), source.as_bytes()).map(|m| {
        m.captures.iter().map(|c| {
            let range = c.node.range();
            let text = source.get(range.start_byte..range.end_byte).map(String::from);
            RawCapture { index: c.index, row: range.start_point.row, column: range.start_point.column, text }
        }).collect()
    }).collect()
}

} // verus!
