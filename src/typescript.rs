use vstd::prelude::*;
use crate::backends::{ParsedDirectory, ParsedFile, ParserError, SourceFile};
use crate::imports::{
    CaptureRole, ImportCapture, ImportView, TypeScriptImport, opt_view, captures_view, imports_of, matches_view,
    reconstruct_imports, records_view,
};
use crate::syntax::{
    RawCapture, capture_index, capture_index_of, compile, query_compiles, query_matches, raws_view, run_query,
    set_typescript_language,
};

verus! {

/// Matches a whole import statement that has an import clause. A default
/// binding and each named specifier are captured as `named_import`, each
/// specifier also as `import_with_alias`, the name after `* as` as
/// `namespace_import`, the name after `as` as `alias`, the module path as
/// `source` and the statement as `import`.
pub const IMPORT_PATTERN: &'static str = "((import_statement
  \"import\"
  (import_clause ((identifier)? @named_import
    (namespace_import (identifier) @namespace_import)?
    (named_imports ((((import_specifier [(identifier) (string)]+ @named_import (\"as\" ([(identifier) (string)] @alias))?)) @import_with_alias) \",\"?)*)?))
  (string) @source
) @import)";

pub const CALL_PATTERN_HEAD: &'static str = "((call_expression
  function: [
    (identifier) @function
    (member_expression
      property: (property_identifier) @method)]
  (#eq? @function \"";

pub const CALL_PATTERN_MID: &'static str = "\")
  (#eq? @method \"";

pub const CALL_PATTERN_TAIL: &'static str = "\")))";

/// A parser for TypeScript source.
pub struct TypeScriptBackend {
    pub(crate) parser: tree_sitter::Parser,
}

/// The capture indices of the import pattern, by capture name.
pub struct ImportCaptureIndices {
    pub import: u32,
    pub import_with_alias: u32,
    pub named_import: u32,
    pub namespace_import: u32,
    pub source: u32,
    pub alias: u32,
}

/// Where a call of the target symbol was found.
pub struct CallSite {
    /// Zero-based row of the captured name.
    pub line: usize,
    /// Zero-based column, in bytes, of the captured name.
    pub column: usize,
    /// The captured name as it stands in the source.
    pub text: String,
}

pub struct CallSiteView {
    pub line: usize,
    pub column: usize,
    pub text: Seq<char>,
}

impl View for CallSite {
    type V = CallSiteView;

    open spec fn view(&self) -> CallSiteView {
        CallSiteView { line: self.line, column: self.column, text: self.text@ }
    }
}

/// The text of a capture; a span that could not be read counts as empty.
pub open spec fn capture_text(t: Option<Seq<char>>) -> Seq<char> {
    match t {
        Some(s) => s,
        None => Seq::empty(),
    }
}

/// The role of the capture with index `index`, the names tried in a fixed order.
pub open spec fn role_of(index: u32, ix: ImportCaptureIndices) -> CaptureRole {
    if index == ix.import {
        CaptureRole::StatementStart
    } else if index == ix.import_with_alias {
        CaptureRole::SpecifierGroup
    } else if index == ix.named_import {
        CaptureRole::NamedBinding
    } else if index == ix.namespace_import {
        CaptureRole::NamespaceBinding
    } else if index == ix.source {
        CaptureRole::ModuleSource
    } else if index == ix.alias {
        CaptureRole::Alias
    } else {
        CaptureRole::Other
    }
}

pub open spec fn classify_match(m: Seq<(u32, usize, usize, Option<Seq<char>>)>, ix: ImportCaptureIndices) -> Seq<(CaptureRole, Seq<char>)> {
    m.map_values(|c: (u32, usize, usize, Option<Seq<char>>)| (role_of(c.0, ix), capture_text(c.3)))
}

pub open spec fn classify_matches(ms: Seq<Seq<(u32, usize, usize, Option<Seq<char>>)>>, ix: ImportCaptureIndices) -> Seq<Seq<(CaptureRole, Seq<char>)>> {
    ms.map_values(|m: Seq<(u32, usize, usize, Option<Seq<char>>)>| classify_match(m, ix))
}

pub open spec fn site_of(c: (u32, usize, usize, Option<Seq<char>>)) -> CallSiteView {
    CallSiteView { line: c.1, column: c.2, text: capture_text(c.3) }
}

/// Every capture of every match as a call site, in order.
pub open spec fn sites_of(ms: Seq<Seq<(u32, usize, usize, Option<Seq<char>>)>>) -> Seq<CallSiteView>
    decreases ms.len(),
{
    if ms.len() == 0 {
        Seq::empty()
    } else {
        sites_of(ms.drop_last()) + ms.last().map_values(|c: (u32, usize, usize, Option<Seq<char>>)| site_of(c))
    }
}

/// The import pattern compiles and has each of its six capture names.
pub open spec fn import_query_ready() -> bool {
    &&& query_compiles(IMPORT_PATTERN@)
    &&& capture_index_of(IMPORT_PATTERN@, "import"@) is Some
    &&& capture_index_of(IMPORT_PATTERN@, "import_with_alias"@) is Some
    &&& capture_index_of(IMPORT_PATTERN@, "named_import"@) is Some
    &&& capture_index_of(IMPORT_PATTERN@, "namespace_import"@) is Some
    &&& capture_index_of(IMPORT_PATTERN@, "source"@) is Some
    &&& capture_index_of(IMPORT_PATTERN@, "alias"@) is Some
}

/// The capture indices of the compiled import pattern.
pub open spec fn import_indices() -> ImportCaptureIndices {
    ImportCaptureIndices {
        import: capture_index_of(IMPORT_PATTERN@, "import"@)->0,
        import_with_alias: capture_index_of(IMPORT_PATTERN@, "import_with_alias"@)->0,
        named_import: capture_index_of(IMPORT_PATTERN@, "named_import"@)->0,
        namespace_import: capture_index_of(IMPORT_PATTERN@, "namespace_import"@)->0,
        source: capture_index_of(IMPORT_PATTERN@, "source"@)->0,
        alias: capture_index_of(IMPORT_PATTERN@, "alias"@)->0,
    }
}

/// The import records of a file: those its tree's matches of the import
/// pattern yield, and none where it has no tree.
pub open spec fn file_imports(has_tree: bool, source: Seq<char>) -> Seq<ImportView> {
    if has_tree {
        imports_of(classify_matches(query_matches(IMPORT_PATTERN@, source), import_indices()))
    } else {
        Seq::empty()
    }
}

/// The call sites of `name` in a file, and none where it has no tree.
pub open spec fn file_call_sites(has_tree: bool, source: Seq<char>, name: Seq<char>) -> Seq<CallSiteView> {
    if has_tree {
        sites_of(query_matches(call_pattern(name), source))
    } else {
        Seq::empty()
    }
}

pub open spec fn sites_view(s: Seq<CallSite>) -> Seq<CallSiteView> {
    s.map_values(|c: CallSite| c@)
}

pub open spec fn call_pattern(name: Seq<char>) -> Seq<char> {
    CALL_PATTERN_HEAD@ + name + CALL_PATTERN_MID@ + name + CALL_PATTERN_TAIL@
}

fn text_of(t: &Option<String>) -> (r: String)
    ensures
        r@ == capture_text(opt_view(*t)),
{
    match t {
        Some(s) => s.clone(),
        None => String::new(),
    }
}

pub fn classify(index: u32, ix: &ImportCaptureIndices) -> (r: CaptureRole)
    ensures
        r == role_of(index, *ix),
{
    if index == ix.import {
        CaptureRole::StatementStart
    } else if index == ix.import_with_alias {
        CaptureRole::SpecifierGroup
    } else if index == ix.named_import {
        CaptureRole::NamedBinding
    } else if index == ix.namespace_import {
        CaptureRole::NamespaceBinding
    } else if index == ix.source {
        CaptureRole::ModuleSource
    } else if index == ix.alias {
        CaptureRole::Alias
    } else {
        CaptureRole::Other
    }
}

fn classify_all(m: &Vec<RawCapture>, ix: &ImportCaptureIndices) -> (r: Vec<ImportCapture>)
    ensures
        captures_view(r@) == classify_match(m@.map_values(|c: RawCapture| c@), *ix),
{
    let mut out: Vec<ImportCapture> = Vec::new();
    let mut i: usize = 0;
    while i < m.len()
        invariant
            i <= m@.len(),
            out@.len() == i,
            forall|j: int| 0 <= j < i ==> #[trigger] out@[j]@ == (role_of(m@[j].index, *ix), capture_text(opt_view(m@[j].text))),
        decreases m@.len() - i,
    {
        out.push(ImportCapture { role: classify(m[i].index, ix), text: text_of(&m[i].text) });
        i = i + 1;
    }
    assert(captures_view(out@) =~= classify_match(m@.map_values(|c: RawCapture| c@), *ix));
    out
}

/// The import records that the matches of the import pattern yield, each
/// capture taken in the role that its index gives it.
pub fn imports_from_matches(raw: &Vec<Vec<RawCapture>>, ix: &ImportCaptureIndices) -> (r: Vec<TypeScriptImport>)
    ensures
        records_view(r@) == imports_of(classify_matches(raws_view(raw@), *ix)),
{
    let mut classified: Vec<Vec<ImportCapture>> = Vec::new();
    let mut i: usize = 0;
    while i < raw.len()
        invariant
            i <= raw@.len(),
            classified@.len() == i,
            forall|j: int| 0 <= j < i ==> captures_view(#[trigger] classified@[j]@) == classify_match(raw@[j]@.map_values(|c: RawCapture| c@), *ix),
        decreases raw@.len() - i,
    {
        classified.push(classify_all(&raw[i], ix));
        i = i + 1;
    }
    assert(matches_view(classified@) =~= classify_matches(raws_view(raw@), *ix));
    reconstruct_imports(&classified)
}

/// Every capture of the call pattern's matches as a call site, in order.
pub fn call_sites_from_matches(raw: &Vec<Vec<RawCapture>>) -> (r: Vec<CallSite>)
    ensures
        sites_view(r@) == sites_of(raws_view(raw@)),
{
    let mut out: Vec<CallSite> = Vec::new();
    let mut i: usize = 0;
    assert(raws_view(raw@.take(0)) =~= Seq::empty());
    assert(sites_view(out@) =~= Seq::empty());
    while i < raw.len()
        invariant
            i <= raw@.len(),
            sites_view(out@) == sites_of(raws_view(raw@.take(i as int))),
        decreases raw@.len() - i,
    {
        let m = &raw[i];
        let ghost before = sites_view(out@);
        let mut k: usize = 0;
        while k < m.len()
            invariant
                k <= m@.len(),
                m == raw@[i as int],
                sites_view(out@) == before + m@.take(k as int).map_values(|c: RawCapture| site_of(c@)),
            decreases m@.len() - k,
        {
            let ghost mid = sites_view(out@);
            out.push(CallSite { line: m[k].row, column: m[k].column, text: text_of(&m[k].text) });
            assert(m@.take(k + 1).map_values(|c: RawCapture| site_of(c@)) =~= m@.take(k as int).map_values(
                |c: RawCapture| site_of(c@),
            ).push(site_of(m@[k as int]@)));
            assert(sites_view(out@) =~= mid.push(site_of(m@[k as int]@)));
            k = k + 1;
        }
        assert(m@.take(m@.len() as int) =~= m@);
        assert(raws_view(raw@.take(i + 1)).drop_last() =~= raws_view(raw@.take(i as int)));
        assert(m@.map_values(|c: RawCapture| site_of(c@)) =~= raws_view(raw@.take(i + 1)).last().map_values(
            |c: (u32, usize, usize, Option<Seq<char>>)| site_of(c),
        ));
        i = i + 1;
    }
    assert(raw@.take(raw@.len() as int) =~= raw@);
    out
}

/// The pattern that matches calls of `name`, as a function or as a method.
pub fn call_pattern_for(name: &str) -> (r: String)
    ensures
        r@ == call_pattern(name@),
{
    let mut p = String::from_str(CALL_PATTERN_HEAD);
    p.append(name);
    p.append(CALL_PATTERN_MID);
    p.append(name);
    p.append(CALL_PATTERN_TAIL);
    p
}

impl TypeScriptBackend {
    /// A backend whose parser reads TypeScript.
    pub fn new() -> (r: Result<TypeScriptBackend, ParserError>)
        ensures
            r is Ok,
    {
        let mut parser = tree_sitter::Parser::new();
        match set_typescript_language(&mut parser) {
            Ok(()) => Ok(TypeScriptBackend { parser }),
            Err(_) => Err(ParserError),
        }
    }

    /// Parses each file that was read under `directory`. Every file is kept,
    /// in the order given, with its path, its text and the tree of that text.
    pub fn parse_files(&mut self, directory: String, files: Vec<SourceFile>) -> (r: ParsedDirectory)
        ensures
            r.spec_directory() == directory@,
            r.spec_files().len() == files@.len(),
            forall|i: int|
                0 <= i < files@.len() ==> {
                    &&& (#[trigger] r.spec_files()[i]).spec_source_path() == files@[i].path@
                    &&& r.spec_files()[i].spec_source_code() == files@[i].source_code@
                    &&& r.spec_files()[i].spec_tree() is Some
                },
    {
        let mut parsed: Vec<ParsedFile> = Vec::new();
        let mut i: usize = 0;
        while i < files.len()
            invariant
                i <= files@.len(),
                parsed@.len() == i,
                forall|j: int|
                    0 <= j < i ==> {
                        &&& (#[trigger] parsed@[j]).spec_source_path() == files@[j].path@
                        &&& parsed@[j].spec_source_code() == files@[j].source_code@
                        &&& parsed@[j].spec_tree() is Some
                    },
            decreases files@.len() - i,
        {
            let file = &files[i];
            parsed.push(ParsedFile::parse(self, file.source_code.clone(), file.path.clone()));
            i = i + 1;
        }
        ParsedDirectory::new(directory, parsed)
    }

    /// The imports of a parsed file: the records that its tree's matches of
    /// the import pattern yield. A statement without an import clause
    /// (`import "x"`) does not match, and yields no record.
    pub fn get_imports_in_tree(file: &ParsedFile) -> (r: Result<Vec<TypeScriptImport>, ParserError>)
        ensures
            r is Ok <==> import_query_ready(),
            r matches Ok(v) ==> records_view(v@) == file_imports(
                file.spec_tree() is Some,
                file.spec_source_code(),
            ),
    {
        proof {
            reveal_strlit("((import_statement
  \"import\"
  (import_clause ((identifier)? @named_import
    (namespace_import (identifier) @namespace_import)?
    (named_imports ((((import_specifier [(identifier) (string)]+ @named_import (\"as\" ([(identifier) (string)] @alias))?)) @import_with_alias) \",\"?)*)?))
  (string) @source
) @import)");
        }
        let query = match compile(IMPORT_PATTERN) {
            Ok(q) => q,
            Err(_) => return Err(ParserError),
        };
        let ix = match (
            capture_index(&query, "import"),
            capture_index(&query, "import_with_alias"),
            capture_index(&query, "named_import"),
            capture_index(&query, "namespace_import"),
            capture_index(&query, "source"),
            capture_index(&query, "alias"),
        ) {
            (Some(a), Some(b), Some(c), Some(d), Some(e), Some(f)) => ImportCaptureIndices {
                import: a,
                import_with_alias: b,
                named_import: c,
                namespace_import: d,
                source: e,
                alias: f,
            },
            _ => return Err(ParserError),
        };
        if file.get_parse_tree().is_none() {
            return Ok(Vec::new());
        }
        let raw = run_query(&query, file);
        Ok(imports_from_matches(&raw, &ix))
    }

    /// The places in a parsed file where `function_name` is called, as a
    /// function or as a method; an error where the pattern for that name does
    /// not compile.
    pub fn get_function_calls_in_tree(file: &ParsedFile, function_name: &str) -> (r: Result<Vec<CallSite>, ParserError>)
        ensures
            r is Ok <==> query_compiles(call_pattern(function_name@)),
            r matches Ok(v) ==> sites_view(v@) == file_call_sites(
                file.spec_tree() is Some,
                file.spec_source_code(),
                function_name@,
            ),
    {
        let pattern = call_pattern_for(function_name);
        proof {
            reveal_strlit("\")))");
            assert(CALL_PATTERN_TAIL@.last() == ')');
            assert(pattern@.last() == CALL_PATTERN_TAIL@.last());
        }
        let query = match compile(pattern.as_str()) {
            Ok(q) => q,
            Err(_) => return Err(ParserError),
        };
        if file.get_parse_tree().is_none() {
            return Ok(Vec::new());
        }
        let raw = run_query(&query, file);
        Ok(call_sites_from_matches(&raw))
    }
}

} // verus!
