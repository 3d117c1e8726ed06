use vstd::prelude::*;
use crate::syntax::parse_text;
use crate::typescript::TypeScriptBackend;

verus! {

/// The failure of a step that the analysis cannot go on without: a grammar
/// that does not load, or a query pattern that does not compile.
#[derive(Debug, Clone, Copy, PartialEq, Eq, Structural)]
pub struct ParserError;

pub const PARSER_ERROR_MESSAGE: &'static str = "An error has occurred while parsing the source file.";

impl ParserError {
    /// The text that reports this error.
    pub fn message(&self) -> (r: String)
        ensures
            r@ == PARSER_ERROR_MESSAGE@,
    {
        String::from_str(PARSER_ERROR_MESSAGE)
    }
}

/// A file that was read: its path, its text, and its syntax tree where the
/// parser could produce one.
#[derive(Debug)]
pub struct ParsedFile {
    pub(crate) tree: Option<tree_sitter::Tree>,
    pub(crate) source_code: String,
    source_path: String,
}

/// A file's path and the text read from it.
pub struct SourceFile {
    pub path: String,
    pub source_code: String,
}

impl ParsedFile {
    pub closed spec fn spec_source_code(&self) -> Seq<char> {
        self.source_code@
    }

    pub closed spec fn spec_source_path(&self) -> Seq<char> {
        self.source_path@
    }

    pub closed spec fn spec_tree(&self) -> Option<tree_sitter::Tree> {
        self.tree
    }

    /// Parses `source_code` with the backend's parser; the file keeps its
    /// path, its text and the tree of that text.
    pub(crate) fn parse(backend: &mut TypeScriptBackend, source_code: String, source_path: String) -> (r: ParsedFile)
        ensures
            r.spec_tree() is Some,
            r.spec_source_code() == source_code@,
            r.spec_source_path() == source_path@,
    {
        let tree = parse_text(backend, source_code.as_str());
        ParsedFile { tree, source_code, source_path }
    }

    pub fn get_parse_tree(&self) -> (r: &Option<tree_sitter::Tree>)
        ensures
            *r == self.spec_tree(),
    {
        &self.tree
    }

    pub fn get_source_code(&self) -> (r: &String)
        ensures
            r@ == self.spec_source_code(),
    {
        &self.source_code
    }

    pub fn get_source_path(&self) -> (r: &String)
        ensures
            r@ == self.spec_source_path(),
    {
        &self.source_path
    }
}

/// The files read under one directory, in the order they were found.
pub struct ParsedDirectory {
    directory: String,
    parsed_files: Vec<ParsedFile>,
}

impl ParsedDirectory {
    pub closed spec fn spec_directory(&self) -> Seq<char> {
        self.directory@
    }

    pub closed spec fn spec_files(&self) -> Seq<ParsedFile> {
        self.parsed_files@
    }

    pub(crate) fn new(directory: String, parsed_files: Vec<ParsedFile>) -> (r: ParsedDirectory)
        ensures
            r.spec_directory() == directory@,
            r.spec_files() == parsed_files@,
    {
        ParsedDirectory { directory, parsed_files }
    }

    pub fn get_directory(&self) -> (r: &String)
        ensures
            r@ == self.spec_directory(),
    {
        &self.directory
    }

    pub fn get_parsed_files(&self) -> (r: &Vec<ParsedFile>)
        ensures
            r@ == self.spec_files(),
    {
        &self.parsed_files
    }
}

} // verus!
