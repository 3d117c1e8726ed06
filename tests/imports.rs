use code_analyser::backends::SourceFile;
use code_analyser::imports::{
    reconstruct_imports, reconstruct_match, CaptureRole, ImportCapture, TypeScriptImport,
    TypeScriptImportType,
};
use code_analyser::syntax::RawCapture;
use code_analyser::typescript::{imports_from_matches, ImportCaptureIndices, TypeScriptBackend};

fn imports_of_source(source: &str) -> Vec<TypeScriptImport> {
    let mut backend = TypeScriptBackend::new().expect("grammar loads");
    let dir = backend.parse_files(
        String::from("root"),
        vec![SourceFile { path: String::from("root/a.ts"), source_code: String::from(source) }],
    );
    let file = &dir.get_parsed_files()[0];
    assert!(file.get_parse_tree().is_some());
    TypeScriptBackend::get_imports_in_tree(file).expect("pattern compiles")
}

fn cap(role: CaptureRole, text: &str) -> ImportCapture {
    ImportCapture { role, text: String::from(text) }
}

#[test]
fn named_imports_with_alias() {
    let imports = imports_of_source("import { a, b as c } from \"mod\";\n");
    assert_eq!(imports.len(), 2);
    assert_eq!(imports[0].get_import_source(), "\"mod\"");
    assert_eq!(imports[0].get_import_type(), TypeScriptImportType::NamedImport);
    assert_eq!(imports[0].get_import_name(), "a");
    assert_eq!(imports[0].get_import_alias(), None);
    assert_eq!(imports[1].get_import_source(), "\"mod\"");
    assert_eq!(imports[1].get_import_type(), TypeScriptImportType::NamedImport);
    assert_eq!(imports[1].get_import_name(), "b");
    assert_eq!(imports[1].get_import_alias(), Some(String::from("c")));
}

#[test]
fn namespace_import_is_one_record() {
    let imports = imports_of_source("import * as ns from \"mod2\";\n");
    assert_eq!(imports.len(), 1);
    assert_eq!(imports[0].get_import_source(), "\"mod2\"");
    assert_eq!(imports[0].get_import_type(), TypeScriptImportType::NamespaceImport);
    assert_eq!(imports[0].get_import_name(), "ns");
    assert_eq!(imports[0].get_import_alias(), None);
}

#[test]
fn side_effect_import_yields_no_record() {
    let imports = imports_of_source("import \"mod3\";\n");
    assert_eq!(imports.len(), 0);
}

#[test]
fn default_and_named_imports() {
    let imports = imports_of_source("import React, { useState } from 'react';\n");
    assert_eq!(imports.len(), 2);
    assert_eq!(imports[0].get_import_name(), "React");
    assert_eq!(imports[1].get_import_name(), "useState");
    assert_eq!(imports[0].get_import_source(), "'react'");
    assert_eq!(imports[1].get_import_source(), "'react'");
}

#[test]
fn imports_of_two_statements_in_order() {
    let imports = imports_of_source("import { x } from \"one\";\nimport * as y from \"two\";\n");
    assert_eq!(imports.len(), 2);
    assert_eq!(imports[0].get_import_name(), "x");
    assert_eq!(imports[0].get_import_source(), "\"one\"");
    assert_eq!(imports[1].get_import_name(), "y");
    assert_eq!(imports[1].get_import_source(), "\"two\"");
}

#[test]
fn reconstruction_is_deterministic() {
    let src = "import { a, b as c } from \"mod\";\nimport d from \"e\";\n";
    let first = imports_of_source(src);
    let second = imports_of_source(src);
    assert_eq!(first.len(), second.len());
    for (x, y) in first.iter().zip(second.iter()) {
        assert_eq!(x.get_import_source(), y.get_import_source());
        assert_eq!(x.get_import_type(), y.get_import_type());
        assert_eq!(x.get_import_name(), y.get_import_name());
        assert_eq!(x.get_import_alias(), y.get_import_alias());
    }
}

#[test]
fn statement_without_binding_keeps_unknown_record() {
    let caps = vec![cap(CaptureRole::StatementStart, "import \"m\""), cap(CaptureRole::ModuleSource, "\"m\"")];
    let r = reconstruct_match(&caps);
    assert_eq!(r.len(), 1);
    assert_eq!(r[0].get_import_type(), TypeScriptImportType::Unknown);
    assert_eq!(r[0].get_import_name(), "");
    assert_eq!(r[0].get_import_source(), "\"m\"");
}

#[test]
fn specifier_groups_split_after_a_binding() {
    let caps = vec![
        cap(CaptureRole::StatementStart, "import { a, b as c } from \"mod\""),
        cap(CaptureRole::SpecifierGroup, "a"),
        cap(CaptureRole::NamedBinding, "a"),
        cap(CaptureRole::SpecifierGroup, "b as c"),
        cap(CaptureRole::NamedBinding, "b"),
        cap(CaptureRole::Alias, "c"),
        cap(CaptureRole::ModuleSource, "\"mod\""),
    ];
    let r = reconstruct_match(&caps);
    assert_eq!(r.len(), 2);
    assert_eq!(r[0].get_import_name(), "a");
    assert_eq!(r[0].get_import_alias(), None);
    assert_eq!(r[1].get_import_name(), "b");
    assert_eq!(r[1].get_import_alias(), Some(String::from("c")));
    assert_eq!(r[1].get_import_source(), "\"mod\"");
}

#[test]
fn bindings_before_any_statement_are_ignored() {
    let caps = vec![cap(CaptureRole::NamedBinding, "a"), cap(CaptureRole::Alias, "b")];
    assert_eq!(reconstruct_match(&caps).len(), 0);
}

#[test]
fn matches_are_concatenated_in_order() {
    let m1 = vec![cap(CaptureRole::StatementStart, ""), cap(CaptureRole::NamespaceBinding, "n"), cap(CaptureRole::ModuleSource, "'x'")];
    let m2 = vec![cap(CaptureRole::StatementStart, ""), cap(CaptureRole::NamedBinding, "d"), cap(CaptureRole::ModuleSource, "'y'")];
    let r = reconstruct_imports(&vec![m1, m2]);
    assert_eq!(r.len(), 2);
    assert_eq!(r[0].get_import_type(), TypeScriptImportType::NamespaceImport);
    assert_eq!(r[0].get_import_source(), "'x'");
    assert_eq!(r[1].get_import_type(), TypeScriptImportType::NamedImport);
    assert_eq!(r[1].get_import_source(), "'y'");
}

#[test]
fn raw_captures_are_classified_by_index() {
    let ix = ImportCaptureIndices { import: 5, import_with_alias: 4, named_import: 0, namespace_import: 1, source: 3, alias: 2 };
    let raw = |index: u32, text: Option<&str>| RawCapture { index, row: 0, column: 0, text: text.map(String::from) };
    let m = vec![raw(5, Some("stmt")), raw(1, Some("ns")), raw(9, Some("other")), raw(3, None)];
    let r = imports_from_matches(&vec![m], &ix);
    assert_eq!(r.len(), 1);
    assert_eq!(r[0].get_import_type(), TypeScriptImportType::NamespaceImport);
    assert_eq!(r[0].get_import_name(), "ns");
    assert_eq!(r[0].get_import_source(), "");
}

#[test]
fn incomplete_statement_yields_no_import() {
    let mut backend = TypeScriptBackend::new().expect("grammar loads");
    let dir = backend.parse_files(
        String::from("root"),
        vec![SourceFile { path: String::from("root/b.ts"), source_code: String::from("import {") }],
    );
    let file = &dir.get_parsed_files()[0];
    assert!(file.get_parse_tree().is_some());
    assert_eq!(TypeScriptBackend::get_imports_in_tree(file).expect("pattern compiles").len(), 0);
}
