use code_analyser::backends::{ParserError, SourceFile};
use code_analyser::discovery::{extension, is_wanted_file, DirEntryInfo, FileDiscovery};
use code_analyser::typescript::TypeScriptBackend;

fn names(v: &[&str]) -> Vec<String> {
    v.iter().map(|s| String::from(*s)).collect()
}

fn entry(name: &str, is_dir: bool) -> DirEntryInfo {
    DirEntryInfo { name: String::from(name), is_dir }
}

/// Walks an in-memory tree: each directory, given as its path below the root,
/// with its listing.
fn walk(listings: &[(&[&str], Vec<(&str, bool)>)]) -> Vec<Vec<String>> {
    let mut w = FileDiscovery::new(names(&["ts"]), names(&["node_modules"]));
    while let Some(dir) = w.next_directory() {
        let key: Vec<&str> = dir.iter().map(|s| s.as_str()).collect();
        let listing = listings.iter().find(|(p, _)| *p == key.as_slice()).map(|(_, l)| l.clone()).unwrap_or_default();
        let entries: Vec<DirEntryInfo> = listing.into_iter().map(|(n, d)| entry(n, d)).collect();
        w.record_entries(&dir, &entries);
    }
    w.found_paths().clone()
}

#[test]
fn extension_is_what_follows_the_last_dot() {
    assert_eq!(extension("a.ts"), Some(String::from("ts")));
    assert_eq!(extension("a.ts.bak"), Some(String::from("bak")));
    assert_eq!(extension("a.tsx"), Some(String::from("tsx")));
    assert_eq!(extension("a."), Some(String::new()));
    assert_eq!(extension(".ts"), None);
    assert_eq!(extension("Makefile"), None);
}

#[test]
fn discovery_is_extension_exact() {
    let exts = names(&["ts"]);
    assert!(is_wanted_file("a.ts", &exts));
    assert!(!is_wanted_file("a.tsx", &exts));
    assert!(!is_wanted_file("a.ts.bak", &exts));
    assert!(!is_wanted_file("a.TS", &exts));
    assert!(!is_wanted_file(".ts", &exts));
}

#[test]
fn excluded_directories_are_never_entered() {
    let found = walk(&[
        (&[], vec![("a.ts", false), ("node_modules", true), ("src", true), ("b.tsx", false)]),
        (&["node_modules"], vec![("dep.ts", false)]),
        (&["src"], vec![("c.ts", false), ("inner", true)]),
        (&["src", "inner"], vec![("node_modules", true), ("d.ts", false), ("e.ts.bak", false)]),
        (&["src", "inner", "node_modules"], vec![("f.ts", false)]),
    ]);
    let mut got: Vec<String> = found.iter().map(|p| p.join("/")).collect();
    got.sort();
    assert_eq!(got, vec!["a.ts", "src/c.ts", "src/inner/d.ts"]);
}

#[test]
fn directory_named_like_a_source_file_is_not_a_file() {
    let found = walk(&[(&[], vec![("x.ts", true)]), (&["x.ts"], vec![("y.ts", false)])]);
    assert_eq!(found, vec![vec![String::from("x.ts"), String::from("y.ts")]]);
}

#[test]
fn discovery_is_deterministic() {
    let listings: &[(&[&str], Vec<(&str, bool)>)] = &[
        (&[], vec![("a.ts", false), ("lib", true), ("z.ts", false)]),
        (&["lib"], vec![("m.ts", false), ("n.js", false)]),
    ];
    assert_eq!(walk(listings), walk(listings));
}

#[test]
fn walk_of_empty_root_finds_nothing() {
    assert!(walk(&[]).is_empty());
}

#[test]
fn parsed_directory_keeps_every_file_in_order() {
    let mut backend = TypeScriptBackend::new().expect("grammar loads");
    let dir = backend.parse_files(
        String::from("proj"),
        vec![
            SourceFile { path: String::from("proj/a.ts"), source_code: String::from("let x = 1;") },
            SourceFile { path: String::from("proj/b.ts"), source_code: String::from("") },
        ],
    );
    assert_eq!(dir.get_directory(), "proj");
    let files = dir.get_parsed_files();
    assert_eq!(files.len(), 2);
    assert_eq!(files[0].get_source_path(), "proj/a.ts");
    assert_eq!(files[0].get_source_code(), "let x = 1;");
    assert!(files[0].get_parse_tree().is_some());
    assert_eq!(files[1].get_source_path(), "proj/b.ts");
}

#[test]
fn parser_error_has_a_message() {
    assert_eq!(ParserError.message(), "An error has occurred while parsing the source file.");
}
