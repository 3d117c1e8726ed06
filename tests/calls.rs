use code_analyser::backends::SourceFile;
use code_analyser::syntax::RawCapture;
use code_analyser::typescript::{call_pattern_for, call_sites_from_matches, CallSite, TypeScriptBackend};

fn calls_of_source(source: &str, name: &str) -> Vec<CallSite> {
    let mut backend = TypeScriptBackend::new().expect("grammar loads");
    let dir = backend.parse_files(
        String::from("root"),
        vec![SourceFile { path: String::from("root/a.ts"), source_code: String::from(source) }],
    );
    let file = &dir.get_parsed_files()[0];
    assert!(file.get_parse_tree().is_some());
    TypeScriptBackend::get_function_calls_in_tree(file, name).expect("pattern compiles")
}

#[test]
fn function_and_method_calls_are_found() {
    let sites = calls_of_source("foo();\nobj.foo(1, \"x\");\n", "foo");
    assert_eq!(sites.len(), 2);
    assert_eq!((sites[0].line, sites[0].column, sites[0].text.as_str()), (0, 0, "foo"));
    assert_eq!((sites[1].line, sites[1].column, sites[1].text.as_str()), (1, 4, "foo"));
}

#[test]
fn other_names_are_not_calls_of_the_target() {
    let sites = calls_of_source("food();\nobj.fo();\nFoo();\n", "foo");
    assert_eq!(sites.len(), 0);
}

#[test]
fn call_pattern_holds_the_name_twice() {
    let p = call_pattern_for("bar");
    assert_eq!(p.matches("\"bar\"").count(), 2);
}

#[test]
fn every_capture_is_a_call_site() {
    let raw = vec![
        vec![RawCapture { index: 0, row: 2, column: 7, text: Some(String::from("f")) }],
        vec![
            RawCapture { index: 1, row: 3, column: 1, text: None },
            RawCapture { index: 0, row: 4, column: 0, text: Some(String::from("g")) },
        ],
    ];
    let sites = call_sites_from_matches(&raw);
    assert_eq!(sites.len(), 3);
    assert_eq!((sites[0].line, sites[0].column, sites[0].text.as_str()), (2, 7, "f"));
    assert_eq!((sites[1].line, sites[1].column, sites[1].text.as_str()), (3, 1, ""));
    assert_eq!((sites[2].line, sites[2].column, sites[2].text.as_str()), (4, 0, "g"));
}
