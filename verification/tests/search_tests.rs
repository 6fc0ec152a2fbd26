use rust_helper::search::{
    group_search_results, locate_project, query_is_searchable, search_messages, SearchMessage,
};

const OUTPUT: &str = r#"{"type":"begin","data":{"path":{"text":"/w/app/src/main.rs"}}}
{"type":"context","data":{"path":{"text":"/w/app/src/main.rs"},"lines":{"text":"fn main() {\n"},"line_number":1,"submatches":[]}}
{"type":"match","data":{"path":{"text":"/w/app/src/main.rs"},"lines":{"text":"    let needle = 1;   \n"},"line_number":2,"submatches":[{"match":{"text":"needle"},"start":8,"end":14}]}}
{"type":"context","data":{"path":{"text":"/w/app/src/main.rs"},"lines":{"text":"    let y = 2;\n"},"line_number":3,"submatches":[]}}
{"type":"match","data":{"path":{"text":"/w/app/src/main.rs"},"lines":{"text":"    needle(needle);\n"},"line_number":4,"submatches":[{"start":4,"end":10},{"start":11},{"start":11,"end":17}]}}
{"type":"context","data":{"path":{"text":"/w/app/src/main.rs"},"lines":{"text":"}\n"},"line_number":5,"submatches":[]}}
{"type":"end","data":{"path":{"text":"/w/app/src/main.rs"}}}
this line is no message
{"type":"context","data":{"lines":{"text":"// before\n"},"line_number":9}}
{"type":"match","data":{"path":{"text":"lone.rs"},"lines":{"text":"needle\n"},"line_number":10}}
{"type":"summary","data":{}}
"#;

#[test]
fn search_results_carry_the_lines_around_them() {
    let messages = search_messages(OUTPUT);
    assert_eq!(messages.len(), 10);
    assert!(matches!(messages[0], SearchMessage::Other));
    let existing = vec!["/w/app/Cargo.toml".to_string(), "/w/Cargo.toml".to_string()];
    let results = group_search_results(messages, &existing);
    assert_eq!(results.len(), 3);

    let first = &results[0];
    assert_eq!(first.project_path, "/w/app");
    assert_eq!(first.project_name, "app");
    assert_eq!(first.file_path, "/w/app/src/main.rs");
    assert_eq!(first.line_number, 2);
    assert_eq!(first.line_content, "    let needle = 1;");
    assert_eq!(first.matches.len(), 1);
    assert_eq!((first.matches[0].start, first.matches[0].end), (8, 14));
    assert_eq!(first.context_before.len(), 1);
    assert_eq!(first.context_before[0].content, "fn main() {");
    assert_eq!(first.context_after.len(), 1);
    assert_eq!(first.context_after[0].line_number, 3);

    let second = &results[1];
    assert_eq!(second.line_number, 4);
    // the line between the matches belongs to the first match alone
    assert!(second.context_before.is_empty());
    assert_eq!(second.matches.len(), 2);
    assert_eq!(second.context_after.len(), 1);

    let third = &results[2];
    assert_eq!(third.file_path, "lone.rs");
    // nothing above the file has a manifest
    assert_eq!(third.project_path, "");
    assert_eq!(third.project_name, "");
    assert_eq!(third.context_before.len(), 1);
    assert!(third.matches.is_empty());
}

#[test]
fn a_search_gives_five_hundred_results_at_most() {
    let mut output = String::new();
    for i in 0..600 {
        output.push_str(&format!(
            "{{\"type\":\"match\",\"data\":{{\"path\":{{\"text\":\"/w/a.rs\"}},\"lines\":{{\"text\":\"x\"}},\"line_number\":{}}}}}\n",
            i + 1
        ));
    }
    let results = group_search_results(search_messages(&output), &Vec::new());
    assert_eq!(results.len(), 500);
    assert_eq!(results[499].line_number, 500);
    let few = group_search_results(search_messages(""), &Vec::new());
    assert!(few.is_empty());
}

#[test]
fn queries_need_two_bytes() {
    assert!(!query_is_searchable(""));
    assert!(!query_is_searchable("  a \n"));
    assert!(query_is_searchable(" ab "));
    assert!(query_is_searchable("\u{e9}"));
    assert_eq!(" \u{e9} ".trim().len() >= 2, query_is_searchable(" \u{e9} "));
}

#[test]
fn a_file_lies_in_the_nearest_project_above_it() {
    let existing = vec!["/w/Cargo.toml".to_string(), "/w/app/Cargo.toml".to_string()];
    assert_eq!(
        locate_project("/w/app/src/bin/x.rs", &existing),
        ("/w/app".to_string(), "app".to_string())
    );
    assert_eq!(
        locate_project("/w/other/x.rs", &existing),
        ("/w".to_string(), "w".to_string())
    );
    assert_eq!(
        locate_project("/elsewhere/x.rs", &existing),
        ("/".to_string(), String::new())
    );
}
