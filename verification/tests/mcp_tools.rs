use kiro_notebook::files::{
    classify_extension, is_hidden_name, is_supported_extension, sort_entries, str_lex_le,
    FileEntry, FileKind,
};
use kiro_notebook::mcp::{
    lines_reply, read_file_reply, run_mcp, search_content, unknown_tool_reply, McpStep,
    ToolRequest,
};

#[test]
fn initialize_is_answered_in_place() {
    match run_mcp("{\"jsonrpc\":\"2.0\",\"id\":1,\"method\":\"initialize\"}") {
        McpStep::Reply { line } => {
            let v: serde_json::Value = serde_json::from_str(&line).unwrap();
            assert_eq!(v.pointer("/id").and_then(|x| x.as_u64()), Some(1));
            assert_eq!(
                v.pointer("/result/protocolVersion").and_then(|x| x.as_str()),
                Some("2024-11-05")
            );
            assert_eq!(
                v.pointer("/result/serverInfo/name").and_then(|x| x.as_str()),
                Some("kiro-notebook-files")
            );
        },
        _ => panic!("initialize must be answered directly"),
    }
}

#[test]
fn tools_list_names_all_three_tools() {
    match run_mcp("{\"id\":2,\"method\":\"tools/list\"}") {
        McpStep::Reply { line } => {
            let v: serde_json::Value = serde_json::from_str(&line).unwrap();
            let names: Vec<&str> = v
                .pointer("/result/tools")
                .and_then(|t| t.as_array())
                .unwrap()
                .iter()
                .filter_map(|t| t.get("name").and_then(|n| n.as_str()))
                .collect();
            assert_eq!(names, ["read_file", "list_files", "search_content"]);
        },
        _ => panic!("tools/list must be answered directly"),
    }
}

#[test]
fn notification_and_idless_lines_are_skipped() {
    assert!(matches!(
        run_mcp("{\"id\":3,\"method\":\"notifications/initialized\"}"),
        McpStep::Skip
    ));
    assert!(matches!(run_mcp("{\"method\":\"tools/list\"}"), McpStep::Skip));
    assert!(matches!(run_mcp("not json"), McpStep::Skip));
}

#[test]
fn unknown_method_is_reported() {
    match run_mcp("{\"id\":4,\"method\":\"bogus/things\"}") {
        McpStep::Reply { line } => {
            let v: serde_json::Value = serde_json::from_str(&line).unwrap();
            assert_eq!(
                v.pointer("/result/error").and_then(|x| x.as_str()),
                Some("Unknown method: bogus/things")
            );
        },
        _ => panic!("an unknown method with an id must be answered"),
    }
}

#[test]
fn string_request_ids_are_echoed_verbatim() {
    match run_mcp("{\"id\":\"abc\",\"method\":\"tools/list\"}") {
        McpStep::Reply { line } => {
            let v: serde_json::Value = serde_json::from_str(&line).unwrap();
            assert_eq!(v.pointer("/id").and_then(|x| x.as_str()), Some("abc"));
        },
        _ => panic!("a string id is still an id"),
    }
}

#[test]
fn tool_calls_are_decoded() {
    match run_mcp(
        "{\"id\":5,\"method\":\"tools/call\",\"params\":{\"name\":\"read_file\",\"arguments\":{\"path\":\"/a/b.txt\"}}}",
    ) {
        McpStep::Tool { id_raw, call } => {
            assert_eq!(id_raw, "5");
            match call {
                ToolRequest::ReadFile { path } => assert_eq!(path, "/a/b.txt"),
                _ => panic!("read_file must decode to a read request"),
            }
        },
        _ => panic!("tools/call must hand the tool out"),
    }
    match run_mcp(
        "{\"id\":6,\"method\":\"tools/call\",\"params\":{\"name\":\"search_content\",\"arguments\":{\"query\":\"Q\",\"files\":[\"f1\",\"f2\"]}}}",
    ) {
        McpStep::Tool { call: ToolRequest::SearchContent { query, files }, .. } => {
            assert_eq!(query, "Q");
            assert_eq!(files, ["f1", "f2"]);
        },
        _ => panic!("search_content must decode its file list"),
    }
    match run_mcp("{\"id\":7,\"method\":\"tools/call\",\"params\":{\"name\":\"mystery\"}}") {
        McpStep::Tool { call: ToolRequest::Unknown { name }, .. } => assert_eq!(name, "mystery"),
        _ => panic!("an unknown tool still decodes, as unknown"),
    }
}

#[test]
fn read_file_replies() {
    let ok = read_file_reply("5", Ok("line \"one\"\n".to_string()));
    let v: serde_json::Value = serde_json::from_str(&ok).unwrap();
    assert_eq!(
        v.pointer("/result/content/0/text").and_then(|x| x.as_str()),
        Some("line \"one\"\n")
    );
    assert!(v.pointer("/result/isError").is_none());

    let err = read_file_reply("5", Err("denied".to_string()));
    let v: serde_json::Value = serde_json::from_str(&err).unwrap();
    assert_eq!(
        v.pointer("/result/content/0/text").and_then(|x| x.as_str()),
        Some("Error: denied")
    );
    assert_eq!(v.pointer("/result/isError").and_then(|x| x.as_bool()), Some(true));
}

#[test]
fn listing_and_unknown_tool_replies() {
    let files = vec!["/a.txt".to_string(), "/b.pdf".to_string()];
    let r = lines_reply("1", &files);
    let v: serde_json::Value = serde_json::from_str(&r).unwrap();
    assert_eq!(
        v.pointer("/result/content/0/text").and_then(|x| x.as_str()),
        Some("/a.txt\n/b.pdf")
    );

    let r = unknown_tool_reply("1", "mystery");
    let v: serde_json::Value = serde_json::from_str(&r).unwrap();
    assert_eq!(
        v.pointer("/result/content/0/text").and_then(|x| x.as_str()),
        Some("Unknown tool: mystery")
    );
    assert_eq!(v.pointer("/result/isError").and_then(|x| x.as_bool()), Some(true));
}

#[test]
fn search_is_case_insensitive_with_line_numbers() {
    let docs = vec![
        ("a.txt".to_string(), "hello world\nbye\nWORLD war".to_string()),
        ("b.txt".to_string(), "nothing here".to_string()),
        ("c.txt".to_string(), "world\r\nagain".to_string()),
    ];
    let hits = search_content("World", &docs);
    assert_eq!(hits, ["a.txt:1: hello world", "a.txt:3: WORLD war", "c.txt:1: world"]);
}

fn entry(name: &str) -> FileEntry {
    FileEntry {
        name: name.to_string(),
        path: format!("/ws/{}", name),
        is_dir: false,
        extension: "txt".to_string(),
        children: None,
    }
}

#[test]
fn listing_sorts_by_lowercased_name() {
    let entries = vec![entry("Zeta.txt"), entry("alpha.txt"), entry("Beta.txt")];
    let sorted = sort_entries(entries);
    let names: Vec<&str> = sorted.iter().map(|e| e.name.as_str()).collect();
    assert_eq!(names, ["alpha.txt", "Beta.txt", "Zeta.txt"]);
}

#[test]
fn lexicographic_order_on_strings() {
    assert!(str_lex_le("abc", "abd"));
    assert!(!str_lex_le("abd", "abc"));
    assert!(str_lex_le("ab", "abc"));
    assert!(!str_lex_le("abc", "ab"));
    assert!(str_lex_le("", "a"));
    assert!(str_lex_le("same", "same"));
}

#[test]
fn file_kinds_follow_extension_case_insensitively() {
    assert_eq!(classify_extension("PDF"), FileKind::Pdf);
    assert_eq!(classify_extension("docx"), FileKind::Docx);
    assert_eq!(classify_extension("Md"), FileKind::PlainText);
    assert_eq!(classify_extension("txt"), FileKind::PlainText);
    assert_eq!(classify_extension("HTML"), FileKind::PlainText);
    assert_eq!(classify_extension("exe"), FileKind::Unsupported);
    assert!(is_supported_extension("TXT"));
    assert!(!is_supported_extension("rs"));
    assert!(is_hidden_name(".git"));
    assert!(!is_hidden_name("notes.md"));
    assert!(!is_hidden_name(""));
}
