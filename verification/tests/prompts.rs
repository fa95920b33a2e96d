use kiro_notebook::prompt::build_prompt;

#[test]
fn bare_message_without_documents() {
    let docs: Vec<(String, Result<String, String>)> = Vec::new();
    assert_eq!(build_prompt("just a question", &docs), "just a question");
}

#[test]
fn documents_are_framed_before_the_question() {
    let docs = vec![
        ("a.md".to_string(), Ok("alpha".to_string())),
        ("b.pdf".to_string(), Err("bad file".to_string())),
    ];
    let expected = "Here are the documents for context:\n\n\
                    --- a.md ---\nalpha\n\n\
                    --- b.pdf ---\n[Error reading: bad file]\n\n\
                    ---\n\nUser question: what do they say?";
    assert_eq!(build_prompt("what do they say?", &docs), expected);
}

#[test]
fn long_documents_are_truncated_at_the_cap() {
    let long = "a".repeat(50001);
    let docs = vec![("big.txt".to_string(), Ok(long))];
    let built = build_prompt("q", &docs);
    let mut expected = String::from("Here are the documents for context:\n\n--- big.txt ---\n");
    expected.push_str(&"a".repeat(50000));
    expected.push_str("...\n[truncated]\n\n---\n\nUser question: q");
    assert_eq!(built, expected);

    let exact = "b".repeat(50000);
    let docs = vec![("ok.txt".to_string(), Ok(exact.clone()))];
    let built = build_prompt("q", &docs);
    assert!(built.contains(&exact));
    assert!(!built.contains("[truncated]"));
}
