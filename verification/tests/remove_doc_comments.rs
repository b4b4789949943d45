use rust_to_wgsl::remove_doc_comments::{
    remove_doc_block_comments, remove_doc_comments, remove_doc_singleline_comments,
    try_remove_doc_comments,
};

#[test]
fn test_remove_doc_block_comments() {
    let input = "/** This is doc comment */\nfn test() {}\n/*! Module doc */";
    let expected = "\nfn test() {}\n";
    assert_eq!(remove_doc_block_comments(input), expected);
}

#[test]
fn test_remove_doc_singleline_comments() {
    let input = "/// Doc comment\n//! Module doc\nfn test() {}";
    let expected = "\n\nfn test() {}";
    assert_eq!(remove_doc_singleline_comments(input), expected);
}

#[test]
fn remove_both() {
    let input = "//! Module doc\n/** This is doc comment */\nfn test() {}\n/*! Module doc */";
    let expected = "\n\nfn test() {}\n";
    assert_eq!(remove_doc_comments(input), expected);
}

#[test]
fn ordinary_comments_are_kept() {
    let input = "// plain\n/* block */\nfn f() {} // trailing\n";
    assert_eq!(remove_doc_comments(input), input);
}

#[test]
fn try_remove_doc_comments_succeeds_with_the_fixed_patterns() {
    let input = "/// doc\nconst A: u32 = 1;";
    assert_eq!(try_remove_doc_comments(input), Some("\nconst A: u32 = 1;".to_string()));
}

#[test]
fn multi_line_doc_blocks_are_removed() {
    let input = "/**\n * Spans\n * lines\n */\nfn f() {}\n/* kept\n */";
    assert_eq!(remove_doc_block_comments(input), "\nfn f() {}\n/* kept\n */");
}
