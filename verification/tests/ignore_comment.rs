use dprint_plugin_typescript::utils::file_text_has_ignore_comment;

fn run_test(text: &str, expected_result: bool) {
    let actual_result = file_text_has_ignore_comment(text, "ignore-file");
    assert_eq!(actual_result, expected_result);
}

#[test]
fn it_should_be_true_when_first_comment_in_file() {
    run_test("// ignore-file\ntest;", true);
}

#[test]
fn it_should_be_true_when_not_first_and_other_types_of_comments() {
    run_test("// test\r\n\n  \n  //\n/*testing\nthis out\r\ntest\n*/\n   // ignore-file\n", true);
}

#[test]
fn it_should_be_true_when_multi_line_comment() {
    run_test("/* ignore-file */\ntest;", true);
}

#[test]
fn it_should_be_true_when_multi_line_comment_and_new_lines_before() {
    run_test("/*\n\r\nignore-file */\ntest;", true);
}

#[test]
fn it_should_skip_over_shebang() {
    run_test("#!/usr/bin/env node\n//ignore-file", true);
}

#[test]
fn it_should_be_false_for_empty_text() {
    run_test("", false);
}

#[test]
fn it_should_be_false_when_code_comes_first() {
    run_test("test;\n// ignore-file\n", false);
}

#[test]
fn it_should_be_false_when_comment_comes_after_code() {
    run_test("// hello\ntest; // ignore-file", false);
}

#[test]
fn it_should_be_false_when_words_differ() {
    run_test("// ignore-fil\n", false);
    run_test("/* ignore file */", false);
}

#[test]
fn it_should_be_false_for_a_lone_slash() {
    run_test("/", false);
    run_test("/ / ignore-file", false);
    run_test("/x ignore-file", false);
}

#[test]
fn it_should_not_skip_new_lines_in_a_line_comment() {
    // only spaces may stand between the slashes and the words
    run_test("//\nignore-file", false);
    run_test("//\tignore-file", false);
    run_test("//     ignore-file", true);
}

#[test]
fn it_should_skip_any_white_space_in_a_block_comment() {
    run_test("/*\t\u{a0}\u{2003}\u{3000}ignore-file*/", true);
    run_test("\u{2028}\u{1680} /* ignore-file */", true);
    // a zero width space is no white space
    run_test("\u{200b}// ignore-file", false);
}

#[test]
fn it_should_read_past_an_unfinished_block_comment() {
    run_test("/* never closed // ignore-file", false);
    run_test("/* closed **/// ignore-file", true);
    run_test("/* a */ /* b */\n/* ignore-file", true);
}

#[test]
fn it_should_treat_a_hash_alone_as_code() {
    run_test("# // ignore-file", false);
    run_test("#!// ignore-file", false);
    run_test("#!\n/* ignore-file */", true);
}

#[test]
fn it_should_find_an_empty_ignore_text_in_any_leading_comment() {
    assert!(file_text_has_ignore_comment("// anything", ""));
    assert!(!file_text_has_ignore_comment("anything", ""));
}

#[test]
fn it_should_go_on_behind_a_partial_match() {
    // the words that agree are read, and the rest of the line is skipped
    run_test("// ignore-fix\n// ignore-file", true);
    assert!(file_text_has_ignore_comment("// a\nc\n// a\nb", "a\nb"));
    // the line feed that agreed was read, so the second comment is skipped as
    // the rest of the first
    assert!(!file_text_has_ignore_comment("// a\n// a\nb", "a\nb"));
}
