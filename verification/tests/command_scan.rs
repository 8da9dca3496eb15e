use zuu::command::{contains_dangerous_chars, contains_substring};

#[test]
fn substring_found_in_the_middle() {
    assert!(contains_substring("abcd", "bc"));
}

#[test]
fn substring_found_at_the_edges() {
    assert!(contains_substring("abcd", "ab"));
    assert!(contains_substring("abcd", "cd"));
    assert!(contains_substring("abcd", "abcd"));
}

#[test]
fn substring_absent() {
    assert!(!contains_substring("abcd", "ac"));
    assert!(!contains_substring("abcd", "abcde"));
    assert!(!contains_substring("", "a"));
}

#[test]
fn empty_needle_occurs_everywhere() {
    assert!(contains_substring("abcd", ""));
    assert!(contains_substring("", ""));
}

#[test]
fn substring_over_repeated_prefixes() {
    assert!(contains_substring("aaab", "aab"));
    assert!(!contains_substring("aaa", "aab"));
}

#[test]
fn substring_with_multibyte_characters() {
    assert!(contains_substring("héllo wörld", "wör"));
    assert!(!contains_substring("héllo", "hello"));
}

#[test]
fn plain_commands_are_harmless() {
    assert!(!contains_dangerous_chars("cargo check"));
    assert!(!contains_dangerous_chars("true"));
    assert!(!contains_dangerous_chars(""));
    assert!(!contains_dangerous_chars("swift test"));
}

#[test]
fn separators_and_chaining_are_dangerous() {
    assert!(contains_dangerous_chars("true; rm x"));
    assert!(contains_dangerous_chars("a && b"));
    assert!(contains_dangerous_chars("a || b"));
    assert!(contains_dangerous_chars("a | b"));
    assert!(contains_dangerous_chars("sleep 1 &"));
}

#[test]
fn substitutions_and_expansions_are_dangerous() {
    assert!(contains_dangerous_chars("echo `id`"));
    assert!(contains_dangerous_chars("echo $(id)"));
    assert!(contains_dangerous_chars("echo ${HOME}"));
    assert!(contains_dangerous_chars("ls ~"));
    assert!(contains_dangerous_chars("echo *"));
    assert!(contains_dangerous_chars("echo a?b"));
}

#[test]
fn redirections_and_paths_are_dangerous() {
    assert!(contains_dangerous_chars("cat x > y"));
    assert!(contains_dangerous_chars("cat < y"));
    assert!(contains_dangerous_chars("cat x >> y"));
    assert!(contains_dangerous_chars("ls /tmp"));
    assert!(contains_dangerous_chars("./run"));
}

#[test]
fn grouping_escapes_and_comments_are_dangerous() {
    assert!(contains_dangerous_chars("(true)"));
    assert!(contains_dangerous_chars("echo [a]"));
    assert!(contains_dangerous_chars("echo a\\n"));
    assert!(contains_dangerous_chars("echo hi # hidden"));
    assert!(contains_dangerous_chars("echo a^b"));
    assert!(contains_dangerous_chars("echo hi!"));
}
