use github_mcp_server_rs::api::{choose_page_size, given_or, RepoRef};
use github_mcp_server_rs::status::{describe_status, status_with_reason, success};
use github_mcp_server_rs::text::{
    byte_len, byte_prefix, concat2, concat3, contains_word, contains_word_with_prefix,
    cut_after, cut_before, cut_last_two_segments, decimal_text, joined, same_text,
    signed_decimal_text, starts_with, trimmed, white, without_end_slashes,
};

#[test]
fn white_space_is_that_of_unicode() {
    for u in 0..0x11_0000u32 {
        if let Some(c) = char::from_u32(u) {
            assert_eq!(white(c), c.is_whitespace(), "{u:x}");
        }
    }
}

#[test]
fn words_are_found_as_split() {
    for text in ["", " ", "a", " a b ", "ab a", "a\u{3000}b", "repo:x", "-repo:x", "é repo:y"] {
        for word in ["a", "b", "ab", "", "repo:", "repo:x"] {
            assert_eq!(
                contains_word(text, word),
                text.split_whitespace().any(|w| w == word),
                "{text:?} {word:?}"
            );
            assert_eq!(
                contains_word_with_prefix(text, word),
                text.split_whitespace().any(|w| w.starts_with(word)),
                "{text:?} {word:?}"
            );
        }
    }
}

#[test]
fn texts_are_trimmed() {
    for text in ["", "  ", "a", " a b\t", "\u{3000}é\u{85}", "x "] {
        assert_eq!(trimmed(text), text.trim());
    }
}

#[test]
fn texts_are_cut() {
    assert_eq!(cut_before("a/b/c", "/"), "a");
    assert_eq!(cut_before("abc", "/"), "abc");
    assert_eq!(cut_after("a://b", "://"), Some("b"));
    assert_eq!(cut_after("ab", "://"), None);
    assert_eq!(without_end_slashes("a/b//"), "a/b");
    assert_eq!(without_end_slashes("///"), "");
    assert_eq!(cut_last_two_segments("x/y/z"), "y/z");
    assert_eq!(cut_last_two_segments("xyz"), "");
}

#[test]
fn texts_are_compared_and_joined() {
    assert!(same_text("é", "é"));
    assert!(!same_text("e", "é"));
    assert!(!same_text("a", "ab"));
    assert!(starts_with("repo:x", "repo:"));
    assert!(starts_with("x", ""));
    assert!(!starts_with("rep", "repo:"));
    assert_eq!(joined(&vec![], " "), "");
    assert_eq!(joined(&vec!["a".to_string(), "".to_string(), "b".to_string()], ", "), "a, , b");
    assert_eq!(concat2("a", "b"), "ab");
    assert_eq!(concat3("a", "", "b"), "ab");
}

#[test]
fn bytes_are_counted() {
    assert_eq!(byte_len("aé"), 3);
    assert_eq!(byte_prefix("aé", 1), "a");
    assert_eq!(byte_prefix("aé", 3), "aé");
}

#[test]
fn numbers_are_written() {
    for n in [0, 7, 10, 105, 99999, u64::MAX] {
        assert_eq!(decimal_text(n), n.to_string());
    }
    for n in [0, -1, 12, i64::MAX, i64::MIN] {
        assert_eq!(signed_decimal_text(n), n.to_string());
    }
}

#[test]
fn statuses_are_described() {
    assert_eq!(describe_status(200), "200 OK");
    assert_eq!(describe_status(404), "404 Not Found");
    assert_eq!(describe_status(418), "418 I'm a teapot");
    assert_eq!(describe_status(299), "299 <unknown status code>");
    assert_eq!(status_with_reason(299, Some("X")), "299 X");
    assert!(success(200) && success(299));
    assert!(!success(199) && !success(300) && !success(0));
}

#[test]
fn page_sizes_are_clamped() {
    assert_eq!(choose_page_size(None, 20), 20);
    assert_eq!(choose_page_size(Some(0), 20), 1);
    assert_eq!(choose_page_size(Some(1), 20), 1);
    assert_eq!(choose_page_size(Some(100), 20), 100);
    assert_eq!(choose_page_size(Some(u32::MAX), 20), 100);
}

#[test]
fn defaults_stand_in_for_what_is_missing() {
    assert_eq!(given_or(&None, "open"), "open");
    assert_eq!(given_or(&Some(String::new()), "open"), "");
}

#[test]
fn repositories_have_paths() {
    let repo = RepoRef {
        owner: "o".to_string(),
        repo: "r".to_string(),
    };
    assert_eq!(repo.path(), "/repos/o/r");
}
