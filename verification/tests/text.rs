use upload::settings::resolve_prefix;
use upload::text::chars_of;
use upload::text::contains_text;
use upload::text::trimmed;

#[test]
fn chars_of_lists_the_characters() {
    assert_eq!(chars_of(""), Vec::<char>::new());
    assert_eq!(chars_of("a/é"), vec!['a', '/', 'é']);
}

#[test]
fn contains_text_finds_a_run() {
    assert!(contains_text("abc", "abc"));
    assert!(contains_text("abc", "a"));
    assert!(contains_text("abc", "bc"));
    assert!(contains_text("aab", "ab"));
    assert!(contains_text("ababb", "abb"));
    assert!(contains_text("héllo wörld", "wör"));
    assert!(contains_text("500: File already exists.", "File already exists"));
}

#[test]
fn contains_text_misses_what_is_not_there() {
    assert!(!contains_text("abc", "abcd"));
    assert!(!contains_text("abc", "ac"));
    assert!(!contains_text("abab", "abb"));
    assert!(!contains_text("", "a"));
    assert!(!contains_text("File already exist", "File already exists"));
    assert!(!contains_text("héllo", "hello"));
}

#[test]
fn contains_text_finds_the_empty_text_everywhere() {
    assert!(contains_text("", ""));
    assert!(contains_text("abc", ""));
}

#[test]
fn trimmed_cuts_slashes_at_both_ends() {
    assert_eq!(trimmed("/a/b/"), "a/b");
    assert_eq!(trimmed("//a//b//"), "a//b");
    assert_eq!(trimmed("a"), "a");
    assert_eq!(trimmed("a/"), "a");
    assert_eq!(trimmed("/é"), "é");
    assert_eq!(trimmed("///"), "");
    assert_eq!(trimmed(""), "");
}

#[test]
fn prefix_joins_endpoint_and_directory_by_one_slash() {
    assert_eq!(
        resolve_prefix("https://host/api/file/", "/Storage/user/dir/"),
        "https://host/api/file/Storage/user/dir"
    );
    assert_eq!(resolve_prefix("https://host/api", "dir"), "https://host/api/dir");
    assert_eq!(resolve_prefix("/", "/"), "/");
}
