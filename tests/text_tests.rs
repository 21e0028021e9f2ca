use webfuzz::config::has_placeholder;
use webfuzz::template::substitute;
use webfuzz::text::chars_of;
use webfuzz::wordlist::parse_wordlist;

#[test]
fn substitute_replaces_single_placeholder() {
    let url = substitute("http://host/FUZZ", "admin");
    assert_eq!(url, "http://host/admin");
    assert!(!has_placeholder(&url));
}

#[test]
fn substitute_replaces_every_placeholder() {
    assert_eq!(substitute("http://FUZZ.host/FUZZ?q=FUZZ", "x"), "http://x.host/x?q=x");
}

#[test]
fn substitute_without_placeholder_keeps_template() {
    assert_eq!(substitute("http://host/", "admin"), "http://host/");
}

#[test]
fn substitute_passes_word_verbatim() {
    assert_eq!(substitute("http://host/FUZZ", "a b?c#d"), "http://host/a b?c#d");
    assert_eq!(substitute("http://host/FUZZ", ""), "http://host/");
}

#[test]
fn substitute_scans_left_to_right() {
    assert_eq!(substitute("FUFUZZ", "w"), "FUw");
    assert_eq!(substitute("FUZZZ", "w"), "wZ");
    assert_eq!(substitute("FUZZFUZZ", "ab"), "abab");
}

#[test]
fn substitute_handles_non_ascii() {
    assert_eq!(substitute("http://hôst/FUZZ/é", "ü"), "http://hôst/ü/é");
}

#[test]
fn word_holding_placeholder_leaves_one() {
    let url = substitute("http://host/FUZZ", "FUZZ");
    assert_eq!(url, "http://host/FUZZ");
    assert!(has_placeholder(&url));
}

#[test]
fn has_placeholder_finds_token() {
    assert!(has_placeholder("http://host/FUZZ"));
    assert!(has_placeholder("FUZZ"));
    assert!(!has_placeholder("http://host/FUZ"));
    assert!(!has_placeholder("http://host/fuzz"));
    assert!(!has_placeholder(""));
}

#[test]
fn chars_of_keeps_order() {
    assert_eq!(chars_of("aé1"), vec!['a', 'é', '1']);
}

#[test]
fn wordlist_splits_lines() {
    assert_eq!(parse_wordlist("admin\nlogin\nxyz123"), vec!["admin", "login", "xyz123"]);
}

#[test]
fn wordlist_drops_final_line_ending() {
    assert_eq!(parse_wordlist("admin\nlogin\n"), vec!["admin", "login"]);
}

#[test]
fn wordlist_strips_crlf() {
    assert_eq!(parse_wordlist("admin\r\nlogin\r\n"), vec!["admin", "login"]);
}

#[test]
fn wordlist_keeps_lone_carriage_return() {
    assert_eq!(parse_wordlist("a\rb\nc\r"), vec!["a\rb", "c\r"]);
}

#[test]
fn wordlist_keeps_empty_lines() {
    assert_eq!(parse_wordlist("a\n\nb"), vec!["a", "", "b"]);
    assert_eq!(parse_wordlist("\n"), vec![""]);
}

#[test]
fn wordlist_empty_text_has_no_words() {
    assert!(parse_wordlist("").is_empty());
}

#[test]
fn wordlist_agrees_with_str_lines() {
    let text = "one\r\ntwo\n\nthree\rfour\nfive";
    let expected: Vec<String> = text.lines().map(|l| l.to_string()).collect();
    assert_eq!(parse_wordlist(text), expected);
}
