use webfuzz::config::DEFAULT_CONCURRENCY;
use webfuzz::outcome::{Data, ErrorKind, Header, HttpVersion, ProbeOutcome};
use webfuzz::report::push_decimal;
use webfuzz::state::command_for;
use webfuzz::{AppState, Command, ConfigError, Method};

fn lines(ls: &[&str]) -> Vec<String> {
    ls.iter().map(|l| l.to_string()).collect()
}

#[test]
fn control_keys_give_commands() {
    assert_eq!(command_for('q', true), Command::Quit);
    assert_eq!(command_for('r', true), Command::Run);
    assert_eq!(command_for('t', true), Command::Focus(0));
    assert_eq!(command_for('w', true), Command::Focus(1));
    assert_eq!(command_for('d', true), Command::Focus(2));
    assert_eq!(command_for('h', true), Command::Focus(3));
    assert_eq!(command_for('m', true), Command::Focus(4));
    assert_eq!(command_for('f', true), Command::Focus(5));
    assert_eq!(command_for('x', true), Command::Edit);
    assert_eq!(command_for('q', false), Command::Edit);
}

#[test]
fn fields_take_their_lines() {
    let mut s = AppState::default();
    s.set_field(0, lines(&["http://host/FUZZ", "ignored"]));
    s.set_field(1, lines(&["words.txt"]));
    s.set_field(2, lines(&["a=1", "b=2"]));
    s.set_field(3, lines(&["X-Test: yes"]));
    s.set_field(4, lines(&["m"]));
    s.set_field(5, lines(&["f"]));
    assert_eq!(s.target, "http://host/FUZZ");
    assert_eq!(s.wordlist, "words.txt");
    assert_eq!(s.data, lines(&["a=1", "b=2"]));
    assert_eq!(s.headers, lines(&["X-Test: yes"]));
    assert_eq!(s.matchrules, lines(&["m"]));
    assert_eq!(s.filterrules, lines(&["f"]));
}

#[test]
fn config_from_state() {
    let mut s = AppState::default();
    s.set_field(0, lines(&["http://host/FUZZ"]));
    s.set_field(1, lines(&["words.txt"]));
    s.set_field(2, lines(&["a=1", "b=2"]));
    s.set_field(3, lines(&["X-Test:  yes", "", "Accept:\ttext/html: q"]));
    let c = s.to_config().unwrap();
    assert_eq!(c.target_template, "http://host/FUZZ");
    assert_eq!(c.wordlist_path, "words.txt");
    assert_eq!(c.method, Method::Get);
    assert_eq!(
        c.headers,
        vec![
            ("X-Test".to_string(), "yes".to_string()),
            ("Accept".to_string(), "text/html: q".to_string())
        ]
    );
    assert_eq!(c.body, Some(b"a=1\nb=2".to_vec()));
    assert_eq!(c.concurrency_limit, DEFAULT_CONCURRENCY);
    assert_eq!(c.batch_size, None);
}

#[test]
fn empty_data_gives_no_body() {
    let mut s = AppState::default();
    s.set_field(2, lines(&[""]));
    assert_eq!(s.to_config().unwrap().body, None);
    assert_eq!(AppState::default().to_config().unwrap().body, None);
}

#[test]
fn malformed_header_is_rejected() {
    let mut s = AppState::default();
    s.set_field(3, lines(&["Good: 1", "no colon here"]));
    assert_eq!(s.to_config().unwrap_err(), ConfigError::MalformedHeader(1));
    s.set_field(3, lines(&[": empty name"]));
    assert_eq!(s.to_config().unwrap_err(), ConfigError::MalformedHeader(0));
}

fn data(url: &str, status: u16, len: u64) -> ProbeOutcome {
    ProbeOutcome::Success(Data {
        status,
        version: HttpVersion::Http11,
        headers: vec![Header { name: "content-length".to_string(), value: b"42".to_vec() }],
        content_length: len,
        url: url.to_string(),
        text: String::new(),
        word: "admin".to_string(),
    })
}

#[test]
fn result_lines_show_status_and_length() {
    assert_eq!(data("http://host/admin", 200, 42).line(), "http://host/admin: 200 OK [Length: 42]");
    assert_eq!(data("http://host/x", 404, 0).line(), "http://host/x: 404 Not Found [Length: 0]");
    assert_eq!(
        data("http://host/y", 599, 18446744073709551615).line(),
        "http://host/y: 599 <unknown status code> [Length: 18446744073709551615]"
    );
}

#[test]
fn failure_lines_show_kind() {
    let o = ProbeOutcome::Failure { word: "login".to_string(), kind: ErrorKind::Timeout };
    assert_eq!(o.line(), "login: timeout");
    let o = ProbeOutcome::Failure { word: "x".to_string(), kind: ErrorKind::Network };
    assert_eq!(o.line(), "x: network error");
}

#[test]
fn decimal_has_no_leading_zeros() {
    let mut s = String::from("n=");
    push_decimal(&mut s, 0);
    push_decimal(&mut s, 1090);
    assert_eq!(s, "n=01090");
}
