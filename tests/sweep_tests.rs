use webfuzz::outcome::{Data, ErrorKind, HttpVersion, ProbeOutcome, Reply, Response};
use webfuzz::sweep::{Action, Event, Phase, Summary, Sweep};
use webfuzz::token::{baseline_token, TOKEN_LEN};
use webfuzz::{ConfigError, FuzzConfig};

fn words(ws: &[&str]) -> Vec<String> {
    ws.iter().map(|w| w.to_string()).collect()
}

fn config(limit: usize, batch: Option<usize>) -> FuzzConfig {
    let mut c = FuzzConfig::new("http://host/FUZZ".to_string(), "words.txt".to_string());
    c.concurrency_limit = limit;
    c.batch_size = batch;
    c
}

fn response(url: &str, status: u16, len: Option<u64>) -> Response {
    Response {
        status,
        version: HttpVersion::Http11,
        headers: Vec::new(),
        content_length: len,
        url: url.to_string(),
        text: Some(String::new()),
    }
}

/// A server that answers 200 for `/admin` and 404 for everything else.
fn mock_server(url: &str) -> Reply {
    let status = if url == "http://host/admin" { 200 } else { 404 };
    Reply::Received(response(url, status, Some(0)))
}

struct Run {
    summary: Summary,
    dispatched: Vec<(usize, String)>,
    baselines: usize,
    max_in_flight: usize,
    snapshot_lens: Vec<usize>,
}

/// Drives a sweep to its end, completing the oldest request in flight
/// whenever the sweep waits.
fn drive(s: &mut Sweep, baseline: Reply) -> Run {
    let mut baseline = Some(baseline);
    let mut pending: Vec<(usize, String)> = Vec::new();
    let mut run = Run {
        summary: Summary { dispatched: 0, results: 0, failures: 0, cancelled: false },
        dispatched: Vec::new(),
        baselines: 0,
        max_in_flight: 0,
        snapshot_lens: Vec::new(),
    };
    loop {
        run.snapshot_lens.push(s.results().snapshot().len());
        match s.poll() {
            Action::Baseline { .. } => {
                run.baselines += 1;
                s.handle(Event::Baseline(baseline.take().unwrap()));
            }
            Action::Dispatch { index, url } => {
                run.dispatched.push((index, url.clone()));
                pending.push((index, url));
                run.max_in_flight = run.max_in_flight.max(s.in_flight());
            }
            Action::Wait => {
                let (index, url) = pending.remove(0);
                s.handle(Event::Completed { index, reply: mock_server(&url) });
            }
            Action::Finished(summary) => {
                run.summary = summary;
                return run;
            }
            Action::Aborted(_) => panic!("sweep aborted"),
        }
    }
}

fn ok_baseline() -> Reply {
    Reply::Received(response("http://host/zzz", 404, None))
}

#[test]
fn sweep_records_status_per_word() {
    let mut s = Sweep::new(&config(10, None), words(&["admin", "login", "xyz123"]), "tok".to_string())
        .unwrap();
    let run = drive(&mut s, ok_baseline());
    assert_eq!(run.summary, Summary { dispatched: 3, results: 3, failures: 0, cancelled: false });
    let results = s.results().snapshot();
    let ok: Vec<&Data> = results
        .iter()
        .filter_map(|o| match o {
            ProbeOutcome::Success(d) if d.status == 200 => Some(d),
            _ => None,
        })
        .collect();
    assert_eq!(ok.len(), 1);
    assert_eq!(ok[0].word, "admin");
    assert_eq!(ok[0].url, "http://host/admin");
    let mut others: Vec<(String, u16)> = results
        .iter()
        .filter_map(|o| match o {
            ProbeOutcome::Success(d) if d.status != 200 => Some((d.word.clone(), d.status)),
            _ => None,
        })
        .collect();
    others.sort();
    assert_eq!(others, vec![("login".to_string(), 404), ("xyz123".to_string(), 404)]);
}

#[test]
fn sweep_dispatches_each_word_once_whatever_the_limit() {
    let list = words(&["a", "b", "c", "d", "e", "f", "g"]);
    for limit in [1usize, 2, 3, 7, 100] {
        for batch in [None, Some(1usize), Some(2), Some(3), Some(50)] {
            let mut s = Sweep::new(&config(limit, batch), list.clone(), "tok".to_string()).unwrap();
            let run = drive(&mut s, ok_baseline());
            assert_eq!(run.baselines, 1);
            let idx: Vec<usize> = run.dispatched.iter().map(|d| d.0).collect();
            assert_eq!(idx, (0..list.len()).collect::<Vec<usize>>());
            for (i, url) in &run.dispatched {
                assert_eq!(url, &format!("http://host/{}", list[*i]));
            }
            assert!(run.max_in_flight <= limit);
            if let Some(b) = batch {
                assert!(run.max_in_flight <= b);
            }
            assert_eq!(run.summary.dispatched, list.len());
            assert_eq!(s.results().len(), list.len());
            assert_eq!(s.phase(), Phase::Finished);
        }
    }
}

#[test]
fn pool_fills_up_to_limit() {
    let mut s = Sweep::new(&config(2, None), words(&["a", "b", "c"]), "tok".to_string()).unwrap();
    assert!(matches!(s.poll(), Action::Baseline { .. }));
    s.handle(Event::Baseline(ok_baseline()));
    assert!(matches!(s.poll(), Action::Dispatch { index: 0, .. }));
    assert!(matches!(s.poll(), Action::Dispatch { index: 1, .. }));
    assert!(matches!(s.poll(), Action::Wait));
    s.handle(Event::Completed { index: 1, reply: mock_server("http://host/b") });
    assert!(matches!(s.poll(), Action::Dispatch { index: 2, .. }));
}

#[test]
fn batch_waits_for_whole_batch() {
    let mut s = Sweep::new(&config(10, Some(2)), words(&["a", "b", "c"]), "tok".to_string()).unwrap();
    assert!(matches!(s.poll(), Action::Baseline { .. }));
    s.handle(Event::Baseline(ok_baseline()));
    assert!(matches!(s.poll(), Action::Dispatch { index: 0, .. }));
    assert!(matches!(s.poll(), Action::Dispatch { index: 1, .. }));
    assert!(matches!(s.poll(), Action::Wait));
    s.handle(Event::Completed { index: 0, reply: mock_server("http://host/a") });
    assert!(matches!(s.poll(), Action::Wait));
    s.handle(Event::Completed { index: 1, reply: mock_server("http://host/b") });
    assert!(matches!(s.poll(), Action::Dispatch { index: 2, .. }));
}

#[test]
fn snapshots_never_shrink() {
    let list = words(&["admin", "b", "c", "d", "e"]);
    let mut s = Sweep::new(&config(2, None), list, "tok".to_string()).unwrap();
    let run = drive(&mut s, ok_baseline());
    assert!(run.snapshot_lens.windows(2).all(|w| w[0] <= w[1]));
    assert_eq!(*run.snapshot_lens.last().unwrap(), 5);
}

#[test]
fn unreachable_baseline_aborts_before_any_word() {
    let mut s = Sweep::new(&config(10, None), words(&["admin", "login"]), "tok".to_string()).unwrap();
    assert!(matches!(s.poll(), Action::Baseline { .. }));
    assert!(matches!(s.poll(), Action::Wait));
    s.handle(Event::Baseline(Reply::Failed(ErrorKind::Network)));
    assert_eq!(s.phase(), Phase::Aborted(ErrorKind::Network));
    assert!(matches!(s.poll(), Action::Aborted(ErrorKind::Network)));
    assert!(matches!(s.poll(), Action::Aborted(ErrorKind::Network)));
    assert_eq!(s.dispatched(), 0);
    assert_eq!(s.results().len(), 0);
}

#[test]
fn cancel_stops_dispatch_and_keeps_started_units() {
    let list = words(&["a", "b", "c", "d", "e"]);
    let mut s = Sweep::new(&config(2, None), list, "tok".to_string()).unwrap();
    assert!(matches!(s.poll(), Action::Baseline { .. }));
    s.handle(Event::Baseline(ok_baseline()));
    assert!(matches!(s.poll(), Action::Dispatch { index: 0, .. }));
    assert!(matches!(s.poll(), Action::Dispatch { index: 1, .. }));
    s.handle(Event::Cancel);
    assert!(s.is_cancelled());
    assert!(matches!(s.poll(), Action::Wait));
    s.handle(Event::Completed { index: 1, reply: Reply::Failed(ErrorKind::Timeout) });
    assert!(matches!(s.poll(), Action::Wait));
    s.handle(Event::Completed { index: 0, reply: mock_server("http://host/a") });
    let summary = match s.poll() {
        Action::Finished(sum) => sum,
        _ => panic!("sweep should be finished"),
    };
    assert_eq!(summary, Summary { dispatched: 2, results: 2, failures: 1, cancelled: true });
    let recorded: Vec<String> = s.results().snapshot().iter().map(|o| o.word().clone()).collect();
    assert_eq!(recorded, vec!["b".to_string(), "a".to_string()]);
}

#[test]
fn cancel_before_baseline_sends_nothing() {
    let mut s = Sweep::new(&config(2, None), words(&["a"]), "tok".to_string()).unwrap();
    s.handle(Event::Cancel);
    match s.poll() {
        Action::Finished(sum) => {
            assert_eq!(sum, Summary { dispatched: 0, results: 0, failures: 0, cancelled: true })
        }
        _ => panic!("sweep should be finished"),
    }
}

#[test]
fn duplicate_completion_is_ignored() {
    let mut s = Sweep::new(&config(2, None), words(&["a", "b"]), "tok".to_string()).unwrap();
    assert!(matches!(s.poll(), Action::Baseline { .. }));
    s.handle(Event::Baseline(ok_baseline()));
    assert!(matches!(s.poll(), Action::Dispatch { index: 0, .. }));
    s.handle(Event::Completed { index: 0, reply: mock_server("http://host/a") });
    s.handle(Event::Completed { index: 0, reply: mock_server("http://host/a") });
    s.handle(Event::Completed { index: 1, reply: mock_server("http://host/b") });
    assert_eq!(s.results().len(), 1);
    assert_eq!(s.in_flight(), 0);
}

#[test]
fn failures_are_recorded_and_counted() {
    let mut s = Sweep::new(&config(1, None), words(&["a"]), "tok".to_string()).unwrap();
    assert!(matches!(s.poll(), Action::Baseline { .. }));
    s.handle(Event::Baseline(ok_baseline()));
    assert!(matches!(s.poll(), Action::Dispatch { index: 0, .. }));
    s.handle(Event::Completed { index: 0, reply: Reply::Failed(ErrorKind::Protocol) });
    match s.poll() {
        Action::Finished(sum) => assert_eq!(sum.failures, 1),
        _ => panic!("sweep should be finished"),
    }
    assert_eq!(
        s.results().snapshot()[0],
        ProbeOutcome::Failure { word: "a".to_string(), kind: ErrorKind::Protocol }
    );
    assert_eq!(s.results().failures(), 1);
}

#[test]
fn empty_wordlist_finishes_after_baseline() {
    let mut s = Sweep::new(&config(3, None), Vec::new(), "tok".to_string()).unwrap();
    let run = drive(&mut s, ok_baseline());
    assert_eq!(run.baselines, 1);
    assert_eq!(run.summary, Summary { dispatched: 0, results: 0, failures: 0, cancelled: false });
}

#[test]
fn baseline_uses_token() {
    let token = baseline_token();
    assert_eq!(token.chars().count(), TOKEN_LEN);
    assert!(token.chars().all(|c| c.is_ascii_alphanumeric()));
    let mut s = Sweep::new(&config(3, None), words(&["a"]), token.clone()).unwrap();
    match s.poll() {
        Action::Baseline { url } => assert_eq!(url, format!("http://host/{}", token)),
        _ => panic!("baseline expected first"),
    }
}

#[test]
fn config_errors_come_before_any_request() {
    let mut c = config(10, None);
    c.target_template = "http://host/".to_string();
    assert!(matches!(Sweep::new(&c, words(&["a"]), "t".to_string()), Err(ConfigError::MissingPlaceholder)));
    assert!(matches!(Sweep::new(&config(0, None), words(&["a"]), "t".to_string()), Err(ConfigError::ZeroConcurrency)));
    assert!(matches!(Sweep::new(&config(1, Some(0)), words(&["a"]), "t".to_string()), Err(ConfigError::ZeroBatchSize)));
    assert_eq!(config(1, Some(1)).validate(), Ok(()));
}

#[test]
fn content_length_is_reported() {
    let o = ProbeOutcome::from_reply("admin".to_string(), Reply::Received(response("http://host/admin", 200, Some(42))));
    match o {
        ProbeOutcome::Success(d) => {
            assert_eq!(d.content_length, 42);
            assert_eq!(d.word, "admin");
        }
        _ => panic!("a response is a success"),
    }
}

#[test]
fn missing_length_and_undecodable_body_degrade() {
    let mut r = response("http://host/x", 500, None);
    r.text = None;
    match ProbeOutcome::from_reply("x".to_string(), Reply::Received(r)) {
        ProbeOutcome::Success(d) => {
            assert_eq!(d.content_length, 0);
            assert_eq!(d.text, "");
            assert_eq!(d.status, 500);
        }
        _ => panic!("a response is a success"),
    }
}
