use fetchquest::options::Options;
use fetchquest::writer::{plan_output, Action, Event, Failure, Session, Stage};

fn opts(silent: bool, include_headers: bool, head: bool) -> Options {
    let mut o = Options::new("http://example.com/".to_string());
    o.silent = silent;
    o.include_headers = include_headers;
    o.head = head;
    o
}

/// Feeds events in order, returning the actions asked for.
fn drive(s: &mut Session, events: Vec<Event>) -> Vec<Action> {
    events.into_iter().map(|e| s.step(e)).collect()
}

#[test]
fn plan_follows_flags() {
    let p = plan_output(&opts(true, true, false));
    assert!(!p.write_output && !p.write_headers && !p.read_body);
    let p = plan_output(&opts(false, true, true));
    assert!(p.write_output && p.write_headers && !p.read_body);
    let p = plan_output(&opts(false, false, false));
    assert!(p.write_output && !p.write_headers && p.read_body);
}

#[test]
fn silent_sends_but_writes_nothing() {
    let mut s = Session::new(&opts(true, true, false));
    let acts = drive(
        &mut s,
        vec![Event::Start, Event::Response("{}".to_string()), Event::SinkOpened, Event::Written],
    );
    assert_eq!(acts[0], Action::Send);
    assert_eq!(acts[1], Action::Finish);
    assert_eq!(acts[2], Action::Ignore);
    assert_eq!(acts[3], Action::Ignore);
    assert_eq!(s.stage, Stage::Done);
}

#[test]
fn head_never_reads_body() {
    let mut s = Session::new(&opts(false, true, true));
    let acts = drive(
        &mut s,
        vec![
            Event::Start,
            Event::Response("{\"server\": \"x\"}".to_string()),
            Event::SinkOpened,
            Event::Written,
            Event::Closed,
        ],
    );
    assert_eq!(
        acts,
        vec![
            Action::Send,
            Action::OpenSink,
            Action::Write("{\"server\": \"x\"}\n".to_string()),
            Action::CloseSink,
            Action::Finish,
        ]
    );
    assert!(!acts.contains(&Action::ReadBody));
}

#[test]
fn full_output_is_headers_then_body() {
    let mut s = Session::new(&opts(false, true, false));
    let acts = drive(
        &mut s,
        vec![
            Event::Start,
            Event::Response("{\"content-type\": \"text/plain\"}".to_string()),
            Event::SinkOpened,
            Event::Written,
            Event::Body("hello".to_string()),
            Event::Written,
            Event::Closed,
        ],
    );
    let mut out = String::new();
    for a in &acts {
        if let Action::Write(t) = a {
            out.push_str(t);
        }
    }
    assert_eq!(out, "{\"content-type\": \"text/plain\"}\nhello\n");
    assert_eq!(acts.last(), Some(&Action::Finish));
}

#[test]
fn body_only_by_default() {
    let mut s = Session::new(&opts(false, false, false));
    let acts = drive(
        &mut s,
        vec![Event::Start, Event::Response("{}".to_string()), Event::SinkOpened],
    );
    assert_eq!(acts, vec![Action::Send, Action::OpenSink, Action::ReadBody]);
}

#[test]
fn upload_opened_before_send() {
    let mut o = opts(false, false, false);
    o.form_file = Some("/tmp/x.bin".to_string());
    let mut s = Session::new(&o);
    assert_eq!(s.step(Event::Start), Action::OpenUpload);
    assert_eq!(s.step(Event::UploadOpened), Action::Send);
}

#[test]
fn upload_failure_never_sends() {
    let mut o = opts(false, false, false);
    o.form_file = Some("/tmp/missing.bin".to_string());
    let mut s = Session::new(&o);
    let acts = drive(&mut s, vec![Event::Start, Event::UploadFailed, Event::Response("{}".to_string())]);
    assert_eq!(acts, vec![Action::OpenUpload, Action::Fail(Failure::Upload), Action::Ignore]);
    assert_eq!(s.stage, Stage::Failed(Failure::Upload));
}

#[test]
fn send_failure_is_reported() {
    let mut s = Session::new(&opts(false, false, false));
    let acts = drive(&mut s, vec![Event::Start, Event::SendFailed]);
    assert_eq!(acts, vec![Action::Send, Action::Fail(Failure::Transport)]);
}

#[test]
fn unwritable_output_fails_before_writing() {
    let mut s = Session::new(&opts(false, true, false));
    let acts = drive(&mut s, vec![Event::Start, Event::Response("{}".to_string()), Event::SinkFailed]);
    assert_eq!(acts, vec![Action::Send, Action::OpenSink, Action::Fail(Failure::Sink)]);
}

#[test]
fn write_failure_closes_sink_then_fails() {
    let mut s = Session::new(&opts(false, true, false));
    let acts = drive(
        &mut s,
        vec![
            Event::Start,
            Event::Response("{}".to_string()),
            Event::SinkOpened,
            Event::WriteFailed,
            Event::Closed,
        ],
    );
    assert_eq!(acts[3], Action::CloseSink);
    assert_eq!(acts[4], Action::Fail(Failure::Write));
}

#[test]
fn undecodable_body_closes_sink_then_fails() {
    let mut s = Session::new(&opts(false, false, false));
    let acts = drive(
        &mut s,
        vec![
            Event::Start,
            Event::Response("{}".to_string()),
            Event::SinkOpened,
            Event::BodyFailed,
            Event::Closed,
        ],
    );
    assert_eq!(acts[3], Action::CloseSink);
    assert_eq!(acts[4], Action::Fail(Failure::Encoding));
    assert_eq!(s.stage, Stage::Failed(Failure::Encoding));
}

#[test]
fn redirect_response_written_as_is() {
    // Without following, the transport hands back the redirect itself; its
    // headers are written like any other response's.
    let mut s = Session::new(&opts(false, true, true));
    let acts = drive(
        &mut s,
        vec![
            Event::Start,
            Event::Response("{\"location\": \"https://example.org/\"}".to_string()),
            Event::SinkOpened,
        ],
    );
    assert_eq!(acts[2], Action::Write("{\"location\": \"https://example.org/\"}\n".to_string()));
}
