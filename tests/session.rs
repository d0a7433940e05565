use condatools::events::OutputEvent;
use condatools::session::{Report, Session, Stream};

fn line(st: Stream, s: &str) -> Report {
    Report::Line(st, s.to_string())
}

fn feed(session: &mut Session, reports: Vec<Report>) -> Vec<OutputEvent> {
    let mut out = Vec::new();
    for r in reports {
        if let Some(e) = session.step(r) {
            out.push(e);
        }
    }
    out
}

fn lines_of(events: &[OutputEvent], st: Stream) -> Vec<String> {
    events
        .iter()
        .filter_map(|e| match (e, st) {
            (OutputEvent::Stdout(l), Stream::Stdout) => Some(l.clone()),
            (OutputEvent::Stderr(l), Stream::Stderr) => Some(l.clone()),
            _ => None,
        })
        .collect()
}

#[test]
fn two_lines_then_exit_zero() {
    let mut s = Session::new();
    let events = feed(
        &mut s,
        vec![
            line(Stream::Stdout, "a"),
            line(Stream::Stdout, "b"),
            Report::Exited(Some(0)),
            Report::Ended(Stream::Stdout),
            Report::Ended(Stream::Stderr),
        ],
    );
    assert_eq!(lines_of(&events, Stream::Stdout), vec!["a".to_string(), "b".to_string()]);
    assert_eq!(events.len(), 3);
    assert_eq!(events[2], OutputEvent::Terminated(Some(0)));
    assert_eq!(events[2].channel(), "process.terminated");
    assert_eq!(events[2].payload(), "0");
    assert!(s.is_finished());
}

#[test]
fn interleaved_streams_keep_their_own_order() {
    let mut s = Session::new();
    let events = feed(
        &mut s,
        vec![
            line(Stream::Stdout, "o1"),
            line(Stream::Stderr, "e1"),
            line(Stream::Stderr, "e2"),
            line(Stream::Stdout, "o2"),
            line(Stream::Stderr, "e3"),
            Report::Ended(Stream::Stderr),
            line(Stream::Stdout, "o3"),
            Report::Ended(Stream::Stdout),
            Report::Exited(Some(1)),
        ],
    );
    assert_eq!(lines_of(&events, Stream::Stdout), vec!["o1", "o2", "o3"]);
    assert_eq!(lines_of(&events, Stream::Stderr), vec!["e1", "e2", "e3"]);
    assert_eq!(events.last(), Some(&OutputEvent::Terminated(Some(1))));
}

#[test]
fn killed_child_reports_unknown() {
    let mut s = Session::new();
    let events = feed(
        &mut s,
        vec![Report::Ended(Stream::Stdout), Report::Ended(Stream::Stderr), Report::Exited(None)],
    );
    assert_eq!(events, vec![OutputEvent::Terminated(None)]);
    assert_eq!(events[0].payload(), "unknown");
}

#[test]
fn failed_wait_reports_unknown() {
    let mut s = Session::new();
    let events = feed(
        &mut s,
        vec![Report::WaitFailed, Report::Ended(Stream::Stdout), Report::Ended(Stream::Stderr)],
    );
    assert_eq!(events, vec![OutputEvent::Terminated(None)]);
}

#[test]
fn termination_waits_for_both_streams() {
    let mut s = Session::new();
    assert_eq!(s.step(Report::Exited(Some(0))), None);
    assert!(!s.is_finished());
    assert_eq!(s.step(line(Stream::Stderr, "late")), Some(OutputEvent::Stderr("late".to_string())));
    assert_eq!(s.step(Report::Ended(Stream::Stdout)), None);
    assert_eq!(s.step(Report::Ended(Stream::Stderr)), Some(OutputEvent::Terminated(Some(0))));
}

#[test]
fn termination_comes_once_and_last() {
    let mut s = Session::new();
    let events = feed(
        &mut s,
        vec![
            Report::Ended(Stream::Stdout),
            Report::Ended(Stream::Stderr),
            Report::Exited(Some(4)),
            Report::Exited(Some(5)),
            Report::WaitFailed,
            line(Stream::Stdout, "after"),
            Report::Ended(Stream::Stdout),
        ],
    );
    assert_eq!(events, vec![OutputEvent::Terminated(Some(4))]);
}

#[test]
fn read_failure_stops_that_stream_only() {
    let mut s = Session::new();
    let events = feed(
        &mut s,
        vec![
            line(Stream::Stdout, "kept"),
            Report::ReadFailed(Stream::Stdout),
            line(Stream::Stdout, "dropped"),
            line(Stream::Stderr, "still relayed"),
        ],
    );
    assert_eq!(lines_of(&events, Stream::Stdout), vec!["kept"]);
    assert_eq!(lines_of(&events, Stream::Stderr), vec!["still relayed"]);
    assert!(!s.is_finished());
}

#[test]
fn no_exit_no_termination() {
    let mut s = Session::new();
    let events = feed(&mut s, vec![Report::Ended(Stream::Stdout), Report::Ended(Stream::Stderr)]);
    assert!(events.is_empty());
    assert!(!s.is_finished());
}

#[test]
fn two_sessions_do_not_share_output() {
    let mut a = Session::new();
    let mut b = Session::new();
    let ea1 = a.step(line(Stream::Stdout, "from a"));
    let eb1 = b.step(Report::ReadFailed(Stream::Stdout));
    let ea2 = a.step(line(Stream::Stdout, "again a"));
    let eb2 = b.step(line(Stream::Stdout, "from b"));
    assert_eq!(ea1, Some(OutputEvent::Stdout("from a".to_string())));
    assert_eq!(ea2, Some(OutputEvent::Stdout("again a".to_string())));
    assert_eq!(eb1, None);
    assert_eq!(eb2, None);
    assert!(b.step(line(Stream::Stderr, "b err")).is_some());
    assert_eq!(a.step(Report::Ended(Stream::Stderr)), None);
}
