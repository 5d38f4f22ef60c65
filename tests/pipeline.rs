use async_logger::consumer::{advance, step, Action, Event, Phase};
use async_logger::level::{Level, LevelFilter};
use async_logger::logger::AsyncLogger;
use async_logger::runtime::TokioWorker;
use async_logger::statement::{Message, Statement};

type Logger = AsyncLogger<TokioWorker>;

fn record(level: Level, text: &str) -> Message {
    Message::Record(Statement::new(level, text.to_string()))
}

fn written_text(action: &Action) -> Option<String> {
    match action {
        Action::Write(s) => Some(s.message.clone()),
        _ => None,
    }
}

#[test]
fn warn_filter_keeps_b_and_c_in_order() {
    let filter = LevelFilter::Warn;
    let mut out: Vec<String> = Vec::new();
    let mut phase = Phase::Running;
    for (level, text) in [(Level::Info, "a"), (Level::Warn, "b"), (Level::Error, "c")] {
        if let Some(msg) = Logger::to_send(filter, level, text.to_string()) {
            let (next, action) = step(phase, Event::Received(msg), filter);
            phase = next;
            if let Some(t) = written_text(&action) {
                out.push(t);
            }
        }
    }
    assert_eq!(out, vec!["b".to_string(), "c".to_string()]);
    assert_eq!(phase, Phase::Running);
}

#[test]
fn below_filter_is_never_sent() {
    assert!(Logger::to_send(LevelFilter::Warn, Level::Info, "a".to_string()).is_none());
    assert!(Logger::to_send(LevelFilter::Off, Level::Error, "x".to_string()).is_none());
    match Logger::to_send(LevelFilter::Info, Level::Info, "m".to_string()) {
        Some(Message::Record(s)) => {
            assert_eq!(s.level, Level::Info);
            assert_eq!(s.message, "m");
        }
        _ => panic!("an admitted statement must be sent"),
    }
}

#[test]
fn consumer_rechecks_raised_filter() {
    let msg = Logger::to_send(LevelFilter::Info, Level::Info, "late".to_string()).unwrap();
    let (phase, action) = step(Phase::Running, Event::Received(msg), LevelFilter::Warn);
    assert_eq!(phase, Phase::Running);
    assert!(matches!(action, Action::Discard));
}

#[test]
fn all_admitted_statements_written_in_order() {
    let texts = ["one", "two", "three", "four"];
    let mut phase = Phase::Running;
    let mut out: Vec<String> = Vec::new();
    for t in texts {
        let (next, action) = step(phase, Event::Received(record(Level::Error, t)), LevelFilter::Error);
        phase = next;
        out.push(written_text(&action).unwrap());
    }
    assert_eq!(out, texts.iter().map(|t| t.to_string()).collect::<Vec<_>>());
}

#[test]
fn barrier_is_released_after_prior_writes() {
    let (barrier, mut rx) = Message::barrier();
    let (p1, a1) = step(Phase::Running, Event::Received(record(Level::Warn, "before")), LevelFilter::Info);
    assert_eq!(written_text(&a1), Some("before".to_string()));
    let (p2, a2) = step(p1, Event::Received(barrier), LevelFilter::Info);
    assert_eq!(p2, Phase::Running);
    assert!(rx.try_recv().is_err());
    match a2 {
        Action::Release(tx) => tx.send(()).unwrap(),
        _ => panic!("a barrier must be released"),
    }
    assert!(rx.try_recv().is_ok());
}

#[test]
fn close_stops_for_good() {
    let (p1, a1) = step(Phase::Running, Event::Closed, LevelFilter::Trace);
    assert_eq!(p1, Phase::Stopped);
    assert!(matches!(a1, Action::Stop));
    let (p2, a2) = step(p1, Event::Received(record(Level::Error, "after")), LevelFilter::Trace);
    assert_eq!(p2, Phase::Stopped);
    assert!(matches!(a2, Action::Stop));
}

#[test]
fn advance_uses_current_filter() {
    log::set_max_level(log::LevelFilter::Error);
    let (_, a) = advance(Phase::Running, Event::Received(record(Level::Warn, "w")));
    assert!(matches!(a, Action::Discard));
    log::set_max_level(log::LevelFilter::Warn);
    let (_, b) = advance(Phase::Running, Event::Received(record(Level::Warn, "w")));
    assert_eq!(written_text(&b), Some("w".to_string()));
}
