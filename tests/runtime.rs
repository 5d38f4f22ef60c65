use async_logger::level::{Level, LevelFilter};
use async_logger::logger::AsyncLogger;
use async_logger::runtime::{Error, TokioBackend, TokioWorker, QUEUE_CAPACITY};
use async_logger::statement::{Message, Statement};
use async_logger::writer::{AsyncLogWriter, TokioFileWriter};

fn runtime() -> tokio::runtime::Runtime {
    tokio::runtime::Builder::new_current_thread().enable_all().build().unwrap()
}

#[test]
fn current_without_runtime_fails() {
    match TokioBackend::current(7u32) {
        Err(e) => {
            assert!(matches!(e, Error::GetCurrent { .. }));
            assert_eq!(e.message(), "Failed to get current tokio runtime");
        }
        Ok(_) => panic!("no runtime is in context"),
    }
}

#[test]
fn current_inside_runtime_keeps_writer() {
    let rt = runtime();
    let _guard = rt.enter();
    let backend = TokioBackend::current(7u32).unwrap();
    assert_eq!(*backend.writer(), 7);
}

#[test]
fn handle_keeps_writer() {
    let rt = runtime();
    let backend = TokioBackend::handle(rt.handle().clone(), 9u32);
    assert_eq!(*backend.writer(), 9);
}

#[test]
fn pipeline_queue_holds_capacity_items() {
    let rt = runtime();
    let backend = TokioBackend::handle(rt.handle().clone(), 3u32);
    let (sender, mut receiver, writer) = backend.new_pipeline();
    assert_eq!(writer, 3);
    assert_eq!(QUEUE_CAPACITY, 16);
    assert_eq!(sender.max_capacity(), 16);
    for i in 0..QUEUE_CAPACITY {
        let m = Message::Record(Statement::new(Level::Info, format!("{i}")));
        assert!(sender.try_send(m).is_ok());
    }
    let extra = Message::Record(Statement::new(Level::Info, "extra".to_string()));
    assert!(sender.try_send(extra).is_err());
    match receiver.try_recv() {
        Ok(Message::Record(s)) => assert_eq!(s.message, "0"),
        _ => panic!("the first item comes first"),
    }
}

#[test]
fn send_to_gone_consumer_is_emit_error() {
    let rt = runtime();
    let backend = TokioBackend::handle(rt.handle().clone(), 0u8);
    let (sender, receiver, _) = backend.new_pipeline();
    drop(receiver);
    let sent = rt.block_on(sender.send(Message::Record(Statement::new(Level::Error, "x".to_string()))));
    let r = TokioWorker::check_sent(sent);
    match r {
        Err(e) => {
            assert!(matches!(e, Error::EmitStatement { .. }));
            assert_eq!(e.message(), "Failed to emit log message to backend worker");
        }
        Ok(()) => panic!("the consumer is gone"),
    }
    assert!(TokioWorker::check_sent(Ok(())).is_ok());
}

#[test]
fn worker_and_logger_carry_the_sender() {
    let rt = runtime();
    let backend = TokioBackend::handle(rt.handle().clone(), 0u8);
    let (sender, mut receiver, _) = backend.new_pipeline();
    let task = rt.spawn(async {});
    let logger = AsyncLogger::new(TokioWorker::new(task, sender));
    log::set_max_level(log::LevelFilter::Info);
    assert!(logger.enabled(Level::Info));
    assert!(!logger.enabled(Level::Debug));
    let msg = logger.record(Level::Warn, "hello".to_string()).unwrap();
    assert!(logger.record(Level::Trace, "quiet".to_string()).is_none());
    assert!(logger.worker().sender().try_send(msg).is_ok());
    let (barrier, _rx) = logger.flush_barrier();
    assert!(logger.worker().sender().try_send(barrier).is_ok());
    assert!(matches!(receiver.try_recv(), Ok(Message::Record(_))));
    assert!(matches!(receiver.try_recv(), Ok(Message::Barrier(_))));
    assert_eq!(LevelFilter::Info.admits(Level::Warn), true);
}

#[test]
fn file_writer_uses_no_color() {
    assert!(!TokioFileWriter::use_color());
}

#[test]
fn file_writer_clones_share_one_lock() {
    let rt = runtime();
    let file = rt.block_on(tokio::fs::File::create("/tmp/async_logger_shared.log")).unwrap();
    let first = TokioFileWriter::new(file);
    let second = first.clone();
    assert!(std::sync::Arc::ptr_eq(first.handle(), second.handle()));
    let guard = first.handle().try_lock().unwrap();
    assert!(second.handle().try_lock().is_err());
    drop(guard);
    assert!(second.handle().try_lock().is_ok());
}
