use fenrir_rs::{Fenrir, Intake, KvEntry, Level, LogOutcome, LogRecord, Stream};
use std::sync::Arc;

fn record(message: &str) -> LogRecord {
    LogRecord {
        level: Level::Info,
        target: "app".to_string(),
        message: message.to_string(),
        module: Some("app::worker".to_string()),
        file: None,
        line: None,
        key_values: Vec::new(),
    }
}

fn times(batch: &[Stream]) -> Vec<u128> {
    batch.iter().map(|s| s.values[0].0).collect()
}

#[test]
fn the_sink_keeps_its_own_buffer_between_calls() {
    let fenrir = Fenrir::builder().flush_threshold(3).build();
    assert!(fenrir.flush().is_none());
    assert!(matches!(
        fenrir.log(&record("one"), 1),
        LogOutcome::Buffered(1)
    ));
    assert!(matches!(
        fenrir.log(&record("two"), 2),
        LogOutcome::Buffered(2)
    ));
    match fenrir.log(&record("three"), 3) {
        LogOutcome::Flushed(flush) => assert_eq!(times(&flush.batch), vec![1, 2, 3]),
        other => panic!("the third entry did not flush: {:?}", other),
    }
    assert!(fenrir.flush().is_none());
    assert!(matches!(
        fenrir.log(&record("four"), 4),
        LogOutcome::Buffered(1)
    ));
    let flush = fenrir.flush().unwrap();
    assert_eq!(times(&flush.batch), vec![4]);
    assert!(fenrir.flush().is_none());
}

#[test]
fn events_that_give_no_entry_leave_the_shared_buffer_alone() {
    let fenrir = Fenrir::builder()
        .flush_threshold(5)
        .max_message_size(Some(3))
        .structured_logging()
        .build();
    let mut from_transport = record("x");
    from_transport.module = Some("reqwest::connect".to_string());
    assert!(matches!(fenrir.log(&from_transport, 1), LogOutcome::Ignored));
    assert!(matches!(
        fenrir.log(&record("long"), 2),
        LogOutcome::Dropped
    ));
    let mut broken = record("x");
    broken.key_values = vec![KvEntry::Failure {
        message: "unreadable".to_string(),
    }];
    assert!(matches!(
        fenrir.log(&broken, 3),
        LogOutcome::KeyValues(_)
    ));
    assert!(fenrir.flush().is_none());
    assert!(matches!(
        fenrir.log(&record("ok"), 4),
        LogOutcome::Buffered(1)
    ));
}

#[test]
fn the_intake_makes_the_entry_without_touching_a_buffer() {
    let fenrir = Fenrir::builder()
        .include_level()
        .tag("service", "a")
        .max_message_size(Some(5))
        .build();
    match fenrir.intake(&record("hello"), 99) {
        Intake::Entry(entry) => {
            assert_eq!(entry.stream.get("level"), Some("INFO"));
            assert_eq!(entry.stream.get("service"), Some("a"));
            assert_eq!(entry.values, vec![(99, "hello".to_string())]);
        }
        other => panic!("no entry: {:?}", other),
    }
    assert!(matches!(
        fenrir.intake(&record("hello!"), 100),
        Intake::Dropped
    ));
    let mut from_transport = record("x");
    from_transport.module = Some("ureq".to_string());
    assert!(matches!(
        fenrir.intake(&from_transport, 101),
        Intake::Ignored
    ));
    assert!(fenrir.flush().is_none());
}

#[test]
fn threads_that_share_a_sink_lose_and_repeat_nothing() {
    let threads: u128 = 4;
    let each: u128 = 250;
    let runtime = tokio::runtime::Builder::new_current_thread()
        .build()
        .unwrap();
    let fenrir = Arc::new(Fenrir::builder().flush_threshold(7).build());
    let mut workers = Vec::new();
    for t in 0..threads {
        let sink = Arc::clone(&fenrir);
        workers.push(runtime.spawn_blocking(move || {
            let mut seen: Vec<u128> = Vec::new();
            for i in 0..each {
                let id = t * each + i;
                if let LogOutcome::Flushed(flush) = sink.log(&record("shared"), id) {
                    assert_eq!(flush.batch.len(), 7);
                    seen.extend(times(&flush.batch));
                }
            }
            seen
        }));
    }
    let mut seen: Vec<u128> = Vec::new();
    for worker in workers {
        seen.extend(runtime.block_on(worker).unwrap());
    }
    if let Some(flush) = fenrir.flush() {
        seen.extend(times(&flush.batch));
    }
    seen.sort();
    let expected: Vec<u128> = (0..threads * each).collect();
    assert_eq!(seen, expected);
}

#[test]
fn each_thread_finds_its_own_entries_in_order() {
    let runtime = tokio::runtime::Builder::new_current_thread()
        .build()
        .unwrap();
    let fenrir = Arc::new(Fenrir::builder().flush_threshold(1000).build());
    let mut workers = Vec::new();
    for t in 0..3u128 {
        let sink = Arc::clone(&fenrir);
        workers.push(runtime.spawn_blocking(move || {
            for i in 0..100u128 {
                sink.log(&record("ordered"), t * 1000 + i);
            }
        }));
    }
    for worker in workers {
        runtime.block_on(worker).unwrap();
    }
    let batch = fenrir.flush().unwrap().batch;
    assert_eq!(batch.len(), 300);
    for t in 0..3u128 {
        let own: Vec<u128> = times(&batch)
            .into_iter()
            .filter(|id| id / 1000 == t)
            .collect();
        let expected: Vec<u128> = (0..100).map(|i| t * 1000 + i).collect();
        assert_eq!(own, expected);
    }
}
