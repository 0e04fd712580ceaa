use stunt::output::{LogLine, LogStream, ProcessLog, MAX_LOG_LINES};

#[test]
fn test_push_and_iterate() {
    let mut log = ProcessLog::new();
    log.push(LogStream::Stdout, "hello".to_string());
    log.push(LogStream::Stderr, "world".to_string());
    assert_eq!(log.len(), 2);
    let lines: Vec<&LogLine> = log.iter().collect();
    assert_eq!(lines[0].text, "hello");
    assert_eq!(lines[0].stream, LogStream::Stdout);
    assert_eq!(lines[1].text, "world");
    assert_eq!(lines[1].stream, LogStream::Stderr);
}

#[test]
fn test_ring_buffer_eviction() {
    let mut log = ProcessLog::new();
    for i in 0..1100 {
        log.push(LogStream::Stdout, format!("line {i}"));
    }
    assert_eq!(log.len(), MAX_LOG_LINES);
    // Oldest retained should be line 100
    let first = log.iter().next().unwrap();
    assert_eq!(first.text, "line 100");
}

#[test]
fn test_clear() {
    let mut log = ProcessLog::new();
    log.push(LogStream::System, "test".to_string());
    assert!(!log.is_empty());
    log.clear();
    assert!(log.is_empty());
}

#[test]
fn timestamps_have_clock_shape_and_get_reads_in_order() {
    let mut log = ProcessLog::default();
    log.push(LogStream::System, "a".to_string());
    log.push(LogStream::Stdout, "b".to_string());
    let t = &log.get(0).timestamp;
    assert_eq!(t.len(), 8);
    assert_eq!(&t[2..3], ":");
    assert_eq!(&t[5..6], ":");
    assert_eq!(log.get(1).text, "b");
}
