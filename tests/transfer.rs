use eva_launcher::transfer::{percent, ProgressEvent, Transfer};

#[test]
fn progress_is_monotone_and_sums_chunks() {
    let chunks: Vec<u64> = vec![10, 0, 25, 5, 60];
    let mut t = Transfer::new(100);
    let mut last = 0u64;
    for c in &chunks {
        let ev = t.consume(*c).unwrap();
        assert!(ev.bytes_transferred >= last);
        assert!(ev.percent <= 100);
        last = ev.bytes_transferred;
    }
    assert_eq!(t.transferred(), chunks.iter().sum::<u64>());
    assert_eq!(last, 100);
}

#[test]
fn progress_event_values() {
    let mut t = Transfer::new(200);
    assert_eq!(
        t.consume(50),
        Some(ProgressEvent { bytes_transferred: 50, total_bytes: 200, percent: 25 })
    );
    assert_eq!(t.consume(1).unwrap().percent, 25);
}

#[test]
fn unknown_total_emits_no_event() {
    let mut t = Transfer::new(0);
    assert_eq!(t.consume(4096), None);
    assert_eq!(t.transferred(), 4096);
    assert_eq!(t.total(), 0);
}

#[test]
fn percent_caps_at_hundred() {
    assert_eq!(percent(150, 100), 100);
    assert_eq!(percent(1, 3), 33);
    assert_eq!(percent(u64::MAX - 1, u64::MAX), 99);
}
