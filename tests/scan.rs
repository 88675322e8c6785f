use otp_cache::{scan_replies, DeviceFault, QueryOutcome, ScanError, ScanStep, SlotScan};

fn named(s: &str) -> QueryOutcome {
    QueryOutcome::Named(s.to_string())
}

#[test]
fn scan_with_gap_stops_at_invalid_slot() {
    let replies = vec![
        named("work"),
        QueryOutcome::NotProgrammed,
        named("email"),
        QueryOutcome::InvalidSlot,
        named("never"),
    ];
    let (result, queries) = scan_replies(&replies);
    let slots = result.unwrap();
    let got: Vec<(u8, String)> = slots.into_iter().map(|s| (s.index, s.name)).collect();
    assert_eq!(got, vec![(0, "work".to_string()), (2, "email".to_string())]);
    assert_eq!(queries, 4);
}

#[test]
fn scan_of_empty_token() {
    let (result, queries) = scan_replies(&vec![]);
    assert!(result.unwrap().is_empty());
    assert_eq!(queries, 1);
}

#[test]
fn scan_aborts_on_device_error() {
    let replies = vec![
        named("a"),
        QueryOutcome::NotProgrammed,
        QueryOutcome::Failed(DeviceFault::Communication),
        named("b"),
    ];
    let (result, queries) = scan_replies(&replies);
    assert_eq!(
        result.unwrap_err(),
        ScanError::Device { index: 2, fault: DeviceFault::Communication }
    );
    assert_eq!(queries, 3);
}

#[test]
fn scan_overflows_without_end() {
    let replies: Vec<QueryOutcome> = (0..300).map(|_| QueryOutcome::NotProgrammed).collect();
    let (result, queries) = scan_replies(&replies);
    assert_eq!(result.unwrap_err(), ScanError::Overflow);
    assert_eq!(queries, 256);
}

#[test]
fn scan_steps_one_by_one() {
    let scan = SlotScan::new();
    assert_eq!(scan.index(), 0);
    let scan = match scan.advance(QueryOutcome::NotProgrammed) {
        ScanStep::Next(s) => s,
        _ => panic!("the scan should go on"),
    };
    assert_eq!(scan.index(), 1);
    let scan = match scan.advance(named("x")) {
        ScanStep::Next(s) => s,
        _ => panic!("the scan should go on"),
    };
    match scan.advance(QueryOutcome::InvalidSlot) {
        ScanStep::Done(v) => {
            assert_eq!(v.len(), 1);
            assert_eq!(v[0].index, 1);
            assert_eq!(v[0].name, "x");
        }
        _ => panic!("the scan should end"),
    }
}

#[test]
fn scan_ends_at_largest_index() {
    let mut replies: Vec<QueryOutcome> = (0..255).map(|_| QueryOutcome::NotProgrammed).collect();
    replies.push(QueryOutcome::InvalidSlot);
    let (result, queries) = scan_replies(&replies);
    assert!(result.unwrap().is_empty());
    assert_eq!(queries, 256);
}

#[test]
fn scan_keeps_slot_below_largest_index() {
    let mut replies: Vec<QueryOutcome> = (0..254).map(|_| QueryOutcome::NotProgrammed).collect();
    replies.push(named("last"));
    replies.push(QueryOutcome::InvalidSlot);
    let (result, queries) = scan_replies(&replies);
    let slots = result.unwrap();
    assert_eq!(slots.len(), 1);
    assert_eq!(slots[0].index, 254);
    assert_eq!(slots[0].name, "last");
    assert_eq!(queries, 256);
}

#[test]
fn scan_fails_at_largest_index() {
    let mut replies: Vec<QueryOutcome> = (0..255).map(|_| QueryOutcome::NotProgrammed).collect();
    replies.push(QueryOutcome::Failed(DeviceFault::Library));
    let (result, queries) = scan_replies(&replies);
    assert_eq!(
        result.unwrap_err(),
        ScanError::Device { index: 255, fault: DeviceFault::Library }
    );
    assert_eq!(queries, 256);
}
