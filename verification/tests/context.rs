use coprocessor::{KeyRange, ReqContext, RpcContext};

fn range(start: &[u8], end: &[u8]) -> KeyRange {
    KeyRange { start: start.to_vec(), end: end.to_vec() }
}

#[test]
fn empty_range_set_has_no_first_range() {
    let ranges: Vec<KeyRange> = Vec::new();
    let ctx = ReqContext::new("test", RpcContext::new(), &ranges, None, None, None);
    assert!(ctx.first_range.is_none());
    assert_eq!(ctx.ranges_len, 0);
}

#[test]
fn first_range_is_the_first_element_by_value() {
    let ranges = vec![range(b"a", b"m"), range(b"m", b"z")];
    let ctx = ReqContext::new("test", RpcContext::new(), &ranges, None, None, None);
    assert_eq!(ctx.ranges_len, 2);
    assert_eq!(ctx.first_range, Some(range(b"a", b"m")));
}

#[test]
fn context_keeps_what_it_was_built_from() {
    let ranges = vec![range(b"k1", b"k2")];
    let ctx = ReqContext::new(
        "analyze",
        RpcContext { payload: vec![9, 9] },
        &ranges,
        Some("127.0.0.1:20160".to_string()),
        Some(true),
        Some(42),
    );
    assert_eq!(ctx.tag, "analyze");
    assert_eq!(ctx.context.payload, vec![9, 9]);
    assert_eq!(ctx.peer, Some("127.0.0.1:20160".to_string()));
    assert_eq!(ctx.is_desc_scan, Some(true));
    assert_eq!(ctx.txn_start_ts, Some(42));
}

#[test]
fn fresh_context_has_a_zero_placeholder_budget() {
    let ranges: Vec<KeyRange> = Vec::new();
    let ctx = ReqContext::new("test", RpcContext::new(), &ranges, None, None, None);
    assert!(ctx.deadline.check_if_exceeded().is_err());
}

#[test]
fn set_max_handle_duration_resets_the_deadline() {
    let ranges: Vec<KeyRange> = Vec::new();
    let mut ctx = ReqContext::new("test", RpcContext::new(), &ranges, None, None, None);
    assert!(ctx.deadline.check_if_exceeded().is_err());
    ctx.set_max_handle_duration(u64::MAX);
    assert_eq!(ctx.deadline.check_if_exceeded(), Ok(()));
}

#[test]
fn default_for_test_is_an_empty_context() {
    let ctx = ReqContext::default_for_test();
    assert_eq!(ctx.tag, "test");
    assert!(ctx.context.payload.is_empty());
    assert!(ctx.first_range.is_none());
    assert_eq!(ctx.ranges_len, 0);
    assert!(ctx.peer.is_none());
    assert!(ctx.is_desc_scan.is_none());
    assert!(ctx.txn_start_ts.is_none());
}

#[test]
fn key_range_clone_copies_both_keys() {
    let kr = range(b"start", b"end");
    let copy = kr.clone();
    assert_eq!(copy, kr);
}
