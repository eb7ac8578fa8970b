use ecobridge::window::{HistoryRecord, HotWindow, WINDOW_HARD_CAP, WINDOW_KEEP};

fn rec(ts: i64, code: u64) -> HistoryRecord {
    HistoryRecord {
        timestamp: ts,
        amount_code: code,
    }
}

#[test]
fn recorded_trade_is_visible_to_next_query() {
    let mut w = HotWindow::new();
    assert_eq!(w.len(), 0);
    w.record_trade(rec(1_736_851_200_000, 100));
    assert_eq!(w.len(), 1);
    assert_eq!(w.get(0), rec(1_736_851_200_000, 100));
    // The freshly recorded trade is inside the valid query range, so the
    // next effective-volume query sees a non-empty window.
    let m = w.min_valid_timestamp(1_736_851_200_000 + 60_000, 0);
    assert_eq!(m, Some(1_736_851_200_000));
}

#[test]
fn hydration_keeps_order() {
    let mut w = HotWindow::new();
    let batch = vec![rec(10, 1), rec(20, 2), rec(30, 3)];
    w.hydrate_all(&batch);
    assert_eq!(w.len(), 3);
    assert_eq!(w.get(0), rec(10, 1));
    assert_eq!(w.get(1), rec(20, 2));
    assert_eq!(w.get(2), rec(30, 3));
}

#[test]
fn trades_recorded_in_order_stay_in_order() {
    let mut w = HotWindow::new();
    for k in 0i64..100 {
        w.record_trade(rec(k * 1000, k as u64));
    }
    for k in 0i64..100 {
        assert_eq!(w.get(k as usize).timestamp, k * 1000);
    }
}

#[test]
fn min_valid_timestamp_ignores_future_and_stale_records() {
    let now = 1_700_000_000_000i64;
    let mut w = HotWindow::new();
    w.record_trade(rec(now, 1));
    w.record_trade(rec(now + 1_000_000_000_000, 2)); // far future
    w.record_trade(rec(now + 65_000, 3)); // beyond the future tolerance
    w.record_trade(rec(now - 900_000_000_000, 4)); // beyond the tail cutoff
    let future_limit = now + 60_000;
    let past_limit = now - 10 * 86_400_000;
    assert_eq!(w.min_valid_timestamp(future_limit, past_limit), Some(now));
}

#[test]
fn min_valid_timestamp_empty_window() {
    let w = HotWindow::new();
    assert_eq!(w.min_valid_timestamp(60_000, -60_000), None);
}

#[test]
fn min_valid_timestamp_none_when_all_invalid() {
    let mut w = HotWindow::new();
    w.record_trade(rec(500, 1));
    assert_eq!(w.min_valid_timestamp(100, 0), None);
}

#[test]
fn overfull_window_is_pruned_to_newest_records() {
    let mut w = HotWindow::new();
    for i in 0..WINDOW_HARD_CAP {
        w.hydrate_record(rec(i as i64, i as u64));
    }
    assert_eq!(w.len(), WINDOW_HARD_CAP);
    // The append that exceeds the cap prunes down to the newest records.
    w.record_trade(rec(WINDOW_HARD_CAP as i64, 7));
    assert_eq!(w.len(), WINDOW_KEEP);
    // The oldest surviving record moved up accordingly...
    let dropped = WINDOW_HARD_CAP + 1 - WINDOW_KEEP;
    assert_eq!(w.get(0), rec(dropped as i64, dropped as u64));
    // ...and the new trade is the newest entry.
    assert_eq!(w.get(WINDOW_KEEP - 1), rec(WINDOW_HARD_CAP as i64, 7));
}
