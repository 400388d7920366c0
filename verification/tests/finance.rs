use scrollr::finance::config::{
    feed_url, finance_state, quote_url, subscribe_message, subscribe_messages, symbol_groups,
    FinanceConfigError, FinanceState, QUOTE_BATCH_PAUSE, QUOTE_BATCH_SIZE, QUOTE_TIMEOUT,
    RECONNECT_PAUSE, SYMBOL_BATCH_PAUSE, SYMBOL_BATCH_SIZE, TRADE_CONCURRENCY,
};
use scrollr::finance::health::{copy_text, FinanceHealth};
use scrollr::finance::price::Price;
use scrollr::finance::queue::{TradeData, TradeQueue};
use scrollr::finance::trade::{
    find_row, quote_write, DatabaseTradeData, Direction, QuoteResponse, TradeJob, TradeStep,
};
use scrollr::finance::websocket::{
    BatchCounts, Frame, ReadStep, TimerSetting, TradeUpdate, WebSocketState,
};

fn price(value: f64) -> Price {
    Price { bits: value.to_bits() }
}

fn trade(symbol: &str, value: f64, timestamp: u64) -> TradeData {
    TradeData { symbol: symbol.to_string(), price: price(value), timestamp }
}

fn trades_frame(trades: Vec<TradeData>) -> Frame {
    Frame::Text {
        raw: "raw".to_string(),
        update: Some(TradeUpdate { message_type: "trade".to_string(), data: trades }),
    }
}

fn row(symbol: &str, previous_close: f64) -> DatabaseTradeData {
    DatabaseTradeData {
        symbol: symbol.to_string(),
        price: price(1.5),
        previous_close: price(previous_close),
        price_change: price(0.25),
        percentage_change: price(2.5),
        direction: "down".to_string(),
        last_updated: 77,
    }
}

#[test]
fn price_signs_agree_with_floats() {
    let values = [
        0.0,
        -0.0,
        1.0,
        -1.0,
        f64::MIN_POSITIVE,
        -f64::MIN_POSITIVE,
        5e-324,
        -5e-324,
        f64::MAX,
        f64::MIN,
        f64::INFINITY,
        f64::NEG_INFINITY,
        f64::NAN,
        -f64::NAN,
    ];
    for value in values {
        let p = price(value);
        assert_eq!(p.above_zero(), value > 0.0, "{}", value);
        assert_eq!(p.below_zero(), value < 0.0, "{}", value);
        assert_eq!(p.at_most_zero(), value <= 0.0, "{}", value);
        assert_eq!(p.at_least_zero(), value >= 0.0, "{}", value);
    }
    assert_eq!(Price::zero(), price(0.0));
}

#[test]
fn queue_keeps_newest_trade_of_each_symbol() {
    let mut queue = TradeQueue::new();
    assert!(queue.is_empty());
    assert!(queue.offer(trade("AAPL", 10.0, 5)));
    assert!(!queue.offer(trade("AAPL", 11.0, 5)));
    assert!(!queue.offer(trade("AAPL", 12.0, 4)));
    assert!(queue.offer(trade("MSFT", 20.0, 1)));
    assert!(queue.offer(trade("AAPL", 13.0, 6)));
    assert_eq!(queue.len(), 2);
    let mut trades = queue.take_all();
    trades.sort_by(|a, b| a.symbol.cmp(&b.symbol));
    assert_eq!(trades.len(), 2);
    assert_eq!(trades[0].symbol, "AAPL");
    assert_eq!(trades[0].price, price(13.0));
    assert_eq!(trades[0].timestamp, 6);
    assert_eq!(trades[1].symbol, "MSFT");
    assert!(queue.is_empty());
    assert_eq!(queue.len(), 0);
}

#[test]
fn health_starts_disconnected_and_is_copied() {
    let mut health = FinanceHealth::new();
    assert_eq!(health.status, "healthy");
    assert_eq!(health.connection_status, "disconnected");
    assert_eq!((health.batch_number, health.error_count), (0, 0));
    assert_eq!(health.last_error, None);
    health.update_health("connected".to_string(), 3, 4, Some("oops".to_string()));
    let copy = health.get_health();
    assert_eq!(copy.status, "healthy");
    assert_eq!(copy.connection_status, "connected");
    assert_eq!((copy.batch_number, copy.error_count), (3, 4));
    assert_eq!(copy.last_error, Some("oops".to_string()));
    assert_eq!(copy_text(&copy.last_error), Some("oops".to_string()));
    assert_eq!(copy_text(&None), None);
}

#[test]
fn first_trade_starts_the_timer_and_later_ones_restart_it() {
    let mut state = WebSocketState::new();
    let first = state.on_frame(trades_frame(vec![trade("A", 1.0, 1)]));
    assert_eq!(first, ReadStep::SetTimer(TimerSetting::Start { delay: 1000 }));
    let stale = state.on_frame(trades_frame(vec![trade("A", 2.0, 1)]));
    assert_eq!(stale, ReadStep::Continue);
    let second = state.on_frame(trades_frame(vec![trade("B", 1.0, 1)]));
    assert_eq!(second, ReadStep::SetTimer(TimerSetting::Restart { delay: 1000 }));
    let empty = state.on_frame(trades_frame(vec![]));
    assert_eq!(empty, ReadStep::Continue);
    assert_eq!(state.update_queue.len(), 2);
    assert!(state.batch_timer);
}

#[test]
fn ten_waiting_trades_hurry_the_batch() {
    let mut state = WebSocketState::new();
    let nine: Vec<TradeData> = (0..9).map(|i| trade(&format!("S{}", i), 1.0, 1)).collect();
    assert_eq!(
        state.handle_trade_update_batch(nine),
        Some(TimerSetting::Start { delay: 1000 })
    );
    assert_eq!(
        state.handle_trade_update_batch(vec![trade("S9", 1.0, 1)]),
        Some(TimerSetting::Restart { delay: 500 })
    );
    assert_eq!(state.schedule_batch_processing(), TimerSetting::Restart { delay: 500 });
}

#[test]
fn frames_note_errors_and_end_the_connection() {
    let mut state = WebSocketState::new();
    let error = Frame::Text {
        raw: "{\"type\":\"error\"}".to_string(),
        update: Some(TradeUpdate { message_type: "error".to_string(), data: vec![] }),
    };
    assert_eq!(state.on_frame(error), ReadStep::Continue);
    assert_eq!(state.last_error_message, Some("{\"type\":\"error\"}".to_string()));

    let ping = Frame::Text {
        raw: "{\"type\":\"ping\"}".to_string(),
        update: Some(TradeUpdate { message_type: "ping".to_string(), data: vec![] }),
    };
    assert_eq!(state.on_frame(ping), ReadStep::Continue);
    assert_eq!(state.last_error_message, Some("{\"type\":\"error\"}".to_string()));

    let odd = Frame::Text { raw: "an error occurred".to_string(), update: None };
    assert_eq!(state.on_frame(odd), ReadStep::Continue);
    assert_eq!(state.last_error_message, Some("an error occurred".to_string()));

    let quiet = Frame::Text { raw: "hello".to_string(), update: None };
    assert_eq!(state.on_frame(quiet), ReadStep::Continue);
    assert_eq!(state.on_frame(Frame::Other), ReadStep::Continue);
    assert_eq!(state.last_error_message, Some("an error occurred".to_string()));

    assert_eq!(state.on_frame(Frame::End), ReadStep::Stop);
    assert_eq!(state.last_error_message, Some("an error occurred".to_string()));

    let broken = Frame::Broken { error: "reset".to_string() };
    assert_eq!(state.on_frame(broken), ReadStep::Stop);
    assert_eq!(state.last_error_message, Some("Error receiving message: reset".to_string()));

    assert_eq!(state.on_frame(Frame::Close), ReadStep::Stop);
    assert_eq!(state.last_error_message, Some("Server closed connection".to_string()));
}

#[test]
fn batches_run_one_at_a_time_and_are_numbered() {
    let mut state = WebSocketState::new();
    let mut health = FinanceHealth::new();
    assert!(state.begin_batch().is_none());
    state.on_frame(trades_frame(vec![trade("A", 1.0, 1), trade("B", 1.0, 1)]));
    assert!(state.on_timer());
    assert!(!state.batch_timer);
    let batch = state.begin_batch().unwrap();
    assert_eq!(batch.number, 1);
    assert_eq!(batch.trades.len(), 2);
    assert!(state.update_queue.is_empty());

    state.on_frame(trades_frame(vec![trade("C", 1.0, 1)]));
    assert!(!state.on_timer());
    assert!(state.begin_batch().is_none());
    assert_eq!(state.update_queue.len(), 1);

    let counts = BatchCounts { processed: 2, errors: 0 };
    let end = state.finish_batch(1, Ok(counts), 100, &mut health);
    assert!(end.log);
    assert_eq!(end.timer, Some(TimerSetting::Start { delay: 1000 }));
    assert!(state.batch_timer);
    assert!(!state.is_processing_batch);
    assert_eq!(state.stats.total_updates_processed, 2);
    assert_eq!(health.connection_status, "connected");
    assert_eq!((health.batch_number, health.error_count), (1, 0));
    assert_eq!(health.last_error, None);

    assert!(state.on_timer());
    assert_eq!(state.begin_batch().unwrap().number, 2);
}

#[test]
fn batch_errors_are_noted_once_and_logs_are_throttled() {
    let mut state = WebSocketState::new();
    let mut health = FinanceHealth::new();
    let first = state.finish_batch(
        4,
        Ok(BatchCounts { processed: 1, errors: 2 }),
        1_000_000_000,
        &mut health,
    );
    assert!(first.log);
    assert_eq!(first.timer, None);
    let note = "Batch #4 had 2 errors processing trades".to_string();
    assert_eq!(state.last_error_message, Some(note.clone()));
    assert_eq!(health.last_error, Some(note.clone()));
    assert_eq!(health.error_count, 2);

    let early = state.finish_batch(
        5,
        Ok(BatchCounts { processed: 0, errors: 3 }),
        5_999_999_999,
        &mut health,
    );
    assert!(!early.log);
    assert_eq!(state.last_error_message, Some(note.clone()));
    assert_eq!(state.stats.errors, 5);

    let back = state.finish_batch(
        6,
        Ok(BatchCounts { processed: 0, errors: 0 }),
        0,
        &mut health,
    );
    assert!(!back.log);

    let late = state.finish_batch(
        7,
        Ok(BatchCounts { processed: 0, errors: 0 }),
        6_000_000_000,
        &mut health,
    );
    assert!(late.log);
    assert_eq!(state.last_log_time, Some(6_000_000_000));
    assert_eq!(health.batch_number, 7);
}

#[test]
fn failed_batch_leaves_health_alone() {
    let mut state = WebSocketState::new();
    let mut health = FinanceHealth::new();
    let end = state.finish_batch(9, Err("no table".to_string()), 1, &mut health);
    assert!(!end.log);
    assert_eq!(
        state.last_error_message,
        Some("Batch #9 processing error: no table".to_string())
    );
    assert_eq!(state.stats.errors, 1);
    assert_eq!(health.connection_status, "disconnected");
    assert_eq!(health.batch_number, 0);
}

#[test]
fn connection_changes_are_reported() {
    let mut state = WebSocketState::new();
    let mut health = FinanceHealth::new();
    health.update_health("disconnected".to_string(), 8, 8, Some("old".to_string()));
    WebSocketState::connected(&mut health);
    assert_eq!(health.connection_status, "connected");
    assert_eq!((health.batch_number, health.error_count), (0, 0));
    assert_eq!(health.last_error, None);

    health.batch_number = 12;
    state.on_frame(Frame::Close);
    assert!(!state.disconnected(&mut health));
    assert_eq!(health.connection_status, "disconnected");
    assert_eq!(health.batch_number, 12);
    assert_eq!(health.last_error, Some("Server closed connection".to_string()));

    state.on_frame(trades_frame(vec![trade("A", 1.0, 1)]));
    assert!(state.disconnected(&mut health));
}

#[test]
fn known_symbol_with_close_is_measured() {
    let rows = vec![row("A", 9.0), row("B", 10.0)];
    let job = TradeJob::open(trade("B", 12.0, 1), &rows, 5);
    assert!(!job.is_new);
    assert_eq!(job.record.direction, "down");
    assert_eq!(job.record.last_updated, 77);
    assert_eq!(
        job.start(),
        TradeStep::MeasureChange { price: price(12.0), previous_close: price(10.0) }
    );
    let write = job.write(price(2.0), price(20.0));
    assert_eq!(write.price, price(12.0));
    assert_eq!(write.price_change, price(2.0));
    assert_eq!(write.percentage_change, price(20.0));
    assert_eq!(write.direction.word(), "up");
    assert_eq!(job.write(price(-2.0), price(-20.0)).direction.word(), "down");
    assert_eq!(job.write(price(0.0), price(0.0)).direction, Direction::Up);
    assert_eq!(job.write(price(-0.0), price(0.0)).direction, Direction::Up);
    assert_eq!(job.write(price(f64::NAN), price(0.0)).direction, Direction::Down);
}

#[test]
fn new_symbol_asks_for_a_quote() {
    let mut job = TradeJob::open(trade("N", 12.0, 1), &vec![row("A", 9.0)], 5);
    assert!(job.is_new);
    assert_eq!(job.record.symbol, "N");
    assert_eq!(job.record.price, price(12.0));
    assert_eq!(job.record.previous_close, price(0.0));
    assert_eq!(job.record.direction, "up");
    assert_eq!(job.record.last_updated, 5);
    assert_eq!(job.start(), TradeStep::FetchQuote);

    let quote = |current: f64, close: f64| QuoteResponse {
        current_price: price(current),
        change: price(1.0),
        percent_change: price(1.0),
        previous_close: price(close),
    };
    assert_eq!(job.settle(Some(quote(11.0, 10.0))), price(10.0));
    assert_eq!(
        job.measure(),
        TradeStep::MeasureChange { price: price(12.0), previous_close: price(10.0) }
    );
    assert_eq!(job.settle(Some(quote(11.0, 0.0))), price(11.0));
    assert_eq!(job.settle(Some(quote(0.0, -1.0))), price(12.0));
    assert_eq!(job.settle(None), price(12.0));
    assert_eq!(job.record.previous_close, price(12.0));
}

#[test]
fn trades_without_a_price_write_nothing() {
    let mut free = TradeJob::open(trade("N", 0.0, 1), &vec![], 5);
    assert_eq!(free.start(), TradeStep::FetchQuote);
    assert_eq!(free.settle(None), price(0.0));
    assert_eq!(free.measure(), TradeStep::SkipNoPreviousClose);
    let known = TradeJob::open(trade("A", -1.0, 1), &vec![row("A", 9.0)], 5);
    assert_eq!(known.start(), TradeStep::SkipInvalidPrice);
    let odd = TradeJob::open(trade("A", f64::NAN, 1), &vec![row("A", f64::NAN)], 5);
    assert!(matches!(odd.start(), TradeStep::MeasureChange { .. }));
}

#[test]
fn last_row_of_a_symbol_counts() {
    let rows = vec![row("A", 1.0), row("B", 2.0), row("A", 3.0)];
    assert_eq!(find_row(&rows, "A"), Some(2));
    assert_eq!(find_row(&rows, "B"), Some(1));
    assert_eq!(find_row(&rows, "C"), None);
}

#[test]
fn quotes_write_only_real_changes() {
    let quote = |change: f64| QuoteResponse {
        current_price: price(50.0),
        change: price(change),
        percent_change: price(3.0),
        previous_close: price(49.0),
    };
    let up = quote_write(&quote(1.0)).unwrap();
    assert_eq!(up.price, price(50.0));
    assert_eq!(up.price_change, price(1.0));
    assert_eq!(up.percentage_change, price(3.0));
    assert_eq!(up.direction, Direction::Up);
    assert_eq!(quote_write(&quote(-1.0)).unwrap().direction, Direction::Down);
    assert!(quote_write(&quote(0.0)).is_none());
    assert!(quote_write(&quote(-0.0)).is_none());
    assert!(quote_write(&quote(f64::NAN)).is_none());
}

#[test]
fn state_is_set_up_from_file_and_key() {
    let file = Some("[\"AAPL\", \"BINANCE:BTCUSDT\", \"A\\\"B\"]".to_string());
    let state = FinanceState::new(file, Some("secret".to_string())).unwrap();
    assert_eq!(state.api_key, "secret");
    assert_eq!(state.subscriptions, vec!["AAPL", "BINANCE:BTCUSDT", "A\"B"]);

    let list = || Some("[]".to_string());
    let key = || Some("k".to_string());
    let error = |file: Option<String>, key: Option<String>| FinanceState::new(file, key).unwrap_err();
    assert_eq!(error(None, None), FinanceConfigError::MissingFile);
    assert_eq!(error(Some("{}".to_string()), key()), FinanceConfigError::UnreadableFile);
    assert_eq!(error(Some("[1]".to_string()), None), FinanceConfigError::UnreadableFile);
    assert_eq!(error(list(), None), FinanceConfigError::MissingKey);
    assert_eq!(error(list(), Some("a\nb".to_string())), FinanceConfigError::UnusableKey);
    assert_eq!(error(list(), Some("a\u{7f}b".to_string())), FinanceConfigError::UnusableKey);
    assert!(FinanceState::new(list(), Some("tab\tand ümlaut".to_string())).is_ok());
    assert!(finance_state(Ok(vec![]), key()).is_ok());
    assert_eq!(FinanceConfigError::MissingFile.message(), "Finance configs missing...");
    assert_eq!(
        FinanceConfigError::UnreadableFile.message(),
        "Failed parsing finance configs as Json"
    );
    assert_eq!(
        FinanceConfigError::MissingKey.message(),
        "Finnhub API key needs to be set in .env"
    );
    assert_eq!(
        FinanceConfigError::UnusableKey.message(),
        "Failed casting api_key to HeaderValue"
    );
}

#[test]
fn addresses_and_messages_read_as_expected() {
    assert_eq!(feed_url("k"), "wss://ws.finnhub.io/?token=k");
    assert_eq!(quote_url("AAPL"), "https://finnhub.io/api/v1/quote?symbol=AAPL");
    assert_eq!(subscribe_message("AAPL"), r#"{"type":"subscribe","symbol":"AAPL"}"#);
    let messages = subscribe_messages(&vec!["A".to_string(), "B".to_string()]);
    assert_eq!(messages.len(), 2);
    assert_eq!(messages[1], r#"{"type":"subscribe","symbol":"B"}"#);
}

#[test]
fn symbols_are_grouped_like_chunks() {
    let symbols: Vec<String> = (0..7).map(|i| format!("S{}", i)).collect();
    for size in [1, 3, 5, 7, 9] {
        let expected: Vec<Vec<String>> = symbols.chunks(size).map(|c| c.to_vec()).collect();
        assert_eq!(symbol_groups(&symbols, size), expected);
    }
    assert!(symbol_groups(&vec![], 3).is_empty());
    assert_eq!((SYMBOL_BATCH_SIZE, SYMBOL_BATCH_PAUSE), (5, 100));
    assert_eq!((QUOTE_BATCH_SIZE, QUOTE_BATCH_PAUSE), (3, 1500));
    assert_eq!((TRADE_CONCURRENCY, RECONNECT_PAUSE, QUOTE_TIMEOUT), (5, 300, 10000));
}

#[test]
fn batch_holds_the_newest_trade_of_each_symbol() {
    let mut state = WebSocketState::new();
    state.handle_trade_update_batch(vec![trade("A", 1.0, 3), trade("B", 2.0, 1)]);
    state.handle_trade_update_batch(vec![trade("A", 3.0, 2), trade("B", 4.0, 5), trade("C", 5.0, 0)]);
    let mut trades = state.begin_batch().unwrap().trades;
    trades.sort_by(|a, b| a.symbol.cmp(&b.symbol));
    let kept: Vec<(&str, u64)> = trades.iter().map(|t| (t.symbol.as_str(), t.timestamp)).collect();
    assert_eq!(kept, vec![("A", 3), ("B", 5), ("C", 0)]);
}

#[test]
fn every_trade_of_a_batch_counts_once() {
    let mut counts = BatchCounts::new();
    assert_eq!(counts, BatchCounts { processed: 0, errors: 0 });
    for succeeded in [true, false, true, true] {
        counts.note(succeeded);
    }
    assert_eq!(counts, BatchCounts { processed: 3, errors: 1 });
    let mut state = WebSocketState::new();
    let mut health = FinanceHealth::new();
    state.finish_batch(1, Ok(counts), 0, &mut health);
    assert_eq!(state.stats.total_updates_processed + state.stats.errors, 4);
}

#[test]
fn arrivals_wait_for_the_next_batch() {
    let mut state = WebSocketState::new();
    let mut health = FinanceHealth::new();
    state.on_frame(trades_frame(vec![trade("A", 1.0, 1)]));
    state.on_timer();
    let batch = state.begin_batch().unwrap();
    let many: Vec<TradeData> = (0..10).map(|i| trade(&format!("S{}", i), 1.0, 1)).collect();
    state.on_frame(trades_frame(many));
    assert!(state.begin_batch().is_none());
    assert!(!state.on_timer());
    state.on_frame(trades_frame(vec![trade("S0", 2.0, 2)]));
    assert!(!state.on_timer());
    let counts = BatchCounts { processed: 1, errors: 0 };
    let end = state.finish_batch(batch.number, Ok(counts), 0, &mut health);
    assert_eq!(end.timer, Some(TimerSetting::Start { delay: 500 }));
    assert!(state.on_timer());
    assert_eq!(state.begin_batch().unwrap().trades.len(), 10);
}

#[test]
fn repeated_trades_change_nothing() {
    let mut state = WebSocketState::new();
    let trades = || vec![trade("A", 1.0, 3), trade("B", 2.0, 1), trade("A", 3.0, 4)];
    assert!(state.handle_trade_update_batch(trades()).is_some());
    assert!(state.handle_trade_update_batch(trades()).is_none());
    assert_eq!(state.update_queue.len(), 2);
}
