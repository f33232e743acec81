use binance_orderbook::{
    BinanceMessage, BookTickerUpdateReader, DepthUpdate, DepthUpdateReader, Number, OrderBook,
    OrderBookError,
};

fn num(value: f64) -> Number {
    Number::from_bits(value.to_bits())
}

fn val(number: Number) -> f64 {
    f64::from_bits(number.to_bits())
}

fn scan(text: &str) -> Result<Number, String> {
    match text.parse::<f64>() {
        Ok(value) => Ok(num(value)),
        Err(error) => Err(error.to_string()),
    }
}

fn ticker(id: u64, symbol: &str, fields: [&str; 4]) -> BinanceMessage {
    BinanceMessage::BookTicker(BookTickerUpdateReader {
        last_update_id: id,
        symbol: symbol.to_string(),
        bid_price: scan(fields[0]),
        bid_qty: scan(fields[1]),
        ask_price: scan(fields[2]),
        ask_qty: scan(fields[3]),
    })
}

fn depth(id: u64, bids: &[[&str; 2]], asks: &[[&str; 2]]) -> BinanceMessage {
    BinanceMessage::DepthUpdate(DepthUpdateReader {
        last_update_id: id,
        bids: bids.iter().map(|pair| [scan(pair[0]), scan(pair[1])]).collect(),
        asks: asks.iter().map(|pair| [scan(pair[0]), scan(pair[1])]).collect(),
    })
}

fn best(book: &OrderBook) -> Option<((f64, f64), (f64, f64))> {
    book.get_best_bid_ask()
        .map(|(bid, ask)| ((val(bid.0), val(bid.1)), (val(ask.0), val(ask.1))))
}

#[test]
fn ticker_message_is_applied() {
    let mut book = OrderBook::new("BNBUSDT".to_string());
    let outcome = book.process_message(ticker(
        400900217,
        "BNBUSDT",
        ["25.35190000", "31.21000000", "25.36520000", "40.66000000"],
    ));
    assert!(outcome.is_ok());
    assert_eq!(best(&book), Some(((25.3519, 31.21), (25.3652, 40.66))));
    assert!(book.is_update_sequential(400900217).is_err());
    assert!(book.is_update_sequential(400900218).is_ok());
}

#[test]
fn depth_message_is_applied() {
    let mut book = OrderBook::new("BNBUSDT".to_string());
    let outcome = book.process_message(depth(
        160,
        &[["0.0024", "10"], ["0.0025", "5"]],
        &[["0.0026", "100"]],
    ));
    assert!(outcome.is_ok());
    assert_eq!(val(book.get_volume_at_price(num(0.0024))), 10.0);
    assert_eq!(val(book.get_volume_at_price(num(0.0026))), 100.0);
    assert_eq!(val(book.get_volume_at_price(num(0.0030))), 0.0);
    assert!(book.is_update_sequential(160).is_err());
    assert!(book.is_update_sequential(161).is_ok());
}

#[test]
fn rising_ids_end_at_the_last_id() {
    let mut book = OrderBook::new("BNBUSDT".to_string());
    let messages = vec![
        ticker(3, "BNBUSDT", ["10", "1", "11", "1"]),
        depth(4, &[["9", "2"]], &[["12", "2"]]),
        depth(10, &[["10", "0"]], &[]),
        ticker(11, "BNBUSDT", ["9.5", "3", "11", "0"]),
        ticker(u64::MAX, "BNBUSDT", ["9.75", "4", "11.5", "5"]),
    ];
    for message in messages {
        assert!(book.process_message(message).is_ok());
    }
    assert!(book.is_update_sequential(u64::MAX).is_err());
    assert_eq!(best(&book), Some(((9.75, 4.0), (11.5, 5.0))));
    assert_eq!(val(book.get_volume_at_price(num(9.0))), 2.0);
    assert_eq!(val(book.get_volume_at_price(num(9.5))), 3.0);
    assert_eq!(val(book.get_volume_at_price(num(10.0))), 0.0);
    assert_eq!(val(book.get_volume_at_price(num(11.0))), 0.0);
    assert_eq!(val(book.get_volume_at_price(num(12.0))), 2.0);
}

#[test]
fn same_id_twice_is_applied_once() {
    let mut book = OrderBook::new("BNBUSDT".to_string());
    assert!(book.process_message(depth(50, &[["10", "1"]], &[["11", "2"]])).is_ok());

    match book.process_message(depth(50, &[["10", "9"], ["8", "9"]], &[["11", "0"]])) {
        Err(OrderBookError::UpdateIdOutdated(detail)) => {
            assert_eq!(detail, "Skipping outdated update: 50");
        }
        other => panic!("expected a stale update, got {:?}", other),
    }
    assert_eq!(best(&book), Some(((10.0, 1.0), (11.0, 2.0))));
    assert_eq!(val(book.get_volume_at_price(num(8.0))), 0.0);

    match book.process_message(ticker(50, "BNBUSDT", ["10", "9", "11", "9"])) {
        Err(OrderBookError::UpdateIdOutdated(_)) => {}
        other => panic!("expected a stale update, got {:?}", other),
    }
    assert!(book.process_message(ticker(49, "BNBUSDT", ["10", "9", "11", "9"])).is_err());
    assert_eq!(best(&book), Some(((10.0, 1.0), (11.0, 2.0))));
    assert!(book.is_update_sequential(50).is_err());
    assert!(book.is_update_sequential(51).is_ok());
}

#[test]
fn other_symbol_is_turned_away_and_changes_nothing() {
    let mut book = OrderBook::new("BNBUSDT".to_string());
    assert!(book.process_message(depth(5, &[["10", "1"]], &[["11", "2"]])).is_ok());

    match book.process_message(ticker(6, "ETHUSDT", ["10", "9", "11", "9"])) {
        Err(OrderBookError::DifferentSymbol(detail)) => {
            assert_eq!(detail, "Symbol is different! expected: BNBUSDT, found: ETHUSDT");
        }
        other => panic!("expected a mismatch, got {:?}", other),
    }
    assert_eq!(best(&book), Some(((10.0, 1.0), (11.0, 2.0))));
    assert!(book.is_update_sequential(5).is_err());
    assert!(book.is_update_sequential(6).is_ok());
}

#[test]
fn symbol_is_checked_before_the_id_and_the_id_before_the_fields() {
    let mut book = OrderBook::new("BNBUSDT".to_string());
    assert!(book.process_message(depth(5, &[], &[])).is_ok());

    match book.process_message(ticker(5, "ETHUSDT", ["x", "9", "11", "9"])) {
        Err(OrderBookError::DifferentSymbol(_)) => {}
        other => panic!("expected a mismatch, got {:?}", other),
    }
    match book.process_message(ticker(5, "BNBUSDT", ["x", "9", "11", "9"])) {
        Err(OrderBookError::UpdateIdOutdated(_)) => {}
        other => panic!("expected a stale update, got {:?}", other),
    }
    match book.process_message(ticker(6, "BNBUSDT", ["10", "9", "x", "9"])) {
        Err(OrderBookError::ParseError(detail)) => {
            assert_eq!(detail, "Error parsing ask_price: invalid float literal");
        }
        other => panic!("expected a parse error, got {:?}", other),
    }
    assert!(book.get_best_bid_ask().is_none());
    assert_eq!(val(book.get_volume_at_price(num(10.0))), 0.0);
    assert!(book.is_update_sequential(6).is_ok());
}

#[test]
fn depth_message_with_bad_fields_is_applied_with_zeros() {
    let mut book = OrderBook::new("BNBUSDT".to_string());
    assert!(book.process_message(depth(1, &[["10", "1"], ["9", "2"]], &[["11", "2"]])).is_ok());
    assert!(book.process_message(depth(2, &[["10", "?"], ["?", "3"]], &[])).is_ok());
    assert_eq!(val(book.get_volume_at_price(num(10.0))), 0.0);
    assert_eq!(val(book.get_volume_at_price(num(0.0))), 3.0);
    assert_eq!(best(&book), Some(((9.0, 2.0), (11.0, 2.0))));
}

#[test]
fn message_shape_is_ticker_first_then_depth() {
    let ticker_reader = BookTickerUpdateReader {
        last_update_id: 1,
        symbol: "BNBUSDT".to_string(),
        bid_price: scan("1"),
        bid_qty: scan("2"),
        ask_price: scan("3"),
        ask_qty: scan("4"),
    };
    let depth_reader = DepthUpdateReader { last_update_id: 2, bids: vec![], asks: vec![] };
    let other_depth = DepthUpdateReader { last_update_id: 3, bids: vec![], asks: vec![] };

    match BinanceMessage::from_parsed(Some(ticker_reader), Some(depth_reader)) {
        Ok(BinanceMessage::BookTicker(reader)) => assert_eq!(reader.last_update_id, 1),
        other => panic!("expected a best-price update, got {:?}", other),
    }
    match BinanceMessage::from_parsed(None, Some(other_depth)) {
        Ok(BinanceMessage::DepthUpdate(reader)) => assert_eq!(reader.last_update_id, 3),
        other => panic!("expected a depth update, got {:?}", other),
    }
    match BinanceMessage::from_parsed(None, None) {
        Err(OrderBookError::IncorrectJsonData) => {}
        other => panic!("expected a malformed message, got {:?}", other),
    }
}

#[test]
fn errors_render_as_lines() {
    assert_eq!(
        OrderBookError::DifferentSymbol("a".to_string()).to_string(),
        "Symbol is different: a"
    );
    assert_eq!(
        OrderBookError::UpdateIdOutdated("b".to_string()).to_string(),
        "lastUpdateId is outdated: b"
    );
    assert_eq!(OrderBookError::ParseError("c".to_string()).to_string(), "Parse error: c");
    assert_eq!(OrderBookError::IncorrectJsonData.to_string(), "Json data is incorrect!");
    assert_eq!(
        OrderBookError::different_symbol("BNBUSDT", "ETHUSDT").to_string(),
        "Symbol is different: Symbol is different! expected: BNBUSDT, found: ETHUSDT"
    );
    assert_eq!(
        OrderBookError::outdated(7).to_string(),
        "lastUpdateId is outdated: Skipping outdated update: 7"
    );
    assert_eq!(
        OrderBookError::parse("bid_qty", "invalid float literal").to_string(),
        "Parse error: Error parsing bid_qty: invalid float literal"
    );
}

#[test]
fn unchecked_update_may_lower_the_id() {
    let mut book = OrderBook::new("BNBUSDT".to_string());
    book.update_depth(&DepthUpdate::new(9, vec![], vec![]));
    book.update_depth(&DepthUpdate::new(4, vec![(num(1.0), num(1.0))], vec![]));
    assert!(book.is_update_sequential(4).is_err());
    assert!(book.is_update_sequential(5).is_ok());
}
