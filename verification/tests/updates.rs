use binance_orderbook::helper::{number_or_zero, parse_f64};
use binance_orderbook::{
    BookTickerUpdate, BookTickerUpdateReader, DepthUpdate, DepthUpdateReader, Number,
    OrderBookError,
};

fn num(value: f64) -> Number {
    Number::from_bits(value.to_bits())
}

fn val(number: Number) -> f64 {
    f64::from_bits(number.to_bits())
}

fn scan(text: &str) -> Result<Number, String> {
    match text.parse::<f64>() {
        Ok(value) => Ok(num(value)),
        Err(error) => Err(error.to_string()),
    }
}

fn ticker(id: u64, symbol: &str, fields: [&str; 4]) -> BookTickerUpdateReader {
    BookTickerUpdateReader {
        last_update_id: id,
        symbol: symbol.to_string(),
        bid_price: scan(fields[0]),
        bid_qty: scan(fields[1]),
        ask_price: scan(fields[2]),
        ask_qty: scan(fields[3]),
    }
}

fn levels(pairs: &[[&str; 2]]) -> Vec<[Result<Number, String>; 2]> {
    pairs.iter().map(|pair| [scan(pair[0]), scan(pair[1])]).collect()
}

fn plain(levels: &[(Number, Number)]) -> Vec<(f64, f64)> {
    levels.iter().map(|level| (val(level.0), val(level.1))).collect()
}

#[test]
fn ticker_new_keeps_its_arguments() {
    let update = BookTickerUpdate::new(42, num(25.3519), num(31.21), num(25.3652), num(40.66));
    assert_eq!(update.last_update_id, 42);
    assert_eq!(val(update.bid_price), 25.3519);
    assert_eq!(val(update.bid_qty), 31.21);
    assert_eq!(val(update.ask_price), 25.3652);
    assert_eq!(val(update.ask_qty), 40.66);
}

#[test]
fn depth_new_keeps_its_arguments() {
    let update = DepthUpdate::new(
        7,
        vec![(num(0.0024), num(10.0)), (num(0.0025), num(5.0))],
        vec![(num(0.0026), num(100.0))],
    );
    assert_eq!(update.last_update_id, 7);
    assert_eq!(plain(&update.bids), vec![(0.0024, 10.0), (0.0025, 5.0)]);
    assert_eq!(plain(&update.asks), vec![(0.0026, 100.0)]);
}

#[test]
fn ticker_reads_four_numbers() {
    let reader = ticker(
        400900217,
        "BNBUSDT",
        ["25.35190000", "31.21000000", "25.36520000", "40.66000000"],
    );
    let update = BookTickerUpdate::from_reader(reader).unwrap();
    assert_eq!(update.last_update_id, 400900217);
    assert_eq!(val(update.bid_price), 25.3519);
    assert_eq!(val(update.bid_qty), 31.21);
    assert_eq!(val(update.ask_price), 25.3652);
    assert_eq!(val(update.ask_qty), 40.66);
}

#[test]
fn ticker_names_the_field_that_is_not_a_number() {
    let cases = [
        (["x", "1", "2", "3"], "bid_price"),
        (["0", "1e", "2", "3"], "bid_qty"),
        (["0", "1", "2,5", "3"], "ask_price"),
        (["0", "1", "2", "three"], "ask_qty"),
    ];
    for (fields, name) in cases {
        match BookTickerUpdate::from_reader(ticker(1, "BNBUSDT", fields)) {
            Err(OrderBookError::ParseError(detail)) => {
                assert_eq!(detail, format!("Error parsing {}: invalid float literal", name));
            }
            other => panic!("expected a parse error for {}, got {:?}", name, other),
        }
    }
}

#[test]
fn ticker_reports_the_first_bad_field_only() {
    match BookTickerUpdate::from_reader(ticker(1, "BNBUSDT", ["1", "", "bad", "worse"])) {
        Err(error) => {
            assert_eq!(
                error.to_string(),
                "Parse error: Error parsing bid_qty: cannot parse float from empty string"
            );
        }
        Ok(update) => panic!("expected a parse error, got {:?}", update),
    }
}

#[test]
fn strict_field_reader() {
    assert_eq!(val(parse_f64(&scan("31.21"), "bid_qty").unwrap()), 31.21);
    assert_eq!(val(parse_f64(&scan("-0.5"), "bid_qty").unwrap()), -0.5);
    match parse_f64(&Err("no digits".to_string()), "ask_price") {
        Err(OrderBookError::ParseError(detail)) => {
            assert_eq!(detail, "Error parsing ask_price: no digits");
        }
        other => panic!("expected a parse error, got {:?}", other),
    }
    match parse_f64(&Err(String::new()), "") {
        Err(OrderBookError::ParseError(detail)) => assert_eq!(detail, "Error parsing : "),
        other => panic!("expected a parse error, got {:?}", other),
    }
}

#[test]
fn lenient_field_reader() {
    assert_eq!(val(number_or_zero(&scan("100.0"))), 100.0);
    assert_eq!(number_or_zero(&scan("abc")).to_bits(), 0);
    assert_eq!(number_or_zero(&Err(String::new())).to_bits(), 0);
}

#[test]
fn depth_reads_levels_in_order() {
    let reader = DepthUpdateReader {
        last_update_id: 160,
        bids: levels(&[["0.0024", "10"], ["0.0025", "5"]]),
        asks: levels(&[["0.0026", "100"]]),
    };
    let update = DepthUpdate::from_reader(reader);
    assert_eq!(update.last_update_id, 160);
    assert_eq!(plain(&update.bids), vec![(0.0024, 10.0), (0.0025, 5.0)]);
    assert_eq!(plain(&update.asks), vec![(0.0026, 100.0)]);
}

#[test]
fn depth_counts_a_bad_field_as_zero() {
    let reader = DepthUpdateReader {
        last_update_id: 3,
        bids: levels(&[["abc", "10"], ["0.0025", "?"], ["", ""]]),
        asks: levels(&[]),
    };
    let update = DepthUpdate::from_reader(reader);
    assert_eq!(update.last_update_id, 3);
    assert_eq!(plain(&update.bids), vec![(0.0, 10.0), (0.0025, 0.0), (0.0, 0.0)]);
    assert_eq!(update.bids[0].0.to_bits(), 0);
    assert!(update.asks.is_empty());
}
