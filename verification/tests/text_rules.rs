use stock_signal::alpaca::{position_absent, reply_body, AlpacaCall, AlpacaClient};
use stock_signal::bronze::{now_secs, yahoo_quote_url, BronzeTick};
use stock_signal::commands::{check_symbol, market_order};
use stock_signal::commands::{
    alpaca_status, configured_client, list_orders_query, position_symbol, prepare_order,
    validate_symbol, AlpacaStatus,
};
use stock_signal::kafka::{bronze_destination, producer_settings};
use stock_signal::text::{contains_text, push_decimal, same_text};
use stock_signal::trino::{escape, latest_signal_sql, TrinoClient};

fn client(url: Option<&str>) -> AlpacaClient {
    AlpacaClient::from_settings(Some("k".to_string()), Some("s".to_string()), url.map(|u| u.to_string()))
        .unwrap()
}

#[test]
fn escape_doubles_quotes() {
    assert_eq!(escape("AAPL"), "AAPL");
    assert_eq!(escape("O'Brien"), "O''Brien");
    assert_eq!(escape("''"), "''''");
    assert_eq!(escape(""), "");
}

#[test]
fn escaped_text_reads_back() {
    let original = "x' OR '1'='1";
    let quoted = escape(original);
    assert_eq!(quoted.replace("''", "'"), original);
    assert!(!quoted.replace("''", "").contains('\''));
}

#[test]
fn latest_signal_query_text() {
    let sql = latest_signal_sql("BRK'B");
    assert_eq!(
        sql,
        "SELECT tick_id, symbol, price, signal, short_ma, long_ma, rsi, confidence, timestamp\n             FROM iceberg.stocks.gold_signals\n             WHERE symbol = 'BRK''B'\n             ORDER BY timestamp DESC LIMIT 1"
    );
}

#[test]
fn trino_addresses_and_headers() {
    let c = TrinoClient::new("http://localhost:8080", "stock-signal", "iceberg", "stocks");
    assert_eq!(c.statement_url(), "http://localhost:8080/v1/statement");
    let h = c.statement_headers();
    assert_eq!(h.len(), 3);
    assert_eq!(h[0], ("X-Trino-User".to_string(), "stock-signal".to_string()));
    assert_eq!(h[1], ("X-Trino-Catalog".to_string(), "iceberg".to_string()));
    assert_eq!(h[2], ("X-Trino-Schema".to_string(), "stocks".to_string()));
    assert_eq!(c.poll_headers(), vec![("X-Trino-User".to_string(), "stock-signal".to_string())]);
}

#[test]
fn alpaca_settings() {
    assert!(AlpacaClient::from_settings(None, Some("s".to_string()), None).is_none());
    assert!(AlpacaClient::from_settings(Some("k".to_string()), None, None).is_none());
    let c = client(None);
    assert_eq!(c.account_url(), "https://paper-api.alpaca.markets/v2/account");
    assert_eq!(
        c.auth_headers(),
        vec![
            ("APCA-API-KEY-ID".to_string(), "k".to_string()),
            ("APCA-API-SECRET-KEY".to_string(), "s".to_string())
        ]
    );
    assert!(c.is_paper());
    let live = client(Some("https://api.alpaca.markets"));
    assert!(!live.is_paper());
}

#[test]
fn alpaca_addresses_and_headers() {
    let c = client(Some("https://example.test"));
    assert_eq!(c.orders_url(), "https://example.test/v2/orders");
    assert_eq!(
        c.list_orders_url("all", 20),
        "https://example.test/v2/orders?status=all&limit=20&direction=desc"
    );
    assert_eq!(
        c.list_orders_url("open", 4294967295),
        "https://example.test/v2/orders?status=open&limit=4294967295&direction=desc"
    );
    assert_eq!(c.list_orders_url("open", 0), "https://example.test/v2/orders?status=open&limit=0&direction=desc");
    assert_eq!(c.position_url("TSLA"), "https://example.test/v2/positions/TSLA");
    assert_eq!(c.account_url(), "https://example.test/v2/account");
    let h = c.auth_headers();
    assert_eq!(h[0], ("APCA-API-KEY-ID".to_string(), "k".to_string()));
    assert_eq!(h[1], ("APCA-API-SECRET-KEY".to_string(), "s".to_string()));
}

#[test]
fn alpaca_replies() {
    assert_eq!(reply_body(AlpacaCall::GetAccount, 200, "200 OK", "{}".to_string()), Ok("{}".to_string()));
    assert_eq!(reply_body(AlpacaCall::PlaceOrder, 299, "299 <unknown status code>", "b".to_string()), Ok("b".to_string()));
    assert_eq!(
        reply_body(AlpacaCall::PlaceOrder, 422, "422 Unprocessable Entity", "{\"message\":\"qty\"}".to_string()),
        Err("Alpaca place_order [422 Unprocessable Entity]: {\"message\":\"qty\"}".to_string())
    );
    assert_eq!(
        reply_body(AlpacaCall::ListOrders, 199, "199 <unknown status code>", "".to_string()),
        Err("Alpaca list_orders [199 <unknown status code>]: ".to_string())
    );
    assert_eq!(
        reply_body(AlpacaCall::GetPosition, 500, "500 Internal Server Error", "x".to_string()),
        Err("Alpaca get_position [500 Internal Server Error]: x".to_string())
    );
    assert!(position_absent(404));
    assert!(!position_absent(200));
}

#[test]
fn symbol_validation() {
    assert_eq!(validate_symbol("  aapl "), Ok("AAPL".to_string()));
    assert_eq!(validate_symbol("abcdefghij"), Ok("ABCDEFGHIJ".to_string()));
    assert_eq!(validate_symbol("abcdefghijk"), Err("symbol must be 1-10 chars".to_string()));
    assert_eq!(validate_symbol("   "), Err("symbol must be 1-10 chars".to_string()));
    assert_eq!(validate_symbol(""), Err("symbol must be 1-10 chars".to_string()));
    // ten characters but more than ten bytes
    // the limit counts characters, not bytes
    assert_eq!(validate_symbol("ééééé"), Ok("ÉÉÉÉÉ".to_string()));
    assert_eq!(validate_symbol("éééééé"), Ok("ÉÉÉÉÉÉ".to_string()));
    assert_eq!(validate_symbol("éééééééééé"), Ok("ÉÉÉÉÉÉÉÉÉÉ".to_string()));
    assert_eq!(validate_symbol("ééééééééééé"), Err("symbol must be 1-10 chars".to_string()));
    assert_eq!(check_symbol("ÉÉÉÉÉÉ".to_string()), Ok("ÉÉÉÉÉÉ".to_string()));
    assert_eq!(check_symbol(String::new()), Err("symbol must be 1-10 chars".to_string()));
    assert_eq!(check_symbol("abcdefghijk".to_string()), Err("symbol must be 1-10 chars".to_string()));
    assert_eq!(position_symbol("msft"), "MSFT");
}

#[test]
fn order_preparation() {
    let o = prepare_order("aapl", "BUY", true).unwrap();
    assert_eq!(o.symbol, "AAPL");
    assert_eq!(o.side, "buy");
    assert_eq!(o.order_type, "market");
    assert_eq!(o.time_in_force, "day");
    assert_eq!(prepare_order("aapl", "Sell", true).unwrap().side, "sell");
    assert_eq!(prepare_order("aapl", "hold", true).err(), Some("side must be 'buy' or 'sell'".to_string()));
    assert_eq!(prepare_order("aapl", "buy", false).err(), Some("qty must be > 0".to_string()));
    // the side is checked first
    assert_eq!(prepare_order("aapl", "short", false).err(), Some("side must be 'buy' or 'sell'".to_string()));
    // on already normalised fields, the side is matched as it is
    assert_eq!(market_order("AAPL".to_string(), "BUY".to_string(), true).err(), Some("side must be 'buy' or 'sell'".to_string()));
    let o = market_order("AAPL".to_string(), "sell".to_string(), true).unwrap();
    assert_eq!((o.symbol.as_str(), o.side.as_str(), o.order_type.as_str(), o.time_in_force.as_str()), ("AAPL", "sell", "market", "day"));
    assert_eq!(market_order("AAPL".to_string(), "buy".to_string(), false).err(), Some("qty must be > 0".to_string()));
}

#[test]
fn listing_defaults() {
    assert_eq!(list_orders_query(None, None), ("all".to_string(), 20));
    assert_eq!(list_orders_query(Some("open".to_string()), Some(5)), ("open".to_string(), 5));
}

#[test]
fn brokerage_status() {
    assert_eq!(alpaca_status(&None), AlpacaStatus { configured: false, paper: true });
    assert_eq!(alpaca_status(&Some(client(None))), AlpacaStatus { configured: true, paper: true });
    assert_eq!(
        alpaca_status(&Some(client(Some("https://api.alpaca.markets")))),
        AlpacaStatus { configured: true, paper: false }
    );
    assert_eq!(
        configured_client(&None).err(),
        Some("Alpaca not configured. Set ALPACA_KEY and ALPACA_SECRET env vars.".to_string())
    );
    let c = Some(client(None));
    assert_eq!(configured_client(&c).unwrap().orders_url(), "https://paper-api.alpaca.markets/v2/orders");
}

#[test]
fn bronze_stamping() {
    let stamp = now_secs().expect("the clock reads after the epoch");
    let t = BronzeTick::observed("AAPL", 123_450_000, stamp);
    assert_eq!(t.fetched_at, stamp);
    assert_eq!(t.symbol, "AAPL");
    assert_eq!(t.raw_price, 123_450_000);
    assert_eq!(t.source, "yahoo_v10");
    let id: Vec<char> = t.tick_id.chars().collect();
    assert_eq!(id.len(), 36);
    for (i, c) in id.iter().enumerate() {
        if i == 8 || i == 13 || i == 18 || i == 23 {
            assert_eq!(*c, '-');
        } else {
            assert!(c.is_ascii_digit() || ('a'..='f').contains(c));
        }
    }
    assert_eq!(id[14], '4');
    assert!(['8', '9', 'a', 'b'].contains(&id[19]));
    let other = BronzeTick::observed("AAPL", 1, 0);
    assert_eq!(other.fetched_at, 0);
    assert_ne!(other.tick_id, t.tick_id);
    assert!(t.fetched_at > 1_600_000_000);
    assert!(now_secs().unwrap() >= t.fetched_at);
    assert_eq!(
        yahoo_quote_url("AAPL"),
        "https://query1.finance.yahoo.com/v10/finance/quoteSummary/AAPL?modules=price"
    );
}

#[test]
fn kafka_settings_and_destination() {
    let s = producer_settings("localhost:9092");
    let expect: Vec<(String, String)> = vec![
        ("bootstrap.servers", "localhost:9092"),
        ("message.timeout.ms", "5000"),
        ("compression.type", "lz4"),
        ("linger.ms", "100"),
        ("batch.size", "16384"),
    ]
    .into_iter()
    .map(|(a, b)| (a.to_string(), b.to_string()))
    .collect();
    assert_eq!(s, expect);
    let t = BronzeTick::observed("NVDA", 5, 1_700_000_000);
    assert_eq!(bronze_destination(&t), ("bronze_ticks".to_string(), "NVDA".to_string()));
}

#[test]
fn text_helpers() {
    assert!(contains_text("https://paper-api.alpaca.markets", "paper-api"));
    assert!(!contains_text("paper-ap", "paper-api"));
    assert!(contains_text("abc", ""));
    assert!(same_text("FINISHED", "FINISHED"));
    assert!(!same_text("FINISHED", "FINISHE"));
    let mut s = String::from("n=");
    push_decimal(&mut s, 1_234_567_890_123);
    assert_eq!(s, "n=1234567890123");
    let mut z = String::new();
    push_decimal(&mut z, 0);
    assert_eq!(z, "0");
}

#[test]
fn quoting_adds_one_character_per_quote() {
    for s in ["", "AAPL", "'", "a'b''c", "''''"] {
        let quotes = s.matches('\'').count();
        assert_eq!(escape(s).chars().count(), s.chars().count() + quotes);
        assert_eq!(escape(s).replace("''", "'"), s);
    }
}

#[test]
fn symbol_trimming_uses_unicode_white_space() {
    assert_eq!(validate_symbol("\u{3000}aapl\u{a0}\t"), Ok("AAPL".to_string()));
    assert_eq!(validate_symbol("\u{2009}msft\u{2028}"), Ok("MSFT".to_string()));
    // a zero-width space is not white space: it stays
    assert_eq!(validate_symbol("\u{200b}ab"), Ok("\u{200b}AB".to_string()));
}
