use stock_signal::bronze::BronzeTick;
use stock_signal::gold::{confidence, Fraction, GoldProcessor, Signal};
use stock_signal::pipeline::Pipeline;
use stock_signal::silver::{RsiBasis, SilverProcessor, SilverTick, MAX_PRICE, PRICE_SCALE};

fn tick(price: i64) -> BronzeTick {
    BronzeTick {
        tick_id: format!("t{}", price),
        symbol: "AAPL".to_string(),
        raw_price: price,
        fetched_at: 1_700_000_000,
        source: "yahoo_v10".to_string(),
    }
}

fn silver(short: Option<i64>, long: Option<i64>, rsi: Option<RsiBasis>) -> SilverTick {
    SilverTick {
        tick_id: "x".to_string(),
        symbol: "AAPL".to_string(),
        price: 100 * PRICE_SCALE,
        short_ma: short,
        long_ma: long,
        rsi,
        timestamp: 7,
    }
}

#[test]
fn rejects_prices_outside_the_valid_range() {
    let mut p = SilverProcessor::new();
    assert!(p.process(&tick(0)).is_none());
    assert!(p.process(&tick(-5)).is_none());
    assert!(p.process(&tick(MAX_PRICE + 1)).is_none());
    let t = p.process(&tick(MAX_PRICE)).expect("the largest price is accepted");
    assert_eq!(t.price, MAX_PRICE);
    let t = p.process(&tick(1)).expect("the smallest price is accepted");
    assert_eq!(t.price, 1);
}

#[test]
fn rejected_tick_leaves_the_window_alone() {
    let mut p = SilverProcessor::new();
    for i in 1..=4 {
        assert!(p.process(&tick(i * 10)).is_some());
    }
    assert!(p.process(&tick(0)).is_none());
    let t = p.process(&tick(50)).unwrap();
    // the window is 10, 20, 30, 40, 50: the rejected tick left no trace
    assert_eq!(t.short_ma, Some(4 * 150));
}

#[test]
fn averages_appear_after_five_and_twenty_prices() {
    let mut p = SilverProcessor::new();
    let mut last = None;
    for i in 1..=20i64 {
        let t = p.process(&tick(i)).unwrap();
        if i < 5 {
            assert_eq!(t.short_ma, None);
        } else {
            let s: i64 = (i - 4..=i).sum();
            assert_eq!(t.short_ma, Some(4 * s));
        }
        if i < 20 {
            assert_eq!(t.long_ma, None);
        }
        if i < 14 {
            assert!(t.rsi.is_none());
        } else {
            assert!(t.rsi.is_some());
        }
        last = Some(t);
    }
    let t = last.unwrap();
    assert_eq!(t.long_ma, Some((1..=20i64).sum()));
    assert_eq!(t.timestamp, 1_700_000_000);
    assert_eq!(t.tick_id, "t20");
}

#[test]
fn window_keeps_the_newest_twenty_two_prices() {
    let mut p = SilverProcessor::new();
    let mut last = None;
    for i in 1..=30i64 {
        last = p.process(&tick(i * 1000));
    }
    let t = last.unwrap();
    let long: i64 = (11..=30i64).map(|i| i * 1000).sum();
    assert_eq!(t.long_ma, Some(long));
    // RSI over the last fourteen changes: all upward, 1000 each
    assert_eq!(t.rsi, Some(RsiBasis { gains: 14_000, losses: 0 }));
}

#[test]
fn rsi_sums_gains_and_losses_of_the_last_fourteen_changes() {
    let mut p = SilverProcessor::new();
    // 16 prices: the first change (100 -> 200) falls out of the RSI span
    let prices = [100, 200, 150, 180, 170, 190, 160, 165, 175, 155, 185, 145, 195, 135, 205, 125];
    let mut last = None;
    for &x in prices.iter() {
        last = p.process(&tick(x));
    }
    let t = last.unwrap();
    let mut gains = 0u64;
    let mut losses = 0u64;
    for w in prices[1..].windows(2) {
        let d = w[1] - w[0];
        if d > 0 {
            gains += d as u64;
        } else {
            losses += (-d) as u64;
        }
    }
    assert_eq!(t.rsi, Some(RsiBasis { gains, losses }));
    // gains minus losses is the net move over the span
    assert_eq!(gains as i64 - losses as i64, 125 - 200);
}

#[test]
fn rsi_thresholds() {
    // RSI = 100 * 7 / 10 = 70: not below 70
    assert!(!RsiBasis { gains: 7, losses: 3 }.below_70());
    // RSI = 100 * 69 / 100 = 69
    assert!(RsiBasis { gains: 69, losses: 31 }.below_70());
    // no losses: RSI 100
    assert!(!RsiBasis { gains: 5, losses: 0 }.below_70());
    assert!(RsiBasis { gains: 5, losses: 0 }.above_30());
    assert!(RsiBasis { gains: 0, losses: 0 }.above_30());
    // RSI = 30 exactly: not above 30
    assert!(!RsiBasis { gains: 3, losses: 7 }.above_30());
    assert!(RsiBasis { gains: 31, losses: 69 }.above_30());
}

#[test]
fn first_tick_with_both_averages_holds() {
    let mut g = GoldProcessor::new();
    assert!(g.process(&silver(Some(10), None, None)).is_none());
    let s = g.process(&silver(Some(30), Some(20), None)).unwrap();
    assert_eq!(s.signal, Signal::Hold);
    assert_eq!(s.short_ma, 30);
    assert_eq!(s.long_ma, 20);
    assert_eq!(s.timestamp, 7);
}

#[test]
fn crossovers_give_buy_and_sell() {
    let mut g = GoldProcessor::new();
    assert_eq!(g.process(&silver(Some(10), Some(20), None)).unwrap().signal, Signal::Hold);
    assert_eq!(g.process(&silver(Some(30), Some(20), None)).unwrap().signal, Signal::Buy);
    assert_eq!(g.process(&silver(Some(40), Some(20), None)).unwrap().signal, Signal::Hold);
    assert_eq!(g.process(&silver(Some(20), Some(20), None)).unwrap().signal, Signal::Sell);
    assert_eq!(g.process(&silver(Some(19), Some(20), None)).unwrap().signal, Signal::Hold);
}

#[test]
fn rsi_vetoes_crossovers() {
    let overbought = RsiBasis { gains: 80, losses: 20 };
    let oversold = RsiBasis { gains: 20, losses: 80 };
    let mut g = GoldProcessor::new();
    g.process(&silver(Some(10), Some(20), None));
    assert_eq!(g.process(&silver(Some(30), Some(20), Some(overbought))).unwrap().signal, Signal::Hold);
    // the side was still remembered: going back down is a (confirmed) Sell
    assert_eq!(g.process(&silver(Some(10), Some(20), Some(overbought))).unwrap().signal, Signal::Sell);
    assert_eq!(g.process(&silver(Some(30), Some(20), Some(oversold))).unwrap().signal, Signal::Buy);
    assert_eq!(g.process(&silver(Some(10), Some(20), Some(oversold))).unwrap().signal, Signal::Hold);
}

#[test]
fn missing_average_changes_nothing() {
    let mut g = GoldProcessor::new();
    g.process(&silver(Some(10), Some(20), None));
    assert!(g.process(&silver(None, Some(20), None)).is_none());
    assert_eq!(g.process(&silver(Some(30), Some(20), None)).unwrap().signal, Signal::Buy);
}

#[test]
fn confidence_values() {
    // |2001 - 2000| / 2000 * 100 = 0.05
    assert_eq!(confidence(2001, 2000), Fraction { num: 100, den: 2000 });
    // capped at 1
    assert_eq!(confidence(2100, 2000), Fraction { num: 1, den: 1 });
    assert_eq!(confidence(1980, 2000), Fraction { num: 1, den: 1 });
    assert_eq!(confidence(2000, 2000), Fraction { num: 0, den: 2000 });
    // a zero long average
    assert_eq!(confidence(5, 0), Fraction { num: 1, den: 1 });
    // a negative long average gives the negative quotient
    assert_eq!(confidence(-10, -20), Fraction { num: -1000, den: 20 });
}

#[test]
fn signal_names() {
    assert_eq!(Signal::Buy.as_str(), "Buy");
    assert_eq!(Signal::Sell.as_str(), "Sell");
    assert_eq!(Signal::Hold.as_str(), "Hold");
}

#[test]
fn pipeline_emits_from_the_twentieth_valid_price() {
    let mut p = Pipeline::new();
    for i in 1..=19i64 {
        assert!(p.ingest(&tick(i * PRICE_SCALE)).is_none());
        assert!(p.ingest(&tick(0)).is_none());
    }
    let g = p.ingest(&tick(20 * PRICE_SCALE)).expect("twenty valid prices give a signal");
    assert_eq!(g.signal, Signal::Hold);
    let short: i64 = (16..=20i64).map(|i| i * PRICE_SCALE).sum();
    let long: i64 = (1..=20i64).map(|i| i * PRICE_SCALE).sum();
    assert_eq!(g.short_ma, 4 * short);
    assert_eq!(g.long_ma, long);
    assert_eq!(g.tick_id, "t20000000");
}

#[test]
fn pipeline_sells_on_a_drop() {
    let mut p = Pipeline::new();
    let mut signals = Vec::new();
    for i in 1..=25i64 {
        if let Some(g) = p.ingest(&tick(i * PRICE_SCALE)) {
            signals.push(g.signal);
        }
    }
    assert!(signals.iter().all(|s| *s == Signal::Hold));
    let mut dropped = Vec::new();
    for _ in 0..5 {
        dropped.push(p.ingest(&tick(PRICE_SCALE)).unwrap().signal);
    }
    assert!(dropped.contains(&Signal::Sell));
}

#[test]
fn averages_lie_between_the_lowest_and_highest_price() {
    let prices = [505, 498, 510, 470, 530, 489, 502, 515, 477, 499, 520, 481, 493, 508, 512, 466, 540, 495, 503, 488];
    let mut p = SilverProcessor::new();
    let mut last = None;
    for &x in prices.iter() {
        last = p.process(&tick(x));
    }
    let t = last.unwrap();
    let lo = *prices.iter().min().unwrap();
    let hi = *prices.iter().max().unwrap();
    let long = t.long_ma.unwrap();
    assert!(20 * lo <= long && long <= 20 * hi);
    let tail = &prices[15..];
    let short = t.short_ma.unwrap();
    assert_eq!(short, 4 * tail.iter().sum::<i64>());
    assert!(20 * tail.iter().min().unwrap() <= short && short <= 20 * tail.iter().max().unwrap());
}

#[test]
fn rsi_appears_at_the_fourteenth_price() {
    let prices = [100, 110, 105, 120, 118, 125, 121, 130, 126, 129, 140, 135, 150, 145];
    let mut p = SilverProcessor::new();
    let mut ticks = Vec::new();
    for &x in prices.iter() {
        ticks.push(p.process(&tick(x)).unwrap());
    }
    assert!(ticks[12].rsi.is_none());
    // thirteen changes are known at the fourteenth price
    let mut gains = 0u64;
    let mut losses = 0u64;
    for w in prices.windows(2) {
        let d = w[1] - w[0];
        if d > 0 {
            gains += d as u64;
        } else {
            losses += (-d) as u64;
        }
    }
    assert_eq!(ticks[13].rsi, Some(RsiBasis { gains, losses }));
    assert_eq!(gains, 10 + 15 + 7 + 9 + 3 + 11 + 15);
    assert_eq!(losses, 5 + 2 + 4 + 4 + 5 + 5);
}
