//! Silver layer: validates raw ticks and keeps the rolling window from which
//! the moving averages and the RSI are computed.
//!
//! Prices are fixed-point integers: one currency unit is `PRICE_SCALE` price
//! units.  Both moving averages are kept exactly, in twentieths of a price
//! unit, so that the five-tick and the twenty-tick average share one
//! denominator and compare exactly.
use vstd::prelude::*;
use std::collections::VecDeque;
use crate::bronze::BronzeTick;

verus! {

/// Price units per currency unit.
pub const PRICE_SCALE: i64 = 1_000_000;

/// The largest price that passes the price check (one million currency units).
pub const MAX_PRICE: i64 = 1_000_000_000_000;

/// How many accepted prices the window keeps.
pub const WINDOW_CAPACITY: usize = 22;

/// Span of the short moving average.
pub const SHORT_SPAN: usize = 5;

/// Span of the long moving average.
pub const LONG_SPAN: usize = 20;

/// Number of price changes the RSI looks at.
pub const RSI_CHANGES: usize = 14;

/// A price is accepted when it is positive and at most `MAX_PRICE`.
pub open spec fn valid_price(p: int) -> bool {
    0 < p <= MAX_PRICE
}

/// Sum of a sequence of prices.
pub open spec fn seq_sum(s: Seq<i64>) -> int
    decreases s.len(),
{
    if s.len() == 0 {
        0
    } else {
        seq_sum(s.drop_last()) + s.last()
    }
}

/// The last `n` elements of `s`.
pub open spec fn last_n(s: Seq<i64>, n: int) -> Seq<i64> {
    s.subrange(s.len() - n, s.len() as int)
}

/// Sum of the upward moves between consecutive prices of `s`.
pub open spec fn gain_sum(s: Seq<i64>) -> int
    decreases s.len(),
{
    if s.len() < 2 {
        0
    } else {
        let d = s.last() - s[s.len() - 2];
        gain_sum(s.drop_last()) + if d > 0 { d } else { 0 }
    }
}

/// Sum of the sizes of the downward moves between consecutive prices of `s`.
pub open spec fn loss_sum(s: Seq<i64>) -> int
    decreases s.len(),
{
    if s.len() < 2 {
        0
    } else {
        let d = s.last() - s[s.len() - 2];
        loss_sum(s.drop_last()) + if d < 0 { -d } else { 0 }
    }
}

/// The window after accepting price `p`: the oldest price leaves once the
/// window is full.
pub open spec fn pushed_window(w: Seq<i64>, p: i64) -> Seq<i64> {
    if w.len() >= WINDOW_CAPACITY {
        w.drop_first().push(p)
    } else {
        w.push(p)
    }
}

/// Every price of the window were accepted, and the window is not over capacity.
pub open spec fn window_ok(w: Seq<i64>) -> bool {
    &&& w.len() <= WINDOW_CAPACITY
    &&& forall|i: int| 0 <= i < w.len() ==> valid_price(#[trigger] w[i] as int)
}

/// Short moving average of the window, in twentieths of a price unit.
pub open spec fn short_ma_of(w: Seq<i64>) -> Option<int> {
    if w.len() >= SHORT_SPAN {
        Some(4 * seq_sum(last_n(w, SHORT_SPAN as int)))
    } else {
        None
    }
}

/// Long moving average of the window, in twentieths of a price unit.
pub open spec fn long_ma_of(w: Seq<i64>) -> Option<int> {
    if w.len() >= LONG_SPAN {
        Some(seq_sum(last_n(w, LONG_SPAN as int)))
    } else {
        None
    }
}

/// How many of the newest prices the RSI looks at: fifteen (fourteen
/// changes), or all of them while there are fewer.
pub open spec fn rsi_span(len: int) -> int {
    if len >= RSI_CHANGES + 1 {
        RSI_CHANGES + 1
    } else {
        len
    }
}

/// Gains and losses over the last (up to) fourteen changes, once fourteen
/// prices are there.
pub open spec fn rsi_of(w: Seq<i64>) -> Option<(int, int)> {
    if w.len() >= RSI_CHANGES {
        let tail = last_n(w, rsi_span(w.len() as int));
        Some((gain_sum(tail), loss_sum(tail)))
    } else {
        None
    }
}

} // verus!

verus! {

/// The RSI's raw material: total gains and total losses over the last
/// fourteen price changes (thirteen while only fourteen prices are known).  The RSI itself is `100 * gains / (gains + losses)`,
/// and 100 when there were no losses.
#[derive(Clone, Copy, PartialEq, Eq, Debug)]
pub struct RsiBasis {
    pub gains: u64,
    pub losses: u64,
}

impl RsiBasis {
    /// The RSI is below 70.
    pub open spec fn spec_below_70(self) -> bool {
        self.losses > 0 && 3 * self.gains < 7 * self.losses
    }

    /// The RSI is above 30.
    pub open spec fn spec_above_30(self) -> bool {
        self.losses == 0 || 7 * self.gains > 3 * self.losses
    }

    /// Whether the RSI is below 70 (not overbought).
    pub fn below_70(&self) -> (r: bool)
        ensures
            r == self.spec_below_70(),
    {
        self.losses > 0 && 3 * (self.gains as u128) < 7 * (self.losses as u128)
    }

    /// Whether the RSI is above 30 (not oversold).
    pub fn above_30(&self) -> (r: bool)
        ensures
            r == self.spec_above_30(),
    {
        self.losses == 0 || 7 * (self.gains as u128) > 3 * (self.losses as u128)
    }
}

/// A validated tick with the indicators known so far.  The moving averages
/// are in twentieths of a price unit; each is `None` until enough prices
/// were seen (five, twenty), and the RSI until fourteen were.
pub struct SilverTick {
    pub tick_id: String,
    pub symbol: String,
    pub price: i64,
    pub short_ma: Option<i64>,
    pub long_ma: Option<i64>,
    pub rsi: Option<RsiBasis>,
    pub timestamp: u64,
}

/// Short moving average as stored in a tick.
pub open spec fn short_ma_field(w: Seq<i64>) -> Option<i64> {
    match short_ma_of(w) {
        Some(v) => Some(v as i64),
        None => None,
    }
}

/// Long moving average as stored in a tick.
pub open spec fn long_ma_field(w: Seq<i64>) -> Option<i64> {
    match long_ma_of(w) {
        Some(v) => Some(v as i64),
        None => None,
    }
}

/// RSI basis as stored in a tick.
pub open spec fn rsi_field(w: Seq<i64>) -> Option<RsiBasis> {
    match rsi_of(w) {
        Some((g, l)) => Some(RsiBasis { gains: g as u64, losses: l as u64 }),
        None => None,
    }
}

/// Keeps the last `WINDOW_CAPACITY` accepted prices.
pub struct SilverProcessor {
    prices: VecDeque<i64>,
}

impl View for SilverProcessor {
    type V = Seq<i64>;

    /// The accepted prices in the window, oldest first.
    closed spec fn view(&self) -> Seq<i64> {
        self.prices@
    }
}

proof fn lemma_sum_step(s: Seq<i64>, a: int, j: int)
    requires
        0 <= a <= j < s.len(),
    ensures
        seq_sum(s.subrange(a, j + 1)) == seq_sum(s.subrange(a, j)) + s[j],
{
    assert(s.subrange(a, j + 1).drop_last() =~= s.subrange(a, j));
}

proof fn lemma_moves_step(s: Seq<i64>, a: int, j: int)
    requires
        0 <= a < j < s.len(),
    ensures
        gain_sum(s.subrange(a, j + 1)) == gain_sum(s.subrange(a, j)) + if s[j] - s[j - 1] > 0 {
            s[j] - s[j - 1]
        } else {
            0
        },
        loss_sum(s.subrange(a, j + 1)) == loss_sum(s.subrange(a, j)) + if s[j] - s[j - 1] < 0 {
            s[j - 1] - s[j]
        } else {
            0
        },
{
    let t = s.subrange(a, j + 1);
    assert(t.drop_last() =~= s.subrange(a, j));
    assert(t.last() == s[j]);
    assert(t[t.len() - 2] == s[j - 1]);
}

/// Sum of the last `n` prices of a valid window.
fn sum_last(w: &VecDeque<i64>, n: usize) -> (r: i64)
    requires
        n <= w.len(),
        window_ok(w@),
    ensures
        r == seq_sum(last_n(w@, n as int)),
        0 <= r <= n * MAX_PRICE,
{
    let len = w.len();
    let start = len - n;
    let mut acc: i64 = 0;
    let mut j: usize = start;
    while j < len
        invariant
            start <= j <= len,
            len == w.len(),
            start == len - n,
            window_ok(w@),
            acc == seq_sum(w@.subrange(start as int, j as int)),
            0 <= acc <= (j - start) * MAX_PRICE,
        decreases len - j,
    {
        proof {
            lemma_sum_step(w@, start as int, j as int);
            assert(valid_price(w@[j as int] as int));
        }
        acc = acc + w[j];
        j = j + 1;
    }
    acc
}

/// Gains and losses over the last (up to) `RSI_CHANGES` changes of a valid window.
fn moves_last(w: &VecDeque<i64>) -> (r: (u64, u64))
    requires
        w@.len() >= RSI_CHANGES,
        window_ok(w@),
    ensures
        r.0 == gain_sum(last_n(w@, rsi_span(w@.len() as int))),
        r.1 == loss_sum(last_n(w@, rsi_span(w@.len() as int))),
{
    let len = w.len();
    let span = if len >= RSI_CHANGES + 1 {
        RSI_CHANGES + 1
    } else {
        len
    };
    let start = len - span;
    let mut gains: i64 = 0;
    let mut losses: i64 = 0;
    let mut j: usize = start + 1;
    proof {
        let t = w@.subrange(start as int, start + 1);
        assert(t.len() == 1);
    }
    while j < len
        invariant
            start + 1 <= j <= len,
            len == w.len(),
            start == len - span,
            span == rsi_span(len as int),
            window_ok(w@),
            gains == gain_sum(w@.subrange(start as int, j as int)),
            losses == loss_sum(w@.subrange(start as int, j as int)),
            0 <= gains <= (j - start - 1) * MAX_PRICE,
            0 <= losses <= (j - start - 1) * MAX_PRICE,
        decreases len - j,
    {
        proof {
            lemma_moves_step(w@, start as int, j as int);
            assert(valid_price(w@[j as int] as int));
            assert(valid_price(w@[j - 1] as int));
        }
        let cur = w[j];
        let prev = w[j - 1];
        if cur > prev {
            gains = gains + (cur - prev);
        } else if cur < prev {
            losses = losses + (prev - cur);
        }
        j = j + 1;
    }
    proof {
        assert(w@.subrange(start as int, len as int) =~= last_n(w@, rsi_span(len as int)));
    }
    (gains as u64, losses as u64)
}

impl SilverProcessor {
    #[verifier::type_invariant]
    spec fn inv(&self) -> bool {
        window_ok(self.prices@)
    }

    /// An empty window.
    pub fn new() -> (r: SilverProcessor)
        ensures
            r@ == Seq::<i64>::empty(),
    {
        SilverProcessor { prices: VecDeque::with_capacity(WINDOW_CAPACITY) }
    }

    /// Validates a raw tick and, when it passes, slides it into the window and
    /// reports the indicators over the new window.  A tick that is rejected
    /// leaves the window as it was.
    pub fn process(&mut self, bronze: &BronzeTick) -> (r: Option<SilverTick>)
        ensures
            window_ok(old(self)@),
            window_ok(final(self)@),
            !valid_price(bronze.raw_price as int) ==> r is None && final(self)@ == old(self)@,
            valid_price(bronze.raw_price as int) ==> {
                &&& final(self)@ == pushed_window(old(self)@, bronze.raw_price)
                &&& r matches Some(t) && {
                    &&& t.tick_id == bronze.tick_id
                    &&& t.symbol == bronze.symbol
                    &&& t.price == bronze.raw_price
                    &&& t.short_ma == short_ma_field(final(self)@)
                    &&& t.long_ma == long_ma_field(final(self)@)
                    &&& t.rsi == rsi_field(final(self)@)
                    &&& t.timestamp == bronze.fetched_at
                }
            },
    {
        proof {
            use_type_invariant(&*self);
        }
        let p = bronze.raw_price;
        if p <= 0 || p > MAX_PRICE {
            return None;
        }
        let mut prices: VecDeque<i64> = VecDeque::new();
        std::mem::swap(&mut prices, &mut self.prices);
        let ghost before = prices@;
        if prices.len() == WINDOW_CAPACITY {
            let _ = prices.pop_front();
            proof {
                assert(before.subrange(1, before.len() as int) =~= before.drop_first());
            }
        }
        prices.push_back(p);
        proof {
            assert(prices@ =~= pushed_window(before, p));
            assert forall|i: int| 0 <= i < prices@.len() implies valid_price(
                #[trigger] prices@[i] as int,
            ) by {
                if i < prices@.len() - 1 {
                    if before.len() == WINDOW_CAPACITY {
                        assert(prices@[i] == before[i + 1]);
                    } else {
                        assert(prices@[i] == before[i]);
                    }
                }
            }
        }
        let n = prices.len();
        let short_ma = if n >= SHORT_SPAN {
            Some(4 * sum_last(&prices, SHORT_SPAN))
        } else {
            None
        };
        let long_ma = if n >= LONG_SPAN {
            Some(sum_last(&prices, LONG_SPAN))
        } else {
            None
        };
        let rsi = if n >= RSI_CHANGES {
            let (gains, losses) = moves_last(&prices);
            Some(RsiBasis { gains, losses })
        } else {
            None
        };
        self.prices = prices;
        Some(
            SilverTick {
                tick_id: bronze.tick_id.clone(),
                symbol: bronze.symbol.clone(),
                price: p,
                short_ma,
                long_ma,
                rsi,
                timestamp: bronze.fetched_at,
            },
        )
    }
}

} // verus!
