//! Gold layer: Buy/Sell/Hold signals from moving-average crossovers,
//! confirmed by the RSI.
use vstd::prelude::*;
use crate::silver::{RsiBasis, SilverTick};

verus! {

/// A trading signal.
#[derive(Clone, Copy, Debug, PartialEq, Eq, Structural)]
pub enum Signal {
    Buy,
    Sell,
    Hold,
}

impl Signal {
    /// The signal's name as published: "Buy", "Sell" or "Hold".
    pub fn as_str(&self) -> (r: &'static str)
        ensures
            *self == Signal::Buy ==> r@ == "Buy"@,
            *self == Signal::Sell ==> r@ == "Sell"@,
            *self == Signal::Hold ==> r@ == "Hold"@,
    {
        match self {
            Signal::Buy => "Buy",
            Signal::Sell => "Sell",
            Signal::Hold => "Hold",
        }
    }
}

/// An exact rational number `num / den`, with `den > 0`.
#[derive(Clone, Copy, Debug, PartialEq, Eq)]
pub struct Fraction {
    pub num: i128,
    pub den: i128,
}

/// A signal for one tick.  Prices and averages are in the units of the silver
/// layer; `confidence` is how far apart the averages are, relative to the
/// long one, in percent, capped at 1.
pub struct GoldSignal {
    pub tick_id: String,
    pub symbol: String,
    pub price: i64,
    pub signal: Signal,
    pub short_ma: i64,
    pub long_ma: i64,
    pub rsi: Option<RsiBasis>,
    pub confidence: Fraction,
    pub timestamp: u64,
}

/// Whether the RSI lets a crossover through: a fresh upward cross needs an
/// RSI below 70, a fresh downward cross an RSI above 30; anything else, and a
/// missing RSI, passes.
pub open spec fn rsi_allows(prev: Option<bool>, above: bool, rsi: Option<RsiBasis>) -> bool {
    match rsi {
        None => true,
        Some(r) => match prev {
            Some(p) => if !p && above {
                r.spec_below_70()
            } else if p && !above {
                r.spec_above_30()
            } else {
                true
            },
            None => true,
        },
    }
}

/// The signal: Buy on a confirmed upward cross, Sell on a confirmed downward
/// cross, Hold otherwise (also on the first tick with both averages).
pub open spec fn signal_for(prev: Option<bool>, above: bool, rsi: Option<RsiBasis>) -> Signal {
    match prev {
        Some(p) => if p != above && rsi_allows(prev, above, rsi) {
            if above {
                Signal::Buy
            } else {
                Signal::Sell
            }
        } else {
            Signal::Hold
        },
        None => Signal::Hold,
    }
}

/// `min(|short - long| / long * 100, 1)` as an exact fraction.  A zero long
/// average gives 1 (the division is unbounded); a negative one gives the
/// (non-positive) quotient itself.
pub open spec fn confidence_for(short: int, long: int) -> Fraction {
    let d = if short >= long { (short - long) * 100 } else { (long - short) * 100 };
    if long > 0 {
        if d >= long {
            Fraction { num: 1, den: 1 }
        } else {
            Fraction { num: d as i128, den: long as i128 }
        }
    } else if long == 0 {
        Fraction { num: 1, den: 1 }
    } else {
        Fraction { num: (-d) as i128, den: (-long) as i128 }
    }
}

/// Remembers on which side of the long average the short one was last time.
pub struct GoldProcessor {
    prev_above: Option<bool>,
}

impl View for GoldProcessor {
    type V = Option<bool>;

    /// Whether the short average was above the long one at the last tick that
    /// had both; `None` before any such tick.
    closed spec fn view(&self) -> Option<bool> {
        self.prev_above
    }
}

impl GoldProcessor {
    /// A processor that has seen no tick yet.
    pub fn new() -> (r: GoldProcessor)
        ensures
            r@ == None::<bool>,
    {
        GoldProcessor { prev_above: None }
    }

    /// Turns a silver tick into a signal.  Without both averages there is no
    /// signal and nothing is remembered; otherwise the side of the cross is
    /// remembered for the next tick.
    pub fn process(&mut self, silver: &SilverTick) -> (r: Option<GoldSignal>)
        ensures
            (silver.short_ma is None || silver.long_ma is None) ==> r is None && final(self)@
                == old(self)@,
            silver.short_ma is Some && silver.long_ma is Some ==> {
                let s = silver.short_ma->0;
                let l = silver.long_ma->0;
                &&& final(self)@ == Some(s > l)
                &&& r matches Some(g) && {
                    &&& g.tick_id == silver.tick_id
                    &&& g.symbol == silver.symbol
                    &&& g.price == silver.price
                    &&& g.signal == signal_for(old(self)@, s > l, silver.rsi)
                    &&& g.short_ma == s
                    &&& g.long_ma == l
                    &&& g.rsi == silver.rsi
                    &&& g.confidence == confidence_for(s as int, l as int)
                    &&& g.timestamp == silver.timestamp
                }
            },
    {
        let (short_ma, long_ma) = match (silver.short_ma, silver.long_ma) {
            (Some(s), Some(l)) => (s, l),
            _ => return None,
        };
        let above = short_ma > long_ma;
        let rsi_ok = match silver.rsi {
            Some(rsi) => match self.prev_above {
                Some(prev) => if !prev && above {
                    rsi.below_70()
                } else if prev && !above {
                    rsi.above_30()
                } else {
                    true
                },
                None => true,
            },
            None => true,
        };
        let signal = match self.prev_above {
            Some(prev) => if prev != above && rsi_ok {
                if above {
                    Signal::Buy
                } else {
                    Signal::Sell
                }
            } else {
                Signal::Hold
            },
            None => Signal::Hold,
        };
        self.prev_above = Some(above);
        let confidence = confidence(short_ma, long_ma);
        Some(
            GoldSignal {
                tick_id: silver.tick_id.clone(),
                symbol: silver.symbol.clone(),
                price: silver.price,
                signal,
                short_ma,
                long_ma,
                rsi: silver.rsi,
                confidence,
                timestamp: silver.timestamp,
            },
        )
    }
}

/// How far apart the two averages are, relative to the long one, in percent,
/// capped at 1.
pub fn confidence(short_ma: i64, long_ma: i64) -> (r: Fraction)
    ensures
        r == confidence_for(short_ma as int, long_ma as int),
{
    let s = short_ma as i128;
    let l = long_ma as i128;
    let d: i128 = if s >= l {
        (s - l) * 100
    } else {
        (l - s) * 100
    };
    if l > 0 {
        if d >= l {
            Fraction { num: 1, den: 1 }
        } else {
            Fraction { num: d, den: l }
        }
    } else if l == 0 {
        Fraction { num: 1, den: 1 }
    } else {
        Fraction { num: -d, den: -l }
    }
}

} // verus!
