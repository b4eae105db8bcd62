//! One step of the pipeline: a raw tick through the silver and gold layers.
use vstd::prelude::*;
use crate::bronze::BronzeTick;
use crate::gold::{confidence_for, signal_for, GoldProcessor, GoldSignal};
use crate::silver::{
    long_ma_field, pushed_window, rsi_field, short_ma_field, valid_price, window_ok,
    SilverProcessor, LONG_SPAN,
};

verus! {

/// The two stateful layers of the local pipeline.
pub struct Pipeline {
    silver: SilverProcessor,
    gold: GoldProcessor,
}

impl View for Pipeline {
    type V = (Seq<i64>, Option<bool>);

    /// The price window and the last side of the crossover.
    closed spec fn view(&self) -> (Seq<i64>, Option<bool>) {
        (self.silver@, self.gold@)
    }
}

impl Pipeline {
    /// A pipeline that has seen nothing.
    pub fn new() -> (r: Pipeline)
        ensures
            r@ == (Seq::<i64>::empty(), None::<bool>),
    {
        Pipeline { silver: SilverProcessor::new(), gold: GoldProcessor::new() }
    }

    /// Runs a raw tick through both layers.  A tick that is rejected
    /// changes nothing and yields nothing; a valid one enters the window, and a
    /// signal comes out exactly when the window then holds at least
    /// `LONG_SPAN` prices.
    pub fn ingest(&mut self, bronze: &BronzeTick) -> (r: Option<GoldSignal>)
        ensures
            window_ok(final(self)@.0),
            !valid_price(bronze.raw_price as int) ==> r is None && final(self)@ == old(self)@,
            valid_price(bronze.raw_price as int) ==> {
                let w = pushed_window(old(self)@.0, bronze.raw_price);
                &&& final(self)@.0 == w
                &&& (r is Some <==> w.len() >= LONG_SPAN)
                &&& w.len() < LONG_SPAN ==> final(self)@.1 == old(self)@.1
                &&& w.len() >= LONG_SPAN ==> {
                    let s = short_ma_field(w)->0;
                    let l = long_ma_field(w)->0;
                    &&& final(self)@.1 == Some(s > l)
                    &&& r matches Some(g) && {
                        &&& g.tick_id == bronze.tick_id
                        &&& g.symbol == bronze.symbol
                        &&& g.price == bronze.raw_price
                        &&& g.signal == signal_for(old(self)@.1, s > l, rsi_field(w))
                        &&& g.short_ma == s
                        &&& g.long_ma == l
                        &&& g.rsi == rsi_field(w)
                        &&& g.confidence == confidence_for(s as int, l as int)
                        &&& g.timestamp == bronze.fetched_at
                    }
                }
            },
    {
        let silver = match self.silver.process(bronze) {
            Some(s) => s,
            None => return None,
        };
        self.gold.process(&silver)
    }
}

} // verus!
