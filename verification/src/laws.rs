//! Properties of the library as a whole, proved over the spec functions that
//! the operations' contracts use.
use vstd::prelude::*;
use crate::alpaca::default_base_url;
use crate::commands::symbol_fits;
use crate::gold::{confidence_for, rsi_allows, signal_for, Fraction, Signal};
use crate::silver::{
    gain_sum, last_n, long_ma_of, loss_sum, pushed_window, seq_sum, short_ma_of, valid_price,
    window_ok, RsiBasis, LONG_SPAN, WINDOW_CAPACITY,
};
use crate::text::{decimal, digit_char, occurs_at, seq_contains_text};
use crate::trino::{
    advanced_rows, begun_rows, follow, latest_signal_query, page_rows, poll_step, escaped_char,
    spec_escape, QueryStep, TrinoPage,
};

verus! {

// ---------------------------------------------------------------------------
// The price window
// ---------------------------------------------------------------------------

/// The accepted prices of a history of raw prices, in order.
pub open spec fn accepted(h: Seq<i64>) -> Seq<i64>
    decreases h.len(),
{
    if h.len() == 0 {
        Seq::empty()
    } else if valid_price(h.last() as int) {
        accepted(h.drop_last()).push(h.last())
    } else {
        accepted(h.drop_last())
    }
}

/// The window after feeding a history of raw prices, one by one, to a fresh
/// silver processor (each step as `SilverProcessor::process` states it).
pub open spec fn window_after(h: Seq<i64>) -> Seq<i64>
    decreases h.len(),
{
    if h.len() == 0 {
        Seq::empty()
    } else if valid_price(h.last() as int) {
        pushed_window(window_after(h.drop_last()), h.last())
    } else {
        window_after(h.drop_last())
    }
}

/// The last `WINDOW_CAPACITY` elements of `a` (all of them if there are fewer).
pub open spec fn newest(a: Seq<i64>) -> Seq<i64> {
    if a.len() <= WINDOW_CAPACITY {
        a
    } else {
        last_n(a, WINDOW_CAPACITY as int)
    }
}

/// Accepting a valid price keeps the window valid and within capacity, puts
/// the price last, and grows the window by one until it is full.
pub proof fn window_stays_bounded(w: Seq<i64>, p: i64)
    requires
        window_ok(w),
        valid_price(p as int),
    ensures
        window_ok(pushed_window(w, p)),
        pushed_window(w, p).last() == p,
        pushed_window(w, p).len() == if w.len() < WINDOW_CAPACITY {
            w.len() + 1int
        } else {
            WINDOW_CAPACITY as int
        },
{
    let v = pushed_window(w, p);
    assert forall|i: int| 0 <= i < v.len() implies valid_price(#[trigger] v[i] as int) by {
        if i < v.len() - 1 {
            if w.len() >= WINDOW_CAPACITY {
                assert(v[i] == w[i + 1]);
            } else {
                assert(v[i] == w[i]);
            }
        }
    }
}

/// The window always holds the newest accepted prices: after any history of
/// raw prices, it is the last (up to) twenty-two prices that were accepted,
/// oldest first; rejected prices leave no trace.
pub proof fn window_holds_newest_accepted(h: Seq<i64>)
    ensures
        window_after(h) == newest(accepted(h)),
        window_ok(window_after(h)),
    decreases h.len(),
{
    if h.len() > 0 {
        let h0 = h.drop_last();
        window_holds_newest_accepted(h0);
        let p = h.last();
        if valid_price(p as int) {
            let a = accepted(h0);
            let w = window_after(h0);
            window_stays_bounded(w, p);
            if a.len() < WINDOW_CAPACITY {
                assert(pushed_window(w, p) =~= newest(a.push(p)));
            } else {
                assert(pushed_window(w, p) =~= newest(a.push(p)));
            }
        }
    }
}

/// A signal needs twenty prices in the window, which happens exactly when
/// twenty prices have been accepted so far.
pub proof fn long_average_needs_twenty_accepted(h: Seq<i64>)
    ensures
        window_after(h).len() >= LONG_SPAN <==> accepted(h).len() >= LONG_SPAN,
        (long_ma_of(window_after(h)) is Some) <==> accepted(h).len() >= LONG_SPAN,
{
    window_holds_newest_accepted(h);
}

// ---------------------------------------------------------------------------
// Moving averages and the RSI basis
// ---------------------------------------------------------------------------

proof fn sum_within(s: Seq<i64>, lo: int, hi: int)
    requires
        forall|i: int| 0 <= i < s.len() ==> lo <= #[trigger] s[i] <= hi,
    ensures
        s.len() * lo <= seq_sum(s) <= s.len() * hi,
    decreases s.len(),
{
    if s.len() > 0 {
        let t = s.drop_last();
        assert forall|i: int| 0 <= i < t.len() implies lo <= #[trigger] t[i] <= hi by {
            assert(t[i] == s[i]);
        }
        sum_within(t, lo, hi);
        let n = t.len() as int;
        assert((n + 1) * lo == n * lo + lo) by (nonlinear_arith);
        assert((n + 1) * hi == n * hi + hi) by (nonlinear_arith);
    }
}

/// Each moving average lies between the lowest and the highest price it
/// covers (in twentieths of a price unit: between `20 * lo` and `20 * hi`).
pub proof fn averages_within_price_range(w: Seq<i64>, lo: int, hi: int)
    requires
        forall|i: int| 0 <= i < w.len() ==> lo <= #[trigger] w[i] <= hi,
    ensures
        short_ma_of(w) matches Some(s) ==> 20 * lo <= s <= 20 * hi,
        long_ma_of(w) matches Some(l) ==> 20 * lo <= l <= 20 * hi,
{
    if w.len() >= 5 {
        let t = last_n(w, 5);
        assert forall|i: int| 0 <= i < t.len() implies lo <= #[trigger] t[i] <= hi by {
            assert(t[i] == w[w.len() - 5 + i]);
        }
        sum_within(t, lo, hi);
        assert(t.len() == 5);
        assert(5 * lo <= seq_sum(t) <= 5 * hi);
    }
    if w.len() >= 20 {
        let t = last_n(w, 20);
        assert forall|i: int| 0 <= i < t.len() implies lo <= #[trigger] t[i] <= hi by {
            assert(t[i] == w[w.len() - 20 + i]);
        }
        sum_within(t, lo, hi);
        assert(t.len() == 20);
        assert(20 * lo <= seq_sum(t) <= 20 * hi);
    }
}

/// Total gains minus total losses over a run of prices is the net move from
/// its first price to its last.
pub proof fn gains_minus_losses_is_net_move(s: Seq<i64>)
    requires
        s.len() >= 1,
    ensures
        gain_sum(s) - loss_sum(s) == s.last() - s[0],
    decreases s.len(),
{
    if s.len() >= 2 {
        let t = s.drop_last();
        gains_minus_losses_is_net_move(t);
        assert(t[0] == s[0]);
        assert(t.last() == s[s.len() - 2]);
    }
}

/// The integer threshold tests are the RSI thresholds exactly: with
/// `RSI = 100 * gains / (gains + losses)` (100 when there are no losses),
/// "below 70" and "above 30" mean what they say.
pub proof fn rsi_thresholds_are_exact(b: RsiBasis)
    ensures
        b.spec_below_70() <==> (b.losses > 0 && 100 * b.gains < 70 * (b.gains + b.losses)),
        b.spec_above_30() <==> (b.losses == 0 || 100 * b.gains > 30 * (b.gains + b.losses)),
{
}

// ---------------------------------------------------------------------------
// Signals
// ---------------------------------------------------------------------------

/// How signals arise: a Buy exactly on an upward cross that the RSI lets
/// through, a Sell exactly on such a downward cross, a Hold otherwise, and
/// in particular on the first tick with both averages and whenever the
/// averages stay on the same side.
pub proof fn signals_follow_crossovers(prev: Option<bool>, above: bool, rsi: Option<RsiBasis>)
    ensures
        signal_for(prev, above, rsi) == Signal::Buy <==> (prev == Some(false) && above && (
        rsi matches Some(r) ==> r.spec_below_70())),
        signal_for(prev, above, rsi) == Signal::Sell <==> (prev == Some(true) && !above && (
        rsi matches Some(r) ==> r.spec_above_30())),
        prev is None ==> signal_for(prev, above, rsi) == Signal::Hold,
        prev == Some(above) ==> signal_for(prev, above, rsi) == Signal::Hold,
{
}

/// Confidence never exceeds 1, has a positive denominator, and is not
/// negative when the long average is not.
pub proof fn confidence_is_bounded(short: int, long: int)
    requires
        -0x1_0000_0000_0000_0000 <= short <= 0x1_0000_0000_0000_0000,
        -0x1_0000_0000_0000_0000 <= long <= 0x1_0000_0000_0000_0000,
    ensures
        confidence_for(short, long).den > 0,
        confidence_for(short, long).num <= confidence_for(short, long).den,
        long >= 0 ==> confidence_for(short, long).num >= 0,
{
}

// ---------------------------------------------------------------------------
// Quoting
// ---------------------------------------------------------------------------

/// Reads a quoted SQL literal's body back: a doubled quote is one quote, a
/// lone quote ends the literal (so the body is malformed), anything else
/// stands for itself.
pub open spec fn unescape(t: Seq<char>) -> Option<Seq<char>>
    decreases t.len(),
{
    if t.len() == 0 {
        Some(Seq::empty())
    } else if t[0] == '\'' {
        if t.len() >= 2 && t[1] == '\'' {
            match unescape(t.subrange(2, t.len() as int)) {
                Some(r) => Some(seq!['\''] + r),
                None => None,
            }
        } else {
            None
        }
    } else {
        match unescape(t.drop_first()) {
            Some(r) => Some(seq![t[0]] + r),
            None => None,
        }
    }
}

proof fn escape_front(s: Seq<char>)
    requires
        s.len() > 0,
    ensures
        spec_escape(s) == escaped_char(s[0]) + spec_escape(s.drop_first()),
    decreases s.len(),
{
    if s.len() == 1 {
        assert(s.drop_last() =~= Seq::<char>::empty());
        assert(s.drop_first() =~= Seq::<char>::empty());
        assert(spec_escape(s) =~= escaped_char(s[0]));
    } else {
        escape_front(s.drop_last());
        assert(s.drop_last().drop_first() =~= s.drop_first().drop_last());
        assert(s.drop_first().last() == s.last());
        assert(s.drop_last()[0] == s[0]);
        assert(spec_escape(s) =~= escaped_char(s[0]) + spec_escape(s.drop_first()));
    }
}

/// Quoting is undone by reading the literal back: the quoted text can never
/// close the literal early, and the server sees exactly the original text.
pub proof fn escape_reads_back(s: Seq<char>)
    ensures
        unescape(spec_escape(s)) == Some(s),
    decreases s.len(),
{
    if s.len() > 0 {
        escape_front(s);
        escape_reads_back(s.drop_first());
        let t = spec_escape(s);
        let rest = spec_escape(s.drop_first());
        if s[0] == '\'' {
            assert(t.subrange(2, t.len() as int) =~= rest);
            assert(seq!['\''] + s.drop_first() =~= s);
        } else {
            assert(t.drop_first() =~= rest);
            assert(seq![s[0]] + s.drop_first() =~= s);
        }
    }
}

/// Number of single quotes in `s`.
pub open spec fn quote_count(s: Seq<char>) -> nat
    decreases s.len(),
{
    if s.len() == 0 {
        0
    } else {
        quote_count(s.drop_last()) + if s.last() == '\'' {
            1nat
        } else {
            0nat
        }
    }
}

/// Quoting adds exactly one character per quote.
pub proof fn escape_adds_one_per_quote(s: Seq<char>)
    ensures
        spec_escape(s).len() == s.len() + quote_count(s),
    decreases s.len(),
{
    if s.len() > 0 {
        escape_adds_one_per_quote(s.drop_last());
    }
}

/// Text without quotes is left as it is.
pub proof fn escape_keeps_quote_free_text(s: Seq<char>)
    requires
        forall|i: int| 0 <= i < s.len() ==> s[i] != '\'',
    ensures
        spec_escape(s) == s,
    decreases s.len(),
{
    if s.len() > 0 {
        let t = s.drop_last();
        assert forall|i: int| 0 <= i < t.len() implies t[i] != '\'' by {
            assert(t[i] == s[i]);
        }
        escape_keeps_quote_free_text(t);
        assert(spec_escape(s) =~= s);
    }
}

// ---------------------------------------------------------------------------
// The statement protocol
// ---------------------------------------------------------------------------

/// The rows collected after the submission's reply and then the given polled
/// replies, each taken as `QueryRun::begin` and `QueryRun::advance` state.
pub open spec fn rows_after_polls<R>(first: TrinoPage<R>, polls: Seq<TrinoPage<R>>) -> Seq<R>
    decreases polls.len(),
{
    if polls.len() == 0 {
        begun_rows(first)
    } else {
        advanced_rows(rows_after_polls(first, polls.drop_last()), polls.last())
    }
}

/// All rows of a run of replies, reply after reply.
pub open spec fn rows_of_pages<R>(pages: Seq<TrinoPage<R>>) -> Seq<R>
    decreases pages.len(),
{
    if pages.len() == 0 {
        Seq::empty()
    } else {
        rows_of_pages(pages.drop_last()) + page_rows(pages.last().data)
    }
}

/// A query collects every row of every reply, in arrival order, and nothing
/// else.  When the submission's reply points on exactly when there are
/// polls, every poll but the last is unfinished and points on, and the last
/// one finishes (or is not failed and points nowhere), then the submission
/// leads to the first poll, each unfinished poll to the next, and the last
/// poll ends the query.
pub proof fn query_collects_every_row_in_order<R>(first: TrinoPage<R>, polls: Seq<TrinoPage<R>>)
    requires
        first.error is None,
        forall|i: int| 0 <= i < polls.len() ==> (#[trigger] polls[i]).error is None,
    ensures
        rows_after_polls(first, polls) == rows_of_pages(seq![first] + polls),
        (first.next_uri is Some <==> polls.len() > 0) ==> (follow(first.next_uri) is Poll
            <==> polls.len() > 0),
        forall|i: int|
            0 <= i < polls.len() - 1 && (#[trigger] polls[i]).state@ != "FINISHED"@
                && polls[i].next_uri is Some ==> poll_step(polls[i]) is Poll,
        polls.len() > 0 && (polls.last().state@ == "FINISHED"@ || polls.last().next_uri is None)
            ==> poll_step(polls.last()) == QueryStep::Done,
    decreases polls.len(),
{
    if polls.len() == 0 {
        let ps = seq![first] + polls;
        assert(ps.drop_last() =~= Seq::<TrinoPage<R>>::empty());
        assert(ps.last() == first);
        assert(rows_of_pages(ps) == rows_of_pages(ps.drop_last()) + page_rows(first.data));
        assert(rows_of_pages(ps) =~= page_rows(first.data));
    } else {
        let rest = polls.drop_last();
        assert forall|i: int| 0 <= i < rest.len() implies (#[trigger] rest[i]).error is None by {
            assert(rest[i] == polls[i]);
        }
        query_collects_every_row_in_order(first, rest);
        assert((seq![first] + polls).drop_last() =~= seq![first] + rest);
        assert((seq![first] + polls).last() == polls.last());
    }
}

// ---------------------------------------------------------------------------
// Decimal rendering
// ---------------------------------------------------------------------------

/// The value of a digit character.
pub open spec fn digit_value(c: char) -> int {
    c as int - '0' as int
}

/// The number a string of decimal digits denotes.
pub open spec fn digits_value(ds: Seq<char>) -> int
    decreases ds.len(),
{
    if ds.len() == 0 {
        0
    } else {
        digits_value(ds.drop_last()) * 10 + digit_value(ds.last())
    }
}

proof fn digit_values()
    ensures
        forall|d: int| 0 <= d < 10 ==> digit_value(#[trigger] digit_char(d)) == d,
{
    assert forall|d: int| 0 <= d < 10 implies digit_value(#[trigger] digit_char(d)) == d by {
        if d == 0 {
        } else if d == 1 {
        } else if d == 2 {
        } else if d == 3 {
        } else if d == 4 {
        } else if d == 5 {
        } else if d == 6 {
        } else if d == 7 {
        } else if d == 8 {
        } else {
        }
    }
}

/// Decimal rendering reads back as the number, and has no leading zero.
pub proof fn decimal_reads_back(n: nat)
    ensures
        digits_value(decimal(n)) == n,
        decimal(n).len() >= 1,
        n > 0 ==> decimal(n)[0] != '0',
    decreases n,
{
    digit_values();
    if n >= 10 {
        decimal_reads_back(n / 10);
        let d = decimal(n);
        assert(d.drop_last() =~= decimal(n / 10));
        assert(d[0] == decimal(n / 10)[0]);
        assert(d.last() == digit_char((n % 10) as int));
        assert(digit_value(digit_char((n % 10) as int)) == n % 10);
        assert(digits_value(d) == digits_value(decimal(n / 10)) * 10 + digit_value(d.last()));
        assert((n / 10) * 10 + n % 10 == n);
    } else {
        let d = decimal(n);
        assert(d.drop_last() =~= Seq::<char>::empty());
        assert(digit_value(digit_char(n as int)) == n);
        assert(d.last() == digit_char(n as int));
        assert(digits_value(d) == digits_value(d.drop_last()) * 10 + digit_value(d.last()));
        assert(digits_value(d.drop_last()) == 0);
    }
}

// ---------------------------------------------------------------------------
// Brokerage
// ---------------------------------------------------------------------------

/// A client configured without an address trades on the paper API.
pub proof fn default_address_is_paper()
    ensures
        seq_contains_text(default_base_url(), "paper-api"@),
{
    reveal_strlit("https://paper-api.alpaca.markets");
    reveal_strlit("paper-api");
    assert(default_base_url().subrange(8, 17) =~= "paper-api"@);
    assert(occurs_at(default_base_url(), "paper-api"@, 8));
}

// ---------------------------------------------------------------------------
// What each operation is for, over all inputs
// ---------------------------------------------------------------------------

/// With a positive long average, confidence is the distance between the
/// averages relative to the long one, in percent, capped at 1: it is the same
/// whichever side the short average is on, `100 k / long` below the cap, and
/// exactly 1 from the cap on.
pub proof fn confidence_is_relative_distance(long: int, k: int)
    requires
        0 < long <= 0x1_0000_0000_0000_0000,
        0 <= k <= 0x1_0000_0000_0000_0000,
    ensures
        confidence_for(long - k, long) == confidence_for(long + k, long),
        100 * k < long ==> confidence_for(long + k, long) == (Fraction {
            num: (100 * k) as i128,
            den: long as i128,
        }),
        100 * k >= long ==> confidence_for(long + k, long) == (Fraction { num: 1, den: 1 }),
{
}

proof fn sum_update(s: Seq<i64>, j: int, v: i64)
    requires
        0 <= j < s.len(),
    ensures
        seq_sum(s.update(j, v)) == seq_sum(s) - s[j] + v,
    decreases s.len(),
{
    let t = s.update(j, v);
    if j == s.len() - 1 {
        assert(t.drop_last() =~= s.drop_last());
    } else {
        assert(t.drop_last() =~= s.drop_last().update(j, v));
        sum_update(s.drop_last(), j, v);
    }
}

proof fn tail_update(w: Seq<i64>, n: int, i: int, v: i64)
    requires
        0 <= n <= w.len(),
        0 <= i < w.len(),
    ensures
        i >= w.len() - n ==> last_n(w.update(i, v), n) == last_n(w, n).update(
            i - (w.len() - n),
            v,
        ),
        i < w.len() - n ==> last_n(w.update(i, v), n) == last_n(w, n),
{
    if i >= w.len() - n {
        assert(last_n(w.update(i, v), n) =~= last_n(w, n).update(i - (w.len() - n), v));
    } else {
        assert(last_n(w.update(i, v), n) =~= last_n(w, n));
    }
}

/// The moving averages are sums over the newest prices: changing one of the
/// newest twenty prices by `v - w[i]` changes the long average by exactly
/// that much (in twentieths of a price unit, the long average is the sum of
/// twenty prices), changing one of the newest five changes the short one by
/// four times that much, and older prices do not count at all.
pub proof fn averages_follow_each_recent_price(w: Seq<i64>, i: int, v: i64)
    requires
        0 <= i < w.len(),
    ensures
        w.len() >= 20 && i >= w.len() - 20 ==> long_ma_of(w.update(i, v)) == Some(
            long_ma_of(w)->0 + (v - w[i]),
        ),
        w.len() >= 20 && i < w.len() - 20 ==> long_ma_of(w.update(i, v)) == long_ma_of(w),
        w.len() >= 5 && i >= w.len() - 5 ==> short_ma_of(w.update(i, v)) == Some(
            short_ma_of(w)->0 + 4 * (v - w[i]),
        ),
        w.len() >= 5 && i < w.len() - 5 ==> short_ma_of(w.update(i, v)) == short_ma_of(w),
{
    if w.len() >= 20 {
        tail_update(w, 20, i, v);
        if i >= w.len() - 20 {
            sum_update(last_n(w, 20), i - (w.len() - 20), v);
        }
    }
    if w.len() >= 5 {
        tail_update(w, 5, i, v);
        if i >= w.len() - 5 {
            sum_update(last_n(w, 5), i - (w.len() - 5), v);
        }
    }
}

/// A flat market: when the newest twenty prices all equal `p`, both
/// averages are `p` (that is, `20 p` in twentieths of a price unit).
pub proof fn flat_prices_give_that_price(w: Seq<i64>, p: i64)
    requires
        w.len() >= 20,
        forall|j: int| w.len() - 20 <= j < w.len() ==> #[trigger] w[j] == p,
    ensures
        long_ma_of(w) == Some(20 * p),
        short_ma_of(w) == Some(20 * p),
{
    let t = last_n(w, 20);
    assert forall|j: int| 0 <= j < t.len() implies p <= #[trigger] t[j] <= p by {
        assert(t[j] == w[w.len() - 20 + j]);
    }
    sum_within(t, p as int, p as int);
    let u = last_n(w, 5);
    assert forall|j: int| 0 <= j < u.len() implies p <= #[trigger] u[j] <= p by {
        assert(u[j] == w[w.len() - 5 + j]);
    }
    sum_within(u, p as int, p as int);
}

/// How many rows a reply carries.
pub open spec fn data_len<R>(page: TrinoPage<R>) -> nat {
    match page.data {
        Some(v) => v@.len(),
        None => 0,
    }
}

/// How many rows a run of replies carries in all.
pub open spec fn total_data_len<R>(pages: Seq<TrinoPage<R>>) -> nat
    decreases pages.len(),
{
    if pages.len() == 0 {
        0
    } else {
        total_data_len(pages.drop_last()) + data_len(pages.last())
    }
}

/// Every reply contributes all of its rows: as many rows are collected as
/// the replies carry in all, the newest reply's rows close the collection
/// unchanged, and a lone reply's rows are the whole result.
pub proof fn every_reply_contributes_all_its_rows<R>(
    first: TrinoPage<R>,
    polls: Seq<TrinoPage<R>>,
)
    requires
        first.error is None,
        forall|i: int| 0 <= i < polls.len() ==> (#[trigger] polls[i]).error is None,
    ensures
        rows_after_polls(first, polls).len() == total_data_len(seq![first] + polls),
        polls.len() > 0 && polls.last().data is Some ==> ({
            let rows = rows_after_polls(first, polls);
            let v = polls.last().data->0;
            rows.subrange(rows.len() - v@.len(), rows.len() as int) == v@
        }),
        polls.len() == 0 && first.data is Some ==> rows_after_polls(first, polls)
            == first.data->0@,
    decreases polls.len(),
{
    let ps = seq![first] + polls;
    if polls.len() == 0 {
        assert(ps.drop_last() =~= Seq::<TrinoPage<R>>::empty());
        assert(ps.last() == first);
        assert(page_rows(first.data).len() == data_len(first));
        assert(total_data_len(ps) == total_data_len(ps.drop_last()) + data_len(first));
    } else {
        let rest = polls.drop_last();
        assert forall|i: int| 0 <= i < rest.len() implies (#[trigger] rest[i]).error is None by {
            assert(rest[i] == polls[i]);
        }
        every_reply_contributes_all_its_rows(first, rest);
        assert(page_rows(polls.last().data).len() == data_len(polls.last()));
        assert(ps.drop_last() =~= seq![first] + rest);
        assert(ps.last() == polls.last());
        assert(polls.last() == polls[polls.len() - 1]);
        let prev = rows_after_polls(first, rest);
        let rows = rows_after_polls(first, polls);
        if polls.last().data is Some {
            let v = polls.last().data->0;
            assert(rows == prev + v@);
            assert(rows.subrange(rows.len() - v@.len(), rows.len() as int) =~= v@);
        }
    }
}

/// The text of the newest-signal query up to the symbol's literal.
pub open spec fn latest_query_head() -> Seq<char> {
    "SELECT tick_id, symbol, price, signal, short_ma, long_ma, rsi, confidence, timestamp\n             FROM iceberg.stocks.gold_signals\n             WHERE symbol = "@
}

/// The text of the newest-signal query after the symbol's literal.
pub open spec fn latest_query_tail() -> Seq<char> {
    "\n             ORDER BY timestamp DESC LIMIT 1"@
}

/// Whatever the symbol, the newest-signal query compares the symbol column
/// with a single-quoted literal whose body is the quoted symbol, and that
/// body reads back as exactly the symbol.
pub proof fn latest_query_quotes_every_symbol(s: Seq<char>)
    ensures
        latest_signal_query(s) == latest_query_head() + seq!['\''] + spec_escape(s) + seq!['\'']
            + latest_query_tail(),
        unescape(spec_escape(s)) == Some(s),
{
    reveal_strlit(
        "SELECT tick_id, symbol, price, signal, short_ma, long_ma, rsi, confidence, timestamp\n             FROM iceberg.stocks.gold_signals\n             WHERE symbol = '",
    );
    reveal_strlit(
        "SELECT tick_id, symbol, price, signal, short_ma, long_ma, rsi, confidence, timestamp\n             FROM iceberg.stocks.gold_signals\n             WHERE symbol = ",
    );
    reveal_strlit("'\n             ORDER BY timestamp DESC LIMIT 1");
    reveal_strlit("\n             ORDER BY timestamp DESC LIMIT 1");
    let a = "SELECT tick_id, symbol, price, signal, short_ma, long_ma, rsi, confidence, timestamp\n             FROM iceberg.stocks.gold_signals\n             WHERE symbol = '"@;
    let b = "'\n             ORDER BY timestamp DESC LIMIT 1"@;
    assert(a =~= latest_query_head() + seq!['\'']);
    assert(b =~= seq!['\''] + latest_query_tail());
    assert(latest_signal_query(s) =~= latest_query_head() + seq!['\''] + spec_escape(s) + seq![
        '\'',
    ] + latest_query_tail());
    escape_reads_back(s);
}

/// A normalised symbol is accepted exactly when it has one to ten
/// characters; in particular every one-character symbol is accepted.
pub proof fn symbol_length_rule(u: Seq<char>)
    ensures
        symbol_fits(u) <==> 1 <= u.len() <= 10,
        u.len() == 1 ==> symbol_fits(u),
{
}

} // verus!
