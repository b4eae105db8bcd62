//! Bronze layer: raw ticks as fetched, stamped with an identifier, the time
//! of the observation and the source, with no transformation of the price.
use vstd::prelude::*;
use vstd::string::StringExecFns;

verus! {

/// One raw price observation.  `raw_price` is in price units (see
/// `silver::PRICE_SCALE`); it is checked by the silver layer, not here.
pub struct BronzeTick {
    pub tick_id: String,
    pub symbol: String,
    pub raw_price: i64,
    pub fetched_at: u64,
    pub source: String,
}

/// A lower-case hexadecimal digit.
pub open spec fn is_lower_hex(c: char) -> bool {
    ('0' as int <= c as int <= '9' as int) || ('a' as int <= c as int <= 'f' as int)
}

/// The canonical text of a random (version 4, RFC 4122 variant) UUID:
/// 36 characters, hyphens at 8, 13, 18 and 23, lower-case hex elsewhere,
/// version digit `4` and a variant digit among `8`, `9`, `a`, `b`.
pub open spec fn is_uuid_v4_text(s: Seq<char>) -> bool {
    &&& s.len() == 36
    &&& forall|i: int|
        0 <= i < 36 ==> (if i == 8 || i == 13 || i == 18 || i == 23 {
            s[i] == '-'
        } else {
            is_lower_hex(#[trigger] s[i])
        })
    &&& s[14] == '4'
    &&& (s[19] == '8' || s[19] == '9' || s[19] == 'a' || s[19] == 'b')
}

/// A fresh random identifier: `uuid::Uuid::new_v4`, rendered with
/// `to_string`.  The value is random; what is claimed is only its shape,
/// which the uuid crate fixes (it masks in the version and variant bits and
/// formats the hyphenated lower-case form).
#[verifier::external_body]
fn random_tick_id() -> (r: String)
    ensures
        is_uuid_v4_text(r@),
{
    uuid::Uuid::new_v4().to_string()
}

/// Whole seconds from the Unix epoch to now (`SystemTime::elapsed` on
/// `UNIX_EPOCH`), or `None` when the clock reads earlier than the epoch.
/// The value depends on the clock; nothing is claimed of it.
#[verifier::external_body]
fn seconds_since_epoch() -> Option<u64> {
    match std::time::UNIX_EPOCH.elapsed() {
        Ok(d) => Some(d.as_secs()),
        Err(_) => None,
    }
}

/// Seconds since the Unix epoch, by the system clock, or `None` when the
/// clock reads earlier than the epoch (there is no such time to stamp; the
/// caller decides how to fail).
pub fn now_secs() -> Option<u64> {
    seconds_since_epoch()
}

/// The quote-summary address for a symbol.
pub open spec fn quote_url(symbol: Seq<char>) -> Seq<char> {
    "https://query1.finance.yahoo.com/v10/finance/quoteSummary/"@ + symbol + "?modules=price"@
}

/// Builds the quote-summary address for a symbol.
pub fn yahoo_quote_url(symbol: &str) -> (r: String)
    ensures
        r@ == quote_url(symbol@),
{
    let mut url = String::from_str("https://query1.finance.yahoo.com/v10/finance/quoteSummary/");
    url.append(symbol);
    url.append("?modules=price");
    url
}

impl BronzeTick {
    /// A tick for a price just fetched at `fetched_at` (seconds since the
    /// epoch): a fresh identifier, the price untransformed, and the
    /// quote-summary source.
    pub fn observed(symbol: &str, raw_price: i64, fetched_at: u64) -> (t: BronzeTick)
        ensures
            is_uuid_v4_text(t.tick_id@),
            t.symbol@ == symbol@,
            t.raw_price == raw_price,
            t.fetched_at == fetched_at,
            t.source@ == "yahoo_v10"@,
    {
        BronzeTick {
            tick_id: random_tick_id(),
            symbol: String::from_str(symbol),
            raw_price,
            fetched_at,
            source: String::from_str("yahoo_v10"),
        }
    }
}

} // verus!
