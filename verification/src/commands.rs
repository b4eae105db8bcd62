//! The rules behind the user-facing commands: symbol normalisation, order
//! validation, listing defaults, and the brokerage status report.
use vstd::prelude::*;
use vstd::string::StringExecFns;
use crate::alpaca::AlpacaClient;
use crate::text::{chars_of, lowercase_of, same_text, to_lower, to_upper, trim_text, trimmed_of, uppercase_of};

verus! {

/// A symbol as the pipeline uses it: white space trimmed, upper-cased.
pub open spec fn normalized_symbol(s: Seq<char>) -> Seq<char> {
    uppercase_of(trimmed_of(s))
}

/// A normalised symbol is accepted when it has 1 to 10 characters.
pub open spec fn symbol_fits(u: Seq<char>) -> bool {
    0 < u.len() <= 10
}

/// The message for a symbol of the wrong length.
pub open spec fn symbol_length_message() -> Seq<char> {
    "symbol must be 1-10 chars"@
}

/// Checks the length of an already normalised symbol: 1 to 10 characters.
pub fn check_symbol(normalized: String) -> (r: Result<String, String>)
    ensures
        symbol_fits(normalized@) ==> r == Ok::<String, String>(normalized),
        !symbol_fits(normalized@) ==> (r matches Err(m) && m@ == symbol_length_message()),
{
    let n = chars_of(normalized.as_str()).len();
    if n == 0 || n > 10 {
        return Err(String::from_str("symbol must be 1-10 chars"));
    }
    Ok(normalized)
}

/// Normalises a symbol for the pipeline and checks its length: 1 to 10
/// characters once trimmed and upper-cased.
pub fn validate_symbol(symbol: &str) -> (r: Result<String, String>)
    ensures
        symbol_fits(normalized_symbol(symbol@)) ==> (r matches Ok(s) && s@ == normalized_symbol(
            symbol@,
        )),
        !symbol_fits(normalized_symbol(symbol@)) ==> (r matches Err(m) && m@
            == symbol_length_message()),
{
    check_symbol(to_upper(trim_text(symbol)))
}

/// A symbol upper-cased, as position lookups use it.
pub fn position_symbol(symbol: &str) -> (r: String)
    ensures
        r@ == uppercase_of(symbol@),
{
    to_upper(symbol)
}

/// The fields of a market order for the day, before the quantity is added.
pub struct MarketOrder {
    pub symbol: String,
    pub side: String,
    pub order_type: String,
    pub time_in_force: String,
}

/// Why an order request is refused, if it is, given the side already
/// lower-cased: the side must be `buy` or `sell`, and then the quantity must
/// be positive.
pub open spec fn side_refusal(side: Seq<char>, qty_positive: bool) -> Option<Seq<char>> {
    if side != "buy"@ && side != "sell"@ {
        Some("side must be 'buy' or 'sell'"@)
    } else if !qty_positive {
        Some("qty must be > 0"@)
    } else {
        None
    }
}

/// Why an order request is refused, if it is: the side (lower-cased) must be
/// `buy` or `sell`, and then the quantity must be positive.
pub open spec fn order_refusal(side: Seq<char>, qty_positive: bool) -> Option<Seq<char>> {
    side_refusal(lowercase_of(side), qty_positive)
}

/// Checks an order whose symbol is already upper-cased and whose side is
/// already lower-cased, and completes it as a market order for the day.
pub fn market_order(symbol: String, side: String, qty_positive: bool) -> (r: Result<
    MarketOrder,
    String,
>)
    ensures
        side_refusal(side@, qty_positive) matches Some(m) ==> (r matches Err(e) && e@ == m),
        side_refusal(side@, qty_positive) is None ==> (r matches Ok(o) && {
            &&& o.symbol == symbol
            &&& o.side == side
            &&& o.order_type@ == "market"@
            &&& o.time_in_force@ == "day"@
        }),
{
    if !same_text(side.as_str(), "buy") && !same_text(side.as_str(), "sell") {
        return Err(String::from_str("side must be 'buy' or 'sell'"));
    }
    if !qty_positive {
        return Err(String::from_str("qty must be > 0"));
    }
    Ok(
        MarketOrder {
            symbol,
            side,
            order_type: String::from_str("market"),
            time_in_force: String::from_str("day"),
        },
    )
}

/// Checks an order request and fills in the rest of a market order: the
/// symbol upper-cased, the side lower-cased, type `market`, good for the
/// `day`.  `qty_positive` tells whether the requested quantity is above zero.
pub fn prepare_order(symbol: &str, side: &str, qty_positive: bool) -> (r: Result<
    MarketOrder,
    String,
>)
    ensures
        order_refusal(side@, qty_positive) matches Some(m) ==> (r matches Err(e) && e@ == m),
        order_refusal(side@, qty_positive) is None ==> (r matches Ok(o) && {
            &&& o.symbol@ == uppercase_of(symbol@)
            &&& o.side@ == lowercase_of(side@)
            &&& o.order_type@ == "market"@
            &&& o.time_in_force@ == "day"@
        }),
{
    market_order(to_upper(symbol), to_lower(side), qty_positive)
}

/// The order listing's filter and limit: all orders, twenty of them, unless
/// asked otherwise.
pub fn list_orders_query(status: Option<String>, limit: Option<u32>) -> (r: (String, u32))
    ensures
        r.0@ == match status {
            Some(s) => s@,
            None => "all"@,
        },
        r.1 == match limit {
            Some(l) => l,
            None => 20u32,
        },
{
    let status = match status {
        Some(s) => s,
        None => String::from_str("all"),
    };
    let limit = match limit {
        Some(l) => l,
        None => 20,
    };
    (status, limit)
}

/// The message when trading is asked for but no brokerage is configured.
pub open spec fn not_configured_message() -> Seq<char> {
    "Alpaca not configured. Set ALPACA_KEY and ALPACA_SECRET env vars."@
}

/// The configured brokerage client, or the message that there is none.
pub fn configured_client(client: &Option<AlpacaClient>) -> (r: Result<&AlpacaClient, String>)
    ensures
        client matches Some(c) ==> r == Ok::<&AlpacaClient, String>(&c),
        client is None ==> (r matches Err(m) && m@ == not_configured_message()),
{
    match client {
        Some(c) => Ok(c),
        None => Err(
            String::from_str("Alpaca not configured. Set ALPACA_KEY and ALPACA_SECRET env vars."),
        ),
    }
}

/// Whether trading is configured, and whether it goes to the paper API.
#[derive(Clone, Copy, Debug, PartialEq, Eq, Structural)]
pub struct AlpacaStatus {
    pub configured: bool,
    pub paper: bool,
}

/// The status report: without a client, not configured and (safely) paper.
pub fn alpaca_status(client: &Option<AlpacaClient>) -> (r: AlpacaStatus)
    ensures
        r.configured == client is Some,
        client matches Some(c) ==> r.paper == crate::text::seq_contains_text(
            c.spec_base_url(),
            "paper-api"@,
        ),
        client is None ==> r.paper,
{
    match client {
        Some(c) => AlpacaStatus { configured: true, paper: c.is_paper() },
        None => AlpacaStatus { configured: false, paper: true },
    }
}

} // verus!
