//! Brokerage client rules: configuration, authentication headers, request
//! addresses, and how replies are judged.
use vstd::prelude::*;
use vstd::string::StringExecFns;
use crate::text::{contains_text, decimal, push_decimal, seq_contains_text};

verus! {

/// Where orders go when no address is configured: the paper-trading API.
pub open spec fn default_base_url() -> Seq<char> {
    "https://paper-api.alpaca.markets"@
}

/// Credentials and address of the brokerage API.
pub struct AlpacaClient {
    base_url: String,
    key: String,
    secret: String,
}

/// An order as the brokerage reports it.
#[derive(Debug)]
pub struct Order {
    pub id: String,
    pub client_order_id: Option<String>,
    pub symbol: String,
    pub qty: Option<String>,
    pub filled_qty: Option<String>,
    pub side: String,
    pub order_type: String,
    pub time_in_force: String,
    pub status: String,
    pub filled_avg_price: Option<String>,
    pub limit_price: Option<String>,
    pub created_at: Option<String>,
    pub submitted_at: Option<String>,
}

/// An open position as the brokerage reports it.
#[derive(Debug)]
pub struct Position {
    pub symbol: String,
    pub qty: String,
    pub avg_entry_price: String,
    pub market_value: Option<String>,
    pub unrealized_pl: Option<String>,
    pub current_price: Option<String>,
    pub side: String,
}

/// The account summary as the brokerage reports it.
#[derive(Debug)]
pub struct Account {
    pub cash: String,
    pub buying_power: String,
    pub portfolio_value: String,
    pub status: String,
}

/// The brokerage calls, named as in their error messages.
#[derive(Clone, Copy, Debug, PartialEq, Eq, Structural)]
pub enum AlpacaCall {
    PlaceOrder,
    ListOrders,
    GetPosition,
    GetAccount,
}

/// The name of a call in error messages.
pub open spec fn call_name(c: AlpacaCall) -> Seq<char> {
    match c {
        AlpacaCall::PlaceOrder => "place_order"@,
        AlpacaCall::ListOrders => "list_orders"@,
        AlpacaCall::GetPosition => "get_position"@,
        AlpacaCall::GetAccount => "get_account"@,
    }
}

impl AlpacaCall {
    /// The name of the call in error messages.
    pub fn name(&self) -> (r: &'static str)
        ensures
            r@ == call_name(*self),
    {
        match self {
            AlpacaCall::PlaceOrder => "place_order",
            AlpacaCall::ListOrders => "list_orders",
            AlpacaCall::GetPosition => "get_position",
            AlpacaCall::GetAccount => "get_account",
        }
    }
}

/// The message for a reply whose status is not a success.
pub open spec fn reply_error_message(call: AlpacaCall, status: Seq<char>, body: Seq<char>) -> Seq<
    char,
> {
    "Alpaca "@ + call_name(call) + " ["@ + status + "]: "@ + body
}

/// A status code in the success class.
pub open spec fn is_success(code: u16) -> bool {
    200 <= code <= 299
}

/// Judges a reply: a success status hands the body on for decoding; any
/// other status is an error that names the call, the status (code and
/// reason, as `status_text`) and the body.
pub fn reply_body(call: AlpacaCall, code: u16, status_text: &str, body: String) -> (r: Result<
    String,
    String,
>)
    ensures
        is_success(code) ==> r == Ok::<String, String>(body),
        !is_success(code) ==> (r matches Err(m) && m@ == reply_error_message(
            call,
            status_text@,
            body@,
        )),
{
    if 200 <= code && code <= 299 {
        Ok(body)
    } else {
        let mut m = String::from_str("Alpaca ");
        m.append(call.name());
        m.append(" [");
        m.append(status_text);
        m.append("]: ");
        m.append(body.as_str());
        Err(m)
    }
}

/// A position lookup answered "not found": there is no open position, which
/// is no error.
pub fn position_absent(code: u16) -> (r: bool)
    ensures
        r == (code == 404),
{
    code == 404
}

impl AlpacaClient {
    /// The API's base address.
    pub closed spec fn spec_base_url(&self) -> Seq<char> {
        self.base_url@
    }

    /// The key id.
    pub closed spec fn spec_key(&self) -> Seq<char> {
        self.key@
    }

    /// The secret key.
    pub closed spec fn spec_secret(&self) -> Seq<char> {
        self.secret@
    }

    /// A client from the configured values: without a key or a secret there
    /// is none; without an address it uses the paper-trading API.
    pub fn from_settings(key: Option<String>, secret: Option<String>, base_url: Option<String>) -> (r:
        Option<AlpacaClient>)
        ensures
            r is Some <==> (key is Some && secret is Some),
            r matches Some(c) ==> {
                &&& c.spec_key() == key->0@
                &&& c.spec_secret() == secret->0@
                &&& c.spec_base_url() == match base_url {
                    Some(u) => u@,
                    None => default_base_url(),
                }
            },
    {
        let key = match key {
            Some(k) => k,
            None => return None,
        };
        let secret = match secret {
            Some(s) => s,
            None => return None,
        };
        let base_url = match base_url {
            Some(u) => u,
            None => String::from_str("https://paper-api.alpaca.markets"),
        };
        Some(AlpacaClient { base_url, key, secret })
    }

    /// The address is the paper-trading one: it mentions `paper-api`.
    pub fn is_paper(&self) -> (r: bool)
        ensures
            r == seq_contains_text(self.spec_base_url(), "paper-api"@),
    {
        contains_text(self.base_url.as_str(), "paper-api")
    }

    /// The two authentication headers: key id and secret key.
    pub fn auth_headers(&self) -> (r: Vec<(String, String)>)
        ensures
            r@.len() == 2,
            r@[0].0@ == "APCA-API-KEY-ID"@ && r@[0].1@ == self.spec_key(),
            r@[1].0@ == "APCA-API-SECRET-KEY"@ && r@[1].1@ == self.spec_secret(),
    {
        let mut h: Vec<(String, String)> = Vec::new();
        h.push((String::from_str("APCA-API-KEY-ID"), self.key.clone()));
        h.push((String::from_str("APCA-API-SECRET-KEY"), self.secret.clone()));
        h
    }

    /// Where orders are placed.
    pub fn orders_url(&self) -> (r: String)
        ensures
            r@ == self.spec_base_url() + "/v2/orders"@,
    {
        let mut u = self.base_url.clone();
        u.append("/v2/orders");
        u
    }

    /// The listing of orders with a status filter and a limit, newest first.
    pub fn list_orders_url(&self, status: &str, limit: u32) -> (r: String)
        ensures
            r@ == self.spec_base_url() + "/v2/orders?status="@ + status@ + "&limit="@ + decimal(
                limit as nat,
            ) + "&direction=desc"@,
    {
        let mut u = self.base_url.clone();
        u.append("/v2/orders?status=");
        u.append(status);
        u.append("&limit=");
        push_decimal(&mut u, limit as u64);
        u.append("&direction=desc");
        u
    }

    /// The open position in a symbol.
    pub fn position_url(&self, symbol: &str) -> (r: String)
        ensures
            r@ == self.spec_base_url() + "/v2/positions/"@ + symbol@,
    {
        let mut u = self.base_url.clone();
        u.append("/v2/positions/");
        u.append(symbol);
        u
    }

    /// The account summary.
    pub fn account_url(&self) -> (r: String)
        ensures
            r@ == self.spec_base_url() + "/v2/account"@,
    {
        let mut u = self.base_url.clone();
        u.append("/v2/account");
        u
    }
}

} // verus!
