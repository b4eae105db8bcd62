//! Warehouse queries: the statement protocol (submit, then follow `nextUri`
//! until the query finishes), the SQL that the pipeline sends, and the
//! quoting of values spliced into it.
use vstd::prelude::*;
use vstd::string::StringExecFns;
use crate::text::{chars_of, push_char, same_text};

verus! {

/// What one quote character becomes inside a quoted SQL literal.
pub open spec fn escaped_char(c: char) -> Seq<char> {
    if c == '\'' {
        seq!['\'', '\'']
    } else {
        seq![c]
    }
}

/// `s` with every single quote doubled.
pub open spec fn spec_escape(s: Seq<char>) -> Seq<char>
    decreases s.len(),
{
    if s.len() == 0 {
        Seq::empty()
    } else {
        spec_escape(s.drop_last()) + escaped_char(s.last())
    }
}

/// Doubles every single quote, so that the text can stand inside a quoted SQL
/// string literal.
pub fn escape(s: &str) -> (r: String)
    ensures
        r@ == spec_escape(s@),
{
    let cs = chars_of(s);
    let mut out = String::new();
    let mut i: usize = 0;
    while i < cs.len()
        invariant
            cs@ == s@,
            i <= cs.len(),
            out@ == spec_escape(cs@.take(i as int)),
        decreases cs.len() - i,
    {
        let c = cs[i];
        proof {
            assert(cs@.take(i + 1).drop_last() =~= cs@.take(i as int));
        }
        if c == '\'' {
            push_char(&mut out, '\'');
            push_char(&mut out, '\'');
        } else {
            push_char(&mut out, c);
        }
        proof {
            assert(out@ =~= spec_escape(cs@.take(i + 1)));
        }
        i = i + 1;
    }
    proof {
        assert(cs@.take(cs.len() as int) =~= cs@);
    }
    out
}

/// The query for the newest persisted signal of a symbol, with the symbol
/// quoted.
pub open spec fn latest_signal_query(symbol: Seq<char>) -> Seq<char> {
    "SELECT tick_id, symbol, price, signal, short_ma, long_ma, rsi, confidence, timestamp\n             FROM iceberg.stocks.gold_signals\n             WHERE symbol = '"@
        + spec_escape(symbol) + "'\n             ORDER BY timestamp DESC LIMIT 1"@
}

/// Builds the query for the newest persisted signal of `symbol`.
pub fn latest_signal_sql(symbol: &str) -> (r: String)
    ensures
        r@ == latest_signal_query(symbol@),
{
    let mut sql = String::from_str(
        "SELECT tick_id, symbol, price, signal, short_ma, long_ma, rsi, confidence, timestamp\n             FROM iceberg.stocks.gold_signals\n             WHERE symbol = '",
    );
    let quoted = escape(symbol);
    sql.append(quoted.as_str());
    sql.append("'\n             ORDER BY timestamp DESC LIMIT 1");
    sql
}

/// Where and as whom queries are sent.
pub struct TrinoClient {
    pub base_url: String,
    pub user: String,
    pub catalog: String,
    pub schema: String,
}

impl TrinoClient {
    /// A client for the given server, user, catalog and schema.
    pub fn new(base_url: &str, user: &str, catalog: &str, schema: &str) -> (r: TrinoClient)
        ensures
            r.base_url@ == base_url@,
            r.user@ == user@,
            r.catalog@ == catalog@,
            r.schema@ == schema@,
    {
        TrinoClient {
            base_url: String::from_str(base_url),
            user: String::from_str(user),
            catalog: String::from_str(catalog),
            schema: String::from_str(schema),
        }
    }

    /// Where statements are submitted.
    pub fn statement_url(&self) -> (r: String)
        ensures
            r@ == self.base_url@ + "/v1/statement"@,
    {
        let mut url = self.base_url.clone();
        url.append("/v1/statement");
        url
    }

    /// Headers of a statement submission: user, catalog and schema.
    pub fn statement_headers(&self) -> (r: Vec<(String, String)>)
        ensures
            r@.len() == 3,
            r@[0].0@ == "X-Trino-User"@ && r@[0].1@ == self.user@,
            r@[1].0@ == "X-Trino-Catalog"@ && r@[1].1@ == self.catalog@,
            r@[2].0@ == "X-Trino-Schema"@ && r@[2].1@ == self.schema@,
    {
        let mut h: Vec<(String, String)> = Vec::new();
        h.push((String::from_str("X-Trino-User"), self.user.clone()));
        h.push((String::from_str("X-Trino-Catalog"), self.catalog.clone()));
        h.push((String::from_str("X-Trino-Schema"), self.schema.clone()));
        h
    }

    /// Headers of a poll for the next page: the user only.
    pub fn poll_headers(&self) -> (r: Vec<(String, String)>)
        ensures
            r@.len() == 1,
            r@[0].0@ == "X-Trino-User"@ && r@[0].1@ == self.user@,
    {
        let mut h: Vec<(String, String)> = Vec::new();
        h.push((String::from_str("X-Trino-User"), self.user.clone()));
        h
    }
}

/// An error reported by the server.
pub struct TrinoError {
    pub message: String,
    pub error_name: String,
}

/// One reply of the statement protocol, rows of type `R`.
pub struct TrinoPage<R> {
    pub id: String,
    pub next_uri: Option<String>,
    pub data: Option<Vec<R>>,
    pub state: String,
    pub error: Option<TrinoError>,
}

/// What to do after a reply.
#[derive(Debug)]
pub enum QueryStep {
    /// Fetch the next page from this address.
    Poll(String),
    /// The query is over; the rows collected are the result.
    Done,
    /// The query failed, with this message.
    Failed(String),
}

/// The message for a server-reported error.
pub open spec fn server_error_message(e: TrinoError) -> Seq<char> {
    "Trino ["@ + e.error_name@ + "]: "@ + e.message@
}

/// The message for a query whose state turned to FAILED.
pub open spec fn query_failed_message(id: Seq<char>) -> Seq<char> {
    "Trino query failed: "@ + id
}

/// The step after a reply that carried no error and no final state.
pub open spec fn follow(next_uri: Option<String>) -> QueryStep {
    match next_uri {
        Some(u) => QueryStep::Poll(u),
        None => QueryStep::Done,
    }
}

/// The rows a reply contributes.
pub open spec fn page_rows<R>(data: Option<Vec<R>>) -> Seq<R> {
    match data {
        Some(v) => v@,
        None => Seq::empty(),
    }
}

/// The rows collected once a reply is taken: an erroneous reply adds none.
pub open spec fn advanced_rows<R>(rows: Seq<R>, page: TrinoPage<R>) -> Seq<R> {
    if page.error is Some {
        rows
    } else {
        rows + page_rows(page.data)
    }
}

/// The rows collected from the reply to the submission.
pub open spec fn begun_rows<R>(first: TrinoPage<R>) -> Seq<R> {
    if first.error is Some {
        Seq::empty()
    } else {
        page_rows(first.data)
    }
}

/// The step after an error-free poll whose state is not FAILED: a FINISHED
/// state ends the query, any other state follows the next address.
pub open spec fn poll_step<R>(page: TrinoPage<R>) -> QueryStep {
    if page.state@ == "FINISHED"@ {
        QueryStep::Done
    } else {
        follow(page.next_uri)
    }
}

/// A step is the failure with message `m`.
pub open spec fn fails_with(step: QueryStep, m: Seq<char>) -> bool {
    step matches QueryStep::Failed(s) && s@ == m
}

fn error_text(e: &TrinoError) -> (r: String)
    ensures
        r@ == server_error_message(*e),
{
    let mut m = String::from_str("Trino [");
    m.append(e.error_name.as_str());
    m.append("]: ");
    m.append(e.message.as_str());
    m
}

/// The rows of a statement collected so far.
pub struct QueryRun<R> {
    rows: Vec<R>,
}

impl<R> View for QueryRun<R> {
    type V = Seq<R>;

    /// The rows collected so far, in the order the pages brought them.
    closed spec fn view(&self) -> Seq<R> {
        self.rows@
    }
}

impl<R> QueryRun<R> {
    /// Starts from the reply to the submission: an error fails the query;
    /// otherwise its rows are kept and the next address, if any, is followed.
    /// The state of this first reply is not consulted.
    pub fn begin(first: TrinoPage<R>) -> (r: (QueryRun<R>, QueryStep))
        ensures
            first.error matches Some(e) ==> fails_with(r.1, server_error_message(e)) && r.0@
                == Seq::<R>::empty(),
            first.error is None ==> r.0@ == page_rows(first.data) && r.1 == follow(
                first.next_uri,
            ),
            r.0@ == begun_rows(first),
    {
        if let Some(e) = &first.error {
            let m = error_text(e);
            return (QueryRun { rows: Vec::new() }, QueryStep::Failed(m));
        }
        let rows = match first.data {
            Some(v) => v,
            None => Vec::new(),
        };
        let step = match first.next_uri {
            Some(u) => QueryStep::Poll(u),
            None => QueryStep::Done,
        };
        (QueryRun { rows }, step)
    }

    /// Takes a polled reply: an error fails the query and adds nothing;
    /// otherwise its rows are appended, and then a FINISHED state ends the
    /// query, a FAILED state fails it, and any other state follows the next
    /// address (the query ends when there is none).
    pub fn advance(&mut self, page: TrinoPage<R>) -> (step: QueryStep)
        ensures
            page.error matches Some(e) ==> fails_with(step, server_error_message(e))
                && final(self)@ == old(self)@,
            page.error is None ==> {
                &&& final(self)@ == old(self)@ + page_rows(page.data)
                &&& page.state@ == "FINISHED"@ ==> step == QueryStep::Done
                &&& page.state@ != "FINISHED"@ && page.state@ == "FAILED"@ ==> fails_with(
                    step,
                    query_failed_message(page.id@),
                )
                &&& page.state@ != "FINISHED"@ && page.state@ != "FAILED"@ ==> step == follow(
                    page.next_uri,
                )
                &&& page.state@ != "FAILED"@ ==> step == poll_step(page)
            },
            final(self)@ == advanced_rows(old(self)@, page),
    {
        if let Some(e) = &page.error {
            let m = error_text(e);
            return QueryStep::Failed(m);
        }
        if let Some(mut v) = page.data {
            self.rows.append(&mut v);
        } else {
            proof {
                assert(self.rows@ + Seq::<R>::empty() =~= self.rows@);
            }
        }
        if same_text(page.state.as_str(), "FINISHED") {
            QueryStep::Done
        } else if same_text(page.state.as_str(), "FAILED") {
            let mut m = String::from_str("Trino query failed: ");
            m.append(page.id.as_str());
            QueryStep::Failed(m)
        } else {
            match page.next_uri {
                Some(u) => QueryStep::Poll(u),
                None => QueryStep::Done,
            }
        }
    }

    /// The rows collected.
    pub fn into_rows(self) -> (r: Vec<R>)
        ensures
            r@ == self@,
    {
        self.rows
    }
}

} // verus!
