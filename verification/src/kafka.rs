//! Message-bus publishing rules: producer settings and where bronze ticks go.
use vstd::prelude::*;
use vstd::string::StringExecFns;
use crate::bronze::BronzeTick;

verus! {

/// The topic that carries raw ticks to the stream processor.
pub open spec fn bronze_topic() -> Seq<char> {
    "bronze_ticks"@
}

/// Producer settings: the brokers, a five-second delivery timeout, lz4
/// compression, and light batching (100 ms linger, 16 KiB batches).
pub fn producer_settings(brokers: &str) -> (r: Vec<(String, String)>)
    ensures
        r@.len() == 5,
        r@[0].0@ == "bootstrap.servers"@ && r@[0].1@ == brokers@,
        r@[1].0@ == "message.timeout.ms"@ && r@[1].1@ == "5000"@,
        r@[2].0@ == "compression.type"@ && r@[2].1@ == "lz4"@,
        r@[3].0@ == "linger.ms"@ && r@[3].1@ == "100"@,
        r@[4].0@ == "batch.size"@ && r@[4].1@ == "16384"@,
{
    let mut v: Vec<(String, String)> = Vec::new();
    v.push((String::from_str("bootstrap.servers"), String::from_str(brokers)));
    v.push((String::from_str("message.timeout.ms"), String::from_str("5000")));
    v.push((String::from_str("compression.type"), String::from_str("lz4")));
    v.push((String::from_str("linger.ms"), String::from_str("100")));
    v.push((String::from_str("batch.size"), String::from_str("16384")));
    v
}

/// Topic and key of a bronze tick's record: keyed by symbol, so that one
/// symbol always lands in one partition.
pub fn bronze_destination(tick: &BronzeTick) -> (r: (String, String))
    ensures
        r.0@ == bronze_topic(),
        r.1@ == tick.symbol@,
{
    (String::from_str("bronze_ticks"), tick.symbol.clone())
}

} // verus!
