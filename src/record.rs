//! One parsed message of the log stream.
use vstd::prelude::*;

verus! {

/// A transaction's execution trace as the stream reports it.
pub struct LogRecord {
    /// The transaction's unique identifier.
    pub signature: String,
    /// Present when the transaction failed.
    pub err: Option<String>,
    /// The trace lines, in order.
    pub logs: Vec<String>,
}

impl LogRecord {
    /// The trace lines as sequences of characters.
    pub open spec fn lines(&self) -> Seq<Seq<char>> {
        self.logs@.map_values(|l: String| l@)
    }

    pub fn new(signature: String, err: Option<String>, logs: Vec<String>) -> (r: LogRecord)
        ensures
            r.signature@ == signature@,
            r.err == err,
            r.logs@ == logs@,
    {
        LogRecord { signature, err, logs }
    }
}

} // verus!
