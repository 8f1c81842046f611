//! Watches a stream of ledger transaction logs, spots large transfers with a
//! heuristic over the trace lines, and rewards the counterparty with a signed
//! transfer.
//!
//! - `record`: one parsed message of the stream.
//! - `detector`: the large-transfer heuristic.
//! - `reward`: the reward transaction, its construction and its signing.
//! - `pipeline`: the orchestrator, a state machine from events to actions.
//! - `chain`: the ledger SDK's types and the calls made into it.
pub mod chain;
pub mod detector;
pub mod pipeline;
pub mod record;
pub mod reward;
