//! The large-transfer heuristic over human-readable trace lines.
use crate::chain::placeholder_address;
use crate::record::LogRecord;
use solana_sdk::pubkey::Pubkey;
use vstd::prelude::*;

verus! {

/// A line holding this word reports a transfer.
pub const TRANSFER_MARKER: &'static str = "transfer";

/// A transfer line holding this text moved at least the detection threshold,
/// 1,000,000,000 minor units.
pub const AMOUNT_MARKER: &'static str = "amount: 1000000000";

/// `pattern` occurs in `text` as a contiguous run of characters.
pub open spec fn occurs_in(pattern: Seq<char>, text: Seq<char>) -> bool {
    exists|i: int|
        0 <= i && i + pattern.len() <= text.len() && #[trigger] text.subrange(i, i + pattern.len())
            == pattern
}

/// Relies on `str::contains` with a `&str` pattern: whether `pattern` is a
/// substring of `text`.
#[verifier::external_body]
fn str_contains(text: &str, pattern: &str) -> (r: bool)
    ensures
        r == occurs_in(pattern@, text@),
{
    text.contains(pattern)
}

/// The line reports a transfer.
pub open spec fn is_transfer_line(line: Seq<char>) -> bool {
    occurs_in(TRANSFER_MARKER@, line)
}

/// The line reports a transfer of at least the detection threshold.
pub open spec fn is_qualifying_line(line: Seq<char>) -> bool {
    is_transfer_line(line) && occurs_in(AMOUNT_MARKER@, line)
}

/// Some line of the trace qualifies.
pub open spec fn has_qualifying_line(lines: Seq<Seq<char>>) -> bool {
    exists|i: int| 0 <= i < lines.len() && #[trigger] is_qualifying_line(lines[i])
}

/// The transfer lines of a trace, in order.
pub open spec fn transfer_lines_of(lines: Seq<Seq<char>>) -> Seq<Seq<char>> {
    lines.filter(|l: Seq<char>| is_transfer_line(l))
}

/// What the detector concluded about one record.
pub struct Detection {
    /// The record is a large transfer.
    pub matched: bool,
    /// The counterparty to reward; present exactly when `matched`.
    pub target: Option<Pubkey>,
    /// The record's transfer lines, in order, for reporting.
    pub transfer_lines: Vec<String>,
}

impl Detection {
    pub open spec fn transfer_line_views(&self) -> Seq<Seq<char>> {
        self.transfer_lines@.map_values(|l: String| l@)
    }
}

/// Scans the trace lines in order. A transfer line that also carries the
/// amount marker marks the record as a match; each such line draws a fresh
/// placeholder counterparty, and the last one drawn is kept. The log format
/// names no recipient that this heuristic could extract, so the counterparty
/// is synthetic.
pub fn detect(record: &LogRecord) -> (d: Detection)
    ensures
        d.matched == has_qualifying_line(record.lines()),
        d.target.is_some() == d.matched,
        d.transfer_line_views() == transfer_lines_of(record.lines()),
        (forall|i: int|
            0 <= i < record.logs@.len() ==> !occurs_in(AMOUNT_MARKER@, #[trigger] record.logs@[i]@))
            ==> !d.matched,
{
    let ghost lines = record.lines();
    let mut matched = false;
    let mut target: Option<Pubkey> = None;
    let mut transfer_lines: Vec<String> = Vec::new();
    let n = record.logs.len();
    let mut i: usize = 0;
    while i < n
        invariant
            n == record.logs@.len(),
            lines == record.lines(),
            lines.len() == n,
            0 <= i <= n,
            matched == has_qualifying_line(lines.subrange(0, i as int)),
            target.is_some() == matched,
            transfer_lines@.map_values(|l: String| l@) == transfer_lines_of(
                lines.subrange(0, i as int),
            ),
        decreases n - i,
    {
        let line = &record.logs[i];
        assert(line@ == lines[i as int]);
        let ghost before = lines.subrange(0, i as int);
        assert(lines.subrange(0, i + 1) == before.push(lines[i as int]));
        if str_contains(line.as_str(), TRANSFER_MARKER) {
            transfer_lines.push(line.clone());
            if str_contains(line.as_str(), AMOUNT_MARKER) {
                matched = true;
                target = Some(placeholder_address());
            }
        }
        proof {
            let after = before.push(lines[i as int]);
            reveal(Seq::filter);
            assert(after.drop_last() == before);
            if has_qualifying_line(after) {
                if !has_qualifying_line(before) {
                    let k = choose|k: int| 0 <= k < after.len() && #[trigger] is_qualifying_line(after[k]);
                    if k < before.len() {
                        assert(is_qualifying_line(before[k]));
                    }
                }
            }
            if has_qualifying_line(before) {
                let k = choose|k: int| 0 <= k < before.len() && #[trigger] is_qualifying_line(before[k]);
                assert(is_qualifying_line(after[k]));
            }
            if is_qualifying_line(lines[i as int]) {
                assert(is_qualifying_line(after[i as int]));
            }
        }
        assert(transfer_lines@.map_values(|l: String| l@) =~= transfer_lines_of(
            lines.subrange(0, i + 1),
        ));
        i = i + 1;
    }
    assert(lines.subrange(0, n as int) =~= lines);
    assert(matched ==> exists|i: int|
        0 <= i < record.logs@.len() && occurs_in(AMOUNT_MARKER@, #[trigger] record.logs@[i]@)) by {
        if matched {
            let k = choose|k: int| 0 <= k < lines.len() && #[trigger] is_qualifying_line(lines[k]);
            assert(lines[k] == record.logs@[k]@);
        }
    }
    Detection { matched, target, transfer_lines }
}

} // verus!
