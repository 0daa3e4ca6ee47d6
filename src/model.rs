//! The pipeline as mathematics: each pass is a fold of one step over the lines,
//! and the report is a function of the aggregated records.
use vstd::prelude::*;
use crate::pattern::{filter_holds, ret_code_of, status_of, trace_id_of};

verus! {

/// Sizes at which a pass reports progress.
pub const PROGRESS_EVERY: usize = 1000;

/// What one line did to the identifier set.
#[derive(Clone, Copy, Debug, PartialEq, Eq, Structural)]
pub enum DiscoveryEvent {
    /// The line does not match the merchant/product filter.
    Unrelated,
    /// The line matches the filter but has no trace identifier. Such a line is
    /// skipped and the pass goes on: a data anomaly, not a fatal error.
    MissingTraceId,
    /// The line's identifier was already in the set.
    Repeated,
    /// The line's identifier is new.
    Added,
    /// The line's identifier is new, and the size is now a multiple of
    /// [`PROGRESS_EVERY`].
    Milestone,
}

/// What one line did to the aggregated records.
#[derive(Clone, Copy, Debug, PartialEq, Eq, Structural)]
pub enum AggregationEvent {
    /// The line has no trace identifier, or one that is not tracked.
    Untracked,
    /// The line was appended to an existing record.
    Appended,
    /// The line started a new record.
    Added,
    /// The line started a new record, and the count is now a multiple of
    /// [`PROGRESS_EVERY`].
    Milestone,
}

pub open spec fn add_id(ids: Seq<Seq<char>>, id: Seq<char>) -> Seq<Seq<char>> {
    if ids.contains(id) {
        ids
    } else {
        ids.push(id)
    }
}

/// One line of the discovery pass.
pub open spec fn discover_step(ids: Seq<Seq<char>>, m: Seq<char>, p: Seq<char>, line: Seq<char>) -> Seq<
    Seq<char>,
> {
    if filter_holds(m, p, line) {
        match trace_id_of(line) {
            Some(id) => add_id(ids, id),
            None => ids,
        }
    } else {
        ids
    }
}

pub open spec fn is_milestone(new_len: nat) -> bool {
    new_len % (PROGRESS_EVERY as nat) == 0
}

pub open spec fn discovery_event(ids: Seq<Seq<char>>, m: Seq<char>, p: Seq<char>, line: Seq<char>) -> DiscoveryEvent {
    if !filter_holds(m, p, line) {
        DiscoveryEvent::Unrelated
    } else {
        match trace_id_of(line) {
            None => DiscoveryEvent::MissingTraceId,
            Some(id) => if ids.contains(id) {
                DiscoveryEvent::Repeated
            } else if is_milestone(ids.len() + 1) {
                DiscoveryEvent::Milestone
            } else {
                DiscoveryEvent::Added
            },
        }
    }
}

/// The identifiers of the discovery pass over `lines`, in order of first
/// appearance.
pub open spec fn discovered(lines: Seq<Seq<char>>, m: Seq<char>, p: Seq<char>) -> Seq<Seq<char>>
    decreases lines.len(),
{
    if lines.len() == 0 {
        Seq::empty()
    } else {
        discover_step(discovered(lines.drop_last(), m, p), m, p, lines.last())
    }
}

/// An aggregated record: identifier and accumulated text.
pub type Entry = (Seq<char>, Seq<char>);

pub open spec fn has_key(rec: Seq<Entry>, id: Seq<char>) -> bool {
    exists|k: int| 0 <= k < rec.len() && (#[trigger] rec[k]).0 == id
}

pub open spec fn keys_unique(rec: Seq<Entry>) -> bool {
    forall|a: int, b: int|
        0 <= a < rec.len() && 0 <= b < rec.len() && a != b ==> (#[trigger] rec[a]).0 != (
        #[trigger] rec[b]).0
}

/// Appends `line` to the record of `id`, or starts that record.
pub open spec fn add_line(rec: Seq<Entry>, id: Seq<char>, line: Seq<char>) -> Seq<Entry> {
    if has_key(rec, id) {
        let k = choose|k: int| 0 <= k < rec.len() && (#[trigger] rec[k]).0 == id;
        rec.update(k, (id, rec[k].1 + line))
    } else {
        rec.push((id, line))
    }
}

/// One line of the aggregation pass.
pub open spec fn aggregate_step(rec: Seq<Entry>, ids: Seq<Seq<char>>, line: Seq<char>) -> Seq<Entry> {
    match trace_id_of(line) {
        Some(id) => if ids.contains(id) {
            add_line(rec, id, line)
        } else {
            rec
        },
        None => rec,
    }
}

pub open spec fn aggregation_event(rec: Seq<Entry>, ids: Seq<Seq<char>>, line: Seq<char>) -> AggregationEvent {
    match trace_id_of(line) {
        Some(id) => if !ids.contains(id) {
            AggregationEvent::Untracked
        } else if has_key(rec, id) {
            AggregationEvent::Appended
        } else if is_milestone(rec.len() + 1) {
            AggregationEvent::Milestone
        } else {
            AggregationEvent::Added
        },
        None => AggregationEvent::Untracked,
    }
}

/// The records of the aggregation pass over `lines`, in order of first
/// appearance.
pub open spec fn aggregated(lines: Seq<Seq<char>>, ids: Seq<Seq<char>>) -> Seq<Entry>
    decreases lines.len(),
{
    if lines.len() == 0 {
        Seq::empty()
    } else {
        aggregate_step(aggregated(lines.drop_last(), ids), ids, lines.last())
    }
}

pub open spec fn nil_text() -> Seq<char> {
    seq!['n', 'i', 'l']
}

pub open spec fn separator() -> Seq<char> {
    seq![',', ' ']
}

pub open spec fn header_text() -> Seq<char> {
    seq!['I', 'D', ',', ' ', 'S', 'T', 'A', 'T', 'U', 'S', ',', ' ', 'R', 'E', 'T', 'C', 'O', 'D', 'E']
}

/// A captured value, or the absent sentinel.
pub open spec fn field_text(v: Option<Seq<char>>) -> Seq<char> {
    match v {
        Some(s) => s,
        None => nil_text(),
    }
}

pub open spec fn row_text(id: Seq<char>, status: Option<Seq<char>>, ret_code: Option<Seq<char>>) -> Seq<char> {
    id + separator() + field_text(status) + separator() + field_text(ret_code)
}

/// The output row of one record.
pub open spec fn entry_row(e: Entry) -> Seq<char> {
    row_text(e.0, status_of(e.1), ret_code_of(e.1))
}

/// The output: the header, then one row per record.
pub open spec fn report_text(rec: Seq<Entry>) -> Seq<Seq<char>> {
    seq![header_text()] + rec.map_values(|e: Entry| entry_row(e))
}

/// The output of the whole pipeline on `lines` for one merchant/product pair.
pub open spec fn output_of(lines: Seq<Seq<char>>, m: Seq<char>, p: Seq<char>) -> Seq<Seq<char>> {
    report_text(aggregated(lines, discovered(lines, m, p)))
}

} // verus!
