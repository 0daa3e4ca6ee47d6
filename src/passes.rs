//! The two passes over the lines: discovery of the trace identifiers of one
//! merchant/product pair, and aggregation of every line that carries one of
//! them.
use vstd::prelude::*;
use vstd::string::StringExecFns;
use crate::model::{
    add_id, add_line, aggregate_step, aggregated, aggregation_event, discover_step, discovered,
    discovery_event, has_key, keys_unique, AggregationEvent, DiscoveryEvent, Entry,
    PROGRESS_EVERY,
};
use crate::pattern::{trace_id_of, Patterns};

verus! {

/// The trace identifiers found by the discovery pass, in order of first
/// appearance.
pub struct IdentifierSet {
    ids: Vec<String>,
}

impl View for IdentifierSet {
    type V = Seq<Seq<char>>;

    closed spec fn view(&self) -> Seq<Seq<char>> {
        self.ids.deep_view()
    }
}

impl IdentifierSet {
    pub fn new() -> (r: IdentifierSet)
        ensures
            r@ == Seq::<Seq<char>>::empty(),
    {
        let r = IdentifierSet { ids: Vec::new() };
        assert(r@ =~= Seq::<Seq<char>>::empty());
        r
    }

    pub fn len(&self) -> (r: usize)
        ensures
            r == self@.len(),
    {
        self.ids.len()
    }

    /// Membership, the one question the aggregation pass asks.
    pub fn contains(&self, id: &String) -> (r: bool)
        ensures
            r == self@.contains(id@),
    {
        let mut j: usize = 0;
        while j < self.ids.len()
            invariant
                j <= self.ids.len(),
                forall|k: int| 0 <= k < j ==> self@[k] != id@,
            decreases self.ids.len() - j,
        {
            if self.ids[j] == *id {
                assert(self@[j as int] == id@);
                return true;
            }
            j += 1;
        }
        assert(!self@.contains(id@));
        false
    }

    /// The identifiers, in order of first appearance.
    pub fn identifiers(&self) -> (r: &Vec<String>)
        ensures
            r.deep_view() == self@,
    {
        &self.ids
    }

    /// Takes one line of the discovery pass into the set.
    pub fn observe(&mut self, patterns: &Patterns, line: &str) -> (r: DiscoveryEvent)
        ensures
            final(self)@ == discover_step(
                old(self)@,
                patterns.merchant(),
                patterns.product(),
                line@,
            ),
            r == discovery_event(old(self)@, patterns.merchant(), patterns.product(), line@),
    {
        if !patterns.filter_matches(line) {
            return DiscoveryEvent::Unrelated;
        }
        let id = match patterns.trace_id(line) {
            Some(id) => id,
            None => return DiscoveryEvent::MissingTraceId,
        };
        if self.contains(&id) {
            return DiscoveryEvent::Repeated;
        }
        let ghost before = self@;
        self.ids.push(id);
        assert(self@ =~= add_id(before, id@));
        if self.ids.len() % PROGRESS_EVERY == 0 {
            DiscoveryEvent::Milestone
        } else {
            DiscoveryEvent::Added
        }
    }
}

/// The discovery pass over all of `lines`.
pub fn discover(patterns: &Patterns, lines: &Vec<String>) -> (r: IdentifierSet)
    ensures
        r@ == discovered(lines.deep_view(), patterns.merchant(), patterns.product()),
{
    let ghost all = lines.deep_view();
    let ghost m = patterns.merchant();
    let ghost p = patterns.product();
    let mut ids = IdentifierSet::new();
    let mut i: usize = 0;
    while i < lines.len()
        invariant
            i <= lines.len(),
            all == lines.deep_view(),
            m == patterns.merchant(),
            p == patterns.product(),
            ids@ == discovered(all.take(i as int), m, p),
        decreases lines.len() - i,
    {
        ids.observe(patterns, lines[i].as_str());
        assert(all.take(i + 1).drop_last() =~= all.take(i as int));
        assert(all.take(i + 1).last() == lines@[i as int]@);
        i += 1;
    }
    assert(all.take(i as int) =~= all);
    ids
}

/// The aggregated records: for each tracked identifier met so far, the lines
/// that carry it, concatenated in order.
pub struct AggregatedRecord {
    keys: Vec<String>,
    texts: Vec<String>,
}

impl View for AggregatedRecord {
    type V = Seq<Entry>;

    closed spec fn view(&self) -> Seq<Entry> {
        Seq::new(self.keys@.len(), |k: int| (self.keys@[k]@, self.texts@[k]@))
    }
}

impl AggregatedRecord {
    /// One text per identifier, and no identifier twice.
    pub closed spec fn wf(&self) -> bool {
        &&& self.keys@.len() == self.texts@.len()
        &&& keys_unique(self@)
    }

    pub fn new() -> (r: AggregatedRecord)
        ensures
            r@ == Seq::<Entry>::empty(),
            r.wf(),
    {
        let r = AggregatedRecord { keys: Vec::new(), texts: Vec::new() };
        assert(r@ =~= Seq::<Entry>::empty());
        r
    }

    pub fn len(&self) -> (r: usize)
        ensures
            r == self@.len(),
    {
        self.keys.len()
    }

    /// The identifier and the text of the record at `k`.
    pub fn entry(&self, k: usize) -> (r: (&String, &String))
        requires
            self.wf(),
            k < self@.len(),
        ensures
            (r.0@, r.1@) == self@[k as int],
    {
        (&self.keys[k], &self.texts[k])
    }

    /// Takes one line of the aggregation pass into the records.
    pub fn observe(&mut self, patterns: &Patterns, ids: &IdentifierSet, line: &str) -> (r:
        AggregationEvent)
        requires
            old(self).wf(),
        ensures
            final(self).wf(),
            final(self)@ == aggregate_step(old(self)@, ids@, line@),
            r == aggregation_event(old(self)@, ids@, line@),
    {
        let id = match patterns.trace_id(line) {
            Some(id) => id,
            None => return AggregationEvent::Untracked,
        };
        if !ids.contains(&id) {
            return AggregationEvent::Untracked;
        }
        let ghost before = self@;
        let mut j: usize = 0;
        while j < self.keys.len()
            invariant
                j <= self.keys.len(),
                self.keys@.len() == self.texts@.len(),
                self@ == before,
                old(self)@ == before,
                keys_unique(before),
                trace_id_of(line@) == Some(id@),
                ids@.contains(id@),
                forall|k: int| 0 <= k < j ==> self@[k].0 != id@,
            decreases self.keys.len() - j,
        {
            if self.keys[j] == id {
                assert(self@[j as int].0 == id@);
                assert(has_key(before, id@));
                let ghost k = choose|k: int| 0 <= k < before.len() && (#[trigger] before[k]).0 == id@;
                assert(k == j);
                self.texts[j].append(line);
                assert(self@ =~= add_line(before, id@, line@));
                return AggregationEvent::Appended;
            }
            j += 1;
        }
        assert(!has_key(before, id@));
        self.keys.push(id);
        self.texts.push(String::from_str(line));
        assert(self@ =~= add_line(before, id@, line@));
        if self.keys.len() % PROGRESS_EVERY == 0 {
            AggregationEvent::Milestone
        } else {
            AggregationEvent::Added
        }
    }
}

/// The aggregation pass over all of `lines`, keeping the lines whose
/// identifier is in `ids`.
pub fn aggregate(patterns: &Patterns, ids: &IdentifierSet, lines: &Vec<String>) -> (r:
    AggregatedRecord)
    ensures
        r.wf(),
        r@ == aggregated(lines.deep_view(), ids@),
{
    let ghost all = lines.deep_view();
    let mut rec = AggregatedRecord::new();
    let mut i: usize = 0;
    while i < lines.len()
        invariant
            i <= lines.len(),
            all == lines.deep_view(),
            rec.wf(),
            rec@ == aggregated(all.take(i as int), ids@),
        decreases lines.len() - i,
    {
        rec.observe(patterns, ids, lines[i].as_str());
        assert(all.take(i + 1).drop_last() =~= all.take(i as int));
        assert(all.take(i + 1).last() == lines@[i as int]@);
        i += 1;
    }
    assert(all.take(i as int) =~= all);
    rec
}

} // verus!
