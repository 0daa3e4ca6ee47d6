//! What holds of every run: the identifier set is exactly what the filtered
//! lines carry, each record is the exact concatenation of its lines, and an
//! absent field renders as the sentinel.
use vstd::prelude::*;
use crate::model::{
    add_id, aggregate_step, aggregated, discover_step, discovered, field_text, has_key,
    keys_unique, nil_text,
};
use crate::pattern::{
    capture_at, capture_from, contains_word, filter_holds, occurs_at, ret_code_key, ret_code_of,
    status_key, status_of, trace_id_of, Field,
};

verus! {

/// The lines of `lines` whose trace identifier is `id`, concatenated in order.
pub open spec fn joined(lines: Seq<Seq<char>>, id: Seq<char>) -> Seq<char>
    decreases lines.len(),
{
    if lines.len() == 0 {
        Seq::empty()
    } else {
        let tail = if trace_id_of(lines.last()) == Some(id) {
            lines.last()
        } else {
            Seq::empty()
        };
        joined(lines.drop_last(), id) + tail
    }
}

/// Some line of `lines` passes the filter and carries `id`.
pub open spec fn filtered_carrier(lines: Seq<Seq<char>>, m: Seq<char>, p: Seq<char>, id: Seq<char>) -> bool {
    exists|i: int|
        0 <= i < lines.len() && filter_holds(m, p, #[trigger] lines[i]) && trace_id_of(lines[i])
            == Some(id)
}

proof fn lemma_discover_step(ids: Seq<Seq<char>>, m: Seq<char>, p: Seq<char>, line: Seq<char>)
    requires
        ids.no_duplicates(),
    ensures
        discover_step(ids, m, p, line).no_duplicates(),
        forall|x: Seq<char>|
            #[trigger] discover_step(ids, m, p, line).contains(x) <==> (ids.contains(x) || (
            filter_holds(m, p, line) && trace_id_of(line) == Some(x))),
{
    if filter_holds(m, p, line) && trace_id_of(line) is Some {
        let id = trace_id_of(line)->0;
        let d = add_id(ids, id);
        assert forall|x: Seq<char>| #[trigger] d.contains(x) <==> (ids.contains(x) || x == id) by {
            if ids.contains(x) {
                let j = choose|j: int| 0 <= j < ids.len() && ids[j] == x;
                assert(d[j] == x);
            }
            if !ids.contains(id) && x == id {
                assert(d[ids.len() as int] == x);
            }
        }
    }
}

/// The identifier set after the discovery pass holds each identifier once, and
/// holds exactly the identifiers carried by lines that pass the
/// merchant/product filter.
pub proof fn law_discovered_exact(lines: Seq<Seq<char>>, m: Seq<char>, p: Seq<char>)
    ensures
        discovered(lines, m, p).no_duplicates(),
        forall|id: Seq<char>|
            #[trigger] discovered(lines, m, p).contains(id) <==> filtered_carrier(lines, m, p, id),
    decreases lines.len(),
{
    if lines.len() > 0 {
        let prev = lines.drop_last();
        let last = lines.last();
        law_discovered_exact(prev, m, p);
        let pd = discovered(prev, m, p);
        lemma_discover_step(pd, m, p, last);
        assert forall|id: Seq<char>|
            #[trigger] discovered(lines, m, p).contains(id) <==> filtered_carrier(
                lines,
                m,
                p,
                id,
            ) by {
            if pd.contains(id) {
                let i = choose|i: int|
                    0 <= i < prev.len() && filter_holds(m, p, #[trigger] prev[i]) && trace_id_of(
                        prev[i],
                    ) == Some(id);
                assert(lines[i] == prev[i]);
            }
            if filter_holds(m, p, last) && trace_id_of(last) == Some(id) {
                assert(lines[lines.len() - 1] == last);
            }
            if filtered_carrier(lines, m, p, id) {
                let i = choose|i: int|
                    0 <= i < lines.len() && filter_holds(m, p, #[trigger] lines[i]) && trace_id_of(
                        lines[i],
                    ) == Some(id);
                if i < lines.len() - 1 {
                    assert(prev[i] == lines[i]);
                    assert(filtered_carrier(prev, m, p, id));
                }
            }
        }
    }
}

/// Each aggregated record starts from a tracked identifier, no identifier has
/// two records, each record's text is exactly its lines concatenated in order,
/// and a tracked identifier without a record is carried by no line.
pub proof fn law_aggregated_exact(lines: Seq<Seq<char>>, ids: Seq<Seq<char>>)
    ensures
        keys_unique(aggregated(lines, ids)),
        forall|k: int|
            0 <= k < aggregated(lines, ids).len() ==> ids.contains(
                (#[trigger] aggregated(lines, ids)[k]).0,
            ) && aggregated(lines, ids)[k].1 == joined(lines, aggregated(lines, ids)[k].0),
        forall|id: Seq<char>|
            ids.contains(id) && !has_key(aggregated(lines, ids), id) ==> #[trigger] joined(
                lines,
                id,
            ) == Seq::<char>::empty(),
    decreases lines.len(),
{
    if lines.len() > 0 {
        let prev = lines.drop_last();
        let last = lines.last();
        law_aggregated_exact(prev, ids);
        let pa = aggregated(prev, ids);
        let a = aggregated(lines, ids);
        assert(a == aggregate_step(pa, ids, last));
        // lines that carry another identifier leave a record's text as it was
        assert forall|x: Seq<char>| trace_id_of(last) != Some(x) implies #[trigger] joined(
            lines,
            x,
        ) == joined(prev, x) by {
            assert(joined(prev, x) + Seq::<char>::empty() =~= joined(prev, x));
        }
        if trace_id_of(last) is Some && ids.contains(trace_id_of(last)->0) {
            let id = trace_id_of(last)->0;
            assert(joined(lines, id) == joined(prev, id) + last);
            if has_key(pa, id) {
                let k0 = choose|k: int| 0 <= k < pa.len() && (#[trigger] pa[k]).0 == id;
                assert(a == pa.update(k0, (id, pa[k0].1 + last)));
                assert forall|k: int| 0 <= k < a.len() && k != k0 implies (#[trigger] a[k]) == pa[k]
                    && a[k].0 != id by {
                    assert(pa[k].0 != pa[k0].0);
                }
                assert forall|x: Seq<char>|
                    ids.contains(x) && !has_key(a, x) implies #[trigger] joined(lines, x)
                    == Seq::<char>::empty() by {
                    if x != id {
                        if has_key(pa, x) {
                            let k = choose|k: int| 0 <= k < pa.len() && (#[trigger] pa[k]).0 == x;
                            assert(a[k].0 == x);
                        }
                    } else {
                        assert(a[k0].0 == x);
                    }
                }
            } else {
                assert(a == pa.push((id, last)));
                assert(joined(prev, id) + last =~= last);
                assert forall|x: Seq<char>|
                    ids.contains(x) && !has_key(a, x) implies #[trigger] joined(lines, x)
                    == Seq::<char>::empty() by {
                    if x != id {
                        if has_key(pa, x) {
                            let k = choose|k: int| 0 <= k < pa.len() && (#[trigger] pa[k]).0 == x;
                            assert(a[k].0 == x);
                        }
                    } else {
                        assert(a[pa.len() as int].0 == x);
                    }
                }
            }
        } else {
            assert(a == pa);
        }
    }
}

/// Every identifier in the report is in the identifier set of the discovery
/// pass.
pub proof fn law_report_ids_discovered(lines: Seq<Seq<char>>, m: Seq<char>, p: Seq<char>)
    ensures
        forall|k: int|
            0 <= k < aggregated(lines, discovered(lines, m, p)).len() ==> discovered(
                lines,
                m,
                p,
            ).contains((#[trigger] aggregated(lines, discovered(lines, m, p))[k]).0),
{
    law_aggregated_exact(lines, discovered(lines, m, p));
}

proof fn lemma_no_key_no_capture(field: Field, key: Seq<char>, s: Seq<char>, i: int)
    requires
        field == Field::Status ==> key == status_key(),
        field == Field::RetCode ==> key == ret_code_key(),
        field != Field::TraceId,
        !contains_word(s, key),
    ensures
        capture_from(field, s, i) is None,
    decreases s.len() + 1 - i,
{
    if 0 <= i <= s.len() {
        assert(!occurs_at(s, key, i));
        assert(capture_at(field, s, i) is None);
        lemma_no_key_no_capture(field, key, s, i + 1);
    }
}

/// A text without a `status` field reports the status as `nil`; a text
/// without a `retCode` field reports the return code as `nil`.
pub proof fn law_absent_field_is_nil(text: Seq<char>)
    ensures
        !contains_word(text, status_key()) ==> status_of(text) is None && field_text(
            status_of(text),
        ) == nil_text(),
        !contains_word(text, ret_code_key()) ==> ret_code_of(text) is None && field_text(
            ret_code_of(text),
        ) == nil_text(),
{
    if !contains_word(text, status_key()) {
        lemma_no_key_no_capture(Field::Status, status_key(), text, 0);
    }
    if !contains_word(text, ret_code_key()) {
        lemma_no_key_no_capture(Field::RetCode, ret_code_key(), text, 0);
    }
}

} // verus!
