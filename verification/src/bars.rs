//! The price-data tool: which instruments and dates a request may ask for, and how the
//! stored daily bars are grouped per requested instrument. Dates are day numbers counted
//! from the Common Era.

use vstd::prelude::*;
use vstd::string::*;

use crate::error::{ErrorKind, ToolError, invalid_params};
use crate::text::{str_equal, trim_str, trimmed};

verus! {

/// Largest number of instruments one request may name.
pub const MAX_QUERY_DATA_INSTRUMENTS: usize = 100;

/// The requested instrument ids with surrounding whitespace removed.
pub open spec fn trimmed_ids(ids: Seq<String>) -> Seq<Seq<char>> {
    ids.map_values(|s: String| trimmed(s@))
}

/// Whether two entries of the sequence are equal.
pub open spec fn has_duplicates(s: Seq<Seq<char>>) -> bool {
    exists|i: int, j: int| 0 <= i < j < s.len() && #[trigger] s[i] == #[trigger] s[j]
}

/// Why a price-data request is refused, if it is: the checks in the order the tool makes them.
pub open spec fn query_data_error(ids: Seq<String>, from: i32, to: i32) -> Option<Seq<char>> {
    if ids.len() == 0 {
        Some("instrument_ids must not be empty"@)
    } else if ids.len() > MAX_QUERY_DATA_INSTRUMENTS {
        Some("instrument_ids must not exceed 100 entries"@)
    } else if from > to {
        Some("from must be on or before to"@)
    } else if exists|k: int| 0 <= k < ids.len() && trimmed(#[trigger] ids[k]@).len() == 0 {
        Some("instrument_ids must not contain empty values"@)
    } else if has_duplicates(trimmed_ids(ids)) {
        Some("instrument_ids must not contain duplicates"@)
    } else {
        None
    }
}

/// Checks a price-data request: one to 100 instruments, `from` not after `to`, and after
/// trimming no empty and no repeated instrument id. On success, the trimmed ids in order.
pub fn validate_query_data(instrument_ids: &Vec<String>, from: i32, to: i32) -> (r: Result<
    Vec<String>,
    ToolError,
>)
    ensures
        r is Ok <==> query_data_error(instrument_ids@, from, to) is None,
        r matches Ok(ids) ==> ids@.len() == instrument_ids@.len() && forall|k: int|
            0 <= k < ids@.len() ==> (#[trigger] ids@[k])@ == trimmed(instrument_ids@[k]@),
        r matches Err(e) ==> e.kind == ErrorKind::InvalidParams && Some(e.message@)
            == query_data_error(instrument_ids@, from, to),
{
    let n = instrument_ids.len();
    if n == 0 {
        return Err(invalid_params(String::from_str("instrument_ids must not be empty")));
    }
    if n > MAX_QUERY_DATA_INSTRUMENTS {
        let r = Err(invalid_params(String::from_str("instrument_ids must not exceed 100 entries")));
        return r;
    }
    if from > to {
        return Err(invalid_params(String::from_str("from must be on or before to")));
    }
    let ghost tids = trimmed_ids(instrument_ids@);
    let mut ids: Vec<String> = Vec::new();
    let mut k: usize = 0;
    while k < n
        invariant
            n == instrument_ids@.len(),
            0 < n <= MAX_QUERY_DATA_INSTRUMENTS,
            from <= to,
            0 <= k <= n,
            ids@.len() == k,
            tids == trimmed_ids(instrument_ids@),
            forall|j: int| 0 <= j < k ==> (#[trigger] ids@[j])@ == tids[j],
            forall|j: int| 0 <= j < k ==> trimmed(#[trigger] instrument_ids@[j]@).len() != 0,
        decreases n - k,
    {
        let t = trim_str(instrument_ids[k].as_str());
        if t.unicode_len() == 0 {
            assert(trimmed(instrument_ids@[k as int]@).len() == 0);
            return Err(invalid_params(String::from_str("instrument_ids must not contain empty values")));
        }
        ids.push(String::from_str(t));
        k = k + 1;
    }
    let mut i: usize = 0;
    while i < n
        invariant
            n == instrument_ids@.len(),
            0 < n <= MAX_QUERY_DATA_INSTRUMENTS,
            from <= to,
            ids@.len() == n,
            0 <= i <= n,
            tids == trimmed_ids(instrument_ids@),
            forall|j: int| 0 <= j < n ==> (#[trigger] ids@[j])@ == tids[j],
            forall|j: int| 0 <= j < n ==> trimmed(#[trigger] instrument_ids@[j]@).len() != 0,
            forall|a: int, b: int| 0 <= a < i && a < b < n ==> tids[a] != tids[b],
        decreases n - i,
    {
        let mut j: usize = i + 1;
        while j < n
            invariant
                n == instrument_ids@.len(),
                0 < n <= MAX_QUERY_DATA_INSTRUMENTS,
                from <= to,
                ids@.len() == n,
                0 <= i < n,
                i + 1 <= j <= n,
                tids == trimmed_ids(instrument_ids@),
                forall|x: int| 0 <= x < n ==> (#[trigger] ids@[x])@ == tids[x],
                forall|x: int| 0 <= x < n ==> trimmed(#[trigger] instrument_ids@[x]@).len() != 0,
                forall|b: int| i < b < j ==> tids[i as int] != tids[b],
            decreases n - j,
        {
            if str_equal(ids[i].as_str(), ids[j].as_str()) {
                assert(tids[i as int] == tids[j as int]);
                return Err(invalid_params(String::from_str("instrument_ids must not contain duplicates")));
            }
            j = j + 1;
        }
        i = i + 1;
    }
    assert(!has_duplicates(tids));
    Ok(ids)
}

/// The bars of the rows for one instrument, in row order.
pub open spec fn bars_for<B>(rows: Seq<(String, B)>, id: Seq<char>) -> Seq<B>
    decreases rows.len(),
{
    if rows.len() == 0 {
        Seq::empty()
    } else {
        let prev = bars_for(rows.drop_last(), id);
        if rows.last().0@ == id {
            prev.push(rows.last().1)
        } else {
            prev
        }
    }
}

/// The position of the first entry equal to `id`, or the length when there is none.
pub open spec fn first_index(ids: Seq<Seq<char>>, id: Seq<char>) -> int
    decreases ids.len(),
{
    if ids.len() == 0 {
        0
    } else if ids[0] == id {
        0
    } else {
        1 + first_index(ids.drop_first(), id)
    }
}

/// The bars of one requested instrument.
#[derive(Debug, Clone)]
pub struct InstrumentBars<B> {
    pub instrument_id: String,
    pub bars: Vec<B>,
}

/// What the answer holds for the `k`th requested id: its bars in row order, unless the same
/// id was requested before, in which case the earlier entry has them all.
pub open spec fn answer_bars<B>(ids: Seq<Seq<char>>, rows: Seq<(String, B)>, k: int) -> Seq<B> {
    if first_index(ids, ids[k]) == k {
        bars_for(rows, ids[k])
    } else {
        Seq::empty()
    }
}

proof fn lemma_first_index(ids: Seq<Seq<char>>, id: Seq<char>, k: int)
    requires
        0 <= k <= ids.len(),
        forall|j: int| 0 <= j < k ==> ids[j] != id,
        k == ids.len() || ids[k] == id,
    ensures
        first_index(ids, id) == k,
    decreases k,
{
    if k > 0 {
        let t = ids.drop_first();
        assert forall|j: int| 0 <= j < k - 1 implies t[j] != id by {
            assert(t[j] == ids[j + 1]);
        }
        if k - 1 < t.len() {
            assert(t[k - 1] == ids[k]);
        }
        lemma_first_index(t, id, k - 1);
    }
}

fn find_first(ids: &Vec<String>, id: &str) -> (r: usize)
    ensures
        r == first_index(ids@.map_values(|s: String| s@), id@),
        r <= ids@.len(),
        r < ids@.len() ==> ids@[r as int]@ == id@,
{
    let ghost views = ids@.map_values(|s: String| s@);
    let mut k: usize = 0;
    while k < ids.len()
        invariant
            0 <= k <= ids@.len(),
            views == ids@.map_values(|s: String| s@),
            forall|j: int| 0 <= j < k ==> views[j] != id@,
        decreases ids.len() - k,
    {
        if str_equal(ids[k].as_str(), id) {
            proof {
                lemma_first_index(views, id@, k as int);
            }
            return k;
        }
        k = k + 1;
    }
    proof {
        lemma_first_index(views, id@, k as int);
    }
    k
}

/// Groups stored bar rows by requested instrument: one entry per requested id, in request
/// order, holding the bars of the rows with that id in row order. Rows of ids that were not
/// requested are dropped.
pub fn group_bars<B>(instrument_ids: &Vec<String>, rows: Vec<(String, B)>) -> (r: Vec<
    InstrumentBars<B>,
>)
    ensures
        r@.len() == instrument_ids@.len(),
        forall|k: int|
            0 <= k < r@.len() ==> (#[trigger] r@[k]).instrument_id@ == instrument_ids@[k]@
                && r@[k].bars@ == answer_bars(
                instrument_ids@.map_values(|s: String| s@),
                rows@,
                k,
            ),
{
    broadcast use vstd::std_specs::vec::group_vec_axioms;

    let ghost views = instrument_ids@.map_values(|s: String| s@);
    let ghost whole = rows@;
    let n = instrument_ids.len();
    let mut groups: Vec<Vec<B>> = Vec::new();
    let mut k: usize = 0;
    while k < n
        invariant
            n == instrument_ids@.len(),
            0 <= k <= n,
            groups@.len() == k,
            forall|j: int| 0 <= j < k ==> (#[trigger] groups@[j])@ == Seq::<B>::empty(),
        decreases n - k,
    {
        groups.push(Vec::new());
        k = k + 1;
    }
    for row in iter: rows.into_iter()
        invariant
            n == instrument_ids@.len(),
            views == instrument_ids@.map_values(|s: String| s@),
            iter.seq() == whole,
            groups@.len() == n,
            forall|j: int|
                0 <= j < n ==> (#[trigger] groups@[j])@ == (if first_index(views, views[j]) == j {
                    bars_for(whole.take(iter.index() as int), views[j])
                } else {
                    Seq::<B>::empty()
                }),
    {
        let ghost i = iter.index() as int;
        let (id, bar) = row;
        proof {
            assert(whole[i] == (id, bar));
            assert(whole.take(i + 1).drop_last() =~= whole.take(i));
            assert(whole.take(i + 1).last() == whole[i]);
        }
        let at = find_first(instrument_ids, id.as_str());
        let ghost old_groups = groups@;
        if at < n {
            let mut g = groups.remove(at);
            g.push(bar);
            groups.insert(at, g);
            proof {
                assert(views[at as int] == id@);
                assert forall|j: int| 0 <= j < n implies (#[trigger] groups@[j])@ == (if first_index(
                    views,
                    views[j],
                ) == j {
                    bars_for(whole.take(i + 1), views[j])
                } else {
                    Seq::<B>::empty()
                }) by {
                    if j == at {
                    } else {
                        assert(groups@[j] == old_groups[j]);
                        if first_index(views, views[j]) == j {
                            assert(views[j] != id@);
                        }
                    }
                }
            }
        } else {
            proof {
                assert forall|j: int| 0 <= j < n implies (#[trigger] groups@[j])@ == (if first_index(
                    views,
                    views[j],
                ) == j {
                    bars_for(whole.take(i + 1), views[j])
                } else {
                    Seq::<B>::empty()
                }) by {
                    if views[j] == id@ {
                        lemma_first_below(views, id@, j);
                    }
                }
            }
        }
    }
    proof {
        assert(whole.take(whole.len() as int) =~= whole);
    }
    let mut out: Vec<InstrumentBars<B>> = Vec::new();
    let ghost final_groups = groups@;
    for g in giter: groups.into_iter()
        invariant
            n == instrument_ids@.len(),
            giter.seq() == final_groups,
            final_groups.len() == n,
            out@.len() == giter.index(),
            forall|j: int|
                0 <= j < giter.index() ==> (#[trigger] out@[j]).instrument_id@ == instrument_ids@[j]@
                    && out@[j].bars@ == final_groups[j]@,
    {
        let m = out.len();
        out.push(InstrumentBars { instrument_id: instrument_ids[m].clone(), bars: g });
    }
    out
}

proof fn lemma_first_below(ids: Seq<Seq<char>>, id: Seq<char>, j: int)
    requires
        0 <= j < ids.len(),
        ids[j] == id,
    ensures
        first_index(ids, id) <= j,
    decreases j,
{
    if j > 0 && ids[0] != id {
        let t = ids.drop_first();
        assert(t[j - 1] == ids[j]);
        lemma_first_below(t, id, j - 1);
    }
}

/// Largest number of bars kept in the evidence of a price-data read.
pub const MAX_SNAPSHOT_BARS: usize = 5000;

/// The part of a price-data read kept as evidence: the last 5000 bars at most. Gives the
/// position of the first bar kept and whether bars were left out.
pub fn evidence_window(total_bars: usize) -> (r: (usize, bool))
    ensures
        r.1 == (total_bars > MAX_SNAPSHOT_BARS),
        r.0 == (if total_bars > MAX_SNAPSHOT_BARS {
            total_bars - MAX_SNAPSHOT_BARS
        } else {
            0
        }),
{
    if total_bars > MAX_SNAPSHOT_BARS {
        (total_bars - MAX_SNAPSHOT_BARS, true)
    } else {
        (0, false)
    }
}

/// A request that passes the checks names each instrument once: its trimmed ids are
/// non-empty and pairwise different.
pub proof fn law_accepted_ids_are_distinct(ids: Seq<String>, from: i32, to: i32)
    requires
        query_data_error(ids, from, to) is None,
    ensures
        forall|k: int| 0 <= k < ids.len() ==> trimmed(#[trigger] ids[k]@).len() > 0,
        forall|i: int, j: int|
            0 <= i < j < ids.len() ==> trimmed(#[trigger] ids[i]@) != trimmed(#[trigger] ids[j]@),
{
    let t = trimmed_ids(ids);
    assert forall|i: int, j: int| 0 <= i < j < ids.len() implies trimmed(#[trigger] ids[i]@)
        != trimmed(#[trigger] ids[j]@) by {
        assert(t[i] == trimmed(ids[i]@));
        assert(t[j] == trimmed(ids[j]@));
    }
}

} // verus!
