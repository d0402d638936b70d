//! First-class references (stocks, indicators, sectors, themes): the checks on a reference
//! named by a caller, the aliases a caller adds or removes, the cross-reference search, and
//! the interests a strategy records and watches.

use vstd::prelude::*;
use vstd::string::*;

use crate::error::{ErrorKind, ToolError, invalid_params};
use crate::limits::{clamp_limit, clamped_limit};
use crate::text::{str_equal, trim_str, trimmed};

verus! {

/// Whether a kind names one of the four first-class reference types.
pub open spec fn is_ref_kind(kind: Seq<char>) -> bool {
    kind == "stock"@ || kind == "indicator"@ || kind == "sector"@ || kind == "theme"@
}

/// The message with which an unknown reference kind is refused.
pub open spec fn bad_ref_kind_message(kind: Seq<char>) -> Seq<char> {
    "invalid ref_kind: "@ + kind + " (expected one of stock, indicator, sector, theme)"@
}

/// Why a named reference is refused, if it is: its trimmed kind is not a reference type, or
/// its trimmed id is empty.
pub open spec fn ref_target_error(ref_kind: Seq<char>, ref_id: Seq<char>) -> Option<Seq<char>> {
    if !is_ref_kind(trimmed(ref_kind)) {
        Some(bad_ref_kind_message(trimmed(ref_kind)))
    } else if trimmed(ref_id).len() == 0 {
        Some("ref_id must not be empty"@)
    } else {
        None
    }
}

/// Checks a reference named by a caller and gives its trimmed kind and id.
pub fn check_ref_target(ref_kind: &str, ref_id: &str) -> (r: Result<(String, String), ToolError>)
    ensures
        r is Ok <==> ref_target_error(ref_kind@, ref_id@) is None,
        r matches Ok((k, i)) ==> k@ == trimmed(ref_kind@) && i@ == trimmed(ref_id@),
        r matches Err(e) ==> e.kind == ErrorKind::InvalidParams && Some(e.message@)
            == ref_target_error(ref_kind@, ref_id@),
{
    let kind = trim_str(ref_kind);
    if !(str_equal(kind, "stock") || str_equal(kind, "indicator") || str_equal(kind, "sector")
        || str_equal(kind, "theme")) {
        let mut message = String::from_str("invalid ref_kind: ");
        message.append(kind);
        message.append(" (expected one of stock, indicator, sector, theme)");
        return Err(invalid_params(message));
    }
    let id = trim_str(ref_id);
    if id.unicode_len() == 0 {
        return Err(invalid_params(String::from_str("ref_id must not be empty")));
    }
    Ok((String::from_str(kind), String::from_str(id)))
}

/// Parameters of the tool that adds aliases to a reference.
#[derive(Debug, Clone)]
pub struct AddRefTermsParams {
    /// The reference type: `stock`, `indicator`, `sector` or `theme`.
    pub ref_kind: String,
    pub ref_id: String,
    pub terms: Vec<String>,
}

/// The aliases that were newly added (not those already registered, nor blank ones).
#[derive(Debug, Clone, PartialEq, Eq)]
pub struct AddRefTermsResult {
    pub added: Vec<String>,
}

/// Parameters of the tool that removes aliases from a reference.
#[derive(Debug, Clone)]
pub struct RemoveRefTermsParams {
    pub ref_kind: String,
    pub ref_id: String,
    pub terms: Vec<String>,
}

/// The aliases that were removed (not those that were not registered).
#[derive(Debug, Clone, PartialEq, Eq)]
pub struct RemoveRefTermsResult {
    pub removed: Vec<String>,
}

/// The trimmed terms that are not blank, in order.
pub open spec fn clean_terms(terms: Seq<String>) -> Seq<Seq<char>>
    decreases terms.len(),
{
    if terms.len() == 0 {
        Seq::empty()
    } else {
        let prev = clean_terms(terms.drop_last());
        let t = trimmed(terms.last()@);
        if t.len() == 0 {
            prev
        } else {
            prev.push(t)
        }
    }
}

/// The terms a request acts on: each trimmed, blank ones dropped, in order.
pub fn terms_to_apply(terms: &Vec<String>) -> (r: Vec<String>)
    ensures
        r@.map_values(|s: String| s@) == clean_terms(terms@),
{
    let mut out: Vec<String> = Vec::new();
    let mut i: usize = 0;
    while i < terms.len()
        invariant
            0 <= i <= terms@.len(),
            out@.map_values(|s: String| s@) == clean_terms(terms@.take(i as int)),
        decreases terms.len() - i,
    {
        proof {
            assert(terms@.take(i + 1).drop_last() =~= terms@.take(i as int));
        }
        let t = trim_str(terms[i].as_str());
        if t.unicode_len() != 0 {
            let ghost before = out@;
            out.push(String::from_str(t));
            proof {
                assert(out@.map_values(|s: String| s@) =~= before.map_values(|s: String| s@).push(
                    t@,
                ));
            }
        }
        i = i + 1;
    }
    proof {
        assert(terms@.take(terms@.len() as int) =~= terms@);
    }
    out
}

/// The terms whose write affected a row, in order.
pub open spec fn affected_terms(terms: Seq<String>, affected: Seq<u64>) -> Seq<Seq<char>>
    decreases terms.len(),
{
    if terms.len() == 0 {
        Seq::empty()
    } else {
        let prev = affected_terms(terms.drop_last(), affected);
        if affected[terms.len() - 1] > 0 {
            prev.push(terms.last()@)
        } else {
            prev
        }
    }
}

/// The terms to report after writing each: those whose write affected a row (a new alias
/// inserted, or a registered one deleted), in order. `affected[k]` is the row count the
/// write of `terms[k]` reported.
pub fn terms_with_effect(terms: Vec<String>, affected: &Vec<u64>) -> (r: Vec<String>)
    requires
        affected@.len() == terms@.len(),
    ensures
        r@.map_values(|s: String| s@) == affected_terms(terms@, affected@),
{
    broadcast use vstd::std_specs::vec::group_vec_axioms;

    let ghost whole = terms@;
    let mut out: Vec<String> = Vec::new();
    let n = affected.len();
    let mut i: usize = 0;
    for t in iter: terms.into_iter()
        invariant
            n == affected@.len(),
            affected@.len() == whole.len(),
            iter.seq() == whole,
            i == iter.index(),
            out@.map_values(|s: String| s@) == affected_terms(whole.take(iter.index() as int), affected@),
    {
        proof {
            assert(t == whole[i as int]);
            assert(whole.take(i + 1).drop_last() =~= whole.take(i as int));
        }
        let ghost before = out@;
        if affected[i] > 0 {
            out.push(t);
            proof {
                assert(out@.map_values(|s: String| s@) =~= before.map_values(|s: String| s@).push(
                    whole[i as int]@,
                ));
            }
        }
        i = i + 1;
    }
    proof {
        assert(whole.take(whole.len() as int) =~= whole);
    }
    out
}

/// Parameters of the cross-reference search.
#[derive(Debug, Clone)]
pub struct SearchRefsParams {
    /// Free text matched against ids, names and aliases.
    pub query: String,
    pub limit: Option<u32>,
}

/// One reference found by the search.
#[derive(Debug, Clone, PartialEq, Eq)]
pub struct RefDto {
    /// The reference type: `stock`, `indicator`, `sector` or `theme`.
    pub ref_kind: String,
    pub ref_id: String,
    pub name: String,
    /// The product category code of a stock, such as "014" for an ETF; `None` for the other
    /// reference types.
    pub product_category: Option<String>,
}

/// The references found, sorted by name.
#[derive(Debug, Clone, PartialEq, Eq)]
pub struct SearchRefsResult {
    pub refs: Vec<RefDto>,
}

/// Checks a search and gives its trimmed query and its row limit; a blank query is refused.
pub fn check_search_refs(params: &SearchRefsParams) -> (r: Result<(String, u64), ToolError>)
    ensures
        r is Ok <==> trimmed(params.query@).len() != 0,
        r matches Ok((q, limit)) ==> q@ == trimmed(params.query@) && limit == clamped_limit(
            params.limit,
        ),
        r matches Err(e) ==> e.kind == ErrorKind::InvalidParams && e.message@
            == "query must not be empty"@,
{
    let q = trim_str(params.query.as_str());
    if q.unicode_len() == 0 {
        return Err(invalid_params(String::from_str("query must not be empty")));
    }
    Ok((String::from_str(q), clamp_limit(params.limit)))
}

/// The substring pattern for an escaped query: the query between two `%` wildcards.
pub fn substring_pattern(escaped: &str) -> (r: String)
    ensures
        r@ == seq!['%'] + escaped@ + seq!['%'],
{
    let mut r = String::from_str("%");
    r.append(escaped);
    r.append("%");
    proof {
        reveal_strlit("%");
    }
    r
}

/// Parameters of the tool that adds an interest to the strategy.
#[derive(Debug, Clone)]
pub struct AddInterestParams {
    pub ref_kind: String,
    pub ref_id: String,
}

/// Whether the id at position `k` occurs at an earlier position.
pub open spec fn seen_before(ids: Seq<Seq<char>>, k: int) -> bool {
    exists|j: int| 0 <= j < k && #[trigger] ids[j] == ids[k]
}

/// The positions among the first `n` ids that hold the first occurrence of their id, in order.
pub open spec fn first_occurrences(ids: Seq<Seq<char>>, n: int) -> Seq<usize>
    decreases n,
{
    if n <= 0 {
        Seq::empty()
    } else {
        let prev = first_occurrences(ids, n - 1);
        if seen_before(ids, n - 1) {
            prev
        } else {
            prev.push((n - 1) as usize)
        }
    }
}

/// The watch targets to return from rows already in registration order, given the id of each
/// row: the positions of the first row of each id, in order, at most `limit` of them.
pub fn dedup_watch_targets(ids: &Vec<String>, limit: u64) -> (r: Vec<usize>)
    ensures
        ({
            let firsts = first_occurrences(ids@.map_values(|s: String| s@), ids@.len() as int);
            r@ == firsts.take(
                if firsts.len() <= limit {
                    firsts.len() as int
                } else {
                    limit as int
                },
            )
        }),
{
    let ghost views = ids@.map_values(|s: String| s@);
    let mut out: Vec<usize> = Vec::new();
    let mut k: usize = 0;
    while k < ids.len()
        invariant
            0 <= k <= ids@.len(),
            views == ids@.map_values(|s: String| s@),
            out@ == first_occurrences(views, k as int),
        decreases ids.len() - k,
    {
        let mut found = false;
        let mut j: usize = 0;
        while j < k
            invariant
                0 <= j <= k < ids@.len(),
                views == ids@.map_values(|s: String| s@),
                found == exists|x: int| 0 <= x < j && #[trigger] views[x] == views[k as int],
            decreases k - j,
        {
            if str_equal(ids[j].as_str(), ids[k].as_str()) {
                assert(views[j as int] == views[k as int]);
                found = true;
            }
            proof {
                assert(views[j as int] == ids@[j as int]@);
                assert(views[k as int] == ids@[k as int]@);
            }
            j = j + 1;
        }
        assert(found == seen_before(views, k as int));
        if !found {
            out.push(k);
        }
        k = k + 1;
    }
    let ghost firsts = out@;
    let n: usize = if (out.len() as u64) <= limit {
        out.len()
    } else {
        limit as usize
    };
    out.truncate(n);
    assert(out@ =~= firsts.take(n as int));
    out
}

proof fn lemma_first_occurrences_shape(ids: Seq<Seq<char>>, n: int)
    requires
        0 <= n <= ids.len(),
        ids.len() <= usize::MAX,
    ensures
        forall|i: int|
            0 <= i < first_occurrences(ids, n).len() ==> (#[trigger] first_occurrences(ids, n)[i]) < n
                && !seen_before(ids, first_occurrences(ids, n)[i] as int),
        forall|i: int, j: int|
            0 <= i < j < first_occurrences(ids, n).len() ==> (#[trigger] first_occurrences(ids, n)[i])
                < (#[trigger] first_occurrences(ids, n)[j]),
    decreases n,
{
    if n > 0 {
        lemma_first_occurrences_shape(ids, n - 1);
        let prev = first_occurrences(ids, n - 1);
        let cur = first_occurrences(ids, n);
        if !seen_before(ids, n - 1) {
            assert(cur == prev.push((n - 1) as usize));
            assert forall|i: int| 0 <= i < cur.len() implies (#[trigger] cur[i]) < n && !seen_before(
                ids,
                cur[i] as int,
            ) by {
                if i < prev.len() {
                    assert(cur[i] == prev[i]);
                }
            }
            assert forall|i: int, j: int| 0 <= i < j < cur.len() implies (#[trigger] cur[i]) < (
            #[trigger] cur[j]) by {
                assert(cur[i] == prev[i]);
                if j < prev.len() {
                    assert(cur[j] == prev[j]);
                }
            }
        }
    }
}

/// The watch targets never name the same id twice: the positions chosen hold pairwise
/// different ids, even when an id was registered both for the account and for the strategy.
pub proof fn law_watch_targets_distinct(ids: Seq<Seq<char>>, limit: nat)
    requires
        ids.len() <= usize::MAX,
    ensures
        ({
            let firsts = first_occurrences(ids, ids.len() as int);
            let chosen = firsts.take(
                if firsts.len() <= limit {
                    firsts.len() as int
                } else {
                    limit as int
                },
            );
            &&& chosen.len() <= limit
            &&& forall|i: int, j: int|
                0 <= i < j < chosen.len() ==> ids[#[trigger] chosen[i] as int] != ids[#[trigger] chosen[j] as int]
        }),
{
    let n = ids.len() as int;
    let firsts = first_occurrences(ids, n);
    lemma_first_occurrences_shape(ids, n);
    let chosen = firsts.take(
        if firsts.len() <= limit {
            firsts.len() as int
        } else {
            limit as int
        },
    );
    assert forall|i: int, j: int| 0 <= i < j < chosen.len() implies ids[#[trigger] chosen[i] as int]
        != ids[#[trigger] chosen[j] as int] by {
        assert(chosen[i] == firsts[i]);
        assert(chosen[j] == firsts[j]);
        assert(firsts[i] < firsts[j]);
        assert(!seen_before(ids, firsts[j] as int));
        if ids[firsts[i] as int] == ids[firsts[j] as int] {
            assert(seen_before(ids, firsts[j] as int));
        }
    }
}

} // verus!
