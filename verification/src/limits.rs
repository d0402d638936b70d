use vstd::prelude::*;

verus! {

/// Number of rows a listing tool returns when the caller gives no limit.
pub const DEFAULT_LIST_LIMIT: u64 = 50;
/// Largest number of rows a listing tool returns.
pub const MAX_LIST_LIMIT: u64 = 200;

/// The row limit a listing tool applies: the requested limit (default 50) clamped to 1..=200.
pub open spec fn clamped_limit(limit: Option<u32>) -> int {
    let v: int = match limit {
        Some(l) => l as int,
        None => DEFAULT_LIST_LIMIT as int,
    };
    if v < 1 {
        1
    } else if v > MAX_LIST_LIMIT {
        MAX_LIST_LIMIT as int
    } else {
        v
    }
}

/// Clamps an optional row limit into `1..=200`, defaulting to 50.
pub fn clamp_limit(limit: Option<u32>) -> (r: u64)
    ensures
        r == clamped_limit(limit),
        1 <= r <= MAX_LIST_LIMIT,
{
    let value: u64 = match limit {
        Some(l) => l as u64,
        None => DEFAULT_LIST_LIMIT,
    };
    if value < 1 {
        1
    } else if value > MAX_LIST_LIMIT {
        MAX_LIST_LIMIT
    } else {
        value
    }
}

} // verus!
