//! How many more shares of a stock the strategy may buy: one limit per risk constraint
//! (position ratio, sector ratio, cash), each floored to whole trading lots, and the
//! strictest of them.

use vstd::prelude::*;
use vstd::string::*;

use crate::decimal::{
    Dec, dec_div, dec_floor, dec_mul, dec_sub, dec_to_i64, decimal_difference, decimal_product,
    decimal_quotient, floor_spec, pow10, to_i64_spec,
};
use crate::text::{joined, join_strings};

verus! {

/// Shares per trading lot on the Japanese market. Every limit is a multiple of it.
pub const LOT_SIZE: i64 = 100;

/// The additional quantity that one constraint allows.
#[derive(Debug, Clone, PartialEq, Eq)]
pub enum ConstraintResult {
    /// The constraint binds; the quantity is a whole number of lots.
    Limited { max_additional_qty: i64 },
    /// The risk policy does not set this constraint.
    Unlimited,
    /// A value the constraint needs is missing, so it cannot be evaluated.
    Unavailable { reason: String },
}

/// The mathematical content of a `ConstraintResult`.
pub enum ConstraintView {
    Limited(int),
    Unlimited,
    Unavailable(Seq<char>),
}

impl View for ConstraintResult {
    type V = ConstraintView;

    open spec fn view(&self) -> ConstraintView {
        match self {
            ConstraintResult::Limited { max_additional_qty } => ConstraintView::Limited(
                *max_additional_qty as int,
            ),
            ConstraintResult::Unlimited => ConstraintView::Unlimited,
            ConstraintResult::Unavailable { reason } => ConstraintView::Unavailable(reason@),
        }
    }
}

/// `qty` rounded towards zero to a multiple of the lot size.
pub open spec fn floored_to_lot(qty: int) -> int {
    if qty >= 0 {
        (qty / LOT_SIZE as int) * LOT_SIZE
    } else {
        -(((-qty) / LOT_SIZE as int) * LOT_SIZE)
    }
}

/// Rounds a share count towards zero to a whole number of lots.
pub fn floor_to_lot(qty: i64) -> (r: i64)
    ensures
        r == floored_to_lot(qty as int),
        r % LOT_SIZE == 0,
        qty >= 0 ==> 0 <= r <= qty,
{
    let q = qty as i128;
    let lots: i128 = if q >= 0 {
        (q / 100) * 100
    } else {
        -(((-q) / 100) * 100)
    };
    lots as i64
}

/// The integer that `(x / y).floor().to_i64().unwrap_or(0)` gives for a quotient `q`.
pub open spec fn whole_shares(q: Dec) -> int {
    match to_i64_spec(floor_spec(q)) {
        Some(v) => v as int,
        None => 0,
    }
}

/// Shares (in whole lots) that a yen headroom buys at `price`; `None` where the division
/// overflows.
pub open spec fn qty_from_headroom(headroom: Dec, price: Dec) -> Option<int> {
    if headroom.mantissa <= 0 || price.mantissa <= 0 {
        Some(0)
    } else {
        match decimal_quotient(headroom, price) {
            Some(q) => Some(floored_to_lot(whole_shares(q))),
            None => None,
        }
    }
}

proof fn lemma_pow10_positive(n: nat)
    ensures
        pow10(n) > 0,
    decreases n,
{
    if n > 0 {
        lemma_pow10_positive((n - 1) as nat);
    }
}

proof fn lemma_whole_shares_nonneg(q: Dec)
    requires
        q.valid(),
        q.mantissa >= 0,
    ensures
        whole_shares(q) >= 0,
{
    lemma_pow10_positive(q.scale as nat);
    lemma_pow10_positive(0);
    assert(floor_spec(q).mantissa >= 0) by (nonlinear_arith)
        requires
            floor_spec(q).mantissa == (q.mantissa as int) / pow10(q.scale as nat),
            q.mantissa >= 0,
            pow10(q.scale as nat) > 0,
    ;
    let f = floor_spec(q);
    assert(pow10(f.scale as nat) == 1);
    assert((f.mantissa as int) / 1 == f.mantissa as int);
    assert(f.truncated() == f.mantissa as int);
}

/// Converts a yen headroom into a number of shares at `price`, floored to whole lots;
/// zero when the headroom or the price is not positive. `None` where the division overflows.
pub fn additional_qty_from_headroom(headroom: Dec, price: Dec) -> (r: Option<i64>)
    requires
        headroom.valid(),
        price.valid(),
    ensures
        r matches Some(v) ==> Some(v as int) == qty_from_headroom(headroom, price),
        r is None <==> qty_from_headroom(headroom, price) is None,
        r matches Some(v) ==> v >= 0 && v % LOT_SIZE == 0,
{
    if headroom.is_non_positive() || price.is_non_positive() {
        return Some(0);
    }
    match dec_div(headroom, price) {
        None => None,
        Some(q) => {
            let raw = match dec_to_i64(dec_floor(q)) {
                Some(v) => v,
                None => 0,
            };
            proof {
                lemma_whole_shares_nonneg(q);
            }
            Some(floor_to_lot(raw))
        },
    }
}

/// The message for a symbol without a price.
pub open spec fn price_unavailable_reason(symbol: Seq<char>) -> Seq<char> {
    "price unavailable for "@ + symbol
}

/// The message for a strategy without a recorded investable amount.
pub open spec fn no_investable_amount_reason() -> Seq<char> {
    "no investable amount recorded for this strategy"@
}

/// The message for a symbol without a sector.
pub open spec fn no_sector_reason(symbol: Seq<char>) -> Seq<char> {
    symbol + " has no sector assigned"@
}

/// The message for held positions without a price.
pub open spec fn missing_prices_reason(symbols: Seq<Seq<char>>) -> Seq<char> {
    "missing price for held position(s), account-wide total is unreliable: "@ + joined(
        symbols,
        ", "@,
    )
}

fn price_unavailable(symbol: &str) -> (r: ConstraintResult)
    ensures
        r@ == ConstraintView::Unavailable(price_unavailable_reason(symbol@)),
{
    let mut reason = String::from_str("price unavailable for ");
    reason.append(symbol);
    ConstraintResult::Unavailable { reason }
}

fn no_investable_amount() -> (r: ConstraintResult)
    ensures
        r@ == ConstraintView::Unavailable(no_investable_amount_reason()),
{
    ConstraintResult::Unavailable {
        reason: String::from_str("no investable amount recorded for this strategy"),
    }
}

/// The position-ratio limit: shares such that the position's value stays within
/// `ratio * investable_amount`. `None` where the arithmetic overflows.
pub open spec fn position_ratio_spec(
    max_ratio: Option<Dec>,
    price: Option<Dec>,
    current_qty: Dec,
    investable_amount: Option<Dec>,
    symbol: Seq<char>,
) -> Option<ConstraintView> {
    match max_ratio {
        None => Some(ConstraintView::Unlimited),
        Some(ratio) => match price {
            None => Some(ConstraintView::Unavailable(price_unavailable_reason(symbol))),
            Some(p) => match investable_amount {
                None => Some(ConstraintView::Unavailable(no_investable_amount_reason())),
                Some(amount) => match decimal_product(ratio, amount) {
                    None => None,
                    Some(cap) => match decimal_product(current_qty, p) {
                        None => None,
                        Some(held) => match decimal_difference(cap, held) {
                            None => None,
                            Some(headroom) => match qty_from_headroom(headroom, p) {
                                None => None,
                                Some(q) => Some(ConstraintView::Limited(q)),
                            },
                        },
                    },
                },
            },
        },
    }
}

/// Limited results are whole, non-negative numbers of lots.
pub open spec fn lot_shaped(c: ConstraintView) -> bool {
    c matches ConstraintView::Limited(q) ==> q >= 0 && q % LOT_SIZE as int == 0
}

/// The position-ratio constraint (`max_position_ratio` of the strategy's risk policy).
/// Unlimited without a ratio; unavailable without a price or an investable amount;
/// otherwise the lots that `ratio * investable_amount - current_qty * price` buys.
/// `None` where the decimal arithmetic overflows.
pub fn compute_position_ratio_constraint(
    max_ratio: Option<Dec>,
    price: Option<Dec>,
    current_qty: Dec,
    investable_amount: Option<Dec>,
    symbol: &str,
) -> (r: Option<ConstraintResult>)
    requires
        max_ratio matches Some(d) ==> d.valid(),
        price matches Some(d) ==> d.valid(),
        current_qty.valid(),
        investable_amount matches Some(d) ==> d.valid(),
    ensures
        r matches Some(c) ==> position_ratio_spec(
            max_ratio,
            price,
            current_qty,
            investable_amount,
            symbol@,
        ) == Some(c@),
        r is None <==> position_ratio_spec(
            max_ratio,
            price,
            current_qty,
            investable_amount,
            symbol@,
        ) is None,
        r matches Some(c) ==> lot_shaped(c@),
{
    let ratio = match max_ratio {
        None => return Some(ConstraintResult::Unlimited),
        Some(r) => r,
    };
    let p = match price {
        None => return Some(price_unavailable(symbol)),
        Some(p) => p,
    };
    let amount = match investable_amount {
        None => return Some(no_investable_amount()),
        Some(a) => a,
    };
    let cap = match dec_mul(ratio, amount) {
        None => return None,
        Some(c) => c,
    };
    let held = match dec_mul(current_qty, p) {
        None => return None,
        Some(h) => h,
    };
    let headroom = match dec_sub(cap, held) {
        None => return None,
        Some(h) => h,
    };
    match additional_qty_from_headroom(headroom, p) {
        None => None,
        Some(q) => Some(ConstraintResult::Limited { max_additional_qty: q }),
    }
}


/// The sector-ratio limit: shares such that the sector's share of the account's market value
/// stays within `ratio`, i.e. `(ratio * total - sector) / (price * (1 - ratio))` in whole lots.
/// `None` where the decimal arithmetic overflows.
pub open spec fn sector_ratio_spec(
    max_ratio: Option<Dec>,
    price: Option<Dec>,
    has_sector: bool,
    sector_value: Dec,
    total_value: Dec,
    missing_price_symbols: Seq<Seq<char>>,
    symbol: Seq<char>,
) -> Option<ConstraintView> {
    match max_ratio {
        None => Some(ConstraintView::Unlimited),
        Some(ratio) => if !has_sector {
            Some(ConstraintView::Unavailable(no_sector_reason(symbol)))
        } else {
            match price {
                None => Some(ConstraintView::Unavailable(price_unavailable_reason(symbol))),
                Some(p) => if missing_price_symbols.len() > 0 {
                    Some(ConstraintView::Unavailable(missing_prices_reason(missing_price_symbols)))
                } else {
                    match decimal_difference(Dec { mantissa: 1, scale: 0 }, ratio) {
                        None => None,
                        Some(rest) => match decimal_product(p, rest) {
                            None => None,
                            Some(denom) => if denom.mantissa <= 0 {
                                Some(ConstraintView::Unlimited)
                            } else {
                                match decimal_product(ratio, total_value) {
                                    None => None,
                                    Some(cap) => match decimal_difference(cap, sector_value) {
                                        None => None,
                                        Some(numerator) => match qty_from_headroom(
                                            numerator,
                                            denom,
                                        ) {
                                            None => None,
                                            Some(q) => Some(ConstraintView::Limited(q)),
                                        },
                                    },
                                }
                            },
                        },
                    }
                },
            }
        },
    }
}

/// The views of a list of strings.
pub open spec fn string_views(v: Seq<String>) -> Seq<Seq<char>> {
    v.map_values(|s: String| s@)
}

/// The sector-ratio constraint (`max_sector_ratio` of the account's risk policy). Unlimited
/// without a ratio or when the ratio is 1 or more; unavailable without a sector, without a
/// price, or while a held position has no price; otherwise the lots that keep the sector's
/// share of the account within the ratio. `None` where the decimal arithmetic overflows.
pub fn compute_sector_ratio_constraint(
    max_ratio: Option<Dec>,
    price: Option<Dec>,
    target_sector: Option<&str>,
    sector_value: Dec,
    total_value: Dec,
    missing_price_symbols: &[String],
    symbol: &str,
) -> (r: Option<ConstraintResult>)
    requires
        max_ratio matches Some(d) ==> d.valid(),
        price matches Some(d) ==> d.valid(),
        sector_value.valid(),
        total_value.valid(),
    ensures
        r matches Some(c) ==> sector_ratio_spec(
            max_ratio,
            price,
            target_sector is Some,
            sector_value,
            total_value,
            string_views(missing_price_symbols@),
            symbol@,
        ) == Some(c@),
        r is None <==> sector_ratio_spec(
            max_ratio,
            price,
            target_sector is Some,
            sector_value,
            total_value,
            string_views(missing_price_symbols@),
            symbol@,
        ) is None,
        r matches Some(c) ==> lot_shaped(c@),
{
    let ratio = match max_ratio {
        None => return Some(ConstraintResult::Unlimited),
        Some(r) => r,
    };
    if target_sector.is_none() {
        let mut reason = String::from_str(symbol);
        reason.append(" has no sector assigned");
        return Some(ConstraintResult::Unavailable { reason });
    }
    let p = match price {
        None => return Some(price_unavailable(symbol)),
        Some(p) => p,
    };
    if missing_price_symbols.len() > 0 {
        let mut reason = String::from_str(
            "missing price for held position(s), account-wide total is unreliable: ",
        );
        let list = join_strings(missing_price_symbols, ", ");
        reason.append(list.as_str());
        return Some(ConstraintResult::Unavailable { reason });
    }
    let rest = match dec_sub(Dec::one(), ratio) {
        None => return None,
        Some(x) => x,
    };
    let denom = match dec_mul(p, rest) {
        None => return None,
        Some(x) => x,
    };
    if denom.is_non_positive() {
        return Some(ConstraintResult::Unlimited);
    }
    let cap = match dec_mul(ratio, total_value) {
        None => return None,
        Some(x) => x,
    };
    let numerator = match dec_sub(cap, sector_value) {
        None => return None,
        Some(x) => x,
    };
    match additional_qty_from_headroom(numerator, denom) {
        None => None,
        Some(q) => Some(ConstraintResult::Limited { max_additional_qty: q }),
    }
}

/// The cash limit: the lots that the strategy's unused investable amount buys.
/// `None` where the division overflows.
pub open spec fn cash_spec(
    unused_investable_amount: Option<Dec>,
    price: Option<Dec>,
    symbol: Seq<char>,
) -> Option<ConstraintView> {
    match unused_investable_amount {
        None => Some(ConstraintView::Unavailable(no_investable_amount_reason())),
        Some(unused) => match price {
            None => Some(ConstraintView::Unavailable(price_unavailable_reason(symbol))),
            Some(p) => match qty_from_headroom(unused, p) {
                None => None,
                Some(q) => Some(ConstraintView::Limited(q)),
            },
        },
    }
}

/// The cash constraint: unavailable without an investable amount or a price; otherwise the
/// lots that the unused investable amount buys (zero when it is not positive).
/// `None` where the division overflows.
pub fn compute_cash_constraint(
    unused_investable_amount: Option<Dec>,
    price: Option<Dec>,
    symbol: &str,
) -> (r: Option<ConstraintResult>)
    requires
        unused_investable_amount matches Some(d) ==> d.valid(),
        price matches Some(d) ==> d.valid(),
    ensures
        r matches Some(c) ==> cash_spec(unused_investable_amount, price, symbol@) == Some(c@),
        r is None <==> cash_spec(unused_investable_amount, price, symbol@) is None,
        r matches Some(c) ==> lot_shaped(c@),
{
    let unused = match unused_investable_amount {
        None => return Some(no_investable_amount()),
        Some(u) => u,
    };
    let p = match price {
        None => return Some(price_unavailable(symbol)),
        Some(p) => p,
    };
    match additional_qty_from_headroom(unused, p) {
        None => None,
        Some(q) => Some(ConstraintResult::Limited { max_additional_qty: q }),
    }
}


/// The first constraint (in order) that is unavailable, with its name and reason.
pub open spec fn first_unavailable_at(cs: Seq<(Seq<char>, ConstraintView)>, i: int) -> Option<
    (Seq<char>, Seq<char>),
>
    decreases cs.len() - i,
{
    if i < 0 || i >= cs.len() {
        None
    } else {
        match cs[i].1 {
            ConstraintView::Unavailable(reason) => Some((cs[i].0, reason)),
            _ => first_unavailable_at(cs, i + 1),
        }
    }
}

/// The strictest limited constraint: the smallest quantity, the earliest name on a tie.
pub open spec fn strictest_limited(cs: Seq<(Seq<char>, ConstraintView)>) -> Option<
    (Seq<char>, int),
>
    decreases cs.len(),
{
    if cs.len() == 0 {
        None
    } else {
        let prev = strictest_limited(cs.drop_last());
        match cs.last().1 {
            ConstraintView::Limited(q) => match prev {
                Some(best) => if best.1 <= q {
                    prev
                } else {
                    Some((cs.last().0, q))
                },
                None => Some((cs.last().0, q)),
            },
            _ => prev,
        }
    }
}

/// The overall limit and the name of the constraint that binds: unavailable (naming the
/// first unavailable constraint) if any is, else the strictest limited one, else unlimited.
pub open spec fn combined(cs: Seq<(Seq<char>, ConstraintView)>) -> (
    ConstraintView,
    Option<Seq<char>>,
) {
    match first_unavailable_at(cs, 0) {
        Some(u) => (ConstraintView::Unavailable(u.0 + ": "@ + u.1), None),
        None => match strictest_limited(cs) {
            Some(best) => (ConstraintView::Limited(best.1), Some(best.0)),
            None => (ConstraintView::Unlimited, None),
        },
    }
}

/// The names and views of the constraints handed to `combine_constraints`.
pub open spec fn named_views(cs: Seq<(&str, &ConstraintResult)>) -> Seq<
    (Seq<char>, ConstraintView),
> {
    cs.map_values(|c: (&str, &ConstraintResult)| (c.0@, c.1@))
}

proof fn lemma_first_unavailable_step(cs: Seq<(Seq<char>, ConstraintView)>, i: int)
    requires
        0 <= i < cs.len(),
        !(cs[i].1 is Unavailable),
    ensures
        first_unavailable_at(cs, i) == first_unavailable_at(cs, i + 1),
{
}

/// Combines the three constraint results: if any is unavailable the whole is unavailable
/// (its reason prefixed with the constraint's name, no binding constraint); otherwise the
/// smallest limited quantity binds (the earlier constraint on a tie); if none is limited the
/// whole is unlimited.
pub fn combine_constraints(constraints: [(&str, &ConstraintResult); 3]) -> (r: (
    ConstraintResult,
    Option<String>,
))
    ensures
        r.0@ == combined(named_views(constraints@)).0,
        r.1 matches Some(n) ==> combined(named_views(constraints@)).1 == Some(n@),
        r.1 is None <==> combined(named_views(constraints@)).1 is None,
{
    let ghost cs = named_views(constraints@);
    let mut i: usize = 0;
    while i < 3
        invariant
            0 <= i <= 3,
            cs == named_views(constraints@),
            cs.len() == 3,
            first_unavailable_at(cs, 0) == first_unavailable_at(cs, i as int),
        decreases 3 - i,
    {
        let (name, result) = constraints[i];
        match result {
            ConstraintResult::Unavailable { reason } => {
                let mut text = String::from_str(name);
                text.append(": ");
                text.append(reason.as_str());
                return (ConstraintResult::Unavailable { reason: text }, None);
            },
            _ => {},
        }
        proof {
            lemma_first_unavailable_step(cs, i as int);
        }
        i = i + 1;
    }
    assert(first_unavailable_at(cs, 3) is None);
    let mut best: Option<(&str, i64)> = None;
    let mut j: usize = 0;
    while j < 3
        invariant
            0 <= j <= 3,
            cs == named_views(constraints@),
            cs.len() == 3,
            match best {
                Some(b) => strictest_limited(cs.take(j as int)) == Some((b.0@, b.1 as int)),
                None => strictest_limited(cs.take(j as int)) is None,
            },
        decreases 3 - j,
    {
        assert(cs.take(j + 1).drop_last() =~= cs.take(j as int));
        let (name, result) = constraints[j];
        match result {
            ConstraintResult::Limited { max_additional_qty } => {
                let q = *max_additional_qty;
                best = match best {
                    Some(b) => if b.1 <= q {
                        Some(b)
                    } else {
                        Some((name, q))
                    },
                    None => Some((name, q)),
                };
            },
            _ => {},
        }
        j = j + 1;
    }
    assert(cs.take(3) =~= cs);
    match best {
        Some(b) => (
            ConstraintResult::Limited { max_additional_qty: b.1 },
            Some(String::from_str(b.0)),
        ),
        None => (ConstraintResult::Unlimited, None),
    }
}


proof fn lemma_first_unavailable_none(cs: Seq<(Seq<char>, ConstraintView)>, k: int)
    requires
        0 <= k,
    ensures
        first_unavailable_at(cs, k) is None <==> forall|i: int|
            k <= i < cs.len() ==> !(#[trigger] cs[i].1 is Unavailable),
    decreases cs.len() - k,
{
    if k < cs.len() {
        lemma_first_unavailable_none(cs, k + 1);
    }
}

proof fn lemma_strictest_limited(cs: Seq<(Seq<char>, ConstraintView)>)
    ensures
        strictest_limited(cs) is None <==> forall|i: int|
            0 <= i < cs.len() ==> !(#[trigger] cs[i].1 is Limited),
        strictest_limited(cs) matches Some(best) ==> {
            &&& forall|i: int|
                0 <= i < cs.len() ==> (#[trigger] cs[i].1 matches ConstraintView::Limited(q)
                    ==> best.1 <= q)
            &&& exists|i: int|
                0 <= i < cs.len() && #[trigger] cs[i].0 == best.0 && cs[i].1
                    == ConstraintView::Limited(best.1) && forall|j: int|
                    0 <= j < i ==> (#[trigger] cs[j].1 matches ConstraintView::Limited(q) ==> q
                        > best.1)
        },
    decreases cs.len(),
{
    if cs.len() > 0 {
        let init = cs.drop_last();
        lemma_strictest_limited(init);
        assert forall|i: int| 0 <= i < init.len() implies #[trigger] init[i] == cs[i] by {}
        let last = cs.len() - 1;
        assert(cs[last] == cs.last());
        match strictest_limited(cs) {
            Some(best) => {
                match strictest_limited(init) {
                    Some(prev) => {
                        let i0 = choose|i: int|
                            0 <= i < init.len() && #[trigger] init[i].0 == prev.0 && init[i].1
                                == ConstraintView::Limited(prev.1) && forall|j: int|
                                0 <= j < i ==> (#[trigger] init[j].1 matches ConstraintView::Limited(
                                    q,
                                ) ==> q > prev.1);
                        if best == prev {
                            assert forall|i: int| 0 <= i < cs.len() implies (
                            #[trigger] cs[i].1 matches ConstraintView::Limited(q) ==> best.1 <= q) by {
                                if i < last {
                                    assert(cs[i] == init[i]);
                                }
                            }
                            assert forall|j: int| 0 <= j < i0 implies (
                            #[trigger] cs[j].1 matches ConstraintView::Limited(q) ==> q > best.1) by {
                                assert(cs[j] == init[j]);
                            }
                            assert(cs[i0] == init[i0]);
                        } else {
                            assert forall|i: int| 0 <= i < cs.len() implies (
                            #[trigger] cs[i].1 matches ConstraintView::Limited(q) ==> best.1 <= q) by {
                                if i < last {
                                    assert(cs[i] == init[i]);
                                }
                            }
                            assert forall|j: int| 0 <= j < last implies (
                            #[trigger] cs[j].1 matches ConstraintView::Limited(q) ==> q > best.1) by {
                                assert(cs[j] == init[j]);
                            }
                        }
                    },
                    None => {
                        assert forall|i: int| 0 <= i < cs.len() implies (
                        #[trigger] cs[i].1 matches ConstraintView::Limited(q) ==> best.1 <= q) by {
                            if i < last {
                                assert(cs[i] == init[i]);
                            }
                        }
                        assert forall|j: int| 0 <= j < last implies (
                        #[trigger] cs[j].1 matches ConstraintView::Limited(q) ==> q > best.1) by {
                            assert(cs[j] == init[j]);
                        }
                    },
                }
            },
            None => {
                assert forall|i: int| 0 <= i < cs.len() implies !(#[trigger] cs[i].1 is Limited) by {
                    if i < last {
                        assert(cs[i] == init[i]);
                    }
                }
            },
        }
    }
}

/// Any unavailable constraint makes the combined limit unavailable, and only then is it
/// unavailable.
pub proof fn law_combined_unavailable_iff_some_unavailable(cs: Seq<(Seq<char>, ConstraintView)>)
    ensures
        combined(cs).0 is Unavailable <==> exists|i: int|
            0 <= i < cs.len() && #[trigger] cs[i].1 is Unavailable,
        combined(cs).0 is Unavailable ==> combined(cs).1 is None,
{
    lemma_first_unavailable_none(cs, 0);
    lemma_strictest_limited(cs);
}

/// When no constraint is unavailable and some is limited, the combined limit is the smallest
/// limited quantity, and the binding constraint is the earliest one that has it.
pub proof fn law_combined_limit_is_strictest(cs: Seq<(Seq<char>, ConstraintView)>)
    requires
        forall|i: int| 0 <= i < cs.len() ==> !(#[trigger] cs[i].1 is Unavailable),
    ensures
        combined(cs).0 matches ConstraintView::Limited(q) ==> {
            &&& forall|i: int|
                0 <= i < cs.len() ==> (#[trigger] cs[i].1 matches ConstraintView::Limited(qi)
                    ==> q <= qi)
            &&& exists|i: int|
                0 <= i < cs.len() && combined(cs).1 == Some(#[trigger] cs[i].0) && cs[i].1
                    == ConstraintView::Limited(q) && forall|j: int|
                    0 <= j < i ==> (#[trigger] cs[j].1 matches ConstraintView::Limited(qj) ==> qj
                        > q)
        },
        combined(cs).0 is Unlimited <==> forall|i: int|
            0 <= i < cs.len() ==> #[trigger] cs[i].1 is Unlimited,
{
    lemma_first_unavailable_none(cs, 0);
    lemma_strictest_limited(cs);
    if combined(cs).0 is Unlimited {
        assert forall|i: int| 0 <= i < cs.len() implies #[trigger] cs[i].1 is Unlimited by {
            assert(!(cs[i].1 is Limited));
            assert(!(cs[i].1 is Unavailable));
        }
    }
}

/// When every constraint's limit is a whole, non-negative number of lots, so is the combined
/// limit.
pub proof fn law_combined_keeps_lots(cs: Seq<(Seq<char>, ConstraintView)>)
    requires
        forall|i: int| 0 <= i < cs.len() ==> lot_shaped(#[trigger] cs[i].1),
    ensures
        lot_shaped(combined(cs).0),
{
    law_combined_unavailable_iff_some_unavailable(cs);
    if !(combined(cs).0 is Unavailable) {
        assert forall|i: int| 0 <= i < cs.len() implies !(#[trigger] cs[i].1 is Unavailable) by {}
        law_combined_limit_is_strictest(cs);
    }
}

/// Two lists of constraints whose limits are the same, each limit of one found among the
/// other's (as when one list reorders the other).
pub open spec fn same_limits(a: Seq<(Seq<char>, ConstraintView)>, b: Seq<(Seq<char>, ConstraintView)>) -> bool {
    &&& forall|i: int|
        #![trigger a[i]]
        0 <= i < a.len() ==> exists|j: int| #![trigger b[j]] 0 <= j < b.len() && b[j].1 == a[i].1
    &&& forall|j: int|
        #![trigger b[j]]
        0 <= j < b.len() ==> exists|i: int| #![trigger a[i]] 0 <= i < a.len() && a[i].1 == b[j].1
}

proof fn lemma_limited_bound(
    a: Seq<(Seq<char>, ConstraintView)>,
    b: Seq<(Seq<char>, ConstraintView)>,
    qa: int,
    qb: int,
)
    requires
        same_limits(a, b),
        forall|i: int| 0 <= i < a.len() ==> !(#[trigger] a[i].1 is Unavailable),
        forall|j: int| 0 <= j < b.len() ==> !(#[trigger] b[j].1 is Unavailable),
        combined(a).0 == ConstraintView::Limited(qa),
        combined(b).0 == ConstraintView::Limited(qb),
    ensures
        qb <= qa,
{
    law_combined_limit_is_strictest(a);
    law_combined_limit_is_strictest(b);
    let i = choose|i: int|
        0 <= i < a.len() && combined(a).1 == Some(#[trigger] a[i].0) && a[i].1
            == ConstraintView::Limited(qa) && forall|j: int|
            0 <= j < i ==> (#[trigger] a[j].1 matches ConstraintView::Limited(qj) ==> qj > qa);
    assert(exists|j: int| #![trigger b[j]] 0 <= j < b.len() && b[j].1 == a[i].1);
    let j = choose|j: int| #![trigger b[j]] 0 <= j < b.len() && b[j].1 == a[i].1;
    assert(b[j].1 matches ConstraintView::Limited(qj) ==> qb <= qj);
}

proof fn lemma_unavailable_found_in(
    a: Seq<(Seq<char>, ConstraintView)>,
    b: Seq<(Seq<char>, ConstraintView)>,
)
    requires
        same_limits(a, b),
        exists|i: int| 0 <= i < a.len() && #[trigger] a[i].1 is Unavailable,
    ensures
        exists|j: int| 0 <= j < b.len() && #[trigger] b[j].1 is Unavailable,
{
    let i = choose|i: int| 0 <= i < a.len() && #[trigger] a[i].1 is Unavailable;
    assert(exists|j: int| #![trigger b[j]] 0 <= j < b.len() && b[j].1 == a[i].1);
    let j = choose|j: int| #![trigger b[j]] 0 <= j < b.len() && b[j].1 == a[i].1;
    assert(b[j].1 is Unavailable);
}

proof fn lemma_unlimited_found_in(
    a: Seq<(Seq<char>, ConstraintView)>,
    b: Seq<(Seq<char>, ConstraintView)>,
)
    requires
        same_limits(a, b),
        forall|i: int| 0 <= i < a.len() ==> #[trigger] a[i].1 is Unlimited,
    ensures
        forall|j: int| 0 <= j < b.len() ==> #[trigger] b[j].1 is Unlimited,
{
    assert forall|j: int| 0 <= j < b.len() implies #[trigger] b[j].1 is Unlimited by {
        assert(exists|i: int| #![trigger a[i]] 0 <= i < a.len() && a[i].1 == b[j].1);
        let i = choose|i: int| #![trigger a[i]] 0 <= i < a.len() && a[i].1 == b[j].1;
        assert(a[i].1 is Unlimited);
    }
}

proof fn lemma_none_unavailable(cs: Seq<(Seq<char>, ConstraintView)>)
    requires
        !(combined(cs).0 is Unavailable),
    ensures
        forall|i: int| 0 <= i < cs.len() ==> !(#[trigger] cs[i].1 is Unavailable),
{
    law_combined_unavailable_iff_some_unavailable(cs);
}

/// The combined limit does not depend on the order of the constraints: two lists with the
/// same limits give limits of the same kind, and the same quantity when limited. (Only the
/// reason of an unavailable limit and the binding constraint's name, which name the first
/// or strictest entry, can differ.)
pub proof fn law_combined_limit_ignores_order(
    a: Seq<(Seq<char>, ConstraintView)>,
    b: Seq<(Seq<char>, ConstraintView)>,
)
    requires
        same_limits(a, b),
    ensures
        combined(a).0 is Unavailable <==> combined(b).0 is Unavailable,
        combined(a).0 is Unlimited <==> combined(b).0 is Unlimited,
        combined(a).0 matches ConstraintView::Limited(q) ==> combined(b).0 == ConstraintView::Limited(q),
{
    assert(combined(a).0 is Unavailable ==> combined(b).0 is Unavailable) by {
        law_combined_unavailable_iff_some_unavailable(a);
        law_combined_unavailable_iff_some_unavailable(b);
        if combined(a).0 is Unavailable {
            lemma_unavailable_found_in(a, b);
        }
    }
    assert(combined(b).0 is Unavailable ==> combined(a).0 is Unavailable) by {
        law_combined_unavailable_iff_some_unavailable(a);
        law_combined_unavailable_iff_some_unavailable(b);
        if combined(b).0 is Unavailable {
            lemma_unavailable_found_in(b, a);
        }
    }
    if !(combined(a).0 is Unavailable) && !(combined(b).0 is Unavailable) {
        lemma_none_unavailable(a);
        lemma_none_unavailable(b);
        assert(combined(a).0 is Unlimited ==> combined(b).0 is Unlimited) by {
            law_combined_limit_is_strictest(a);
            law_combined_limit_is_strictest(b);
            if combined(a).0 is Unlimited {
                lemma_unlimited_found_in(a, b);
            }
        }
        assert(combined(b).0 is Unlimited ==> combined(a).0 is Unlimited) by {
            law_combined_limit_is_strictest(a);
            law_combined_limit_is_strictest(b);
            if combined(b).0 is Unlimited {
                lemma_unlimited_found_in(b, a);
            }
        }
        if let ConstraintView::Limited(qa) = combined(a).0 {
            if let ConstraintView::Limited(qb) = combined(b).0 {
                lemma_limited_bound(a, b, qa, qb);
                lemma_limited_bound(b, a, qb, qa);
            }
        }
    }
}

} // verus!
