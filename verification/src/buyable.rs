//! `check_buyable_qty`: from the account's and the strategy's positions, the latest prices,
//! the stocks' sectors and the risk policies, the limit of each constraint and the overall
//! number of additional shares the strategy may buy.

use vstd::prelude::*;

use crate::decimal::{
    Dec, MAX_MANTISSA, dec_add, dec_mul, dec_sub, decimal_difference, decimal_product, decimal_sum,
};
use crate::risk::{
    ConstraintResult, ConstraintView, LOT_SIZE, cash_spec, combine_constraints, combined,
    compute_cash_constraint, compute_position_ratio_constraint, compute_sector_ratio_constraint,
    law_combined_keeps_lots, lot_shaped, named_views, no_investable_amount_reason, position_ratio_spec, sector_ratio_spec, string_views,
};

verus! {

/// A held position: its symbol, share count and acquisition cost.
#[derive(Debug, Clone)]
pub struct PositionSummary {
    pub symbol: String,
    pub qty: Dec,
    pub cost_basis: Dec,
}

/// The latest closing price of a symbol.
#[derive(Debug, Clone)]
pub struct PriceQuote {
    pub symbol: String,
    pub price: Dec,
}

/// The sector of a stock, if one is assigned.
#[derive(Debug, Clone)]
pub struct StockSector {
    pub symbol: String,
    pub sector_id: Option<String>,
}

/// What the buyable-quantity check reads: the target symbol, the account-wide positions
/// (all strategies), the strategy's own positions and realized profit, the prices that could
/// be fetched (one per symbol), the sectors of the stocks involved (one per symbol) and the
/// risk-policy settings.
#[derive(Debug, Clone)]
pub struct BuyableQtyInputs {
    pub symbol: String,
    pub account_positions: Vec<PositionSummary>,
    pub strategy_positions: Vec<PositionSummary>,
    pub strategy_realized_pnl: Dec,
    pub prices: Vec<PriceQuote>,
    pub priced_at: Option<i32>,
    pub sectors: Vec<StockSector>,
    pub max_position_ratio: Option<Dec>,
    pub max_sector_ratio: Option<Dec>,
    pub investable_amount: Option<Dec>,
}

/// The answer of the buyable-quantity check.
#[derive(Debug, Clone)]
pub struct CheckBuyableQtyResult {
    pub symbol: String,
    pub lot_size: i64,
    pub current_qty: Dec,
    pub current_price: Option<Dec>,
    pub priced_at: Option<i32>,
    pub max_qty_by_position_ratio: ConstraintResult,
    pub max_qty_by_sector_ratio: ConstraintResult,
    pub max_qty_by_cash: ConstraintResult,
    pub max_qty: ConstraintResult,
    pub binding_constraint: Option<String>,
}

/// Every decimal that the check reads lies in `rust_decimal`'s range.
pub open spec fn positions_valid(ps: Seq<PositionSummary>) -> bool {
    forall|i: int| #![trigger ps[i]] 0 <= i < ps.len() ==> ps[i].qty.valid() && ps[i].cost_basis.valid()
}

impl BuyableQtyInputs {
    /// Every decimal that the check reads lies in `rust_decimal`'s range.
    pub open spec fn valid(self) -> bool {
        &&& positions_valid(self.account_positions@)
        &&& positions_valid(self.strategy_positions@)
        &&& self.strategy_realized_pnl.valid()
        &&& forall|i: int| 0 <= i < self.prices@.len() ==> #[trigger] self.prices@[i].price.valid()
        &&& self.max_position_ratio matches Some(d) ==> d.valid()
        &&& self.max_sector_ratio matches Some(d) ==> d.valid()
        &&& self.investable_amount matches Some(d) ==> d.valid()
    }
}

/// The price quoted for `symbol` (the first quote for it).
pub open spec fn price_of(prices: Seq<PriceQuote>, symbol: Seq<char>) -> Option<Dec>
    decreases prices.len(),
{
    if prices.len() == 0 {
        None
    } else if prices[0].symbol@ == symbol {
        Some(prices[0].price)
    } else {
        price_of(prices.drop_first(), symbol)
    }
}

/// The sector recorded for `symbol`: `None` when the stock is unknown or has no sector.
pub open spec fn sector_of(sectors: Seq<StockSector>, symbol: Seq<char>) -> Option<Seq<char>>
    decreases sectors.len(),
{
    if sectors.len() == 0 {
        None
    } else if sectors[0].symbol@ == symbol {
        match sectors[0].sector_id {
            Some(s) => Some(s@),
            None => None,
        }
    } else {
        sector_of(sectors.drop_first(), symbol)
    }
}

/// The strategy's share count of `symbol` (its first position in it), zero if it holds none.
pub open spec fn held_qty(ps: Seq<PositionSummary>, symbol: Seq<char>) -> Dec
    decreases ps.len(),
{
    if ps.len() == 0 {
        Dec { mantissa: 0, scale: 0 }
    } else if ps[0].symbol@ == symbol {
        ps[0].qty
    } else {
        held_qty(ps.drop_first(), symbol)
    }
}

/// Whether a position counts towards a total: it has a price and, when a sector is given,
/// belongs to that sector.
pub open spec fn counts_towards(
    p: PositionSummary,
    prices: Seq<PriceQuote>,
    sectors: Seq<StockSector>,
    sector: Option<Seq<char>>,
) -> bool {
    &&& price_of(prices, p.symbol@) is Some
    &&& sector matches Some(s) ==> sector_of(sectors, p.symbol@) == Some(s)
}

/// The market value (`qty * price`) summed from zero over the positions that count, in order;
/// `None` where a product or a partial sum overflows.
pub open spec fn market_value(
    ps: Seq<PositionSummary>,
    prices: Seq<PriceQuote>,
    sectors: Seq<StockSector>,
    sector: Option<Seq<char>>,
) -> Option<Dec>
    decreases ps.len(),
{
    if ps.len() == 0 {
        Some(Dec { mantissa: 0, scale: 0 })
    } else {
        match market_value(ps.drop_last(), prices, sectors, sector) {
            None => None,
            Some(acc) => {
                let p = ps.last();
                if counts_towards(p, prices, sectors, sector) {
                    match decimal_product(p.qty, price_of(prices, p.symbol@).unwrap()) {
                        None => None,
                        Some(v) => decimal_sum(acc, v),
                    }
                } else {
                    Some(acc)
                }
            },
        }
    }
}

/// The acquisition costs summed from zero, in order; `None` where a partial sum overflows.
pub open spec fn total_cost(ps: Seq<PositionSummary>) -> Option<Dec>
    decreases ps.len(),
{
    if ps.len() == 0 {
        Some(Dec { mantissa: 0, scale: 0 })
    } else {
        match total_cost(ps.drop_last()) {
            None => None,
            Some(acc) => decimal_sum(acc, ps.last().cost_basis),
        }
    }
}

/// The symbols of the account's positions that have no price, in order.
pub open spec fn unpriced_symbols(ps: Seq<PositionSummary>, prices: Seq<PriceQuote>) -> Seq<
    Seq<char>,
>
    decreases ps.len(),
{
    if ps.len() == 0 {
        Seq::empty()
    } else {
        let init = unpriced_symbols(ps.drop_last(), prices);
        if price_of(prices, ps.last().symbol@) is None {
            init.push(ps.last().symbol@)
        } else {
            init
        }
    }
}

/// The strategy's unused investable amount, `amount + realized_pnl - cost`; `Some(None)`
/// without an amount, `None` where the arithmetic overflows.
pub open spec fn unused_amount(
    investable_amount: Option<Dec>,
    realized_pnl: Dec,
    cost: Dec,
) -> Option<Option<Dec>> {
    match investable_amount {
        None => Some(None),
        Some(a) => match decimal_sum(a, realized_pnl) {
            None => None,
            Some(x) => match decimal_difference(x, cost) {
                None => None,
                Some(u) => Some(Some(u)),
            },
        },
    }
}

/// `amount + realized_pnl - cost` computed exactly, when the three share one scale and the
/// sum and the result fit in 96 bits; `None` otherwise.
pub open spec fn exact_unused(amount: Dec, realized_pnl: Dec, cost: Dec) -> Option<Dec> {
    let sum = amount.mantissa + realized_pnl.mantissa;
    let unused = sum - cost.mantissa;
    if amount.scale == realized_pnl.scale && realized_pnl.scale == cost.scale && -MAX_MANTISSA
        <= sum <= MAX_MANTISSA && -MAX_MANTISSA <= unused <= MAX_MANTISSA {
        Some(Dec { mantissa: unused as i128, scale: amount.scale })
    } else {
        None
    }
}

/// The three constraints (position ratio, sector ratio, cash) that the check evaluates;
/// `None` where the decimal arithmetic overflows.
pub open spec fn buyable_constraints(inp: BuyableQtyInputs) -> Option<
    (ConstraintView, ConstraintView, ConstraintView),
> {
    let symbol = inp.symbol@;
    let account = inp.account_positions@;
    let prices = inp.prices@;
    let sectors = inp.sectors@;
    let price = price_of(prices, symbol);
    let target_sector = sector_of(sectors, symbol);
    match market_value(account, prices, sectors, None) {
        None => None,
        Some(total) => match (if target_sector is Some {
            market_value(account, prices, sectors, target_sector)
        } else {
            Some(Dec { mantissa: 0, scale: 0 })
        }) {
            None => None,
            Some(sector_value) => match position_ratio_spec(
                inp.max_position_ratio,
                price,
                held_qty(inp.strategy_positions@, symbol),
                inp.investable_amount,
                symbol,
            ) {
                None => None,
                Some(position) => match sector_ratio_spec(
                    inp.max_sector_ratio,
                    price,
                    target_sector is Some,
                    sector_value,
                    total,
                    unpriced_symbols(account, prices),
                    symbol,
                ) {
                    None => None,
                    Some(sector) => match total_cost(inp.strategy_positions@) {
                        None => None,
                        Some(cost) => match unused_amount(
                            inp.investable_amount,
                            inp.strategy_realized_pnl,
                            cost,
                        ) {
                            None => None,
                            Some(unused) => match cash_spec(unused, price, symbol) {
                                None => None,
                                Some(cash) => Some((position, sector, cash)),
                            },
                        },
                    },
                },
            },
        },
    }
}

/// The constraints in the order in which they are combined, with their names.
pub open spec fn named_constraints(c: (ConstraintView, ConstraintView, ConstraintView)) -> Seq<
    (Seq<char>, ConstraintView),
> {
    seq![("position_ratio"@, c.0), ("sector_ratio"@, c.1), ("cash"@, c.2)]
}

fn find_price(prices: &Vec<PriceQuote>, symbol: &String) -> (r: Option<Dec>)
    ensures
        r == price_of(prices@, symbol@),
{
    let mut i: usize = 0;
    assert(prices@.skip(0) =~= prices@);
    while i < prices.len()
        invariant
            0 <= i <= prices@.len(),
            price_of(prices@, symbol@) == price_of(prices@.skip(i as int), symbol@),
        decreases prices.len() - i,
    {
        assert(prices@.skip(i as int).drop_first() =~= prices@.skip(i + 1));
        if prices[i].symbol == *symbol {
            return Some(prices[i].price);
        }
        i = i + 1;
    }
    assert(prices@.skip(i as int).len() == 0);
    None
}

fn find_sector(sectors: &Vec<StockSector>, symbol: &String) -> (r: Option<String>)
    ensures
        r matches Some(s) ==> sector_of(sectors@, symbol@) == Some(s@),
        r is None <==> sector_of(sectors@, symbol@) is None,
{
    let mut i: usize = 0;
    assert(sectors@.skip(0) =~= sectors@);
    while i < sectors.len()
        invariant
            0 <= i <= sectors@.len(),
            sector_of(sectors@, symbol@) == sector_of(sectors@.skip(i as int), symbol@),
        decreases sectors.len() - i,
    {
        assert(sectors@.skip(i as int).drop_first() =~= sectors@.skip(i + 1));
        if sectors[i].symbol == *symbol {
            return match &sectors[i].sector_id {
                Some(s) => Some(s.clone()),
                None => None,
            };
        }
        i = i + 1;
    }
    assert(sectors@.skip(i as int).len() == 0);
    None
}

fn find_held_qty(ps: &Vec<PositionSummary>, symbol: &String) -> (r: Dec)
    ensures
        r == held_qty(ps@, symbol@),
{
    let mut i: usize = 0;
    assert(ps@.skip(0) =~= ps@);
    while i < ps.len()
        invariant
            0 <= i <= ps@.len(),
            held_qty(ps@, symbol@) == held_qty(ps@.skip(i as int), symbol@),
        decreases ps.len() - i,
    {
        assert(ps@.skip(i as int).drop_first() =~= ps@.skip(i + 1));
        if ps[i].symbol == *symbol {
            return ps[i].qty;
        }
        i = i + 1;
    }
    assert(ps@.skip(i as int).len() == 0);
    Dec::zero()
}

proof fn lemma_price_valid(prices: Seq<PriceQuote>, symbol: Seq<char>)
    requires
        forall|i: int| 0 <= i < prices.len() ==> #[trigger] prices[i].price.valid(),
    ensures
        price_of(prices, symbol) matches Some(d) ==> d.valid(),
    decreases prices.len(),
{
    if prices.len() > 0 {
        let rest = prices.drop_first();
        assert forall|i: int| 0 <= i < rest.len() implies #[trigger] rest[i].price.valid() by {
            assert(rest[i] == prices[i + 1]);
        }
        lemma_price_valid(rest, symbol);
    }
}

proof fn lemma_held_valid(ps: Seq<PositionSummary>, symbol: Seq<char>)
    requires
        positions_valid(ps),
    ensures
        held_qty(ps, symbol).valid(),
    decreases ps.len(),
{
    if ps.len() > 0 {
        let rest = ps.drop_first();
        assert forall|i: int| #![trigger rest[i]] 0 <= i < rest.len() implies rest[i].qty.valid()
            && rest[i].cost_basis.valid() by {
            assert(rest[i] == ps[i + 1]);
        }
        lemma_held_valid(rest, symbol);
        assert(ps[0].qty.valid());
    }
}

proof fn lemma_market_value_none(
    ps: Seq<PositionSummary>,
    prices: Seq<PriceQuote>,
    sectors: Seq<StockSector>,
    sector: Option<Seq<char>>,
    k: int,
)
    requires
        0 <= k <= ps.len(),
        market_value(ps.take(k), prices, sectors, sector) is None,
    ensures
        market_value(ps, prices, sectors, sector) is None,
    decreases ps.len() - k,
{
    if k < ps.len() {
        assert(ps.take(k + 1).drop_last() =~= ps.take(k));
        lemma_market_value_none(ps, prices, sectors, sector, k + 1);
    } else {
        assert(ps.take(k) =~= ps);
    }
}

proof fn lemma_total_cost_none(ps: Seq<PositionSummary>, k: int)
    requires
        0 <= k <= ps.len(),
        total_cost(ps.take(k)) is None,
    ensures
        total_cost(ps) is None,
    decreases ps.len() - k,
{
    if k < ps.len() {
        assert(ps.take(k + 1).drop_last() =~= ps.take(k));
        lemma_total_cost_none(ps, k + 1);
    } else {
        assert(ps.take(k) =~= ps);
    }
}

fn sum_market_value(
    ps: &Vec<PositionSummary>,
    prices: &Vec<PriceQuote>,
    sectors: &Vec<StockSector>,
    sector: &Option<String>,
) -> (r: Option<Dec>)
    requires
        positions_valid(ps@),
        forall|i: int| 0 <= i < prices@.len() ==> #[trigger] prices@[i].price.valid(),
    ensures
        r == market_value(
            ps@,
            prices@,
            sectors@,
            match sector {
                Some(s) => Some(s@),
                None => None,
            },
        ),
        r matches Some(d) ==> d.valid(),
{
    let ghost sv = match sector {
        Some(s) => Some(s@),
        None => None,
    };
    let mut acc = Dec::zero();
    let mut i: usize = 0;
    while i < ps.len()
        invariant
            0 <= i <= ps@.len(),
            positions_valid(ps@),
            forall|k: int| 0 <= k < prices@.len() ==> #[trigger] prices@[k].price.valid(),
            acc.valid(),
            market_value(ps@.take(i as int), prices@, sectors@, sv) == Some(acc),
            sv == match sector {
                Some(s) => Some(s@),
                None => None,
            },
        decreases ps.len() - i,
    {
        let ghost prefix = ps@.take(i + 1);
        assert(prefix.drop_last() =~= ps@.take(i as int));
        assert(prefix.last() == ps@[i as int]);
        let p = &ps[i];
        let price = find_price(prices, &p.symbol);
        let in_sector = match sector {
            None => true,
            Some(s) => match find_sector(sectors, &p.symbol) {
                Some(ps_sector) => ps_sector == *s,
                None => false,
            },
        };
        proof {
            lemma_price_valid(prices@, p.symbol@);
            assert(ps@[i as int].qty.valid());
        }
        match price {
            Some(pr) => {
                if in_sector {
                    let v = match dec_mul(p.qty, pr) {
                        None => {
                            proof {
                                lemma_market_value_none(ps@, prices@, sectors@, sv, i + 1);
                            }
                            return None;
                        },
                        Some(v) => v,
                    };
                    acc = match dec_add(acc, v) {
                        None => {
                            proof {
                                lemma_market_value_none(ps@, prices@, sectors@, sv, i + 1);
                            }
                            return None;
                        },
                        Some(a) => a,
                    };
                }
            },
            None => {},
        }
        i = i + 1;
    }
    assert(ps@.take(i as int) =~= ps@);
    Some(acc)
}

/// The total acquisition cost of the positions; `None` where the sum overflows.
pub fn sum_cost(ps: &Vec<PositionSummary>) -> (r: Option<Dec>)
    requires
        positions_valid(ps@),
    ensures
        r == total_cost(ps@),
        r matches Some(d) ==> d.valid(),
{
    let mut acc = Dec::zero();
    let mut i: usize = 0;
    while i < ps.len()
        invariant
            0 <= i <= ps@.len(),
            positions_valid(ps@),
            acc.valid(),
            total_cost(ps@.take(i as int)) == Some(acc),
        decreases ps.len() - i,
    {
        assert(ps@.take(i + 1).drop_last() =~= ps@.take(i as int));
        assert(ps@[i as int].cost_basis.valid());
        acc = match dec_add(acc, ps[i].cost_basis) {
            None => {
                proof {
                    lemma_total_cost_none(ps@, i + 1);
                }
                return None;
            },
            Some(a) => a,
        };
        i = i + 1;
    }
    assert(ps@.take(i as int) =~= ps@);
    Some(acc)
}

fn unpriced(ps: &Vec<PositionSummary>, prices: &Vec<PriceQuote>) -> (r: Vec<String>)
    ensures
        string_views(r@) == unpriced_symbols(ps@, prices@),
{
    let mut out: Vec<String> = Vec::new();
    let mut i: usize = 0;
    while i < ps.len()
        invariant
            0 <= i <= ps@.len(),
            string_views(out@) == unpriced_symbols(ps@.take(i as int), prices@),
        decreases ps.len() - i,
    {
        assert(ps@.take(i + 1).drop_last() =~= ps@.take(i as int));
        if find_price(prices, &ps[i].symbol).is_none() {
            let ghost before = out@;
            out.push(ps[i].symbol.clone());
            assert(string_views(out@) =~= string_views(before).push(ps@[i as int].symbol@));
        }
        i = i + 1;
    }
    assert(ps@.take(i as int) =~= ps@);
    out
}

/// Evaluates the three risk constraints for buying more of `inputs.symbol` and combines them:
/// the position-ratio limit (against the strategy's holding and investable amount), the
/// sector-ratio limit (against the account-wide market value of the target's sector, which
/// needs every held position priced) and the cash limit (the unused investable amount,
/// `amount + realized_pnl - cost`). The overall limit is unavailable if any constraint is,
/// else the strictest limited one, naming it as the binding constraint. `None` where the
/// decimal arithmetic overflows.
pub fn check_buyable_qty(inputs: &BuyableQtyInputs) -> (r: Option<CheckBuyableQtyResult>)
    requires
        inputs.valid(),
    ensures
        r is None <==> buyable_constraints(*inputs) is None,
        r matches Some(res) ==> {
            &&& buyable_constraints(*inputs) == Some(
                (
                    res.max_qty_by_position_ratio@,
                    res.max_qty_by_sector_ratio@,
                    res.max_qty_by_cash@,
                ),
            )
            &&& res.symbol@ == inputs.symbol@
            &&& res.lot_size == LOT_SIZE
            &&& res.current_qty == held_qty(inputs.strategy_positions@, inputs.symbol@)
            &&& res.current_price == price_of(inputs.prices@, inputs.symbol@)
            &&& res.priced_at == inputs.priced_at
            &&& lot_shaped(res.max_qty_by_position_ratio@)
            &&& lot_shaped(res.max_qty_by_sector_ratio@)
            &&& lot_shaped(res.max_qty_by_cash@)
            &&& lot_shaped(res.max_qty@)
            &&& (inputs.investable_amount matches Some(amount) ==> (total_cost(
                inputs.strategy_positions@,
            ) matches Some(cost) ==> (exact_unused(amount, inputs.strategy_realized_pnl, cost) matches Some(
                u,
            ) ==> Some(res.max_qty_by_cash@) == cash_spec(
                Some(u),
                price_of(inputs.prices@, inputs.symbol@),
                inputs.symbol@,
            ))))
            &&& res.max_qty@ == combined(
                named_constraints(buyable_constraints(*inputs).unwrap()),
            ).0
            &&& (res.binding_constraint matches Some(n) ==> combined(
                named_constraints(buyable_constraints(*inputs).unwrap()),
            ).1 == Some(n@))
            &&& (res.binding_constraint is None <==> combined(
                named_constraints(buyable_constraints(*inputs).unwrap()),
            ).1 is None)
        },
{
    let symbol = &inputs.symbol;
    let target_price = find_price(&inputs.prices, symbol);
    let current_qty = find_held_qty(&inputs.strategy_positions, symbol);
    let target_sector = find_sector(&inputs.sectors, symbol);
    proof {
        lemma_price_valid(inputs.prices@, symbol@);
        lemma_held_valid(inputs.strategy_positions@, symbol@);
    }
    let missing = unpriced(&inputs.account_positions, &inputs.prices);
    let total = match sum_market_value(
        &inputs.account_positions,
        &inputs.prices,
        &inputs.sectors,
        &None,
    ) {
        None => return None,
        Some(t) => t,
    };
    let sector_value = match &target_sector {
        Some(_) => match sum_market_value(
            &inputs.account_positions,
            &inputs.prices,
            &inputs.sectors,
            &target_sector,
        ) {
            None => return None,
            Some(v) => v,
        },
        None => Dec::zero(),
    };
    let position = match compute_position_ratio_constraint(
        inputs.max_position_ratio,
        target_price,
        current_qty,
        inputs.investable_amount,
        symbol.as_str(),
    ) {
        None => return None,
        Some(c) => c,
    };
    let sector_name: Option<&str> = match &target_sector {
        Some(s) => Some(s.as_str()),
        None => None,
    };
    let sector = match compute_sector_ratio_constraint(
        inputs.max_sector_ratio,
        target_price,
        sector_name,
        sector_value,
        total,
        missing.as_slice(),
        symbol.as_str(),
    ) {
        None => return None,
        Some(c) => c,
    };
    let cost = match sum_cost(&inputs.strategy_positions) {
        None => return None,
        Some(c) => c,
    };
    let unused: Option<Dec> = match inputs.investable_amount {
        None => None,
        Some(amount) => {
            let x = match dec_add(amount, inputs.strategy_realized_pnl) {
                None => return None,
                Some(x) => x,
            };
            match dec_sub(x, cost) {
                None => return None,
                Some(u) => Some(u),
            }
        },
    };
    let cash = match compute_cash_constraint(unused, target_price, symbol.as_str()) {
        None => return None,
        Some(c) => c,
    };
    let (max_qty, binding_constraint) = combine_constraints(
        [("position_ratio", &position), ("sector_ratio", &sector), ("cash", &cash)],
    );
    proof {
        let arr = [("position_ratio", &position), ("sector_ratio", &sector), ("cash", &cash)];
        let cs = named_constraints((position@, sector@, cash@));
        assert(named_views(arr@) =~= cs);
        assert forall|i: int| 0 <= i < cs.len() implies lot_shaped(#[trigger] cs[i].1) by {
            if i == 0 {
                assert(cs[i].1 == position@);
            } else if i == 1 {
                assert(cs[i].1 == sector@);
            } else {
                assert(cs[i].1 == cash@);
            }
        }
        law_combined_keeps_lots(cs);
    }
    Some(
        CheckBuyableQtyResult {
            symbol: symbol.clone(),
            lot_size: LOT_SIZE,
            current_qty,
            current_price: target_price,
            priced_at: inputs.priced_at,
            max_qty_by_position_ratio: position,
            max_qty_by_sector_ratio: sector,
            max_qty_by_cash: cash,
            max_qty,
            binding_constraint,
        },
    )
}

/// The strategy's unused investable amount, `amount + realized_pnl - cost_basis`: `Some(None)`
/// when no investable amount is recorded, `None` where the arithmetic overflows.
pub fn unused_investable_amount(investable_amount: Option<Dec>, realized_pnl: Dec, cost_basis: Dec) -> (r: Option<
    Option<Dec>,
>)
    requires
        investable_amount matches Some(a) ==> a.valid(),
        realized_pnl.valid(),
        cost_basis.valid(),
    ensures
        r == unused_amount(investable_amount, realized_pnl, cost_basis),
{
    match investable_amount {
        None => Some(None),
        Some(a) => match dec_add(a, realized_pnl) {
            None => None,
            Some(x) => match dec_sub(x, cost_basis) {
                None => None,
                Some(u) => Some(Some(u)),
            },
        },
    }
}

/// The valuation of a position at the latest price: the price, the market value
/// `qty * price` and the unrealized profit `market value - cost`, each none without a price.
#[derive(Debug, Clone, Copy, PartialEq, Eq, Structural)]
pub struct PositionValuation {
    pub current_price: Option<Dec>,
    pub market_value: Option<Dec>,
    pub unrealized_pnl: Option<Dec>,
}

/// The valuation of a position; `None` where the arithmetic overflows.
pub open spec fn valuation_of(p: PositionSummary, prices: Seq<PriceQuote>) -> Option<PositionValuation> {
    match price_of(prices, p.symbol@) {
        None => Some(PositionValuation { current_price: None, market_value: None, unrealized_pnl: None }),
        Some(price) => match decimal_product(p.qty, price) {
            None => None,
            Some(mv) => match decimal_difference(mv, p.cost_basis) {
                None => None,
                Some(u) => Some(
                    PositionValuation {
                        current_price: Some(price),
                        market_value: Some(mv),
                        unrealized_pnl: Some(u),
                    },
                ),
            },
        },
    }
}

/// Values a position at the latest price quoted for its symbol.
pub fn value_position(p: &PositionSummary, prices: &Vec<PriceQuote>) -> (r: Option<PositionValuation>)
    requires
        p.qty.valid(),
        p.cost_basis.valid(),
        forall|k: int| 0 <= k < prices@.len() ==> (#[trigger] prices@[k]).price.valid(),
    ensures
        r == valuation_of(*p, prices@),
{
    match find_price(prices, &p.symbol) {
        None => Some(PositionValuation { current_price: None, market_value: None, unrealized_pnl: None }),
        Some(price) => {
            proof {
                lemma_price_valid(prices@, p.symbol@);
            }
            match dec_mul(p.qty, price) {
                None => None,
                Some(mv) => match dec_sub(mv, p.cost_basis) {
                    None => None,
                    Some(u) => Some(
                        PositionValuation {
                            current_price: Some(price),
                            market_value: Some(mv),
                            unrealized_pnl: Some(u),
                        },
                    ),
                },
            }
        },
    }
}

/// The cash limit is what the unused investable amount buys, and that amount counts the
/// realized profit and loss: it is `amount + realized_pnl` (by `rust_decimal`'s addition)
/// less the positions' total cost; without an investable amount the limit is unavailable.
pub proof fn law_cash_limit_counts_realized_pnl(inp: BuyableQtyInputs)
    ensures
        buyable_constraints(inp) matches Some(c) ==> (total_cost(inp.strategy_positions@) matches Some(
            cost,
        ) && match inp.investable_amount {
            None => c.2 == ConstraintView::Unavailable(no_investable_amount_reason()),
            Some(a) => decimal_sum(a, inp.strategy_realized_pnl) matches Some(x) && decimal_difference(
                x,
                cost,
            ) matches Some(u) && cash_spec(Some(u), price_of(inp.prices@, inp.symbol@), inp.symbol@)
                == Some(c.2),
        }),
{
}

} // verus!
