use backend::decimal::Dec;
use backend::risk::{
    additional_qty_from_headroom, combine_constraints, compute_cash_constraint,
    compute_position_ratio_constraint, compute_sector_ratio_constraint, floor_to_lot,
    ConstraintResult,
};
use rust_decimal::Decimal;

fn dec(d: Decimal) -> Dec {
    Dec { mantissa: d.mantissa(), scale: d.scale() }
}

fn whole(v: i64) -> Dec {
    dec(Decimal::from(v))
}

fn limited(q: i64) -> ConstraintResult {
    ConstraintResult::Limited { max_additional_qty: q }
}

fn unavailable(reason: &str) -> ConstraintResult {
    ConstraintResult::Unavailable { reason: reason.to_string() }
}

#[test]
fn additional_qty_from_headroom_negative_headroom() {
    assert_eq!(additional_qty_from_headroom(whole(-1), whole(1000)), Some(0));
}

#[test]
fn additional_qty_from_headroom_zero_headroom() {
    assert_eq!(additional_qty_from_headroom(whole(0), whole(1000)), Some(0));
}

#[test]
fn additional_qty_from_headroom_zero_price() {
    assert_eq!(additional_qty_from_headroom(whole(1000), whole(0)), Some(0));
}

#[test]
fn additional_qty_from_headroom_exact_lot_multiple() {
    assert_eq!(additional_qty_from_headroom(whole(200_000), whole(1000)), Some(200));
}

#[test]
fn additional_qty_from_headroom_floors_partial_lot() {
    assert_eq!(additional_qty_from_headroom(whole(150_499), whole(1000)), Some(100));
}

#[test]
fn position_ratio_no_ratio_is_unlimited() {
    let r = compute_position_ratio_constraint(None, Some(whole(1000)), whole(0), Some(whole(1_000_000)), "7203");
    assert_eq!(r, Some(ConstraintResult::Unlimited));
}

#[test]
fn position_ratio_missing_price_is_unavailable() {
    let r = compute_position_ratio_constraint(
        Some(dec(Decimal::new(2, 1))),
        None,
        whole(0),
        Some(whole(1_000_000)),
        "7203",
    );
    assert_eq!(r, Some(unavailable("price unavailable for 7203")));
}

#[test]
fn position_ratio_missing_investable_amount_is_unavailable() {
    let r = compute_position_ratio_constraint(Some(dec(Decimal::new(2, 1))), Some(whole(1000)), whole(0), None, "7203");
    assert_eq!(r, Some(unavailable("no investable amount recorded for this strategy")));
}

#[test]
fn position_ratio_computes_headroom_over_investable_amount() {
    let r = compute_position_ratio_constraint(
        Some(dec(Decimal::new(2, 1))),
        Some(whole(1000)),
        whole(0),
        Some(whole(1_000_000)),
        "7203",
    );
    assert_eq!(r, Some(limited(200)));
}

#[test]
fn position_ratio_subtracts_current_position_value() {
    let r = compute_position_ratio_constraint(
        Some(dec(Decimal::new(2, 1))),
        Some(whole(1000)),
        whole(100),
        Some(whole(1_000_000)),
        "7203",
    );
    assert_eq!(r, Some(limited(100)));
}

#[test]
fn sector_ratio_no_ratio_is_unlimited() {
    let r = compute_sector_ratio_constraint(None, Some(whole(1000)), Some("transport"), whole(0), whole(0), &[], "7203");
    assert_eq!(r, Some(ConstraintResult::Unlimited));
}

#[test]
fn sector_ratio_no_sector_is_unavailable() {
    let r = compute_sector_ratio_constraint(
        Some(dec(Decimal::new(2, 1))),
        Some(whole(1000)),
        None,
        whole(0),
        whole(0),
        &[],
        "7203",
    );
    assert_eq!(r, Some(unavailable("7203 has no sector assigned")));
}

#[test]
fn sector_ratio_missing_price_is_unavailable() {
    let r = compute_sector_ratio_constraint(
        Some(dec(Decimal::new(2, 1))),
        None,
        Some("transport"),
        whole(0),
        whole(0),
        &[],
        "7203",
    );
    assert_eq!(r, Some(unavailable("price unavailable for 7203")));
}

#[test]
fn sector_ratio_ratio_one_is_unlimited() {
    let r = compute_sector_ratio_constraint(
        Some(dec(Decimal::ONE)),
        Some(whole(1000)),
        Some("transport"),
        whole(500_000),
        whole(1_000_000),
        &[],
        "7203",
    );
    assert_eq!(r, Some(ConstraintResult::Unlimited));
}

#[test]
fn compute_sector_ratio_constraint_solves_for_max_additional_qty() {
    let result = compute_sector_ratio_constraint(
        Some(dec(Decimal::new(8, 1))),
        Some(whole(1000)),
        Some("transport"),
        whole(200_000),
        whole(300_000),
        &[],
        "7203",
    );
    assert_eq!(result, Some(limited(200)));
}

#[test]
fn sector_ratio_missing_price_symbols_is_unavailable() {
    let r = compute_sector_ratio_constraint(
        Some(dec(Decimal::new(2, 1))),
        Some(whole(1000)),
        Some("transport"),
        whole(0),
        whole(0),
        &["6758".to_string()],
        "7203",
    );
    assert_eq!(
        r,
        Some(unavailable(
            "missing price for held position(s), account-wide total is unreliable: 6758"
        ))
    );
}

#[test]
fn cash_missing_investable_amount_is_unavailable() {
    assert_eq!(
        compute_cash_constraint(None, Some(whole(1000)), "7203"),
        Some(unavailable("no investable amount recorded for this strategy"))
    );
}

#[test]
fn cash_missing_price_is_unavailable() {
    assert_eq!(
        compute_cash_constraint(Some(whole(1_000_000)), None, "7203"),
        Some(unavailable("price unavailable for 7203"))
    );
}

#[test]
fn cash_computes_from_unused_amount() {
    assert_eq!(compute_cash_constraint(Some(whole(1_000_000)), Some(whole(1000)), "7203"), Some(limited(1000)));
}

#[test]
fn cash_negative_unused_amount_floors_to_zero() {
    assert_eq!(compute_cash_constraint(Some(whole(-1)), Some(whole(1000)), "7203"), Some(limited(0)));
}

fn combine(a: ConstraintResult, b: ConstraintResult, c: ConstraintResult) -> (ConstraintResult, Option<String>) {
    combine_constraints([("position_ratio", &a), ("sector_ratio", &b), ("cash", &c)])
}

#[test]
fn combine_all_unlimited_is_unlimited() {
    let r = combine(ConstraintResult::Unlimited, ConstraintResult::Unlimited, ConstraintResult::Unlimited);
    assert_eq!(r, (ConstraintResult::Unlimited, None));
}

#[test]
fn combine_any_unavailable_poisons_overall() {
    let r = combine(limited(100), unavailable("x"), limited(50));
    assert_eq!(r, (unavailable("sector_ratio: x"), None));
}

#[test]
fn combine_picks_minimum_limited() {
    let r = combine(limited(1500), limited(1000), limited(1800));
    assert_eq!(r, (limited(1000), Some("sector_ratio".to_string())));
}

#[test]
fn combine_ties_prefer_earlier_constraint() {
    let r = combine(limited(1000), ConstraintResult::Unlimited, limited(1000));
    assert_eq!(r, (limited(1000), Some("position_ratio".to_string())));
}

#[test]
fn combine_limit_is_the_strictest_law_example() {
    let r = combine(limited(700), limited(300), ConstraintResult::Unlimited);
    assert_eq!(r.0, limited(300));
    assert_eq!(r.1, Some("sector_ratio".to_string()));
}

#[test]
fn floor_to_lot_rounds_down_to_whole_lots() {
    assert_eq!(floor_to_lot(0), 0);
    assert_eq!(floor_to_lot(199), 100);
    assert_eq!(floor_to_lot(200), 200);
    assert_eq!(floor_to_lot(-150), -100);
}

use backend::buyable::{
    check_buyable_qty, unused_investable_amount, value_position, BuyableQtyInputs, PositionSummary,
    PriceQuote, StockSector,
};

fn position(symbol: &str, qty: i64, cost: i64) -> PositionSummary {
    PositionSummary { symbol: symbol.to_string(), qty: whole(qty), cost_basis: whole(cost) }
}

fn quote(symbol: &str, price: i64) -> PriceQuote {
    PriceQuote { symbol: symbol.to_string(), price: whole(price) }
}

fn sector(symbol: &str, sector_id: Option<&str>) -> StockSector {
    StockSector { symbol: symbol.to_string(), sector_id: sector_id.map(str::to_string) }
}

#[test]
fn sector_ratio_binds_across_strategies() {
    let inputs = BuyableQtyInputs {
        symbol: "7203".to_string(),
        account_positions: vec![position("7203", 100, 100_000), position("7267", 200, 100_000), position("6758", 50, 100_000)],
        strategy_positions: vec![position("7203", 100, 100_000)],
        strategy_realized_pnl: whole(0),
        prices: vec![quote("7203", 1000), quote("7267", 500), quote("6758", 2000)],
        priced_at: Some(739_617),
        sectors: vec![sector("7203", Some("transport")), sector("7267", Some("transport")), sector("6758", Some("tech"))],
        max_position_ratio: None,
        max_sector_ratio: Some(dec(Decimal::new(8, 1))),
        investable_amount: Some(whole(100_000_000)),
    };
    let r = check_buyable_qty(&inputs).expect("no overflow");
    assert_eq!(r.symbol, "7203");
    assert_eq!(r.lot_size, 100);
    assert_eq!(Decimal::from_i128_with_scale(r.current_qty.mantissa, r.current_qty.scale), Decimal::from(100));
    let price = r.current_price.expect("priced");
    assert_eq!(Decimal::from_i128_with_scale(price.mantissa, price.scale), Decimal::from(1000));
    assert_eq!(r.priced_at, Some(739_617));
    assert_eq!(r.max_qty_by_position_ratio, ConstraintResult::Unlimited);
    assert_eq!(r.max_qty_by_sector_ratio, limited(200));
    assert_eq!(r.max_qty_by_cash, limited(99_900));
    assert_eq!(r.max_qty, limited(200));
    assert_eq!(r.binding_constraint, Some("sector_ratio".to_string()));
}

#[test]
fn position_ratio_binds_under_the_default_ratio() {
    let inputs = BuyableQtyInputs {
        symbol: "7203".to_string(),
        account_positions: vec![],
        strategy_positions: vec![],
        strategy_realized_pnl: whole(0),
        prices: vec![quote("7203", 1000)],
        priced_at: Some(739_617),
        sectors: vec![],
        max_position_ratio: Some(dec(Decimal::new(2, 1))),
        max_sector_ratio: None,
        investable_amount: Some(whole(1_000_000)),
    };
    let r = check_buyable_qty(&inputs).expect("no overflow");
    assert_eq!(r.max_qty_by_position_ratio, limited(200));
    assert_eq!(r.max_qty_by_sector_ratio, ConstraintResult::Unlimited);
    assert_eq!(r.max_qty_by_cash, limited(1000));
    assert_eq!(r.max_qty, limited(200));
    assert_eq!(r.binding_constraint, Some("position_ratio".to_string()));
}

#[test]
fn all_constraints_become_unavailable_when_target_price_is_missing() {
    let inputs = BuyableQtyInputs {
        symbol: "7203".to_string(),
        account_positions: vec![],
        strategy_positions: vec![],
        strategy_realized_pnl: whole(0),
        prices: vec![],
        priced_at: None,
        sectors: vec![],
        max_position_ratio: Some(dec(Decimal::new(2, 1))),
        max_sector_ratio: Some(dec(Decimal::new(2, 1))),
        investable_amount: Some(whole(1_000_000)),
    };
    let r = check_buyable_qty(&inputs).expect("no overflow");
    assert_eq!(r.current_price, None);
    assert_eq!(r.max_qty_by_position_ratio, unavailable("price unavailable for 7203"));
    assert_eq!(r.max_qty_by_sector_ratio, unavailable("7203 has no sector assigned"));
    assert_eq!(r.max_qty_by_cash, unavailable("price unavailable for 7203"));
    assert_eq!(r.max_qty, unavailable("position_ratio: price unavailable for 7203"));
    assert_eq!(r.binding_constraint, None);
}

#[test]
fn sector_ratio_is_unavailable_when_a_held_position_price_is_missing() {
    let inputs = BuyableQtyInputs {
        symbol: "7203".to_string(),
        account_positions: vec![position("7203", 100, 100_000), position("9999", 10, 1000)],
        strategy_positions: vec![position("7203", 100, 100_000), position("9999", 10, 1000)],
        strategy_realized_pnl: whole(0),
        prices: vec![quote("7203", 1000)],
        priced_at: Some(739_617),
        sectors: vec![sector("7203", Some("transport")), sector("9999", Some("tech"))],
        max_position_ratio: None,
        max_sector_ratio: Some(dec(Decimal::new(2, 1))),
        investable_amount: Some(whole(1_000_000)),
    };
    let r = check_buyable_qty(&inputs).expect("no overflow");
    assert_eq!(
        r.max_qty_by_sector_ratio,
        unavailable("missing price for held position(s), account-wide total is unreliable: 9999")
    );
    assert_eq!(r.max_qty_by_cash, limited(800));
    assert_eq!(
        r.max_qty,
        unavailable("sector_ratio: missing price for held position(s), account-wide total is unreliable: 9999")
    );
}

#[test]
fn unused_investable_amount_adds_profit_and_subtracts_cost() {
    let r = unused_investable_amount(Some(whole(1_000_000)), whole(5_000), whole(200_000)).expect("no overflow");
    let v = r.expect("amount recorded");
    assert_eq!(Decimal::from_i128_with_scale(v.mantissa, v.scale), Decimal::from(805_000));
    assert_eq!(unused_investable_amount(None, whole(5_000), whole(200_000)), Some(None));
}

#[test]
fn value_position_at_latest_price() {
    let p = position("7203", 100, 90_000);
    let v = value_position(&p, &vec![quote("7203", 1000)]).expect("no overflow");
    let mv = v.market_value.expect("priced");
    let pnl = v.unrealized_pnl.expect("priced");
    assert_eq!(Decimal::from_i128_with_scale(mv.mantissa, mv.scale), Decimal::from(100_000));
    assert_eq!(Decimal::from_i128_with_scale(pnl.mantissa, pnl.scale), Decimal::from(10_000));
    let unpriced = value_position(&p, &vec![]).expect("no overflow");
    assert_eq!(unpriced.current_price, None);
    assert_eq!(unpriced.market_value, None);
}
