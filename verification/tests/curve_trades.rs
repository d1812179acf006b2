use bonding_curve::errors::BondingCurveError;
use bonding_curve::state::BondingCurve;
use bonding_curve::state::GRADUATION_THRESHOLD;

fn small_curve() -> BondingCurve {
    BondingCurve::new(7, 9, 255, 10, 10, 5).unwrap()
}

#[test]
fn new_curve_starts_empty_and_ungraduated() {
    let c: BondingCurve = BondingCurve::new(7, 9, 255, 10, 20, 5).unwrap();
    assert_eq!(c.token_identity, 7);
    assert_eq!(c.creator_identity, 9);
    assert_eq!(c.access_proof, 255);
    assert_eq!(c.virtual_base_reserves, 10);
    assert_eq!(c.virtual_token_reserves, 20);
    assert_eq!(c.real_base_reserves, 0);
    assert_eq!(c.real_token_reserves, 5);
    assert_eq!(c.tokens_sold, 0);
    assert!(!c.is_graduated);
    assert_eq!(c.graduation_threshold, GRADUATION_THRESHOLD);
    assert_eq!(c.total_fees_collected, 0);
    assert_eq!(c.creator_fees_pending, 0);
}

#[test]
fn zero_virtual_base_reserves_rejected() {
    assert_eq!(
        BondingCurve::new(1, 2, 3, 0, 10, 5),
        Err(BondingCurveError::InvalidParameters)
    );
}

#[test]
fn zero_virtual_token_reserves_rejected() {
    assert_eq!(
        BondingCurve::new(1, 2, 3, 10, 0, 5),
        Err(BondingCurveError::InvalidParameters)
    );
}

#[test]
fn buy_follows_constant_product_formula() {
    // base total 10, token total 15, k = 150; paying 5 lifts the base
    // total to 15, so the token total drops to 150 / 15 = 10 and the
    // 5-token difference goes to the trader.
    let mut c: BondingCurve = small_curve();
    let out: u64 = c.buy(5, 0).unwrap();
    assert_eq!(out, 5);
    assert_eq!(c.real_base_reserves, 5);
    assert_eq!(c.real_token_reserves, 0);
    assert_eq!(c.tokens_sold, 5);
    assert!(!c.is_graduated);
}

#[test]
fn buy_of_zero_rejected() {
    let mut c: BondingCurve = small_curve();
    let before: BondingCurve = c;
    assert_eq!(c.buy(0, 0), Err(BondingCurveError::InvalidAmount));
    assert_eq!(c, before);
}

#[test]
fn sell_of_zero_rejected() {
    let mut c: BondingCurve = small_curve();
    let before: BondingCurve = c;
    assert_eq!(c.sell(0, 0), Err(BondingCurveError::InvalidAmount));
    assert_eq!(c, before);
}

#[test]
fn slippage_bound_enforced_exactly() {
    // The formula yields 5 tokens for this buy: a bound of 6 fails,
    // a bound of 5 succeeds with exactly 5, and the failed attempt
    // leaves the curve untouched.
    let mut c: BondingCurve = small_curve();
    let before: BondingCurve = c;
    assert_eq!(c.buy(5, 6), Err(BondingCurveError::SlippageExceeded));
    assert_eq!(c, before);
    assert_eq!(c.buy(5, 5), Ok(5));
}

#[test]
fn sell_slippage_bound_enforced() {
    let mut c: BondingCurve = small_curve();
    let bought: u64 = c.buy(5, 0).unwrap();
    let before: BondingCurve = c;
    assert_eq!(
        c.sell(bought, u64::MAX),
        Err(BondingCurveError::SlippageExceeded)
    );
    assert_eq!(c, before);
}

#[test]
fn round_trip_returns_no_more_than_paid() {
    // k divides evenly here, so the buy of 5 base units and the sell
    // of the 5 tokens received cancel exactly; the trader never nets
    // a gain.
    let mut c: BondingCurve = small_curve();
    let paid: u64 = 5;
    let tokens: u64 = c.buy(paid, 0).unwrap();
    let refunded: u64 = c.sell(tokens, 0).unwrap();
    assert!(refunded <= paid);
    assert_eq!(refunded, 5);
    assert_eq!(c.real_base_reserves, 0);
    assert_eq!(c.real_token_reserves, 5);
    assert_eq!(c.tokens_sold, 0);
}

#[test]
fn buy_that_would_drain_reserves_fails() {
    // The formula asks for 6 tokens but the curve really holds 1:
    // a fatal inconsistency, reported, never clamped.
    let mut c: BondingCurve = BondingCurve::new(1, 2, 3, 10, 10, 1).unwrap();
    let before: BondingCurve = c;
    assert_eq!(c.buy(10, 0), Err(BondingCurveError::InsufficientReserves));
    assert_eq!(c, before);
}

#[test]
fn sell_that_would_drain_base_fails() {
    // Selling tokens into a curve that has taken in no base currency
    // cannot pay out.
    let mut c: BondingCurve = BondingCurve::new(1, 2, 3, 10, 10, 100).unwrap();
    let before: BondingCurve = c;
    assert_eq!(c.sell(50, 0), Err(BondingCurveError::InsufficientReserves));
    assert_eq!(c, before);
}

#[test]
fn token_total_overflow_reported() {
    let mut c: BondingCurve = BondingCurve::new(1, 2, 3, 10, u64::MAX, 1).unwrap();
    let before: BondingCurve = c;
    assert_eq!(c.buy(10, 0), Err(BondingCurveError::ArithmeticOverflow));
    assert_eq!(c, before);
}

#[test]
fn base_total_overflow_reported() {
    let mut c: BondingCurve = small_curve();
    let before: BondingCurve = c;
    assert_eq!(c.buy(u64::MAX, 0), Err(BondingCurveError::ArithmeticOverflow));
    assert_eq!(c, before);
}

#[test]
fn sell_token_total_overflow_reported() {
    let mut c: BondingCurve = BondingCurve::new(1, 2, 3, 10, u64::MAX, 0).unwrap();
    let before: BondingCurve = c;
    assert_eq!(c.sell(1, 0), Err(BondingCurveError::ArithmeticOverflow));
    assert_eq!(c, before);
}

#[test]
fn tokens_sold_clamps_at_zero() {
    // A seller brings more tokens than this curve ever distributed;
    // the payout is covered, and the cumulative counter clamps at
    // zero instead of wrapping.
    let mut c: BondingCurve = BondingCurve {
        token_identity: 1,
        creator_identity: 2,
        virtual_base_reserves: 1000,
        virtual_token_reserves: 1000,
        real_base_reserves: 1000,
        real_token_reserves: 1000,
        tokens_sold: 5,
        is_graduated: false,
        graduation_threshold: GRADUATION_THRESHOLD,
        total_fees_collected: 0,
        creator_fees_pending: 0,
        access_proof: 4,
    };
    let out: u64 = c.sell(50, 0).unwrap();
    assert_eq!(out, 49);
    assert_eq!(c.tokens_sold, 0);
    assert_eq!(c.real_token_reserves, 1050);
    assert_eq!(c.real_base_reserves, 951);
}

#[test]
fn graduated_curve_rejects_buy_and_sell() {
    let mut c: BondingCurve = small_curve();
    c.is_graduated = true;
    let before: BondingCurve = c;
    assert_eq!(c.buy(5, 0), Err(BondingCurveError::TokenGraduated));
    assert_eq!(c.sell(5, 0), Err(BondingCurveError::TokenGraduated));
    assert_eq!(c, before);
}

#[test]
fn trades_leave_configuration_unchanged() {
    let mut c: BondingCurve = small_curve();
    c.buy(5, 0).unwrap();
    c.sell(5, 0).unwrap();
    assert_eq!(c.token_identity, 7);
    assert_eq!(c.creator_identity, 9);
    assert_eq!(c.virtual_base_reserves, 10);
    assert_eq!(c.virtual_token_reserves, 10);
    assert_eq!(c.graduation_threshold, GRADUATION_THRESHOLD);
    assert_eq!(c.access_proof, 255);
}

#[test]
fn current_protocol_rate_collects_no_fees() {
    let mut c: BondingCurve = small_curve();
    c.buy(5, 0).unwrap();
    c.sell(5, 0).unwrap();
    assert_eq!(c.total_fees_collected, 0);
    assert_eq!(c.creator_fees_pending, 0);
}
