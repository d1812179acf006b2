use bonding_curve::errors::BondingCurveError;
use bonding_curve::state::BondingCurve;
use bonding_curve::state::GRADUATION_THRESHOLD;
use bonding_curve::store::CurveStore;

const MINT: u64 = 42;
const CREATOR: u64 = 17;
const BUMP: u8 = 254;

#[test]
fn initialize_is_create_if_absent() {
    let mut store: CurveStore = CurveStore::new();
    assert!(!store.contains(MINT));
    assert_eq!(
        store.initialize_curve(MINT, CREATOR, BUMP, 10, 10, 5),
        Ok(())
    );
    assert!(store.contains(MINT));
    assert_eq!(
        store.initialize_curve(MINT, CREATOR, BUMP, 10, 10, 5),
        Err(BondingCurveError::AlreadyInitialized)
    );
}

#[test]
fn initialize_rejects_zero_virtual_reserves() {
    let mut store: CurveStore = CurveStore::new();
    assert_eq!(
        store.initialize_curve(MINT, CREATOR, BUMP, 0, 10, 5),
        Err(BondingCurveError::InvalidParameters)
    );
    assert_eq!(
        store.initialize_curve(MINT, CREATOR, BUMP, 10, 0, 5),
        Err(BondingCurveError::InvalidParameters)
    );
    assert!(!store.contains(MINT));
}

#[test]
fn first_buy_prices_along_the_curve() {
    // With 30 base coins of virtual base liquidity against the usual
    // launch-sized token side, one whole base coin buys what the
    // constant product dictates - about 6e13 token units, nothing
    // like a fixed thousandfold ratio.
    let mut store: CurveStore = CurveStore::new();
    store
        .initialize_curve(
            MINT,
            CREATOR,
            BUMP,
            30_000_000_000,
            1_073_000_000_000_000,
            793_100_000_000_000,
        )
        .unwrap();
    let tokens_out: u64 = store.buy(MINT, 1_000_000_000, 1).unwrap();
    assert_eq!(tokens_out, 60_196_774_193_549);
    let c: &BondingCurve = store.get_curve(MINT).unwrap();
    assert_eq!(c.real_base_reserves, 1_000_000_000);
    assert_eq!(c.real_token_reserves, 793_100_000_000_000 - 60_196_774_193_549);
    assert_eq!(c.tokens_sold, 60_196_774_193_549);
    assert!(!c.is_graduated);
}

#[test]
fn cumulative_buys_graduate_on_the_crossing_call() {
    // Token side sized so the threshold is reachable: the buy that
    // lifts the real base reserves from one below the threshold to
    // the threshold graduates the curve in that same call, and the
    // next buy is turned away.
    let mut store: CurveStore = CurveStore::new();
    store
        .initialize_curve(
            MINT,
            CREATOR,
            BUMP,
            30_000_000_000,
            1_000_000_000,
            1_000_000_000_000,
        )
        .unwrap();
    store.buy(MINT, GRADUATION_THRESHOLD - 1, 1).unwrap();
    {
        let c: &BondingCurve = store.get_curve(MINT).unwrap();
        assert_eq!(c.real_base_reserves, GRADUATION_THRESHOLD - 1);
        assert!(!c.is_graduated);
    }
    store.buy(MINT, 1, 1).unwrap();
    {
        let c: &BondingCurve = store.get_curve(MINT).unwrap();
        assert_eq!(c.real_base_reserves, GRADUATION_THRESHOLD);
        assert!(c.is_graduated);
    }
    assert_eq!(
        store.buy(MINT, 1, 0),
        Err(BondingCurveError::TokenGraduated)
    );
    assert_eq!(
        store.sell(MINT, 1, 0),
        Err(BondingCurveError::TokenGraduated)
    );
}

#[test]
fn one_buy_reaching_threshold_graduates() {
    let mut store: CurveStore = CurveStore::new();
    store
        .initialize_curve(
            MINT,
            CREATOR,
            BUMP,
            30_000_000_000,
            1_000_000_000,
            1_000_000_000_000,
        )
        .unwrap();
    store.buy(MINT, GRADUATION_THRESHOLD, 1).unwrap();
    assert!(store.get_curve(MINT).unwrap().is_graduated);
}

#[test]
fn buys_add_exactly_what_was_paid() {
    // Conservation over a session: after any run of successful buys
    // the real base reserves hold exactly the sum of the amounts
    // paid in.
    let mut store: CurveStore = CurveStore::new();
    store
        .initialize_curve(MINT, CREATOR, BUMP, 100, 100, 1000)
        .unwrap();
    let amounts: [u64; 3] = [7, 11, 5];
    let mut total: u64 = 0;
    for a in amounts {
        store.buy(MINT, a, 0).unwrap();
        total += a;
    }
    assert_eq!(store.get_curve(MINT).unwrap().real_base_reserves, total);
    assert_eq!(total, 23);
}

#[test]
fn failed_trade_leaves_the_ledger_unchanged() {
    let mut store: CurveStore = CurveStore::new();
    store
        .initialize_curve(MINT, CREATOR, BUMP, 10, 10, 5)
        .unwrap();
    let before: BondingCurve = *store.get_curve(MINT).unwrap();
    assert_eq!(
        store.buy(MINT, 5, u64::MAX),
        Err(BondingCurveError::SlippageExceeded)
    );
    assert_eq!(*store.get_curve(MINT).unwrap(), before);
}

#[test]
fn independent_tokens_have_independent_curves() {
    let other: u64 = 43;
    let mut store: CurveStore = CurveStore::new();
    store
        .initialize_curve(MINT, CREATOR, BUMP, 10, 10, 5)
        .unwrap();
    store
        .initialize_curve(other, CREATOR, BUMP, 100, 100, 1000)
        .unwrap();
    store.buy(MINT, 5, 0).unwrap();
    assert_eq!(store.get_curve(MINT).unwrap().real_base_reserves, 5);
    assert_eq!(store.get_curve(other).unwrap().real_base_reserves, 0);
    assert_eq!(store.get_curve(other).unwrap().token_identity, other);
}
