use vstd::prelude::*;

use crate::errors::BondingCurveError;
use crate::pricing::base_total;
use crate::pricing::buy_fits;
use crate::pricing::buy_gross_out;
use crate::pricing::buy_net_out;
use crate::pricing::constant_product;
use crate::pricing::token_total;
use crate::state::BondingCurve;
use crate::pricing::sell_fits;
use crate::pricing::sell_gross_out;
use crate::pricing::sell_net_out;
use crate::trade::buy_counters_fit;
use crate::trade::buy_outcome;
use crate::trade::curve_after_buy;
use crate::trade::curve_after_sell;
use crate::trade::sell_counters_fit;
use crate::trade::sell_outcome;
use vstd::arithmetic::div_mod::lemma_div_multiples_vanish;
use vstd::arithmetic::div_mod::lemma_fundamental_div_mod;
use vstd::arithmetic::mul::lemma_mul_is_commutative;

verus! {

/// One attempted trade against a curve: a buy or a sell, each with
/// its amount and its slippage bound.
pub enum CurveOp {
    Buy(u64, u64),
    Sell(u64, u64),
}

/// The record after one attempted trade: the new state when the
/// trade succeeds, the old record untouched when it fails.
pub open spec fn step(c: BondingCurve, op: CurveOp) -> BondingCurve {
    match op {
        CurveOp::Buy(base_amount_in, min_tokens_out) => match buy_outcome(
            c,
            base_amount_in,
            min_tokens_out,
        ) {
            Ok(p) => p.0,
            Err(_) => c,
        },
        CurveOp::Sell(token_amount_in, min_base_out) => match sell_outcome(
            c,
            token_amount_in,
            min_base_out,
        ) {
            Ok(p) => p.0,
            Err(_) => c,
        },
    }
}

/// The record after a whole sequence of attempted trades, first to
/// last.
pub open spec fn run(c: BondingCurve, ops: Seq<CurveOp>) -> BondingCurve
    decreases ops.len(),
{
    if ops.len() == 0 {
        c
    } else {
        run(step(c, ops[0]), ops.drop_first())
    }
}

/// One attempted trade keeps the curve record well formed.
pub proof fn lemma_step_preserves_wf(c: BondingCurve, op: CurveOp)
    requires
        c.wf(),
    ensures
        step(c, op).wf(),
{
}

/// Any sequence of attempted trades keeps the curve record well
/// formed: the reserves of a curve that started well formed can
/// never be driven out of range.
pub proof fn lemma_run_preserves_wf(c: BondingCurve, ops: Seq<CurveOp>)
    requires
        c.wf(),
    ensures
        run(c, ops).wf(),
    decreases ops.len(),
{
    if ops.len() > 0 {
        lemma_step_preserves_wf(c, ops[0]);
        lemma_run_preserves_wf(step(c, ops[0]), ops.drop_first());
    }
}

/// `is_graduated` is an honest witness: it is set only when the real
/// base reserves have reached the graduation threshold.
pub open spec fn graduation_consistent(c: BondingCurve) -> bool {
    c.is_graduated ==> c.real_base_reserves >= c.graduation_threshold
}

/// A freshly initialized curve is ungraduated, and every trade keeps
/// the graduation flag consistent with the reserves: a buy sets it
/// exactly at the threshold, and a graduated curve — whose reserves
/// could only fall through a sell — no longer trades at all.
pub proof fn lemma_graduation_consistent_preserved(c: BondingCurve, ops: Seq<CurveOp>)
    requires
        graduation_consistent(c),
    ensures
        graduation_consistent(run(c, ops)),
    decreases ops.len(),
{
    if ops.len() > 0 {
        lemma_graduation_consistent_preserved(step(c, ops[0]), ops.drop_first());
    }
}

/// A graduated curve rejects every buy and every sell with
/// `TokenGraduated`.
pub proof fn lemma_graduated_rejects_trades(c: BondingCurve)
    requires
        c.is_graduated,
    ensures
        forall|a: u64, m: u64|
            #[trigger] buy_outcome(c, a, m) == Err::<(BondingCurve, u64), BondingCurveError>(
                BondingCurveError::TokenGraduated,
            ),
        forall|a: u64, m: u64|
            #[trigger] sell_outcome(c, a, m) == Err::<(BondingCurve, u64), BondingCurveError>(
                BondingCurveError::TokenGraduated,
            ),
{
}

/// Graduation is terminal: once a curve has graduated, no sequence
/// of further buys and sells changes its record at all — every one
/// of them is rejected — so `is_graduated` can never revert.
pub proof fn lemma_graduation_is_terminal(c: BondingCurve, ops: Seq<CurveOp>)
    requires
        c.is_graduated,
    ensures
        run(c, ops) == c,
    decreases ops.len(),
{
    if ops.len() > 0 {
        assert(step(c, ops[0]) == c);
        lemma_graduation_is_terminal(c, ops.drop_first());
    }
}

/// Graduation is monotone across any sequence of attempted trades:
/// a trade may set `is_graduated`, none may clear it.
pub proof fn lemma_graduation_monotonic(c: BondingCurve, ops: Seq<CurveOp>)
    ensures
        c.is_graduated ==> run(c, ops).is_graduated,
{
    if c.is_graduated {
        lemma_graduation_is_terminal(c, ops);
    }
}

/// A successful buy adds exactly the paid amount to the real base
/// reserves: nothing is skimmed and nothing is lost.
pub proof fn lemma_buy_conservation(c: BondingCurve, base_amount_in: u64, min_tokens_out: u64)
    requires
        buy_outcome(c, base_amount_in, min_tokens_out) is Ok,
    ensures
        buy_outcome(c, base_amount_in, min_tokens_out)->Ok_0.0.real_base_reserves
            == c.real_base_reserves + base_amount_in,
{
}

/// The buys of one trading session, each an amount paid in and a
/// slippage bound.
pub open spec fn run_buys(c: BondingCurve, buys: Seq<(u64, u64)>) -> Option<BondingCurve>
    decreases buys.len(),
{
    if buys.len() == 0 {
        Some(c)
    } else {
        match buy_outcome(c, buys[0].0, buys[0].1) {
            Ok(p) => run_buys(p.0, buys.drop_first()),
            Err(_) => None,
        }
    }
}

/// The total base currency a sequence of buys pays in.
pub open spec fn total_base_in(buys: Seq<(u64, u64)>) -> int
    decreases buys.len(),
{
    if buys.len() == 0 {
        0
    } else {
        buys[0].0 + total_base_in(buys.drop_first())
    }
}

/// Conservation over whole sessions: a sequence of successful buys
/// grows the real base reserves by exactly the sum of the amounts
/// paid in.
pub proof fn lemma_buy_sequence_conservation(c: BondingCurve, buys: Seq<(u64, u64)>)
    requires
        run_buys(c, buys) is Some,
    ensures
        run_buys(c, buys)->0.real_base_reserves == c.real_base_reserves + total_base_in(buys),
    decreases buys.len(),
{
    if buys.len() > 0 {
        let after_first = buy_outcome(c, buys[0].0, buys[0].1)->Ok_0.0;
        lemma_buy_conservation(c, buys[0].0, buys[0].1);
        lemma_buy_sequence_conservation(after_first, buys.drop_first());
    }
}

/// Tokens are conserved by a buy: what leaves the curve's real token
/// reserve is exactly what is credited to `tokens_sold`.
pub proof fn lemma_buy_token_conservation(c: BondingCurve, base_amount_in: u64, min_tokens_out: u64)
    requires
        buy_outcome(c, base_amount_in, min_tokens_out) is Ok,
    ensures
        buy_outcome(c, base_amount_in, min_tokens_out)->Ok_0.0.real_token_reserves + buy_outcome(
            c,
            base_amount_in,
            min_tokens_out,
        )->Ok_0.0.tokens_sold == c.real_token_reserves + c.tokens_sold,
{
}

/// Tokens are conserved by a sell as long as `tokens_sold` does not
/// clamp: what re-enters the real token reserve is exactly what is
/// debited from `tokens_sold`. (A sell of more tokens than the curve
/// ever distributed clamps `tokens_sold` at zero instead.)
pub proof fn lemma_sell_token_conservation(
    c: BondingCurve,
    token_amount_in: u64,
    min_base_out: u64,
)
    requires
        sell_outcome(c, token_amount_in, min_base_out) is Ok,
        c.tokens_sold >= token_amount_in,
    ensures
        sell_outcome(c, token_amount_in, min_base_out)->Ok_0.0.real_token_reserves + sell_outcome(
            c,
            token_amount_in,
            min_base_out,
        )->Ok_0.0.tokens_sold == c.real_token_reserves + c.tokens_sold,
{
}

/// The curve's configuration never changes: identities, virtual
/// reserves, the graduation threshold and the access proof are the
/// same after any sequence of attempted trades.
pub proof fn lemma_configuration_immutable(c: BondingCurve, ops: Seq<CurveOp>)
    ensures
        run(c, ops).token_identity == c.token_identity,
        run(c, ops).creator_identity == c.creator_identity,
        run(c, ops).virtual_base_reserves == c.virtual_base_reserves,
        run(c, ops).virtual_token_reserves == c.virtual_token_reserves,
        run(c, ops).graduation_threshold == c.graduation_threshold,
        run(c, ops).access_proof == c.access_proof,
    decreases ops.len(),
{
    if ops.len() > 0 {
        lemma_configuration_immutable(step(c, ops[0]), ops.drop_first());
    }
}

/// A buy graduates the curve exactly when it lifts the real base
/// reserves to the threshold: a buy from below that reaches it sets
/// `is_graduated` in that same call, and one that stays below leaves
/// the curve ungraduated.
pub proof fn lemma_threshold_crossing(c: BondingCurve, base_amount_in: u64, min_tokens_out: u64)
    requires
        buy_outcome(c, base_amount_in, min_tokens_out) is Ok,
    ensures
        buy_outcome(c, base_amount_in, min_tokens_out)->Ok_0.0.is_graduated <==> (
        c.real_base_reserves + base_amount_in >= c.graduation_threshold),
{
}

/// Slippage is enforced exactly: on an otherwise tradable curve, a
/// buy fails with `SlippageExceeded` precisely when the net output
/// falls short of the caller's bound, and otherwise — reserves and
/// counters permitting — succeeds and returns that very output.
pub proof fn lemma_slippage_enforced(c: BondingCurve, base_amount_in: u64, min_tokens_out: u64)
    requires
        !c.is_graduated,
        base_amount_in > 0,
        buy_fits(c, base_amount_in as int),
    ensures
        buy_net_out(c, base_amount_in as int) < min_tokens_out ==> buy_outcome(
            c,
            base_amount_in,
            min_tokens_out,
        ) == Err::<(BondingCurve, u64), BondingCurveError>(BondingCurveError::SlippageExceeded),
        buy_net_out(c, base_amount_in as int) >= min_tokens_out && buy_gross_out(
            c,
            base_amount_in as int,
        ) <= c.real_token_reserves && buy_counters_fit(c, base_amount_in as int) ==> buy_outcome(
            c,
            base_amount_in,
            min_tokens_out,
        ) == Ok::<(BondingCurve, u64), BondingCurveError>(
            (curve_after_buy(c, base_amount_in), buy_net_out(c, base_amount_in as int) as u64),
        ),
{
}

/// The mirror of the buy-side slippage guarantee: on an otherwise
/// tradable curve, a sell fails with `SlippageExceeded` precisely
/// when the net base output falls short of the caller's bound, and
/// otherwise — reserves and counters permitting — succeeds and
/// returns that very output.
pub proof fn lemma_sell_slippage_enforced(c: BondingCurve, token_amount_in: u64, min_base_out: u64)
    requires
        !c.is_graduated,
        token_amount_in > 0,
        sell_fits(c, token_amount_in as int),
    ensures
        sell_net_out(c, token_amount_in as int) < min_base_out ==> sell_outcome(
            c,
            token_amount_in,
            min_base_out,
        ) == Err::<(BondingCurve, u64), BondingCurveError>(BondingCurveError::SlippageExceeded),
        sell_net_out(c, token_amount_in as int) >= min_base_out && sell_gross_out(
            c,
            token_amount_in as int,
        ) <= c.real_base_reserves && sell_counters_fit(c, token_amount_in as int) ==> sell_outcome(
            c,
            token_amount_in,
            min_base_out,
        ) == Ok::<(BondingCurve, u64), BondingCurveError>(
            (curve_after_sell(c, token_amount_in), sell_net_out(c, token_amount_in as int) as u64),
        ),
{
}

/// No free arbitrage: when the constant product divides evenly at
/// the buy — the one case in which the formula's rounding plays no
/// part — buying and then immediately selling the tokens received
/// returns at most the base currency paid in.
pub proof fn lemma_no_free_arbitrage(
    c: BondingCurve,
    base_amount_in: u64,
    min_tokens_out: u64,
    min_base_out: u64,
    c1: BondingCurve,
    tokens_out: u64,
)
    requires
        c.wf(),
        constant_product(c) % (base_total(c) + base_amount_in) == 0,
        buy_outcome(c, base_amount_in, min_tokens_out) == Ok::<
            (BondingCurve, u64),
            BondingCurveError,
        >((c1, tokens_out)),
        sell_outcome(c1, tokens_out, min_base_out) is Ok,
    ensures
        sell_outcome(c1, tokens_out, min_base_out)->Ok_0.1 <= base_amount_in,
{
    let bt = base_total(c);
    let tt = token_total(c);
    let k = constant_product(c);
    let nbt = bt + base_amount_in;
    let q = k / nbt;
    lemma_fundamental_div_mod(k, nbt);
    assert(k == nbt * q);
    let gross = buy_gross_out(c, base_amount_in as int);
    assert(gross == tt - q);
    assert(tokens_out == gross);
    assert(base_total(c1) == nbt);
    assert(token_total(c1) == q);
    assert(constant_product(c1) == nbt * q) by {
        lemma_mul_is_commutative(nbt, q);
    }
    assert(token_total(c1) + tokens_out == tt);
    assert(constant_product(c1) / (token_total(c1) + tokens_out) == k / tt);
    assert(k / tt == bt) by {
        lemma_mul_is_commutative(bt, tt);
        lemma_div_multiples_vanish(bt, tt);
    }
    assert(sell_outcome(c1, tokens_out, min_base_out)->Ok_0.1 == nbt - bt);
}

} // verus!
