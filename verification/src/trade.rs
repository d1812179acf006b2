use vstd::prelude::*;

use crate::errors::BondingCurveError;
use crate::pricing::buy_fits;
use crate::pricing::buy_gross_out;
use crate::pricing::buy_net_out;
use crate::pricing::buy_quote;
use crate::pricing::creator_share;
use crate::pricing::creator_share_of;
use crate::pricing::fee_amount;
use crate::pricing::fee_of;
use crate::pricing::lemma_buy_gross_out_bounds;
use crate::pricing::lemma_fee_within_amount;
use crate::pricing::lemma_sell_gross_out_bounds;
use crate::pricing::sell_fits;
use crate::pricing::sell_gross_out;
use crate::pricing::sell_net_out;
use crate::pricing::sell_quote;
use crate::state::BondingCurve;

verus! {

/// The state a successful buy of `base_amount_in` leaves behind:
/// the paid base currency joins the real base reserves, the gross
/// formula output leaves the real token reserves and is credited to
/// `tokens_sold`, fees accrue, and the curve graduates exactly when
/// the new real base reserves reach the threshold.
pub open spec fn curve_after_buy(c: BondingCurve, base_amount_in: u64) -> BondingCurve {
    let gross = buy_gross_out(c, base_amount_in as int);
    let fee = fee_of(gross);
    BondingCurve {
        token_identity: c.token_identity,
        creator_identity: c.creator_identity,
        virtual_base_reserves: c.virtual_base_reserves,
        virtual_token_reserves: c.virtual_token_reserves,
        real_base_reserves: (c.real_base_reserves + base_amount_in) as u64,
        real_token_reserves: (c.real_token_reserves - gross) as u64,
        tokens_sold: (c.tokens_sold + gross) as u64,
        is_graduated: c.real_base_reserves + base_amount_in >= c.graduation_threshold,
        graduation_threshold: c.graduation_threshold,
        total_fees_collected: (c.total_fees_collected + fee) as u64,
        creator_fees_pending: (c.creator_fees_pending + creator_share_of(fee)) as u64,
        access_proof: c.access_proof,
    }
}

/// The state a successful sell of `token_amount_in` leaves behind:
/// the sold tokens join the real token reserves, the gross formula
/// output leaves the real base reserves, `tokens_sold` falls by the
/// sold amount but is clamped at zero, and fees accrue. A sell never
/// graduates a curve: real base reserves only fall.
pub open spec fn curve_after_sell(c: BondingCurve, token_amount_in: u64) -> BondingCurve {
    let gross = sell_gross_out(c, token_amount_in as int);
    let fee = fee_of(gross);
    BondingCurve {
        token_identity: c.token_identity,
        creator_identity: c.creator_identity,
        virtual_base_reserves: c.virtual_base_reserves,
        virtual_token_reserves: c.virtual_token_reserves,
        real_base_reserves: (c.real_base_reserves - gross) as u64,
        real_token_reserves: (c.real_token_reserves + token_amount_in) as u64,
        tokens_sold: if c.tokens_sold >= token_amount_in {
            (c.tokens_sold - token_amount_in) as u64
        } else {
            0
        },
        is_graduated: c.is_graduated,
        graduation_threshold: c.graduation_threshold,
        total_fees_collected: (c.total_fees_collected + fee) as u64,
        creator_fees_pending: (c.creator_fees_pending + creator_share_of(fee)) as u64,
        access_proof: c.access_proof,
    }
}

/// Whether the cumulative counters a buy bumps all stay within
/// 64 bits: `tokens_sold` grows by the gross output and the two fee
/// accumulators by the fee and the creator's share of it.
pub open spec fn buy_counters_fit(c: BondingCurve, base_amount_in: int) -> bool {
    let gross = buy_gross_out(c, base_amount_in);
    let fee = fee_of(gross);
    &&& c.tokens_sold + gross <= u64::MAX
    &&& c.total_fees_collected + fee <= u64::MAX
    &&& c.creator_fees_pending + creator_share_of(fee) <= u64::MAX
}

/// Whether the cumulative counters a sell bumps stay within 64 bits:
/// only the two fee accumulators grow; `tokens_sold` falls, clamped
/// at zero.
pub open spec fn sell_counters_fit(c: BondingCurve, token_amount_in: int) -> bool {
    let fee = fee_of(sell_gross_out(c, token_amount_in));
    &&& c.total_fees_collected + fee <= u64::MAX
    &&& c.creator_fees_pending + creator_share_of(fee) <= u64::MAX
}

/// Everything a buy of `base_amount_in` with slippage bound
/// `min_tokens_out` does, in order of the checks made:
///
/// - a graduated curve trades no more (`TokenGraduated`);
/// - a zero amount buys nothing (`InvalidAmount`);
/// - the token total and the grown base total must fit in 64 bits
///   (`ArithmeticOverflow`);
/// - the trader's net output must reach the slippage bound
///   (`SlippageExceeded`);
/// - the formula must not drain more tokens than the curve really
///   holds (`InsufficientReserves`);
/// - the cumulative counters must not overflow (`ArithmeticOverflow`);
/// - otherwise the trade applies and the trader is owed the net
///   output.
pub open spec fn buy_outcome(c: BondingCurve, base_amount_in: u64, min_tokens_out: u64) -> Result<
    (BondingCurve, u64),
    BondingCurveError,
> {
    let gross = buy_gross_out(c, base_amount_in as int);
    let net = buy_net_out(c, base_amount_in as int);
    if c.is_graduated {
        Err(BondingCurveError::TokenGraduated)
    } else if base_amount_in == 0 {
        Err(BondingCurveError::InvalidAmount)
    } else if !buy_fits(c, base_amount_in as int) {
        Err(BondingCurveError::ArithmeticOverflow)
    } else if net < min_tokens_out {
        Err(BondingCurveError::SlippageExceeded)
    } else if gross > c.real_token_reserves {
        Err(BondingCurveError::InsufficientReserves)
    } else if !buy_counters_fit(c, base_amount_in as int) {
        Err(BondingCurveError::ArithmeticOverflow)
    } else {
        Ok((curve_after_buy(c, base_amount_in), net as u64))
    }
}

/// Everything a sell of `token_amount_in` with slippage bound
/// `min_base_out` does; the checks mirror `buy_outcome` with the two
/// sides' roles reversed, and `InsufficientReserves` guards the real
/// base reserves.
pub open spec fn sell_outcome(c: BondingCurve, token_amount_in: u64, min_base_out: u64) -> Result<
    (BondingCurve, u64),
    BondingCurveError,
> {
    let gross = sell_gross_out(c, token_amount_in as int);
    let net = sell_net_out(c, token_amount_in as int);
    if c.is_graduated {
        Err(BondingCurveError::TokenGraduated)
    } else if token_amount_in == 0 {
        Err(BondingCurveError::InvalidAmount)
    } else if !sell_fits(c, token_amount_in as int) {
        Err(BondingCurveError::ArithmeticOverflow)
    } else if net < min_base_out {
        Err(BondingCurveError::SlippageExceeded)
    } else if gross > c.real_base_reserves {
        Err(BondingCurveError::InsufficientReserves)
    } else if !sell_counters_fit(c, token_amount_in as int) {
        Err(BondingCurveError::ArithmeticOverflow)
    } else {
        Ok((curve_after_sell(c, token_amount_in), net as u64))
    }
}

impl BondingCurve {
    /// Buys tokens from the curve for `base_amount_in` base units.
    ///
    /// On success the returned amount is what the trader is owed and
    /// the curve holds the post-trade state; on any error the curve
    /// is exactly as it was. `buy_outcome` states both cases in full.
    pub fn buy(&mut self, base_amount_in: u64, min_tokens_out: u64) -> (r: Result<
        u64,
        BondingCurveError,
    >)
        requires
            old(self).wf(),
        ensures
            final(self).wf(),
            match buy_outcome(*old(self), base_amount_in, min_tokens_out) {
                Ok((c2, out)) => r == Ok::<u64, BondingCurveError>(out) && *final(self) == c2,
                Err(e) => r == Err::<u64, BondingCurveError>(e) && *final(self) == *old(self),
            },
    {
        if self.is_graduated {
            return Err(BondingCurveError::TokenGraduated);
        }
        if base_amount_in == 0 {
            return Err(BondingCurveError::InvalidAmount);
        }
        let gross = match buy_quote(self, base_amount_in) {
            Ok(v) => v,
            Err(e) => {
                return Err(e);
            },
        };
        proof {
            lemma_buy_gross_out_bounds(*self, base_amount_in as int);
            lemma_fee_within_amount(buy_gross_out(*self, base_amount_in as int));
        }
        let fee = fee_amount(gross);
        let net = gross - fee;
        if net < min_tokens_out {
            return Err(BondingCurveError::SlippageExceeded);
        }
        if gross > self.real_token_reserves {
            return Err(BondingCurveError::InsufficientReserves);
        }
        let new_tokens_sold = match self.tokens_sold.checked_add(gross) {
            Some(v) => v,
            None => {
                return Err(BondingCurveError::ArithmeticOverflow);
            },
        };
        let new_total_fees = match self.total_fees_collected.checked_add(fee) {
            Some(v) => v,
            None => {
                return Err(BondingCurveError::ArithmeticOverflow);
            },
        };
        let creator_cut = creator_share(fee);
        let new_creator_fees = match self.creator_fees_pending.checked_add(creator_cut) {
            Some(v) => v,
            None => {
                return Err(BondingCurveError::ArithmeticOverflow);
            },
        };
        self.real_base_reserves = self.real_base_reserves + base_amount_in;
        self.real_token_reserves = self.real_token_reserves - gross;
        self.tokens_sold = new_tokens_sold;
        self.total_fees_collected = new_total_fees;
        self.creator_fees_pending = new_creator_fees;
        if self.real_base_reserves >= self.graduation_threshold {
            self.is_graduated = true;
        }
        Ok(net)
    }

    /// Sells `token_amount_in` tokens back to the curve.
    ///
    /// On success the returned amount is the base currency the trader
    /// is owed and the curve holds the post-trade state; on any error
    /// the curve is exactly as it was. `sell_outcome` states both
    /// cases in full.
    pub fn sell(&mut self, token_amount_in: u64, min_base_out: u64) -> (r: Result<
        u64,
        BondingCurveError,
    >)
        requires
            old(self).wf(),
        ensures
            final(self).wf(),
            match sell_outcome(*old(self), token_amount_in, min_base_out) {
                Ok((c2, out)) => r == Ok::<u64, BondingCurveError>(out) && *final(self) == c2,
                Err(e) => r == Err::<u64, BondingCurveError>(e) && *final(self) == *old(self),
            },
    {
        if self.is_graduated {
            return Err(BondingCurveError::TokenGraduated);
        }
        if token_amount_in == 0 {
            return Err(BondingCurveError::InvalidAmount);
        }
        let gross = match sell_quote(self, token_amount_in) {
            Ok(v) => v,
            Err(e) => {
                return Err(e);
            },
        };
        proof {
            lemma_sell_gross_out_bounds(*self, token_amount_in as int);
            lemma_fee_within_amount(sell_gross_out(*self, token_amount_in as int));
        }
        let fee = fee_amount(gross);
        let net = gross - fee;
        if net < min_base_out {
            return Err(BondingCurveError::SlippageExceeded);
        }
        if gross > self.real_base_reserves {
            return Err(BondingCurveError::InsufficientReserves);
        }
        let new_total_fees = match self.total_fees_collected.checked_add(fee) {
            Some(v) => v,
            None => {
                return Err(BondingCurveError::ArithmeticOverflow);
            },
        };
        let creator_cut = creator_share(fee);
        let new_creator_fees = match self.creator_fees_pending.checked_add(creator_cut) {
            Some(v) => v,
            None => {
                return Err(BondingCurveError::ArithmeticOverflow);
            },
        };
        self.real_base_reserves = self.real_base_reserves - gross;
        self.real_token_reserves = self.real_token_reserves + token_amount_in;
        self.tokens_sold = if self.tokens_sold >= token_amount_in {
            self.tokens_sold - token_amount_in
        } else {
            0
        };
        self.total_fees_collected = new_total_fees;
        self.creator_fees_pending = new_creator_fees;
        Ok(net)
    }
}

} // verus!
