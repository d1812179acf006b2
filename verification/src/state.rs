use vstd::prelude::*;

use crate::errors::BondingCurveError;

verus! {

/// Smallest units of the base currency per whole base coin.
pub const BASE_UNITS_PER_COIN: u64 = 1_000_000_000;

/// Cumulative real base reserves at which a curve graduates:
/// 326 whole base coins, in smallest units.
pub const GRADUATION_THRESHOLD: u64 = 326_000_000_000;

/// Denominator for fee rates expressed in basis points.
pub const BPS_DENOMINATOR: u64 = 10_000;

/// Protocol fee, in basis points, deducted from each trade's output
/// before it is credited to the trader. The protocol currently
/// charges nothing; the accounting below is written over this
/// constant so a nonzero rate changes no contract shape.
pub const FEE_RATE_BPS: u64 = 0;

/// The creator's share of each collected fee, in basis points.
pub const CREATOR_FEE_SHARE_BPS: u64 = 0;

/// The persisted record of one token's bonding-curve market: reserves,
/// cumulative counters, and graduation status. Created once per token,
/// mutated by every trade, never deleted.
#[derive(Clone, Copy, Debug, PartialEq, Eq, Structural)]
pub struct BondingCurve {
    /// Opaque identifier of the traded token. Immutable after creation.
    pub token_identity: u64,
    /// Opaque identifier of the entity that initialized the curve.
    /// Immutable after creation.
    pub creator_identity: u64,
    /// Phantom base-currency liquidity seeding the price curve, so the
    /// price is well defined even at zero real liquidity. Immutable.
    pub virtual_base_reserves: u64,
    /// Phantom token liquidity seeding the price curve. Immutable.
    pub virtual_token_reserves: u64,
    /// Base currency actually held by the curve.
    pub real_base_reserves: u64,
    /// Tokens actually held by the curve.
    pub real_token_reserves: u64,
    /// Cumulative net tokens distributed to traders. Reduced by sells,
    /// clamped at zero, never wrapped.
    pub tokens_sold: u64,
    /// False at creation; flips to true exactly once, when
    /// `real_base_reserves` first reaches `graduation_threshold`,
    /// and never reverts.
    pub is_graduated: bool,
    /// Real base reserves at which the curve graduates. Immutable.
    pub graduation_threshold: u64,
    /// All fees ever collected by the protocol, in units of the
    /// output they were deducted from. Non-decreasing here; a future
    /// external claim may drain it.
    pub total_fees_collected: u64,
    /// The creator's still-unclaimed share of collected fees.
    /// Non-decreasing here; a future external claim zeroes it.
    pub creator_fees_pending: u64,
    /// Derivation material tying this record's storage location to
    /// `token_identity`. Immutable; opaque to the pricing logic.
    pub access_proof: u8,
}

impl BondingCurve {
    /// Well-formedness of a curve record.
    ///
    /// Both virtual reserves are positive, so the pricing formula is
    /// defined, and the base side's virtual and real reserves sum
    /// within 64 bits. Initialization establishes this and every
    /// trade preserves it: buys grow `real_base_reserves` only
    /// through a checked addition of the same sum.
    pub open spec fn wf(self) -> bool {
        &&& self.virtual_base_reserves >= 1
        &&& self.virtual_token_reserves >= 1
        &&& self.virtual_base_reserves + self.real_base_reserves <= u64::MAX
    }
}

/// The curve record that initialization creates: no real base
/// currency yet, the whole initial supply on the token side, nothing
/// sold, nothing collected, not graduated.
pub open spec fn initial_curve(
    token_identity: u64,
    creator_identity: u64,
    access_proof: u8,
    virtual_base_reserves: u64,
    virtual_token_reserves: u64,
    bonding_curve_supply: u64,
) -> BondingCurve {
    BondingCurve {
        token_identity,
        creator_identity,
        virtual_base_reserves,
        virtual_token_reserves,
        real_base_reserves: 0,
        real_token_reserves: bonding_curve_supply,
        tokens_sold: 0,
        is_graduated: false,
        graduation_threshold: GRADUATION_THRESHOLD,
        total_fees_collected: 0,
        creator_fees_pending: 0,
        access_proof,
    }
}

impl BondingCurve {
    /// Creates the curve record for one token.
    ///
    /// Succeeds exactly when both virtual reserves are positive;
    /// zero virtual reserves would make the pricing formula
    /// degenerate and are rejected as `InvalidParameters`.
    pub fn new(
        token_identity: u64,
        creator_identity: u64,
        access_proof: u8,
        virtual_base_reserves: u64,
        virtual_token_reserves: u64,
        bonding_curve_supply: u64,
    ) -> (r: Result<BondingCurve, BondingCurveError>)
        ensures
            virtual_base_reserves == 0 || virtual_token_reserves == 0 ==> r == Err::<
                BondingCurve,
                BondingCurveError,
            >(BondingCurveError::InvalidParameters),
            virtual_base_reserves > 0 && virtual_token_reserves > 0 ==> r == Ok::<
                BondingCurve,
                BondingCurveError,
            >(
                initial_curve(
                    token_identity,
                    creator_identity,
                    access_proof,
                    virtual_base_reserves,
                    virtual_token_reserves,
                    bonding_curve_supply,
                ),
            ),
            r is Ok ==> r->Ok_0.wf(),
    {
        if virtual_base_reserves == 0 || virtual_token_reserves == 0 {
            return Err(BondingCurveError::InvalidParameters);
        }
        Ok(
            BondingCurve {
                token_identity,
                creator_identity,
                virtual_base_reserves,
                virtual_token_reserves,
                real_base_reserves: 0,
                real_token_reserves: bonding_curve_supply,
                tokens_sold: 0,
                is_graduated: false,
                graduation_threshold: GRADUATION_THRESHOLD,
                total_fees_collected: 0,
                creator_fees_pending: 0,
                access_proof,
            },
        )
    }
}

} // verus!
