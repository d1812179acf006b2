use vstd::prelude::*;

use std::collections::HashMap;

use crate::errors::BondingCurveError;
use crate::state::initial_curve;
use crate::state::BondingCurve;
use crate::trade::buy_outcome;
use crate::trade::sell_outcome;

verus! {

broadcast use vstd::std_specs::hash::group_hash_axioms;

/// The keyed ledger of curve records: one `BondingCurve` per token
/// identity. The hosting ledger serializes all access to it, so each
/// operation below is one atomic transaction against one record.
pub struct CurveStore {
    curves: HashMap<u64, BondingCurve>,
}

impl View for CurveStore {
    type V = Map<u64, BondingCurve>;

    closed spec fn view(&self) -> Map<u64, BondingCurve> {
        self.curves@
    }
}

impl CurveStore {
    /// Every stored record is well formed and filed under its own
    /// token identity.
    pub open spec fn wf(&self) -> bool {
        forall|t: u64|
            self@.contains_key(t) ==> (#[trigger] self@[t]).wf() && self@[t].token_identity == t
    }

    /// An empty ledger: no token has a curve yet.
    pub fn new() -> (s: CurveStore)
        ensures
            s@ == Map::<u64, BondingCurve>::empty(),
            s.wf(),
    {
        CurveStore { curves: HashMap::new() }
    }

    /// Whether a curve exists for this token identity.
    pub fn contains(&self, token_identity: u64) -> (r: bool)
        ensures
            r == self@.contains_key(token_identity),
    {
        self.curves.contains_key(&token_identity)
    }

    /// The stored curve record for a token, for inspection.
    pub fn get_curve(&self, token_identity: u64) -> (r: Option<&BondingCurve>)
        ensures
            match r {
                Some(c) => self@.contains_key(token_identity) && *c == self@[token_identity],
                None => !self@.contains_key(token_identity),
            },
    {
        self.curves.get(&token_identity)
    }

    /// Creates the curve for a token: create-if-absent.
    ///
    /// Fails with `AlreadyInitialized` when the token already has a
    /// curve, and with `InvalidParameters` when either virtual
    /// reserve is zero; otherwise files the freshly initialized
    /// record under the token identity. On error the ledger is
    /// unchanged.
    pub fn initialize_curve(
        &mut self,
        token_identity: u64,
        creator_identity: u64,
        access_proof: u8,
        virtual_base_reserves: u64,
        virtual_token_reserves: u64,
        bonding_curve_supply: u64,
    ) -> (r: Result<(), BondingCurveError>)
        requires
            old(self).wf(),
        ensures
            final(self).wf(),
            old(self)@.contains_key(token_identity) ==> r == Err::<(), BondingCurveError>(
                BondingCurveError::AlreadyInitialized,
            ) && final(self)@ == old(self)@,
            !old(self)@.contains_key(token_identity) && (virtual_base_reserves == 0
                || virtual_token_reserves == 0) ==> r == Err::<(), BondingCurveError>(
                BondingCurveError::InvalidParameters,
            ) && final(self)@ == old(self)@,
            !old(self)@.contains_key(token_identity) && virtual_base_reserves > 0
                && virtual_token_reserves > 0 ==> r == Ok::<(), BondingCurveError>(())
                && final(self)@ == old(self)@.insert(
                token_identity,
                initial_curve(
                    token_identity,
                    creator_identity,
                    access_proof,
                    virtual_base_reserves,
                    virtual_token_reserves,
                    bonding_curve_supply,
                ),
            ),
    {
        if self.curves.contains_key(&token_identity) {
            return Err(BondingCurveError::AlreadyInitialized);
        }
        let curve = match BondingCurve::new(
            token_identity,
            creator_identity,
            access_proof,
            virtual_base_reserves,
            virtual_token_reserves,
            bonding_curve_supply,
        ) {
            Ok(c) => c,
            Err(e) => {
                return Err(e);
            },
        };
        self.curves.insert(token_identity, curve);
        proof {
            assert forall|t: u64| self@.contains_key(t) implies (#[trigger] self@[t]).wf()
                && self@[t].token_identity == t by {
                if t != token_identity {
                    assert(old(self)@.contains_key(t));
                }
            }
        }
        Ok(())
    }

    /// Buys tokens from a token's curve, as one atomic transaction.
    ///
    /// The curve must exist: the hosting ledger derives and checks
    /// the record's storage location before the engine runs. The
    /// result and the new record are exactly `buy_outcome` of the
    /// stored record; on error the ledger is unchanged.
    pub fn buy(&mut self, token_identity: u64, base_amount_in: u64, min_tokens_out: u64) -> (r:
        Result<u64, BondingCurveError>)
        requires
            old(self).wf(),
            old(self)@.contains_key(token_identity),
        ensures
            final(self).wf(),
            match buy_outcome(old(self)@[token_identity], base_amount_in, min_tokens_out) {
                Ok((c2, out)) => r == Ok::<u64, BondingCurveError>(out)
                    && final(self)@ == old(self)@.insert(token_identity, c2),
                Err(e) => r == Err::<u64, BondingCurveError>(e) && final(self)@ == old(self)@,
            },
    {
        let mut curve = match self.curves.get(&token_identity) {
            Some(c) => *c,
            // Unreachable: the curve exists by precondition.
            None => {
                return Err(BondingCurveError::InvalidParameters);
            },
        };
        match curve.buy(base_amount_in, min_tokens_out) {
            Ok(out) => {
                self.curves.insert(token_identity, curve);
                proof {
                    assert forall|t: u64| self@.contains_key(t) implies (#[trigger] self@[t]).wf()
                        && self@[t].token_identity == t by {
                        if t != token_identity {
                            assert(old(self)@.contains_key(t));
                        }
                    }
                }
                Ok(out)
            },
            Err(e) => Err(e),
        }
    }

    /// Sells tokens back to a token's curve, as one atomic
    /// transaction; the mirror of `buy`.
    pub fn sell(&mut self, token_identity: u64, token_amount_in: u64, min_base_out: u64) -> (r:
        Result<u64, BondingCurveError>)
        requires
            old(self).wf(),
            old(self)@.contains_key(token_identity),
        ensures
            final(self).wf(),
            match sell_outcome(old(self)@[token_identity], token_amount_in, min_base_out) {
                Ok((c2, out)) => r == Ok::<u64, BondingCurveError>(out)
                    && final(self)@ == old(self)@.insert(token_identity, c2),
                Err(e) => r == Err::<u64, BondingCurveError>(e) && final(self)@ == old(self)@,
            },
    {
        let mut curve = match self.curves.get(&token_identity) {
            Some(c) => *c,
            // Unreachable: the curve exists by precondition.
            None => {
                return Err(BondingCurveError::InvalidParameters);
            },
        };
        match curve.sell(token_amount_in, min_base_out) {
            Ok(out) => {
                self.curves.insert(token_identity, curve);
                proof {
                    assert forall|t: u64| self@.contains_key(t) implies (#[trigger] self@[t]).wf()
                        && self@[t].token_identity == t by {
                        if t != token_identity {
                            assert(old(self)@.contains_key(t));
                        }
                    }
                }
                Ok(out)
            },
            Err(e) => Err(e),
        }
    }
}

} // verus!
