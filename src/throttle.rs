//! Rate limiting of treasury triggers.

use crate::error::ContractError;
use crate::token::{throttle_allows, TokenState, MIN_LIQUIFY_INTERVAL};
use vstd::prelude::*;

verus! {

/// Time of the last trigger after a request at `now`.
pub open spec fn last_after(last: u64, now: u64) -> u64 {
    if throttle_allows(last, now) {
        now
    } else {
        last
    }
}

impl TokenState {
    /// Decides whether a treasury trigger at `now` fires, and if it does,
    /// records `now` as the time of the last one.
    pub fn should_trigger(&mut self, now: u64) -> (r: bool)
        ensures
            r == throttle_allows(old(self).last_liquify, now),
            final(self).last_liquify == last_after(old(self).last_liquify, now),
            final(self).same_but_balances_and_time(old(self)),
            final(self).balances@ == old(self).balances@,
    {
        if now > self.last_liquify && now - self.last_liquify > MIN_LIQUIFY_INTERVAL {
            self.last_liquify = now;
            true
        } else {
            false
        }
    }

    /// Handles the transfer event that a taxed transfer makes the token send
    /// to itself: only the token itself, at `contract_address`, may send it.
    /// Returns whether the treasury is to liquify now.
    pub fn generate_transfer_event(
        &mut self,
        caller: &String,
        contract_address: &String,
        now: u64,
    ) -> (r: Result<bool, ContractError>)
        ensures
            caller@ != contract_address@ ==> r == Err::<bool, ContractError>(
                ContractError::NotContract,
            ) && *final(self) == *old(self),
            caller@ == contract_address@ ==> r == Ok::<bool, ContractError>(
                throttle_allows(old(self).last_liquify, now),
            ) && final(self).last_liquify == last_after(old(self).last_liquify, now),
            final(self).same_but_balances_and_time(old(self)),
            final(self).balances@ == old(self).balances@,
    {
        if *caller != *contract_address {
            return Err(ContractError::NotContract);
        }
        Ok(self.should_trigger(now))
    }
}

impl TokenState {
    pub open spec fn same_but_balances_and_time(&self, o: &TokenState) -> bool {
        &&& self.admin == o.admin
        &&& self.treasury == o.treasury
        &&& self.rates == o.rates
        &&& self.pairlist@ == o.pairlist@
    }
}

/// Two trigger requests whose times lie within the minimum interval of each
/// other fire at most once; they fire exactly once when either of them
/// alone would have fired after the last trigger.
pub proof fn lemma_throttle_fires_once(last: u64, now1: u64, now2: u64)
    requires
        now2 <= now1 + MIN_LIQUIFY_INTERVAL,
        now1 <= now2 + MIN_LIQUIFY_INTERVAL,
    ensures
        ({
            let fired1 = throttle_allows(last, now1);
            let fired2 = throttle_allows(last_after(last, now1), now2);
            &&& !(fired1 && fired2)
            &&& (fired1 || fired2) == (throttle_allows(last, now1) || throttle_allows(last, now2))
        }),
{
}

} // verus!
