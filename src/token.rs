//! The taxed token: its configuration, the pair registry, balances and the
//! routine that every transfer goes through.

use crate::address_map::AddressMap;
use crate::error::ContractError;
use crate::rate::{Rate, RateConfig, DECIMAL_FRACTIONAL};
use crate::tax::{query_tax, tax_breakdown};
use vstd::prelude::*;

verus! {

/// Seconds that must pass after one liquify trigger before the next.
pub const MIN_LIQUIFY_INTERVAL: u64 = 1;

/// State of the token contract.
pub struct TokenState {
    pub admin: String,
    /// Account that receives the tax.
    pub treasury: String,
    pub rates: RateConfig,
    /// Addresses of trading venues; a transfer touching one is taxed.
    pub pairlist: AddressMap<bool>,
    pub balances: AddressMap<u128>,
    /// Time of the last liquify trigger, in seconds.
    pub last_liquify: u64,
}

/// Balance of `a`; an absent account holds nothing.
pub open spec fn balance_in(m: Map<Seq<char>, u128>, a: Seq<char>) -> int {
    if m.contains_key(a) {
        m[a] as int
    } else {
        0
    }
}

/// `a` is registered as a venue.
pub open spec fn listed(m: Map<Seq<char>, bool>, a: Seq<char>) -> bool {
    m.contains_key(a) && m[a]
}

/// `m` with `amount` added to the balance of `a`.
pub open spec fn credited(m: Map<Seq<char>, u128>, a: Seq<char>, amount: int) -> Map<Seq<char>, u128> {
    m.insert(a, (balance_in(m, a) + amount) as u128)
}

/// The balance of `a` can take `amount` more.
pub open spec fn fits(m: Map<Seq<char>, u128>, a: Seq<char>, amount: int) -> bool {
    balance_in(m, a) + amount <= u128::MAX
}

/// Next to the last trigger at `last`, a trigger at `now` may fire.
pub open spec fn throttle_allows(last: u64, now: u64) -> bool {
    now > last + MIN_LIQUIFY_INTERVAL
}

/// What a transfer did.
#[derive(Clone, Copy, Debug, PartialEq, Eq, Structural)]
pub struct TransferOutcome {
    /// Amount credited to the recipient.
    pub delivered: u128,
    /// Amount credited to the treasury.
    pub taxed_amount: u128,
    /// The transfer was taxed, so a treasury trigger is requested.
    pub treasury_trigger: bool,
}

/// The result of moving `amount` out of `owner` to `recipient`: the outcome
/// and the new balances, or the error. The move is taxed when the owner or
/// the recipient is a venue.
pub open spec fn transfer_effect(
    s: TokenState,
    owner: Seq<char>,
    recipient: Seq<char>,
    amount: u128,
) -> Result<(TransferOutcome, Map<Seq<char>, u128>), ContractError> {
    let b = s.balances@;
    let is_pair = listed(s.pairlist@, owner) || listed(s.pairlist@, recipient);
    let t = tax_breakdown(s.rates, amount as int);
    let out = if is_pair {
        t.1
    } else {
        amount as int
    };
    let tax = if is_pair {
        t.0
    } else {
        0
    };
    let b1 = b.insert(owner, (balance_in(b, owner) - amount) as u128);
    let b2 = credited(b1, recipient, out);
    if amount == 0 {
        Err(ContractError::InvalidZeroAmount)
    } else if balance_in(b, owner) < amount {
        Err(ContractError::InsufficientFunds)
    } else if !fits(b1, recipient, out) || (is_pair && !fits(b2, s.treasury@, tax)) {
        Err(ContractError::Overflow)
    } else {
        Ok(
            (
                TransferOutcome {
                    delivered: out as u128,
                    taxed_amount: tax as u128,
                    treasury_trigger: is_pair,
                },
                if is_pair {
                    credited(b2, s.treasury@, tax)
                } else {
                    b2
                },
            ),
        )
    }
}

impl TokenState {
    pub open spec fn wf(&self) -> bool {
        self.rates.wf()
    }

    /// All but the balances are the same in `self` and `o`.
    pub open spec fn same_but_balances(&self, o: &TokenState) -> bool {
        &&& self.admin == o.admin
        &&& self.treasury == o.treasury
        &&& self.rates == o.rates
        &&& self.pairlist@ == o.pairlist@
        &&& self.last_liquify == o.last_liquify
    }

    /// A token administered by `admin` whose tax goes to `treasury`: no tax
    /// yet, the admin registered as a venue, no balances.
    pub fn new(admin: String, treasury: String) -> (r: TokenState)
        ensures
            r.wf(),
            r.admin == admin,
            r.treasury == treasury,
            r.rates == RateConfig::new_spec(),
            r.pairlist@ == Map::<Seq<char>, bool>::empty().insert(admin@, true),
            r.balances@ == Map::<Seq<char>, u128>::empty(),
            r.last_liquify == 0,
    {
        let mut pairlist = AddressMap::new();
        pairlist.set(admin.clone(), true);
        TokenState {
            admin,
            treasury,
            rates: RateConfig::new(),
            pairlist,
            balances: AddressMap::new(),
            last_liquify: 0,
        }
    }

    /// Balance of `address`, zero when it has none.
    pub fn balance_of(&self, address: &String) -> (r: u128)
        ensures
            r == balance_in(self.balances@, address@),
    {
        match self.balances.get(address) {
            Some(b) => b,
            None => 0,
        }
    }

    /// Records the balance of `address`, as the base ledger holds it.
    pub fn set_balance(&mut self, address: String, amount: u128)
        ensures
            final(self).balances@ == old(self).balances@.insert(address@, amount),
            final(self).same_but_balances(old(self)),
    {
        self.balances.set(address, amount);
    }

    /// Whether `address` is registered as a venue.
    pub fn is_pair(&self, address: &String) -> (r: bool)
        ensures
            r == listed(self.pairlist@, address@),
    {
        match self.pairlist.get(address) {
            Some(b) => b,
            None => false,
        }
    }

    /// Moves `amount` out of `owner` to `recipient`.
    /// When the owner or the recipient is a venue, the recipient gets the
    /// amount after tax and the treasury the tax; otherwise the recipient gets
    /// it all. On an error nothing changes.
    pub fn apply_transfer(
        &mut self,
        owner: &String,
        recipient: &String,
        amount: u128,
    ) -> (r: Result<TransferOutcome, ContractError>)
        requires
            old(self).wf(),
        ensures
            final(self).wf(),
            match transfer_effect(*old(self), owner@, recipient@, amount) {
                Ok((o, b)) => {
                    &&& r == Ok::<TransferOutcome, ContractError>(o)
                    &&& final(self).balances@ == b
                    &&& final(self).same_but_balances(old(self))
                },
                Err(e) => {
                    &&& r == Err::<TransferOutcome, ContractError>(e)
                    &&& *final(self) == *old(self)
                },
            },
    {
        if amount == 0 {
            return Err(ContractError::InvalidZeroAmount);
        }
        let to_pair = self.is_pair(recipient);
        let from_pair = self.is_pair(owner);
        let is_pair = to_pair || from_pair;
        let taxes = query_tax(&self.rates, amount);
        let outgoing = if is_pair {
            taxes.after_tax
        } else {
            amount
        };
        let tax = if is_pair {
            taxes.taxed_amount
        } else {
            0
        };
        let owner_balance = self.balance_of(owner);
        if owner_balance < amount {
            return Err(ContractError::InsufficientFunds);
        }
        let owner_new = owner_balance - amount;
        let recipient_balance = if *recipient == *owner {
            owner_new
        } else {
            self.balance_of(recipient)
        };
        if recipient_balance > u128::MAX - outgoing {
            return Err(ContractError::Overflow);
        }
        let recipient_new = recipient_balance + outgoing;
        let treasury_new = if is_pair {
            let treasury_balance = if self.treasury == *recipient {
                recipient_new
            } else if self.treasury == *owner {
                owner_new
            } else {
                self.balance_of(&self.treasury)
            };
            if treasury_balance > u128::MAX - tax {
                return Err(ContractError::Overflow);
            }
            treasury_balance + tax
        } else {
            0
        };
        self.balances.set(owner.clone(), owner_new);
        self.balances.set(recipient.clone(), recipient_new);
        if is_pair {
            let treasury = self.treasury.clone();
            self.balances.set(treasury, treasury_new);
        }
        Ok(TransferOutcome { delivered: outgoing, taxed_amount: tax, treasury_trigger: is_pair })
    }
}

impl TokenState {
    /// A transfer from `sender` to `recipient`.
    pub fn execute_transfer(&mut self, sender: &String, recipient: &String, amount: u128) -> (r:
        Result<TransferOutcome, ContractError>)
        requires
            old(self).wf(),
        ensures
            final(self).wf(),
            match transfer_effect(*old(self), sender@, recipient@, amount) {
                Ok((o, b)) => r == Ok::<TransferOutcome, ContractError>(o) && final(self).balances@
                    == b && final(self).same_but_balances(old(self)),
                Err(e) => r == Err::<TransferOutcome, ContractError>(e) && *final(self) == *old(self),
            },
    {
        self.apply_transfer(sender, recipient, amount)
    }

    /// A transfer from `sender` to `contract`, which the caller then notifies
    /// of the delivered amount.
    pub fn execute_send(&mut self, sender: &String, contract: &String, amount: u128) -> (r: Result<
        TransferOutcome,
        ContractError,
    >)
        requires
            old(self).wf(),
        ensures
            final(self).wf(),
            match transfer_effect(*old(self), sender@, contract@, amount) {
                Ok((o, b)) => r == Ok::<TransferOutcome, ContractError>(o) && final(self).balances@
                    == b && final(self).same_but_balances(old(self)),
                Err(e) => r == Err::<TransferOutcome, ContractError>(e) && *final(self) == *old(self),
            },
    {
        self.apply_transfer(sender, contract, amount)
    }

    /// A transfer out of `owner` to `recipient` made by a spender whose
    /// allowance the caller has already reduced by `amount`; taxed as if the
    /// owner had made it.
    pub fn execute_transfer_from(
        &mut self,
        owner: &String,
        recipient: &String,
        amount: u128,
    ) -> (r: Result<TransferOutcome, ContractError>)
        requires
            old(self).wf(),
        ensures
            final(self).wf(),
            match transfer_effect(*old(self), owner@, recipient@, amount) {
                Ok((o, b)) => r == Ok::<TransferOutcome, ContractError>(o) && final(self).balances@
                    == b && final(self).same_but_balances(old(self)),
                Err(e) => r == Err::<TransferOutcome, ContractError>(e) && *final(self) == *old(self),
            },
    {
        self.apply_transfer(owner, recipient, amount)
    }

    /// A transfer out of `owner` to `contract` made by a spender whose
    /// allowance the caller has already reduced; taxed as if the owner had
    /// made it. The caller then notifies the contract of the delivered amount.
    pub fn execute_send_from(
        &mut self,
        owner: &String,
        contract: &String,
        amount: u128,
    ) -> (r: Result<TransferOutcome, ContractError>)
        requires
            old(self).wf(),
        ensures
            final(self).wf(),
            match transfer_effect(*old(self), owner@, contract@, amount) {
                Ok((o, b)) => r == Ok::<TransferOutcome, ContractError>(o) && final(self).balances@
                    == b && final(self).same_but_balances(old(self)),
                Err(e) => r == Err::<TransferOutcome, ContractError>(e) && *final(self) == *old(self),
            },
    {
        self.apply_transfer(owner, contract, amount)
    }

    /// Succeeds exactly when `sender` is the admin.
    pub fn ensure_admin(&self, sender: &String) -> (r: Result<(), ContractError>)
        ensures
            r == if sender@ == self.admin@ {
                Ok::<(), ContractError>(())
            } else {
                Err(ContractError::Unauthorized)
            },
    {
        if *sender != self.admin {
            return Err(ContractError::Unauthorized);
        }
        Ok(())
    }

    /// Replaces the tax rate and the reflection and burn shares; only the
    /// admin may, the tax rate must be at most one and the two shares must add
    /// up to at most one.
    pub fn set_tax_rate(
        &mut self,
        sender: &String,
        global_rate: Rate,
        reflection_rate: Rate,
        burn_rate: Rate,
    ) -> (r: Result<(), ContractError>)
        requires
            old(self).wf(),
        ensures
            final(self).wf(),
            r == if sender@ != old(self).admin@ {
                Err(ContractError::Unauthorized)
            } else if global_rate.atomics > DECIMAL_FRACTIONAL {
                Err(ContractError::GlobalRateTooHigh)
            } else if reflection_rate.atomics + burn_rate.atomics > DECIMAL_FRACTIONAL {
                Err(ContractError::ShareRatesTooHigh)
            } else {
                Ok::<(), ContractError>(())
            },
            r is Ok ==> final(self).rates == (RateConfig {
                tax_rate: global_rate,
                reflection_rate,
                burn_rate,
                ..old(self).rates
            }),
            r is Err ==> final(self).rates == old(self).rates,
            final(self).balances@ == old(self).balances@,
            final(self).pairlist@ == old(self).pairlist@,
            final(self).admin == old(self).admin,
            final(self).treasury == old(self).treasury,
            final(self).last_liquify == old(self).last_liquify,
    {
        self.ensure_admin(sender)?;
        if global_rate.atomics > DECIMAL_FRACTIONAL {
            return Err(ContractError::GlobalRateTooHigh);
        }
        if reflection_rate.atomics > DECIMAL_FRACTIONAL || burn_rate.atomics > DECIMAL_FRACTIONAL
            - reflection_rate.atomics {
            return Err(ContractError::ShareRatesTooHigh);
        }
        self.rates.tax_rate = global_rate;
        self.rates.reflection_rate = reflection_rate;
        self.rates.burn_rate = burn_rate;
        Ok(())
    }

    /// Registers `user` as a venue, or takes it off; only the admin may.
    pub fn set_pairlist(&mut self, sender: &String, user: String, enable: bool) -> (r: Result<
        (),
        ContractError,
    >)
        requires
            old(self).wf(),
        ensures
            final(self).wf(),
            r == if sender@ == old(self).admin@ {
                Ok::<(), ContractError>(())
            } else {
                Err(ContractError::Unauthorized)
            },
            final(self).pairlist@ == if r is Ok {
                old(self).pairlist@.insert(user@, enable)
            } else {
                old(self).pairlist@
            },
            final(self).balances@ == old(self).balances@,
            final(self).rates == old(self).rates,
            final(self).admin == old(self).admin,
            final(self).treasury == old(self).treasury,
            final(self).last_liquify == old(self).last_liquify,
    {
        self.ensure_admin(sender)?;
        self.pairlist.set(user, enable);
        Ok(())
    }

    /// The tax rate and the reflection and burn shares.
    pub fn query_rate(&self) -> (r: (Rate, Rate, Rate))
        ensures
            r == (self.rates.tax_rate, self.rates.reflection_rate, self.rates.burn_rate),
    {
        (self.rates.tax_rate, self.rates.reflection_rate, self.rates.burn_rate)
    }

    /// Whether `address` is registered as a venue; an address that was
    /// never registered is not.
    pub fn query_pairlist(&self, address: &String) -> (r: bool)
        ensures
            r == listed(self.pairlist@, address@),
    {
        self.is_pair(address)
    }

    /// The treasury to migrate; only the admin may ask.
    pub fn migrate_treasury(&self, sender: &String) -> (r: Result<String, ContractError>)
        ensures
            sender@ == self.admin@ ==> (r matches Ok(t) && t@ == self.treasury@),
            sender@ != self.admin@ ==> r == Err::<String, ContractError>(ContractError::Unauthorized),
    {
        self.ensure_admin(sender)?;
        Ok(self.treasury.clone())
    }
}

/// A transfer out of an owner holding at least `amount` to a distinct
/// recipient, touching a venue and whose recipient and treasury (a third
/// account) can each take `amount` more, succeeds: it takes exactly
/// `amount` from the owner and hands all of it to the recipient and the
/// treasury together, the recipient getting the amount after tax.
pub proof fn lemma_taxed_transfer_conserves(
    s: TokenState,
    owner: Seq<char>,
    recipient: Seq<char>,
    amount: u128,
)
    requires
        s.wf(),
        owner != recipient,
        owner != s.treasury@,
        recipient != s.treasury@,
        listed(s.pairlist@, owner) || listed(s.pairlist@, recipient),
        amount > 0,
        balance_in(s.balances@, owner) >= amount,
        fits(s.balances@, recipient, amount as int),
        fits(s.balances@, s.treasury@, amount as int),
    ensures
        transfer_effect(s, owner, recipient, amount) is Ok,
        ({
            let (o, b) = transfer_effect(s, owner, recipient, amount)->Ok_0;
            let t = tax_breakdown(s.rates, amount as int);
            &&& balance_in(s.balances@, owner) - balance_in(b, owner) == amount
            &&& balance_in(b, recipient) - balance_in(s.balances@, recipient) == t.1
            &&& balance_in(b, s.treasury@) - balance_in(s.balances@, s.treasury@) == t.0
            &&& (balance_in(b, recipient) - balance_in(s.balances@, recipient)) + (balance_in(
                b,
                s.treasury@,
            ) - balance_in(s.balances@, s.treasury@)) == amount
            &&& o.delivered == t.1
            &&& o.taxed_amount == t.0
            &&& o.delivered + o.taxed_amount == amount
            &&& o.treasury_trigger
        }),
{
    crate::tax::lemma_tax_split_bounded(s.rates, amount as int);
}

/// A transfer where neither the owner nor the recipient is a venue, out of
/// an owner holding at least `amount` to a distinct recipient that can take
/// `amount` more, succeeds: it moves exactly `amount` from the owner to the
/// recipient and leaves every other balance, the treasury's among them, as
/// it was.
pub proof fn lemma_untaxed_transfer_exact(
    s: TokenState,
    owner: Seq<char>,
    recipient: Seq<char>,
    amount: u128,
)
    requires
        s.wf(),
        owner != recipient,
        !listed(s.pairlist@, owner),
        !listed(s.pairlist@, recipient),
        amount > 0,
        balance_in(s.balances@, owner) >= amount,
        fits(s.balances@, recipient, amount as int),
    ensures
        transfer_effect(s, owner, recipient, amount) is Ok,
        ({
            let (o, b) = transfer_effect(s, owner, recipient, amount)->Ok_0;
            &&& balance_in(s.balances@, owner) - balance_in(b, owner) == amount
            &&& balance_in(b, recipient) - balance_in(s.balances@, recipient) == amount
            &&& forall|a: Seq<char>|
                a != owner && a != recipient ==> #[trigger] balance_in(b, a) == balance_in(
                    s.balances@,
                    a,
                )
            &&& o.delivered == amount
            &&& o.taxed_amount == 0
            &&& !o.treasury_trigger
        }),
{
}

} // verus!
