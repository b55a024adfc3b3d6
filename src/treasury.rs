//! The treasury: binding of the two pools it trades with, and planning of
//! the liquify that turns its token balance into liquidity, a reflected
//! payout and burned supply.

use crate::asset::{Asset, AssetInfo, Coin, Instruction, PairInfo, SwapOperation};
use crate::error::ContractError;
use crate::msg::Cw20HookMsg;
use crate::rate::{apply_rate, lemma_mul_floor_split, mul_floor, Rate, DECIMAL_FRACTIONAL};
use vstd::prelude::*;

verus! {

/// A pool bound to the treasury: its two assets, token first and quote
/// asset second, and its address.
#[derive(Clone, Debug, PartialEq, Eq)]
pub struct PairBinding {
    pub asset_infos: [AssetInfo; 2],
    pub pair_contract: String,
}

/// State of the treasury contract.
pub struct TreasuryState {
    pub admin: String,
    /// The router that runs multi-hop swaps.
    pub router: String,
    /// The taxed token.
    pub token: String,
    /// Smallest balance worth a liquify.
    pub min_liquify_amt: u128,
    /// Pool of the token against the quote asset, which receives liquidity.
    pub liquidity_pair: Option<PairBinding>,
    /// Pool of the reflection target against the quote asset.
    pub reflection_pair: Option<PairBinding>,
    /// Share token of the liquidity pool, which may not be withdrawn.
    pub liquidity_token: Option<String>,
}

/// How a liquify divides the treasury's balance.
#[derive(Clone, Copy, Debug, PartialEq, Eq, Structural)]
pub struct LiquifySplit {
    pub reflect_amt: u128,
    pub burn_amt: u128,
    pub liquidity_amt: u128,
    /// Half of the liquidity part, swapped into the quote asset.
    pub swap_amount: u128,
}

/// The reflection and burn shares that a liquify may use.
pub open spec fn shares_valid(reflection_rate: Rate, burn_rate: Rate) -> bool {
    reflection_rate.atomics + burn_rate.atomics <= DECIMAL_FRACTIONAL
}

/// The split of `balance` under the two shares, each rounded down, with the
/// rest going to liquidity.
pub open spec fn split_spec(balance: u128, reflection_rate: Rate, burn_rate: Rate) -> LiquifySplit {
    let reflect = mul_floor(balance as int, reflection_rate);
    let burn = mul_floor(balance as int, burn_rate);
    let liquidity = balance - reflect - burn;
    LiquifySplit {
        reflect_amt: reflect as u128,
        burn_amt: burn as u128,
        liquidity_amt: liquidity as u128,
        swap_amount: (liquidity / 2) as u128,
    }
}

/// Divides `balance` for a liquify; shares adding up to more than one are
/// refused.
pub fn liquify_split(balance: u128, reflection_rate: Rate, burn_rate: Rate) -> (r: Result<
    LiquifySplit,
    ContractError,
>)
    ensures
        shares_valid(reflection_rate, burn_rate) ==> r == Ok::<LiquifySplit, ContractError>(
            split_spec(balance, reflection_rate, burn_rate),
        ),
        !shares_valid(reflection_rate, burn_rate) ==> r == Err::<LiquifySplit, ContractError>(
            ContractError::InvalidRates,
        ),
{
    if reflection_rate.atomics > DECIMAL_FRACTIONAL || burn_rate.atomics > DECIMAL_FRACTIONAL
        - reflection_rate.atomics {
        return Err(ContractError::InvalidRates);
    }
    let reflect_amt = apply_rate(balance, reflection_rate);
    let burn_amt = apply_rate(balance, burn_rate);
    proof {
        lemma_mul_floor_split(balance as int, reflection_rate, burn_rate);
    }
    let liquidity_amt = balance - reflect_amt - burn_amt;
    Ok(LiquifySplit { reflect_amt, burn_amt, liquidity_amt, swap_amount: liquidity_amt / 2 })
}

/// For any valid pair of shares the reflected, burned and liquidity parts
/// add up to exactly the balance, and the swapped half with what is kept
/// makes up the liquidity part.
pub proof fn lemma_split_exact(balance: u128, reflection_rate: Rate, burn_rate: Rate)
    requires
        shares_valid(reflection_rate, burn_rate),
    ensures
        ({
            let s = split_spec(balance, reflection_rate, burn_rate);
            &&& s.reflect_amt + s.burn_amt + s.liquidity_amt == balance
            &&& s.swap_amount + (s.liquidity_amt - s.swap_amount) == s.liquidity_amt
            &&& s.swap_amount <= s.liquidity_amt
        }),
{
    lemma_mul_floor_split(balance as int, reflection_rate, burn_rate);
}

/// Instructions that add the liquidity part to the liquidity pool: allow
/// the pool the kept half, swap the other half, and deposit the kept half
/// with the `simulated` return of the swap.
pub open spec fn liquidity_leg(
    token: String,
    lp: PairBinding,
    quote: AssetInfo,
    liquidity_amt: u128,
    simulated: u128,
) -> Seq<Instruction> {
    let swap = liquidity_amt / 2;
    let keep = (liquidity_amt - swap) as u128;
    let token_asset = Asset { info: lp.asset_infos[0], amount: keep };
    let quote_asset = Asset { info: lp.asset_infos[1], amount: simulated };
    let head = seq![
        Instruction::IncreaseAllowance { token, spender: lp.pair_contract, amount: keep },
        Instruction::SwapViaSend { token, pair_contract: lp.pair_contract, amount: swap },
    ];
    match quote {
        AssetInfo::NativeToken { denom } => head.push(
            Instruction::ProvideLiquidity {
                pair_contract: lp.pair_contract,
                token_asset,
                quote_asset,
                funds: Some(Coin { denom, amount: simulated }),
            },
        ),
        AssetInfo::Token { contract_addr } => head.push(
            Instruction::IncreaseAllowance {
                token: contract_addr,
                spender: lp.pair_contract,
                amount: simulated,
            },
        ).push(
            Instruction::ProvideLiquidity {
                pair_contract: lp.pair_contract,
                token_asset,
                quote_asset,
                funds: None,
            },
        ),
    }
}

/// The routed swap of the reflection part: token to the quote asset, then
/// the quote asset to the reflection target.
pub open spec fn reflection_leg(
    token: String,
    router: String,
    rp: PairBinding,
    reflect_amt: u128,
) -> Instruction {
    Instruction::ExecuteSwapOperations {
        token,
        router,
        amount: reflect_amt,
        first: SwapOperation::DojoSwap {
            offer_asset_info: AssetInfo::Token { contract_addr: token },
            ask_asset_info: rp.asset_infos[1],
        },
        second: SwapOperation::DojoSwap {
            offer_asset_info: rp.asset_infos[1],
            ask_asset_info: rp.asset_infos[0],
        },
    }
}

/// The whole plan of a liquify on a bound treasury holding at least the
/// minimum: liquidity leg, reflection leg and burn, each only when its part
/// is not zero.
pub open spec fn liquify_instructions(
    s: TreasuryState,
    split: LiquifySplit,
    simulated: u128,
) -> Seq<Instruction> {
    let lp = s.liquidity_pair->Some_0;
    let rp = s.reflection_pair->Some_0;
    let liquidity = if split.liquidity_amt > 0 {
        liquidity_leg(s.token, lp, rp.asset_infos[1], split.liquidity_amt, simulated)
    } else {
        Seq::empty()
    };
    let reflection = if split.reflect_amt > 0 {
        seq![reflection_leg(s.token, s.router, rp, split.reflect_amt)]
    } else {
        Seq::empty()
    };
    let burn = if split.burn_amt > 0 {
        seq![Instruction::Burn { token: s.token, amount: split.burn_amt }]
    } else {
        Seq::empty()
    };
    liquidity + reflection + burn
}

impl TreasuryState {
    /// Both pools that a liquify needs are bound.
    pub open spec fn is_bound(&self) -> bool {
        self.liquidity_pair is Some && self.reflection_pair is Some
    }

    /// The result of a liquify of `balance` under the two shares, the swap
    /// of half the liquidity part returning `simulated`.
    pub open spec fn liquify_spec(
        &self,
        balance: u128,
        reflection_rate: Rate,
        burn_rate: Rate,
        simulated: u128,
    ) -> Result<Seq<Instruction>, ContractError> {
        if !self.is_bound() {
            Err(ContractError::ConfigurationMissing)
        } else if balance < self.min_liquify_amt {
            Ok(Seq::empty())
        } else if !shares_valid(reflection_rate, burn_rate) {
            Err(ContractError::InvalidRates)
        } else {
            Ok(
                liquify_instructions(
                    *self,
                    split_spec(balance, reflection_rate, burn_rate),
                    simulated,
                ),
            )
        }
    }

    /// A treasury administered by `admin`, trading through `router` for the
    /// token at `token`, with no pool bound and no minimum.
    pub fn new(admin: String, router: String, token: String) -> (r: TreasuryState)
        ensures
            r.admin == admin,
            r.router == router,
            r.token == token,
            r.min_liquify_amt == 0,
            r.liquidity_pair is None,
            r.reflection_pair is None,
            r.liquidity_token is None,
    {
        TreasuryState {
            admin,
            router,
            token,
            min_liquify_amt: 0,
            liquidity_pair: None,
            reflection_pair: None,
            liquidity_token: None,
        }
    }

    /// The swap to simulate before a liquify of `balance`: half the
    /// liquidity part, offered as the liquidity pool's first asset. None when
    /// the balance is below the minimum or there is no liquidity part.
    pub fn simulation_offer(&self, balance: u128, reflection_rate: Rate, burn_rate: Rate) -> (r:
        Result<Option<Asset>, ContractError>)
        ensures
            !self.is_bound() ==> r == Err::<Option<Asset>, ContractError>(
                ContractError::ConfigurationMissing,
            ),
            self.is_bound() && balance < self.min_liquify_amt ==> r == Ok::<
                Option<Asset>,
                ContractError,
            >(None),
            self.is_bound() && balance >= self.min_liquify_amt && !shares_valid(
                reflection_rate,
                burn_rate,
            ) ==> r == Err::<Option<Asset>, ContractError>(ContractError::InvalidRates),
            self.is_bound() && balance >= self.min_liquify_amt && shares_valid(
                reflection_rate,
                burn_rate,
            ) ==> r == Ok::<Option<Asset>, ContractError>(
                if split_spec(balance, reflection_rate, burn_rate).liquidity_amt > 0 {
                    Some(
                        Asset {
                            info: self.liquidity_pair->Some_0.asset_infos[0],
                            amount: split_spec(balance, reflection_rate, burn_rate).swap_amount,
                        },
                    )
                } else {
                    None
                },
            ),
    {
        let lp = match &self.liquidity_pair {
            Some(lp) => lp,
            None => return Err(ContractError::ConfigurationMissing),
        };
        if self.reflection_pair.is_none() {
            return Err(ContractError::ConfigurationMissing);
        }
        if balance < self.min_liquify_amt {
            return Ok(None);
        }
        let split = liquify_split(balance, reflection_rate, burn_rate)?;
        if split.liquidity_amt > 0 {
            Ok(Some(Asset { info: lp.asset_infos[0].duplicate(), amount: split.swap_amount }))
        } else {
            Ok(None)
        }
    }

    /// Plans a liquify of the treasury's `balance` under the token's current
    /// reflection and burn shares, `simulated` being the return of swapping
    /// the half named by [`Self::simulation_offer`].
    pub fn liquify_treasury(
        &self,
        balance: u128,
        reflection_rate: Rate,
        burn_rate: Rate,
        simulated: u128,
    ) -> (r: Result<Vec<Instruction>, ContractError>)
        ensures
            match self.liquify_spec(balance, reflection_rate, burn_rate, simulated) {
                Ok(plan) => r matches Ok(v) && v@ == plan,
                Err(e) => r == Err::<Vec<Instruction>, ContractError>(e),
            },
    {
        let lp = match &self.liquidity_pair {
            Some(lp) => lp,
            None => return Err(ContractError::ConfigurationMissing),
        };
        let rp = match &self.reflection_pair {
            Some(rp) => rp,
            None => return Err(ContractError::ConfigurationMissing),
        };
        let mut messages: Vec<Instruction> = Vec::new();
        if balance < self.min_liquify_amt {
            return Ok(messages);
        }
        let split = match liquify_split(balance, reflection_rate, burn_rate) {
            Ok(split) => split,
            Err(e) => return Err(e),
        };
        proof {
            lemma_split_exact(balance, reflection_rate, burn_rate);
            lemma_mul_floor_split(balance as int, reflection_rate, burn_rate);
        }
        let ghost lp_spec = *lp;
        let ghost rp_spec = *rp;
        let ghost liquidity_part: Seq<Instruction> = Seq::empty();
        if split.liquidity_amt > 0 {
            let swap_amount = split.swap_amount;
            let keep = split.liquidity_amt - swap_amount;
            messages.push(
                Instruction::IncreaseAllowance {
                    token: self.token.clone(),
                    spender: lp.pair_contract.clone(),
                    amount: keep,
                },
            );
            messages.push(
                Instruction::SwapViaSend {
                    token: self.token.clone(),
                    pair_contract: lp.pair_contract.clone(),
                    amount: swap_amount,
                },
            );
            let token_asset = Asset { info: lp.asset_infos[0].duplicate(), amount: keep };
            let quote_asset = Asset { info: lp.asset_infos[1].duplicate(), amount: simulated };
            match &rp.asset_infos[1] {
                AssetInfo::NativeToken { denom } => {
                    messages.push(
                        Instruction::ProvideLiquidity {
                            pair_contract: lp.pair_contract.clone(),
                            token_asset,
                            quote_asset,
                            funds: Some(Coin { denom: denom.clone(), amount: simulated }),
                        },
                    );
                },
                AssetInfo::Token { contract_addr } => {
                    messages.push(
                        Instruction::IncreaseAllowance {
                            token: contract_addr.clone(),
                            spender: lp.pair_contract.clone(),
                            amount: simulated,
                        },
                    );
                    messages.push(
                        Instruction::ProvideLiquidity {
                            pair_contract: lp.pair_contract.clone(),
                            token_asset,
                            quote_asset,
                            funds: None,
                        },
                    );
                },
            }
            proof {
                liquidity_part = liquidity_leg(
                    self.token,
                    lp_spec,
                    rp_spec.asset_infos[1],
                    split.liquidity_amt,
                    simulated,
                );
                assert(messages@ =~= liquidity_part);
            }
        }
        assert(messages@ =~= liquidity_part);
        if split.reflect_amt > 0 {
            messages.push(
                Instruction::ExecuteSwapOperations {
                    token: self.token.clone(),
                    router: self.router.clone(),
                    amount: split.reflect_amt,
                    first: SwapOperation::DojoSwap {
                        offer_asset_info: AssetInfo::Token { contract_addr: self.token.clone() },
                        ask_asset_info: rp.asset_infos[1].duplicate(),
                    },
                    second: SwapOperation::DojoSwap {
                        offer_asset_info: rp.asset_infos[1].duplicate(),
                        ask_asset_info: rp.asset_infos[0].duplicate(),
                    },
                },
            );
        }
        let ghost reflection_part = if split.reflect_amt > 0 {
            seq![reflection_leg(self.token, self.router, rp_spec, split.reflect_amt)]
        } else {
            Seq::<Instruction>::empty()
        };
        assert(messages@ =~= liquidity_part + reflection_part);
        if split.burn_amt > 0 {
            messages.push(Instruction::Burn { token: self.token.clone(), amount: split.burn_amt });
        }
        let ghost burn_part = if split.burn_amt > 0 {
            seq![Instruction::Burn { token: self.token, amount: split.burn_amt }]
        } else {
            Seq::<Instruction>::empty()
        };
        assert(messages@ =~= liquidity_part + reflection_part + burn_part);
        Ok(messages)
    }
}

/// `a` is one of the two assets of `pool`.
pub open spec fn in_pool(a: AssetInfo, pool: [AssetInfo; 2]) -> bool {
    pool[0].same_as(&a) || pool[1].same_as(&a)
}

/// Whether `a` is one of the two assets of `pool`.
fn find_in_pool(a: &AssetInfo, pool: &[AssetInfo; 2]) -> (r: bool)
    ensures
        r == in_pool(*a, *pool),
{
    pool[0].equal(a) || pool[1].equal(a)
}

impl TreasuryState {
    /// The quote assets of the two pools agree once both are bound.
    pub open spec fn wf(&self) -> bool {
        self.is_bound() ==> self.liquidity_pair->Some_0.asset_infos[1].same_as(
            &self.reflection_pair->Some_0.asset_infos[1],
        )
    }

    /// The state after binding the liquidity pool, or the error.
    pub open spec fn bind_liquidity_spec(
        &self,
        sender: Seq<char>,
        asset_infos: [AssetInfo; 2],
        pair_contract: String,
        pair_info: PairInfo,
    ) -> Result<TreasuryState, ContractError> {
        if sender != self.admin@ {
            Err(ContractError::Unauthorized)
        } else if self.reflection_pair is Some && !self.reflection_pair->Some_0.asset_infos[1].same_as(
            &asset_infos[1],
        ) {
            Err(ContractError::MismatchedQuoteAsset)
        } else if pair_info.asset_infos[0] is NativeToken {
            Err(ContractError::NotCw20Token)
        } else if !asset_infos[0].is_token_at(self.token@) {
            Err(ContractError::NotOwnToken)
        } else if !in_pool(asset_infos[0], pair_info.asset_infos) || !in_pool(
            asset_infos[1],
            pair_info.asset_infos,
        ) {
            Err(ContractError::AssetNotInPool)
        } else {
            Ok(
                TreasuryState {
                    liquidity_pair: Some(PairBinding { asset_infos, pair_contract }),
                    liquidity_token: Some(pair_info.liquidity_token),
                    ..*self
                },
            )
        }
    }

    /// The state after binding the reflection pool, or the error.
    pub open spec fn bind_reflection_spec(
        &self,
        sender: Seq<char>,
        asset_infos: [AssetInfo; 2],
        pair_contract: String,
        pair_info: PairInfo,
    ) -> Result<TreasuryState, ContractError> {
        if sender != self.admin@ {
            Err(ContractError::Unauthorized)
        } else if self.liquidity_pair is Some && !self.liquidity_pair->Some_0.asset_infos[1].same_as(
            &asset_infos[1],
        ) {
            Err(ContractError::MismatchedQuoteAsset)
        } else if !in_pool(asset_infos[0], pair_info.asset_infos) || !in_pool(
            asset_infos[1],
            pair_info.asset_infos,
        ) {
            Err(ContractError::AssetNotInPool)
        } else {
            Ok(
                TreasuryState {
                    reflection_pair: Some(PairBinding { asset_infos, pair_contract }),
                    ..*self
                },
            )
        }
    }

    /// Succeeds exactly when `sender` is the admin.
    pub fn ensure_admin(&self, sender: &String) -> (r: Result<(), ContractError>)
        ensures
            r == if sender@ == self.admin@ {
                Ok::<(), ContractError>(())
            } else {
                Err(ContractError::Unauthorized)
            },
    {
        if *sender != self.admin {
            return Err(ContractError::Unauthorized);
        }
        Ok(())
    }

    /// Binds the pool that receives liquidity. Its assets are this token
    /// and the quote asset, in that order; `pair_info` is what the pool at
    /// `pair_contract` reports of itself. On an error nothing changes.
    pub fn set_liquidity_pair(
        &mut self,
        sender: &String,
        asset_infos: [AssetInfo; 2],
        pair_contract: String,
        pair_info: &PairInfo,
    ) -> (r: Result<(), ContractError>)
        requires
            old(self).wf(),
        ensures
            final(self).wf(),
            match old(self).bind_liquidity_spec(sender@, asset_infos, pair_contract, *pair_info) {
                Ok(s) => r is Ok && *final(self) == s,
                Err(e) => r == Err::<(), ContractError>(e) && *final(self) == *old(self),
            },
    {
        self.ensure_admin(sender)?;
        if let Some(rp) = &self.reflection_pair {
            if !rp.asset_infos[1].equal(&asset_infos[1]) {
                return Err(ContractError::MismatchedQuoteAsset);
            }
        }
        if let AssetInfo::NativeToken { .. } = &pair_info.asset_infos[0] {
            return Err(ContractError::NotCw20Token);
        }
        let own = match &asset_infos[0] {
            AssetInfo::Token { contract_addr } => *contract_addr == self.token,
            AssetInfo::NativeToken { .. } => false,
        };
        if !own {
            return Err(ContractError::NotOwnToken);
        }
        if !find_in_pool(&asset_infos[0], &pair_info.asset_infos) || !find_in_pool(
            &asset_infos[1],
            &pair_info.asset_infos,
        ) {
            return Err(ContractError::AssetNotInPool);
        }
        self.liquidity_token = Some(pair_info.liquidity_token.clone());
        self.liquidity_pair = Some(PairBinding { asset_infos, pair_contract });
        Ok(())
    }

    /// Binds the pool of the reflection target. Its assets are the target
    /// and the quote asset, in that order; `pair_info` is what the pool at
    /// `pair_contract` reports of itself. On an error nothing changes.
    pub fn set_reflection_pair(
        &mut self,
        sender: &String,
        asset_infos: [AssetInfo; 2],
        pair_contract: String,
        pair_info: &PairInfo,
    ) -> (r: Result<(), ContractError>)
        requires
            old(self).wf(),
        ensures
            final(self).wf(),
            match old(self).bind_reflection_spec(sender@, asset_infos, pair_contract, *pair_info) {
                Ok(s) => r is Ok && *final(self) == s,
                Err(e) => r == Err::<(), ContractError>(e) && *final(self) == *old(self),
            },
    {
        self.ensure_admin(sender)?;
        if let Some(lp) = &self.liquidity_pair {
            if !lp.asset_infos[1].equal(&asset_infos[1]) {
                return Err(ContractError::MismatchedQuoteAsset);
            }
        }
        if !find_in_pool(&asset_infos[0], &pair_info.asset_infos) || !find_in_pool(
            &asset_infos[1],
            &pair_info.asset_infos,
        ) {
            return Err(ContractError::AssetNotInPool);
        }
        self.reflection_pair = Some(PairBinding { asset_infos, pair_contract });
        Ok(())
    }

    /// Sets the smallest balance worth a liquify; only the admin may.
    pub fn set_min_liquify_amt(&mut self, sender: &String, min_liquify_amt: u128) -> (r: Result<
        (),
        ContractError,
    >)
        ensures
            r == if sender@ == old(self).admin@ {
                Ok::<(), ContractError>(())
            } else {
                Err(ContractError::Unauthorized)
            },
            r is Ok ==> *final(self) == (TreasuryState { min_liquify_amt, ..*old(self) }),
            r is Err ==> *final(self) == *old(self),
    {
        self.ensure_admin(sender)?;
        self.min_liquify_amt = min_liquify_amt;
        Ok(())
    }

    /// The transfer that withdraws the treasury's whole `balance` of `token`
    /// to the admin; the share token of the liquidity pool may not be
    /// withdrawn.
    pub fn withdraw_token(&self, sender: &String, token: &String, balance: u128) -> (r: Result<
        Instruction,
        ContractError,
    >)
        ensures
            r == if sender@ != self.admin@ {
                Err(ContractError::Unauthorized)
            } else if token@ == (match self.liquidity_token {
                Some(t) => t@,
                None => Seq::<char>::empty(),
            }) {
                Err(ContractError::LiquidityTokenProtected)
            } else {
                Ok::<Instruction, ContractError>(
                    Instruction::Transfer { token: *token, recipient: *sender, amount: balance },
                )
            },
    {
        self.ensure_admin(sender)?;
        let protected = match &self.liquidity_token {
            Some(t) => *token == *t,
            None => *token == String::new(),
        };
        if protected {
            return Err(ContractError::LiquidityTokenProtected);
        }
        Ok(Instruction::Transfer { token: token.clone(), recipient: sender.clone(), amount: balance })
    }

    /// Accepts a liquify request that came with tokens sent to the treasury:
    /// only the token itself may make one, and `hook` is the request read
    /// from the message, if it could be read.
    pub fn receive_cw20(&self, sender: &String, hook: Option<Cw20HookMsg>) -> (r: Result<
        (),
        ContractError,
    >)
        ensures
            r == if hook is Some && sender@ == self.token@ {
                Ok::<(), ContractError>(())
            } else {
                Err(ContractError::Unauthorized)
            },
    {
        match hook {
            Some(Cw20HookMsg::Liquify) => {
                if *sender != self.token {
                    return Err(ContractError::Unauthorized);
                }
                Ok(())
            },
            None => Err(ContractError::Unauthorized),
        }
    }
}

/// Binding a reflection pool whose quote asset differs from that of the
/// bound liquidity pool fails with a mismatch, and so leaves both bindings
/// as they were.
pub proof fn lemma_mismatched_quote_rejected(
    s: TreasuryState,
    sender: Seq<char>,
    asset_infos: [AssetInfo; 2],
    pair_contract: String,
    pair_info: PairInfo,
)
    requires
        s.wf(),
        sender == s.admin@,
        s.liquidity_pair is Some,
        !s.liquidity_pair->Some_0.asset_infos[1].same_as(&asset_infos[1]),
    ensures
        s.bind_reflection_spec(sender, asset_infos, pair_contract, pair_info) == Err::<
            TreasuryState,
            ContractError,
        >(ContractError::MismatchedQuoteAsset),
{
}

/// The same holds the other way round: binding a liquidity pool whose quote
/// asset differs from that of the bound reflection pool fails with a
/// mismatch.
pub proof fn lemma_mismatched_quote_rejected_liquidity(
    s: TreasuryState,
    sender: Seq<char>,
    asset_infos: [AssetInfo; 2],
    pair_contract: String,
    pair_info: PairInfo,
)
    requires
        s.wf(),
        sender == s.admin@,
        s.reflection_pair is Some,
        !s.reflection_pair->Some_0.asset_infos[1].same_as(&asset_infos[1]),
    ensures
        s.bind_liquidity_spec(sender, asset_infos, pair_contract, pair_info) == Err::<
            TreasuryState,
            ContractError,
        >(ContractError::MismatchedQuoteAsset),
{
}

} // verus!
