//! Assets of the trading venues, and the instructions the treasury plans.

use vstd::prelude::*;

verus! {

/// A kind of asset: a token contract or a native coin.
#[derive(Clone, Debug, PartialEq, Eq)]
pub enum AssetInfo {
    Token { contract_addr: String },
    NativeToken { denom: String },
}

impl AssetInfo {
    /// Both name the same asset.
    pub open spec fn same_as(&self, o: &AssetInfo) -> bool {
        match *self {
            AssetInfo::Token { contract_addr: a } => match *o {
                AssetInfo::Token { contract_addr: b } => a@ == b@,
                AssetInfo::NativeToken { .. } => false,
            },
            AssetInfo::NativeToken { denom: a } => match *o {
                AssetInfo::Token { .. } => false,
                AssetInfo::NativeToken { denom: b } => a@ == b@,
            },
        }
    }

    /// This is the token contract at `addr`.
    pub open spec fn is_token_at(&self, addr: Seq<char>) -> bool {
        match *self {
            AssetInfo::Token { contract_addr } => contract_addr@ == addr,
            AssetInfo::NativeToken { .. } => false,
        }
    }

    /// Whether both name the same asset.
    pub fn equal(&self, asset: &AssetInfo) -> (r: bool)
        ensures
            r == self.same_as(asset),
    {
        match self {
            AssetInfo::Token { contract_addr } => {
                let a = contract_addr;
                match asset {
                    AssetInfo::Token { contract_addr } => *a == *contract_addr,
                    AssetInfo::NativeToken { .. } => false,
                }
            },
            AssetInfo::NativeToken { denom } => {
                let a = denom;
                match asset {
                    AssetInfo::Token { .. } => false,
                    AssetInfo::NativeToken { denom } => *a == *denom,
                }
            },
        }
    }

    /// A copy of this asset.
    pub fn duplicate(&self) -> (r: AssetInfo)
        ensures
            r == *self,
    {
        match self {
            AssetInfo::Token { contract_addr } => AssetInfo::Token {
                contract_addr: contract_addr.clone(),
            },
            AssetInfo::NativeToken { denom } => AssetInfo::NativeToken { denom: denom.clone() },
        }
    }
}

/// An amount of an asset.
#[derive(Clone, Debug, PartialEq, Eq)]
pub struct Asset {
    pub info: AssetInfo,
    pub amount: u128,
}

/// An amount of a native coin attached to an instruction.
#[derive(Clone, Debug, PartialEq, Eq)]
pub struct Coin {
    pub denom: String,
    pub amount: u128,
}

/// What a pool reports of itself.
#[derive(Clone, Debug, PartialEq, Eq)]
pub struct PairInfo {
    /// The pool's two assets, in its own order.
    pub asset_infos: [AssetInfo; 2],
    /// The token that stands for shares of the pool.
    pub liquidity_token: String,
}

/// One hop of a routed swap.
#[derive(Clone, Debug, PartialEq, Eq)]
pub enum SwapOperation {
    DojoSwap { offer_asset_info: AssetInfo, ask_asset_info: AssetInfo },
}

/// An instruction to another contract, to run after the planning logic and
/// in the order planned.
#[derive(Clone, Debug, PartialEq, Eq)]
pub enum Instruction {
    /// Lets `spender` draw `amount` of the token at `token`.
    IncreaseAllowance { token: String, spender: String, amount: u128 },
    /// Sends `amount` of `token` to the pool at `pair_contract` to be swapped.
    SwapViaSend { token: String, pair_contract: String, amount: u128 },
    /// Deposits two assets into the pool at `pair_contract`, with `funds`
    /// attached when the quote asset is a native coin.
    ProvideLiquidity {
        pair_contract: String,
        token_asset: Asset,
        quote_asset: Asset,
        funds: Option<Coin>,
    },
    /// Sends `amount` of `token` to the router to be swapped along two hops.
    ExecuteSwapOperations {
        token: String,
        router: String,
        amount: u128,
        first: SwapOperation,
        second: SwapOperation,
    },
    /// Burns `amount` of `token`.
    Burn { token: String, amount: u128 },
    /// Transfers `amount` of `token` to `recipient`.
    Transfer { token: String, recipient: String, amount: u128 },
}

} // verus!
