use vstd::prelude::*;

use crate::lockup::{LockupExecuteMsg, LockupQueryMsg};

verus! {

/// An extension that carries nothing, for a vault that defines no messages
/// of its own.
#[derive(Clone, Debug, PartialEq, Eq)]
pub struct Empty {}

/// An amount of one native denomination, attached as funds to a call.
#[derive(Clone, Debug, PartialEq, Eq)]
pub struct Coin {
    pub denom: String,
    pub amount: u128,
}

/// The execute messages of the vault standard, with `T` the vault's own
/// extension messages.
#[derive(Clone, Debug, PartialEq, Eq)]
pub enum VaultStandardExecuteMsg<T = ExtensionExecuteMsg> {
    /// Deposits `amount` of base tokens, attached as funds (or approved
    /// beforehand for a contract token). The vault credits vault tokens to
    /// `recipient`, or to the caller when it is `None`.
    Deposit { amount: u128, recipient: Option<String> },
    /// Redeems `amount` of vault tokens, attached as funds. The vault burns
    /// them and sends the base tokens to `recipient`, or to the caller when it
    /// is `None`.
    Redeem { recipient: Option<String>, amount: u128 },
    /// A message that the vault defines beyond the standard.
    VaultExtension(T),
}

/// The query messages of the vault standard, with `T` the vault's own
/// extension queries. Each variant has one response shape, given by
/// `response_shape`.
#[derive(Clone, Debug, PartialEq, Eq)]
pub enum VaultStandardQueryMsg<T = ExtensionQueryMsg> {
    /// Answered with a `VaultStandardInfoResponse`.
    VaultStandardInfo,
    /// Answered with a `VaultInfoResponse`.
    Info,
    /// The vault tokens that a deposit of `amount` base tokens would mint
    /// now, fees included, deposit limits ignored, rounded in the vault's
    /// favour.
    PreviewDeposit { amount: u128 },
    /// The base tokens that redeeming `amount` vault tokens would return now.
    PreviewRedeem { amount: u128 },
    /// The most base tokens that a deposit for `recipient` would accept;
    /// `None` for no limit, `0` while deposits are disabled.
    MaxDeposit { recipient: String },
    /// The most vault tokens that `owner` could redeem; `None` for no limit.
    MaxRedeem { owner: String },
    /// The assets that the vault manages, in base tokens.
    TotalAssets,
    /// The vault tokens in circulation.
    TotalVaultTokenSupply,
    /// Vault tokens for `amount` base tokens at the average exchange rate.
    ConvertToShares { amount: u128 },
    /// Base tokens for `amount` vault tokens at the average exchange rate.
    ConvertToAssets { amount: u128 },
    /// A query that the vault defines beyond the standard; its response
    /// shape is the extension's own.
    VaultExtension(T),
}

/// The shape of the response that a query is answered with.
#[derive(Clone, Copy, Debug, PartialEq, Eq, Structural)]
pub enum ResponseShape {
    VaultStandardInfo,
    VaultInfo,
    /// A single token amount.
    Amount,
    /// A token amount, or none for no limit.
    OptionalAmount,
    /// Whatever the extension declares for the query.
    Extension,
    /// A token balance.
    Balance,
    /// Name, symbol, decimals and supply of a token.
    TokenInfo,
    /// An allowance and its expiration.
    Allowance,
    /// The minter and its cap, if any.
    Minter,
    /// Marketing metadata.
    MarketingInfo,
    /// A logo's MIME type and bytes.
    DownloadLogo,
    /// A page of allowances.
    AllAllowances,
    /// A page of accounts.
    AllAccounts,
    /// A list of lockups.
    Lockups,
    /// A single lockup.
    Lockup,
    /// A duration.
    Duration,
}

impl<T> VaultStandardQueryMsg<T> {
    pub open spec fn spec_response_shape(&self) -> ResponseShape {
        match self {
            VaultStandardQueryMsg::VaultStandardInfo => ResponseShape::VaultStandardInfo,
            VaultStandardQueryMsg::Info => ResponseShape::VaultInfo,
            VaultStandardQueryMsg::MaxDeposit { .. } => ResponseShape::OptionalAmount,
            VaultStandardQueryMsg::MaxRedeem { .. } => ResponseShape::OptionalAmount,
            VaultStandardQueryMsg::VaultExtension(_) => ResponseShape::Extension,
            _ => ResponseShape::Amount,
        }
    }

    /// The shape of the response that a conforming vault answers this query
    /// with.
    pub fn response_shape(&self) -> (r: ResponseShape)
        ensures
            r == self.spec_response_shape(),
    {
        match self {
            VaultStandardQueryMsg::VaultStandardInfo => ResponseShape::VaultStandardInfo,
            VaultStandardQueryMsg::Info => ResponseShape::VaultInfo,
            VaultStandardQueryMsg::PreviewDeposit { .. } => ResponseShape::Amount,
            VaultStandardQueryMsg::PreviewRedeem { .. } => ResponseShape::Amount,
            VaultStandardQueryMsg::MaxDeposit { .. } => ResponseShape::OptionalAmount,
            VaultStandardQueryMsg::MaxRedeem { .. } => ResponseShape::OptionalAmount,
            VaultStandardQueryMsg::TotalAssets => ResponseShape::Amount,
            VaultStandardQueryMsg::TotalVaultTokenSupply => ResponseShape::Amount,
            VaultStandardQueryMsg::ConvertToShares { .. } => ResponseShape::Amount,
            VaultStandardQueryMsg::ConvertToAssets { .. } => ResponseShape::Amount,
            VaultStandardQueryMsg::VaultExtension(_) => ResponseShape::Extension,
        }
    }
}

/// The response to `VaultStandardInfo`: the version of the standard that the
/// vault implements and the extensions it enables.
#[derive(Clone, Debug, PartialEq, Eq)]
pub struct VaultStandardInfoResponse {
    pub version: u16,
    pub extensions: Vec<String>,
}

/// The response to `Info`: the base token that the vault accepts and the
/// vault token it issues.
#[derive(Clone, Debug, PartialEq, Eq)]
pub struct VaultInfoResponse {
    pub base_token: String,
    pub vault_token: String,
}

/// The extension execute messages that a vault without other extensions
/// accepts.
#[derive(Clone, Debug, PartialEq, Eq)]
pub enum ExtensionExecuteMsg {
    Lockup(LockupExecuteMsg),
}

/// The extension queries that a vault without other extensions answers.
#[derive(Clone, Debug, PartialEq, Eq)]
pub enum ExtensionQueryMsg {
    Lockup(LockupQueryMsg),
}

} // verus!
