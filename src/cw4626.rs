use vstd::prelude::*;

use crate::lockup::Expiration;
use crate::msg::{Empty, ResponseShape, ExtensionExecuteMsg, ExtensionQueryMsg};

verus! {

/// A token logo: a link to one, or the image itself.
#[derive(Clone, Debug, PartialEq, Eq)]
pub enum Logo {
    Url(String),
    Embedded(EmbeddedLogo),
}

/// A logo image stored on chain.
#[derive(Clone, Debug, PartialEq, Eq)]
pub enum EmbeddedLogo {
    /// An SVG image, as its bytes.
    Svg(Vec<u8>),
    /// A PNG image, as its bytes.
    Png(Vec<u8>),
}

/// The execute messages of a vault whose vault token is itself a fungible
/// token contract: the token standard's messages, then the vault's own.
#[allow(inconsistent_fields)]
#[derive(Clone, Debug, PartialEq, Eq)]
pub enum Cw4626ExecuteMsg<T = ExtensionExecuteMsg, S = Empty> {
    /// Moves `amount` vault tokens to `recipient` without triggering anything.
    Transfer { recipient: String, amount: u128 },
    /// Moves `amount` vault tokens to `contract` and triggers `msg` there.
    Send { contract: String, amount: u128, msg: Vec<u8> },
    /// Raises what `spender` may take from the caller by `amount`; `expires`,
    /// when given, replaces the allowance's expiration.
    IncreaseAllowance { spender: String, amount: u128, expires: Option<Expiration> },
    /// Lowers what `spender` may take from the caller by `amount`; `expires`,
    /// when given, replaces the allowance's expiration.
    DecreaseAllowance { spender: String, amount: u128, expires: Option<Expiration> },
    /// Moves `amount` tokens from `owner` to `recipient` within the caller's
    /// allowance.
    TransferFrom { owner: String, recipient: String, amount: u128 },
    /// Moves `amount` tokens from `owner` to `contract` within the caller's
    /// allowance and triggers `msg` there.
    SendFrom { owner: String, contract: String, amount: u128, msg: Vec<u8> },
    /// Updates the marketing metadata; `None` leaves a field unchanged and an
    /// empty string clears it.
    UpdateMarketing {
        project: Option<String>,
        description: Option<String>,
        marketing: Option<String>,
    },
    /// Replaces the token's logo.
    UploadLogo(Logo),
    /// See `VaultStandardExecuteMsg::Deposit`.
    Deposit { amount: u128, recipient: Option<String> },
    /// See `VaultStandardExecuteMsg::Redeem`.
    Redeem { amount: u128, recipient: Option<String> },
    /// A message that the vault sends to itself.
    Callback(S),
    /// A message that the vault defines beyond the standard.
    VaultExtension(T),
}

/// The queries of a vault whose vault token is itself a fungible token
/// contract: the token standard's queries, then the vault standard's.
#[derive(Clone, Debug, PartialEq, Eq)]
pub enum Cw4626QueryMsg<T = ExtensionQueryMsg> {
    /// The balance of `address`, 0 if it has none.
    Balance { address: String },
    /// Name, symbol, decimals and supply of the token.
    TokenInfo,
    /// What `spender` may take from `owner`, 0 if nothing.
    Allowance { owner: String, spender: String },
    /// Who may mint, and the cap on the supply.
    Minter,
    /// The marketing metadata.
    MarketingInfo,
    /// The logo stored on chain.
    DownloadLogo,
    /// The allowances that `owner` has granted, one page of them.
    AllAllowances { owner: String, start_after: Option<String>, limit: Option<u32> },
    /// The accounts that hold a balance, one page of them.
    AllAccounts { start_after: Option<String>, limit: Option<u32> },
    /// See `VaultStandardQueryMsg::VaultStandardInfo`.
    VaultStandardInfo,
    /// See `VaultStandardQueryMsg::Info`.
    Info,
    /// See `VaultStandardQueryMsg::PreviewDeposit`.
    PreviewDeposit { amount: u128 },
    /// See `VaultStandardQueryMsg::PreviewRedeem`.
    PreviewRedeem { amount: u128 },
    /// See `VaultStandardQueryMsg::MaxDeposit`.
    MaxDeposit { recipient: String },
    /// See `VaultStandardQueryMsg::MaxRedeem`.
    MaxRedeem { owner: String },
    /// See `VaultStandardQueryMsg::TotalAssets`.
    TotalAssets,
    /// See `VaultStandardQueryMsg::TotalVaultTokenSupply`.
    TotalVaultTokenSupply,
    /// See `VaultStandardQueryMsg::ConvertToShares`.
    ConvertToShares { amount: u128 },
    /// See `VaultStandardQueryMsg::ConvertToAssets`.
    ConvertToAssets { amount: u128 },
    /// A query that the vault defines beyond the standard.
    VaultExtension(T),
}

impl<T> Cw4626QueryMsg<T> {
    pub open spec fn spec_response_shape(&self) -> ResponseShape {
        match self {
            Cw4626QueryMsg::Balance { .. } => ResponseShape::Balance,
            Cw4626QueryMsg::TokenInfo => ResponseShape::TokenInfo,
            Cw4626QueryMsg::Allowance { .. } => ResponseShape::Allowance,
            Cw4626QueryMsg::Minter => ResponseShape::Minter,
            Cw4626QueryMsg::MarketingInfo => ResponseShape::MarketingInfo,
            Cw4626QueryMsg::DownloadLogo => ResponseShape::DownloadLogo,
            Cw4626QueryMsg::AllAllowances { .. } => ResponseShape::AllAllowances,
            Cw4626QueryMsg::AllAccounts { .. } => ResponseShape::AllAccounts,
            Cw4626QueryMsg::VaultStandardInfo => ResponseShape::VaultStandardInfo,
            Cw4626QueryMsg::Info => ResponseShape::VaultInfo,
            Cw4626QueryMsg::MaxDeposit { .. } => ResponseShape::OptionalAmount,
            Cw4626QueryMsg::MaxRedeem { .. } => ResponseShape::OptionalAmount,
            Cw4626QueryMsg::VaultExtension(_) => ResponseShape::Extension,
            _ => ResponseShape::Amount,
        }
    }

    /// The shape of the response that a conforming vault answers this query
    /// with.
    pub fn response_shape(&self) -> (r: ResponseShape)
        ensures
            r == self.spec_response_shape(),
    {
        match self {
            Cw4626QueryMsg::Balance { .. } => ResponseShape::Balance,
            Cw4626QueryMsg::TokenInfo => ResponseShape::TokenInfo,
            Cw4626QueryMsg::Allowance { .. } => ResponseShape::Allowance,
            Cw4626QueryMsg::Minter => ResponseShape::Minter,
            Cw4626QueryMsg::MarketingInfo => ResponseShape::MarketingInfo,
            Cw4626QueryMsg::DownloadLogo => ResponseShape::DownloadLogo,
            Cw4626QueryMsg::AllAllowances { .. } => ResponseShape::AllAllowances,
            Cw4626QueryMsg::AllAccounts { .. } => ResponseShape::AllAccounts,
            Cw4626QueryMsg::VaultStandardInfo => ResponseShape::VaultStandardInfo,
            Cw4626QueryMsg::Info => ResponseShape::VaultInfo,
            Cw4626QueryMsg::PreviewDeposit { .. } => ResponseShape::Amount,
            Cw4626QueryMsg::PreviewRedeem { .. } => ResponseShape::Amount,
            Cw4626QueryMsg::MaxDeposit { .. } => ResponseShape::OptionalAmount,
            Cw4626QueryMsg::MaxRedeem { .. } => ResponseShape::OptionalAmount,
            Cw4626QueryMsg::TotalAssets => ResponseShape::Amount,
            Cw4626QueryMsg::TotalVaultTokenSupply => ResponseShape::Amount,
            Cw4626QueryMsg::ConvertToShares { .. } => ResponseShape::Amount,
            Cw4626QueryMsg::ConvertToAssets { .. } => ResponseShape::Amount,
            Cw4626QueryMsg::VaultExtension(_) => ResponseShape::Extension,
        }
    }
}

} // verus!
