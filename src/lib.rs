//! Message schema and client helpers for tokenized-vault contracts.
//!
//! The schema fixes which execute and query messages a conforming vault
//! accepts and which response shape belongs to each query. The helpers build
//! ready-to-dispatch execute calls and smart queries against a vault address.

pub mod cw4626;
pub mod helper;
pub mod lockup;
pub mod msg;

pub use helper::{ExecuteCall, SmartQuery, VaultContract, VaultContractUnchecked, VaultError};
pub use msg::{
    Coin, Empty, ExtensionExecuteMsg, ExtensionQueryMsg, ResponseShape, VaultInfoResponse,
    VaultStandardExecuteMsg, VaultStandardInfoResponse, VaultStandardQueryMsg,
};
