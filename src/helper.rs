use std::marker::PhantomData;

use vstd::prelude::*;

use crate::msg::{Coin, ExtensionExecuteMsg, ExtensionQueryMsg, VaultStandardExecuteMsg, VaultStandardQueryMsg};

verus! {

/// A helper to interact with a vault contract that adheres to the vault
/// standard, holding an address that has not been validated yet. Calling
/// `check` with the address authority's verdict yields a `VaultContract`.
#[derive(Debug)]
pub struct VaultContractUnchecked<E = ExtensionExecuteMsg, Q = ExtensionQueryMsg> {
    pub addr: String,
    pub execute_msg_extension: PhantomData<E>,
    pub query_msg_extension: PhantomData<Q>,
}

impl<E, Q> VaultContractUnchecked<E, Q> {
    /// Creates a helper for the given address. No validation takes place.
    pub fn new(addr: &str) -> (r: Self)
        ensures
            r.addr@ == addr@,
    {
        VaultContractUnchecked {
            addr: addr.to_owned(),
            execute_msg_extension: PhantomData,
            query_msg_extension: PhantomData,
        }
    }
}


/// The errors of the helpers.
#[derive(Clone, Debug, PartialEq, Eq)]
pub enum VaultError {
    /// The address authority refused the address; its message is kept.
    AddressValidation(String),
    /// A message could not be encoded.
    Serialization(String),
    /// The vault did not answer a query, or answered it in another shape.
    QueryFailure(String),
}

/// An execute call to a contract, ready to dispatch: its address, the message
/// and the funds attached.
#[derive(Clone, Debug, PartialEq, Eq)]
pub struct ExecuteCall<E = ExtensionExecuteMsg> {
    pub contract_addr: String,
    pub msg: VaultStandardExecuteMsg<E>,
    pub funds: Vec<Coin>,
}

impl<E> ExecuteCall<E> {
    /// The attached funds, as pairs of denomination and amount.
    pub open spec fn funds_view(&self) -> Seq<(Seq<char>, u128)> {
        self.funds@.map_values(|c: Coin| (c.denom@, c.amount))
    }
}

/// A smart query to a contract: its address and the query message.
#[derive(Clone, Debug, PartialEq, Eq)]
pub struct SmartQuery<Q = ExtensionQueryMsg> {
    pub contract_addr: String,
    pub msg: VaultStandardQueryMsg<Q>,
}

impl<E, Q> VaultContractUnchecked<E, Q> {
    /// Turns this helper into a checked one, given the address authority's
    /// verdict on `self.addr`: the validated address, or the reason it was
    /// refused.
    pub fn check(&self, validated: Result<String, String>) -> (r: Result<VaultContract<E, Q>, VaultError>)
        ensures
            r is Ok <==> validated is Ok,
            r is Ok ==> r->Ok_0.addr@ == validated->Ok_0@,
            r is Err ==> r->Err_0 == VaultError::AddressValidation(validated->Err_0),
    {
        match validated {
            Ok(addr) => Ok(VaultContract::new(addr.as_str())),
            Err(reason) => Err(VaultError::AddressValidation(reason)),
        }
    }
}

/// A helper to interact with a vault contract that adheres to the vault
/// standard, holding a validated address.
#[derive(Debug)]
pub struct VaultContract<E = ExtensionExecuteMsg, Q = ExtensionQueryMsg> {
    /// The address of the vault contract.
    pub addr: String,
    /// The extension type of execute messages.
    pub execute_msg_extension: PhantomData<E>,
    /// The extension type of query messages.
    pub query_msg_extension: PhantomData<Q>,
}

impl<E, Q> VaultContract<E, Q> {
    /// Whether `call` goes to this vault with message `msg` and funds `funds`.
    pub open spec fn is_call(
        &self,
        call: ExecuteCall<E>,
        msg: VaultStandardExecuteMsg<E>,
        funds: Seq<(Seq<char>, u128)>,
    ) -> bool {
        &&& call.contract_addr@ == self.addr@
        &&& call.msg == msg
        &&& call.funds_view() == funds
    }

    /// Whether `query` goes to this vault with message `msg`.
    pub open spec fn is_query(&self, query: SmartQuery<Q>, msg: VaultStandardQueryMsg<Q>) -> bool {
        &&& query.contract_addr@ == self.addr@
        &&& query.msg == msg
    }

    /// Creates a helper for an address that has been validated.
    pub fn new(addr: &str) -> (r: Self)
        ensures
            r.addr@ == addr@,
    {
        VaultContract {
            addr: addr.to_owned(),
            execute_msg_extension: PhantomData,
            query_msg_extension: PhantomData,
        }
    }

    fn call(&self, msg: VaultStandardExecuteMsg<E>, funds: Vec<Coin>) -> (r: ExecuteCall<E>)
        ensures
            r.contract_addr@ == self.addr@,
            r.msg == msg,
            r.funds == funds,
    {
        ExecuteCall { contract_addr: self.addr.clone(), msg, funds }
    }

    fn query(&self, msg: VaultStandardQueryMsg<Q>) -> (r: SmartQuery<Q>)
        ensures
            self.is_query(r, msg),
    {
        SmartQuery { contract_addr: self.addr.clone(), msg }
    }

    /// The call that deposits `amount` base tokens of `base_denom` into the
    /// vault, attaching them as funds.
    pub fn deposit(&self, amount: u128, base_denom: &str, recipient: Option<String>) -> (r: ExecuteCall<E>)
        ensures
            self.is_call(r, VaultStandardExecuteMsg::Deposit { amount, recipient }, seq![(base_denom@, amount)]),
    {
        let funds = vec![Coin { denom: base_denom.to_owned(), amount }];
        let r = self.call(VaultStandardExecuteMsg::Deposit { amount, recipient }, funds);
        assert(r.funds_view() =~= seq![(base_denom@, amount)]);
        r
    }

    /// The call that deposits `amount` base tokens into the vault without
    /// attaching funds, for a base token that is a token contract: the caller
    /// must have approved the vault to take them beforehand.
    pub fn deposit_cw20(&self, amount: u128, recipient: Option<String>) -> (r: ExecuteCall<E>)
        ensures
            self.is_call(r, VaultStandardExecuteMsg::Deposit { amount, recipient }, seq![]),
    {
        let r = self.call(VaultStandardExecuteMsg::Deposit { amount, recipient }, Vec::new());
        assert(r.funds_view() =~= seq![]);
        r
    }

    /// The call that redeems `amount` vault tokens of `vault_token_denom`,
    /// attaching them as funds.
    pub fn redeem(&self, amount: u128, vault_token_denom: &str, recipient: Option<String>) -> (r: ExecuteCall<E>)
        ensures
            self.is_call(r, VaultStandardExecuteMsg::Redeem { recipient, amount }, seq![(vault_token_denom@, amount)]),
    {
        let funds = vec![Coin { denom: vault_token_denom.to_owned(), amount }];
        let r = self.call(VaultStandardExecuteMsg::Redeem { recipient, amount }, funds);
        assert(r.funds_view() =~= seq![(vault_token_denom@, amount)]);
        r
    }

    /// The query for the version of the standard and the extensions enabled.
    pub fn query_vault_standard_info(&self) -> (r: SmartQuery<Q>)
        ensures
            self.is_query(r, VaultStandardQueryMsg::VaultStandardInfo),
    {
        self.query(VaultStandardQueryMsg::VaultStandardInfo)
    }

    /// The query for the vault's base token and vault token.
    pub fn query_vault_info(&self) -> (r: SmartQuery<Q>)
        ensures
            self.is_query(r, VaultStandardQueryMsg::Info),
    {
        self.query(VaultStandardQueryMsg::Info)
    }

    /// The query for the vault tokens that depositing `amount` base tokens
    /// would mint.
    pub fn query_preview_deposit(&self, amount: u128) -> (r: SmartQuery<Q>)
        ensures
            self.is_query(r, VaultStandardQueryMsg::PreviewDeposit { amount }),
    {
        self.query(VaultStandardQueryMsg::PreviewDeposit { amount })
    }

    /// The query for the base tokens that redeeming `amount` vault tokens
    /// would return.
    pub fn query_preview_redeem(&self, amount: u128) -> (r: SmartQuery<Q>)
        ensures
            self.is_query(r, VaultStandardQueryMsg::PreviewRedeem { amount }),
    {
        self.query(VaultStandardQueryMsg::PreviewRedeem { amount })
    }

    /// The query for the assets that the vault manages, in base tokens.
    pub fn query_total_assets(&self) -> (r: SmartQuery<Q>)
        ensures
            self.is_query(r, VaultStandardQueryMsg::TotalAssets),
    {
        self.query(VaultStandardQueryMsg::TotalAssets)
    }

    /// The query for the vault tokens in circulation.
    pub fn query_total_vault_token_supply(&self) -> (r: SmartQuery<Q>)
        ensures
            self.is_query(r, VaultStandardQueryMsg::TotalVaultTokenSupply),
    {
        self.query(VaultStandardQueryMsg::TotalVaultTokenSupply)
    }

    /// The query for the vault tokens that `amount` base tokens are worth at
    /// the average exchange rate.
    pub fn query_convert_to_shares(&self, amount: u128) -> (r: SmartQuery<Q>)
        ensures
            self.is_query(r, VaultStandardQueryMsg::ConvertToShares { amount }),
    {
        self.query(VaultStandardQueryMsg::ConvertToShares { amount })
    }

    /// The query for the base tokens that `amount` vault tokens are worth at
    /// the average exchange rate.
    pub fn query_convert_to_assets(&self, amount: u128) -> (r: SmartQuery<Q>)
        ensures
            self.is_query(r, VaultStandardQueryMsg::ConvertToAssets { amount }),
    {
        self.query(VaultStandardQueryMsg::ConvertToAssets { amount })
    }
}

/// A deposit through `deposit_cw20` carries the very message that `deposit`
/// builds for the same amount and recipient, to the same vault; the two
/// differ only in the funds, which `deposit_cw20` leaves empty where `deposit`
/// attaches one coin of the amount.
pub proof fn lemma_deposit_cw20_same_body<E, Q>(
    vault: VaultContract<E, Q>,
    amount: u128,
    base_denom: Seq<char>,
    recipient: Option<String>,
    native: ExecuteCall<E>,
    token: ExecuteCall<E>,
)
    requires
        vault.is_call(native, VaultStandardExecuteMsg::Deposit { amount, recipient }, seq![(base_denom, amount)]),
        vault.is_call(token, VaultStandardExecuteMsg::Deposit { amount, recipient }, seq![]),
    ensures
        native.contract_addr@ == token.contract_addr@,
        native.msg == token.msg,
        native.funds@.len() == 1,
        native.funds@[0].denom@ == base_denom,
        native.funds@[0].amount == amount,
        token.funds@.len() == 0,
{
    assert(native.funds_view().len() == native.funds@.len());
    assert(token.funds_view().len() == token.funds@.len());
    assert(native.funds_view()[0] == (native.funds@[0].denom@, native.funds@[0].amount));
    assert(native.funds_view()[0] == (base_denom, amount));
}

/// Building a query twice from the same vault and inputs gives the same
/// request: the query builders depend on nothing else.
pub proof fn lemma_query_deterministic<E, Q>(
    vault: VaultContract<E, Q>,
    msg: VaultStandardQueryMsg<Q>,
    first: SmartQuery<Q>,
    second: SmartQuery<Q>,
)
    requires
        vault.is_query(first, msg),
        vault.is_query(second, msg),
    ensures
        first.contract_addr@ == second.contract_addr@,
        first.msg == second.msg,
{
}

} // verus!
