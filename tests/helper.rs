use cw_vault_standard::cw4626::Cw4626QueryMsg;
use cw_vault_standard::helper::{ExecuteCall, SmartQuery, VaultContract, VaultContractUnchecked, VaultError};
use cw_vault_standard::msg::{
    Coin, ExtensionExecuteMsg, ExtensionQueryMsg, ResponseShape, VaultStandardExecuteMsg,
    VaultStandardQueryMsg,
};

type Unchecked = VaultContractUnchecked<ExtensionExecuteMsg, ExtensionQueryMsg>;
type Vault = VaultContract<ExtensionExecuteMsg, ExtensionQueryMsg>;

fn vault() -> Vault {
    VaultContract::new("vault1")
}

#[test]
fn unchecked_keeps_address() {
    let u = Unchecked::new("vault1xyz");
    assert_eq!(u.addr, "vault1xyz");
}

#[test]
fn check_accepted_address() {
    let u = Unchecked::new("Vault1");
    let checked = u.check(Ok("vault1".to_string())).unwrap();
    assert_eq!(checked.addr, "vault1");
}

#[test]
fn check_refused_address() {
    let u = Unchecked::new("not an address");
    let r = u.check(Err("invalid bech32".to_string()));
    assert_eq!(r.unwrap_err(), VaultError::AddressValidation("invalid bech32".to_string()));
}

#[test]
fn deposit_end_to_end() {
    let u = Unchecked::new("vault1qqqq");
    let v = u.check(Ok("vault1qqqq".to_string())).unwrap();
    let call = v.deposit(1_000_000u128, "uusd", None);
    assert_eq!(call.contract_addr, "vault1qqqq");
    assert_eq!(call.msg, VaultStandardExecuteMsg::Deposit { amount: 1_000_000, recipient: None });
    assert_eq!(call.funds, vec![Coin { denom: "uusd".to_string(), amount: 1_000_000 }]);
}

#[test]
fn deposit_with_recipient() {
    let call = vault().deposit(7, "uatom", Some("addr2".to_string()));
    assert_eq!(
        call,
        ExecuteCall {
            contract_addr: "vault1".to_string(),
            msg: VaultStandardExecuteMsg::Deposit { amount: 7, recipient: Some("addr2".to_string()) },
            funds: vec![Coin { denom: "uatom".to_string(), amount: 7 }],
        }
    );
}

#[test]
fn deposit_cw20_same_body_no_funds() {
    let v = vault();
    let native = v.deposit(42, "uusd", Some("r".to_string()));
    let token = v.deposit_cw20(42, Some("r".to_string()));
    assert_eq!(native.msg, token.msg);
    assert_eq!(native.contract_addr, token.contract_addr);
    assert!(token.funds.is_empty());
    assert_eq!(native.funds.len(), 1);
}

#[test]
fn redeem_attaches_vault_tokens() {
    let call = vault().redeem(u128::MAX, "factory/vault1/shares", None);
    assert_eq!(call.contract_addr, "vault1");
    assert_eq!(call.msg, VaultStandardExecuteMsg::Redeem { recipient: None, amount: u128::MAX });
    assert_eq!(
        call.funds,
        vec![Coin { denom: "factory/vault1/shares".to_string(), amount: u128::MAX }]
    );
}

#[test]
fn zero_amount_deposit() {
    let call = vault().deposit(0, "uusd", None);
    assert_eq!(call.funds, vec![Coin { denom: "uusd".to_string(), amount: 0 }]);
}

fn assert_query(q: SmartQuery<ExtensionQueryMsg>, msg: VaultStandardQueryMsg<ExtensionQueryMsg>) {
    assert_eq!(q.contract_addr, "vault1");
    assert_eq!(q.msg, msg);
}

#[test]
fn query_builders() {
    let v = vault();
    assert_query(v.query_vault_standard_info(), VaultStandardQueryMsg::VaultStandardInfo);
    assert_query(v.query_vault_info(), VaultStandardQueryMsg::Info);
    assert_query(v.query_preview_deposit(5), VaultStandardQueryMsg::PreviewDeposit { amount: 5 });
    assert_query(v.query_preview_redeem(6), VaultStandardQueryMsg::PreviewRedeem { amount: 6 });
    assert_query(v.query_total_assets(), VaultStandardQueryMsg::TotalAssets);
    assert_query(v.query_total_vault_token_supply(), VaultStandardQueryMsg::TotalVaultTokenSupply);
    assert_query(v.query_convert_to_shares(8), VaultStandardQueryMsg::ConvertToShares { amount: 8 });
    assert_query(v.query_convert_to_assets(9), VaultStandardQueryMsg::ConvertToAssets { amount: 9 });
}

#[test]
fn preview_deposit_twice_same_request() {
    let v = vault();
    assert_eq!(v.query_preview_deposit(1000), v.query_preview_deposit(1000));
}

#[test]
fn response_shapes() {
    type M = VaultStandardQueryMsg<ExtensionQueryMsg>;
    assert_eq!(M::VaultStandardInfo.response_shape(), ResponseShape::VaultStandardInfo);
    assert_eq!(M::Info.response_shape(), ResponseShape::VaultInfo);
    assert_eq!(M::PreviewDeposit { amount: 1 }.response_shape(), ResponseShape::Amount);
    assert_eq!(M::PreviewRedeem { amount: 1 }.response_shape(), ResponseShape::Amount);
    assert_eq!(M::MaxDeposit { recipient: "a".to_string() }.response_shape(), ResponseShape::OptionalAmount);
    assert_eq!(M::MaxRedeem { owner: "a".to_string() }.response_shape(), ResponseShape::OptionalAmount);
    assert_eq!(M::TotalAssets.response_shape(), ResponseShape::Amount);
    assert_eq!(M::TotalVaultTokenSupply.response_shape(), ResponseShape::Amount);
    assert_eq!(M::ConvertToShares { amount: 1 }.response_shape(), ResponseShape::Amount);
    assert_eq!(M::ConvertToAssets { amount: 1 }.response_shape(), ResponseShape::Amount);
    let ext: M = VaultStandardQueryMsg::VaultExtension(ExtensionQueryMsg::Lockup(
        cw_vault_standard::lockup::LockupQueryMsg::LockupDuration,
    ));
    assert_eq!(ext.response_shape(), ResponseShape::Extension);
}

#[test]
fn cw4626_response_shapes() {
    type C = Cw4626QueryMsg<ExtensionQueryMsg>;
    assert_eq!(C::Balance { address: "a".to_string() }.response_shape(), ResponseShape::Balance);
    assert_eq!(C::TokenInfo.response_shape(), ResponseShape::TokenInfo);
    assert_eq!(
        C::Allowance { owner: "a".to_string(), spender: "b".to_string() }.response_shape(),
        ResponseShape::Allowance
    );
    assert_eq!(C::Minter.response_shape(), ResponseShape::Minter);
    assert_eq!(C::MarketingInfo.response_shape(), ResponseShape::MarketingInfo);
    assert_eq!(C::DownloadLogo.response_shape(), ResponseShape::DownloadLogo);
    assert_eq!(
        C::AllAllowances { owner: "a".to_string(), start_after: None, limit: Some(3) }.response_shape(),
        ResponseShape::AllAllowances
    );
    assert_eq!(C::AllAccounts { start_after: None, limit: None }.response_shape(), ResponseShape::AllAccounts);
    assert_eq!(C::VaultStandardInfo.response_shape(), ResponseShape::VaultStandardInfo);
    assert_eq!(C::Info.response_shape(), ResponseShape::VaultInfo);
    assert_eq!(C::PreviewDeposit { amount: 2 }.response_shape(), ResponseShape::Amount);
    assert_eq!(C::MaxDeposit { recipient: "r".to_string() }.response_shape(), ResponseShape::OptionalAmount);
    assert_eq!(C::MaxRedeem { owner: "o".to_string() }.response_shape(), ResponseShape::OptionalAmount);
    assert_eq!(C::ConvertToAssets { amount: 2 }.response_shape(), ResponseShape::Amount);
}
