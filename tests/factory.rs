use rtp::event::RtpEvent;
use rtp::factory::{BankCall, BankMethod, Contract, ContractError, StorageKey, ONE_NEAR};
use rtp::ids::{get_bank_id, get_partnership_id};
use rtp::trade::{MatchingStatus, PaymentConfirmation, PaymentStatus, TradeDetails};

const BYTE_COST: u128 = 10_000_000_000_000_000_000;

fn factory_account() -> String {
    "factory.near".to_string()
}

fn factory_with_code() -> Contract {
    let mut f = Contract::new();
    f.store_contract(Some(vec![0u8; 10])).unwrap();
    f
}

fn register(f: &mut Contract, bank: &str) -> String {
    let id = get_bank_id(bank);
    f.on_create_bank(bank.to_string(), id.clone(), true);
    id
}

#[test]
fn storage_cost_covers_code_margin_and_gas() {
    let f = factory_with_code();
    assert_eq!(f.get_bank_storage_cost(BYTE_COST), 266 * BYTE_COST + 2 * ONE_NEAR);
}

#[test]
fn store_contract_without_input_is_refused() {
    let mut f = Contract::new();
    assert_eq!(f.store_contract(None), Err(ContractError::NoInput));
    assert!(f.contract_code_bytes().is_empty());
}

#[test]
fn create_bank_with_too_small_a_deposit_is_refused() {
    let f = factory_with_code();
    let cost = f.get_bank_storage_cost(BYTE_COST);
    let r = f.create_bank("Sparkasse".to_string(), &factory_account(), cost - 1, BYTE_COST);
    assert_eq!(r, Err(ContractError::NotEnoughDeposit(cost, cost - 1)));
}

#[test]
fn create_bank_plans_the_provisioning() {
    let f = factory_with_code();
    let cost = f.get_bank_storage_cost(BYTE_COST);
    let plan = f.create_bank("Sparkasse".to_string(), &factory_account(), cost, BYTE_COST).unwrap();
    let id = get_bank_id("Sparkasse");
    assert_eq!(plan.bank_id, id);
    assert_eq!(plan.account_id, format!("{id}.factory.near"));
    assert_eq!(plan.transfer, cost / 2);
    assert_eq!(plan.init_args, "{\"factory\":\"factory.near\",\"bank\":\"Sparkasse\"}");
    assert_eq!(plan.callback_args, format!("{{\"bank\":\"Sparkasse\",\"bank_id\":\"{id}\"}}"));
}

#[test]
fn init_args_escape_the_bank_name() {
    let f = factory_with_code();
    let cost = f.get_bank_storage_cost(BYTE_COST);
    let plan = f.create_bank("A \"B\"".to_string(), &factory_account(), cost, BYTE_COST).unwrap();
    assert_eq!(plan.init_args, "{\"factory\":\"factory.near\",\"bank\":\"A \\\"B\\\"\"}");
}

#[test]
fn creating_an_existing_bank_conflicts() {
    let mut f = factory_with_code();
    let id = register(&mut f, "Sparkasse");
    let cost = f.get_bank_storage_cost(BYTE_COST);
    let r = f.create_bank("Sparkasse".to_string(), &factory_account(), cost, BYTE_COST);
    assert_eq!(r, Err(ContractError::BankAlreadyExists));
    assert_eq!(f.get_bank_ids(None, None), vec![id]);
}

#[test]
fn failed_provisioning_registers_nothing() {
    let mut f = factory_with_code();
    let id = get_bank_id("Sparkasse");
    assert_eq!(f.on_create_bank("Sparkasse".to_string(), id.clone(), false), None);
    assert!(f.get_bank_ids(None, None).is_empty());
    let e = f.on_create_bank("Sparkasse".to_string(), id.clone(), true);
    assert_eq!(e, Some(RtpEvent::NewBank { bank: "Sparkasse".to_string(), bank_id: id.clone() }));
    f.on_create_bank("Sparkasse".to_string(), id.clone(), true);
    assert_eq!(f.get_bank_ids(None, None), vec![id]);
}

#[test]
fn perform_trade_is_routed_to_a_registered_bank() {
    let mut f = factory_with_code();
    let r = f.perform_trade("abc".to_string(), TradeDetails::default(), &factory_account());
    assert_eq!(r, Err(ContractError::BankNotYetExists));
    let id = register(&mut f, "Deutsche Bank");
    let call = f.perform_trade(id.clone(), TradeDetails::default(), &factory_account()).unwrap();
    assert_eq!(
        call,
        BankCall {
            account_id: format!("{id}.factory.near"),
            method: BankMethod::PerformTrade { trade_details: TradeDetails::default() },
        }
    );
}

#[test]
fn settle_trade_sends_the_same_status_to_both_banks() {
    let mut f = factory_with_code();
    let a = register(&mut f, "Deutsche Bank");
    let r = f.settle_trade(
        a.clone(),
        get_bank_id("Sparkasse"),
        "trade_id".to_string(),
        MatchingStatus::Pending,
        &factory_account(),
    );
    assert_eq!(r, Err(ContractError::BankNotYetExists));
    let b = register(&mut f, "Sparkasse");
    let status = MatchingStatus::Confirmed("Trade successfull".to_string());
    let (ca, cb) = f
        .settle_trade(a.clone(), b.clone(), "trade_id".to_string(), status.clone(), &factory_account())
        .unwrap();
    let method =
        BankMethod::SetMatchingStatus { trade_id: "trade_id".to_string(), matching_status: status };
    assert_eq!(ca.account_id, format!("{a}.factory.near"));
    assert_eq!(cb.account_id, format!("{b}.factory.near"));
    assert_eq!(ca.method, method);
    assert_eq!(cb.method, method);
}

#[test]
fn settled_on_both_sides_reports_the_status() {
    let f = Contract::new();
    let status = MatchingStatus::Confirmed("Trade successfull".to_string());
    let out = f.on_settle_trade(
        "p".to_string(),
        "a.f".to_string(),
        "b.f".to_string(),
        "trade_id".to_string(),
        status.clone(),
        true,
        true,
    );
    assert_eq!(
        out.event,
        RtpEvent::SetMatchingStatus {
            partnership_id: "p".to_string(),
            trade_id: "trade_id".to_string(),
            matching_status: status,
        }
    );
    assert!(out.compensation.is_empty());
}

#[test]
fn one_failed_side_forces_error_on_both() {
    let f = Contract::new();
    let out = f.on_settle_trade(
        "p".to_string(),
        "a.f".to_string(),
        "b.f".to_string(),
        "trade_id".to_string(),
        MatchingStatus::Confirmed("ok".to_string()),
        true,
        false,
    );
    assert_eq!(
        out.event,
        RtpEvent::SetMatchingStatus {
            partnership_id: "p".to_string(),
            trade_id: "trade_id".to_string(),
            matching_status: MatchingStatus::Error,
        }
    );
    let error = BankMethod::SetMatchingStatus {
        trade_id: "trade_id".to_string(),
        matching_status: MatchingStatus::Error,
    };
    assert_eq!(
        out.compensation,
        vec![
            BankCall { account_id: "a.f".to_string(), method: BankMethod::SetMatchingStatus { trade_id: "trade_id".to_string(), matching_status: MatchingStatus::Error } },
            BankCall { account_id: "b.f".to_string(), method: error },
        ]
    );
}

#[test]
fn failed_payment_status_forces_error_on_both() {
    let f = Contract::new();
    let out = f.on_set_payment_status(
        "p".to_string(),
        "a.f".to_string(),
        "b.f".to_string(),
        "t".to_string(),
        PaymentStatus::Confirmed("ok".to_string()),
        false,
        true,
    );
    assert_eq!(
        out.event,
        RtpEvent::SetPaymentStatus {
            partnership_id: "p".to_string(),
            trade_id: "t".to_string(),
            payment_status: PaymentStatus::Error,
        }
    );
    assert_eq!(out.compensation.len(), 2);
    let ok = f.on_set_payment_status(
        "p".to_string(),
        "a.f".to_string(),
        "b.f".to_string(),
        "t".to_string(),
        PaymentStatus::Pending,
        true,
        true,
    );
    assert!(ok.compensation.is_empty());
}

#[test]
fn confirm_payment_credits_the_creditor_and_debits_the_debitor() {
    let mut f = factory_with_code();
    let a = register(&mut f, "Deutsche Bank");
    let b = register(&mut f, "Sparkasse");
    let (credit, debit) =
        f.confirm_payment(a.clone(), b.clone(), "trade_id".to_string(), &factory_account()).unwrap();
    assert_eq!(credit.account_id, format!("{a}.factory.near"));
    assert_eq!(
        credit.method,
        BankMethod::ConfirmPayment {
            trade_id: "trade_id".to_string(),
            confirmation: PaymentConfirmation::Credit,
        }
    );
    assert_eq!(debit.account_id, format!("{b}.factory.near"));
    assert_eq!(
        debit.method,
        BankMethod::ConfirmPayment {
            trade_id: "trade_id".to_string(),
            confirmation: PaymentConfirmation::Debit,
        }
    );
    let r = f.confirm_payment(a, "zz".to_string(), "trade_id".to_string(), &factory_account());
    assert_eq!(r, Err(ContractError::BankNotYetExists));
    assert!(f.on_confirm_payment(true, true));
    assert!(!f.on_confirm_payment(true, false));
}

#[test]
fn bank_ids_are_paginated() {
    let mut f = Contract::new();
    let ids: Vec<String> = (0..25).map(|i| register(&mut f, &format!("bank {i}"))).collect();
    assert_eq!(f.get_bank_ids(None, None), ids[..20].to_vec());
    assert_eq!(f.get_bank_ids(Some(20), None), ids[20..].to_vec());
    assert_eq!(f.get_bank_ids(Some(3), Some(2)), ids[3..5].to_vec());
    assert!(f.get_bank_ids(Some(30), Some(5)).is_empty());
}

#[test]
fn removed_bank_is_forgotten_once_deleted() {
    let mut f = Contract::new();
    let a = register(&mut f, "Deutsche Bank");
    let b = register(&mut f, "Sparkasse");
    let call = f.remove_bank(a.clone(), &factory_account());
    assert_eq!(
        call,
        BankCall { account_id: format!("{a}.factory.near"), method: BankMethod::DeleteAccount }
    );
    f.on_remove_bank(a.clone(), false);
    assert_eq!(f.get_bank_ids(None, None), vec![a.clone(), b.clone()]);
    f.on_remove_bank(a, true);
    assert_eq!(f.get_bank_ids(None, None), vec![b]);
}

#[test]
fn partnership_of_a_bank_with_itself_is_invalid() {
    let f = Contract::new();
    let r = f.get_partnership_id("Sparkasse".to_string(), "Sparkasse".to_string());
    assert_eq!(r, Err(ContractError::InvalidBankInput));
    let r = f.get_partnership_id("Sparkasse".to_string(), "Deutsche Bank".to_string());
    assert_eq!(r, Ok(get_partnership_id("Deutsche Bank".to_string(), "Sparkasse".to_string())));
    assert_eq!(f.get_bank_id("Sparkasse".to_string()), get_bank_id("Sparkasse"));
}

#[test]
fn single_leg_status_goes_to_one_bank() {
    let mut f = Contract::new();
    let a = register(&mut f, "Deutsche Bank");
    let call = f
        .set_leg_matching_status(a.clone(), "t".to_string(), MatchingStatus::Error, &factory_account())
        .unwrap();
    assert_eq!(call.account_id, format!("{a}.factory.near"));
    let r = f.set_leg_matching_status("x".to_string(), "t".to_string(), MatchingStatus::Error, &factory_account());
    assert_eq!(r, Err(ContractError::BankNotYetExists));
}

#[test]
fn storage_keys_are_single_byte_prefixes() {
    assert_eq!(StorageKey::BankIds.prefix(), vec![0u8]);
    assert_eq!(StorageKey::ContractCode.prefix(), vec![1u8]);
}
