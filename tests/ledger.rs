use rtp::event::RtpEvent;
use rtp::ids::{get_bank_id, get_partnership_id};
use rtp::ledger::{Contract, ContractError};
use rtp::trade::{
    MatchingStatus, PaymentConfirmation, PaymentStatus, Payments, Side, TradeDetails,
};

fn ledger() -> Contract {
    Contract::new("factory.near".to_string(), "Deutsche Bank".to_string())
}

fn leg() -> TradeDetails {
    let mut t = TradeDetails::default();
    t.counterparty = "Sparkasse".to_string();
    t
}

fn factory() -> String {
    "factory.near".to_string()
}

#[test]
fn perform_trade_from_another_caller_is_refused() {
    let mut l = ledger();
    let r = l.perform_trade(&"mallory.near".to_string(), leg());
    assert_eq!(r, Err(ContractError::NotFactory));
    assert_eq!(l.get_trade("trade_id".to_string()), Err(ContractError::InvalidTradeId));
}

#[test]
fn perform_trade_stores_a_pending_trade_and_reports_it() {
    let mut l = ledger();
    let r = l.perform_trade(&factory(), leg()).unwrap();
    assert_eq!(
        r,
        RtpEvent::SendTrade {
            partnership_id: get_partnership_id("Deutsche Bank".to_string(), "Sparkasse".to_string()),
            bank_id: get_bank_id("Deutsche Bank"),
            trade: leg(),
        }
    );
    let t = l.get_trade("trade_id".to_string()).unwrap();
    assert_eq!(t.bank, "Deutsche Bank");
    assert_eq!(t.trade_details, leg());
    assert_eq!(t.matching_status, MatchingStatus::Pending);
    assert_eq!(t.payment_status, PaymentStatus::Pending);
    assert_eq!(t.payments, Payments { credit: false, debit: false });
}

#[test]
fn perform_trade_against_the_bank_itself_is_refused() {
    let mut l = ledger();
    let mut t = leg();
    t.counterparty = "Deutsche Bank".to_string();
    assert_eq!(l.perform_trade(&factory(), t), Err(ContractError::InvalidBank));
    assert_eq!(l.get_trade("trade_id".to_string()), Err(ContractError::InvalidTradeId));
}

#[test]
fn resubmitted_trade_replaces_the_stored_one() {
    let mut l = ledger();
    l.perform_trade(&factory(), leg()).unwrap();
    l.set_matching_status(&factory(), "trade_id".to_string(), MatchingStatus::Error).unwrap();
    let mut again = leg();
    again.side = Side::Sell;
    l.perform_trade(&factory(), again.clone()).unwrap();
    let t = l.get_trade("trade_id".to_string()).unwrap();
    assert_eq!(t.trade_details, again);
    assert_eq!(t.matching_status, MatchingStatus::Pending);
}

#[test]
fn set_matching_status_needs_a_stored_trade() {
    let mut l = ledger();
    let r = l.set_matching_status(&factory(), "T1".to_string(), MatchingStatus::Error);
    assert_eq!(r, Err(ContractError::InvalidTradeId));
    l.perform_trade(&factory(), leg()).unwrap();
    let r = l.set_matching_status(
        &"mallory.near".to_string(),
        "trade_id".to_string(),
        MatchingStatus::Error,
    );
    assert_eq!(r, Err(ContractError::NotFactory));
    let ok = MatchingStatus::Confirmed("Trade successfull".to_string());
    l.set_matching_status(&factory(), "trade_id".to_string(), ok.clone()).unwrap();
    assert_eq!(l.get_trade("trade_id".to_string()).unwrap().matching_status, ok);
}

#[test]
fn confirm_payment_sets_credit_then_debit() {
    let mut l = ledger();
    l.perform_trade(&factory(), leg()).unwrap();
    let e = l
        .confirm_payment(&factory(), "trade_id".to_string(), PaymentConfirmation::Credit)
        .unwrap();
    assert_eq!(
        e,
        RtpEvent::ConfirmPayment {
            partnership_id: get_partnership_id("Sparkasse".to_string(), "Deutsche Bank".to_string()),
            bank_id: get_bank_id("Deutsche Bank"),
            trade_id: "trade_id".to_string(),
            confirmation: PaymentConfirmation::Credit,
        }
    );
    assert_eq!(
        l.get_trade("trade_id".to_string()).unwrap().payments,
        Payments { credit: true, debit: false }
    );
    l.confirm_payment(&factory(), "trade_id".to_string(), PaymentConfirmation::Debit).unwrap();
    assert_eq!(
        l.get_trade("trade_id".to_string()).unwrap().payments,
        Payments { credit: true, debit: true }
    );
    let r = l.confirm_payment(&factory(), "other".to_string(), PaymentConfirmation::Debit);
    assert_eq!(r, Err(ContractError::InvalidTradeId));
}

#[test]
fn set_payment_status_overwrites_the_status() {
    let mut l = ledger();
    assert_eq!(
        l.set_payment_status(&factory(), "trade_id".to_string(), PaymentStatus::Error),
        Err(ContractError::InvalidTradeId)
    );
    l.perform_trade(&factory(), leg()).unwrap();
    let done = PaymentStatus::Confirmed("paid".to_string());
    l.set_payment_status(&factory(), "trade_id".to_string(), done.clone()).unwrap();
    assert_eq!(l.get_trade("trade_id".to_string()).unwrap().payment_status, done);
}

#[test]
fn delete_account_only_for_the_factory() {
    let l = ledger();
    assert_eq!(l.delete_account(&"x.near".to_string()), Err(ContractError::NotFactory));
    assert_eq!(l.delete_account(&factory()), Ok("factory.near".to_string()));
}
