use rtp::ids::{get_bank_id, get_partnership_id};
use rtp::matching::{compare_legs, decide_match, late, Leg, MatchAction, MatchingEngine};
use rtp::trade::{MatchingStatus, PaymentConfirmation, PaymentStatus, Side, TradeDetails};

fn partnership() -> String {
    get_partnership_id("Deutsche Bank".to_string(), "Sparkasse".to_string())
}

fn leg_of(bank: &str, counterparty: &str, side: Side, at: u64) -> Leg {
    let mut trade = TradeDetails::default();
    trade.trade_id = "T1".to_string();
    trade.side = side;
    trade.counterparty = counterparty.to_string();
    Leg { partnership_id: partnership(), bank_id: get_bank_id(bank), trade, received_at: at }
}

fn buy_leg(at: u64) -> Leg {
    leg_of("Deutsche Bank", "Sparkasse", Side::Buy, at)
}

fn sell_leg(at: u64) -> Leg {
    leg_of("Sparkasse", "Deutsche Bank", Side::Sell, at)
}

#[test]
fn agreeing_legs_are_confirmed_on_both_ledgers() {
    let mut engine = MatchingEngine::new(60_000, 120_000);
    assert_eq!(engine.submit_leg(buy_leg(1_000)), None);
    let action = engine.submit_leg(sell_leg(2_000)).unwrap();
    assert_eq!(
        action,
        MatchAction::SettleTrade {
            partnership_id: partnership(),
            bank_a_id: get_bank_id("Deutsche Bank"),
            bank_b_id: get_bank_id("Sparkasse"),
            trade_id: "T1".to_string(),
            matching_status: MatchingStatus::Confirmed("legs agree".to_string()),
        }
    );
}

#[test]
fn differing_prices_are_rejected_with_a_reason() {
    let mut engine = MatchingEngine::new(60_000, 120_000);
    engine.submit_leg(buy_leg(1_000));
    let mut sell = sell_leg(2_000);
    sell.trade.price = 3_000_000;
    match engine.submit_leg(sell).unwrap() {
        MatchAction::SettleTrade { matching_status: MatchingStatus::Rejected(reason), .. } => {
            assert_eq!(reason, "prices differ");
        }
        other => panic!("unexpected action {other:?}"),
    }
}

#[test]
fn legs_on_the_same_side_are_rejected() {
    let first = buy_leg(0);
    let second = leg_of("Sparkasse", "Deutsche Bank", Side::Buy, 0);
    assert_eq!(
        compare_legs(&first, &second),
        MatchingStatus::Rejected("both legs are on the same side".to_string())
    );
}

#[test]
fn legs_that_do_not_name_each_other_are_rejected() {
    let first = buy_leg(0);
    let second = leg_of("Sparkasse", "JPMorgan", Side::Sell, 0);
    assert_eq!(
        compare_legs(&first, &second),
        MatchingStatus::Rejected("counterparties do not match".to_string())
    );
}

#[test]
fn decide_match_reads_the_given_counterparty_ids() {
    let first = buy_leg(0);
    let second = sell_leg(0);
    let a = get_bank_id("Deutsche Bank");
    let b = get_bank_id("Sparkasse");
    assert_eq!(decide_match(&first, &second, &b, &a), MatchingStatus::Confirmed("legs agree".to_string()));
    assert_eq!(
        decide_match(&first, &second, &a, &b),
        MatchingStatus::Rejected("counterparties do not match".to_string())
    );
}

#[test]
fn lone_leg_is_rejected_after_the_window() {
    let mut engine = MatchingEngine::new(60_000, 120_000);
    engine.submit_leg(buy_leg(1_000));
    assert_eq!(engine.tick(61_000), None);
    let action = engine.tick(61_001).unwrap();
    assert_eq!(
        action,
        MatchAction::RejectLeg {
            partnership_id: partnership(),
            bank_id: get_bank_id("Deutsche Bank"),
            trade_id: "T1".to_string(),
            matching_status: MatchingStatus::Rejected(
                "no counter leg within the matching window".to_string()
            ),
        }
    );
    assert_eq!(engine.tick(61_002), None);
    match engine.submit_leg(sell_leg(66_000)).unwrap() {
        MatchAction::RejectLeg { bank_id, matching_status: MatchingStatus::Rejected(_), .. } => {
            assert_eq!(bank_id, get_bank_id("Sparkasse"));
        }
        other => panic!("unexpected action {other:?}"),
    }
}

#[test]
fn late_counter_leg_rejects_both_without_a_tick() {
    let mut engine = MatchingEngine::new(60_000, 120_000);
    engine.submit_leg(buy_leg(1_000));
    match engine.submit_leg(sell_leg(66_000)).unwrap() {
        MatchAction::SettleTrade { matching_status: MatchingStatus::Rejected(reason), .. } => {
            assert_eq!(reason, "no counter leg within the matching window");
        }
        other => panic!("unexpected action {other:?}"),
    }
}

#[test]
fn resubmitted_leg_replaces_the_waiting_one() {
    let mut engine = MatchingEngine::new(60_000, 120_000);
    engine.submit_leg(buy_leg(1_000));
    assert_eq!(engine.submit_leg(buy_leg(50_000)), None);
    assert_eq!(engine.tick(70_000), None);
}

fn matched_engine() -> MatchingEngine {
    let mut engine = MatchingEngine::new(60_000, 120_000);
    engine.submit_leg(buy_leg(1_000));
    engine.submit_leg(sell_leg(2_000));
    engine
}

#[test]
fn four_confirmations_confirm_the_payments() {
    let mut engine = matched_engine();
    let p = partnership();
    let a = get_bank_id("Deutsche Bank");
    let b = get_bank_id("Sparkasse");
    let t = "T1".to_string();
    assert_eq!(engine.record_payment(&p, &a, &t, PaymentConfirmation::Credit), None);
    assert_eq!(engine.record_payment(&p, &b, &t, PaymentConfirmation::Debit), None);
    assert_eq!(engine.record_payment(&p, &b, &t, PaymentConfirmation::Credit), None);
    let action = engine.record_payment(&p, &a, &t, PaymentConfirmation::Debit).unwrap();
    assert_eq!(
        action,
        MatchAction::SetPaymentStatus {
            partnership_id: p.clone(),
            bank_a_id: a.clone(),
            bank_b_id: b,
            trade_id: t.clone(),
            payment_status: PaymentStatus::Confirmed("payments confirmed".to_string()),
        }
    );
    assert_eq!(engine.record_payment(&p, &a, &t, PaymentConfirmation::Debit), None);
}

#[test]
fn missing_confirmation_keeps_payments_pending_until_the_window() {
    let mut engine = matched_engine();
    let p = partnership();
    let a = get_bank_id("Deutsche Bank");
    let b = get_bank_id("Sparkasse");
    let t = "T1".to_string();
    engine.record_payment(&p, &a, &t, PaymentConfirmation::Credit);
    engine.record_payment(&p, &b, &t, PaymentConfirmation::Debit);
    assert_eq!(engine.tick(20_000), None);
    match engine.tick(122_001).unwrap() {
        MatchAction::SetPaymentStatus { payment_status: PaymentStatus::Rejected(reason), .. } => {
            assert_eq!(reason, "payments not confirmed within the payment window");
        }
        other => panic!("unexpected action {other:?}"),
    }
}

#[test]
fn confirmation_of_an_unknown_trade_is_ignored() {
    let mut engine = matched_engine();
    let r = engine.record_payment(
        &partnership(),
        &get_bank_id("Deutsche Bank"),
        &"T2".to_string(),
        PaymentConfirmation::Credit,
    );
    assert_eq!(r, None);
}

#[test]
fn late_means_strictly_more_than_the_window() {
    assert!(!late(1_000, 61_000, 60_000));
    assert!(late(1_000, 61_001, 60_000));
    assert!(!late(5_000, 1_000, 60_000));
}
