//! The events that the ledger and the factory emit.
use crate::trade::{MatchingStatus, PaymentConfirmation, PaymentStatus, TradeDetails};
use vstd::prelude::*;

verus! {

/// An event of the `rtp` standard, emitted once at the state transition it
/// reports.
#[derive(Debug, PartialEq, Eq)]
pub enum RtpEvent {
    NewBank { bank: String, bank_id: String },
    SendTrade { partnership_id: String, bank_id: String, trade: TradeDetails },
    SetMatchingStatus {
        partnership_id: String,
        trade_id: String,
        matching_status: MatchingStatus,
    },
    ConfirmPayment {
        partnership_id: String,
        bank_id: String,
        trade_id: String,
        confirmation: PaymentConfirmation,
    },
    SetPaymentStatus {
        partnership_id: String,
        trade_id: String,
        payment_status: PaymentStatus,
    },
}

/// The wire name of an event kind.
pub open spec fn event_name_of(event: RtpEvent) -> Seq<char> {
    match event {
        RtpEvent::NewBank { .. } => "new_bank"@,
        RtpEvent::SendTrade { .. } => "send_trade"@,
        RtpEvent::SetMatchingStatus { .. } => "set_matching_status"@,
        RtpEvent::ConfirmPayment { .. } => "confirm_payment"@,
        RtpEvent::SetPaymentStatus { .. } => "set_payment_status"@,
    }
}

impl RtpEvent {
    /// The standard every event belongs to.
    pub fn standard() -> (r: &'static str)
        ensures
            r@ == "rtp"@,
    {
        "rtp"
    }

    /// The schema version every event carries.
    pub fn version() -> (r: &'static str)
        ensures
            r@ == "1.0.0"@,
    {
        "1.0.0"
    }

    /// The wire name of this event's kind.
    pub fn event_name(&self) -> (r: &'static str)
        ensures
            r@ == event_name_of(*self),
    {
        match self {
            RtpEvent::NewBank { .. } => "new_bank",
            RtpEvent::SendTrade { .. } => "send_trade",
            RtpEvent::SetMatchingStatus { .. } => "set_matching_status",
            RtpEvent::ConfirmPayment { .. } => "confirm_payment",
            RtpEvent::SetPaymentStatus { .. } => "set_payment_status",
        }
    }
}

} // verus!
