//! The matching and settlement engine: it holds each trade leg until its
//! counter leg arrives, decides whether the two agree, and follows the
//! payment confirmations of matched trades. It acts only through the
//! [`MatchAction`]s it returns.
use crate::ids::{bank_id_of, get_bank_id};
use crate::trade::{MatchingStatus, PaymentConfirmation, PaymentStatus, TradeDetails};
use vstd::prelude::*;
use vstd::string::*;

verus! {

/// One submitted trade leg, as reported by a ledger, with the time (in
/// milliseconds) at which the engine received it.
#[derive(Debug, PartialEq, Eq)]
pub struct Leg {
    pub partnership_id: String,
    pub bank_id: String,
    pub trade: TradeDetails,
    pub received_at: u64,
}

/// What the engine asks the factory to do.
#[derive(Debug, PartialEq, Eq)]
pub enum MatchAction {
    /// Set the matching status of a trade on the ledgers of both banks.
    SettleTrade {
        partnership_id: String,
        bank_a_id: String,
        bank_b_id: String,
        trade_id: String,
        matching_status: MatchingStatus,
    },
    /// Set the matching status of a leg on the ledger of its bank only.
    RejectLeg {
        partnership_id: String,
        bank_id: String,
        trade_id: String,
        matching_status: MatchingStatus,
    },
    /// Set the payment status of a trade on the ledgers of both banks.
    SetPaymentStatus {
        partnership_id: String,
        bank_a_id: String,
        bank_b_id: String,
        trade_id: String,
        payment_status: PaymentStatus,
    },
}

/// The payment confirmations of a matched trade, per bank.
#[derive(Debug, PartialEq, Eq)]
pub struct PaymentWatch {
    pub partnership_id: String,
    pub trade_id: String,
    pub bank_a_id: String,
    pub bank_b_id: String,
    pub credit_a: bool,
    pub debit_a: bool,
    pub credit_b: bool,
    pub debit_b: bool,
    pub since: u64,
}

/// Why two legs do not match, if they do not; the first difference found.
pub open spec fn mismatch_of(
    first: Leg,
    second: Leg,
    first_counterparty_id: Seq<char>,
    second_counterparty_id: Seq<char>,
) -> Option<Seq<char>> {
    let a = first.trade;
    let b = second.trade;
    if a.trade_id@ != b.trade_id@ {
        Some("trade identifiers differ"@)
    } else if a.side == b.side {
        Some("both legs are on the same side"@)
    } else if first_counterparty_id != second.bank_id@ || second_counterparty_id
        != first.bank_id@ {
        Some("counterparties do not match"@)
    } else if a.instrument_id@ != b.instrument_id@ {
        Some("instruments differ"@)
    } else if a.product != b.product {
        Some("products differ"@)
    } else if a.price != b.price {
        Some("prices differ"@)
    } else if a.notional_amount != b.notional_amount {
        Some("notional amounts differ"@)
    } else if a.settlement_method@ != b.settlement_method@ {
        Some("settlement methods differ"@)
    } else if a.settlement_pvp != b.settlement_pvp {
        Some("settlement terms differ"@)
    } else if a.delivery_date@ != b.delivery_date@ {
        Some("delivery dates differ"@)
    } else {
        None
    }
}

/// The status of two legs: `Confirmed` when they agree, `Rejected` with
/// the reason when they do not.
pub open spec fn reports_verdict(status: MatchingStatus, mismatch: Option<Seq<char>>) -> bool {
    match mismatch {
        Some(reason) => status matches MatchingStatus::Rejected(m) && m@ == reason,
        None => status matches MatchingStatus::Confirmed(m) && m@ == "legs agree"@,
    }
}

/// The matching status of two legs, given the bank identifiers derived from
/// the counterparty each leg names.
pub fn decide_match(
    first: &Leg,
    second: &Leg,
    first_counterparty_id: &String,
    second_counterparty_id: &String,
) -> (r: MatchingStatus)
    ensures
        reports_verdict(
            r,
            mismatch_of(*first, *second, first_counterparty_id@, second_counterparty_id@),
        ),
{
    let a = &first.trade;
    let b = &second.trade;
    let reason = if a.trade_id != b.trade_id {
        "trade identifiers differ"
    } else if a.side == b.side {
        "both legs are on the same side"
    } else if *first_counterparty_id != second.bank_id || *second_counterparty_id
        != first.bank_id {
        "counterparties do not match"
    } else if a.instrument_id != b.instrument_id {
        "instruments differ"
    } else if a.product != b.product {
        "products differ"
    } else if a.price != b.price {
        "prices differ"
    } else if a.notional_amount != b.notional_amount {
        "notional amounts differ"
    } else if a.settlement_method != b.settlement_method {
        "settlement methods differ"
    } else if a.settlement_pvp != b.settlement_pvp {
        "settlement terms differ"
    } else if a.delivery_date != b.delivery_date {
        "delivery dates differ"
    } else {
        return MatchingStatus::Confirmed(String::from_str("legs agree"));
    };
    MatchingStatus::Rejected(String::from_str(reason))
}

/// The matching status of two legs.
pub fn compare_legs(first: &Leg, second: &Leg) -> (r: MatchingStatus)
    ensures
        reports_verdict(
            r,
            mismatch_of(
                *first,
                *second,
                bank_id_of(first.trade.counterparty@),
                bank_id_of(second.trade.counterparty@),
            ),
        ),
{
    let first_counterparty_id = get_bank_id(first.trade.counterparty.as_str());
    let second_counterparty_id = get_bank_id(second.trade.counterparty.as_str());
    decide_match(first, second, &first_counterparty_id, &second_counterparty_id)
}

/// The key that correlates the two legs of a trade.
pub open spec fn leg_key(leg: Leg) -> (Seq<char>, Seq<char>) {
    (leg.partnership_id@, leg.trade.trade_id@)
}

/// The key of the trade a payment watch follows.
pub open spec fn watch_key(watch: PaymentWatch) -> (Seq<char>, Seq<char>) {
    (watch.partnership_id@, watch.trade_id@)
}

/// The first position at or after `from` of a leg with `key`, or -1.
pub open spec fn leg_index(legs: Seq<Leg>, key: (Seq<char>, Seq<char>), from: int) -> int
    decreases legs.len() - from,
{
    if from < 0 || from >= legs.len() {
        -1
    } else if leg_key(legs[from]) == key {
        from
    } else {
        leg_index(legs, key, from + 1)
    }
}

/// The first position at or after `from` of a watch with `key`, or -1.
pub open spec fn watch_index(watches: Seq<PaymentWatch>, key: (Seq<char>, Seq<char>), from: int) -> int
    decreases watches.len() - from,
{
    if from < 0 || from >= watches.len() {
        -1
    } else if watch_key(watches[from]) == key {
        from
    } else {
        watch_index(watches, key, from + 1)
    }
}

/// More than `window` milliseconds passed from `since` to `now`.
pub open spec fn is_late(since: u64, now: u64, window: u64) -> bool {
    now > since && now - since > window
}

/// The first position at or after `from` of a leg that is late at `now`, or -1.
pub open spec fn late_leg_index(legs: Seq<Leg>, now: u64, window: u64, from: int) -> int
    decreases legs.len() - from,
{
    if from < 0 || from >= legs.len() {
        -1
    } else if is_late(legs[from].received_at, now, window) {
        from
    } else {
        late_leg_index(legs, now, window, from + 1)
    }
}

/// The first position at or after `from` of a watch that is late at `now`, or -1.
pub open spec fn late_watch_index(watches: Seq<PaymentWatch>, now: u64, window: u64, from: int) -> int
    decreases watches.len() - from,
{
    if from < 0 || from >= watches.len() {
        -1
    } else if is_late(watches[from].since, now, window) {
        from
    } else {
        late_watch_index(watches, now, window, from + 1)
    }
}

/// The reason given to a leg whose counter leg did not come in time.
pub open spec fn timeout_reason() -> Seq<char> {
    "no counter leg within the matching window"@
}

/// The reason given to a trade whose payments were not all confirmed in time.
pub open spec fn payment_timeout_reason() -> Seq<char> {
    "payments not confirmed within the payment window"@
}

/// `action` sets `status` on the ledgers of the banks of both legs.
pub open spec fn settles(action: MatchAction, first: Leg, second: Leg, status: MatchingStatus) -> bool {
    action == (MatchAction::SettleTrade {
        partnership_id: first.partnership_id,
        bank_a_id: first.bank_id,
        bank_b_id: second.bank_id,
        trade_id: first.trade.trade_id,
        matching_status: status,
    })
}

/// `action` rejects `leg`, on its own bank's ledger, for want of a counter leg.
pub open spec fn rejects_leg(action: MatchAction, leg: Leg) -> bool {
    &&& action matches MatchAction::RejectLeg {
        partnership_id,
        bank_id,
        trade_id,
        matching_status: MatchingStatus::Rejected(m),
    }
    &&& partnership_id == leg.partnership_id
    &&& bank_id == leg.bank_id
    &&& trade_id == leg.trade.trade_id
    &&& m@ == timeout_reason()
}

/// `action` sets a payment status with message `message` on the ledgers of
/// both banks that `watch` follows; `confirmed` tells which status.
pub open spec fn sets_payment(
    action: MatchAction,
    watch: PaymentWatch,
    confirmed: bool,
    message: Seq<char>,
) -> bool {
    &&& action matches MatchAction::SetPaymentStatus {
        partnership_id,
        bank_a_id,
        bank_b_id,
        trade_id,
        payment_status,
    }
    &&& partnership_id == watch.partnership_id
    &&& bank_a_id == watch.bank_a_id
    &&& bank_b_id == watch.bank_b_id
    &&& trade_id == watch.trade_id
    &&& if confirmed {
        payment_status matches PaymentStatus::Confirmed(m) && m@ == message
    } else {
        payment_status matches PaymentStatus::Rejected(m) && m@ == message
    }
}

/// A fresh watch of the payments of the trade of two matched legs.
pub open spec fn fresh_watch(watch: PaymentWatch, first: Leg, second: Leg) -> bool {
    &&& watch.partnership_id == first.partnership_id
    &&& watch.trade_id == first.trade.trade_id
    &&& watch.bank_a_id == first.bank_id
    &&& watch.bank_b_id == second.bank_id
    &&& !watch.credit_a && !watch.debit_a && !watch.credit_b && !watch.debit_b
    &&& watch.since == second.received_at
}

/// All four payment confirmations of a trade are in.
pub open spec fn payments_complete(watch: PaymentWatch) -> bool {
    watch.credit_a && watch.debit_a && watch.credit_b && watch.debit_b
}

/// `watch` with the confirmation of `bank_id` recorded: that bank's credit
/// or debit, for whichever of the two banks it is.
pub open spec fn with_confirmation(
    watch: PaymentWatch,
    bank_id: Seq<char>,
    confirmation: PaymentConfirmation,
) -> PaymentWatch {
    if bank_id == watch.bank_a_id@ {
        match confirmation {
            PaymentConfirmation::Credit => PaymentWatch { credit_a: true, ..watch },
            PaymentConfirmation::Debit => PaymentWatch { debit_a: true, ..watch },
        }
    } else if bank_id == watch.bank_b_id@ {
        match confirmation {
            PaymentConfirmation::Credit => PaymentWatch { credit_b: true, ..watch },
            PaymentConfirmation::Debit => PaymentWatch { debit_b: true, ..watch },
        }
    } else {
        watch
    }
}

/// The engine: legs waiting for their counter leg, legs rejected for want of
/// one, and matched trades waiting for their payments.
pub struct MatchingEngine {
    matching_window: u64,
    payment_window: u64,
    pending: Vec<Leg>,
    expired: Vec<Leg>,
    watches: Vec<PaymentWatch>,
}

impl MatchingEngine {
    /// How long, in milliseconds, a leg waits for its counter leg.
    pub closed spec fn matching_window(&self) -> u64 {
        self.matching_window
    }

    /// How long, in milliseconds, a matched trade waits for its payments.
    pub closed spec fn payment_window(&self) -> u64 {
        self.payment_window
    }

    /// The legs waiting for their counter leg, oldest first.
    pub closed spec fn pending(&self) -> Seq<Leg> {
        self.pending@
    }

    /// The legs rejected for want of a counter leg, whose counter leg is
    /// still to be rejected when it comes.
    pub closed spec fn expired(&self) -> Seq<Leg> {
        self.expired@
    }

    /// The matched trades waiting for their payments, oldest first.
    pub closed spec fn watches(&self) -> Seq<PaymentWatch> {
        self.watches@
    }

    /// An idle engine with the given windows.
    pub fn new(matching_window: u64, payment_window: u64) -> (r: Self)
        ensures
            r.matching_window() == matching_window,
            r.payment_window() == payment_window,
            r.pending() == Seq::<Leg>::empty(),
            r.expired() == Seq::<Leg>::empty(),
            r.watches() == Seq::<PaymentWatch>::empty(),
    {
        MatchingEngine {
            matching_window,
            payment_window,
            pending: Vec::new(),
            expired: Vec::new(),
            watches: Vec::new(),
        }
    }

    /// Takes in a submitted leg. A leg whose trade was already rejected for
    /// want of a counter leg is rejected as well. A leg whose counter leg is
    /// waiting settles the trade on both ledgers: rejected when the counter
    /// leg waited too long, else as the legs' verdict says, and a confirmed
    /// trade is then watched for its payments. A leg resubmitted by the same
    /// bank replaces the waiting one; any other leg waits.
    pub fn submit_leg(&mut self, leg: Leg) -> (r: Option<MatchAction>)
        ensures
            final(self).matching_window() == old(self).matching_window(),
            final(self).payment_window() == old(self).payment_window(),
            ({
                let key = leg_key(leg);
                let e = leg_index(old(self).expired(), key, 0);
                let p = leg_index(old(self).pending(), key, 0);
                if e >= 0 {
                    &&& r matches Some(a) && rejects_leg(a, leg)
                    &&& final(self).expired() == old(self).expired().remove(e)
                    &&& final(self).pending() == old(self).pending()
                    &&& final(self).watches() == old(self).watches()
                } else if p < 0 {
                    &&& r.is_none()
                    &&& final(self).pending() == old(self).pending().push(leg)
                    &&& final(self).expired() == old(self).expired()
                    &&& final(self).watches() == old(self).watches()
                } else if old(self).pending()[p].bank_id@ == leg.bank_id@ {
                    &&& r.is_none()
                    &&& final(self).pending() == old(self).pending().update(p, leg)
                    &&& final(self).expired() == old(self).expired()
                    &&& final(self).watches() == old(self).watches()
                } else {
                    let first = old(self).pending()[p];
                    &&& final(self).pending() == old(self).pending().remove(p)
                    &&& final(self).expired() == old(self).expired()
                    &&& r matches Some(a)
                    &&& a matches MatchAction::SettleTrade { matching_status: status, .. }
                    &&& settles(a, first, leg, status)
                    &&& if is_late(first.received_at, leg.received_at, old(self).matching_window()) {
                        &&& status matches MatchingStatus::Rejected(m) && m@ == timeout_reason()
                        &&& final(self).watches() == old(self).watches()
                    } else {
                        &&& reports_verdict(
                            status,
                            mismatch_of(
                                first,
                                leg,
                                bank_id_of(first.trade.counterparty@),
                                bank_id_of(leg.trade.counterparty@),
                            ),
                        )
                        &&& if status is Confirmed {
                            &&& final(self).watches() == old(self).watches().push(
                                final(self).watches().last(),
                            )
                            &&& fresh_watch(final(self).watches().last(), first, leg)
                        } else {
                            final(self).watches() == old(self).watches()
                        }
                    }
                }
            }),
    {
        if let Some(i) = find_leg(&self.expired, &leg.partnership_id, &leg.trade.trade_id) {
            self.expired.remove(i);
            return Some(reject_leg(&leg));
        }
        match find_leg(&self.pending, &leg.partnership_id, &leg.trade.trade_id) {
            None => {
                self.pending.push(leg);
                None
            },
            Some(i) => {
                if self.pending[i].bank_id == leg.bank_id {
                    self.pending.set(i, leg);
                    return None;
                }
                let first = self.pending.remove(i);
                if late(first.received_at, leg.received_at, self.matching_window) {
                    return Some(
                        MatchAction::SettleTrade {
                            partnership_id: first.partnership_id,
                            bank_a_id: first.bank_id,
                            bank_b_id: leg.bank_id,
                            trade_id: first.trade.trade_id,
                            matching_status: MatchingStatus::Rejected(
                                String::from_str("no counter leg within the matching window"),
                            ),
                        },
                    );
                }
                let status = compare_legs(&first, &leg);
                if let MatchingStatus::Confirmed(_) = status {
                    self.watches.push(
                        PaymentWatch {
                            partnership_id: first.partnership_id.clone(),
                            trade_id: first.trade.trade_id.clone(),
                            bank_a_id: first.bank_id.clone(),
                            bank_b_id: leg.bank_id.clone(),
                            credit_a: false,
                            debit_a: false,
                            credit_b: false,
                            debit_b: false,
                            since: leg.received_at,
                        },
                    );
                }
                Some(
                    MatchAction::SettleTrade {
                        partnership_id: first.partnership_id,
                        bank_a_id: first.bank_id,
                        bank_b_id: leg.bank_id,
                        trade_id: first.trade.trade_id,
                        matching_status: status,
                    },
                )
            },
        }
    }

    /// Acts on the first thing overdue at `now`: the oldest leg that waited
    /// too long for its counter leg is rejected and remembered, else the
    /// oldest matched trade whose payments took too long is rejected. Called
    /// until it returns `None`, it leaves nothing overdue.
    pub fn tick(&mut self, now: u64) -> (r: Option<MatchAction>)
        ensures
            final(self).matching_window() == old(self).matching_window(),
            final(self).payment_window() == old(self).payment_window(),
            ({
                let l = late_leg_index(old(self).pending(), now, old(self).matching_window(), 0);
                let w = late_watch_index(old(self).watches(), now, old(self).payment_window(), 0);
                if l >= 0 {
                    &&& r matches Some(a) && rejects_leg(a, old(self).pending()[l])
                    &&& final(self).pending() == old(self).pending().remove(l)
                    &&& final(self).expired() == old(self).expired().push(old(self).pending()[l])
                    &&& final(self).watches() == old(self).watches()
                } else if w >= 0 {
                    &&& r matches Some(a) && sets_payment(
                        a,
                        old(self).watches()[w],
                        false,
                        payment_timeout_reason(),
                    )
                    &&& final(self).pending() == old(self).pending()
                    &&& final(self).expired() == old(self).expired()
                    &&& final(self).watches() == old(self).watches().remove(w)
                } else {
                    &&& r.is_none()
                    &&& final(self).pending() == old(self).pending()
                    &&& final(self).expired() == old(self).expired()
                    &&& final(self).watches() == old(self).watches()
                }
            }),
    {
        if let Some(i) = find_late_leg(&self.pending, now, self.matching_window) {
            let leg = self.pending.remove(i);
            let action = reject_leg(&leg);
            self.expired.push(leg);
            return Some(action);
        }
        if let Some(i) = find_late_watch(&self.watches, now, self.payment_window) {
            let watch = self.watches.remove(i);
            return Some(payment_action(watch, false));
        }
        None
    }

    /// Records a bank's payment confirmation of a matched trade; once all
    /// four are in, the trade's payments are confirmed on both ledgers.
    pub fn record_payment(
        &mut self,
        partnership_id: &String,
        bank_id: &String,
        trade_id: &String,
        confirmation: PaymentConfirmation,
    ) -> (r: Option<MatchAction>)
        ensures
            final(self).matching_window() == old(self).matching_window(),
            final(self).payment_window() == old(self).payment_window(),
            final(self).pending() == old(self).pending(),
            final(self).expired() == old(self).expired(),
            ({
                let w = watch_index(old(self).watches(), (partnership_id@, trade_id@), 0);
                if w < 0 {
                    &&& r.is_none()
                    &&& final(self).watches() == old(self).watches()
                } else {
                    let updated = with_confirmation(old(self).watches()[w], bank_id@, confirmation);
                    if payments_complete(updated) {
                        &&& r matches Some(a) && sets_payment(
                            a,
                            old(self).watches()[w],
                            true,
                            "payments confirmed"@,
                        )
                        &&& final(self).watches() == old(self).watches().remove(w)
                    } else {
                        &&& r.is_none()
                        &&& final(self).watches() == old(self).watches().update(w, updated)
                    }
                }
            }),
    {
        match find_watch(&self.watches, partnership_id, trade_id) {
            None => None,
            Some(i) => {
                let ghost before = self.watches@;
                let mut watch = self.watches.remove(i);
                let ghost unconfirmed = watch;
                if *bank_id == watch.bank_a_id {
                    match confirmation {
                        PaymentConfirmation::Credit => watch.credit_a = true,
                        PaymentConfirmation::Debit => watch.debit_a = true,
                    }
                } else if *bank_id == watch.bank_b_id {
                    match confirmation {
                        PaymentConfirmation::Credit => watch.credit_b = true,
                        PaymentConfirmation::Debit => watch.debit_b = true,
                    }
                }
                assert(watch == with_confirmation(unconfirmed, bank_id@, confirmation));
                if watch.credit_a && watch.debit_a && watch.credit_b && watch.debit_b {
                    Some(payment_action(watch, true))
                } else {
                    self.watches.insert(i, watch);
                    assert(self.watches@ =~= before.update(i as int, watch));
                    None
                }
            },
        }
    }
}

/// Where the first leg with the key of (`partnership_id`, `trade_id`) is.
fn find_leg(legs: &Vec<Leg>, partnership_id: &String, trade_id: &String) -> (r: Option<usize>)
    ensures
        match r {
            Some(i) => i as int == leg_index(legs@, (partnership_id@, trade_id@), 0) && i
                < legs@.len(),
            None => leg_index(legs@, (partnership_id@, trade_id@), 0) == -1,
        },
{
    let mut i: usize = 0;
    while i < legs.len()
        invariant
            i <= legs@.len(),
            leg_index(legs@, (partnership_id@, trade_id@), 0) == leg_index(
                legs@,
                (partnership_id@, trade_id@),
                i as int,
            ),
        decreases legs@.len() - i,
    {
        if legs[i].partnership_id == *partnership_id && legs[i].trade.trade_id == *trade_id {
            return Some(i);
        }
        i += 1;
    }
    None
}

/// Where the first watch with the key of (`partnership_id`, `trade_id`) is.
fn find_watch(watches: &Vec<PaymentWatch>, partnership_id: &String, trade_id: &String) -> (r:
    Option<usize>)
    ensures
        match r {
            Some(i) => i as int == watch_index(watches@, (partnership_id@, trade_id@), 0) && i
                < watches@.len(),
            None => watch_index(watches@, (partnership_id@, trade_id@), 0) == -1,
        },
{
    let mut i: usize = 0;
    while i < watches.len()
        invariant
            i <= watches@.len(),
            watch_index(watches@, (partnership_id@, trade_id@), 0) == watch_index(
                watches@,
                (partnership_id@, trade_id@),
                i as int,
            ),
        decreases watches@.len() - i,
    {
        if watches[i].partnership_id == *partnership_id && watches[i].trade_id == *trade_id {
            return Some(i);
        }
        i += 1;
    }
    None
}

/// Whether more than `window` milliseconds passed from `since` to `now`.
pub fn late(since: u64, now: u64, window: u64) -> (r: bool)
    ensures
        r == is_late(since, now, window),
{
    now > since && now - since > window
}

/// Where the first leg that is late at `now` is.
fn find_late_leg(legs: &Vec<Leg>, now: u64, window: u64) -> (r: Option<usize>)
    ensures
        match r {
            Some(i) => i as int == late_leg_index(legs@, now, window, 0) && i < legs@.len(),
            None => late_leg_index(legs@, now, window, 0) == -1,
        },
{
    let mut i: usize = 0;
    while i < legs.len()
        invariant
            i <= legs@.len(),
            late_leg_index(legs@, now, window, 0) == late_leg_index(legs@, now, window, i as int),
        decreases legs@.len() - i,
    {
        if late(legs[i].received_at, now, window) {
            return Some(i);
        }
        i += 1;
    }
    None
}

/// Where the first watch that is late at `now` is.
fn find_late_watch(watches: &Vec<PaymentWatch>, now: u64, window: u64) -> (r: Option<usize>)
    ensures
        match r {
            Some(i) => i as int == late_watch_index(watches@, now, window, 0) && i
                < watches@.len(),
            None => late_watch_index(watches@, now, window, 0) == -1,
        },
{
    let mut i: usize = 0;
    while i < watches.len()
        invariant
            i <= watches@.len(),
            late_watch_index(watches@, now, window, 0) == late_watch_index(
                watches@,
                now,
                window,
                i as int,
            ),
        decreases watches@.len() - i,
    {
        if late(watches[i].since, now, window) {
            return Some(i);
        }
        i += 1;
    }
    None
}

/// The rejection of a leg for want of a counter leg.
fn reject_leg(leg: &Leg) -> (r: MatchAction)
    ensures
        rejects_leg(r, *leg),
{
    MatchAction::RejectLeg {
        partnership_id: leg.partnership_id.clone(),
        bank_id: leg.bank_id.clone(),
        trade_id: leg.trade.trade_id.clone(),
        matching_status: MatchingStatus::Rejected(
            String::from_str("no counter leg within the matching window"),
        ),
    }
}

/// A payment status for both banks that `watch` follows.
fn payment_action(watch: PaymentWatch, confirmed: bool) -> (r: MatchAction)
    ensures
        sets_payment(
            r,
            watch,
            confirmed,
            if confirmed {
                "payments confirmed"@
            } else {
                payment_timeout_reason()
            },
        ),
{
    let payment_status = if confirmed {
        PaymentStatus::Confirmed(String::from_str("payments confirmed"))
    } else {
        PaymentStatus::Rejected(String::from_str("payments not confirmed within the payment window"))
    };
    MatchAction::SetPaymentStatus {
        partnership_id: watch.partnership_id,
        bank_a_id: watch.bank_a_id,
        bank_b_id: watch.bank_b_id,
        trade_id: watch.trade_id,
        payment_status,
    }
}

/// Two legs of one trade on opposite sides that name each other's bank and
/// agree on instrument, product, price, notional and settlement match.
pub proof fn agreeing_legs_match(
    first: Leg,
    second: Leg,
    first_counterparty_id: Seq<char>,
    second_counterparty_id: Seq<char>,
)
    requires
        first.trade.trade_id@ == second.trade.trade_id@,
        first.trade.side != second.trade.side,
        first_counterparty_id == second.bank_id@,
        second_counterparty_id == first.bank_id@,
        first.trade.instrument_id@ == second.trade.instrument_id@,
        first.trade.product == second.trade.product,
        first.trade.price == second.trade.price,
        first.trade.notional_amount == second.trade.notional_amount,
        first.trade.settlement_method@ == second.trade.settlement_method@,
        first.trade.settlement_pvp == second.trade.settlement_pvp,
        first.trade.delivery_date@ == second.trade.delivery_date@,
    ensures
        mismatch_of(first, second, first_counterparty_id, second_counterparty_id).is_none(),
{
}

/// Every rejection of two legs comes with a reason that is not empty.
pub proof fn rejection_reason_not_empty(
    first: Leg,
    second: Leg,
    first_counterparty_id: Seq<char>,
    second_counterparty_id: Seq<char>,
)
    ensures
        mismatch_of(first, second, first_counterparty_id, second_counterparty_id) matches Some(
            reason,
        ) ==> reason.len() > 0,
{
    reveal_strlit("trade identifiers differ");
    reveal_strlit("both legs are on the same side");
    reveal_strlit("counterparties do not match");
    reveal_strlit("instruments differ");
    reveal_strlit("products differ");
    reveal_strlit("prices differ");
    reveal_strlit("notional amounts differ");
    reveal_strlit("settlement methods differ");
    reveal_strlit("settlement terms differ");
    reveal_strlit("delivery dates differ");
}

/// Two legs of one trade that differ in price do not match, and the reason
/// given is not empty.
pub proof fn differing_prices_reject(
    first: Leg,
    second: Leg,
    first_counterparty_id: Seq<char>,
    second_counterparty_id: Seq<char>,
)
    requires
        first.trade.price != second.trade.price,
    ensures
        mismatch_of(first, second, first_counterparty_id, second_counterparty_id) matches Some(
            reason,
        ) && reason.len() > 0,
{
    rejection_reason_not_empty(first, second, first_counterparty_id, second_counterparty_id);
}

/// A leg that waits alone past the matching window is the first thing due:
/// the next tick rejects it instead of leaving it pending.
pub proof fn lone_leg_times_out(leg: Leg, now: u64, window: u64)
    requires
        is_late(leg.received_at, now, window),
    ensures
        late_leg_index(seq![leg], now, window, 0) == 0,
{
}

/// Once both banks of a matched trade have confirmed their credit and their
/// debit, in whatever order, its payments are complete.
pub proof fn four_confirmations_complete(watch: PaymentWatch, order: Seq<(Seq<char>, PaymentConfirmation)>)
    requires
        watch.bank_a_id@ != watch.bank_b_id@,
        order.contains((watch.bank_a_id@, PaymentConfirmation::Credit)),
        order.contains((watch.bank_a_id@, PaymentConfirmation::Debit)),
        order.contains((watch.bank_b_id@, PaymentConfirmation::Credit)),
        order.contains((watch.bank_b_id@, PaymentConfirmation::Debit)),
    ensures
        payments_complete(confirm_all(watch, order)),
{
    lemma_confirm_all_keeps(watch, order);
}

/// `watch` with every confirmation of `order` recorded, first to last.
pub open spec fn confirm_all(watch: PaymentWatch, order: Seq<(Seq<char>, PaymentConfirmation)>) -> PaymentWatch
    decreases order.len(),
{
    if order.len() == 0 {
        watch
    } else {
        confirm_all(with_confirmation(watch, order[0].0, order[0].1), order.drop_first())
    }
}

/// Recording confirmations keeps the banks of a watch and every flag that
/// was set, and sets the flag of each recorded confirmation.
proof fn lemma_confirm_all_keeps(watch: PaymentWatch, order: Seq<(Seq<char>, PaymentConfirmation)>)
    requires
        watch.bank_a_id@ != watch.bank_b_id@,
    ensures
        ({
            let r = confirm_all(watch, order);
            &&& r.bank_a_id == watch.bank_a_id
            &&& r.bank_b_id == watch.bank_b_id
            &&& (watch.credit_a || order.contains((watch.bank_a_id@, PaymentConfirmation::Credit)))
                ==> r.credit_a
            &&& (watch.debit_a || order.contains((watch.bank_a_id@, PaymentConfirmation::Debit)))
                ==> r.debit_a
            &&& (watch.credit_b || order.contains((watch.bank_b_id@, PaymentConfirmation::Credit)))
                ==> r.credit_b
            &&& (watch.debit_b || order.contains((watch.bank_b_id@, PaymentConfirmation::Debit)))
                ==> r.debit_b
        }),
    decreases order.len(),
{
    if order.len() > 0 {
        let next = with_confirmation(watch, order[0].0, order[0].1);
        lemma_confirm_all_keeps(next, order.drop_first());
        assert forall|x: (Seq<char>, PaymentConfirmation)|
            order.contains(x) && x != order[0] implies order.drop_first().contains(x) by {
            let k = choose|k: int| 0 <= k < order.len() && order[k] == x;
            assert(order.drop_first()[k - 1] == x);
        }
    }
}

} // verus!
