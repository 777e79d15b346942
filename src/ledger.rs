//! The ledger of one bank: its trades and their matching and payment
//! status. Only the factory may change it.
use crate::event::RtpEvent;
use crate::ids::{bank_id_of, get_bank_id, get_partnership_id, partnership_id_of};
use crate::trade::{
    MatchingStatus, PaymentConfirmation, PaymentStatus, Payments, Trade, TradeDetails,
};
use vstd::prelude::*;

verus! {

/// Why a ledger operation was refused.
#[derive(Clone, Copy, Debug, PartialEq, Eq, Structural)]
pub enum ContractError {
    /// The caller is not the factory.
    NotFactory,
    /// The trade names the bank itself as its counterparty.
    InvalidBank,
    /// No trade with that identifier is stored.
    InvalidTradeId,
    /// A trade lacks what the operation needs.
    TradeIncomplete,
}

/// The key under which a trade is stored.
pub open spec fn trade_key(trade: Trade) -> Seq<char> {
    trade.trade_details.trade_id@
}

/// The trades of a sequence by key; a later entry hides an earlier one.
pub open spec fn trade_table(trades: Seq<Trade>) -> Map<Seq<char>, Trade>
    decreases trades.len(),
{
    if trades.len() == 0 {
        Map::empty()
    } else {
        trade_table(trades.drop_last()).insert(trade_key(trades.last()), trades.last())
    }
}

/// No two entries share a key.
pub open spec fn keys_unique(trades: Seq<Trade>) -> bool {
    forall|i: int, j: int|
        0 <= i < trades.len() && 0 <= j < trades.len() && i != j ==> trade_key(trades[i])
            != trade_key(trades[j])
}

proof fn lemma_table_has(trades: Seq<Trade>, i: int)
    requires
        keys_unique(trades),
        0 <= i < trades.len(),
    ensures
        trade_table(trades).contains_key(trade_key(trades[i])),
        trade_table(trades)[trade_key(trades[i])] == trades[i],
    decreases trades.len(),
{
    if i < trades.len() - 1 {
        lemma_table_has(trades.drop_last(), i);
    }
}

proof fn lemma_table_lacks(trades: Seq<Trade>, key: Seq<char>)
    requires
        forall|i: int| 0 <= i < trades.len() ==> trade_key(trades[i]) != key,
    ensures
        !trade_table(trades).contains_key(key),
    decreases trades.len(),
{
    if trades.len() > 0 {
        lemma_table_lacks(trades.drop_last(), key);
    }
}

proof fn lemma_table_update(trades: Seq<Trade>, i: int, t: Trade)
    requires
        keys_unique(trades),
        0 <= i < trades.len(),
        trade_key(t) == trade_key(trades[i]),
    ensures
        trade_table(trades.update(i, t)) == trade_table(trades).insert(trade_key(t), t),
        keys_unique(trades.update(i, t)),
    decreases trades.len(),
{
    let u = trades.update(i, t);
    if i == trades.len() - 1 {
        assert(u.drop_last() =~= trades.drop_last());
        lemma_table_lacks(trades.drop_last(), trade_key(t));
        assert(trade_table(u) =~= trade_table(trades).insert(trade_key(t), t));
    } else {
        assert(u.drop_last() =~= trades.drop_last().update(i, t));
        lemma_table_update(trades.drop_last(), i, t);
        assert(trade_table(u) =~= trade_table(trades).insert(trade_key(t), t));
    }
}

/// A trade just submitted by `bank`: nothing matched or paid yet.
pub open spec fn is_fresh_trade(trade: Trade, bank: Seq<char>, details: TradeDetails) -> bool {
    &&& trade.bank@ == bank
    &&& trade.trade_details == details
    &&& trade.matching_status == MatchingStatus::Pending
    &&& trade.payment_status == PaymentStatus::Pending
    &&& trade.payments == Payments { credit: false, debit: false }
}

/// One bank's ledger.
pub struct Contract {
    factory: String,
    bank: String,
    trades: Vec<Trade>,
}

impl Contract {
    /// Trade identifiers are unique and no trade names the bank itself as its
    /// counterparty.
    pub closed spec fn wf(&self) -> bool {
        &&& keys_unique(self.trades@)
        &&& forall|i: int|
            0 <= i < self.trades@.len() ==> self.trades@[i].trade_details.counterparty@
                != self.bank@
    }

    /// The account of the factory, the only caller allowed to change the ledger.
    pub closed spec fn factory(&self) -> Seq<char> {
        self.factory@
    }

    /// The name of the bank that owns the ledger.
    pub closed spec fn bank(&self) -> Seq<char> {
        self.bank@
    }

    /// The stored trades, by trade identifier.
    pub closed spec fn trades(&self) -> Map<Seq<char>, Trade> {
        trade_table(self.trades@)
    }

    /// An empty ledger for `bank`, changed only through `factory`.
    pub fn new(factory: String, bank: String) -> (r: Self)
        ensures
            r.factory() == factory@,
            r.bank() == bank@,
            r.trades() == Map::<Seq<char>, Trade>::empty(),
            r.wf(),
    {
        Contract { factory, bank, trades: Vec::new() }
    }

    /// A ledger restored from its stored parts; refused when two trades share
    /// an identifier or one names the bank itself as its counterparty.
    pub fn restore(factory: String, bank: String, trades: Vec<Trade>) -> (r: Option<Self>)
        ensures
            r.is_some() == (keys_unique(trades@) && forall|i: int|
                0 <= i < trades@.len() ==> trades@[i].trade_details.counterparty@ != bank@),
            r matches Some(c) ==> c.wf() && c.factory() == factory@ && c.bank() == bank@
                && c.trades() == trade_table(trades@),
    {
        let mut i: usize = 0;
        while i < trades.len()
            invariant
                i <= trades@.len(),
                forall|a: int, b: int|
                    0 <= a < i && 0 <= b < i && a != b ==> trade_key(trades@[a]) != trade_key(
                        trades@[b],
                    ),
                forall|a: int| 0 <= a < i ==> trades@[a].trade_details.counterparty@ != bank@,
            decreases trades@.len() - i,
        {
            if trades[i].trade_details.counterparty == bank {
                return None;
            }
            let mut j: usize = 0;
            while j < i
                invariant
                    i < trades@.len(),
                    j <= i,
                    forall|b: int| 0 <= b < j ==> trade_key(trades@[b]) != trade_key(trades@[i as int]),
                decreases i - j,
            {
                if trades[j].trade_details.trade_id == trades[i].trade_details.trade_id {
                    assert(trade_key(trades@[j as int]) == trade_key(trades@[i as int]));
                    return None;
                }
                j += 1;
            }
            i += 1;
        }
        Some(Contract { factory, bank, trades })
    }

    /// The factory's account.
    pub fn factory_account(&self) -> (r: &String)
        ensures
            r@ == self.factory(),
    {
        &self.factory
    }

    /// The name of the bank that owns the ledger.
    pub fn bank_name(&self) -> (r: &String)
        ensures
            r@ == self.bank(),
    {
        &self.bank
    }

    /// The stored trades, as they are kept.
    pub fn stored_trades(&self) -> (r: &Vec<Trade>)
        ensures
            trade_table(r@) == self.trades(),
    {
        &self.trades
    }

    /// Where a trade with `trade_id` is stored, if anywhere.
    fn position(&self, trade_id: &String) -> (r: Option<usize>)
        ensures
            match r {
                Some(i) => i < self.trades@.len() && trade_key(self.trades@[i as int])
                    == trade_id@,
                None => forall|i: int|
                    0 <= i < self.trades@.len() ==> trade_key(self.trades@[i]) != trade_id@,
            },
    {
        let mut i: usize = 0;
        while i < self.trades.len()
            invariant
                i <= self.trades@.len(),
                forall|j: int| 0 <= j < i ==> trade_key(self.trades@[j]) != trade_id@,
            decreases self.trades@.len() - i,
        {
            if self.trades[i].trade_details.trade_id == *trade_id {
                return Some(i);
            }
            i += 1;
        }
        None
    }

    /// Stores a new trade leg, replacing any trade with the same identifier,
    /// and reports it with the partnership and bank it belongs to.
    pub fn perform_trade(&mut self, predecessor: &String, trade_details: TradeDetails) -> (r: Result<
        RtpEvent,
        ContractError,
    >)
        requires
            old(self).wf(),
        ensures
            final(self).wf(),
            final(self).factory() == old(self).factory(),
            final(self).bank() == old(self).bank(),
            predecessor@ != old(self).factory() ==> r == Err::<RtpEvent, ContractError>(
                ContractError::NotFactory,
            ),
            predecessor@ == old(self).factory() && trade_details.counterparty@ == old(self).bank()
                ==> r == Err::<RtpEvent, ContractError>(ContractError::InvalidBank),
            r.is_err() ==> final(self).trades() == old(self).trades(),
            predecessor@ == old(self).factory() && trade_details.counterparty@ != old(self).bank()
                ==> {
                &&& r matches Ok(RtpEvent::SendTrade { partnership_id, bank_id, trade })
                &&& partnership_id@ == partnership_id_of(
                    old(self).bank(),
                    trade_details.counterparty@,
                )
                &&& bank_id@ == bank_id_of(old(self).bank())
                &&& trade == trade_details
                &&& final(self).trades() == old(self).trades().insert(
                    trade_details.trade_id@,
                    final(self).trades()[trade_details.trade_id@],
                )
                &&& is_fresh_trade(
                    final(self).trades()[trade_details.trade_id@],
                    old(self).bank(),
                    trade_details,
                )
            },
    {
        if *predecessor != self.factory {
            return Err(ContractError::NotFactory);
        }
        if trade_details.counterparty == self.bank {
            return Err(ContractError::InvalidBank);
        }
        let partnership_id = get_partnership_id(
            self.bank.clone(),
            trade_details.counterparty.clone(),
        );
        let bank_id = get_bank_id(self.bank.as_str());
        let trade = Trade {
            bank: self.bank.clone(),
            trade_details: trade_details.clone(),
            matching_status: MatchingStatus::Pending,
            payment_status: PaymentStatus::Pending,
            payments: Payments { credit: false, debit: false },
        };
        let ghost key = trade_details.trade_id@;
        match self.position(&trade_details.trade_id) {
            Some(i) => {
                proof {
                    lemma_table_update(self.trades@, i as int, trade);
                }
                self.trades.set(i, trade);
            },
            None => {
                proof {
                    assert(self.trades@.push(trade).drop_last() =~= self.trades@);
                }
                self.trades.push(trade);
            },
        }
        Ok(RtpEvent::SendTrade { partnership_id, bank_id, trade: trade_details })
    }
    /// Overwrites the matching status of a stored trade.
    pub fn set_matching_status(
        &mut self,
        predecessor: &String,
        trade_id: String,
        matching_status: MatchingStatus,
    ) -> (r: Result<(), ContractError>)
        requires
            old(self).wf(),
        ensures
            final(self).wf(),
            final(self).factory() == old(self).factory(),
            final(self).bank() == old(self).bank(),
            r == if predecessor@ != old(self).factory() {
                Err(ContractError::NotFactory)
            } else if !old(self).trades().contains_key(trade_id@) {
                Err(ContractError::InvalidTradeId)
            } else {
                Ok(())
            },
            r.is_err() ==> final(self).trades() == old(self).trades(),
            r.is_ok() ==> final(self).trades() == old(self).trades().insert(
                trade_id@,
                Trade { matching_status, ..old(self).trades()[trade_id@] },
            ),
    {
        if *predecessor != self.factory {
            return Err(ContractError::NotFactory);
        }
        match self.position(&trade_id) {
            Some(i) => {
                let mut trade = self.trades[i].clone();
                proof {
                    lemma_table_has(self.trades@, i as int);
                }
                trade.matching_status = matching_status;
                proof {
                    lemma_table_update(self.trades@, i as int, trade);
                }
                self.trades.set(i, trade);
                Ok(())
            },
            None => {
                proof {
                    lemma_table_lacks(self.trades@, trade_id@);
                }
                Err(ContractError::InvalidTradeId)
            },
        }
    }

    /// Overwrites the payment status of a stored trade.
    pub fn set_payment_status(
        &mut self,
        predecessor: &String,
        trade_id: String,
        payment_status: PaymentStatus,
    ) -> (r: Result<(), ContractError>)
        requires
            old(self).wf(),
        ensures
            final(self).wf(),
            final(self).factory() == old(self).factory(),
            final(self).bank() == old(self).bank(),
            r == if predecessor@ != old(self).factory() {
                Err(ContractError::NotFactory)
            } else if !old(self).trades().contains_key(trade_id@) {
                Err(ContractError::InvalidTradeId)
            } else {
                Ok(())
            },
            r.is_err() ==> final(self).trades() == old(self).trades(),
            r.is_ok() ==> final(self).trades() == old(self).trades().insert(
                trade_id@,
                Trade { payment_status, ..old(self).trades()[trade_id@] },
            ),
    {
        if *predecessor != self.factory {
            return Err(ContractError::NotFactory);
        }
        match self.position(&trade_id) {
            Some(i) => {
                let mut trade = self.trades[i].clone();
                proof {
                    lemma_table_has(self.trades@, i as int);
                }
                trade.payment_status = payment_status;
                proof {
                    lemma_table_update(self.trades@, i as int, trade);
                }
                self.trades.set(i, trade);
                Ok(())
            },
            None => {
                proof {
                    lemma_table_lacks(self.trades@, trade_id@);
                }
                Err(ContractError::InvalidTradeId)
            },
        }
    }

    /// Records that the bank confirmed its credit or its debit for a stored
    /// trade, and reports it with the trade's partnership.
    pub fn confirm_payment(
        &mut self,
        predecessor: &String,
        trade_id: String,
        confirmation: PaymentConfirmation,
    ) -> (r: Result<RtpEvent, ContractError>)
        requires
            old(self).wf(),
        ensures
            final(self).wf(),
            final(self).factory() == old(self).factory(),
            final(self).bank() == old(self).bank(),
            predecessor@ != old(self).factory() ==> r == Err::<RtpEvent, ContractError>(
                ContractError::NotFactory,
            ),
            predecessor@ == old(self).factory() && !old(self).trades().contains_key(trade_id@)
                ==> r == Err::<RtpEvent, ContractError>(ContractError::InvalidTradeId),
            r.is_err() ==> final(self).trades() == old(self).trades(),
            predecessor@ == old(self).factory() && old(self).trades().contains_key(trade_id@) ==> {
                let before = old(self).trades()[trade_id@];
                &&& r matches Ok(
                    RtpEvent::ConfirmPayment { partnership_id, bank_id, trade_id: id, confirmation: c },
                )
                &&& partnership_id@ == partnership_id_of(
                    old(self).bank(),
                    before.trade_details.counterparty@,
                )
                &&& bank_id@ == bank_id_of(old(self).bank())
                &&& id@ == trade_id@
                &&& c == confirmation
                &&& final(self).trades() == old(self).trades().insert(
                    trade_id@,
                    Trade {
                        payments: match confirmation {
                            PaymentConfirmation::Credit => Payments {
                                credit: true,
                                ..before.payments
                            },
                            PaymentConfirmation::Debit => Payments {
                                debit: true,
                                ..before.payments
                            },
                        },
                        ..before
                    },
                )
            },
    {
        if *predecessor != self.factory {
            return Err(ContractError::NotFactory);
        }
        match self.position(&trade_id) {
            Some(i) => {
                let mut trade = self.trades[i].clone();
                proof {
                    lemma_table_has(self.trades@, i as int);
                }
                match confirmation {
                    PaymentConfirmation::Credit => trade.payments.credit = true,
                    PaymentConfirmation::Debit => trade.payments.debit = true,
                }
                let partnership_id = get_partnership_id(
                    self.bank.clone(),
                    trade.trade_details.counterparty.clone(),
                );
                let bank_id = get_bank_id(self.bank.as_str());
                let id = trade.trade_details.trade_id.clone();
                proof {
                    lemma_table_update(self.trades@, i as int, trade);
                }
                self.trades.set(i, trade);
                Ok(RtpEvent::ConfirmPayment { partnership_id, bank_id, trade_id: id, confirmation })
            },
            None => {
                proof {
                    lemma_table_lacks(self.trades@, trade_id@);
                }
                Err(ContractError::InvalidTradeId)
            },
        }
    }

    /// Accepts the teardown of the ledger when the factory asks for it; the
    /// result is the account that receives what is left.
    pub fn delete_account(&self, predecessor: &String) -> (r: Result<String, ContractError>)
        ensures
            predecessor@ != self.factory() ==> r == Err::<String, ContractError>(
                ContractError::NotFactory,
            ),
            predecessor@ == self.factory() ==> (r matches Ok(beneficiary) && beneficiary@
                == self.factory()),
    {
        if *predecessor != self.factory {
            return Err(ContractError::NotFactory);
        }
        Ok(self.factory.clone())
    }

    /// A copy of a stored trade.
    pub fn get_trade(&self, trade_id: String) -> (r: Result<Trade, ContractError>)
        requires
            self.wf(),
        ensures
            r == if self.trades().contains_key(trade_id@) {
                Ok(self.trades()[trade_id@])
            } else {
                Err(ContractError::InvalidTradeId)
            },
    {
        match self.position(&trade_id) {
            Some(i) => {
                proof {
                    lemma_table_has(self.trades@, i as int);
                }
                Ok(self.trades[i].clone())
            },
            None => {
                proof {
                    lemma_table_lacks(self.trades@, trade_id@);
                }
                Err(ContractError::InvalidTradeId)
            },
        }
    }
}

} // verus!
