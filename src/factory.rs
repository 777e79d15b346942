//! The factory: the registry of banks, the only caller allowed to change a
//! bank ledger, and the coordinator of operations that span two ledgers.
//!
//! The factory decides; what it decides to send to a ledger is a [`BankCall`]
//! that the host runtime delivers, and whose outcome comes back to the
//! matching callback.
use crate::event::RtpEvent;
use crate::ids::{bank_id_of, get_bank_id, get_partnership_id, partnership_id_of};
use crate::trade::{MatchingStatus, PaymentConfirmation, PaymentStatus, TradeDetails};
use vstd::prelude::*;
use vstd::string::*;

verus! {

/// One unit of the native token, in its smallest denomination.
pub const ONE_NEAR: u128 = 1_000_000_000_000_000_000_000_000;

/// Bytes paid for beyond the ledger code itself.
pub const BANK_DEPOSIT_COVER_ADDITIONAL_BYTES: usize = 256;

/// What is paid on top of storage for the gas of provisioning.
pub const BANK_DEPOSIT_TO_COVER_GAS: u128 = 2 * ONE_NEAR;

/// Why a factory operation was refused.
#[derive(Clone, Copy, Debug, PartialEq, Eq, Structural)]
pub enum ContractError {
    /// No ledger code was given.
    NoInput,
    /// The deposit is below the cost of a bank: required, then attached.
    NotEnoughDeposit(u128, u128),
    /// A bank with the same identifier is registered already.
    BankAlreadyExists,
    /// A bank identifier is not registered.
    BankNotYetExists,
    /// The two banks of a partnership are the same.
    InvalidBankInput,
}

/// The storage prefixes of the factory's persistent state.
#[derive(Clone, Copy, Debug, PartialEq, Eq, Structural)]
pub enum StorageKey {
    BankIds,
    ContractCode,
}

impl StorageKey {
    /// The storage prefix: the variant's index as one byte.
    pub fn prefix(&self) -> (r: Vec<u8>)
        ensures
            r@ == seq![
                match self {
                    StorageKey::BankIds => 0u8,
                    StorageKey::ContractCode => 1u8,
                },
            ],
    {
        match self {
            StorageKey::BankIds => vec![0u8],
            StorageKey::ContractCode => vec![1u8],
        }
    }
}

/// An operation of a bank ledger.
#[derive(Debug, PartialEq, Eq)]
pub enum BankMethod {
    PerformTrade { trade_details: TradeDetails },
    SetMatchingStatus { trade_id: String, matching_status: MatchingStatus },
    ConfirmPayment { trade_id: String, confirmation: PaymentConfirmation },
    SetPaymentStatus { trade_id: String, payment_status: PaymentStatus },
    DeleteAccount,
}

/// A call of a bank ledger's operation, addressed to the ledger's account.
#[derive(Debug, PartialEq, Eq)]
pub struct BankCall {
    pub account_id: String,
    pub method: BankMethod,
}

/// What provisioning a new bank takes: an account, funds, the ledger's
/// initialisation and, once that succeeded, the factory's own callback.
#[derive(Debug, PartialEq, Eq)]
pub struct BankCreation {
    pub bank_id: String,
    pub account_id: String,
    pub transfer: u128,
    pub init_args: String,
    pub callback_args: String,
}

/// How a callback resolves a joined status change of two ledgers.
#[derive(Debug, PartialEq, Eq)]
pub struct JoinedOutcome {
    pub event: RtpEvent,
    pub compensation: Vec<BankCall>,
}

/// The JSON string literal of a text.
pub uninterp spec fn json_string_of(text: Seq<char>) -> Seq<char>;

/// Relies on `serde_json::Value`'s `Display`: a string value is written as a
/// quoted and escaped JSON string literal that depends on the text alone.
#[verifier::external_body]
fn json_string(text: &str) -> (r: String)
    ensures
        r@ == json_string_of(text@),
{
    serde_json::Value::String(text.to_string()).to_string()
}

/// The texts of a sequence of strings.
pub open spec fn string_views(strings: Seq<String>) -> Seq<Seq<char>> {
    strings.map_values(|s: String| s@)
}

/// The account of a bank's ledger: a sub-account of the factory.
pub open spec fn account_of(bank_id: Seq<char>, factory: Seq<char>) -> Seq<char> {
    bank_id + "."@ + factory
}

/// The arguments of a new ledger's initialiser.
pub open spec fn init_args_of(factory: Seq<char>, bank: Seq<char>) -> Seq<char> {
    "{\"factory\":"@ + json_string_of(factory) + ",\"bank\":"@ + json_string_of(bank) + "}"@
}

/// The arguments of the factory's callback once a ledger is provisioned.
pub open spec fn callback_args_of(bank: Seq<char>, bank_id: Seq<char>) -> Seq<char> {
    "{\"bank\":"@ + json_string_of(bank) + ",\"bank_id\":"@ + json_string_of(bank_id) + "}"@
}

/// What a new bank costs: storage for the ledger code and a margin, plus gas.
pub open spec fn storage_cost_of(code_len: nat, storage_byte_cost: nat) -> nat {
    ((code_len + BANK_DEPOSIT_COVER_ADDITIONAL_BYTES) * storage_byte_cost
        + BANK_DEPOSIT_TO_COVER_GAS) as nat
}

/// The account of a bank's ledger.
pub fn sub_account(bank_id: &String, factory: &String) -> (r: String)
    ensures
        r@ == account_of(bank_id@, factory@),
{
    let mut r = bank_id.clone();
    r.append(".");
    r.append(factory.as_str());
    r
}

/// Joins JSON object members: `{` `k1` `v1` `k2` `v2` `}`.
fn json_object(k1: &str, v1: &String, k2: &str, v2: &String) -> (r: String)
    ensures
        r@ == k1@ + v1@ + k2@ + v2@ + "}"@,
{
    let mut r = String::from_str(k1);
    r.append(v1.as_str());
    r.append(k2);
    r.append(v2.as_str());
    r.append("}");
    r
}

/// The registry of banks and the code that each new ledger runs.
pub struct Contract {
    bank_ids: Vec<String>,
    contract_code: Vec<u8>,
}

impl Contract {
    /// The registered bank identifiers, in the order they were registered.
    pub closed spec fn bank_ids(&self) -> Seq<Seq<char>> {
        string_views(self.bank_ids@)
    }

    /// The code each new ledger is deployed with.
    pub closed spec fn contract_code(&self) -> Seq<u8> {
        self.contract_code@
    }

    /// No identifier is registered twice.
    pub closed spec fn wf(&self) -> bool {
        self.bank_ids().no_duplicates()
    }

    /// An empty registry without ledger code.
    pub fn new() -> (r: Self)
        ensures
            r.wf(),
            r.bank_ids() == Seq::<Seq<char>>::empty(),
            r.contract_code() == Seq::<u8>::empty(),
    {
        let r = Contract { bank_ids: Vec::new(), contract_code: Vec::new() };
        assert(r.bank_ids() =~= Seq::<Seq<char>>::empty());
        r
    }

    /// A registry restored from its stored parts; refused when an
    /// identifier is registered twice.
    pub fn restore(bank_ids: Vec<String>, contract_code: Vec<u8>) -> (r: Option<Self>)
        ensures
            r.is_some() == string_views(bank_ids@).no_duplicates(),
            r matches Some(c) ==> c.wf() && c.bank_ids() == string_views(bank_ids@)
                && c.contract_code() == contract_code@,
    {
        let ghost views = string_views(bank_ids@);
        let mut i: usize = 0;
        while i < bank_ids.len()
            invariant
                views == string_views(bank_ids@),
                i <= bank_ids@.len(),
                forall|a: int, b: int| 0 <= a < i && 0 <= b < i && a != b ==> views[a] != views[b],
            decreases bank_ids@.len() - i,
        {
            let mut j: usize = 0;
            while j < i
                invariant
                    views == string_views(bank_ids@),
                    i < bank_ids@.len(),
                    j <= i,
                    forall|b: int| 0 <= b < j ==> views[b] != views[i as int],
                decreases i - j,
            {
                if bank_ids[j] == bank_ids[i] {
                    assert(views[j as int] == views[i as int]);
                    return None;
                }
                j += 1;
            }
            i += 1;
        }
        Some(Contract { bank_ids, contract_code })
    }

    /// The registered bank identifiers, as they are kept.
    pub fn registered_bank_ids(&self) -> (r: &Vec<String>)
        ensures
            string_views(r@) == self.bank_ids(),
    {
        &self.bank_ids
    }

    /// Whether `bank_id` is registered.
    fn has_bank(&self, bank_id: &String) -> (r: bool)
        ensures
            r == self.bank_ids().contains(bank_id@),
    {
        let mut i: usize = 0;
        while i < self.bank_ids.len()
            invariant
                i <= self.bank_ids@.len(),
                forall|j: int| 0 <= j < i ==> self.bank_ids@[j]@ != bank_id@,
            decreases self.bank_ids@.len() - i,
        {
            if self.bank_ids[i] == *bank_id {
                assert(self.bank_ids()[i as int] == bank_id@);
                return true;
            }
            i += 1;
        }
        assert(!self.bank_ids().contains(bank_id@)) by {
            if self.bank_ids().contains(bank_id@) {
                let j = choose|j: int|
                    0 <= j < self.bank_ids().len() && self.bank_ids()[j] == bank_id@;
                assert(self.bank_ids@[j]@ == bank_id@);
            }
        }
        false
    }

    /// Replaces the ledger code with the input, which must be present.
    pub fn store_contract(&mut self, input: Option<Vec<u8>>) -> (r: Result<(), ContractError>)
        ensures
            final(self).bank_ids() == old(self).bank_ids(),
            match input {
                Some(code) => r == Ok::<(), ContractError>(()) && final(self).contract_code()
                    == code@,
                None => r == Err::<(), ContractError>(ContractError::NoInput)
                    && final(self).contract_code() == old(self).contract_code(),
            },
    {
        match input {
            Some(code) => {
                self.contract_code = code;
                Ok(())
            },
            None => Err(ContractError::NoInput),
        }
    }

    /// Forgets every bank and the ledger code.
    pub fn clear_storage(&mut self)
        ensures
            final(self).wf(),
            final(self).bank_ids() == Seq::<Seq<char>>::empty(),
            final(self).contract_code() == Seq::<u8>::empty(),
    {
        self.bank_ids = Vec::new();
        self.contract_code = Vec::new();
        assert(final(self).bank_ids() =~= Seq::<Seq<char>>::empty());
    }

    /// The ledger code.
    pub fn contract_code_bytes(&self) -> (r: &Vec<u8>)
        ensures
            r@ == self.contract_code(),
    {
        &self.contract_code
    }

    /// What a new bank costs with the current ledger code.
    pub fn get_bank_storage_cost(&self, storage_byte_cost: u128) -> (r: u128)
        requires
            storage_cost_of(self.contract_code().len(), storage_byte_cost as nat) <= u128::MAX,
        ensures
            r == storage_cost_of(self.contract_code().len(), storage_byte_cost as nat),
    {
        let bytes = (self.contract_code.len() as u128) + (BANK_DEPOSIT_COVER_ADDITIONAL_BYTES as u128);
        assert(bytes * storage_byte_cost <= u128::MAX) by (nonlinear_arith)
            requires
                bytes * storage_byte_cost + BANK_DEPOSIT_TO_COVER_GAS <= u128::MAX,
        ;
        bytes * storage_byte_cost + BANK_DEPOSIT_TO_COVER_GAS
    }
    /// Checks a request for a new bank and plans its provisioning. The
    /// registry changes only once the new ledger reports success, in
    /// [`Contract::on_create_bank`].
    pub fn create_bank(
        &self,
        bank: String,
        factory_account: &String,
        attached_deposit: u128,
        storage_byte_cost: u128,
    ) -> (r: Result<BankCreation, ContractError>)
        requires
            storage_cost_of(self.contract_code().len(), storage_byte_cost as nat) <= u128::MAX,
        ensures
            ({
                let cost = storage_cost_of(self.contract_code().len(), storage_byte_cost as nat);
                let bank_id = bank_id_of(bank@);
                if attached_deposit < cost {
                    r == Err::<BankCreation, ContractError>(
                        ContractError::NotEnoughDeposit(cost as u128, attached_deposit),
                    )
                } else if self.bank_ids().contains(bank_id) {
                    r == Err::<BankCreation, ContractError>(ContractError::BankAlreadyExists)
                } else {
                    &&& r matches Ok(c)
                    &&& c.bank_id@ == bank_id
                    &&& c.account_id@ == account_of(bank_id, factory_account@)
                    &&& c.transfer == attached_deposit / 2
                    &&& c.init_args@ == init_args_of(factory_account@, bank@)
                    &&& c.callback_args@ == callback_args_of(bank@, bank_id)
                }
            }),
    {
        let storage_cost = self.get_bank_storage_cost(storage_byte_cost);
        if attached_deposit < storage_cost {
            return Err(ContractError::NotEnoughDeposit(storage_cost, attached_deposit));
        }
        let bank_id = get_bank_id(bank.as_str());
        if self.has_bank(&bank_id) {
            return Err(ContractError::BankAlreadyExists);
        }
        let account_id = sub_account(&bank_id, factory_account);
        let init_args = json_object(
            "{\"factory\":",
            &json_string(factory_account.as_str()),
            ",\"bank\":",
            &json_string(bank.as_str()),
        );
        let callback_args = json_object(
            "{\"bank\":",
            &json_string(bank.as_str()),
            ",\"bank_id\":",
            &json_string(bank_id.as_str()),
        );
        Ok(BankCreation {
            bank_id,
            account_id,
            transfer: attached_deposit / 2,
            init_args,
            callback_args,
        })
    }

    /// Registers a bank once its ledger was provisioned, and reports it; a
    /// failed provisioning leaves the registry as it was.
    pub fn on_create_bank(&mut self, bank: String, bank_id: String, created: bool) -> (r: Option<
        RtpEvent,
    >)
        requires
            old(self).wf(),
        ensures
            final(self).wf(),
            final(self).contract_code() == old(self).contract_code(),
            !created ==> r.is_none() && final(self).bank_ids() == old(self).bank_ids(),
            created ==> r == Some(RtpEvent::NewBank { bank, bank_id }),
            created ==> final(self).bank_ids() == if old(self).bank_ids().contains(bank_id@) {
                old(self).bank_ids()
            } else {
                old(self).bank_ids().push(bank_id@)
            },
    {
        if !created {
            return None;
        }
        if !self.has_bank(&bank_id) {
            let ghost before = self.bank_ids();
            self.bank_ids.push(bank_id.clone());
            assert(self.bank_ids() =~= before.push(bank_id@));
            assert(self.bank_ids().no_duplicates()) by {
                assert forall|i: int, j: int|
                    0 <= i < self.bank_ids().len() && 0 <= j < self.bank_ids().len() && i != j
                        implies self.bank_ids()[i] != self.bank_ids()[j] by {
                    if i == before.len() as int {
                        assert(!before.contains(bank_id@));
                        assert(before[j] == self.bank_ids()[j]);
                    } else if j == before.len() as int {
                        assert(before[i] == self.bank_ids()[i]);
                    }
                }
            }
        }
        Some(RtpEvent::NewBank { bank, bank_id })
    }

    /// The call that tears down a bank's ledger; the registry changes in
    /// [`Contract::on_remove_bank`].
    pub fn remove_bank(&self, bank_id: String, factory_account: &String) -> (r: BankCall)
        ensures
            r.account_id@ == account_of(bank_id@, factory_account@),
            r.method == BankMethod::DeleteAccount,
    {
        BankCall { account_id: sub_account(&bank_id, factory_account), method: BankMethod::DeleteAccount }
    }

    /// Forgets a bank once its ledger confirmed the teardown.
    pub fn on_remove_bank(&mut self, bank_id: String, deleted: bool)
        requires
            old(self).wf(),
        ensures
            final(self).wf(),
            final(self).contract_code() == old(self).contract_code(),
            deleted ==> !final(self).bank_ids().contains(bank_id@),
            (!deleted || !old(self).bank_ids().contains(bank_id@)) ==> final(self).bank_ids()
                == old(self).bank_ids(),
            deleted && old(self).bank_ids().contains(bank_id@) ==> exists|i: int|
                0 <= i < old(self).bank_ids().len() && old(self).bank_ids()[i] == bank_id@
                    && final(self).bank_ids() == old(self).bank_ids().remove(i),
    {
        if !deleted {
            return;
        }
        let mut i: usize = 0;
        while i < self.bank_ids.len()
            invariant
                deleted,
                *self == *old(self),
                self.wf(),
                i <= self.bank_ids@.len(),
                forall|j: int| 0 <= j < i ==> self.bank_ids@[j]@ != bank_id@,
            decreases self.bank_ids@.len() - i,
        {
            if self.bank_ids[i] == bank_id {
                let ghost before = self.bank_ids();
                assert(before[i as int] == bank_id@);
                assert(old(self).bank_ids().contains(bank_id@));
                self.bank_ids.remove(i);
                assert(self.bank_ids() =~= before.remove(i as int));
                assert(self.bank_ids().no_duplicates()) by {
                    assert forall|a: int, b: int|
                        0 <= a < self.bank_ids().len() && 0 <= b < self.bank_ids().len() && a != b
                            implies self.bank_ids()[a] != self.bank_ids()[b] by {
                        let a0 = if a < i { a } else { a + 1 };
                        let b0 = if b < i { b } else { b + 1 };
                        assert(self.bank_ids()[a] == before[a0]);
                        assert(self.bank_ids()[b] == before[b0]);
                    }
                }
                assert(!self.bank_ids().contains(bank_id@)) by {
                    if self.bank_ids().contains(bank_id@) {
                        let k = choose|k: int|
                            0 <= k < self.bank_ids().len() && self.bank_ids()[k] == bank_id@;
                        let k0 = if k < i { k } else { k + 1 };
                        assert(before[k0] == bank_id@);
                        assert(before[i as int] == bank_id@);
                    }
                }
                return;
            }
            i += 1;
        }
        assert(!self.bank_ids().contains(bank_id@)) by {
            if self.bank_ids().contains(bank_id@) {
                let j = choose|j: int|
                    0 <= j < self.bank_ids().len() && self.bank_ids()[j] == bank_id@;
                assert(self.bank_ids@[j]@ == bank_id@);
            }
        }
    }
    /// Routes a trade leg, unchanged, to the ledger of a registered bank.
    pub fn perform_trade(
        &self,
        bank_id: String,
        trade_details: TradeDetails,
        factory_account: &String,
    ) -> (r: Result<BankCall, ContractError>)
        ensures
            !self.bank_ids().contains(bank_id@) ==> r == Err::<BankCall, ContractError>(
                ContractError::BankNotYetExists,
            ),
            self.bank_ids().contains(bank_id@) ==> r == Ok::<BankCall, ContractError>(
                BankCall {
                    account_id: r->Ok_0.account_id,
                    method: BankMethod::PerformTrade { trade_details },
                },
            ) && r->Ok_0.account_id@ == account_of(bank_id@, factory_account@),
    {
        if !self.has_bank(&bank_id) {
            return Err(ContractError::BankNotYetExists);
        }
        Ok(
            BankCall {
                account_id: sub_account(&bank_id, factory_account),
                method: BankMethod::PerformTrade { trade_details },
            },
        )
    }

    /// The same matching status, sent to the ledgers of both banks of a trade;
    /// [`Contract::on_settle_trade`] resolves the joined outcome.
    pub fn settle_trade(
        &self,
        bank_a_id: String,
        bank_b_id: String,
        trade_id: String,
        matching_status: MatchingStatus,
        factory_account: &String,
    ) -> (r: Result<(BankCall, BankCall), ContractError>)
        ensures
            !(self.bank_ids().contains(bank_a_id@) && self.bank_ids().contains(bank_b_id@)) ==> r
                == Err::<(BankCall, BankCall), ContractError>(ContractError::BankNotYetExists),
            self.bank_ids().contains(bank_a_id@) && self.bank_ids().contains(bank_b_id@) ==> {
                &&& r matches Ok((a, b))
                &&& a.account_id@ == account_of(bank_a_id@, factory_account@)
                &&& b.account_id@ == account_of(bank_b_id@, factory_account@)
                &&& a.method == BankMethod::SetMatchingStatus { trade_id, matching_status }
                &&& b.method == BankMethod::SetMatchingStatus { trade_id, matching_status }
            },
    {
        if !self.has_bank(&bank_a_id) || !self.has_bank(&bank_b_id) {
            return Err(ContractError::BankNotYetExists);
        }
        let a = BankCall {
            account_id: sub_account(&bank_a_id, factory_account),
            method: BankMethod::SetMatchingStatus {
                trade_id: trade_id.clone(),
                matching_status: matching_status.clone(),
            },
        };
        let b = BankCall {
            account_id: sub_account(&bank_b_id, factory_account),
            method: BankMethod::SetMatchingStatus { trade_id, matching_status },
        };
        Ok((a, b))
    }

    /// Resolves a joined matching status change: when either ledger failed,
    /// both are set to `Error` and the event reports `Error`, so that the two
    /// ledgers never disagree; otherwise the event reports the status sent.
    pub fn on_settle_trade(
        &self,
        partnership_id: String,
        account_a_id: String,
        account_b_id: String,
        trade_id: String,
        matching_status: MatchingStatus,
        settled_a: bool,
        settled_b: bool,
    ) -> (r: JoinedOutcome)
        ensures
            r.event == (RtpEvent::SetMatchingStatus {
                partnership_id,
                trade_id,
                matching_status: if settled_a && settled_b {
                    matching_status
                } else {
                    MatchingStatus::Error
                },
            }),
            settled_a && settled_b ==> r.compensation@.len() == 0,
            !(settled_a && settled_b) ==> r.compensation@ == seq![
                (BankCall {
                    account_id: account_a_id,
                    method: BankMethod::SetMatchingStatus { trade_id, matching_status: MatchingStatus::Error },
                }),
                (BankCall {
                    account_id: account_b_id,
                    method: BankMethod::SetMatchingStatus { trade_id, matching_status: MatchingStatus::Error },
                }),
            ],
    {
        if settled_a && settled_b {
            JoinedOutcome {
                event: RtpEvent::SetMatchingStatus { partnership_id, trade_id, matching_status },
                compensation: Vec::new(),
            }
        } else {
            let compensation = vec![
                BankCall {
                    account_id: account_a_id,
                    method: BankMethod::SetMatchingStatus {
                        trade_id: trade_id.clone(),
                        matching_status: MatchingStatus::Error,
                    },
                },
                BankCall {
                    account_id: account_b_id,
                    method: BankMethod::SetMatchingStatus {
                        trade_id: trade_id.clone(),
                        matching_status: MatchingStatus::Error,
                    },
                },
            ];
            JoinedOutcome {
                event: RtpEvent::SetMatchingStatus {
                    partnership_id,
                    trade_id,
                    matching_status: MatchingStatus::Error,
                },
                compensation,
            }
        }
    }

    /// A matching status for the ledger of one registered bank only, for a
    /// leg whose counter leg never came.
    pub fn set_leg_matching_status(
        &self,
        bank_id: String,
        trade_id: String,
        matching_status: MatchingStatus,
        factory_account: &String,
    ) -> (r: Result<BankCall, ContractError>)
        ensures
            !self.bank_ids().contains(bank_id@) ==> r == Err::<BankCall, ContractError>(
                ContractError::BankNotYetExists,
            ),
            self.bank_ids().contains(bank_id@) ==> {
                &&& r matches Ok(c)
                &&& c.account_id@ == account_of(bank_id@, factory_account@)
                &&& c.method == BankMethod::SetMatchingStatus { trade_id, matching_status }
            },
    {
        if !self.has_bank(&bank_id) {
            return Err(ContractError::BankNotYetExists);
        }
        Ok(
            BankCall {
                account_id: sub_account(&bank_id, factory_account),
                method: BankMethod::SetMatchingStatus { trade_id, matching_status },
            },
        )
    }

    /// The same payment status, sent to the ledgers of both banks of a trade;
    /// [`Contract::on_set_payment_status`] resolves the joined outcome.
    pub fn set_payment_status(
        &self,
        bank_a_id: String,
        bank_b_id: String,
        trade_id: String,
        payment_status: PaymentStatus,
        factory_account: &String,
    ) -> (r: Result<(BankCall, BankCall), ContractError>)
        ensures
            !(self.bank_ids().contains(bank_a_id@) && self.bank_ids().contains(bank_b_id@)) ==> r
                == Err::<(BankCall, BankCall), ContractError>(ContractError::BankNotYetExists),
            self.bank_ids().contains(bank_a_id@) && self.bank_ids().contains(bank_b_id@) ==> {
                &&& r matches Ok((a, b))
                &&& a.account_id@ == account_of(bank_a_id@, factory_account@)
                &&& b.account_id@ == account_of(bank_b_id@, factory_account@)
                &&& a.method == BankMethod::SetPaymentStatus { trade_id, payment_status }
                &&& b.method == BankMethod::SetPaymentStatus { trade_id, payment_status }
            },
    {
        if !self.has_bank(&bank_a_id) || !self.has_bank(&bank_b_id) {
            return Err(ContractError::BankNotYetExists);
        }
        let a = BankCall {
            account_id: sub_account(&bank_a_id, factory_account),
            method: BankMethod::SetPaymentStatus {
                trade_id: trade_id.clone(),
                payment_status: payment_status.clone(),
            },
        };
        let b = BankCall {
            account_id: sub_account(&bank_b_id, factory_account),
            method: BankMethod::SetPaymentStatus { trade_id, payment_status },
        };
        Ok((a, b))
    }

    /// Resolves a joined payment status change as
    /// [`Contract::on_settle_trade`] resolves a matching status change.
    pub fn on_set_payment_status(
        &self,
        partnership_id: String,
        account_a_id: String,
        account_b_id: String,
        trade_id: String,
        payment_status: PaymentStatus,
        settled_a: bool,
        settled_b: bool,
    ) -> (r: JoinedOutcome)
        ensures
            r.event == (RtpEvent::SetPaymentStatus {
                partnership_id,
                trade_id,
                payment_status: if settled_a && settled_b {
                    payment_status
                } else {
                    PaymentStatus::Error
                },
            }),
            settled_a && settled_b ==> r.compensation@.len() == 0,
            !(settled_a && settled_b) ==> r.compensation@ == seq![
                (BankCall {
                    account_id: account_a_id,
                    method: BankMethod::SetPaymentStatus { trade_id, payment_status: PaymentStatus::Error },
                }),
                (BankCall {
                    account_id: account_b_id,
                    method: BankMethod::SetPaymentStatus { trade_id, payment_status: PaymentStatus::Error },
                }),
            ],
    {
        if settled_a && settled_b {
            JoinedOutcome {
                event: RtpEvent::SetPaymentStatus { partnership_id, trade_id, payment_status },
                compensation: Vec::new(),
            }
        } else {
            let compensation = vec![
                BankCall {
                    account_id: account_a_id,
                    method: BankMethod::SetPaymentStatus {
                        trade_id: trade_id.clone(),
                        payment_status: PaymentStatus::Error,
                    },
                },
                BankCall {
                    account_id: account_b_id,
                    method: BankMethod::SetPaymentStatus {
                        trade_id: trade_id.clone(),
                        payment_status: PaymentStatus::Error,
                    },
                },
            ];
            JoinedOutcome {
                event: RtpEvent::SetPaymentStatus {
                    partnership_id,
                    trade_id,
                    payment_status: PaymentStatus::Error,
                },
                compensation,
            }
        }
    }

    /// The credit confirmation for the creditor's ledger and the debit
    /// confirmation for the debitor's ledger of a trade.
    pub fn confirm_payment(
        &self,
        creditor_id: String,
        debitor_id: String,
        trade_id: String,
        factory_account: &String,
    ) -> (r: Result<(BankCall, BankCall), ContractError>)
        ensures
            !(self.bank_ids().contains(creditor_id@) && self.bank_ids().contains(debitor_id@))
                ==> r == Err::<(BankCall, BankCall), ContractError>(
                ContractError::BankNotYetExists,
            ),
            self.bank_ids().contains(creditor_id@) && self.bank_ids().contains(debitor_id@) ==> {
                &&& r matches Ok((credit, debit))
                &&& credit.account_id@ == account_of(creditor_id@, factory_account@)
                &&& debit.account_id@ == account_of(debitor_id@, factory_account@)
                &&& credit.method == BankMethod::ConfirmPayment {
                    trade_id,
                    confirmation: PaymentConfirmation::Credit,
                }
                &&& debit.method == BankMethod::ConfirmPayment {
                    trade_id,
                    confirmation: PaymentConfirmation::Debit,
                }
            },
    {
        if !self.has_bank(&creditor_id) || !self.has_bank(&debitor_id) {
            return Err(ContractError::BankNotYetExists);
        }
        let credit = BankCall {
            account_id: sub_account(&creditor_id, factory_account),
            method: BankMethod::ConfirmPayment {
                trade_id: trade_id.clone(),
                confirmation: PaymentConfirmation::Credit,
            },
        };
        let debit = BankCall {
            account_id: sub_account(&debitor_id, factory_account),
            method: BankMethod::ConfirmPayment {
                trade_id,
                confirmation: PaymentConfirmation::Debit,
            },
        };
        Ok((credit, debit))
    }

    /// Whether both payment confirmations of a joined call were recorded.
    pub fn on_confirm_payment(&self, credited: bool, debited: bool) -> (r: bool)
        ensures
            r == (credited && debited),
    {
        credited && debited
    }

    /// A page of registered bank identifiers: `limit` of them (20 by
    /// default) after the first `skip` (none by default).
    pub fn get_bank_ids(&self, skip: Option<u32>, limit: Option<u32>) -> (r: Vec<String>)
        ensures
            ({
                let len = self.bank_ids().len() as int;
                let from = match skip {
                    Some(s) => s as int,
                    None => 0,
                };
                let count = match limit {
                    Some(l) => l as int,
                    None => 20,
                };
                let start = if from < len {
                    from
                } else {
                    len
                };
                let end = if start + count < len {
                    start + count
                } else {
                    len
                };
                string_views(r@) == self.bank_ids().subrange(start, end)
            }),
    {
        let len = self.bank_ids.len();
        let from: usize = match skip {
            Some(s) => s as usize,
            None => 0,
        };
        let count: usize = match limit {
            Some(l) => l as usize,
            None => 20,
        };
        let start = if from < len {
            from
        } else {
            len
        };
        let end = if count < len - start {
            start + count
        } else {
            len
        };
        let mut page: Vec<String> = Vec::new();
        let mut i = start;
        while i < end
            invariant
                start <= i <= end <= self.bank_ids@.len(),
                string_views(page@) == self.bank_ids().subrange(start as int, i as int),
            decreases end - i,
        {
            let ghost prev = page@;
            page.push(self.bank_ids[i].clone());
            assert(page@ == prev.push(self.bank_ids@[i as int]));
            assert(string_views(page@) =~= string_views(prev).push(self.bank_ids@[i as int]@));
            assert(self.bank_ids().subrange(start as int, i + 1) =~= self.bank_ids().subrange(
                start as int,
                i as int,
            ).push(self.bank_ids()[i as int]));
            assert(string_views(page@) =~= self.bank_ids().subrange(
                start as int,
                i + 1,
            ));
            i += 1;
        }
        page
    }

    /// The identifier of a bank, derived from its name.
    pub fn get_bank_id(&self, bank: String) -> (r: String)
        ensures
            r@ == bank_id_of(bank@),
    {
        get_bank_id(bank.as_str())
    }

    /// The identifier of the partnership of two banks; the same bank twice is
    /// no partnership.
    pub fn get_partnership_id(&self, bank_a: String, bank_b: String) -> (r: Result<
        String,
        ContractError,
    >)
        ensures
            bank_a@ == bank_b@ ==> r == Err::<String, ContractError>(
                ContractError::InvalidBankInput,
            ),
            bank_a@ != bank_b@ ==> (r matches Ok(id) && id@ == partnership_id_of(bank_a@, bank_b@)),
    {
        if bank_a == bank_b {
            return Err(ContractError::InvalidBankInput);
        }
        Ok(get_partnership_id(bank_a, bank_b))
    }
}

} // verus!
