//! The watcher: the events it decodes from the ledger's activity, and the
//! decisions it takes on that activity — which receipts concern the system,
//! what a log line carries, where to resume.
use crate::factory::{account_of, string_views, sub_account};
use crate::trade::{MatchingStatus, PaymentConfirmation, PaymentStatus, TradeDetails};
use vstd::prelude::*;
use vstd::string::*;

verus! {

/// A new bank was registered.
#[derive(Clone, Debug, PartialEq, Eq)]
pub struct NewBank {
    pub bank: String,
    pub bank_id: String,
}

/// A bank ledger stored a trade leg.
#[derive(Debug, PartialEq, Eq)]
pub struct SendTrade {
    pub partnership_id: String,
    pub bank_id: String,
    pub trade: TradeDetails,
}

/// The factory set the matching status of a trade on both ledgers.
#[derive(Debug, PartialEq, Eq)]
pub struct SetMatchingStatus {
    pub partnership_id: String,
    pub trade_id: String,
    pub matching_status: MatchingStatus,
}

/// A bank ledger recorded a payment confirmation.
#[derive(Debug, PartialEq, Eq)]
pub struct ConfirmPayment {
    pub partnership_id: String,
    pub bank_id: String,
    pub trade_id: String,
    pub confirmation: PaymentConfirmation,
}

/// The factory set the payment status of a trade on both ledgers.
#[derive(Debug, PartialEq, Eq)]
pub struct SetPaymentStatus {
    pub partnership_id: String,
    pub trade_id: String,
    pub payment_status: PaymentStatus,
}

/// The kind of a decoded event, with its data.
#[derive(Debug, PartialEq, Eq)]
pub enum RtpEventKind {
    NewBank(NewBank),
    SendTrade(SendTrade),
    SetMatchingStatus(SetMatchingStatus),
    ConfirmPayment(ConfirmPayment),
    SetPaymentStatus(SetPaymentStatus),
}

/// A decoded event of the `rtp` standard.
#[derive(Debug, PartialEq, Eq)]
pub struct RtpEvent {
    pub version: String,
    pub event_kind: RtpEventKind,
}

/// A decoded event, by standard.
#[derive(Debug, PartialEq, Eq)]
pub enum ContractEvent {
    Rtp(RtpEvent),
}

/// Whether a character is white space in the sense of Unicode's
/// `White_Space` property.
pub open spec fn is_white_space(c: char) -> bool {
    let u = c as u32;
    ||| 0x09 <= u <= 0x0d
    ||| u == 0x20
    ||| u == 0x85
    ||| u == 0xa0
    ||| u == 0x1680
    ||| 0x2000 <= u <= 0x200a
    ||| u == 0x2028
    ||| u == 0x2029
    ||| u == 0x202f
    ||| u == 0x205f
    ||| u == 0x3000
}

/// A text without its leading white space.
pub open spec fn trim_start_of(s: Seq<char>) -> Seq<char>
    decreases s.len(),
{
    if s.len() > 0 && is_white_space(s[0]) {
        trim_start_of(s.drop_first())
    } else {
        s
    }
}

/// A text without its trailing white space.
pub open spec fn trim_end_of(s: Seq<char>) -> Seq<char>
    decreases s.len(),
{
    if s.len() > 0 && is_white_space(s.last()) {
        trim_end_of(s.drop_last())
    } else {
        s
    }
}

/// A text without its leading and trailing white space.
pub open spec fn trim_of(s: Seq<char>) -> Seq<char> {
    trim_end_of(trim_start_of(s))
}

/// Relies on `str::trim`: it removes leading and trailing white space, as
/// Unicode's `White_Space` property defines it.
#[verifier::external_body]
fn trim(s: &str) -> (r: &str)
    ensures
        r@ == trim_of(s@),
{
    s.trim()
}

/// What marks a log line as an event.
pub open spec fn event_prefix() -> Seq<char> {
    "EVENT_JSON:"@
}

/// The event text a log line carries, if it carries one: what follows the
/// event marker, without surrounding white space.
pub open spec fn payload_of(log: Seq<char>) -> Option<Seq<char>> {
    let t = trim_of(log);
    let n = event_prefix().len();
    if t.len() >= n && t.subrange(0, n as int) == event_prefix() {
        Some(trim_of(t.subrange(n as int, t.len() as int)))
    } else {
        None
    }
}

/// The event text a log line carries, if it carries one.
pub fn event_payload(log: &str) -> (r: Option<String>)
    ensures
        match payload_of(log@) {
            Some(p) => r matches Some(s) && s@ == p,
            None => r.is_none(),
        },
{
    let prefix = "EVENT_JSON:";
    proof {
        reveal_strlit("EVENT_JSON:");
    }
    let t = trim(log);
    let len = t.unicode_len();
    let n = prefix.unicode_len();
    if len < n {
        return None;
    }
    let head = String::from_str(t.substring_char(0, n));
    if head != String::from_str(prefix) {
        return None;
    }
    let rest = t.substring_char(n, len);
    Some(String::from_str(trim(rest)))
}

/// Where to resume reading blocks: after the last block handled, or at the
/// chain's latest block when none was handled yet.
pub fn resume_height(last_block_height: u64, latest_block_height: u64) -> (r: u64)
    requires
        last_block_height < u64::MAX,
    ensures
        r == if last_block_height > 0 {
            (last_block_height + 1) as u64
        } else {
            latest_block_height
        },
{
    if last_block_height > 0 {
        last_block_height + 1
    } else {
        latest_block_height
    }
}

/// A block time in milliseconds, from nanoseconds.
pub fn timestamp_ms(timestamp_nanosec: u64) -> (r: u64)
    ensures
        r == timestamp_nanosec / 1_000_000,
{
    timestamp_nanosec / 1_000_000
}

/// The accounts whose activity concerns the system: the factory and the
/// ledger of every bank known so far.
pub struct Watcher {
    factory: String,
    accounts: Vec<String>,
}

impl Watcher {
    /// The factory's account.
    pub closed spec fn factory(&self) -> Seq<char> {
        self.factory@
    }

    /// The ledger accounts watched, in the order they became known.
    pub closed spec fn accounts(&self) -> Seq<Seq<char>> {
        string_views(self.accounts@)
    }

    /// Watches the factory and the ledgers of the given banks.
    pub fn new(factory: String, bank_ids: &Vec<String>) -> (r: Self)
        ensures
            r.factory() == factory@,
            r.accounts().len() == bank_ids@.len(),
            forall|i: int|
                0 <= i < bank_ids@.len() ==> r.accounts()[i] == account_of(
                    bank_ids@[i]@,
                    factory@,
                ),
    {
        let mut accounts: Vec<String> = Vec::new();
        let mut i: usize = 0;
        while i < bank_ids.len()
            invariant
                i <= bank_ids@.len(),
                accounts@.len() == i,
                forall|j: int|
                    0 <= j < i ==> accounts@[j]@ == account_of(bank_ids@[j]@, factory@),
            decreases bank_ids@.len() - i,
        {
            accounts.push(sub_account(&bank_ids[i], &factory));
            i += 1;
        }
        Watcher { factory, accounts }
    }

    /// Whether the outcome of a receipt or transaction for `receiver_id`
    /// concerns the system: it succeeded and was addressed to a watched
    /// account.
    pub fn accepts(&self, receiver_id: &String, succeeded: bool) -> (r: bool)
        ensures
            r == (succeeded && (receiver_id@ == self.factory() || self.accounts().contains(
                receiver_id@,
            ))),
    {
        if !succeeded {
            return false;
        }
        if *receiver_id == self.factory {
            return true;
        }
        let mut i: usize = 0;
        while i < self.accounts.len()
            invariant
                succeeded,
                i <= self.accounts@.len(),
                forall|j: int| 0 <= j < i ==> self.accounts@[j]@ != receiver_id@,
            decreases self.accounts@.len() - i,
        {
            if self.accounts[i] == *receiver_id {
                assert(self.accounts()[i as int] == receiver_id@);
                return true;
            }
            i += 1;
        }
        assert(!self.accounts().contains(receiver_id@)) by {
            if self.accounts().contains(receiver_id@) {
                let j = choose|j: int|
                    0 <= j < self.accounts().len() && self.accounts()[j] == receiver_id@;
                assert(self.accounts@[j]@ == receiver_id@);
            }
        }
        false
    }

    /// Follows a decoded event: a new bank's ledger is watched from now on.
    pub fn observe(&mut self, event: &RtpEvent)
        ensures
            final(self).factory() == old(self).factory(),
            final(self).accounts() == match event.event_kind {
                RtpEventKind::NewBank(data) => old(self).accounts().push(
                    account_of(data.bank_id@, old(self).factory()),
                ),
                _ => old(self).accounts(),
            },
    {
        if let RtpEventKind::NewBank(data) = &event.event_kind {
            let account = sub_account(&data.bank_id, &self.factory);
            self.accounts.push(account);
            assert(self.accounts() =~= old(self).accounts().push(
                account_of(data.bank_id@, old(self).factory()),
            ));
        }
    }
}

} // verus!
