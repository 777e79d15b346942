//! The trade data model shared by the ledger, the factory and the matching
//! engine.
use vstd::prelude::*;
use vstd::string::*;

verus! {

/// A fixed-point decimal with six fractional digits: `1_150_000` is `1.15`.
pub type Fixed = i64;

/// The product type of an FX trade.
#[derive(Clone, Copy, Debug, PartialEq, Eq, Structural)]
pub enum Product {
    Spot,
    Ndf,
    Fwd,
    Swap,
}

/// The side of one leg of a trade.
#[derive(Clone, Copy, Debug, PartialEq, Eq, Structural)]
pub enum Side {
    Buy,
    Sell,
}

/// When a trade settles: in real time, or a number of days after the trade.
#[derive(Clone, Copy, Debug, PartialEq, Eq, Structural)]
pub enum Settlement {
    RealTime,
    T(u16),
}

/// Whether the two legs of a trade were found to agree.
#[derive(Debug, PartialEq, Eq)]
pub enum MatchingStatus {
    Pending,
    Confirmed(String),
    Rejected(String),
    Error,
}

impl Clone for MatchingStatus {
    fn clone(&self) -> (r: Self)
        ensures
            r == *self,
    {
        match self {
            MatchingStatus::Pending => MatchingStatus::Pending,
            MatchingStatus::Confirmed(m) => MatchingStatus::Confirmed(m.clone()),
            MatchingStatus::Rejected(m) => MatchingStatus::Rejected(m.clone()),
            MatchingStatus::Error => MatchingStatus::Error,
        }
    }
}

/// Whether the payments of a matched trade were completed.
#[derive(Debug, PartialEq, Eq)]
pub enum PaymentStatus {
    Pending,
    Confirmed(String),
    Rejected(String),
    Error,
}

impl Clone for PaymentStatus {
    fn clone(&self) -> (r: Self)
        ensures
            r == *self,
    {
        match self {
            PaymentStatus::Pending => PaymentStatus::Pending,
            PaymentStatus::Confirmed(m) => PaymentStatus::Confirmed(m.clone()),
            PaymentStatus::Rejected(m) => PaymentStatus::Rejected(m.clone()),
            PaymentStatus::Error => PaymentStatus::Error,
        }
    }
}

/// The payment confirmations a bank has recorded for one of its trades.
#[derive(Clone, Copy, Debug, PartialEq, Eq, Structural)]
pub struct Payments {
    pub credit: bool,
    pub debit: bool,
}

/// Which of its two payment obligations a bank confirms.
#[derive(Clone, Copy, Debug, PartialEq, Eq, Structural)]
pub enum PaymentConfirmation {
    Credit,
    Debit,
}

/// One bank's view of an FX trade leg. Prices, amounts, fees and discount
/// factors are [`Fixed`] decimals.
#[derive(Debug, PartialEq, Eq)]
pub struct TradeDetails {
    pub event_timestamp: u64,
    pub recv_time: u64,
    pub instrument_id: String,
    pub asset_class: String,
    pub product: Product,
    pub side: Side,
    pub price: Fixed,
    pub notional_amount: Fixed,
    pub event_type: String,
    pub venue: String,
    pub trading_platform: String,
    pub source_data: String,
    pub source_connection: String,
    pub trade_id: String,
    pub execution_date: String,
    pub trader_id: String,
    pub account: String,
    pub counterparty: String,
    pub counterparty_id: String,
    pub ccy: String,
    pub legal_entity_id: String,
    pub legal_entity: String,
    pub termination_date: String,
    pub buyer: String,
    pub seller_id: String,
    pub seller: String,
    pub effective_date: String,
    pub contract_typology: String,
    pub client_loco: String,
    pub mx_family: String,
    pub mx_group: String,
    pub mx_type: String,
    pub agreement: String,
    pub settlement_method: String,
    pub limits: bool,
    pub authorization: bool,
    pub aml_check: bool,
    pub sanctions: bool,
    pub settlement_pvp: Settlement,
    pub delivery_method: String,
    pub delivery_timestap: u64,
    pub delivery_date: String,
    pub time_zone: String,
    pub payment_calendar: String,
    pub rtp1_ccy: String,
    pub rtp1_fee: Fixed,
    pub rtp1_timestamp: u64,
    pub rtp2_ccy: String,
    pub rtp2_fee: Fixed,
    pub rtp2_timestamp: u64,
    pub execution_place: String,
    pub ccy1_value_date: String,
    pub ccy2_value_date: Option<String>,
    pub dealt_ccy: String,
    pub ccy1_discount_factor: Fixed,
    pub ccy1_payer_party_id: String,
    pub ccy1_payment_amt: Fixed,
    pub ccy1_payment_ccy: String,
    pub ccy1_payer_book_id: Option<String>,
    pub ccy1_rec_book_id: Option<String>,
    pub ccy1_payment_date_u: String,
    pub ccy2_discount_factor: Option<Fixed>,
    pub ccy2_payer_party_id: Option<String>,
    pub ccy2_payment_amt: Option<Fixed>,
    pub ccy2_payment_ccy: Option<String>,
    pub ccy2_payer_book_id: Option<String>,
    pub ccy2_rec_book_id: Option<String>,
    pub ccy2_payment_date_u: Option<String>,
    pub secondary_trade_id: String,
    pub source_trade_id: String,
}

impl Clone for TradeDetails {
    fn clone(&self) -> (r: Self)
        ensures
            r == *self,
    {
        TradeDetails {
            event_timestamp: self.event_timestamp,
            recv_time: self.recv_time,
            instrument_id: self.instrument_id.clone(),
            asset_class: self.asset_class.clone(),
            product: self.product,
            side: self.side,
            price: self.price,
            notional_amount: self.notional_amount,
            event_type: self.event_type.clone(),
            venue: self.venue.clone(),
            trading_platform: self.trading_platform.clone(),
            source_data: self.source_data.clone(),
            source_connection: self.source_connection.clone(),
            trade_id: self.trade_id.clone(),
            execution_date: self.execution_date.clone(),
            trader_id: self.trader_id.clone(),
            account: self.account.clone(),
            counterparty: self.counterparty.clone(),
            counterparty_id: self.counterparty_id.clone(),
            ccy: self.ccy.clone(),
            legal_entity_id: self.legal_entity_id.clone(),
            legal_entity: self.legal_entity.clone(),
            termination_date: self.termination_date.clone(),
            buyer: self.buyer.clone(),
            seller_id: self.seller_id.clone(),
            seller: self.seller.clone(),
            effective_date: self.effective_date.clone(),
            contract_typology: self.contract_typology.clone(),
            client_loco: self.client_loco.clone(),
            mx_family: self.mx_family.clone(),
            mx_group: self.mx_group.clone(),
            mx_type: self.mx_type.clone(),
            agreement: self.agreement.clone(),
            settlement_method: self.settlement_method.clone(),
            limits: self.limits,
            authorization: self.authorization,
            aml_check: self.aml_check,
            sanctions: self.sanctions,
            settlement_pvp: self.settlement_pvp,
            delivery_method: self.delivery_method.clone(),
            delivery_timestap: self.delivery_timestap,
            delivery_date: self.delivery_date.clone(),
            time_zone: self.time_zone.clone(),
            payment_calendar: self.payment_calendar.clone(),
            rtp1_ccy: self.rtp1_ccy.clone(),
            rtp1_fee: self.rtp1_fee,
            rtp1_timestamp: self.rtp1_timestamp,
            rtp2_ccy: self.rtp2_ccy.clone(),
            rtp2_fee: self.rtp2_fee,
            rtp2_timestamp: self.rtp2_timestamp,
            execution_place: self.execution_place.clone(),
            ccy1_value_date: self.ccy1_value_date.clone(),
            ccy2_value_date: self.ccy2_value_date.clone(),
            dealt_ccy: self.dealt_ccy.clone(),
            ccy1_discount_factor: self.ccy1_discount_factor,
            ccy1_payer_party_id: self.ccy1_payer_party_id.clone(),
            ccy1_payment_amt: self.ccy1_payment_amt,
            ccy1_payment_ccy: self.ccy1_payment_ccy.clone(),
            ccy1_payer_book_id: self.ccy1_payer_book_id.clone(),
            ccy1_rec_book_id: self.ccy1_rec_book_id.clone(),
            ccy1_payment_date_u: self.ccy1_payment_date_u.clone(),
            ccy2_discount_factor: self.ccy2_discount_factor,
            ccy2_payer_party_id: self.ccy2_payer_party_id.clone(),
            ccy2_payment_amt: self.ccy2_payment_amt,
            ccy2_payment_ccy: self.ccy2_payment_ccy.clone(),
            ccy2_payer_book_id: self.ccy2_payer_book_id.clone(),
            ccy2_rec_book_id: self.ccy2_rec_book_id.clone(),
            ccy2_payment_date_u: self.ccy2_payment_date_u.clone(),
            secondary_trade_id: self.secondary_trade_id.clone(),
            source_trade_id: self.source_trade_id.clone(),
        }
    }
}

impl Default for TradeDetails {
    /// A spot EUR/USD purchase from `bank_a` against `bank_b`.
    fn default() -> (r: Self)
        ensures
            r.trade_id@ == "trade_id"@,
            r.instrument_id@ == "EUR/USD"@,
            r.product == Product::Spot,
            r.side == Side::Buy,
            r.price == 1_150_000,
            r.notional_amount == 1_000_000_000,
            r.counterparty@ == "bank_b"@,
            r.settlement_method@ == "Nostro"@,
            r.settlement_pvp == Settlement::RealTime,
            r.delivery_date@ == "Real Time"@,
            r.ccy2_value_date.is_none(),
            r.ccy2_payment_amt.is_none(),
    {
        TradeDetails {
            event_timestamp: 1704980135044,
            recv_time: 1704980135044,
            instrument_id: String::from_str("EUR/USD"),
            asset_class: String::from_str("Fx"),
            product: Product::Spot,
            side: Side::Buy,
            price: 1_150_000,
            notional_amount: 1_000_000_000,
            event_type: String::from_str("new"),
            venue: String::from_str("bank_a"),
            trading_platform: String::from_str("Murex"),
            source_data: String::from_str("Murex"),
            source_connection: String::from_str("file_name"),
            trade_id: String::from_str("trade_id"),
            execution_date: String::from_str("08.12.2023"),
            trader_id: String::from_str("trader_a"),
            account: String::from_str("12345"),
            counterparty: String::from_str("bank_b"),
            counterparty_id: String::from_str("203948"),
            ccy: String::from_str("EUR"),
            legal_entity_id: String::from_str("68119"),
            legal_entity: String::from_str("222233"),
            termination_date: String::from_str("22.12.2023"),
            buyer: String::from_str("SS_CLIENT_68119"),
            seller_id: String::from_str("10078"),
            seller: String::from_str("SS_CLIENT_10078"),
            effective_date: String::from_str("05.12.2023"),
            contract_typology: String::from_str("Spot"),
            client_loco: String::from_str("London"),
            mx_family: String::from_str("CURR"),
            mx_group: String::from_str("FXD"),
            mx_type: String::from_str("Spot"),
            agreement: String::from_str("ISDA"),
            settlement_method: String::from_str("Nostro"),
            limits: true,
            authorization: true,
            aml_check: true,
            sanctions: true,
            settlement_pvp: Settlement::RealTime,
            delivery_method: String::from_str("PVP"),
            delivery_timestap: 1704980135044,
            delivery_date: String::from_str("Real Time"),
            time_zone: String::from_str("UTC"),
            payment_calendar: String::from_str("NYLN"),
            rtp1_ccy: String::from_str("EUR"),
            rtp1_fee: 100_000,
            rtp1_timestamp: 1704980135044,
            rtp2_ccy: String::from_str("USD"),
            rtp2_fee: 100_000,
            rtp2_timestamp: 1704980135044,
            execution_place: String::from_str("London"),
            ccy1_value_date: String::from_str("11.12.2023"),
            ccy2_value_date: None,
            dealt_ccy: String::from_str("EUR"),
            ccy1_discount_factor: 150_000,
            ccy1_payer_party_id: String::from_str("10078"),
            ccy1_payment_amt: 1_000_000_000,
            ccy1_payment_ccy: String::from_str("EUR"),
            ccy1_payer_book_id: None,
            ccy1_rec_book_id: None,
            ccy1_payment_date_u: String::from_str("15.12.2023"),
            ccy2_discount_factor: None,
            ccy2_payer_party_id: None,
            ccy2_payment_amt: None,
            ccy2_payment_ccy: None,
            ccy2_payer_book_id: None,
            ccy2_rec_book_id: None,
            ccy2_payment_date_u: None,
            secondary_trade_id: String::from_str(""),
            source_trade_id: String::from_str(""),
        }
    }
}

impl TradeDetails {
    /// The default trade turned into a swap: its second currency leg is set.
    pub fn default_swap() -> (r: Self)
        ensures
            r.trade_id@ == "trade_id"@,
            r.product == Product::Spot,
            r.side == Side::Buy,
            r.price == 1_150_000,
            r.notional_amount == 1_000_000_000,
            r.ccy2_value_date matches Some(d) && d@ == "12.12.2023"@,
            r.ccy2_payment_amt == Some(1_150_000_000i64),
    {
        let mut r = TradeDetails::default();
        r.ccy2_value_date = Some(String::from_str("12.12.2023"));
        r.ccy2_discount_factor = Some(150_000);
        r.ccy2_payer_party_id = Some(String::from_str("73355"));
        r.ccy2_payment_amt = Some(1_150_000_000);
        r.ccy2_payment_ccy = Some(String::from_str("USD"));
        r
    }
}

/// The record a bank ledger keeps of one of its trades.
#[derive(Debug, PartialEq, Eq)]
pub struct Trade {
    pub bank: String,
    pub trade_details: TradeDetails,
    pub matching_status: MatchingStatus,
    pub payment_status: PaymentStatus,
    pub payments: Payments,
}

impl Clone for Trade {
    fn clone(&self) -> (r: Self)
        ensures
            r == *self,
    {
        Trade {
            bank: self.bank.clone(),
            trade_details: self.trade_details.clone(),
            matching_status: self.matching_status.clone(),
            payment_status: self.payment_status.clone(),
            payments: self.payments,
        }
    }
}

} // verus!
