use vstd::prelude::*;
use crate::decimal::Decimal;
use crate::messages::{Market, Order, OrderFill, OrderSide, Payment, Trade};

verus! {

/// An operation on the store of record, with its inputs validated.
#[derive(Clone, Debug, PartialEq)]
pub enum StoreRequest {
    CreateMarket {
        name: String,
        description: String,
        owner_id: String,
        min_settlement: Decimal,
        max_settlement: Decimal,
    },
    SettleMarket { market_id: i64, settled_price: Decimal, settle_price_text: String, user_id: String },
    CreateOrder { market_id: i64, user_id: String, price: Decimal, size: Decimal, side: OrderSide },
    CancelOrder { id: i64, user_id: String },
    MakePayment { payer_id: String, recipient_id: String, amount: Decimal, note: String },
    Out { market_id: i64, user_id: String },
}

#[derive(Clone, Debug, PartialEq)]
pub enum CreateMarketStatus {
    Success(Market),
    InvalidSettlementPrices,
}

#[derive(Clone, Debug, PartialEq)]
pub enum SettleMarketStatus {
    Success { affected_users: Vec<String> },
    AlreadySettled,
    NotOwner,
    InvalidSettlementPrice,
}

#[derive(Clone, Debug, PartialEq)]
pub enum CreateOrderStatus {
    Success { order: Option<Order>, fills: Vec<OrderFill>, trades: Vec<Trade> },
    MarketSettled,
    InvalidPrice,
    InsufficientFunds,
    MarketNotFound,
    UserNotFound,
}

#[derive(Clone, Debug, PartialEq)]
pub enum CancelOrderStatus {
    Success { market_id: i64 },
    NotOwner,
    NotFound,
}

#[derive(Clone, Debug, PartialEq)]
pub enum MakePaymentStatus {
    Success(Payment),
    InsufficientFunds,
    InvalidAmount,
    PayerNotFound,
    RecipientNotFound,
    SameUser,
}

#[derive(Clone, Copy, Debug, PartialEq, Eq, Structural)]
pub enum EnsureUserCreatedStatus {
    CreatedOrUpdated,
    Unchanged,
}

/// The store's answer to a `StoreRequest`.
#[derive(Clone, Debug, PartialEq)]
pub enum StoreOutcome {
    CreateMarket(CreateMarketStatus),
    SettleMarket(SettleMarketStatus),
    CreateOrder(CreateOrderStatus),
    CancelOrder(CancelOrderStatus),
    MakePayment(MakePaymentStatus),
    /// The ids of the orders that were cancelled.
    Out(Vec<i64>),
}

/// Whether `outcome` is an answer of the kind that `request` asks for.
pub open spec fn answers(request: StoreRequest, outcome: StoreOutcome) -> bool {
    match request {
        StoreRequest::CreateMarket { .. } => outcome is CreateMarket,
        StoreRequest::SettleMarket { .. } => outcome is SettleMarket,
        StoreRequest::CreateOrder { .. } => outcome is CreateOrder,
        StoreRequest::CancelOrder { .. } => outcome is CancelOrder,
        StoreRequest::MakePayment { .. } => outcome is MakePayment,
        StoreRequest::Out { .. } => outcome is Out,
    }
}

/// Tells whether `outcome` answers `request`.
pub fn is_answer(request: &StoreRequest, outcome: &StoreOutcome) -> (r: bool)
    ensures
        r == answers(*request, *outcome),
{
    match request {
        StoreRequest::CreateMarket { .. } => matches!(outcome, StoreOutcome::CreateMarket(_)),
        StoreRequest::SettleMarket { .. } => matches!(outcome, StoreOutcome::SettleMarket(_)),
        StoreRequest::CreateOrder { .. } => matches!(outcome, StoreOutcome::CreateOrder(_)),
        StoreRequest::CancelOrder { .. } => matches!(outcome, StoreOutcome::CancelOrder(_)),
        StoreRequest::MakePayment { .. } => matches!(outcome, StoreOutcome::MakePayment(_)),
        StoreRequest::Out { .. } => matches!(outcome, StoreOutcome::Out(_)),
    }
}

} // verus!
