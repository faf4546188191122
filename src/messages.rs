use vstd::prelude::*;
use crate::decimal::Decimal;

verus! {

/// A role that the auth verifier grants to a client.
#[derive(Clone, Copy, Debug, PartialEq, Eq, Structural)]
pub enum Role {
    Admin,
    User,
}

/// The identity of an authenticated client, for the lifetime of one session.
#[derive(Clone, Debug, PartialEq)]
pub struct ValidatedClient {
    pub id: String,
    pub name: String,
    pub roles: Vec<Role>,
}

/// The side of an order as the protocol carries it.
#[derive(Clone, Copy, Debug, PartialEq, Eq, Structural)]
pub enum Side {
    Unknown,
    Bid,
    Offer,
}

/// The side of an order as the store knows it.
#[derive(Clone, Copy, Debug, PartialEq, Eq, Structural)]
pub enum OrderSide {
    Bid,
    Offer,
}

#[derive(Clone, Debug, PartialEq)]
pub struct Order {
    pub id: i64,
    pub market_id: i64,
    pub owner_id: String,
    pub price: Decimal,
    pub size: Decimal,
    pub side: OrderSide,
}

#[derive(Clone, Debug, PartialEq)]
pub struct Trade {
    pub id: i64,
    pub market_id: i64,
    pub buyer_id: String,
    pub seller_id: String,
    pub price: Decimal,
    pub size: Decimal,
}

/// A portion of a resting order matched against a new one.
#[derive(Clone, Debug, PartialEq)]
pub struct OrderFill {
    pub id: i64,
    pub market_id: i64,
    pub owner_id: String,
    pub size_filled: Decimal,
    pub size_remaining: Decimal,
    pub price: Decimal,
}

#[derive(Clone, Debug, PartialEq)]
pub struct Market {
    pub id: i64,
    pub name: String,
    pub description: String,
    pub owner_id: String,
    pub min_settlement: Decimal,
    pub max_settlement: Decimal,
    pub settled_price: Option<Decimal>,
    pub orders: Vec<Order>,
    pub trades: Vec<Trade>,
}

#[derive(Clone, Debug, PartialEq)]
pub struct Payment {
    pub id: i64,
    pub payer_id: String,
    pub recipient_id: String,
    pub amount: Decimal,
    pub note: String,
}

#[derive(Clone, Debug, PartialEq)]
pub struct User {
    pub id: String,
    pub name: String,
    pub is_bot: bool,
}

/// A user's balance and open positions.
#[derive(Clone, Debug, PartialEq)]
pub struct Portfolio {
    pub total_balance: Decimal,
    pub available_balance: Decimal,
}

/// A command from a client, with decimals still as text.
#[derive(Clone, Debug, PartialEq)]
pub enum ClientMessage {
    Authenticate { jwt: String, id_jwt: String },
    CreateMarket { name: String, description: String, min_settlement: String, max_settlement: String },
    SettleMarket { market_id: i64, settle_price: String },
    CreateOrder { market_id: i64, price: String, size: String, side: Side },
    CancelOrder { id: i64 },
    MakePayment { recipient_id: String, amount: String, note: String },
    Out { market_id: i64 },
}

/// The command that a failed request belongs to.
#[derive(Clone, Copy, Debug, PartialEq, Eq, Structural)]
pub enum RequestKind {
    Unknown,
    Authenticate,
    CreateMarket,
    SettleMarket,
    CreateOrder,
    CancelOrder,
    MakePayment,
}

/// Why a request failed.
#[derive(Clone, Copy, Debug, PartialEq, Eq, Structural)]
pub enum Failure {
    ExpectedBinary,
    ExpectedClientMessage,
    ExpectedAuthenticate,
    JwtValidationFailed,
    AlreadyAuthenticated,
    ParseMinSettlement,
    ParseMaxSettlement,
    InvalidSettlementPrices,
    ParseSettlePrice,
    MarketAlreadySettled,
    NotMarketOwner,
    InvalidSettlementPrice,
    ParseSize,
    ParsePrice,
    UnknownSide,
    InvalidPrice,
    InsufficientFunds,
    MarketNotFound,
    UserNotFound,
    NotOrderOwner,
    OrderNotFound,
    ParseAmount,
    InvalidAmount,
    PayerNotFound,
    RecipientNotFound,
    CannotPaySelf,
}

/// A message from the server to a client.
#[derive(Clone, Debug, PartialEq)]
pub enum ServerMessage {
    Authenticated,
    Portfolio(Portfolio),
    Payments(Vec<Payment>),
    Users(Vec<User>),
    MarketData(Market),
    MarketCreated(Market),
    MarketSettled { id: i64, settle_price: String },
    OrderCreated {
        market_id: i64,
        user_id: String,
        order: Option<Order>,
        fills: Vec<OrderFill>,
        trades: Vec<Trade>,
    },
    OrderCancelled { id: i64, market_id: i64 },
    PaymentCreated(Payment),
    User(User),
    Out { market_id: i64 },
    RequestFailed { kind: RequestKind, failure: Failure },
}

impl RequestKind {
    pub open spec fn spec_name(self) -> Seq<char> {
        match self {
            RequestKind::Unknown => "Unknown"@,
            RequestKind::Authenticate => "Authenticate"@,
            RequestKind::CreateMarket => "CreateMarket"@,
            RequestKind::SettleMarket => "SettleMarket"@,
            RequestKind::CreateOrder => "CreateOrder"@,
            RequestKind::CancelOrder => "CancelOrder"@,
            RequestKind::MakePayment => "MakePayment"@,
        }
    }

    /// The name under which the protocol reports this command kind.
    pub fn name(&self) -> (r: &'static str)
        ensures
            r@ == self.spec_name(),
    {
        match self {
            RequestKind::Unknown => "Unknown",
            RequestKind::Authenticate => "Authenticate",
            RequestKind::CreateMarket => "CreateMarket",
            RequestKind::SettleMarket => "SettleMarket",
            RequestKind::CreateOrder => "CreateOrder",
            RequestKind::CancelOrder => "CancelOrder",
            RequestKind::MakePayment => "MakePayment",
        }
    }
}

impl Failure {
    pub open spec fn spec_text(self) -> Seq<char> {
        match self {
            Failure::ExpectedBinary => "Expected Binary message"@,
            Failure::ExpectedClientMessage => "Expected Client message"@,
            Failure::ExpectedAuthenticate => "Expected Authenticate message"@,
            Failure::JwtValidationFailed => "JWT validation failed"@,
            Failure::AlreadyAuthenticated => "Already authenticated, to re-authenticate open a new websocket connection"@,
            Failure::ParseMinSettlement => "Failed parsing min_settlement"@,
            Failure::ParseMaxSettlement => "Failed parsing max_settlement"@,
            Failure::InvalidSettlementPrices => "Invalid settlement prices"@,
            Failure::ParseSettlePrice => "Failed parsing settle_price"@,
            Failure::MarketAlreadySettled => "Market already settled"@,
            Failure::NotMarketOwner => "Not market owner"@,
            Failure::InvalidSettlementPrice => "Invalid settlement price"@,
            Failure::ParseSize => "Failed parsing size"@,
            Failure::ParsePrice => "Failed parsing price"@,
            Failure::UnknownSide => "Unknown side"@,
            Failure::InvalidPrice => "Invalid price"@,
            Failure::InsufficientFunds => "Insufficient funds"@,
            Failure::MarketNotFound => "Market not found"@,
            Failure::UserNotFound => "User not found"@,
            Failure::NotOrderOwner => "Not order owner"@,
            Failure::OrderNotFound => "Order not found"@,
            Failure::ParseAmount => "Failed parsing amount"@,
            Failure::InvalidAmount => "Invalid amount"@,
            Failure::PayerNotFound => "Payer not found"@,
            Failure::RecipientNotFound => "Recipient not found"@,
            Failure::CannotPaySelf => "Cannot pay yourself"@,
        }
    }

    /// The human-readable message that reports this failure.
    pub fn text(&self) -> (r: &'static str)
        ensures
            r@ == self.spec_text(),
    {
        match self {
            Failure::ExpectedBinary => "Expected Binary message",
            Failure::ExpectedClientMessage => "Expected Client message",
            Failure::ExpectedAuthenticate => "Expected Authenticate message",
            Failure::JwtValidationFailed => "JWT validation failed",
            Failure::AlreadyAuthenticated => "Already authenticated, to re-authenticate open a new websocket connection",
            Failure::ParseMinSettlement => "Failed parsing min_settlement",
            Failure::ParseMaxSettlement => "Failed parsing max_settlement",
            Failure::InvalidSettlementPrices => "Invalid settlement prices",
            Failure::ParseSettlePrice => "Failed parsing settle_price",
            Failure::MarketAlreadySettled => "Market already settled",
            Failure::NotMarketOwner => "Not market owner",
            Failure::InvalidSettlementPrice => "Invalid settlement price",
            Failure::ParseSize => "Failed parsing size",
            Failure::ParsePrice => "Failed parsing price",
            Failure::UnknownSide => "Unknown side",
            Failure::InvalidPrice => "Invalid price",
            Failure::InsufficientFunds => "Insufficient funds",
            Failure::MarketNotFound => "Market not found",
            Failure::UserNotFound => "User not found",
            Failure::NotOrderOwner => "Not order owner",
            Failure::OrderNotFound => "Order not found",
            Failure::ParseAmount => "Failed parsing amount",
            Failure::InvalidAmount => "Invalid amount",
            Failure::PayerNotFound => "Payer not found",
            Failure::RecipientNotFound => "Recipient not found",
            Failure::CannotPaySelf => "Cannot pay yourself",
        }
    }
}

impl Payment {
    /// A copy of this payment, equal to it.
    pub fn duplicate(&self) -> (r: Payment)
        ensures
            r == *self,
    {
        Payment {
            id: self.id,
            payer_id: self.payer_id.clone(),
            recipient_id: self.recipient_id.clone(),
            amount: self.amount,
            note: self.note.clone(),
        }
    }
}

} // verus!
