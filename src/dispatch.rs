use vstd::prelude::*;
use crate::decimal::{parse_decimal, parsed_decimal};
use crate::messages::{ClientMessage, Failure, OrderSide, RequestKind, ServerMessage, Side, ValidatedClient};
use crate::store::StoreRequest;

verus! {

/// What a command from an authenticated client leads to: an immediate
/// answer to the sender, or an operation on the store.
#[derive(Clone, Debug, PartialEq)]
pub enum Dispatch {
    Reply(ServerMessage),
    Execute(StoreRequest),
}

/// The `RequestFailed` message for a command kind and a failure.
pub open spec fn failed(kind: RequestKind, failure: Failure) -> ServerMessage {
    ServerMessage::RequestFailed { kind, failure }
}

pub fn request_failed(kind: RequestKind, failure: Failure) -> (r: ServerMessage)
    ensures
        r == failed(kind, failure),
{
    ServerMessage::RequestFailed { kind, failure }
}

/// The dispatch of `msg` from `client`: every decimal text is parsed, and
/// the side checked, before any store operation is asked for.
pub open spec fn dispatch_of(client_id: String, msg: ClientMessage) -> Dispatch {
    match msg {
        ClientMessage::Authenticate { .. } => Dispatch::Reply(
            failed(RequestKind::Authenticate, Failure::AlreadyAuthenticated),
        ),
        ClientMessage::CreateMarket { name, description, min_settlement, max_settlement } => {
            if parsed_decimal(min_settlement@) is None {
                Dispatch::Reply(failed(RequestKind::CreateMarket, Failure::ParseMinSettlement))
            } else if parsed_decimal(max_settlement@) is None {
                Dispatch::Reply(failed(RequestKind::CreateMarket, Failure::ParseMaxSettlement))
            } else {
                Dispatch::Execute(
                    StoreRequest::CreateMarket {
                        name,
                        description,
                        owner_id: client_id,
                        min_settlement: parsed_decimal(min_settlement@).unwrap(),
                        max_settlement: parsed_decimal(max_settlement@).unwrap(),
                    },
                )
            }
        },
        ClientMessage::SettleMarket { market_id, settle_price } => {
            if parsed_decimal(settle_price@) is None {
                Dispatch::Reply(failed(RequestKind::SettleMarket, Failure::ParseSettlePrice))
            } else {
                Dispatch::Execute(
                    StoreRequest::SettleMarket {
                        market_id,
                        settled_price: parsed_decimal(settle_price@).unwrap(),
                        settle_price_text: settle_price,
                        user_id: client_id,
                    },
                )
            }
        },
        ClientMessage::CreateOrder { market_id, price, size, side } => {
            if parsed_decimal(size@) is None {
                Dispatch::Reply(failed(RequestKind::CreateOrder, Failure::ParseSize))
            } else if parsed_decimal(price@) is None {
                Dispatch::Reply(failed(RequestKind::CreateOrder, Failure::ParsePrice))
            } else if side == Side::Unknown {
                Dispatch::Reply(failed(RequestKind::CreateOrder, Failure::UnknownSide))
            } else {
                Dispatch::Execute(
                    StoreRequest::CreateOrder {
                        market_id,
                        user_id: client_id,
                        price: parsed_decimal(price@).unwrap(),
                        size: parsed_decimal(size@).unwrap(),
                        side: if side == Side::Bid {
                            OrderSide::Bid
                        } else {
                            OrderSide::Offer
                        },
                    },
                )
            }
        },
        ClientMessage::CancelOrder { id } => Dispatch::Execute(
            StoreRequest::CancelOrder { id, user_id: client_id },
        ),
        ClientMessage::MakePayment { recipient_id, amount, note } => {
            if parsed_decimal(amount@) is None {
                Dispatch::Reply(failed(RequestKind::MakePayment, Failure::ParseAmount))
            } else {
                Dispatch::Execute(
                    StoreRequest::MakePayment {
                        payer_id: client_id,
                        recipient_id,
                        amount: parsed_decimal(amount@).unwrap(),
                        note,
                    },
                )
            }
        },
        ClientMessage::Out { market_id } => Dispatch::Execute(
            StoreRequest::Out { market_id, user_id: client_id },
        ),
    }
}

/// Validates a decoded command of an authenticated client and turns it into
/// a store operation, or into the failure that answers it.
pub fn prepare_command(client: &ValidatedClient, msg: ClientMessage) -> (r: Dispatch)
    ensures
        r == dispatch_of(client.id, msg),
{
    match msg {
        ClientMessage::Authenticate { .. } => Dispatch::Reply(
            request_failed(RequestKind::Authenticate, Failure::AlreadyAuthenticated),
        ),
        ClientMessage::CreateMarket { name, description, min_settlement, max_settlement } => {
            let min = match parse_decimal(min_settlement.as_str()) {
                Some(d) => d,
                None => {
                    return Dispatch::Reply(
                        request_failed(RequestKind::CreateMarket, Failure::ParseMinSettlement),
                    );
                },
            };
            let max = match parse_decimal(max_settlement.as_str()) {
                Some(d) => d,
                None => {
                    return Dispatch::Reply(
                        request_failed(RequestKind::CreateMarket, Failure::ParseMaxSettlement),
                    );
                },
            };
            Dispatch::Execute(
                StoreRequest::CreateMarket {
                    name,
                    description,
                    owner_id: client.id.clone(),
                    min_settlement: min,
                    max_settlement: max,
                },
            )
        },
        ClientMessage::SettleMarket { market_id, settle_price } => {
            let price = match parse_decimal(settle_price.as_str()) {
                Some(d) => d,
                None => {
                    return Dispatch::Reply(
                        request_failed(RequestKind::SettleMarket, Failure::ParseSettlePrice),
                    );
                },
            };
            Dispatch::Execute(
                StoreRequest::SettleMarket {
                    market_id,
                    settled_price: price,
                    settle_price_text: settle_price,
                    user_id: client.id.clone(),
                },
            )
        },
        ClientMessage::CreateOrder { market_id, price, size, side } => {
            let size = match parse_decimal(size.as_str()) {
                Some(d) => d,
                None => {
                    return Dispatch::Reply(
                        request_failed(RequestKind::CreateOrder, Failure::ParseSize),
                    );
                },
            };
            let price = match parse_decimal(price.as_str()) {
                Some(d) => d,
                None => {
                    return Dispatch::Reply(
                        request_failed(RequestKind::CreateOrder, Failure::ParsePrice),
                    );
                },
            };
            let side = match side {
                Side::Unknown => {
                    return Dispatch::Reply(
                        request_failed(RequestKind::CreateOrder, Failure::UnknownSide),
                    );
                },
                Side::Bid => OrderSide::Bid,
                Side::Offer => OrderSide::Offer,
            };
            Dispatch::Execute(
                StoreRequest::CreateOrder {
                    market_id,
                    user_id: client.id.clone(),
                    price,
                    size,
                    side,
                },
            )
        },
        ClientMessage::CancelOrder { id } => Dispatch::Execute(
            StoreRequest::CancelOrder { id, user_id: client.id.clone() },
        ),
        ClientMessage::MakePayment { recipient_id, amount, note } => {
            let amount = match parse_decimal(amount.as_str()) {
                Some(d) => d,
                None => {
                    return Dispatch::Reply(
                        request_failed(RequestKind::MakePayment, Failure::ParseAmount),
                    );
                },
            };
            Dispatch::Execute(
                StoreRequest::MakePayment {
                    payer_id: client.id.clone(),
                    recipient_id,
                    amount,
                    note,
                },
            )
        },
        ClientMessage::Out { market_id } => Dispatch::Execute(
            StoreRequest::Out { market_id, user_id: client.id.clone() },
        ),
    }
}

} // verus!
