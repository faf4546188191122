use vstd::prelude::*;
use crate::dispatch::{failed, request_failed};
use crate::messages::{Failure, OrderFill, RequestKind, ServerMessage};
use crate::store::{
    answers, CancelOrderStatus, CreateMarketStatus, CreateOrderStatus, MakePaymentStatus,
    SettleMarketStatus, StoreOutcome, StoreRequest,
};

verus! {

/// An effect of a command, performed by the session in the order given.
#[derive(Clone, Debug, PartialEq)]
pub enum Action {
    /// Send to the client that issued the command only.
    Reply(ServerMessage),
    /// Broadcast to every session.
    Publish(ServerMessage),
    /// Send on the payment stream of one user.
    DeliverPayment { user_id: String, message: ServerMessage },
    /// Signal that one user's portfolio changed.
    NotifyPortfolio { user_id: String },
}

pub open spec fn notify_each(users: Seq<String>) -> Seq<Action> {
    Seq::new(users.len(), |i: int| Action::NotifyPortfolio { user_id: users[i] })
}

pub open spec fn notify_fill_owners(fills: Seq<OrderFill>) -> Seq<Action> {
    Seq::new(fills.len(), |i: int| Action::NotifyPortfolio { user_id: fills[i].owner_id })
}

/// For each cancelled order, in turn: the owner's portfolio signal, then the
/// public `OrderCancelled`.
pub open spec fn cancellations(ids: Seq<i64>, market_id: i64, user_id: String) -> Seq<Action>
    decreases ids.len(),
{
    if ids.len() == 0 {
        seq![]
    } else {
        cancellations(ids.drop_last(), market_id, user_id) + seq![
            Action::NotifyPortfolio { user_id },
            Action::Publish(ServerMessage::OrderCancelled { id: ids.last(), market_id }),
        ]
    }
}

/// The effects of a store operation's answer. Public broadcasts come after
/// the portfolio signals of the same command.
pub open spec fn actions_of(request: StoreRequest, outcome: StoreOutcome) -> Seq<Action> {
    match (request, outcome) {
        (StoreRequest::CreateMarket { .. }, StoreOutcome::CreateMarket(status)) => match status {
            CreateMarketStatus::Success(market) => seq![
                Action::Publish(ServerMessage::MarketCreated(market)),
            ],
            CreateMarketStatus::InvalidSettlementPrices => seq![
                Action::Reply(failed(RequestKind::CreateMarket, Failure::InvalidSettlementPrices)),
            ],
        },
        (
            StoreRequest::SettleMarket { market_id, settle_price_text, .. },
            StoreOutcome::SettleMarket(status),
        ) => match status {
            SettleMarketStatus::Success { affected_users } => notify_each(affected_users@) + seq![
                Action::Publish(
                    ServerMessage::MarketSettled { id: market_id, settle_price: settle_price_text },
                ),
            ],
            SettleMarketStatus::AlreadySettled => seq![
                Action::Reply(failed(RequestKind::SettleMarket, Failure::MarketAlreadySettled)),
            ],
            SettleMarketStatus::NotOwner => seq![
                Action::Reply(failed(RequestKind::SettleMarket, Failure::NotMarketOwner)),
            ],
            SettleMarketStatus::InvalidSettlementPrice => seq![
                Action::Reply(failed(RequestKind::SettleMarket, Failure::InvalidSettlementPrice)),
            ],
        },
        (StoreRequest::CreateOrder { market_id, user_id, .. }, StoreOutcome::CreateOrder(status)) => {
            match status {
                CreateOrderStatus::Success { order, fills, trades } => notify_fill_owners(fills@)
                    + seq![
                    Action::NotifyPortfolio { user_id },
                    Action::Publish(
                        ServerMessage::OrderCreated { market_id, user_id, order, fills, trades },
                    ),
                ],
                CreateOrderStatus::MarketSettled => seq![
                    Action::Reply(failed(RequestKind::CreateOrder, Failure::MarketAlreadySettled)),
                ],
                CreateOrderStatus::InvalidPrice => seq![
                    Action::Reply(failed(RequestKind::CreateOrder, Failure::InvalidPrice)),
                ],
                CreateOrderStatus::InsufficientFunds => seq![
                    Action::Reply(failed(RequestKind::CreateOrder, Failure::InsufficientFunds)),
                ],
                CreateOrderStatus::MarketNotFound => seq![
                    Action::Reply(failed(RequestKind::CreateOrder, Failure::MarketNotFound)),
                ],
                CreateOrderStatus::UserNotFound => seq![
                    Action::Reply(failed(RequestKind::CreateOrder, Failure::UserNotFound)),
                ],
            }
        },
        (StoreRequest::CancelOrder { id, user_id }, StoreOutcome::CancelOrder(status)) => match status {
            CancelOrderStatus::Success { market_id } => seq![
                Action::NotifyPortfolio { user_id },
                Action::Publish(ServerMessage::OrderCancelled { id, market_id }),
            ],
            CancelOrderStatus::NotOwner => seq![
                Action::Reply(failed(RequestKind::CancelOrder, Failure::NotOrderOwner)),
            ],
            CancelOrderStatus::NotFound => seq![
                Action::Reply(failed(RequestKind::CancelOrder, Failure::OrderNotFound)),
            ],
        },
        (
            StoreRequest::MakePayment { payer_id, recipient_id, .. },
            StoreOutcome::MakePayment(status),
        ) => match status {
            MakePaymentStatus::Success(payment) => seq![
                Action::DeliverPayment {
                    user_id: payer_id,
                    message: ServerMessage::PaymentCreated(payment),
                },
                Action::DeliverPayment {
                    user_id: recipient_id,
                    message: ServerMessage::PaymentCreated(payment),
                },
                Action::NotifyPortfolio { user_id: payer_id },
                Action::NotifyPortfolio { user_id: recipient_id },
            ],
            MakePaymentStatus::InsufficientFunds => seq![
                Action::Reply(failed(RequestKind::MakePayment, Failure::InsufficientFunds)),
            ],
            MakePaymentStatus::InvalidAmount => seq![
                Action::Reply(failed(RequestKind::MakePayment, Failure::InvalidAmount)),
            ],
            MakePaymentStatus::PayerNotFound => seq![
                Action::Reply(failed(RequestKind::MakePayment, Failure::PayerNotFound)),
            ],
            MakePaymentStatus::RecipientNotFound => seq![
                Action::Reply(failed(RequestKind::MakePayment, Failure::RecipientNotFound)),
            ],
            MakePaymentStatus::SameUser => seq![
                Action::Reply(failed(RequestKind::MakePayment, Failure::CannotPaySelf)),
            ],
        },
        (StoreRequest::Out { market_id, user_id }, StoreOutcome::Out(ids)) => cancellations(
            ids@,
            market_id,
            user_id,
        ) + seq![Action::Reply(ServerMessage::Out { market_id })],
        _ => seq![],
    }
}

fn push_notifications(actions: &mut Vec<Action>, users: &Vec<String>)
    ensures
        final(actions)@ == old(actions)@ + notify_each(users@),
{
    let mut i: usize = 0;
    while i < users.len()
        invariant
            i <= users.len(),
            actions@ == old(actions)@ + notify_each(users@.take(i as int)),
        decreases users.len() - i,
    {
        actions.push(Action::NotifyPortfolio { user_id: users[i].clone() });
        i = i + 1;
        assert(notify_each(users@.take(i as int)) =~= notify_each(users@.take(i - 1)) + seq![
            Action::NotifyPortfolio { user_id: users@[i - 1] },
        ]);
    }
    assert(users@.take(users.len() as int) =~= users@);
}

fn push_fill_owners(actions: &mut Vec<Action>, fills: &Vec<OrderFill>)
    ensures
        final(actions)@ == old(actions)@ + notify_fill_owners(fills@),
{
    let mut i: usize = 0;
    while i < fills.len()
        invariant
            i <= fills.len(),
            actions@ == old(actions)@ + notify_fill_owners(fills@.take(i as int)),
        decreases fills.len() - i,
    {
        actions.push(Action::NotifyPortfolio { user_id: fills[i].owner_id.clone() });
        i = i + 1;
        assert(notify_fill_owners(fills@.take(i as int)) =~= notify_fill_owners(
            fills@.take(i - 1),
        ) + seq![Action::NotifyPortfolio { user_id: fills@[i - 1].owner_id }]);
    }
    assert(fills@.take(fills.len() as int) =~= fills@);
}

fn push_cancellations(actions: &mut Vec<Action>, ids: &Vec<i64>, market_id: i64, user_id: &String)
    ensures
        final(actions)@ == old(actions)@ + cancellations(ids@, market_id, *user_id),
{
    let mut i: usize = 0;
    while i < ids.len()
        invariant
            i <= ids.len(),
            actions@ == old(actions)@ + cancellations(ids@.take(i as int), market_id, *user_id),
        decreases ids.len() - i,
    {
        let ghost before = actions@;
        actions.push(Action::NotifyPortfolio { user_id: user_id.clone() });
        actions.push(Action::Publish(ServerMessage::OrderCancelled { id: ids[i], market_id }));
        i = i + 1;
        assert(ids@.take(i as int).drop_last() =~= ids@.take(i - 1));
        assert(actions@ =~= old(actions)@ + cancellations(ids@.take(i as int), market_id, *user_id));
    }
    assert(ids@.take(ids.len() as int) =~= ids@);
}

/// Turns the store's answer to `request` into the session's effects.
pub fn complete_command(request: StoreRequest, outcome: StoreOutcome) -> (r: Vec<Action>)
    requires
        answers(request, outcome),
    ensures
        r@ == actions_of(request, outcome),
{
    let mut actions: Vec<Action> = Vec::new();
    match (request, outcome) {
        (StoreRequest::CreateMarket { .. }, StoreOutcome::CreateMarket(status)) => match status {
            CreateMarketStatus::Success(market) => {
                actions.push(Action::Publish(ServerMessage::MarketCreated(market)));
            },
            CreateMarketStatus::InvalidSettlementPrices => {
                actions.push(
                    Action::Reply(
                        request_failed(RequestKind::CreateMarket, Failure::InvalidSettlementPrices),
                    ),
                );
            },
        },
        (
            StoreRequest::SettleMarket { market_id, settle_price_text, .. },
            StoreOutcome::SettleMarket(status),
        ) => match status {
            SettleMarketStatus::Success { affected_users } => {
                push_notifications(&mut actions, &affected_users);
                actions.push(
                    Action::Publish(
                        ServerMessage::MarketSettled { id: market_id, settle_price: settle_price_text },
                    ),
                );
            },
            SettleMarketStatus::AlreadySettled => {
                actions.push(
                    Action::Reply(
                        request_failed(RequestKind::SettleMarket, Failure::MarketAlreadySettled),
                    ),
                );
            },
            SettleMarketStatus::NotOwner => {
                actions.push(
                    Action::Reply(request_failed(RequestKind::SettleMarket, Failure::NotMarketOwner)),
                );
            },
            SettleMarketStatus::InvalidSettlementPrice => {
                actions.push(
                    Action::Reply(
                        request_failed(RequestKind::SettleMarket, Failure::InvalidSettlementPrice),
                    ),
                );
            },
        },
        (StoreRequest::CreateOrder { market_id, user_id, .. }, StoreOutcome::CreateOrder(status)) => {
            let failure = match status {
                CreateOrderStatus::Success { order, fills, trades } => {
                    push_fill_owners(&mut actions, &fills);
                    actions.push(Action::NotifyPortfolio { user_id: user_id.clone() });
                    actions.push(
                        Action::Publish(
                            ServerMessage::OrderCreated { market_id, user_id, order, fills, trades },
                        ),
                    );
                    return actions;
                },
                CreateOrderStatus::MarketSettled => Failure::MarketAlreadySettled,
                CreateOrderStatus::InvalidPrice => Failure::InvalidPrice,
                CreateOrderStatus::InsufficientFunds => Failure::InsufficientFunds,
                CreateOrderStatus::MarketNotFound => Failure::MarketNotFound,
                CreateOrderStatus::UserNotFound => Failure::UserNotFound,
            };
            actions.push(Action::Reply(request_failed(RequestKind::CreateOrder, failure)));
        },
        (StoreRequest::CancelOrder { id, user_id }, StoreOutcome::CancelOrder(status)) => match status {
            CancelOrderStatus::Success { market_id } => {
                actions.push(Action::NotifyPortfolio { user_id });
                actions.push(Action::Publish(ServerMessage::OrderCancelled { id, market_id }));
            },
            CancelOrderStatus::NotOwner => {
                actions.push(
                    Action::Reply(request_failed(RequestKind::CancelOrder, Failure::NotOrderOwner)),
                );
            },
            CancelOrderStatus::NotFound => {
                actions.push(
                    Action::Reply(request_failed(RequestKind::CancelOrder, Failure::OrderNotFound)),
                );
            },
        },
        (
            StoreRequest::MakePayment { payer_id, recipient_id, .. },
            StoreOutcome::MakePayment(status),
        ) => {
            let failure = match status {
                MakePaymentStatus::Success(payment) => {
                    let copy = payment.duplicate();
                    actions.push(
                        Action::DeliverPayment {
                            user_id: payer_id.clone(),
                            message: ServerMessage::PaymentCreated(copy),
                        },
                    );
                    actions.push(
                        Action::DeliverPayment {
                            user_id: recipient_id.clone(),
                            message: ServerMessage::PaymentCreated(payment),
                        },
                    );
                    actions.push(Action::NotifyPortfolio { user_id: payer_id });
                    actions.push(Action::NotifyPortfolio { user_id: recipient_id });
                    return actions;
                },
                MakePaymentStatus::InsufficientFunds => Failure::InsufficientFunds,
                MakePaymentStatus::InvalidAmount => Failure::InvalidAmount,
                MakePaymentStatus::PayerNotFound => Failure::PayerNotFound,
                MakePaymentStatus::RecipientNotFound => Failure::RecipientNotFound,
                MakePaymentStatus::SameUser => Failure::CannotPaySelf,
            };
            actions.push(Action::Reply(request_failed(RequestKind::MakePayment, failure)));
        },
        (StoreRequest::Out { market_id, user_id }, StoreOutcome::Out(ids)) => {
            push_cancellations(&mut actions, &ids, market_id, &user_id);
            actions.push(Action::Reply(ServerMessage::Out { market_id }));
        },
        _ => {},
    }
    assert(actions@ =~= actions_of(request, outcome));
    actions
}

/// The order id of an `OrderCancelled` broadcast, if `a` is one.
pub open spec fn cancelled_order(a: Action) -> Option<i64> {
    match a {
        Action::Publish(ServerMessage::OrderCancelled { id, .. }) => Some(id),
        _ => None,
    }
}

/// Whether the store reported success.
pub open spec fn succeeded(outcome: StoreOutcome) -> bool {
    match outcome {
        StoreOutcome::CreateMarket(s) => s is Success,
        StoreOutcome::SettleMarket(s) => s is Success,
        StoreOutcome::CreateOrder(s) => s is Success,
        StoreOutcome::CancelOrder(s) => s is Success,
        StoreOutcome::MakePayment(s) => s is Success,
        StoreOutcome::Out(_) => true,
    }
}

proof fn lemma_cancellations_listed(ids: Seq<i64>, market_id: i64, user_id: String, k: int, id: i64)
    requires
        0 <= k < cancellations(ids, market_id, user_id).len(),
        cancelled_order(cancellations(ids, market_id, user_id)[k]) == Some(id),
    ensures
        ids.contains(id),
    decreases ids.len(),
{
    if ids.len() > 0 {
        let prev = cancellations(ids.drop_last(), market_id, user_id);
        let all = cancellations(ids, market_id, user_id);
        if k < prev.len() {
            assert(all[k] == prev[k]);
            lemma_cancellations_listed(ids.drop_last(), market_id, user_id, k, id);
            let j = choose|j: int| 0 <= j < ids.drop_last().len() && ids.drop_last()[j] == id;
            assert(ids[j] == id);
        } else if k == prev.len() {
            assert(all[k] == Action::NotifyPortfolio { user_id });
        } else {
            assert(all[k] == Action::Publish(
                ServerMessage::OrderCancelled { id: ids.last(), market_id },
            ));
            assert(ids[ids.len() - 1] == id);
        }
    }
}

/// Every `OrderCancelled` that a command broadcasts names the order that a
/// successful `CancelOrder` asked for, or one of the orders that an `Out`
/// command cancelled; the store cancels only the canceller's own orders.
pub proof fn lemma_cancellations_attributed(request: StoreRequest, outcome: StoreOutcome, k: int, id: i64)
    requires
        answers(request, outcome),
        0 <= k < actions_of(request, outcome).len(),
        cancelled_order(actions_of(request, outcome)[k]) == Some(id),
    ensures
        match (request, outcome) {
            (StoreRequest::CancelOrder { id: asked, .. }, StoreOutcome::CancelOrder(status)) => {
                asked == id && status is Success
            },
            (StoreRequest::Out { .. }, StoreOutcome::Out(ids)) => ids@.contains(id),
            _ => false,
        },
{
    match (request, outcome) {
        (StoreRequest::Out { market_id, user_id }, StoreOutcome::Out(ids)) => {
            let c = cancellations(ids@, market_id, user_id);
            let all = actions_of(request, outcome);
            if k < c.len() {
                assert(all[k] == c[k]);
                lemma_cancellations_listed(ids@, market_id, user_id, k, id);
            } else {
                assert(all[k] == Action::Reply(ServerMessage::Out { market_id }));
            }
        },
        (StoreRequest::SettleMarket { market_id, settle_price_text, .. }, StoreOutcome::SettleMarket(status)) => {
            if let SettleMarketStatus::Success { affected_users } = status {
                let n = notify_each(affected_users@);
                if k < n.len() {
                    assert(actions_of(request, outcome)[k] == n[k]);
                }
            }
        },
        (StoreRequest::CreateOrder { .. }, StoreOutcome::CreateOrder(status)) => {
            if let CreateOrderStatus::Success { fills, .. } = status {
                let n = notify_fill_owners(fills@);
                if k < n.len() {
                    assert(actions_of(request, outcome)[k] == n[k]);
                }
            }
        },
        _ => {},
    }
}

/// A command that the store refuses has exactly one effect: a failure
/// reported to its sender alone, with no broadcast and no portfolio signal.
pub proof fn lemma_refusals_stay_private(request: StoreRequest, outcome: StoreOutcome)
    requires
        answers(request, outcome),
        !succeeded(outcome),
    ensures
        actions_of(request, outcome).len() == 1,
        actions_of(request, outcome)[0] is Reply,
        actions_of(request, outcome)[0]->Reply_0 is RequestFailed,
{
}

} // verus!
