use exchange_session::decimal::Decimal;
use exchange_session::dispatch::request_failed;
use exchange_session::hub::{route_broadcast, select_source, Broadcast, Forwarding, PortfolioWatch, Source};
use exchange_session::messages::{
    ClientMessage, Failure, Market, Order, OrderSide, Portfolio, RequestKind, Role, ServerMessage,
    Side, Trade, User, ValidatedClient,
};
use exchange_session::session::{
    initial_balance, portfolio_message, user_announcement, Fault, InboundFrame, Phase, Session, Step,
};
use exchange_session::snapshot::{assemble_snapshot, Cursor};
use exchange_session::store::{EnsureUserCreatedStatus, StoreRequest};

fn client(id: &str, roles: Vec<Role>) -> ValidatedClient {
    ValidatedClient { id: id.to_string(), name: id.to_uppercase(), roles }
}

fn authenticate() -> InboundFrame {
    InboundFrame::Binary(Some(ClientMessage::Authenticate {
        jwt: "access".to_string(),
        id_jwt: "identity".to_string(),
    }))
}

fn ready_session(id: &str) -> Session {
    let mut s = Session::new();
    assert!(matches!(s.receive(authenticate()), Step::Validate { .. }));
    assert_eq!(s.validated(Some(client(id, vec![]))), ServerMessage::Authenticated);
    s.bootstrapped();
    s
}

#[test]
fn handshake_retries_until_authenticated() {
    let mut s = Session::new();
    assert_eq!(s.phase, Phase::Connecting);
    let other = InboundFrame::Binary(Some(ClientMessage::Out { market_id: 1 }));
    assert_eq!(
        s.receive(other),
        Step::Reply(request_failed(RequestKind::Authenticate, Failure::ExpectedAuthenticate))
    );
    assert_eq!(s.phase, Phase::Authenticating);
    assert_eq!(
        s.receive(InboundFrame::Binary(None)),
        Step::Reply(request_failed(RequestKind::Authenticate, Failure::ExpectedAuthenticate))
    );
    assert_eq!(
        s.receive(authenticate()),
        Step::Validate { jwt: "access".to_string(), id_jwt: "identity".to_string() }
    );
    assert_eq!(
        s.validated(None),
        request_failed(RequestKind::Authenticate, Failure::JwtValidationFailed)
    );
    assert_eq!(s.phase, Phase::Authenticating);
    assert!(s.client.is_none());
    assert_eq!(s.validated(Some(client("a", vec![Role::Admin]))), ServerMessage::Authenticated);
    assert_eq!(s.phase, Phase::Bootstrapping);
    assert_eq!(s.receive(InboundFrame::NonBinary), Step::Wait);
    s.bootstrapped();
    assert_eq!(s.phase, Phase::Ready);
    assert_eq!(Failure::JwtValidationFailed.text(), "JWT validation failed");
}

#[test]
fn handshake_ends_on_non_binary_or_missing_frame() {
    let mut s = Session::new();
    assert_eq!(s.receive(InboundFrame::NonBinary), Step::Close);
    assert_eq!(s.phase, Phase::Closed);
    let mut t = Session::new();
    assert_eq!(t.receive(InboundFrame::Ended), Step::Close);
    assert_eq!(t.phase, Phase::Closed);
}

#[test]
fn non_binary_frame_keeps_session_ready() {
    let mut s = ready_session("a");
    assert_eq!(
        s.receive(InboundFrame::NonBinary),
        Step::Reply(request_failed(RequestKind::Unknown, Failure::ExpectedBinary))
    );
    assert_eq!(s.phase, Phase::Ready);
    assert_eq!(
        s.receive(InboundFrame::Binary(None)),
        Step::Reply(request_failed(RequestKind::Unknown, Failure::ExpectedClientMessage))
    );
    assert_eq!(s.phase, Phase::Ready);
    assert_eq!(RequestKind::Unknown.name(), "Unknown");
    assert_eq!(Failure::ExpectedBinary.text(), "Expected Binary message");
}

#[test]
fn ready_session_dispatches_commands() {
    let mut s = ready_session("a");
    let msg = ClientMessage::CreateOrder {
        market_id: 1,
        price: "60".to_string(),
        size: "10".to_string(),
        side: Side::Bid,
    };
    assert_eq!(
        s.receive(InboundFrame::Binary(Some(msg))),
        Step::Execute(StoreRequest::CreateOrder {
            market_id: 1,
            user_id: "a".to_string(),
            price: Decimal { mantissa: 60, scale: 0 },
            size: Decimal { mantissa: 10, scale: 0 },
            side: OrderSide::Bid,
        })
    );
    assert_eq!(s.receive(InboundFrame::Close), Step::Close);
    assert_eq!(s.phase, Phase::Closed);
    assert!(s.client.is_none());
    assert_eq!(s.receive(authenticate()), Step::Close);
}

#[test]
fn admins_start_with_a_grant() {
    let admin = client("a", vec![Role::User, Role::Admin]);
    assert_eq!(initial_balance(&admin), Decimal { mantissa: 1_000_000, scale: 0 });
    let plain = client("b", vec![Role::User]);
    assert_eq!(initial_balance(&plain), Decimal { mantissa: 0, scale: 0 });
    assert_eq!(initial_balance(&client("c", vec![])), Decimal { mantissa: 0, scale: 0 });
}

#[test]
fn new_users_are_announced() {
    let b = client("b", vec![]);
    assert_eq!(
        user_announcement(&b, EnsureUserCreatedStatus::CreatedOrUpdated),
        Some(ServerMessage::User(User { id: "b".to_string(), name: "B".to_string(), is_bot: false }))
    );
    assert_eq!(user_announcement(&b, EnsureUserCreatedStatus::Unchanged), None);
}

#[test]
fn missing_portfolio_is_fatal() {
    let p = Portfolio {
        total_balance: Decimal { mantissa: 5, scale: 0 },
        available_balance: Decimal { mantissa: 5, scale: 0 },
    };
    assert_eq!(portfolio_message(Some(p.clone())), Ok(ServerMessage::Portfolio(p)));
    assert_eq!(portfolio_message(None), Err(Fault::UserNotFound));
}

#[test]
fn broadcasts_forward_skip_or_stop() {
    assert_eq!(route_broadcast(Broadcast::Frame(vec![1, 2])), Forwarding::Send(vec![1, 2]));
    assert_eq!(route_broadcast(Broadcast::Lagged(3)), Forwarding::Skip);
    assert_eq!(route_broadcast(Broadcast::Closed), Forwarding::Stop(Fault::HubClosed));
}

#[test]
fn notifications_drain_before_commands() {
    assert_eq!(select_source(true, true, true, true), Some(Source::Public));
    assert_eq!(select_source(false, true, true, true), Some(Source::Payment));
    assert_eq!(select_source(false, false, true, true), Some(Source::Inbound));
    assert_eq!(select_source(false, false, false, true), Some(Source::Portfolio));
    assert_eq!(select_source(false, false, false, false), None);
}

#[test]
fn portfolio_signals_coalesce() {
    let mut w = PortfolioWatch::new();
    assert!(!w.poll());
    w.notify();
    w.notify();
    w.notify();
    assert!(w.poll());
    assert!(!w.poll());
}

fn market(id: i64) -> Market {
    Market {
        id,
        name: format!("m{}", id),
        description: String::new(),
        owner_id: "a".to_string(),
        min_settlement: Decimal { mantissa: 0, scale: 0 },
        max_settlement: Decimal { mantissa: 100, scale: 0 },
        settled_price: None,
        orders: vec![],
        trades: vec![],
    }
}

fn order(id: i64, market_id: i64) -> Order {
    Order {
        id,
        market_id,
        owner_id: "a".to_string(),
        price: Decimal { mantissa: 50, scale: 0 },
        size: Decimal { mantissa: 1, scale: 0 },
        side: OrderSide::Bid,
    }
}

fn trade(id: i64, market_id: i64) -> Trade {
    Trade {
        id,
        market_id,
        buyer_id: "a".to_string(),
        seller_id: "b".to_string(),
        price: Decimal { mantissa: 50, scale: 0 },
        size: Decimal { mantissa: 1, scale: 0 },
    }
}

#[test]
fn snapshot_gives_each_market_its_records() {
    let markets = vec![market(1), market(2), market(4)];
    let orders = vec![order(10, 1), order(11, 1), order(12, 4)];
    let trades = vec![trade(20, 2), trade(21, 4), trade(22, 4)];
    let r = assemble_snapshot(markets, orders, trades);
    assert_eq!(r.len(), 3);
    assert_eq!(r[0].name, "m1");
    assert_eq!(r[0].orders, vec![order(10, 1), order(11, 1)]);
    assert!(r[0].trades.is_empty());
    assert!(r[1].orders.is_empty());
    assert_eq!(r[1].trades, vec![trade(20, 2)]);
    assert_eq!(r[2].orders, vec![order(12, 4)]);
    assert_eq!(r[2].trades, vec![trade(21, 4), trade(22, 4)]);
}

#[test]
fn snapshot_of_nothing_is_empty() {
    assert!(assemble_snapshot(vec![], vec![], vec![]).is_empty());
    let r = assemble_snapshot(vec![market(7)], vec![], vec![]);
    assert_eq!(r.len(), 1);
    assert!(r[0].orders.is_empty() && r[0].trades.is_empty());
}

#[test]
fn cursor_stops_at_the_next_market() {
    let mut c = Cursor::new(vec![order(1, 1), order(2, 1), order(3, 2)]);
    assert!(c.take_chunk(0).is_empty());
    assert_eq!(c.take_chunk(1), vec![order(1, 1), order(2, 1)]);
    assert_eq!(c.take_chunk(2), vec![order(3, 2)]);
    assert!(c.take_chunk(2).is_empty());
    assert!(c.peeked.is_none());
}
