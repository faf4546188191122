use vstd::prelude::*;
use crate::decimal::Decimal;
use crate::dispatch::{dispatch_of, failed, prepare_command, request_failed, Dispatch};
use crate::messages::{
    ClientMessage, Failure, Portfolio, RequestKind, Role, ServerMessage, User, ValidatedClient,
};
use crate::store::{EnsureUserCreatedStatus, StoreRequest};

verus! {

/// The balance granted to an administrator when the user row is first made.
pub const ADMIN_INITIAL_BALANCE: i128 = 1_000_000;

/// Where a session stands in its lifecycle.
#[derive(Clone, Copy, Debug, PartialEq, Eq, Structural)]
pub enum Phase {
    Connecting,
    Authenticating,
    Bootstrapping,
    Ready,
    Closed,
}

/// An inbound frame as the transport delivers it.
#[derive(Clone, Debug, PartialEq)]
pub enum InboundFrame {
    /// A binary frame, with the client message it decodes to, if any.
    Binary(Option<ClientMessage>),
    /// A text, ping or pong frame.
    NonBinary,
    /// A close frame.
    Close,
    /// No frame: the stream ended or failed.
    Ended,
}

/// What the session does next in answer to an inbound frame.
#[derive(Clone, Debug, PartialEq)]
pub enum Step {
    Reply(ServerMessage),
    Validate { jwt: String, id_jwt: String },
    Execute(StoreRequest),
    Wait,
    Close,
}

/// The step of an authenticated session for an inbound frame.
pub open spec fn ready_step(client_id: String, frame: InboundFrame) -> Step {
    match frame {
        InboundFrame::Binary(Some(msg)) => match dispatch_of(client_id, msg) {
            Dispatch::Reply(m) => Step::Reply(m),
            Dispatch::Execute(r) => Step::Execute(r),
        },
        InboundFrame::Binary(None) => Step::Reply(
            failed(RequestKind::Unknown, Failure::ExpectedClientMessage),
        ),
        InboundFrame::NonBinary => Step::Reply(failed(RequestKind::Unknown, Failure::ExpectedBinary)),
        InboundFrame::Close => Step::Close,
        InboundFrame::Ended => Step::Close,
    }
}

/// The step of a session that waits for its `Authenticate` command.
pub open spec fn auth_step(frame: InboundFrame) -> Step {
    match frame {
        InboundFrame::Binary(Some(ClientMessage::Authenticate { jwt, id_jwt })) => Step::Validate {
            jwt,
            id_jwt,
        },
        InboundFrame::Binary(_) => Step::Reply(
            failed(RequestKind::Authenticate, Failure::ExpectedAuthenticate),
        ),
        _ => Step::Close,
    }
}

/// The per-connection state machine: authenticate, bootstrap, then serve.
pub struct Session {
    pub phase: Phase,
    pub client: Option<ValidatedClient>,
}

impl Session {
    /// A client is known exactly while the session bootstraps or serves.
    pub open spec fn wf(&self) -> bool {
        (self.phase == Phase::Bootstrapping || self.phase == Phase::Ready) <==> self.client is Some
    }

    pub fn new() -> (r: Session)
        ensures
            r.wf(),
            r.phase == Phase::Connecting,
    {
        Session { phase: Phase::Connecting, client: None }
    }

    /// Handles one inbound frame.
    pub fn receive(&mut self, frame: InboundFrame) -> (r: Step)
        requires
            old(self).wf(),
        ensures
            final(self).wf(),
            match old(self).phase {
                Phase::Connecting | Phase::Authenticating => {
                    &&& r == auth_step(frame)
                    &&& final(self).phase == if r is Close {
                        Phase::Closed
                    } else {
                        Phase::Authenticating
                    }
                },
                Phase::Bootstrapping => r is Wait && *final(self) == *old(self),
                Phase::Ready => {
                    &&& r == ready_step(old(self).client.unwrap().id, frame)
                    &&& if r is Close {
                        final(self).phase == Phase::Closed
                    } else {
                        *final(self) == *old(self)
                    }
                },
                Phase::Closed => r is Close && final(self).phase == Phase::Closed,
            },
    {
        match self.phase {
            Phase::Connecting | Phase::Authenticating => {
                match frame {
                    InboundFrame::Binary(Some(ClientMessage::Authenticate { jwt, id_jwt })) => {
                        self.phase = Phase::Authenticating;
                        Step::Validate { jwt, id_jwt }
                    },
                    InboundFrame::Binary(_) => {
                        self.phase = Phase::Authenticating;
                        Step::Reply(request_failed(RequestKind::Authenticate, Failure::ExpectedAuthenticate))
                    },
                    _ => {
                        self.phase = Phase::Closed;
                        Step::Close
                    },
                }
            },
            Phase::Bootstrapping => Step::Wait,
            Phase::Ready => {
                let step = match frame {
                    InboundFrame::Binary(Some(msg)) => {
                        let client = self.client.as_ref().unwrap();
                        match prepare_command(client, msg) {
                            Dispatch::Reply(m) => Step::Reply(m),
                            Dispatch::Execute(r) => Step::Execute(r),
                        }
                    },
                    InboundFrame::Binary(None) => Step::Reply(
                        request_failed(RequestKind::Unknown, Failure::ExpectedClientMessage),
                    ),
                    InboundFrame::NonBinary => Step::Reply(
                        request_failed(RequestKind::Unknown, Failure::ExpectedBinary),
                    ),
                    InboundFrame::Close => Step::Close,
                    InboundFrame::Ended => Step::Close,
                };
                if let Step::Close = step {
                    self.close();
                }
                step
            },
            Phase::Closed => Step::Close,
        }
    }

    /// Takes the outcome of token validation for the pending `Authenticate`.
    pub fn validated(&mut self, result: Option<ValidatedClient>) -> (r: ServerMessage)
        requires
            old(self).wf(),
            old(self).phase == Phase::Authenticating,
        ensures
            final(self).wf(),
            match result {
                Some(c) => {
                    &&& r is Authenticated
                    &&& final(self).phase == Phase::Bootstrapping
                    &&& final(self).client == Some(c)
                },
                None => {
                    &&& r == failed(RequestKind::Authenticate, Failure::JwtValidationFailed)
                    &&& *final(self) == *old(self)
                },
            },
    {
        match result {
            Some(c) => {
                self.phase = Phase::Bootstrapping;
                self.client = Some(c);
                ServerMessage::Authenticated
            },
            None => request_failed(RequestKind::Authenticate, Failure::JwtValidationFailed),
        }
    }

    /// Marks the initial snapshot as flushed.
    pub fn bootstrapped(&mut self)
        requires
            old(self).wf(),
            old(self).phase == Phase::Bootstrapping,
        ensures
            final(self).wf(),
            final(self).phase == Phase::Ready,
            final(self).client == old(self).client,
    {
        self.phase = Phase::Ready;
    }

    /// Ends the session.
    pub fn close(&mut self)
        ensures
            final(self).wf(),
            final(self).phase == Phase::Closed,
    {
        self.phase = Phase::Closed;
        self.client = None;
    }
}

/// Whether the roles include `Admin`.
pub open spec fn is_admin(roles: Seq<Role>) -> bool {
    exists|i: int| 0 <= i < roles.len() && roles[i] == Role::Admin
}

/// The balance that a user row gets when first made: a fixed grant for
/// administrators, zero for everybody else.
pub fn initial_balance(client: &ValidatedClient) -> (r: Decimal)
    ensures
        r.scale == 0,
        r.mantissa == if is_admin(client.roles@) {
            ADMIN_INITIAL_BALANCE
        } else {
            0
        },
{
    let mut i: usize = 0;
    while i < client.roles.len()
        invariant
            i <= client.roles.len(),
            forall|j: int| 0 <= j < i ==> client.roles@[j] != Role::Admin,
        decreases client.roles.len() - i,
    {
        if client.roles[i] == Role::Admin {
            return Decimal::from_integer(ADMIN_INITIAL_BALANCE);
        }
        i = i + 1;
    }
    Decimal::from_integer(0)
}

/// The public announcement of a user row that the first connect made, if any.
pub fn user_announcement(client: &ValidatedClient, status: EnsureUserCreatedStatus) -> (r: Option<ServerMessage>)
    ensures
        r == match status {
            EnsureUserCreatedStatus::CreatedOrUpdated => Some(
                ServerMessage::User(User { id: client.id, name: client.name, is_bot: false }),
            ),
            EnsureUserCreatedStatus::Unchanged => None,
        },
{
    match status {
        EnsureUserCreatedStatus::CreatedOrUpdated => Some(
            ServerMessage::User(User { id: client.id.clone(), name: client.name.clone(), is_bot: false }),
        ),
        EnsureUserCreatedStatus::Unchanged => None,
    }
}

/// A fault that ends a session.
#[derive(Clone, Copy, Debug, PartialEq, Eq, Structural)]
pub enum Fault {
    /// The authenticated user has no row in the store.
    UserNotFound,
    /// A broadcast the session listens to was closed.
    HubClosed,
}

/// The portfolio message for the session's user; its absence is fatal.
pub fn portfolio_message(portfolio: Option<Portfolio>) -> (r: Result<ServerMessage, Fault>)
    ensures
        r == match portfolio {
            Some(p) => Ok(ServerMessage::Portfolio(p)),
            None => Err(Fault::UserNotFound),
        },
{
    match portfolio {
        Some(p) => Ok(ServerMessage::Portfolio(p)),
        None => Err(Fault::UserNotFound),
    }
}

} // verus!
