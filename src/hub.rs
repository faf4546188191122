use vstd::prelude::*;
use crate::session::Fault;

verus! {

/// What a receive on a bounded broadcast yields.
#[derive(Clone, Debug, PartialEq)]
pub enum Broadcast {
    /// A pre-encoded frame.
    Frame(Vec<u8>),
    /// This receiver fell behind and missed that many messages.
    Lagged(u64),
    /// Every sender is gone.
    Closed,
}

/// What the session does with a broadcast receive.
#[derive(Clone, Debug, PartialEq)]
pub enum Forwarding {
    Send(Vec<u8>),
    Skip,
    Stop(Fault),
}

/// Forwards a broadcast frame to the client; lag is tolerated, a closed
/// broadcast ends the session.
pub fn route_broadcast(received: Broadcast) -> (r: Forwarding)
    ensures
        r == match received {
            Broadcast::Frame(bytes) => Forwarding::Send(bytes),
            Broadcast::Lagged(_) => Forwarding::Skip,
            Broadcast::Closed => Forwarding::Stop(Fault::HubClosed),
        },
{
    match received {
        Broadcast::Frame(bytes) => Forwarding::Send(bytes),
        Broadcast::Lagged(_) => Forwarding::Skip,
        Broadcast::Closed => Forwarding::Stop(Fault::HubClosed),
    }
}

/// The four sources a serving session waits on, in priority order.
#[derive(Clone, Copy, Debug, PartialEq, Eq, Structural)]
pub enum Source {
    Public,
    Payment,
    Inbound,
    Portfolio,
}

/// The source served next: the first ready one in priority order, so that
/// notifications drain ahead of new commands.
pub fn select_source(
    public_ready: bool,
    payment_ready: bool,
    inbound_ready: bool,
    portfolio_ready: bool,
) -> (r: Option<Source>)
    ensures
        r == if public_ready {
            Some(Source::Public)
        } else if payment_ready {
            Some(Source::Payment)
        } else if inbound_ready {
            Some(Source::Inbound)
        } else if portfolio_ready {
            Some(Source::Portfolio)
        } else {
            None
        },
{
    if public_ready {
        Some(Source::Public)
    } else if payment_ready {
        Some(Source::Payment)
    } else if inbound_ready {
        Some(Source::Inbound)
    } else if portfolio_ready {
        Some(Source::Portfolio)
    } else {
        None
    }
}

/// A per-user single-slot change signal: notifications between two polls
/// coalesce into one.
pub struct PortfolioWatch {
    pub pending: bool,
}

impl PortfolioWatch {
    pub fn new() -> (r: PortfolioWatch)
        ensures
            !r.pending,
    {
        PortfolioWatch { pending: false }
    }

    /// Records that the portfolio changed.
    pub fn notify(&mut self)
        ensures
            final(self).pending,
    {
        self.pending = true;
    }

    /// Whether a change was recorded since the last poll; clears the slot.
    pub fn poll(&mut self) -> (r: bool)
        ensures
            r == old(self).pending,
            !final(self).pending,
    {
        let r = self.pending;
        self.pending = false;
        r
    }
}

} // verus!
