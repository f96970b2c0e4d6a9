//! The life of one viewer's connection, as a state machine.
//!
//! A session decides; it performs no I/O. Whoever owns the connection asks
//! the session what to do next, does it, and tells the session what came of
//! it.

use crate::disconnect::{classify, verdict, Cause, Disconnect};
use crate::hub::{Delivery, Exposure, Feed, Hub};
use crate::snapshot::Snapshot;
use vstd::prelude::*;

verus! {

/// Where a session stands. A session only ever moves down this list.
#[derive(Clone, Copy, Debug, PartialEq, Eq, Structural)]
pub enum Phase {
    /// The connection was accepted; the session has no feed yet.
    Connecting,
    /// The session has a feed and forwards what it shows.
    Streaming,
    /// The stream is over; the feed is still to be given back.
    Closing,
    /// Nothing is held any more. Nothing happens after this.
    Closed,
}

impl Phase {
    /// The position of the phase in a session's life.
    pub open spec fn rank(self) -> nat {
        match self {
            Phase::Connecting => 0,
            Phase::Streaming => 1,
            Phase::Closing => 2,
            Phase::Closed => 3,
        }
    }
}

/// What a session is, as a mathematical value: its phase, and the key of the
/// feed it holds, if it holds one.
pub struct SessionState {
    pub phase: Phase,
    pub feed: Option<usize>,
}

/// What can happen to a session.
pub enum Signal {
    /// The hub handed out a feed under this key.
    Attached(usize),
    /// The feed was polled and showed this.
    Polled(Exposure),
    /// A write to the connection failed, with this verdict on the failure.
    WriteFailed(Disconnect),
    /// The remote end closed the connection.
    PeerClosed,
    /// The feed was given back to the hub.
    Released,
}

/// What the owner of the connection has to do next.
pub enum Action {
    /// Obtain a feed: call [`Session::connect`].
    Subscribe,
    /// Serialize this snapshot and write it to the connection.
    Send(Seq<u32>),
    /// Wait for the next publish or for the connection to close.
    Wait,
    /// Give the feed back: call [`Session::finish`].
    Release,
    /// Nothing: the session is over.
    Done,
}

impl SessionState {
    /// A session that was just accepted.
    pub open spec fn initial() -> SessionState {
        SessionState { phase: Phase::Connecting, feed: None }
    }

    /// A session holds a feed exactly while it is streaming or closing.
    pub open spec fn wf(self) -> bool {
        (self.phase == Phase::Streaming || self.phase == Phase::Closing) <==> self.feed is Some
    }

    /// The session after `signal`. A signal that does not belong to the
    /// session's phase changes nothing.
    pub open spec fn after(self, signal: Signal) -> SessionState {
        match (self.phase, signal) {
            (Phase::Connecting, Signal::Attached(id)) => SessionState {
                phase: Phase::Streaming,
                feed: Some(id),
            },
            (Phase::Streaming, Signal::Polled(Exposure::Closed)) => SessionState {
                phase: Phase::Closing,
                ..self
            },
            (Phase::Streaming, Signal::WriteFailed(_)) => SessionState {
                phase: Phase::Closing,
                ..self
            },
            (Phase::Streaming, Signal::PeerClosed) => SessionState {
                phase: Phase::Closing,
                ..self
            },
            (Phase::Closing, Signal::Released) => SessionState {
                phase: Phase::Closed,
                feed: None,
            },
            _ => self,
        }
    }

    /// What is to be done by a session that, if it is streaming, has just
    /// polled its feed and found `shown`.
    pub open spec fn action(self, shown: Exposure) -> Action {
        match self.phase {
            Phase::Connecting => Action::Subscribe,
            Phase::Streaming => match shown {
                Exposure::Snapshot(snapshot) => Action::Send(snapshot),
                Exposure::Pending => Action::Wait,
                Exposure::Closed => Action::Release,
            },
            Phase::Closing => Action::Release,
            Phase::Closed => Action::Done,
        }
    }
}

/// A session never goes back: whatever happens, its phase stays or moves on,
/// and a well-formed session stays well-formed.
pub proof fn session_only_moves_on(session: SessionState, signal: Signal)
    requires
        session.wf(),
    ensures
        session.phase.rank() <= session.after(signal).phase.rank(),
        session.after(signal).wf(),
{
}

/// Closed is the end: a closed session holds no feed, and nothing that
/// happens changes it.
pub proof fn closed_is_terminal(session: SessionState, signal: Signal)
    requires
        session.wf(),
        session.phase == Phase::Closed,
    ensures
        session.feed is None,
        session.after(signal) == session,
{
}

/// A streaming session starts closing on exactly three occasions: its feed
/// is at end of stream, a write failed, or the remote end closed.
pub proof fn closing_has_three_causes(session: SessionState, signal: Signal)
    requires
        session.phase == Phase::Streaming,
    ensures
        session.after(signal).phase == Phase::Closing <==> (signal == Signal::Polled(
            Exposure::Closed,
        ) || signal is WriteFailed || signal == Signal::PeerClosed),
        session.after(signal).phase != Phase::Closing ==> session.after(signal) == session,
{
}

/// What [`Session::poll`] tells the owner of the connection to do next.
#[derive(Debug)]
pub enum Step {
    /// Obtain a feed: call [`Session::connect`].
    Subscribe,
    /// Serialize this snapshot and write it to the connection.
    Send(Snapshot),
    /// Wait for the next publish or for the connection to close.
    Wait,
    /// Give the feed back: call [`Session::finish`].
    Release,
    /// Nothing: the session is over.
    Done,
}

impl View for Step {
    type V = Action;

    open spec fn view(&self) -> Action {
        match self {
            Step::Subscribe => Action::Subscribe,
            Step::Send(snapshot) => Action::Send(snapshot@),
            Step::Wait => Action::Wait,
            Step::Release => Action::Release,
            Step::Done => Action::Done,
        }
    }
}

/// One viewer's session.
#[derive(Debug)]
pub struct Session {
    phase: Phase,
    feed: Option<Feed>,
}

impl View for Session {
    type V = SessionState;

    closed spec fn view(&self) -> SessionState {
        SessionState {
            phase: self.phase,
            feed: match self.feed {
                Some(feed) => Some(feed.id()),
                None => None,
            },
        }
    }
}

impl Session {
    #[verifier::type_invariant]
    spec fn inv(self) -> bool {
        (self.phase == Phase::Streaming || self.phase == Phase::Closing) <==> self.feed is Some
    }

    /// A session for a connection that was just accepted.
    pub fn new() -> (session: Session)
        ensures
            session@ == SessionState::initial(),
            session@.wf(),
    {
        Session { phase: Phase::Connecting, feed: None }
    }

    /// The phase the session is in.
    pub fn phase(&self) -> (phase: Phase)
        ensures
            phase == self@.phase,
    {
        self.phase
    }

    /// Obtains the session's feed from `hub` and starts streaming.
    ///
    /// The feed shows nothing that was published before this call. A session
    /// that is past connecting is left as it is, and so is the hub.
    pub fn connect(&mut self, hub: &mut Hub)
        ensures
            final(self)@.wf(),
            old(self)@.phase == Phase::Connecting ==> {
                &&& final(hub)@.wf()
                &&& final(self)@.phase == Phase::Streaming
                &&& final(self)@.feed is Some
                &&& !old(hub)@.is_live(final(self)@.feed->0)
                &&& final(self)@ == old(self)@.after(Signal::Attached(final(self)@.feed->0))
                &&& final(hub)@ == old(hub)@.subscribe(final(self)@.feed->0)
            },
            old(self)@.phase != Phase::Connecting ==> {
                &&& final(self)@ == old(self)@
                &&& final(hub)@ == old(hub)@
            },
    {
        proof {
            use_type_invariant(&*self);
        }
        match self.phase {
            Phase::Connecting => {
                let feed = hub.subscribe();
                *self = Session { phase: Phase::Streaming, feed: Some(feed) };
            },
            _ => {},
        }
    }

    /// Polls the session's feed and says what to do next.
    ///
    /// While streaming: a snapshot that the feed shows is handed out to be
    /// sent, and the feed then shows nothing until the next publish; a feed
    /// that shows nothing means waiting; a feed at end of stream moves the
    /// session to closing. In any other phase nothing is polled and nothing
    /// changes.
    pub fn poll(&mut self, hub: &mut Hub) -> (step: Step)
        ensures
            final(self)@.wf(),
            old(self)@.phase == Phase::Streaming ==> {
                let id = old(self)@.feed->0;
                &&& final(hub)@.wf()
                &&& step@ == old(self)@.action(old(hub)@.exposed(id))
                &&& final(self)@ == old(self)@.after(Signal::Polled(old(hub)@.exposed(id)))
                &&& final(hub)@ == old(hub)@.take(id)
            },
            old(self)@.phase != Phase::Streaming ==> {
                &&& step@ == old(self)@.action(Exposure::Closed)
                &&& final(self)@ == old(self)@
                &&& final(hub)@ == old(hub)@
            },
    {
        proof {
            use_type_invariant(&*self);
        }
        match self.phase {
            Phase::Connecting => Step::Subscribe,
            Phase::Streaming => {
                let delivery = match &self.feed {
                    Some(feed) => hub.take(feed),
                    None => Delivery::Closed,
                };
                match delivery {
                    Delivery::Snapshot(snapshot) => Step::Send(snapshot),
                    Delivery::Pending => Step::Wait,
                    Delivery::Closed => {
                        self.phase = Phase::Closing;
                        Step::Release
                    },
                }
            },
            Phase::Closing => Step::Release,
            Phase::Closed => Step::Done,
        }
    }

    /// Records that a write to the connection failed with the given cause
    /// chain, outermost layer first, and gives the verdict on it.
    ///
    /// A streaming session moves to closing whatever the verdict; the verdict
    /// says whether the failure has to be reported on the way.
    pub fn write_failed(&mut self, chain: &Vec<Cause>) -> (outcome: Disconnect)
        ensures
            outcome == verdict(chain@),
            final(self)@ == old(self)@.after(Signal::WriteFailed(outcome)),
            final(self)@.wf(),
    {
        proof {
            use_type_invariant(&*self);
        }
        let outcome = classify(chain);
        match self.phase {
            Phase::Streaming => {
                self.phase = Phase::Closing;
            },
            _ => {},
        }
        outcome
    }

    /// Records that the remote end closed the connection: a streaming
    /// session moves to closing.
    pub fn peer_closed(&mut self)
        ensures
            final(self)@ == old(self)@.after(Signal::PeerClosed),
            final(self)@.wf(),
    {
        proof {
            use_type_invariant(&*self);
        }
        match self.phase {
            Phase::Streaming => {
                self.phase = Phase::Closing;
            },
            _ => {},
        }
    }

    /// Gives the feed of a closing session back to `hub` and ends the
    /// session. In any other phase nothing changes.
    pub fn finish(&mut self, hub: &mut Hub)
        ensures
            final(self)@ == old(self)@.after(Signal::Released),
            final(self)@.wf(),
            old(self)@.phase == Phase::Closing ==> final(hub)@.wf() && final(hub)@ == old(
                hub,
            )@.release(old(self)@.feed->0),
            old(self)@.phase != Phase::Closing ==> final(hub)@ == old(hub)@,
    {
        proof {
            use_type_invariant(&*self);
        }
        match self.phase {
            Phase::Closing => {
                let mut ended = Session { phase: Phase::Closed, feed: None };
                std::mem::swap(self, &mut ended);
                match ended.feed {
                    Some(feed) => {
                        hub.release(feed);
                    },
                    None => {},
                }
            },
            _ => {},
        }
    }
}

} // verus!
