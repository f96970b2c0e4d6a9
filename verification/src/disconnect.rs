//! Telling a routine disconnect from one that deserves a look.
//!
//! A failed write reports an error that may wrap other errors. The chain is
//! given here as plain values, outermost layer first.

use vstd::prelude::*;

verus! {

/// The kind of a transport-level error, as far as the verdict depends on it.
#[derive(Clone, Copy, Debug, PartialEq, Eq, Structural)]
pub enum TransportKind {
    /// The peer closed the pipe.
    BrokenPipe,
    /// The connection was reset by the peer.
    ConnectionReset,
    /// Any other transport error.
    Other,
}

/// One layer of an error's cause chain.
#[derive(Clone, Copy, Debug, PartialEq, Eq, Structural)]
pub enum Cause {
    /// A transport-level error of the given kind.
    Transport(TransportKind),
    /// An error of any other sort, which may wrap a further cause.
    Wrapper,
}

/// The verdict on a failed write.
#[derive(Clone, Copy, Debug, PartialEq, Eq, Structural)]
pub enum Disconnect {
    /// The client went away or the network dropped: close without a word.
    Routine,
    /// Anything else: report the failure, then close.
    Unexpected,
}

impl TransportKind {
    /// Whether the kind says that the peer is gone.
    pub open spec fn peer_gone(self) -> bool {
        self == TransportKind::BrokenPipe || self == TransportKind::ConnectionReset
    }

    /// Whether the kind says that the peer is gone.
    pub fn is_peer_gone(self) -> (gone: bool)
        ensures
            gone == self.peer_gone(),
    {
        match self {
            TransportKind::BrokenPipe => true,
            TransportKind::ConnectionReset => true,
            TransportKind::Other => false,
        }
    }
}

impl Disconnect {
    /// Whether the failure has to be reported before the session closes.
    pub fn must_log(self) -> (log: bool)
        ensures
            log == (self == Disconnect::Unexpected),
    {
        match self {
            Disconnect::Routine => false,
            Disconnect::Unexpected => true,
        }
    }
}

/// Whether layer `at` is the outermost transport error of `chain`.
pub open spec fn first_transport_at(chain: Seq<Cause>, at: int) -> bool {
    &&& 0 <= at < chain.len()
    &&& chain[at] is Transport
    &&& forall|above: int| 0 <= above < at ==> !(#[trigger] chain[above] is Transport)
}

/// A chain is routine when its outermost transport error says that the peer
/// is gone. A chain without a transport error is not.
pub open spec fn is_routine(chain: Seq<Cause>) -> bool {
    exists|at: int| #[trigger]
        first_transport_at(chain, at) && chain[at]->Transport_0.peer_gone()
}

/// The verdict on a chain.
pub open spec fn verdict(chain: Seq<Cause>) -> Disconnect {
    if is_routine(chain) {
        Disconnect::Routine
    } else {
        Disconnect::Unexpected
    }
}

/// Walks `chain` from the outermost layer inwards and judges by the first
/// transport error it meets; what lies beneath that one is not looked at.
pub fn classify(chain: &Vec<Cause>) -> (outcome: Disconnect)
    ensures
        outcome == verdict(chain@),
{
    let mut i: usize = 0;
    while i < chain.len()
        invariant
            i <= chain.len(),
            forall|above: int| 0 <= above < i ==> !(#[trigger] chain@[above] is Transport),
        decreases chain.len() - i,
    {
        match chain[i] {
            Cause::Transport(kind) => {
                proof {
                    outermost_transport_decides(chain@, i as int);
                }
                if kind.is_peer_gone() {
                    return Disconnect::Routine;
                } else {
                    return Disconnect::Unexpected;
                }
            },
            Cause::Wrapper => {},
        }
        i += 1;
    }
    proof {
        no_transport_is_unexpected(chain@);
    }
    Disconnect::Unexpected
}

/// A lost peer is routine at any depth: however many wrappers lie above a
/// broken pipe or a reset, as long as none of them is itself a transport
/// error, the verdict is routine.
pub proof fn wrapped_peer_loss_is_routine(chain: Seq<Cause>, depth: int)
    requires
        0 <= depth < chain.len(),
        chain[depth] == Cause::Transport(TransportKind::BrokenPipe) || chain[depth]
            == Cause::Transport(TransportKind::ConnectionReset),
        forall|above: int| 0 <= above < depth ==> chain[above] == Cause::Wrapper,
    ensures
        verdict(chain) == Disconnect::Routine,
{
    assert(first_transport_at(chain, depth));
}

/// A chain that holds no transport error anywhere is unexpected, whatever
/// its length; so is the empty chain.
pub proof fn no_transport_is_unexpected(chain: Seq<Cause>)
    requires
        forall|at: int| 0 <= at < chain.len() ==> chain[at] == Cause::Wrapper,
    ensures
        verdict(chain) == Disconnect::Unexpected,
{
    if is_routine(chain) {
        let at = choose|at: int| #[trigger]
            first_transport_at(chain, at) && chain[at]->Transport_0.peer_gone();
        assert(chain[at] == Cause::Wrapper);
    }
}

/// The outermost transport error alone decides: one of another kind makes
/// the verdict unexpected, also where a lost peer lies beneath it.
pub proof fn outermost_transport_decides(chain: Seq<Cause>, depth: int)
    requires
        first_transport_at(chain, depth),
    ensures
        verdict(chain) == (if chain[depth]->Transport_0.peer_gone() {
            Disconnect::Routine
        } else {
            Disconnect::Unexpected
        }),
{
    if is_routine(chain) {
        let at = choose|at: int| #[trigger]
            first_transport_at(chain, at) && chain[at]->Transport_0.peer_gone();
        if at < depth {
            assert(!(chain[at] is Transport));
        }
        if depth < at {
            assert(!(chain[depth] is Transport));
        }
    }
}

} // verus!
