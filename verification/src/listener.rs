//! The listener: an accept loop governed by an explicit stop flag.
//!
//! A `StitcherServer` owns a bound, listening transport endpoint and runs an
//! accept loop: it repeatedly suspends waiting for the next inbound attempt
//! and dispatches each established connection to the caller's handler, in
//! the order the handshakes complete. The loop's iteration condition is the
//! `accepting_connections` flag, read afresh at the top of every iteration;
//! a stop request therefore takes effect only after the wait it lands in
//! resolves, so at most one more connection can be dispatched after a stop.
//!
//! The transport's own work — binding the endpoint and resolving each wait —
//! happens outside this crate. Here the loop is driven by a script: a
//! sequence of wait outcomes, with an optional stop request landing while a
//! chosen wait is pending. The real loop makes the same decisions one
//! outcome at a time.

use vstd::prelude::*;
use vstd::string::StringSliceAdditionalSpecFns;

use crate::addr::{Addr, spec_parse_addr, parse_addr};
use crate::errors::{ConstructionError, HandshakeError};
use crate::identity::{SelfSignedIdentity, generate_self_signed_cert, quinn_server_config_single_cert};
use crate::CloseCommand;

verus! {

/// The outcome of one wait of the accept loop.
#[derive(Clone, Copy, Debug, PartialEq, Eq, Structural)]
pub enum AcceptEvent {
    /// An inbound handshake completed; the established connection is known
    /// by an opaque numeric handle.
    Established(u64),
    /// An inbound attempt failed; no connection came of it.
    Failed(HandshakeError),
    /// The wait resolved with nothing to accept: the endpoint is closed.
    Closed,
}

/// Whether the accept loop dispatches the outcome of one wait to the
/// handler: an established connection is dispatched; a failed attempt and
/// a closed endpoint are passed over and the loop reads its flag again.
pub open spec fn spec_accept_dispatches(ev: AcceptEvent) -> bool {
    ev is Established
}

/// The wait outcomes the accept loop still handles when a stop request
/// lands while the wait numbered `stop_during` is pending: the outcomes up
/// to and including that one. A stop numbered past the script's end lands
/// in a wait that never resolves, after every scripted outcome.
pub open spec fn spec_processed(events: Seq<AcceptEvent>, stop_during: Option<usize>) -> Seq<
    AcceptEvent,
> {
    match stop_during {
        Option::None => events,
        Option::Some(k) => if k < events.len() {
            events.take(k + 1)
        } else {
            events
        },
    }
}

/// The connections the accept loop dispatches to the handler, given the
/// wait outcomes it handles: the handles of the established connections,
/// in the order their handshakes completed.
pub open spec fn spec_dispatched(events: Seq<AcceptEvent>) -> Seq<u64>
    decreases events.len(),
{
    if events.len() == 0 {
        Seq::empty()
    } else {
        let rest = spec_dispatched(events.drop_last());
        match events.last() {
            AcceptEvent::Established(id) => rest.push(id),
            _ => rest,
        }
    }
}

/// The listener's state: its bound local address, its identity, the accept
/// loop's flag, and whether the endpoint has been shut down for good.
#[derive(Debug, PartialEq, Eq)]
pub struct StitcherServer {
    /// The local address the listening endpoint is bound to.
    pub local_addr: Addr,
    /// The ephemeral self-signed identity generated at construction.
    pub identity: SelfSignedIdentity,
    /// Whether the accept loop keeps iterating. Set on loop entry, cleared
    /// by `stop_accepting_connections` and `shutdown`.
    pub accepting_connections: bool,
    /// Whether `shutdown` has closed the endpoint. Terminal: a shut-down
    /// listener is not reused.
    pub closed: bool,
}

impl StitcherServer {
    /// Builds a listener bound to the textual local address `addr`: parses
    /// the address, generates a fresh self-signed identity, and builds the
    /// server-side transport configuration presenting it.
    ///
    /// Returns the listener together with the transport configuration the
    /// endpoint is to be bound with. Fails fatally — `InvalidAddress`
    /// exactly when `addr` is malformed, `IdentityGeneration` when the
    /// identity material could not be produced or was rejected; there is no
    /// partial listener state.
    pub fn new(addr: &str) -> (r: Result<(StitcherServer, quinn::ServerConfig), ConstructionError>)
        ensures
            match r {
                Ok(p) => {
                    &&& spec_parse_addr(addr.spec_bytes()) == Some(p.0.local_addr)
                    &&& p.0.identity.subject@ == "localhost"@
                    &&& !p.0.accepting_connections
                    &&& !p.0.closed
                },
                Err(e) => {
                    &&& (e is InvalidAddress <==> spec_parse_addr(addr.spec_bytes()) is None)
                    &&& (e is InvalidAddress || e is IdentityGeneration)
                },
            },
    {
        let local_addr = match parse_addr(addr) {
            Some(a) => a,
            None => {
                return Err(ConstructionError::InvalidAddress);
            }
        };
        let identity = match generate_self_signed_cert() {
            Ok(id) => id,
            Err(e) => {
                return Err(e);
            }
        };
        let config = match quinn_server_config_single_cert(&identity.cert_der, &identity.key_der) {
            Ok(c) => c,
            Err(e) => {
                return Err(e);
            }
        };
        Ok((
            StitcherServer { local_addr, identity, accepting_connections: false, closed: false },
            config,
        ))
    }

    /// Enters the accept loop: sets the flag the loop iterates on. A shut
    /// down listener is terminal and must not re-enter the loop.
    pub fn start_accept_loop(&mut self)
        requires
            !old(self).closed,
        ensures
            final(self).local_addr == old(self).local_addr,
            final(self).identity == old(self).identity,
            final(self).closed == old(self).closed,
            final(self).accepting_connections,
    {
        self.accepting_connections = true;
    }

    /// Whether the accept loop runs another iteration: the latest value of
    /// the flag, read at the top of each iteration.
    pub fn should_continue_accepting(&self) -> (b: bool)
        ensures
            b == self.accepting_connections,
    {
        self.accepting_connections
    }

    /// Runs the accept loop over a script of wait outcomes.
    ///
    /// The flag is set on entry and read afresh at the top of every
    /// iteration. Each `Established` outcome is dispatched to the handler —
    /// recorded here, in handshake-completion order, as the returned
    /// handles; failed attempts and closed-endpoint outcomes are passed
    /// over without dispatching. A stop request given as `stop_during`
    /// lands while that wait is pending: the loop still handles that one
    /// outcome, then observes the cleared flag and exits, so it dispatches
    /// exactly the established connections among the processed prefix of
    /// the script.
    pub fn accept_connections(
        &mut self,
        events: &Vec<AcceptEvent>,
        stop_during: Option<usize>,
    ) -> (dispatched: Vec<u64>)
        requires
            !old(self).closed,
        ensures
            dispatched@ == spec_dispatched(spec_processed(events@, stop_during)),
            final(self).local_addr == old(self).local_addr,
            final(self).identity == old(self).identity,
            final(self).closed == old(self).closed,
            final(self).accepting_connections == (stop_during is None),
    {
        self.start_accept_loop();
        let mut dispatched: Vec<u64> = Vec::new();
        let mut i: usize = 0;
        while self.accepting_connections && i < events.len()
            invariant
                i <= events@.len(),
                self.local_addr == old(self).local_addr,
                self.identity == old(self).identity,
                self.closed == old(self).closed,
                self.accepting_connections == (match stop_during {
                    Option::None => true,
                    Option::Some(k) => i <= k,
                }),
                stop_during matches Some(k) ==> i <= k + 1,
                dispatched@ == spec_dispatched(events@.take(i as int)),
            decreases events@.len() - i,
        {
            // the i-th wait is pending; a scripted stop request lands now
            if let Some(k) = stop_during {
                if k == i {
                    self.stop_accepting_connections();
                }
            }
            proof {
                assert(events@.take(i + 1).drop_last() =~= events@.take(i as int));
                assert(events@.take(i + 1).last() == events@[i as int]);
            }
            match events[i] {
                AcceptEvent::Established(id) => {
                    dispatched.push(id);
                }
                AcceptEvent::Failed(_) => {}
                AcceptEvent::Closed => {}
            }
            i = i + 1;
        }
        if self.accepting_connections {
            proof {
                assert(i == events@.len());
                assert(events@.take(i as int) =~= events@);
            }
            // the script is out of outcomes: the loop is left waiting; a
            // stop request numbered past the script lands in that wait
            if let Some(k) = stop_during {
                if k >= i {
                    self.stop_accepting_connections();
                }
            }
        } else {
            proof {
                match stop_during {
                    Option::Some(k) => {
                        assert(i == k + 1);
                        assert(spec_processed(events@, stop_during) =~= events@.take(i as int));
                    }
                    Option::None => {}
                }
            }
        }
        dispatched
    }

    /// Clears the accept loop's flag. The loop is not interrupted: it
    /// observes the cleared flag only after the wait it is suspended in
    /// resolves, then exits before starting another wait.
    pub fn stop_accepting_connections(&mut self)
        ensures
            final(self).local_addr == old(self).local_addr,
            final(self).identity == old(self).identity,
            final(self).closed == old(self).closed,
            !final(self).accepting_connections,
    {
        self.accepting_connections = false;
    }

    /// Stops accepting, then closes the endpoint for good: returns the
    /// close command — code 0 and a fixed reason — to run against it, which
    /// makes every further accept fail at once. Shutdown is terminal: the
    /// listener is not reused afterwards.
    pub fn shutdown(&mut self) -> (cmd: CloseCommand)
        ensures
            final(self).local_addr == old(self).local_addr,
            final(self).identity == old(self).identity,
            !final(self).accepting_connections,
            final(self).closed,
            cmd.code == 0,
            cmd.reason@ == "Shutdown method called."@,
    {
        self.stop_accepting_connections();
        self.closed = true;
        CloseCommand { code: 0, reason: "Shutdown method called." }
    }
}

/// Whether the accept loop dispatches the outcome of one wait to the
/// handler: exactly the established connections are dispatched, never a
/// failed attempt and never a closed-endpoint outcome.
pub fn accept_event_dispatches(ev: &AcceptEvent) -> (d: bool)
    ensures
        d == spec_accept_dispatches(*ev),
{
    match ev {
        AcceptEvent::Established(_) => true,
        AcceptEvent::Failed(_) => false,
        AcceptEvent::Closed => false,
    }
}

/// A script without a single completed handshake dispatches nothing.
proof fn lemma_no_established_no_dispatch(events: Seq<AcceptEvent>)
    requires
        forall|i: int| 0 <= i < events.len() ==> !(#[trigger] events[i] is Established),
    ensures
        spec_dispatched(events) == Seq::<u64>::empty(),
    decreases events.len(),
{
    if events.len() > 0 {
        lemma_no_established_no_dispatch(events.drop_last());
    }
}

/// A listener shut down before any handshake completes exits its accept
/// loop without a single dispatch: when the stop lands during the first
/// wait — or any wait — and no wait of the script resolves with an
/// established connection (the closed endpoint makes every further attempt
/// fail), nothing is handed to the handler.
pub proof fn lemma_shutdown_dispatches_nothing(
    events: Seq<AcceptEvent>,
    stop_during: Option<usize>,
)
    requires
        forall|i: int| 0 <= i < events.len() ==> !(#[trigger] events[i] is Established),
    ensures
        spec_dispatched(spec_processed(events, stop_during)) == Seq::<u64>::empty(),
{
    let processed = spec_processed(events, stop_during);
    assert(forall|i: int| 0 <= i < processed.len() ==> !(#[trigger] processed[i] is Established));
    lemma_no_established_no_dispatch(processed);
}

/// After a stop request lands during wait `k`, at most one further
/// connection is dispatched beyond those already dispatched when the stop
/// was made: the one whose wait was already in flight.
pub proof fn lemma_stop_bounds_dispatch(events: Seq<AcceptEvent>, k: usize)
    requires
        k < events.len(),
    ensures
        spec_dispatched(spec_processed(events, Some(k))).len() <= spec_dispatched(
            events.take(k as int),
        ).len() + 1,
{
    let processed = spec_processed(events, Some(k));
    assert(processed =~= events.take(k + 1));
    assert(processed.drop_last() =~= events.take(k as int));
}

/// One successful handshake produces exactly one dispatch: a script whose
/// only wait resolves with the established connection `id` hands exactly
/// `id` to the handler, once.
pub proof fn lemma_single_established_single_dispatch(id: u64)
    ensures
        spec_dispatched(seq![AcceptEvent::Established(id)]) == seq![id],
{
    let events = seq![AcceptEvent::Established(id)];
    assert(events.drop_last() =~= Seq::<AcceptEvent>::empty());
    assert(spec_dispatched(events.drop_last()) == Seq::<u64>::empty());
    assert(spec_dispatched(events) =~= seq![id]);
}

} // verus!
