use vstd::prelude::*;
use crate::backoff::{Backoff, next_delay};
use crate::error::{ErrorKind, ListenError};

verus! {

/// The kind of socket an endpoint listener serves.
#[derive(Clone, Copy, Debug, PartialEq, Eq, Structural)]
pub enum Transport {
    Tcp,
    Unix,
}

/// Where a listener stands in its one lifetime: `listen` moves it from
/// `NotBound` to `Binding`, a bind result to `Running` or `Terminated`, and a
/// fatal accept error to `Terminated`. It never goes back.
#[derive(Clone, Copy, Debug, PartialEq, Eq, Structural)]
pub enum Phase {
    NotBound,
    Binding,
    Running,
    Terminated,
}

/// What one call of the platform's accept primitive gave.
#[derive(Clone, Copy, Debug, PartialEq, Eq, Structural)]
pub enum AcceptEvent {
    Accepted,
    Failed(ErrorKind),
}

/// What the accept loop does next.
#[derive(Debug)]
pub enum AcceptAction {
    /// Hand the accepted connection to the handler in a task of its own,
    /// then accept again.
    Dispatch,
    /// Sleep this many milliseconds, then accept again.
    Retry(u64),
    /// Leave the loop, closing the socket, with this error.
    Stop(ListenError),
}

/// The text that names an endpoint in logs.
pub open spec fn scheme(t: Transport) -> Seq<char> {
    match t {
        Transport::Tcp => seq!['h', 't', 't', 'p', ':', '/', '/'],
        Transport::Unix => seq!['h', 't', 't', 'p', '+', 'u', 'n', 'i', 'x', ':', '/', '/'],
    }
}

pub open spec fn describe_endpoint(t: Transport, address: Seq<char>) -> Seq<char> {
    scheme(t) + address
}

/// One TCP or Unix-domain endpoint with its accept-loop state.
#[derive(Debug)]
pub struct EndpointListener {
    transport: Transport,
    address: String,
    prebound: bool,
    phase: Phase,
    backoff: Backoff,
}

impl EndpointListener {
    pub closed spec fn spec_transport(&self) -> Transport {
        self.transport
    }

    /// The host and port, or the socket's path.
    pub closed spec fn spec_address(&self) -> Seq<char> {
        self.address@
    }

    /// The socket was opened before the listener was made, from a descriptor.
    pub closed spec fn spec_prebound(&self) -> bool {
        self.prebound
    }

    pub closed spec fn spec_phase(&self) -> Phase {
        self.phase
    }

    pub closed spec fn spec_backoff(&self) -> Backoff {
        self.backoff
    }

    pub open spec fn wf(&self) -> bool {
        self.spec_backoff().wf()
    }

    pub open spec fn spec_describe(&self) -> Seq<char> {
        describe_endpoint(self.spec_transport(), self.spec_address())
    }

    fn make(transport: Transport, address: String, prebound: bool, floor_ms: u64, ceiling_ms: u64) -> (l: EndpointListener)
        requires
            floor_ms <= ceiling_ms,
        ensures
            l.wf(),
            l.spec_transport() == transport,
            l.spec_address() == address@,
            l.spec_prebound() == prebound,
            l.spec_phase() == Phase::NotBound,
            l.spec_backoff().floor() == floor_ms,
            l.spec_backoff().ceiling() == ceiling_ms,
            l.spec_backoff().current() == floor_ms,
    {
        EndpointListener {
            transport,
            address,
            prebound,
            phase: Phase::NotBound,
            backoff: Backoff::new(floor_ms, ceiling_ms),
        }
    }

    /// A listener that binds `address` (`host:port`) when it starts listening.
    pub fn tcp(address: String, floor_ms: u64, ceiling_ms: u64) -> (l: EndpointListener)
        requires
            floor_ms <= ceiling_ms,
        ensures
            l.wf(),
            l.spec_transport() == Transport::Tcp,
            l.spec_address() == address@,
            !l.spec_prebound(),
            l.spec_phase() == Phase::NotBound,
            l.spec_backoff().floor() == floor_ms,
            l.spec_backoff().ceiling() == ceiling_ms,
            l.spec_backoff().current() == floor_ms,
    {
        Self::make(Transport::Tcp, address, false, floor_ms, ceiling_ms)
    }

    /// A listener that binds the domain socket at `path` when it starts
    /// listening.
    pub fn unix(path: String, floor_ms: u64, ceiling_ms: u64) -> (l: EndpointListener)
        requires
            floor_ms <= ceiling_ms,
        ensures
            l.wf(),
            l.spec_transport() == Transport::Unix,
            l.spec_address() == path@,
            !l.spec_prebound(),
            l.spec_phase() == Phase::NotBound,
            l.spec_backoff().floor() == floor_ms,
            l.spec_backoff().ceiling() == ceiling_ms,
            l.spec_backoff().current() == floor_ms,
    {
        Self::make(Transport::Unix, path, false, floor_ms, ceiling_ms)
    }

    /// A listener over a socket that is already bound (a pre-opened
    /// descriptor); `address` is where that socket listens.
    pub fn from_bound(transport: Transport, address: String, floor_ms: u64, ceiling_ms: u64) -> (l: EndpointListener)
        requires
            floor_ms <= ceiling_ms,
        ensures
            l.wf(),
            l.spec_transport() == transport,
            l.spec_address() == address@,
            l.spec_prebound(),
            l.spec_phase() == Phase::NotBound,
            l.spec_backoff().floor() == floor_ms,
            l.spec_backoff().ceiling() == ceiling_ms,
            l.spec_backoff().current() == floor_ms,
    {
        Self::make(transport, address, true, floor_ms, ceiling_ms)
    }

    pub fn transport(&self) -> (r: Transport)
        ensures
            r == self.spec_transport(),
    {
        self.transport
    }

    pub fn address(&self) -> (r: &String)
        ensures
            r@ == self.spec_address(),
    {
        &self.address
    }

    pub fn is_prebound(&self) -> (r: bool)
        ensures
            r == self.spec_prebound(),
    {
        self.prebound
    }

    pub fn phase(&self) -> (r: Phase)
        ensures
            r == self.spec_phase(),
    {
        self.phase
    }

    pub fn backoff(&self) -> (r: &Backoff)
        ensures
            *r == self.spec_backoff(),
    {
        &self.backoff
    }

    /// The endpoint's name for logs: the scheme, then the address or path.
    /// It does not depend on the phase.
    pub fn describe(&self) -> (r: String)
        ensures
            r@ == self.spec_describe(),
    {
        let s = match self.transport {
            Transport::Tcp => String::from_str("http://"),
            Transport::Unix => String::from_str("http+unix://"),
        };
        proof {
            reveal_strlit("http://");
            reveal_strlit("http+unix://");
        }
        s.concat(self.address.as_str())
    }

    /// Starts the one `listen` of this listener. Only a listener that has not
    /// listened yet may bind; any later call is refused with a bind error, so
    /// that a consumed socket is never waited on.
    pub fn begin_listen(&mut self) -> (r: Result<(), ListenError>)
        ensures
            old(self).spec_phase() == Phase::NotBound ==> r is Ok && final(self).spec_phase() == Phase::Binding,
            old(self).spec_phase() != Phase::NotBound ==> r == Err::<(), ListenError>(ListenError::Consumed)
                && final(self).spec_phase() == old(self).spec_phase(),
            final(self).spec_transport() == old(self).spec_transport(),
            final(self).spec_address() == old(self).spec_address(),
            final(self).spec_prebound() == old(self).spec_prebound(),
            final(self).spec_backoff() == old(self).spec_backoff(),
    {
        if self.phase == Phase::NotBound {
            self.phase = Phase::Binding;
            Ok(())
        } else {
            Err(ListenError::Consumed)
        }
    }

    /// Takes the result of binding (for a pre-bound socket, `Ok`). A failure
    /// is fatal and not retried: the listener terminates with a bind error.
    pub fn bind_finished(&mut self, bound: Result<(), ErrorKind>) -> (r: Result<(), ListenError>)
        requires
            old(self).wf(),
            old(self).spec_phase() == Phase::Binding,
        ensures
            final(self).wf(),
            bound is Ok ==> r is Ok && final(self).spec_phase() == Phase::Running,
            forall|k: ErrorKind| bound == Err::<(), ErrorKind>(k) ==> r == Err::<(), ListenError>(ListenError::Bind(k))
                && final(self).spec_phase() == Phase::Terminated,
            final(self).spec_backoff() == old(self).spec_backoff(),
            final(self).spec_transport() == old(self).spec_transport(),
            final(self).spec_address() == old(self).spec_address(),
            final(self).spec_prebound() == old(self).spec_prebound(),
    {
        match bound {
            Ok(()) => {
                self.phase = Phase::Running;
                Ok(())
            },
            Err(k) => {
                self.phase = Phase::Terminated;
                Err(ListenError::Bind(k))
            },
        }
    }

    /// Decides what the running accept loop does after one accept: a
    /// connection is dispatched once and the backoff goes back to its floor; a
    /// transient error sleeps the current delay and doubles it up to the
    /// ceiling; any other error ends the loop with that error.
    pub fn on_accept(&mut self, event: AcceptEvent) -> (a: AcceptAction)
        requires
            old(self).wf(),
            old(self).spec_phase() == Phase::Running,
        ensures
            final(self).wf(),
            final(self).spec_transport() == old(self).spec_transport(),
            final(self).spec_address() == old(self).spec_address(),
            final(self).spec_prebound() == old(self).spec_prebound(),
            final(self).spec_backoff().floor() == old(self).spec_backoff().floor(),
            final(self).spec_backoff().ceiling() == old(self).spec_backoff().ceiling(),
            event == AcceptEvent::Accepted ==> a is Dispatch
                && final(self).spec_phase() == Phase::Running
                && final(self).spec_backoff().current() == old(self).spec_backoff().floor(),
            forall|k: ErrorKind| event == AcceptEvent::Failed(k) && k.spec_is_transient() ==>
                a == AcceptAction::Retry(old(self).spec_backoff().current() as u64)
                && final(self).spec_phase() == Phase::Running
                && final(self).spec_backoff().current() == next_delay(
                    old(self).spec_backoff().current(),
                    old(self).spec_backoff().ceiling(),
                ),
            forall|k: ErrorKind| event == AcceptEvent::Failed(k) && !k.spec_is_transient() ==>
                a == AcceptAction::Stop(ListenError::Accept(k))
                && final(self).spec_phase() == Phase::Terminated
                && final(self).spec_backoff() == old(self).spec_backoff(),
    {
        match event {
            AcceptEvent::Accepted => {
                self.backoff.reset();
                AcceptAction::Dispatch
            },
            AcceptEvent::Failed(k) => {
                if crate::error::is_transient_error(k) {
                    let ms = self.backoff.on_transient_error();
                    AcceptAction::Retry(ms)
                } else {
                    self.phase = Phase::Terminated;
                    AcceptAction::Stop(ListenError::Accept(k))
                }
            },
        }
    }
}

/// An endpoint as the address parser hands it over, before binding: exactly
/// one concrete listener, tagged by what it is.
#[derive(Debug)]
pub enum ParsedEndpoint {
    Tcp(EndpointListener),
    Unix(EndpointListener),
    Descriptor(EndpointListener),
}

impl ParsedEndpoint {
    pub open spec fn spec_listener(self) -> EndpointListener {
        match self {
            ParsedEndpoint::Tcp(l) => l,
            ParsedEndpoint::Unix(l) => l,
            ParsedEndpoint::Descriptor(l) => l,
        }
    }

    /// Unwraps the concrete listener; nothing else happens.
    pub fn into_listener(self) -> (l: EndpointListener)
        ensures
            l == self.spec_listener(),
    {
        match self {
            ParsedEndpoint::Tcp(l) => l,
            ParsedEndpoint::Unix(l) => l,
            ParsedEndpoint::Descriptor(l) => l,
        }
    }
}

} // verus!
