use vstd::prelude::*;
use crate::concurrent::ConcurrentListener;
use crate::endpoint::{EndpointListener, ParsedEndpoint};
use crate::failover::FailoverListener;

verus! {

/// Any listener a server can be handed: one endpoint, or one of the two
/// composites over endpoints. The set of variants is closed.
#[derive(Debug)]
pub enum Listener {
    Endpoint(EndpointListener),
    Concurrent(ConcurrentListener),
    Failover(FailoverListener),
}

impl Listener {
    pub open spec fn wf(&self) -> bool {
        match self {
            Listener::Endpoint(l) => l.wf(),
            Listener::Concurrent(_) => true,
            Listener::Failover(l) => l.wf(),
        }
    }

    /// The name a listener goes by in logs.
    pub open spec fn spec_describe(&self) -> Seq<char> {
        match self {
            Listener::Endpoint(l) => l.spec_describe(),
            Listener::Concurrent(l) => l.spec_describe(),
            Listener::Failover(l) => match l.spec_active() {
                Some(i) => l.spec_names()[i as int]@,
                None => "not yet bound"@,
            },
        }
    }

    /// An endpoint as the address parser produced it.
    pub fn from_parsed(parsed: ParsedEndpoint) -> (l: Listener)
        ensures
            l == Listener::Endpoint(parsed.spec_listener()),
    {
        Listener::Endpoint(parsed.into_listener())
    }

    pub fn describe(&self) -> (r: String)
        requires
            self.wf(),
        ensures
            r@ == self.spec_describe(),
    {
        match self {
            Listener::Endpoint(l) => l.describe(),
            Listener::Concurrent(l) => l.describe(),
            Listener::Failover(l) => l.describe(),
        }
    }
}

} // verus!
