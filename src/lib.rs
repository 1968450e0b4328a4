//! Transport binding for an HTTP server: endpoint listeners with their
//! accept-loop decisions (bind once, dispatch, capped exponential backoff on
//! transient errors, stop on fatal ones), and the two composites over them,
//! concurrent and failover. The socket work itself is left to the caller,
//! which performs each step these types decide and hands back its outcome.

mod backoff;
mod concurrent;
mod endpoint;
mod error;
mod failover;
mod listener;
mod names;

pub use backoff::{
    delay_after, lemma_backoff_non_decreasing, lemma_backoff_stays_at_ceiling, next_delay, Backoff,
};
pub use concurrent::{
    aggregate_ok, all_finished, errors_of, lemma_error_reported, lemma_failure_keeps_siblings,
    ConcurrentListener, ConcurrentRun,
};
pub use endpoint::{
    describe_endpoint, scheme, AcceptAction, AcceptEvent, EndpointListener, ParsedEndpoint, Phase,
    Transport,
};
pub use error::{is_transient_error, ErrorKind, ListenError};
pub use failover::{
    after_binds, failover_step, lemma_all_failed_is_exhausted, lemma_first_bound_is_served,
    FailoverListener, FailoverStep,
};
pub use listener::Listener;
pub use names::{join, join_names};
