use vstd::prelude::*;
use crate::endpoint::EndpointListener;
use crate::error::ListenError;

verus! {

/// What a failover listener does next.
#[derive(Clone, Copy, Debug, PartialEq, Eq, Structural)]
pub enum FailoverStep {
    /// Try to bind the candidate at this index.
    Attempt(usize),
    /// Run the accept loop of the candidate at this index, the active one;
    /// its result is the composite's result.
    Serve(usize),
    /// Every candidate failed to bind: fail with all their errors.
    Exhausted,
}

/// Candidate endpoints tried in order: the first that binds becomes the
/// active listener, and no later candidate is ever tried.
#[derive(Debug)]
pub struct FailoverListener {
    candidates: Vec<EndpointListener>,
    names: Vec<String>,
    failures: Vec<ListenError>,
    tried: usize,
    active: Option<usize>,
    started: bool,
}

/// The next step of a failover listener over `n` candidates, of which the
/// first `tried` failed to bind and `active` is the one that bound, if any.
pub open spec fn failover_step(n: nat, tried: nat, active: Option<usize>) -> FailoverStep {
    match active {
        Some(i) => FailoverStep::Serve(i),
        None => if tried < n {
            FailoverStep::Attempt(tried as usize)
        } else {
            FailoverStep::Exhausted
        },
    }
}

impl FailoverListener {
    pub closed spec fn spec_candidates(&self) -> Seq<EndpointListener> {
        self.candidates@
    }

    /// The candidates' log names, in priority order.
    pub closed spec fn spec_names(&self) -> Seq<String> {
        self.names@
    }

    /// The bind errors of the candidates that failed, in order.
    pub closed spec fn spec_failures(&self) -> Seq<ListenError> {
        self.failures@
    }

    /// How many candidates failed to bind.
    pub closed spec fn spec_tried(&self) -> nat {
        self.tried as nat
    }

    pub closed spec fn spec_active(&self) -> Option<usize> {
        self.active
    }

    pub closed spec fn spec_started(&self) -> bool {
        self.started
    }

    pub open spec fn wf(&self) -> bool {
        &&& self.spec_tried() <= self.spec_names().len()
        &&& self.spec_active() is Some ==> self.spec_active()->Some_0 == self.spec_tried()
            && self.spec_tried() < self.spec_names().len()
    }

    pub open spec fn spec_step(&self) -> FailoverStep {
        failover_step(self.spec_names().len(), self.spec_tried(), self.spec_active())
    }

    pub fn new() -> (l: FailoverListener)
        ensures
            l.wf(),
            l.spec_candidates() == Seq::<EndpointListener>::empty(),
            l.spec_names() == Seq::<String>::empty(),
            l.spec_failures() == Seq::<ListenError>::empty(),
            l.spec_tried() == 0,
            l.spec_active() is None,
            !l.spec_started(),
    {
        FailoverListener {
            candidates: Vec::new(),
            names: Vec::new(),
            failures: Vec::new(),
            tried: 0,
            active: None,
            started: false,
        }
    }

    /// Appends a candidate, of lower priority than those added before.
    pub fn add(&mut self, candidate: EndpointListener)
        requires
            !old(self).spec_started(),
            old(self).wf(),
        ensures
            final(self).wf(),
            final(self).spec_candidates() == old(self).spec_candidates().push(candidate),
            final(self).spec_names().len() == old(self).spec_names().len() + 1,
            final(self).spec_names().drop_last() == old(self).spec_names(),
            final(self).spec_names().last()@ == candidate.spec_describe(),
            final(self).spec_failures() == old(self).spec_failures(),
            final(self).spec_tried() == old(self).spec_tried(),
            final(self).spec_active() == old(self).spec_active(),
            !final(self).spec_started(),
    {
        let name = candidate.describe();
        self.names.push(name);
        self.candidates.push(candidate);
        proof {
            assert(self.names@.drop_last() =~= old(self).names@);
        }
    }

    pub fn len(&self) -> (r: usize)
        ensures
            r == self.spec_names().len(),
    {
        self.names.len()
    }

    /// The active candidate's name, or "not yet bound" while none is.
    pub fn describe(&self) -> (r: String)
        requires
            self.wf(),
        ensures
            self.spec_active() is Some ==> r@ == self.spec_names()[self.spec_active()->Some_0 as int]@,
            self.spec_active() is None ==> r@ == "not yet bound"@,
    {
        match self.active {
            Some(i) => self.names[i].clone(),
            None => String::from_str("not yet bound"),
        }
    }

    /// Starts the one `listen` of this listener: hands out the candidates,
    /// in priority order. A second call is refused with a bind error.
    pub fn begin_listen(&mut self) -> (r: Result<Vec<EndpointListener>, ListenError>)
        requires
            old(self).wf(),
        ensures
            final(self).wf(),
            !old(self).spec_started() ==> r is Ok && r->Ok_0@ == old(self).spec_candidates()
                && final(self).spec_candidates().len() == 0,
            old(self).spec_started() ==> r is Err && r->Err_0 == ListenError::Consumed
                && final(self).spec_candidates() == old(self).spec_candidates(),
            final(self).spec_started(),
            final(self).spec_names() == old(self).spec_names(),
            final(self).spec_failures() == old(self).spec_failures(),
            final(self).spec_tried() == old(self).spec_tried(),
            final(self).spec_active() == old(self).spec_active(),
    {
        if self.started {
            Err(ListenError::Consumed)
        } else {
            self.started = true;
            let mut taken: Vec<EndpointListener> = Vec::new();
            std::mem::swap(&mut taken, &mut self.candidates);
            Ok(taken)
        }
    }

    /// What to do next: serve the active candidate once there is one; else
    /// try the first candidate not yet tried; else give up.
    pub fn next_step(&self) -> (r: FailoverStep)
        requires
            self.wf(),
        ensures
            r == self.spec_step(),
    {
        match self.active {
            Some(i) => FailoverStep::Serve(i),
            None => if self.tried < self.names.len() {
                FailoverStep::Attempt(self.tried)
            } else {
                FailoverStep::Exhausted
            },
        }
    }

    /// Takes the bind result of the candidate that `next_step` said to try.
    /// Success makes it the active listener for good; a failure is kept and
    /// the next candidate comes up.
    pub fn record_bind(&mut self, bound: Result<(), ListenError>)
        requires
            old(self).wf(),
            old(self).spec_step() is Attempt,
        ensures
            final(self).wf(),
            final(self).spec_names() == old(self).spec_names(),
            final(self).spec_candidates() == old(self).spec_candidates(),
            final(self).spec_started() == old(self).spec_started(),
            bound is Ok ==> final(self).spec_active() == Some(old(self).spec_tried() as usize)
                && final(self).spec_tried() == old(self).spec_tried()
                && final(self).spec_failures() == old(self).spec_failures(),
            bound is Err ==> final(self).spec_active() is None
                && final(self).spec_tried() == old(self).spec_tried() + 1
                && final(self).spec_failures() == old(self).spec_failures().push(bound->Err_0),
    {
        match bound {
            Ok(()) => {
                self.active = Some(self.tried);
            },
            Err(e) => {
                assert(self.tried < self.names.len());
                self.failures.push(e);
                self.tried = self.tried + 1;
            },
        }
    }

    /// The composite's error once every candidate failed to bind: all their
    /// bind errors, in priority order.
    pub fn take_failures(&mut self) -> (r: ListenError)
        requires
            old(self).wf(),
            old(self).spec_step() is Exhausted,
        ensures
            final(self).wf(),
            r == ListenError::Composite(r->Composite_0),
            r->Composite_0@ == old(self).spec_failures(),
            final(self).spec_failures().len() == 0,
            final(self).spec_step() is Exhausted,
            final(self).spec_names() == old(self).spec_names(),
            final(self).spec_tried() == old(self).spec_tried(),
            final(self).spec_active() == old(self).spec_active(),
    {
        let mut taken: Vec<ListenError> = Vec::new();
        std::mem::swap(&mut taken, &mut self.failures);
        ListenError::Composite(taken)
    }
}

/// How many candidates failed and which one is active after the bind
/// outcomes `binds` (true: it bound), each taken as `record_bind` takes it:
/// only while the next step is an attempt.
pub open spec fn after_binds(n: nat, binds: Seq<bool>) -> (nat, Option<usize>)
    decreases binds.len(),
{
    if binds.len() == 0 {
        (0, None)
    } else {
        let (tried, active) = after_binds(n, binds.drop_last());
        if failover_step(n, tried, active) is Attempt {
            if binds.last() {
                (tried, Some(tried as usize))
            } else {
                (tried + 1, active)
            }
        } else {
            (tried, active)
        }
    }
}

proof fn lemma_all_failed(n: nat, binds: Seq<bool>)
    requires
        binds.len() <= n,
        forall|j: int| 0 <= j < binds.len() ==> !(#[trigger] binds[j]),
    ensures
        after_binds(n, binds) == (binds.len(), Option::<usize>::None),
    decreases binds.len(),
{
    if binds.len() > 0 {
        lemma_all_failed(n, binds.drop_last());
    }
}

/// Failover serves the first candidate that binds: when candidates before
/// `k` all failed and candidate `k` bound, candidate `k` is active and
/// served, whatever outcomes follow, so no later candidate is attempted.
pub proof fn lemma_first_bound_is_served(n: nat, binds: Seq<bool>, k: int)
    requires
        n <= usize::MAX,
        0 <= k < n,
        k < binds.len(),
        binds[k],
        forall|j: int| 0 <= j < k ==> !(#[trigger] binds[j]),
    ensures
        after_binds(n, binds) == (k as nat, Some(k as usize)),
        failover_step(n, k as nat, Some(k as usize)) == FailoverStep::Serve(k as usize),
    decreases binds.len(),
{
    if binds.len() == k + 1 {
        let prefix = binds.drop_last();
        assert forall|j: int| 0 <= j < prefix.len() implies !(#[trigger] prefix[j]) by {
            assert(prefix[j] == binds[j]);
        }
        lemma_all_failed(n, prefix);
    } else {
        let prefix = binds.drop_last();
        assert(prefix[k] == binds[k]);
        assert forall|j: int| 0 <= j < k implies !(#[trigger] prefix[j]) by {
            assert(prefix[j] == binds[j]);
        }
        lemma_first_bound_is_served(n, prefix, k);
    }
}

/// When every one of the `n` candidates fails to bind, none is served: the
/// listener is exhausted with `n` failures.
pub proof fn lemma_all_failed_is_exhausted(n: nat, binds: Seq<bool>)
    requires
        binds.len() == n,
        forall|j: int| 0 <= j < n ==> !(#[trigger] binds[j]),
    ensures
        after_binds(n, binds) == (n, Option::<usize>::None),
        failover_step(n, n, None) == FailoverStep::Exhausted,
{
    lemma_all_failed(n, binds);
}

} // verus!
