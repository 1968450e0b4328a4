use vstd::prelude::*;
use crate::endpoint::EndpointListener;
use crate::error::ListenError;
use crate::names::{join, join_names};

verus! {

/// Several endpoints served at once as one listener: every child binds and
/// runs its own accept loop, and a child's failure stops no sibling.
#[derive(Debug)]
pub struct ConcurrentListener {
    children: Vec<EndpointListener>,
    names: Vec<String>,
    started: bool,
}

/// The errors among the children's outcomes, in the children's order.
pub open spec fn errors_of(outcomes: Seq<Option<Result<(), ListenError>>>) -> Seq<ListenError>
    decreases outcomes.len(),
{
    if outcomes.len() == 0 {
        Seq::empty()
    } else {
        let rest = errors_of(outcomes.drop_first());
        match outcomes[0] {
            Some(Err(e)) => seq![e] + rest,
            _ => rest,
        }
    }
}

/// Every child's accept loop has ended.
pub open spec fn all_finished(outcomes: Seq<Option<Result<(), ListenError>>>) -> bool {
    forall|i: int| 0 <= i < outcomes.len() ==> (#[trigger] outcomes[i]) is Some
}

/// The composite's result: `Ok` when no child failed, else all the
/// children's errors together, in order.
pub open spec fn aggregate_ok(outcomes: Seq<Option<Result<(), ListenError>>>, r: Result<(), ListenError>) -> bool {
    match r {
        Ok(()) => errors_of(outcomes).len() == 0,
        Err(ListenError::Composite(v)) => errors_of(outcomes).len() > 0 && v@ == errors_of(outcomes),
        Err(_) => false,
    }
}

impl ConcurrentListener {
    pub closed spec fn spec_children(&self) -> Seq<EndpointListener> {
        self.children@
    }

    /// The children's log names, in order; kept after `listen` hands the
    /// children out.
    pub closed spec fn spec_names(&self) -> Seq<String> {
        self.names@
    }

    pub closed spec fn spec_started(&self) -> bool {
        self.started
    }

    pub open spec fn spec_describe(&self) -> Seq<char> {
        join_names(self.spec_names())
    }

    pub fn new() -> (l: ConcurrentListener)
        ensures
            l.spec_children() == Seq::<EndpointListener>::empty(),
            l.spec_names() == Seq::<String>::empty(),
            !l.spec_started(),
    {
        ConcurrentListener { children: Vec::new(), names: Vec::new(), started: false }
    }

    /// Appends a child; children are served in the order they were added.
    pub fn add(&mut self, child: EndpointListener)
        ensures
            final(self).spec_children() == old(self).spec_children().push(child),
            final(self).spec_names().len() == old(self).spec_names().len() + 1,
            final(self).spec_names().drop_last() == old(self).spec_names(),
            final(self).spec_names().last()@ == child.spec_describe(),
            final(self).spec_started() == old(self).spec_started(),
    {
        let name = child.describe();
        self.names.push(name);
        self.children.push(child);
        proof {
            assert(self.names@.drop_last() =~= old(self).names@);
        }
    }

    pub fn len(&self) -> (r: usize)
        ensures
            r == self.spec_names().len(),
    {
        self.names.len()
    }

    /// The children's names joined by ", ".
    pub fn describe(&self) -> (r: String)
        ensures
            r@ == self.spec_describe(),
    {
        join(&self.names)
    }

    /// Starts the one `listen` of this listener: hands out every child, in
    /// order, each to run its own accept loop. A second call is refused with
    /// a bind error.
    pub fn begin_listen(&mut self) -> (r: Result<Vec<EndpointListener>, ListenError>)
        ensures
            !old(self).spec_started() ==> r is Ok && r->Ok_0@ == old(self).spec_children()
                && final(self).spec_children().len() == 0,
            old(self).spec_started() ==> r is Err && r->Err_0 == ListenError::Consumed
                && final(self).spec_children() == old(self).spec_children(),
            final(self).spec_started(),
            final(self).spec_names() == old(self).spec_names(),
    {
        if self.started {
            Err(ListenError::Consumed)
        } else {
            self.started = true;
            let mut taken: Vec<EndpointListener> = Vec::new();
            std::mem::swap(&mut taken, &mut self.children);
            Ok(taken)
        }
    }
}

/// The outcomes of a concurrent listener's children while they run.
#[derive(Debug)]
pub struct ConcurrentRun {
    outcomes: Vec<Option<Result<(), ListenError>>>,
}

impl ConcurrentRun {
    pub closed spec fn spec_outcomes(&self) -> Seq<Option<Result<(), ListenError>>> {
        self.outcomes@
    }

    /// A run of `n` children, none of them finished.
    pub fn new(n: usize) -> (r: ConcurrentRun)
        ensures
            r.spec_outcomes().len() == n,
            forall|i: int| 0 <= i < n ==> (#[trigger] r.spec_outcomes()[i]) is None,
    {
        let mut outcomes: Vec<Option<Result<(), ListenError>>> = Vec::new();
        let mut i: usize = 0;
        while i < n
            invariant
                i <= n,
                outcomes@.len() == i,
                forall|j: int| 0 <= j < i ==> (#[trigger] outcomes@[j]) is None,
            decreases n - i,
        {
            outcomes.push(None);
            i = i + 1;
        }
        ConcurrentRun { outcomes }
    }

    /// Records how child `i`'s accept loop ended. The other children's
    /// outcomes are untouched: a failure, even a bind failure, ends no
    /// sibling's loop.
    pub fn record(&mut self, i: usize, result: Result<(), ListenError>)
        requires
            i < old(self).spec_outcomes().len(),
        ensures
            final(self).spec_outcomes() == old(self).spec_outcomes().update(i as int, Some(result)),
    {
        self.outcomes.set(i, Some(result));
    }

    /// True once every child's loop has ended; the composite returns only then.
    pub fn is_finished(&self) -> (r: bool)
        ensures
            r == all_finished(self.spec_outcomes()),
    {
        let mut i: usize = 0;
        while i < self.outcomes.len()
            invariant
                i <= self.outcomes@.len(),
                forall|j: int| 0 <= j < i ==> (#[trigger] self.outcomes@[j]) is Some,
            decreases self.outcomes.len() - i,
        {
            if self.outcomes[i].is_none() {
                return false;
            }
            i = i + 1;
        }
        true
    }

    /// The composite's result once all children have ended: `Ok` if none
    /// failed, else every child's error, in the children's order.
    pub fn into_result(self) -> (r: Result<(), ListenError>)
        requires
            all_finished(self.spec_outcomes()),
        ensures
            aggregate_ok(self.spec_outcomes(), r),
    {
        let ghost all = self.outcomes@;
        let mut outcomes = self.outcomes;
        let mut errors: Vec<ListenError> = Vec::new();
        while outcomes.len() > 0
            invariant
                errors@ + errors_of(outcomes@) == errors_of(all),
            decreases outcomes.len(),
        {
            let ghost before = outcomes@;
            let o = outcomes.remove(0);
            proof {
                assert(before.drop_first() =~= outcomes@);
            }
            match o {
                Some(Err(e)) => {
                    errors.push(e);
                    proof {
                        assert(errors@ + errors_of(outcomes@) =~= errors_of(all));
                    }
                },
                _ => {},
            }
        }
        proof {
            assert(errors@ =~= errors_of(all));
        }
        if errors.len() == 0 {
            Ok(())
        } else {
            Err(ListenError::Composite(errors))
        }
    }
}

/// No child's error is dropped: an error that ends child `i`'s loop is among
/// the composite's errors.
pub proof fn lemma_error_reported(outcomes: Seq<Option<Result<(), ListenError>>>, i: int, e: ListenError)
    requires
        0 <= i < outcomes.len(),
        outcomes[i] == Some(Err::<(), ListenError>(e)),
    ensures
        errors_of(outcomes).contains(e),
    decreases outcomes.len(),
{
    if i == 0 {
        assert(errors_of(outcomes)[0] == e);
    } else {
        lemma_error_reported(outcomes.drop_first(), i - 1, e);
        let rest = errors_of(outcomes.drop_first());
        let k = choose|k: int| 0 <= k < rest.len() && rest[k] == e;
        match outcomes[0] {
            Some(Err(h)) => assert(errors_of(outcomes)[k + 1] == e),
            _ => assert(errors_of(outcomes)[k] == e),
        }
    }
}

/// A child's failure ends no sibling: after child `i` fails, even to bind,
/// a sibling `j` that is still running stays so, the composite is not
/// finished, and child `i`'s error will be in its result.
pub proof fn lemma_failure_keeps_siblings(
    outcomes: Seq<Option<Result<(), ListenError>>>,
    i: int,
    j: int,
    e: ListenError,
)
    requires
        0 <= i < outcomes.len(),
        0 <= j < outcomes.len(),
        i != j,
        outcomes[j] is None,
    ensures
        outcomes.update(i, Some(Err::<(), ListenError>(e)))[j] is None,
        !all_finished(outcomes.update(i, Some(Err::<(), ListenError>(e)))),
        errors_of(outcomes.update(i, Some(Err::<(), ListenError>(e)))).contains(e),
{
    let after = outcomes.update(i, Some(Err::<(), ListenError>(e)));
    assert(after[j] is None);
    lemma_error_reported(after, i, e);
}

} // verus!
