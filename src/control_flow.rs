use vstd::prelude::*;

verus! {

/// How the run loop waits between two iterations, as chosen by the
/// application's callback.
///
/// Instants are nanoseconds on the loop's monotonic clock.
#[derive(Debug, Copy, Clone, PartialEq, Eq, Structural)]
pub enum ControlFlow {
    /// Start the next iteration at once.
    Poll,
    /// Sleep until a native event or a queued event arrives.
    Wait,
    /// Sleep until the given instant, or until an event arrives.
    WaitUntil(u64),
    /// Leave the loop with the given exit code.
    ExitWithCode(i32),
}

impl ControlFlow {
    pub open spec fn is_exit_spec(&self) -> bool {
        self is ExitWithCode
    }

    #[verifier::when_used_as_spec(is_exit_spec)]
    pub fn is_exit(&self) -> (r: bool)
        ensures
            r == self.is_exit_spec(),
    {
        match self {
            ControlFlow::ExitWithCode(_) => true,
            _ => false,
        }
    }
}

impl Default for ControlFlow {
    fn default() -> (r: Self)
        ensures
            r == ControlFlow::Poll,
    {
        ControlFlow::Poll
    }
}

/// The control flow that holds once a callback has asked for `requested`
/// while `current` was in force: an exit, once set, is never undone.
pub open spec fn settled(current: ControlFlow, requested: ControlFlow) -> ControlFlow {
    if current.is_exit_spec() {
        current
    } else {
        requested
    }
}

/// Applies a callback's request to the control flow in force, keeping an
/// exit that was already set.
pub fn settle_control_flow(current: ControlFlow, requested: ControlFlow) -> (r: ControlFlow)
    ensures
        r == settled(current, requested),
{
    if current.is_exit() {
        current
    } else {
        requested
    }
}

/// The control flow after a callback made the given requests in turn,
/// starting from `current`.
pub open spec fn settled_all(current: ControlFlow, requests: Seq<ControlFlow>) -> ControlFlow
    decreases requests.len(),
{
    if requests.len() == 0 {
        current
    } else {
        settled(settled_all(current, requests.drop_last()), requests.last())
    }
}

proof fn lemma_settled_all_push(current: ControlFlow, requests: Seq<ControlFlow>, r: ControlFlow)
    ensures
        settled_all(current, requests.push(r)) == settled(settled_all(current, requests), r),
{
    assert(requests.push(r).drop_last() =~= requests);
}

/// Requests made in two runs settle as if made in one.
proof fn lemma_settled_all_append(current: ControlFlow, a: Seq<ControlFlow>, b: Seq<ControlFlow>)
    ensures
        settled_all(current, a + b) == settled_all(settled_all(current, a), b),
    decreases b.len(),
{
    if b.len() == 0 {
        assert(a + b =~= a);
    } else {
        lemma_settled_all_append(current, a, b.drop_last());
        assert((a + b).drop_last() =~= a + b.drop_last());
    }
}

/// Once a callback has set `ExitWithCode(code)`, no later request in the
/// same invocation, whatever it asks for, changes the control flow again.
pub proof fn lemma_exit_is_sticky(code: i32, requests: Seq<ControlFlow>)
    ensures
        settled_all(ControlFlow::ExitWithCode(code), requests) == ControlFlow::ExitWithCode(code),
    decreases requests.len(),
{
    if requests.len() > 0 {
        lemma_exit_is_sticky(code, requests.drop_last());
    }
}

/// No exit is in force at the start and none is written before position `i`.
pub open spec fn no_exit_before(current: ControlFlow, writes: Seq<ControlFlow>, i: int) -> bool {
    !current.is_exit_spec() && forall|j: int| 0 <= j < i ==> !(#[trigger] writes[j]).is_exit_spec()
}

/// An exit that a callback writes at any point of an invocation is still in
/// force at its end, whatever it writes afterwards; the first exit written,
/// or the one already in force, is the one that holds.
pub proof fn lemma_written_exit_is_kept(current: ControlFlow, writes: Seq<ControlFlow>, i: int)
    requires
        0 <= i < writes.len(),
        writes[i].is_exit_spec(),
    ensures
        settled_all(current, writes).is_exit_spec(),
        no_exit_before(current, writes, i) ==> settled_all(current, writes) == writes[i],
{
    let head = writes.subrange(0, i);
    let tail = writes.subrange(i + 1, writes.len() as int);
    assert(writes =~= head.push(writes[i]) + tail);
    lemma_settled_all_append(current, head.push(writes[i]), tail);
    lemma_settled_all_push(current, head, writes[i]);
    let at = settled_all(current, head.push(writes[i]));
    assert(at.is_exit_spec());
    if let ControlFlow::ExitWithCode(code) = at {
        lemma_exit_is_sticky(code, tail);
    }
    if no_exit_before(current, writes, i) {
        lemma_no_exit_keeps_last(current, head);
    }
}

/// Requests that hold no exit, made while no exit is in force, leave the last
/// one in force (or the starting value when there are none), and no exit.
proof fn lemma_no_exit_keeps_last(current: ControlFlow, requests: Seq<ControlFlow>)
    requires
        !current.is_exit_spec(),
        forall|j: int| 0 <= j < requests.len() ==> !(#[trigger] requests[j]).is_exit_spec(),
    ensures
        !settled_all(current, requests).is_exit_spec(),
    decreases requests.len(),
{
    if requests.len() > 0 {
        lemma_no_exit_keeps_last(current, requests.drop_last());
    }
}

/// The control flow as a callback sees it during one invocation. Every write
/// goes through `settle_control_flow`, so an exit, once written or already in
/// force, cannot be undone within the invocation.
pub struct ControlFlowHandle {
    value: ControlFlow,
    start: Ghost<ControlFlow>,
    writes: Ghost<Seq<ControlFlow>>,
}

impl ControlFlowHandle {
    #[verifier::type_invariant]
    spec fn inv(&self) -> bool {
        self.value == settled_all(self.start@, self.writes@)
    }

    /// The control flow now in force.
    pub closed spec fn value(&self) -> ControlFlow {
        self.value
    }

    /// The control flow in force when the invocation began.
    pub closed spec fn start(&self) -> ControlFlow {
        self.start@
    }

    /// Every value the callback asked for so far, in order.
    pub closed spec fn writes(&self) -> Seq<ControlFlow> {
        self.writes@
    }

    pub fn new(current: ControlFlow) -> (r: Self)
        ensures
            r.value() == current,
            r.start() == current,
            r.writes() == Seq::<ControlFlow>::empty(),
    {
        ControlFlowHandle { value: current, start: Ghost(current), writes: Ghost(Seq::empty()) }
    }

    pub fn get(&self) -> (r: ControlFlow)
        ensures
            r == self.value(),
            r == settled_all(self.start(), self.writes()),
    {
        proof {
            use_type_invariant(self);
        }
        self.value
    }

    /// Asks for a control flow; an exit in force stays.
    pub fn set(&mut self, requested: ControlFlow)
        ensures
            final(self).value() == settled(old(self).value(), requested),
            final(self).start() == old(self).start(),
            final(self).writes() == old(self).writes().push(requested),
    {
        proof {
            use_type_invariant(&*self);
            lemma_settled_all_push(self.start@, self.writes@, requested);
        }
        let value = settle_control_flow(self.value, requested);
        *self = ControlFlowHandle {
            value,
            start: Ghost(self.start@),
            writes: Ghost(self.writes@.push(requested)),
        };
    }
}

/// Applying the outcome of an invocation to the control flow it started from
/// gives exactly what the invocation's writes settle to.
pub proof fn lemma_outcome_applies(start: ControlFlow, writes: Seq<ControlFlow>)
    ensures
        settled(start, settled_all(start, writes)) == settled_all(start, writes),
{
    if let ControlFlow::ExitWithCode(code) = start {
        lemma_exit_is_sticky(code, writes);
    }
}

/// Why a new iteration of the run loop started.
#[allow(inconsistent_fields)]
#[derive(Debug, Copy, Clone, PartialEq, Eq, Structural)]
pub enum StartCause {
    /// The deadline of `WaitUntil` has passed.
    ResumeTimeReached { start: u64, requested_resume: u64 },
    /// Events were waiting before the wait could begin or end.
    WaitCancelled { start: u64, requested_resume: Option<u64> },
    /// The control flow is `Poll`.
    Poll,
    /// The application has just been activated.
    Init,
}

} // verus!
