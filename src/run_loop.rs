use std::collections::VecDeque;
use vstd::prelude::*;

use crate::control_flow::{
    lemma_outcome_applies, settle_control_flow, settled, settled_all, ControlFlow,
    ControlFlowHandle, StartCause,
};
use crate::event::{delivered, Event, QueuedEvent};
use crate::platform::WindowId;

verus! {

/// The state of the run loop between two toolkit iterations.
#[derive(Debug, Copy, Clone, PartialEq, Eq, Structural)]
pub enum LoopState {
    /// About to decide how the next iteration starts.
    NewStart,
    /// Delivering queued events.
    EventQueue,
    /// Delivering at most one redraw request.
    DrawQueue,
    /// `LoopDestroyed` has been delivered; the loop is over.
    Destroyed,
}

/// How far a stream of delivered events has gone through the order
/// `NewEvents, payload*, MainEventsCleared, RedrawRequested?, RedrawEventsCleared`.
pub enum Phase {
    /// Between two iterations.
    Idle,
    /// After `NewEvents`, while payload events are delivered.
    Main,
    /// After `MainEventsCleared`.
    Draw,
    /// After `RedrawRequested`.
    Redrawn,
    /// After `LoopDestroyed`.
    Ended,
    /// The stream broke the order.
    Broken,
}

/// Events that the run loop forwards from the event channel.
pub open spec fn is_payload<T>(e: Event<T>) -> bool {
    match e {
        Event::NewEvents(cause) => cause is Init,
        Event::WindowEvent { .. } => true,
        Event::UserEvent(_) => true,
        _ => false,
    }
}

/// One step of the order automaton.
pub open spec fn advance<T>(p: Phase, e: Event<T>) -> Phase {
    match p {
        Phase::Idle => match e {
            Event::NewEvents(cause) => if cause is Init {
                Phase::Broken
            } else {
                Phase::Main
            },
            Event::LoopDestroyed => Phase::Ended,
            _ => Phase::Broken,
        },
        Phase::Main => if is_payload(e) {
            Phase::Main
        } else {
            match e {
                Event::MainEventsCleared => Phase::Draw,
                Event::LoopDestroyed => Phase::Ended,
                _ => Phase::Broken,
            }
        },
        Phase::Draw => match e {
            Event::RedrawRequested(_) => Phase::Redrawn,
            Event::RedrawEventsCleared => Phase::Idle,
            Event::LoopDestroyed => Phase::Ended,
            _ => Phase::Broken,
        },
        Phase::Redrawn => match e {
            Event::RedrawEventsCleared => Phase::Idle,
            _ => Phase::Broken,
        },
        _ => Phase::Broken,
    }
}

/// Where the order automaton stands after the given events, from the start.
pub open spec fn phase_after<T>(es: Seq<Event<T>>) -> Phase
    decreases es.len(),
{
    if es.len() == 0 {
        Phase::Idle
    } else {
        advance(phase_after(es.drop_last()), es.last())
    }
}

/// The phase that each loop state stands for.
pub open spec fn phase_of(s: LoopState) -> Phase {
    match s {
        LoopState::NewStart => Phase::Idle,
        LoopState::EventQueue => Phase::Main,
        LoopState::DrawQueue => Phase::Draw,
        LoopState::Destroyed => Phase::Ended,
    }
}

/// Every iteration delivered so far follows
/// `NewEvents, payload*, MainEventsCleared, RedrawRequested?, RedrawEventsCleared`,
/// possibly cut short by a final `LoopDestroyed`.
pub open spec fn follows_lifecycle<T>(es: Seq<Event<T>>) -> bool {
    !(phase_after(es) is Broken)
}

/// `LoopDestroyed` occurs at most once, and only as the last event.
pub open spec fn destroyed_only_last<T>(es: Seq<Event<T>>) -> bool {
    forall|i: int| 0 <= i < es.len() && #[trigger] es[i] is LoopDestroyed ==> i == es.len() - 1
}

/// What one turn of the loop does, given the state, the control flow, the
/// contents of the event and draw channels and the time.
pub struct Turn<T> {
    /// The events handed to the callback, in order.
    pub events: Seq<Event<T>>,
    /// Whether the toolkit iteration that follows may block.
    pub blocking: bool,
    /// The exit code, once the loop has ended.
    pub exit: Option<i32>,
    pub state: LoopState,
    pub control_flow: ControlFlow,
    pub queue: Seq<QueuedEvent<T>>,
    pub draws: Seq<WindowId>,
}

pub open spec fn turn_of<T>(
    events: Seq<Event<T>>,
    blocking: bool,
    exit: Option<i32>,
    state: LoopState,
    control_flow: ControlFlow,
    queue: Seq<QueuedEvent<T>>,
    draws: Seq<WindowId>,
) -> Turn<T> {
    Turn { events, blocking, exit, state, control_flow, queue, draws }
}

/// The transition table of the run loop.
pub open spec fn turn<T>(
    state: LoopState,
    cf: ControlFlow,
    queue: Seq<QueuedEvent<T>>,
    draws: Seq<WindowId>,
    now: u64,
) -> Turn<T> {
    match cf {
        ControlFlow::ExitWithCode(code) => turn_of(
            seq![Event::LoopDestroyed],
            false,
            Some(code),
            LoopState::Destroyed,
            cf,
            queue,
            draws,
        ),
        _ => match state {
            LoopState::NewStart => match cf {
                ControlFlow::Wait => if queue.len() > 0 {
                    turn_of(
                        seq![
                            Event::NewEvents(
                                StartCause::WaitCancelled { start: now, requested_resume: None },
                            ),
                        ],
                        false,
                        None,
                        LoopState::EventQueue,
                        cf,
                        queue,
                        draws,
                    )
                } else {
                    turn_of(seq![], true, None, state, cf, queue, draws)
                },
                ControlFlow::WaitUntil(t) => if now >= t {
                    turn_of(
                        seq![
                            Event::NewEvents(
                                StartCause::ResumeTimeReached { start: now, requested_resume: t },
                            ),
                        ],
                        false,
                        None,
                        LoopState::EventQueue,
                        cf,
                        queue,
                        draws,
                    )
                } else if queue.len() > 0 {
                    turn_of(
                        seq![
                            Event::NewEvents(
                                StartCause::WaitCancelled { start: now, requested_resume: Some(t) },
                            ),
                        ],
                        false,
                        None,
                        LoopState::EventQueue,
                        cf,
                        queue,
                        draws,
                    )
                } else {
                    turn_of(seq![], true, None, state, cf, queue, draws)
                },
                _ => turn_of(
                    seq![Event::NewEvents(StartCause::Poll)],
                    false,
                    None,
                    LoopState::EventQueue,
                    cf,
                    queue,
                    draws,
                ),
            },
            LoopState::EventQueue => if queue.len() == 0 {
                turn_of(
                    seq![Event::MainEventsCleared],
                    false,
                    None,
                    LoopState::DrawQueue,
                    cf,
                    queue,
                    draws,
                )
            } else if queue[0] is LoopDestroyed {
                turn_of(
                    seq![],
                    false,
                    None,
                    state,
                    ControlFlow::ExitWithCode(1),
                    queue.drop_first(),
                    draws,
                )
            } else {
                turn_of(
                    seq![delivered(queue[0])],
                    false,
                    None,
                    state,
                    cf,
                    queue.drop_first(),
                    draws,
                )
            },
            LoopState::DrawQueue => if draws.len() == 0 {
                turn_of(
                    seq![Event::RedrawEventsCleared],
                    false,
                    None,
                    LoopState::NewStart,
                    cf,
                    queue,
                    draws,
                )
            } else {
                turn_of(
                    seq![Event::RedrawRequested(draws[0]), Event::RedrawEventsCleared],
                    false,
                    None,
                    LoopState::NewStart,
                    cf,
                    queue,
                    draws.drop_first(),
                )
            },
            LoopState::Destroyed => turn_of(seq![], false, None, state, cf, queue, draws),
        },
    }
}

proof fn lemma_phase_push<T>(es: Seq<Event<T>>, e: Event<T>)
    ensures
        phase_after(es.push(e)) == advance(phase_after(es), e),
{
    assert(es.push(e).drop_last() =~= es);
}

/// Appending one or two events advances the order automaton by those events.
proof fn lemma_phase_append<T>(es: Seq<Event<T>>, more: Seq<Event<T>>)
    ensures
        more.len() == 1 ==> phase_after(es + more) == advance(phase_after(es), more[0]),
        more.len() == 2 ==> phase_after(es + more) == advance(
            advance(phase_after(es), more[0]),
            more[1],
        ),
{
    if more.len() == 1 {
        assert(es + more =~= es.push(more[0]));
        lemma_phase_push(es, more[0]);
    } else if more.len() == 2 {
        assert(es + more =~= es.push(more[0]).push(more[1]));
        lemma_phase_push(es, more[0]);
        lemma_phase_push(es.push(more[0]), more[1]);
    }
}

proof fn lemma_order_ends_with_destroyed<T>(es: Seq<Event<T>>)
    requires
        follows_lifecycle(es),
    ensures
        destroyed_only_last(es),
        (phase_after(es) is Ended) == (es.len() > 0 && es.last() is LoopDestroyed),
    decreases es.len(),
{
    if es.len() > 0 {
        let prefix = es.drop_last();
        assert(prefix.push(es.last()) =~= es);
        lemma_phase_push(prefix, es.last());
        lemma_order_ends_with_destroyed(prefix);
        assert forall|i: int| 0 <= i < es.len() && #[trigger] es[i] is LoopDestroyed implies i
            == es.len() - 1 by {
            if i < es.len() - 1 {
                assert(prefix[i] == es[i]);
            }
        }
    }
}

/// Whatever control flow the callback sets, every iteration delivered so far
/// follows `NewEvents, payload*, MainEventsCleared, RedrawRequested?,
/// RedrawEventsCleared`; `LoopDestroyed` is delivered at most once, only as
/// the last event, and exactly when the loop is over.
pub proof fn lemma_lifecycle_order<T>(rl: &RunLoop<T>)
    requires
        rl.wf(),
    ensures
        follows_lifecycle(rl.history()),
        destroyed_only_last(rl.history()),
        (rl.loop_state() == LoopState::Destroyed) == (rl.history().len() > 0
            && rl.history().last() is LoopDestroyed),
{
    lemma_order_ends_with_destroyed(rl.history());
}

/// Once the control flow is `ExitWithCode(code)`, the next turn delivers
/// `LoopDestroyed` alone and ends the loop with `code`.
pub proof fn lemma_exit_ends_loop<T>(
    state: LoopState,
    code: i32,
    queue: Seq<QueuedEvent<T>>,
    draws: Seq<WindowId>,
    now: u64,
)
    ensures
        ({
            let t = turn(state, ControlFlow::ExitWithCode(code), queue, draws, now);
            &&& t.events == seq![Event::<T>::LoopDestroyed]
            &&& t.exit == Some(code)
            &&& t.state == LoopState::Destroyed
        }),
{
}

/// A redraw turn delivers exactly the oldest waiting redraw request and keeps
/// the others, in order, for later turns.
pub proof fn lemma_one_redraw_per_turn<T>(
    cf: ControlFlow,
    queue: Seq<QueuedEvent<T>>,
    draws: Seq<WindowId>,
    now: u64,
)
    requires
        !cf.is_exit_spec(),
        draws.len() > 0,
    ensures
        ({
            let t = turn(LoopState::DrawQueue, cf, queue, draws, now);
            &&& t.events == seq![
                Event::<T>::RedrawRequested(draws[0]),
                Event::<T>::RedrawEventsCleared,
            ]
            &&& t.draws == draws.subrange(1, draws.len() as int)
            &&& t.state == LoopState::NewStart
        }),
{
}

/// With `WaitUntil(deadline)` and no waiting event, a turn before the deadline
/// delivers nothing and blocks; a turn at or after it delivers exactly one
/// `NewEvents(ResumeTimeReached)`.
pub proof fn lemma_wait_until<T>(deadline: u64, draws: Seq<WindowId>, now: u64)
    ensures
        ({
            let t = turn(
                LoopState::NewStart,
                ControlFlow::WaitUntil(deadline),
                Seq::<QueuedEvent<T>>::empty(),
                draws,
                now,
            );
            &&& now < deadline ==> t.events.len() == 0 && t.blocking && t.state
                == LoopState::NewStart
            &&& now >= deadline ==> t.events == seq![
                Event::<T>::NewEvents(
                    StartCause::ResumeTimeReached { start: now, requested_resume: deadline },
                ),
            ] && !t.blocking && t.state == LoopState::EventQueue
        }),
{
}

/// The toolkit is told to block only at the start of an iteration, under
/// `Wait` or `WaitUntil`, when no event waits and nothing is delivered.
pub proof fn lemma_blocks_only_when_idle<T>(
    state: LoopState,
    cf: ControlFlow,
    queue: Seq<QueuedEvent<T>>,
    draws: Seq<WindowId>,
    now: u64,
)
    ensures
        ({
            let t = turn(state, cf, queue, draws, now);
            t.blocking ==> {
                &&& state == LoopState::NewStart
                &&& (cf is Wait || cf is WaitUntil)
                &&& queue.len() == 0
                &&& t.events.len() == 0
                &&& t.state == state
                &&& t.control_flow == cf
                &&& t.queue == queue
                &&& t.draws == draws
            }
        }),
{
}

/// Redraw requests leave their queue only from the front, one per turn, and
/// only in a turn that delivers them: a turn either keeps the redraw queue
/// and delivers no `RedrawRequested`, or delivers exactly the oldest request
/// and keeps the rest in order. Hence the waiting requests are delivered one
/// per iteration, in the order they were made.
pub proof fn lemma_redraws_leave_in_order<T>(
    state: LoopState,
    cf: ControlFlow,
    queue: Seq<QueuedEvent<T>>,
    draws: Seq<WindowId>,
    now: u64,
)
    ensures
        ({
            let t = turn(state, cf, queue, draws, now);
            ||| t.draws == draws && forall|i: int|
                0 <= i < t.events.len() ==> !(#[trigger] t.events[i] is RedrawRequested)
            ||| {
                &&& state == LoopState::DrawQueue
                &&& draws.len() > 0
                &&& t.draws == draws.drop_first()
                &&& t.events == seq![
                    Event::<T>::RedrawRequested(draws[0]),
                    Event::<T>::RedrawEventsCleared,
                ]
            }
        }),
{
    let t = turn(state, cf, queue, draws, now);
    if t.draws == draws {
        assert forall|i: int| 0 <= i < t.events.len() implies !(
        #[trigger] t.events[i] is RedrawRequested) by {
            if state == LoopState::EventQueue && queue.len() > 0 && !cf.is_exit_spec() {
                assert(t.events[i] == delivered(queue[0]));
            }
        }
    }
}

/// What one turn asks of the code that drives the toolkit: hand `events` to
/// the callback in order, then run one toolkit iteration, blocking if
/// `blocking`; stop with the code in `exit` once it is set.
pub struct Step<T> {
    pub events: Vec<Event<T>>,
    pub blocking: bool,
    pub exit: Option<i32>,
}

/// The run loop's state machine together with the events and redraw requests
/// that wait for it.
pub struct RunLoop<T> {
    state: LoopState,
    control_flow: ControlFlow,
    events: VecDeque<QueuedEvent<T>>,
    draws: VecDeque<WindowId>,
    delivered: Ghost<Seq<Event<T>>>,
}

impl<T> RunLoop<T> {
    pub closed spec fn loop_state(&self) -> LoopState {
        self.state
    }

    pub closed spec fn flow(&self) -> ControlFlow {
        self.control_flow
    }

    /// The events waiting on the event channel, oldest first.
    pub closed spec fn queue(&self) -> Seq<QueuedEvent<T>> {
        self.events@
    }

    /// The windows waiting for a redraw, oldest first.
    pub closed spec fn redraws(&self) -> Seq<WindowId> {
        self.draws@
    }

    /// Every event handed to the callback so far, in order.
    pub closed spec fn history(&self) -> Seq<Event<T>> {
        self.delivered@
    }

    pub closed spec fn wf(&self) -> bool {
        phase_after(self.delivered@) == phase_of(self.state)
    }

    pub fn new() -> (r: Self)
        ensures
            r.wf(),
            r.loop_state() == LoopState::NewStart,
            r.flow() == ControlFlow::Poll,
            r.queue() == Seq::<QueuedEvent<T>>::empty(),
            r.redraws() == Seq::<WindowId>::empty(),
            r.history() == Seq::<Event<T>>::empty(),
    {
        RunLoop {
            state: LoopState::NewStart,
            control_flow: ControlFlow::Poll,
            events: VecDeque::new(),
            draws: VecDeque::new(),
            delivered: Ghost(Seq::empty()),
        }
    }

    pub fn state(&self) -> (r: LoopState)
        ensures
            r == self.loop_state(),
    {
        self.state
    }

    pub fn control_flow(&self) -> (r: ControlFlow)
        ensures
            r == self.flow(),
    {
        self.control_flow
    }

    /// Whether an event waits on the event channel.
    pub fn has_pending_events(&self) -> (r: bool)
        ensures
            r == (self.queue().len() > 0),
    {
        self.events.len() > 0
    }

    /// Appends an event that arrived on the event channel.
    pub fn push_event(&mut self, event: QueuedEvent<T>)
        requires
            old(self).wf(),
        ensures
            final(self).wf(),
            final(self).queue() == old(self).queue().push(event),
            final(self).redraws() == old(self).redraws(),
            final(self).loop_state() == old(self).loop_state(),
            final(self).flow() == old(self).flow(),
            final(self).history() == old(self).history(),
    {
        self.events.push_back(event);
    }

    /// Appends a window that asked for a redraw.
    pub fn push_redraw(&mut self, id: WindowId)
        requires
            old(self).wf(),
        ensures
            final(self).wf(),
            final(self).redraws() == old(self).redraws().push(id),
            final(self).queue() == old(self).queue(),
            final(self).loop_state() == old(self).loop_state(),
            final(self).flow() == old(self).flow(),
            final(self).history() == old(self).history(),
    {
        self.draws.push_back(id);
    }

    /// Records the control flow that the callback asked for. An exit that is
    /// already in force stays.
    pub fn set_control_flow(&mut self, requested: ControlFlow)
        requires
            old(self).wf(),
        ensures
            final(self).wf(),
            final(self).flow() == settled(old(self).flow(), requested),
            final(self).queue() == old(self).queue(),
            final(self).redraws() == old(self).redraws(),
            final(self).loop_state() == old(self).loop_state(),
            final(self).history() == old(self).history(),
    {
        self.control_flow = settle_control_flow(self.control_flow, requested);
    }
    /// The handle to pass to the callback for one event: it starts from the
    /// control flow in force.
    pub fn control_flow_handle(&self) -> (r: ControlFlowHandle)
        ensures
            r.value() == self.flow(),
            r.start() == self.flow(),
            r.writes() == Seq::<ControlFlow>::empty(),
    {
        ControlFlowHandle::new(self.control_flow)
    }

    /// Takes back the handle of a finished callback invocation. When the
    /// handle was made from this loop, the control flow becomes what the
    /// invocation's writes settle to, so an exit written at any point of it
    /// holds.
    pub fn finish_callback(&mut self, handle: ControlFlowHandle)
        requires
            old(self).wf(),
        ensures
            final(self).wf(),
            final(self).flow() == settled(old(self).flow(), handle.value()),
            handle.start() == old(self).flow() ==> final(self).flow() == settled_all(
                old(self).flow(),
                handle.writes(),
            ),
            final(self).queue() == old(self).queue(),
            final(self).redraws() == old(self).redraws(),
            final(self).loop_state() == old(self).loop_state(),
            final(self).history() == old(self).history(),
    {
        let value = handle.get();
        proof {
            lemma_outcome_applies(handle.start(), handle.writes());
        }
        self.control_flow = settle_control_flow(self.control_flow, value);
    }

    /// Runs one turn of the loop: decides from the state, the control flow and
    /// the waiting events what the callback receives next. `now` is the
    /// current instant on the loop's clock.
    pub fn step(&mut self, now: u64) -> (r: Step<T>)
        requires
            old(self).wf(),
            old(self).loop_state() != LoopState::Destroyed,
        ensures
            final(self).wf(),
            ({
                let t = turn(
                    old(self).loop_state(),
                    old(self).flow(),
                    old(self).queue(),
                    old(self).redraws(),
                    now,
                );
                &&& r.events@ == t.events
                &&& r.blocking == t.blocking
                &&& r.exit == t.exit
                &&& final(self).loop_state() == t.state
                &&& final(self).flow() == t.control_flow
                &&& final(self).queue() == t.queue
                &&& final(self).redraws() == t.draws
            }),
            final(self).history() == old(self).history() + r.events@,
    {
        let mut out: Vec<Event<T>> = Vec::new();
        let mut blocking = false;
        let mut exit: Option<i32> = None;
        match self.control_flow {
            ControlFlow::ExitWithCode(code) => {
                out.push(Event::LoopDestroyed);
                exit = Some(code);
                self.state = LoopState::Destroyed;
            },
            _ => match self.state {
                LoopState::NewStart => match self.control_flow {
                    ControlFlow::Wait => {
                        if self.events.len() > 0 {
                            out.push(
                                Event::NewEvents(
                                    StartCause::WaitCancelled {
                                        start: now,
                                        requested_resume: None,
                                    },
                                ),
                            );
                            self.state = LoopState::EventQueue;
                        } else {
                            blocking = true;
                        }
                    },
                    ControlFlow::WaitUntil(t) => {
                        if now >= t {
                            out.push(
                                Event::NewEvents(
                                    StartCause::ResumeTimeReached {
                                        start: now,
                                        requested_resume: t,
                                    },
                                ),
                            );
                            self.state = LoopState::EventQueue;
                        } else if self.events.len() > 0 {
                            out.push(
                                Event::NewEvents(
                                    StartCause::WaitCancelled {
                                        start: now,
                                        requested_resume: Some(t),
                                    },
                                ),
                            );
                            self.state = LoopState::EventQueue;
                        } else {
                            blocking = true;
                        }
                    },
                    _ => {
                        out.push(Event::NewEvents(StartCause::Poll));
                        self.state = LoopState::EventQueue;
                    },
                },
                LoopState::EventQueue => match self.events.pop_front() {
                    Some(QueuedEvent::LoopDestroyed) => {
                        self.control_flow = ControlFlow::ExitWithCode(1);
                    },
                    Some(q) => {
                        out.push(q.into_event());
                    },
                    None => {
                        out.push(Event::MainEventsCleared);
                        self.state = LoopState::DrawQueue;
                    },
                },
                LoopState::DrawQueue => {
                    if let Some(id) = self.draws.pop_front() {
                        out.push(Event::RedrawRequested(id));
                    }
                    out.push(Event::RedrawEventsCleared);
                    self.state = LoopState::NewStart;
                },
                LoopState::Destroyed => {},
            },
        }
        proof {
            lemma_phase_append(self.delivered@, out@);
            self.delivered = Ghost(self.delivered@ + out@);
            assert(self.delivered@ =~= old(self).history() + out@);
        }
        Step { events: out, blocking, exit }
    }
}

} // verus!
