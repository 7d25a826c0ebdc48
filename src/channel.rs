use crossbeam_channel::{Receiver, Sender};
use vstd::prelude::*;

use crate::event::QueuedEvent;
use crate::platform::WindowId;
use crate::run_loop::RunLoop;

verus! {

#[verifier::external_type_specification]
#[verifier::external_body]
#[verifier::reject_recursive_types(T)]
pub struct ExSender<T>(Sender<T>);

#[verifier::external_type_specification]
#[verifier::external_body]
#[verifier::reject_recursive_types(T)]
pub struct ExReceiver<T>(Receiver<T>);

/// Relies on crossbeam_channel::Sender::send: a message that cannot be
/// delivered, because every receiver is gone, comes back in the error. On a
/// bounded channel the call may block until there is room; the channels this
/// library sends on are unbounded.
#[verifier::external_body]
fn channel_send<T>(tx: &Sender<T>, msg: T) -> (r: Result<(), T>)
    ensures
        r matches Err(m) ==> m == msg,
{
    tx.send(msg).map_err(|e| e.into_inner())
}

/// Relies on crossbeam_channel::Receiver::try_recv: takes the oldest message
/// if one is there, without blocking. Other threads may send at any time, so
/// nothing is promised of which outcome comes back.
#[verifier::external_body]
fn channel_try_recv<T>(rx: &Receiver<T>) -> (r: Option<T>) {
    rx.try_recv().ok()
}

/// Relies on crossbeam_channel::Receiver::len: the number of messages in the
/// channel at the moment of the call.
#[verifier::external_body]
fn channel_len<T>(rx: &Receiver<T>) -> (r: usize) {
    rx.len()
}

/// Relies on crossbeam_channel::Sender::clone: a second handle on the same
/// channel.
#[verifier::external_body]
fn channel_clone_sender<T>(tx: &Sender<T>) -> (r: Sender<T>) {
    tx.clone()
}

impl<T> RunLoop<T> {
    /// Moves the messages that wait on the event and draw channels into the
    /// loop's queues, keeping their order behind what already waits there.
    pub fn receive(&mut self, events: &Receiver<QueuedEvent<T>>, draws: &Receiver<WindowId>)
        requires
            old(self).wf(),
        ensures
            final(self).wf(),
            old(self).queue().is_prefix_of(final(self).queue()),
            old(self).redraws().is_prefix_of(final(self).redraws()),
            final(self).loop_state() == old(self).loop_state(),
            final(self).flow() == old(self).flow(),
            final(self).history() == old(self).history(),
    {
        let n = channel_len(events);
        let mut i: usize = 0;
        while i < n
            invariant
                self.wf(),
                old(self).queue().is_prefix_of(self.queue()),
                self.redraws() == old(self).redraws(),
                self.loop_state() == old(self).loop_state(),
                self.flow() == old(self).flow(),
                self.history() == old(self).history(),
            decreases n - i,
        {
            match channel_try_recv(events) {
                Some(q) => self.push_event(q),
                None => break,
            }
            i = i + 1;
        }
        let m = channel_len(draws);
        let mut j: usize = 0;
        while j < m
            invariant
                self.wf(),
                old(self).queue().is_prefix_of(self.queue()),
                old(self).redraws().is_prefix_of(self.redraws()),
                self.loop_state() == old(self).loop_state(),
                self.flow() == old(self).flow(),
                self.history() == old(self).history(),
            decreases m - j,
        {
            match channel_try_recv(draws) {
                Some(id) => self.push_redraw(id),
                None => break,
            }
            j = j + 1;
        }
    }
}

/// Sends each event in order on the event channel. A send that fails because
/// the loop is gone drops its event; returns how many were dropped.
pub fn send_all<T>(tx: &Sender<QueuedEvent<T>>, events: Vec<QueuedEvent<T>>) -> (r: usize)
    ensures
        r <= events.len(),
{
    let mut dropped: usize = 0;
    let mut rest = events;
    let ghost n = rest.len();
    while rest.len() > 0
        invariant
            dropped + rest.len() <= n,
        decreases rest.len(),
    {
        let e = rest.remove(0);
        if channel_send(tx, e).is_err() {
            dropped = dropped + 1;
        }
    }
    dropped
}

/// Sends a redraw request for `id` on the draw channel; false when the loop
/// is gone.
pub fn send_redraw(tx: &Sender<WindowId>, id: WindowId) -> (r: bool) {
    channel_send(tx, id).is_ok()
}

/// The event a proxy could not deliver because the loop is gone.
#[derive(Debug)]
pub struct EventLoopClosed<T>(pub T);

/// Lets any thread hand user events to the run loop.
#[verifier::reject_recursive_types(T)]
pub struct EventLoopProxy<T> {
    user_event_tx: Sender<QueuedEvent<T>>,
}

impl<T> Clone for EventLoopProxy<T> {
    fn clone(&self) -> (r: Self) {
        EventLoopProxy { user_event_tx: channel_clone_sender(&self.user_event_tx) }
    }
}

impl<T> EventLoopProxy<T> {
    pub fn new(user_event_tx: Sender<QueuedEvent<T>>) -> (r: Self) {
        EventLoopProxy { user_event_tx }
    }

    /// Queues `event` as a user event. When the loop is gone the event comes
    /// back unchanged in the error.
    pub fn send_event(&self, event: T) -> (r: Result<(), EventLoopClosed<T>>)
        ensures
            r matches Err(EventLoopClosed(e)) ==> e == event,
    {
        match channel_send(&self.user_event_tx, QueuedEvent::User(event)) {
            Ok(()) => Ok(()),
            Err(QueuedEvent::User(e)) => Err(EventLoopClosed(e)),
            Err(_) => {
                proof {
                    assert(false);
                }
                Ok(())
            },
        }
    }
}

} // verus!
