use winit_gtk::channel::send_all;
use winit_gtk::control_flow::settle_control_flow;
use winit_gtk::{
    ControlFlow, Event, EventLoopClosed, EventLoopProxy, LoopState, QueuedEvent, RunLoop,
    StartCause, Step, WindowEvent, WindowId,
};

fn step(rl: &mut RunLoop<u32>, now: u64) -> Step<u32> {
    rl.step(now)
}

/// Runs turns until the loop is back at the start of an iteration or over,
/// collecting every event.
fn run_iteration(rl: &mut RunLoop<u32>, now: u64) -> Vec<Event<u32>> {
    let mut all = Vec::new();
    loop {
        let s = step(rl, now);
        all.extend(s.events);
        if s.exit.is_some() || rl.state() == LoopState::NewStart || s.blocking {
            return all;
        }
    }
}

#[test]
fn poll_iteration_follows_lifecycle_order() {
    let mut rl: RunLoop<u32> = RunLoop::new();
    rl.push_event(QueuedEvent::User(1));
    rl.push_event(QueuedEvent::Window { window_id: WindowId(4), event: WindowEvent::Focused(true) });
    rl.push_redraw(WindowId(4));
    let events = run_iteration(&mut rl, 0);
    assert_eq!(
        events,
        vec![
            Event::NewEvents(StartCause::Poll),
            Event::UserEvent(1),
            Event::WindowEvent { window_id: WindowId(4), event: WindowEvent::Focused(true) },
            Event::MainEventsCleared,
            Event::RedrawRequested(WindowId(4)),
            Event::RedrawEventsCleared,
        ]
    );
}

#[test]
fn iteration_without_redraw_has_no_redraw_requested() {
    let mut rl: RunLoop<u32> = RunLoop::new();
    let events = run_iteration(&mut rl, 0);
    assert_eq!(
        events,
        vec![
            Event::NewEvents(StartCause::Poll),
            Event::MainEventsCleared,
            Event::RedrawEventsCleared,
        ]
    );
}

#[test]
fn init_event_is_delivered_as_new_events_init() {
    let mut rl: RunLoop<u32> = RunLoop::new();
    rl.push_event(QueuedEvent::Init);
    let events = run_iteration(&mut rl, 0);
    assert_eq!(events[1], Event::NewEvents(StartCause::Init));
}

#[test]
fn exit_delivers_loop_destroyed_once_and_last() {
    let mut rl: RunLoop<u32> = RunLoop::new();
    let first = step(&mut rl, 0);
    assert_eq!(first.events, vec![Event::NewEvents(StartCause::Poll)]);
    rl.set_control_flow(ControlFlow::ExitWithCode(7));
    let s = step(&mut rl, 1);
    assert_eq!(s.events, vec![Event::LoopDestroyed]);
    assert_eq!(s.exit, Some(7));
    assert_eq!(rl.state(), LoopState::Destroyed);
}

#[test]
fn exit_from_each_state_ends_the_loop() {
    for turns in 0..3 {
        let mut rl: RunLoop<u32> = RunLoop::new();
        rl.push_event(QueuedEvent::User(5));
        for t in 0..turns {
            step(&mut rl, t);
        }
        rl.set_control_flow(ControlFlow::ExitWithCode(3));
        let s = step(&mut rl, 10);
        assert_eq!(s.events, vec![Event::LoopDestroyed]);
        assert_eq!(s.exit, Some(3));
    }
}

#[test]
fn exit_written_in_a_callback_survives_later_writes() {
    let mut rl: RunLoop<u32> = RunLoop::new();
    let s = step(&mut rl, 0);
    assert_eq!(s.events, vec![Event::NewEvents(StartCause::Poll)]);
    // One callback invocation: it writes an exit, then tries to undo it.
    let mut handle = rl.control_flow_handle();
    handle.set(ControlFlow::Wait);
    handle.set(ControlFlow::ExitWithCode(2));
    handle.set(ControlFlow::Poll);
    handle.set(ControlFlow::ExitWithCode(9));
    assert_eq!(handle.get(), ControlFlow::ExitWithCode(2));
    rl.finish_callback(handle);
    assert_eq!(rl.control_flow(), ControlFlow::ExitWithCode(2));
    // A later invocation sees the exit and cannot change it.
    let mut later = rl.control_flow_handle();
    assert_eq!(later.get(), ControlFlow::ExitWithCode(2));
    later.set(ControlFlow::Poll);
    rl.finish_callback(later);
    let s = step(&mut rl, 1);
    assert_eq!(s.events, vec![Event::LoopDestroyed]);
    assert_eq!(s.exit, Some(2));
}

#[test]
fn callback_without_exit_leaves_its_last_write() {
    let mut rl: RunLoop<u32> = RunLoop::new();
    let mut handle = rl.control_flow_handle();
    handle.set(ControlFlow::Wait);
    handle.set(ControlFlow::WaitUntil(40));
    rl.finish_callback(handle);
    assert_eq!(rl.control_flow(), ControlFlow::WaitUntil(40));
}

#[test]
fn set_control_flow_keeps_an_exit_in_force() {
    let mut rl: RunLoop<u32> = RunLoop::new();
    rl.set_control_flow(ControlFlow::ExitWithCode(2));
    rl.set_control_flow(ControlFlow::Poll);
    assert_eq!(rl.control_flow(), ControlFlow::ExitWithCode(2));
}

#[test]
fn settle_keeps_exit_and_passes_other_flows() {
    assert_eq!(
        settle_control_flow(ControlFlow::ExitWithCode(1), ControlFlow::Wait),
        ControlFlow::ExitWithCode(1)
    );
    assert_eq!(settle_control_flow(ControlFlow::Poll, ControlFlow::Wait), ControlFlow::Wait);
    assert_eq!(
        settle_control_flow(ControlFlow::Wait, ControlFlow::ExitWithCode(4)),
        ControlFlow::ExitWithCode(4)
    );
    assert_eq!(ControlFlow::default(), ControlFlow::Poll);
}

#[test]
fn one_redraw_per_iteration_in_fifo_order() {
    let mut rl: RunLoop<u32> = RunLoop::new();
    for id in [10u64, 11, 12] {
        rl.push_redraw(WindowId(id));
    }
    for expected in [10u64, 11, 12] {
        let events = run_iteration(&mut rl, 0);
        let redraws: Vec<&Event<u32>> =
            events.iter().filter(|e| matches!(e, Event::RedrawRequested(_))).collect();
        assert_eq!(redraws, vec![&Event::RedrawRequested(WindowId(expected))]);
        assert_eq!(events.last(), Some(&Event::RedrawEventsCleared));
    }
    let events = run_iteration(&mut rl, 0);
    assert!(!events.iter().any(|e| matches!(e, Event::RedrawRequested(_))));
}

#[test]
fn wait_until_before_deadline_blocks_without_new_events() {
    let mut rl: RunLoop<u32> = RunLoop::new();
    rl.set_control_flow(ControlFlow::WaitUntil(100));
    let s = step(&mut rl, 50);
    assert!(s.events.is_empty());
    assert!(s.blocking);
    assert_eq!(rl.state(), LoopState::NewStart);
    let s = step(&mut rl, 99);
    assert!(s.events.is_empty());
    assert!(s.blocking);
    let s = step(&mut rl, 100);
    assert_eq!(
        s.events,
        vec![Event::NewEvents(StartCause::ResumeTimeReached { start: 100, requested_resume: 100 })]
    );
    assert!(!s.blocking);
    assert_eq!(rl.state(), LoopState::EventQueue);
}

#[test]
fn wait_until_with_pending_event_is_cancelled() {
    let mut rl: RunLoop<u32> = RunLoop::new();
    rl.set_control_flow(ControlFlow::WaitUntil(100));
    rl.push_event(QueuedEvent::User(8));
    let s = step(&mut rl, 40);
    assert_eq!(
        s.events,
        vec![Event::NewEvents(StartCause::WaitCancelled { start: 40, requested_resume: Some(100) })]
    );
}

#[test]
fn wait_blocks_until_an_event_is_queued() {
    let mut rl: RunLoop<u32> = RunLoop::new();
    rl.set_control_flow(ControlFlow::Wait);
    let s = step(&mut rl, 5);
    assert!(s.events.is_empty());
    assert!(s.blocking);
    rl.push_event(QueuedEvent::User(3));
    assert!(rl.has_pending_events());
    let s = step(&mut rl, 6);
    assert_eq!(
        s.events,
        vec![Event::NewEvents(StartCause::WaitCancelled { start: 6, requested_resume: None })]
    );
    assert!(!s.blocking);
}

#[test]
fn queued_loop_destroyed_forces_exit_code_one() {
    let mut rl: RunLoop<u32> = RunLoop::new();
    rl.push_event(QueuedEvent::LoopDestroyed);
    rl.push_event(QueuedEvent::User(1));
    step(&mut rl, 0);
    let s = step(&mut rl, 0);
    assert!(s.events.is_empty());
    assert_eq!(rl.control_flow(), ControlFlow::ExitWithCode(1));
    let s = step(&mut rl, 0);
    assert_eq!(s.events, vec![Event::LoopDestroyed]);
    assert_eq!(s.exit, Some(1));
}

/// Checks the lifecycle order of a whole run, iteration by iteration.
fn check_lifecycle(all: &[Event<u32>]) {
    let mut phase = 0;
    for (i, e) in all.iter().enumerate() {
        if *e == Event::LoopDestroyed {
            assert_eq!(i, all.len() - 1);
            return;
        }
        phase = match (phase, e) {
            (0, Event::NewEvents(c)) if *c != StartCause::Init => 1,
            (1, Event::MainEventsCleared) => 2,
            (1, _) => 1,
            (2, Event::RedrawRequested(_)) => 3,
            (2, Event::RedrawEventsCleared) | (3, Event::RedrawEventsCleared) => 0,
            other => panic!("out of order: {:?}", other),
        };
    }
}

#[test]
fn any_control_flow_sequence_keeps_lifecycle_order() {
    let flows = [
        ControlFlow::Poll,
        ControlFlow::Wait,
        ControlFlow::WaitUntil(30),
        ControlFlow::Poll,
        ControlFlow::WaitUntil(5),
        ControlFlow::Wait,
        ControlFlow::ExitWithCode(6),
    ];
    let mut rl: RunLoop<u32> = RunLoop::new();
    let mut all = Vec::new();
    let mut now = 0u64;
    let mut k = 0usize;
    let exit = loop {
        if now % 3 == 0 {
            rl.push_event(QueuedEvent::User(now as u32));
        }
        if now % 4 == 0 {
            rl.push_redraw(WindowId(now));
        }
        let s = step(&mut rl, now);
        for e in s.events {
            all.push(e);
            let mut handle = rl.control_flow_handle();
            handle.set(flows[k % flows.len()]);
            rl.finish_callback(handle);
            k += 1;
        }
        if let Some(code) = s.exit {
            break code;
        }
        now += 1;
        assert!(now < 1000);
    };
    assert_eq!(exit, 6);
    assert_eq!(all.last(), Some(&Event::LoopDestroyed));
    assert_eq!(all.iter().filter(|e| **e == Event::LoopDestroyed).count(), 1);
    check_lifecycle(&all);
}

#[test]
fn receive_moves_channel_messages_in_order() {
    let (etx, erx) = crossbeam_channel::unbounded();
    let (dtx, drx) = crossbeam_channel::unbounded();
    let mut rl: RunLoop<u32> = RunLoop::new();
    let dropped = send_all(&etx, vec![QueuedEvent::User(1), QueuedEvent::User(2)]);
    assert_eq!(dropped, 0);
    dtx.send(WindowId(9)).unwrap();
    rl.receive(&erx, &drx);
    let events = run_iteration(&mut rl, 0);
    assert_eq!(
        events,
        vec![
            Event::NewEvents(StartCause::Poll),
            Event::UserEvent(1),
            Event::UserEvent(2),
            Event::MainEventsCleared,
            Event::RedrawRequested(WindowId(9)),
            Event::RedrawEventsCleared,
        ]
    );
}

#[test]
fn send_all_counts_dropped_events() {
    let (etx, erx) = crossbeam_channel::unbounded::<QueuedEvent<u32>>();
    drop(erx);
    assert_eq!(send_all(&etx, vec![QueuedEvent::User(1), QueuedEvent::Init]), 2);
}

#[test]
fn send_redraw_reports_a_closed_loop() {
    let (dtx, drx) = crossbeam_channel::unbounded();
    assert!(winit_gtk::channel::send_redraw(&dtx, WindowId(2)));
    assert_eq!(drx.try_recv(), Ok(WindowId(2)));
    drop(drx);
    assert!(!winit_gtk::channel::send_redraw(&dtx, WindowId(2)));
}

#[test]
fn proxy_delivers_user_events() {
    let (etx, erx) = crossbeam_channel::unbounded();
    let proxy: EventLoopProxy<u32> = EventLoopProxy::new(etx);
    let other = proxy.clone();
    assert!(proxy.send_event(5).is_ok());
    assert!(other.send_event(6).is_ok());
    assert_eq!(erx.try_recv(), Ok(QueuedEvent::User(5)));
    assert_eq!(erx.try_recv(), Ok(QueuedEvent::User(6)));
}

#[test]
fn proxy_returns_the_event_when_the_loop_is_gone() {
    let (etx, erx) = crossbeam_channel::unbounded();
    let proxy: EventLoopProxy<String> = EventLoopProxy::new(etx);
    drop(erx);
    match proxy.send_event("late".to_string()) {
        Err(EventLoopClosed(e)) => assert_eq!(e, "late"),
        Ok(()) => panic!("send to a closed loop succeeded"),
    }
}
