use meio::{
    actor_name, default_actor_name, select_biased, Awake, BeatAction, BeatEvent, Done,
    HeartBeatCore, Id, Interrupt, InterruptWaiter, LifecycleNotifier, LoopAction, LoopEvent,
    Phase, RuntimeCore, RuntimeError, Source, Status, TerminationProgress, TerminationSignal,
    Terminator, WaitAction, WaitEvent, MESSAGES_CHANNEL_DEPTH,
};
use meio::Action;

#[test]
fn lifecycle_messages_are_high_priority() {
    assert!(Awake::new().is_high_priority());
    assert!(Interrupt::new().is_high_priority());
    let id = Id::of_actor("Child");
    let done: Done<u8> = Done::new(id.clone());
    assert!(done.is_high_priority());
    assert!(done.id().same(&id));
}

#[test]
fn actor_name_has_exact_shape() {
    let name = actor_name("Worker", 0x0123_4567_89ab_cdef_0011_2233_4455_6677);
    assert_eq!(name, "Actor:Worker(01234567-89ab-cdef-0011-223344556677)");
}

#[test]
fn default_name_carries_a_v4_uuid() {
    let name = default_actor_name("Worker");
    assert!(name.starts_with("Actor:Worker("));
    assert!(name.ends_with(')'));
    let uuid = &name["Actor:Worker(".len()..name.len() - 1];
    assert_eq!(uuid.len(), 36);
    assert_eq!(&uuid[14..15], "4");
}

#[test]
fn ids_are_unique_and_named() {
    let a = Id::of_actor("A");
    let b = Id::of_actor("A");
    assert!(!a.same(&b));
    assert!(a.same(&a.clone()));
    assert!(a.name().starts_with("Actor:A("));
}

#[test]
fn notifier_fires_once() {
    let mut n = LifecycleNotifier::once(7u32);
    assert!(!n.is_spent());
    assert_eq!(n.notify(), Ok(7));
    assert!(n.is_spent());
    assert_eq!(n.notify(), Err(RuntimeError::NotifierReused));
}

#[test]
fn selection_is_biased() {
    assert_eq!(select_biased(true, true, true), Some(Source::Operator));
    assert_eq!(select_biased(false, true, true), Some(Source::High));
    assert_eq!(select_biased(false, false, true), Some(Source::Normal));
    assert_eq!(select_biased(false, false, false), None);
}

#[test]
fn stop_without_children_is_safe_at_once() {
    let mut t = Terminator::new(1);
    assert_eq!(t.status(), Status::Active);
    let r = t.track_child_or_stop_signal(TerminationSignal::StopSignal);
    assert_eq!(r.progress, TerminationProgress::SafeToStop);
    assert!(r.interrupt.is_empty());
    assert_eq!(t.status(), Status::SafeToStop);
}

#[test]
fn stop_waits_for_every_child() {
    let mut t = Terminator::new(1);
    t.insert_child(10);
    t.insert_child(11);
    t.insert_child(10);
    assert_eq!(t.children(), vec![10, 11]);
    let r = t.track_child_or_stop_signal(TerminationSignal::StopSignal);
    assert_eq!(r.progress, TerminationProgress::Continue);
    assert_eq!(r.interrupt, vec![10, 11]);
    assert_eq!(t.status(), Status::Stopping);
    let r = t.track_child_or_stop_signal(TerminationSignal::StopSignal);
    assert_eq!(r.progress, TerminationProgress::Continue);
    assert!(r.interrupt.is_empty());
    let r = t.track_child_or_stop_signal(TerminationSignal::ChildDone(11));
    assert_eq!(r.progress, TerminationProgress::Continue);
    assert!(!t.has_child(11));
    assert!(t.has_child(10));
    let r = t.track_child_or_stop_signal(TerminationSignal::ChildDone(99));
    assert_eq!(r.progress, TerminationProgress::Continue);
    let r = t.track_child_or_stop_signal(TerminationSignal::ChildDone(10));
    assert_eq!(r.progress, TerminationProgress::SafeToStop);
    assert_eq!(t.status(), Status::SafeToStop);
}

#[test]
fn child_done_before_stop_keeps_running() {
    let mut t = Terminator::new(1);
    t.insert_child(5);
    let r = t.track_child_or_stop_signal(TerminationSignal::ChildDone(5));
    assert_eq!(r.progress, TerminationProgress::Continue);
    assert_eq!(t.status(), Status::Active);
}

#[test]
fn standalone_actor_awakes_then_stops() {
    let mut c = RuntimeCore::new(3, false);
    assert_eq!(c.phase(), Phase::Created);
    let _awake: Awake = c.start();
    assert_eq!(c.phase(), Phase::Running);
    assert!(c.awake_queued());
    assert!(matches!(c.step(LoopEvent::Envelope(Source::High)), LoopAction::Dispatch));
    assert!(matches!(c.step(LoopEvent::Drained(Source::Normal)), LoopAction::Wait));
    assert_eq!(c.phase(), Phase::Running);
    assert_eq!(c.dispatched(), 1);
    let a = c.step(LoopEvent::Signal(TerminationSignal::StopSignal));
    assert!(matches!(a, LoopAction::CloseAndExit));
    assert_eq!(c.phase(), Phase::Exited);
    assert_eq!(c.notify_done(), None);
    c.finalize();
    assert_eq!(c.phase(), Phase::Finalized);
}

#[test]
fn parent_interrupts_children_and_waits_for_both() {
    let mut p = RuntimeCore::new(1, false);
    p.start();
    p.register_child(21);
    p.register_child(22);
    match p.step(LoopEvent::Signal(TerminationSignal::StopSignal)) {
        LoopAction::InterruptChildren(v) => assert_eq!(v, vec![21, 22]),
        _ => panic!("children were not interrupted"),
    }
    let mut children = vec![RuntimeCore::new(21, true), RuntimeCore::new(22, true)];
    let mut done = Vec::new();
    for c in children.iter_mut() {
        c.start();
        assert!(matches!(
            c.step(LoopEvent::Signal(TerminationSignal::StopSignal)),
            LoopAction::CloseAndExit
        ));
        done.push(c.notify_done().unwrap());
        c.finalize();
    }
    assert_eq!(done, vec![21, 22]);
    assert!(matches!(
        p.step(LoopEvent::Signal(TerminationSignal::ChildDone(done[0]))),
        LoopAction::Wait
    ));
    assert_eq!(p.phase(), Phase::Running);
    assert!(matches!(
        p.step(LoopEvent::Signal(TerminationSignal::ChildDone(done[1]))),
        LoopAction::CloseAndExit
    ));
    assert_eq!(p.notify_done(), None);
    p.finalize();
}

#[test]
fn drained_mailboxes_do_not_end_an_actor_with_children() {
    let mut c = RuntimeCore::new(1, true);
    c.start();
    c.register_child(2);
    assert!(matches!(c.step(LoopEvent::Drained(Source::High)), LoopAction::Wait));
    assert!(matches!(c.step(LoopEvent::Drained(Source::Normal)), LoopAction::Wait));
    assert_eq!(c.phase(), Phase::Running);
    assert_eq!(c.terminator().status(), Status::Active);
}

#[test]
fn double_ctrl_c_returns_before_join() {
    let mut w = InterruptWaiter::new();
    assert_eq!(w.on_event(WaitEvent::CtrlC), WaitAction::Interrupt);
    assert!(!w.returned());
    assert_eq!(w.on_event(WaitEvent::CtrlC), WaitAction::Return);
    assert!(w.returned());
}

#[test]
fn join_ends_the_wait() {
    let mut w = InterruptWaiter::new();
    assert_eq!(w.on_event(WaitEvent::Joined), WaitAction::Return);
}

#[test]
fn heartbeat_stops_ticking_after_shutdown() {
    let mut h = HeartBeatCore::new();
    for _ in 0..3 {
        assert_eq!(h.on_event(BeatEvent::Tick), BeatAction::SendTick);
    }
    assert_eq!(h.sent(), 3);
    assert_eq!(h.on_event(BeatEvent::Shutdown), BeatAction::Exit);
    assert_eq!(h.on_event(BeatEvent::Tick), BeatAction::Exit);
    assert!(h.stopped());
    assert_eq!(h.sent(), 3);
}

#[test]
fn normal_queue_depth() {
    assert_eq!(MESSAGES_CHANNEL_DEPTH, 32);
}

#[test]
fn stop_after_a_flood_of_messages_exits_once() {
    let mut c = RuntimeCore::new(9, true);
    c.start();
    assert!(matches!(c.step(LoopEvent::Envelope(Source::High)), LoopAction::Dispatch));
    for _ in 1..10_000 {
        assert!(matches!(c.step(LoopEvent::Envelope(Source::Normal)), LoopAction::Dispatch));
    }
    assert_eq!(c.dispatched(), 10_000);
    assert!(matches!(
        c.step(LoopEvent::Signal(TerminationSignal::StopSignal)),
        LoopAction::CloseAndExit
    ));
    assert_eq!(c.phase(), Phase::Exited);
    assert_eq!(c.notify_done(), Some(9));
    c.finalize();
    assert_eq!(c.phase(), Phase::Finalized);
}

#[test]
fn awake_is_the_first_envelope_dispatched() {
    let mut c = RuntimeCore::new(4, false);
    c.start();
    assert!(c.awake_queued());
    assert!(matches!(c.step(LoopEvent::Drained(Source::Normal)), LoopAction::Wait));
    assert!(c.awake_queued());
    assert!(matches!(c.step(LoopEvent::Envelope(Source::High)), LoopAction::Dispatch));
    assert!(!c.awake_queued());
    assert!(matches!(c.step(LoopEvent::Envelope(Source::Normal)), LoopAction::Dispatch));
    assert_eq!(c.dispatched(), 2);
}

#[test]
fn repeated_stop_signal_waits() {
    let mut c = RuntimeCore::new(4, false);
    c.start();
    c.register_child(8);
    assert!(matches!(
        c.step(LoopEvent::Signal(TerminationSignal::StopSignal)),
        LoopAction::InterruptChildren(_)
    ));
    assert!(matches!(
        c.step(LoopEvent::Signal(TerminationSignal::StopSignal)),
        LoopAction::Wait
    ));
    assert_eq!(c.terminator().status(), Status::Stopping);
    assert_eq!(c.terminator().children(), vec![8]);
}

#[test]
fn id_key_is_a_v4_uuid() {
    let id = Id::of_actor("K");
    assert_eq!((id.key() >> 76) & 0xf, 4);
    assert_eq!((id.key() >> 62) & 0x3, 2);
    assert!(id.name().contains(&uuid_like(id.key())));
}

fn uuid_like(v: u128) -> String {
    let h = format!("{:032x}", v);
    format!("{}-{}-{}-{}-{}", &h[0..8], &h[8..12], &h[12..16], &h[16..20], &h[20..32])
}
