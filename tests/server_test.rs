use task::server::{
    stop_action, AcceptLoop, LoopAction, LoopEvent, LoopState, RunningFlag, StopAction,
    POLL_INTERVAL_MS,
};

#[test]
fn accept_loop_serves_then_exits_on_stop() {
    let mut l = AcceptLoop::new();
    assert_eq!(l.step(LoopEvent::Flag { running: true }), LoopAction::TryAccept);
    assert_eq!(l.step(LoopEvent::Accepted), LoopAction::Submit);
    assert_eq!(l.step(LoopEvent::Flag { running: true }), LoopAction::TryAccept);
    assert_eq!(l.step(LoopEvent::WouldBlock), LoopAction::Sleep { ms: POLL_INTERVAL_MS });
    assert_eq!(l.step(LoopEvent::Flag { running: false }), LoopAction::Exit);
    assert_eq!(l.state, LoopState::Done { fatal: false });
}

#[test]
fn stop_while_idle_polling_sleeps_at_most_one_interval() {
    let mut l = AcceptLoop::new();
    l.step(LoopEvent::Flag { running: true });
    let mut slept = 0;
    for e in [LoopEvent::WouldBlock, LoopEvent::Flag { running: false }, LoopEvent::WouldBlock] {
        if let LoopAction::Sleep { ms } = l.step(e) {
            slept += ms;
        }
    }
    assert_eq!(slept, 100);
    assert_eq!(l.state, LoopState::Done { fatal: false });
}

#[test]
fn accept_error_ends_the_loop() {
    let mut l = AcceptLoop::new();
    l.step(LoopEvent::Flag { running: true });
    assert_eq!(l.step(LoopEvent::AcceptFailed), LoopAction::Fail);
    assert_eq!(l.step(LoopEvent::Flag { running: true }), LoopAction::Fail);
}

#[test]
fn stop_action_follows_the_flag() {
    assert_eq!(stop_action(true), StopAction::WakeListener);
    assert_eq!(stop_action(false), StopAction::AlreadyStopped);
}

#[test]
fn second_stop_is_a_no_op() {
    let flag = RunningFlag::new();
    assert!(!flag.is_running());
    flag.start();
    let other = flag.share();
    assert!(other.is_running());
    assert_eq!(other.request_stop(), StopAction::WakeListener);
    assert!(!flag.is_running());
    assert_eq!(flag.request_stop(), StopAction::AlreadyStopped);
    assert!(!flag.is_running());
}

#[test]
fn stop_before_start_only_warns() {
    let flag = RunningFlag::new();
    assert_eq!(flag.request_stop(), StopAction::AlreadyStopped);
}
