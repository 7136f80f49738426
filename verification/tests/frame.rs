use way_edges::frame::FrameManager;
use way_edges::transition::TransitionState;

#[test]
fn start_is_idempotent() {
    let mut fm = FrameManager::new(30);
    assert!(fm.start());
    let once = fm;
    assert!(!fm.start());
    assert_eq!(fm.running, once.running);
    assert_eq!(fm.frame_rate, once.frame_rate);
}

#[test]
fn stop_is_idempotent() {
    let mut fm = FrameManager::new(30);
    fm.start();
    assert!(fm.stop());
    let once = fm;
    assert!(!fm.stop());
    assert_eq!(fm.running, once.running);
    assert_eq!(fm.frame_rate, once.frame_rate);
}

#[test]
fn stop_on_fresh_manager_is_noop() {
    let mut fm = FrameManager::new(30);
    assert!(!fm.stop());
    assert!(!fm.running);
}

#[test]
fn interval_is_whole_milliseconds() {
    assert_eq!(FrameManager::new(30).interval_ms(), 33);
    assert_eq!(FrameManager::new(60).interval_ms(), 16);
    assert_eq!(FrameManager::new(1000).interval_ms(), 1);
}

#[test]
fn tick_stops_exactly_on_settling() {
    let mut fm = FrameManager::new(30);
    let mut ts = TransitionState::new(10_000, 300);
    ts.set_target(true);
    fm.start();
    let (ext, stopped) = fm.tick(&mut ts, 150);
    assert_eq!(ext, 5_000);
    assert!(!stopped);
    assert!(fm.running);
    let (ext, stopped) = fm.tick(&mut ts, 450);
    assert_eq!(ext, 10_000);
    // settled on this very tick: the manager stops itself at once
    assert!(stopped);
    assert!(!fm.running);
}

#[test]
fn full_cycle_ticks_only_while_animating() {
    let mut fm = FrameManager::new(30);
    let mut ts = TransitionState::new(15_000, 300);
    let interval = fm.interval_ms();
    let mut clock: u64 = 0;

    // pointer approaches: open, tick at the configured rate until settled
    ts.set_target(true);
    fm.start();
    let mut ticks = 0;
    while fm.running {
        clock += interval;
        fm.tick(&mut ts, clock);
        ticks += 1;
        assert!(ticks < 100, "manager failed to stop");
    }
    assert_eq!(ts.current_extent(), 15_000);
    // 300 ms of animation at 33 ms a tick: ten ticks, none idle
    assert_eq!(ticks, 10);

    // pointer retreats: close again, and stop once fully hidden
    ts.set_target(false);
    fm.start();
    while fm.running {
        clock += interval;
        fm.tick(&mut ts, clock);
    }
    assert_eq!(ts.current_extent(), 0);
    assert!(ts.is_settled());
}

#[test]
fn sync_follows_settledness() {
    let mut fm = FrameManager::new(30);
    let ts = TransitionState::new(10_000, 300);
    // settled transition: sync keeps the manager stopped
    assert!(!fm.sync(&ts));
    assert!(!fm.running);
    let mut open = TransitionState::new(10_000, 300);
    open.set_target(true);
    // unsettled: sync starts it, and reports the flip
    assert!(fm.sync(&open));
    assert!(fm.running);
    // a second sync on the same state changes nothing
    assert!(!fm.sync(&open));
    assert!(fm.running);
}
