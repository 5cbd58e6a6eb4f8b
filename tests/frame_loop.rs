use walk_the_dog::FrameLoop;

#[test]
fn n_rearmed_ticks_run_n_times_in_order() {
    let mut lp = FrameLoop::new();
    assert!(lp.arm());
    let host_times: Vec<u64> = vec![16, 33, 33, 50, 66];
    let mut seen: Vec<u64> = Vec::new();
    for &t in &host_times {
        if lp.on_frame() {
            seen.push(t);
            lp.arm();
        }
    }
    assert_eq!(seen, host_times);
    assert!(lp.armed);
}

#[test]
fn loop_stops_after_a_tick_that_does_not_rearm() {
    let mut lp = FrameLoop::new();
    lp.arm();
    let mut seen: Vec<u64> = Vec::new();
    for (i, t) in [10u64, 20, 30, 40].iter().enumerate() {
        if lp.on_frame() {
            seen.push(*t);
            if i < 1 {
                lp.arm();
            }
        }
    }
    assert_eq!(seen, vec![10, 20]);
    assert!(!lp.armed);
}

#[test]
fn frame_without_request_is_ignored() {
    let mut lp = FrameLoop::new();
    assert!(!lp.on_frame());
    assert_eq!(lp, FrameLoop::new());
}

#[test]
fn arming_twice_asks_the_host_once() {
    let mut lp = FrameLoop::new();
    assert!(lp.arm());
    assert!(!lp.arm());
    assert!(lp.on_frame());
    assert!(lp.arm());
}

#[test]
fn refused_request_stops_the_loop() {
    let mut lp = FrameLoop::new();
    assert!(lp.arm());
    lp.disarm();
    assert!(!lp.on_frame());
    assert!(lp.arm());
}
