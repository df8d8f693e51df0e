use ember::frame::{
    Action, Cause, Event, FrameDriver, FrameError, Phase, STAGE_COLOR_ATTACHMENT_OUTPUT, UNBOUNDED,
};
use ember::record::{record_into_buffer, Command};
use ember::swapchain::{BundleError, Destroy, Extent, PerSwapchain, SYN};

const SURFACE: u64 = 7;

fn bundle(base: u64, images: u64, frames: u64) -> PerSwapchain {
    let extent = Extent { width: 400, height: 400 };
    let imgs: Vec<u64> = (0..images).map(|i| base + 10 + i).collect();
    let views: Vec<u64> = (0..images).map(|i| base + 20 + i).collect();
    let fbs: Vec<u64> = (0..images).map(|i| base + 30 + i).collect();
    let sync: Vec<SYN> = (0..frames)
        .map(|i| SYN::new(base + 40 + 3 * i, base + 41 + 3 * i, base + 42 + 3 * i))
        .collect();
    PerSwapchain::new(base, 50, extent, imgs, views, fbs, sync, frames as usize).unwrap()
}

fn is_nothing(a: &Action) -> bool {
    matches!(a, Action::Nothing)
}

/// Drives one frame that meets no stale surface; returns the actions asked for.
fn good_frame(driver: &mut FrameDriver, image: u32) -> Vec<Action> {
    vec![
        driver.step(Event::RedrawRequested),
        driver.step(Event::FenceSignaled),
        driver.step(Event::Acquired { index: image, suboptimal: false }),
        driver.step(Event::FenceReset),
        driver.step(Event::Recorded),
        driver.step(Event::Submitted),
        driver.step(Event::Notified),
        driver.step(Event::Presented),
    ]
}

#[test]
fn steady_state_cycles_slots() {
    let mut driver = FrameDriver::new(SURFACE, bundle(100, 3, 2), 2).unwrap();
    let mut slots: Vec<usize> = Vec::new();
    let mut submits = 0;
    let mut presents = 0;
    let mut recreations = 0;
    for n in 0..10u32 {
        slots.push(driver.current_frame());
        for a in good_frame(&mut driver, n % 3) {
            match a {
                Action::Submit { .. } => submits += 1,
                Action::Present { .. } => presents += 1,
                Action::WaitIdle | Action::Teardown { .. } | Action::Rebuild { .. } => {
                    recreations += 1
                }
                _ => {}
            }
        }
    }
    assert_eq!(slots, vec![0, 1, 0, 1, 0, 1, 0, 1, 0, 1]);
    assert_eq!(driver.current_frame(), 0);
    assert_eq!(submits, 10);
    assert_eq!(presents, 10);
    assert_eq!(recreations, 0);
    assert_eq!(driver.phase(), Phase::Idle);
}

#[test]
fn one_frame_asks_for_each_step_in_order() {
    let mut driver = FrameDriver::new(SURFACE, bundle(100, 3, 2), 2).unwrap();
    good_frame(&mut driver, 0);
    // second frame runs on slot 1
    let a = good_frame(&mut driver, 2);
    assert!(matches!(a[0], Action::WaitFence { fence: 145, timeout: UNBOUNDED }));
    assert_eq!(UNBOUNDED, u64::MAX);
    assert!(matches!(a[1], Action::Acquire { chain: 100, timeout: UNBOUNDED, signal: 143 }));
    assert!(matches!(a[2], Action::ResetFence { fence: 145 }));
    match &a[3] {
        Action::Record { slot, commands } => {
            assert_eq!(*slot, 1);
            assert_eq!(*commands, record_into_buffer(132, Extent { width: 400, height: 400 }));
            assert_eq!(commands.len(), 8);
            assert_eq!(commands[3], Command::SetViewport { width: 400, height: 400 });
        }
        _ => panic!("no record"),
    }
    assert!(matches!(
        a[4],
        Action::Submit { slot: 1, wait: 143, stage: STAGE_COLOR_ATTACHMENT_OUTPUT, signal: 144, fence: 145 }
    ));
    assert_eq!(STAGE_COLOR_ATTACHMENT_OUTPUT, 0x400);
    assert!(matches!(a[5], Action::NotifyPrePresent));
    assert!(matches!(a[6], Action::Present { chain: 100, image: 2, wait: 144 }));
    assert!(is_nothing(&a[7]));
    assert_eq!(driver.current_frame(), 0);
}

#[test]
fn slot_after_n_frames_is_initial_plus_n_mod_frames() {
    let mut driver = FrameDriver::new(SURFACE, bundle(0, 4, 3), 3).unwrap();
    for n in 0..7u32 {
        assert_eq!(driver.current_frame(), (n as usize) % 3);
        good_frame(&mut driver, (n * 5) % 4);
    }
    assert_eq!(driver.current_frame(), 7 % 3);
}

#[test]
fn stale_acquisition_recreates_once_and_completes_the_frame() {
    let mut driver = FrameDriver::new(SURFACE, bundle(100, 3, 2), 2).unwrap();
    let mut recreations = 0;
    let mut presents = 0;
    for n in 1..=10u32 {
        if n != 5 {
            for a in good_frame(&mut driver, 0) {
                if matches!(a, Action::Present { .. }) {
                    presents += 1;
                }
            }
            continue;
        }
        let slot = driver.current_frame();
        assert!(matches!(driver.step(Event::RedrawRequested), Action::WaitFence { .. }));
        assert!(matches!(driver.step(Event::FenceSignaled), Action::Acquire { chain: 100, .. }));
        assert!(matches!(driver.step(Event::StaleSurface), Action::WaitIdle));
        assert_eq!(driver.phase(), Phase::Draining { cause: Cause::Acquisition });
        match driver.step(Event::DeviceIdle) {
            Action::Teardown { steps } => {
                recreations += 1;
                assert_eq!(steps.len(), 3 * 2 + 3 + 3 + 1);
                assert_eq!(steps[0], Destroy::Semaphore(140));
                assert_eq!(steps[12], Destroy::Swapchain(100));
            }
            _ => panic!("no teardown"),
        }
        assert!(matches!(driver.step(Event::TornDown), Action::Rebuild { surface: SURFACE, frames: 2 }));
        assert!(driver.swapchain().is_none());
        // the retry goes to the new chain, on the same slot
        match driver.step(Event::Rebuilt(bundle(500, 2, 2))) {
            Action::Acquire { chain, signal, timeout } => {
                assert_eq!(timeout, UNBOUNDED);
                assert_eq!(chain, 500);
                assert_eq!(signal, 540 + 3 * slot as u64);
            }
            _ => panic!("no retry"),
        }
        assert_eq!(driver.phase(), Phase::Acquiring { retried: true });
        assert!(matches!(
            driver.step(Event::Acquired { index: 1, suboptimal: false }),
            Action::ResetFence { .. }
        ));
        match driver.step(Event::FenceReset) {
            Action::Record { commands, .. } => {
                assert!(matches!(commands[1], Command::BeginRenderPass { framebuffer: 531, .. }))
            }
            _ => panic!("no record"),
        }
        assert!(matches!(driver.step(Event::Recorded), Action::Submit { .. }));
        assert!(matches!(driver.step(Event::Submitted), Action::NotifyPrePresent));
        assert!(matches!(driver.step(Event::Notified), Action::Present { chain: 500, image: 1, .. }));
        presents += 1;
        assert!(is_nothing(&driver.step(Event::Presented)));
        assert_eq!(driver.current_frame(), (slot + 1) % 2);
    }
    assert_eq!(recreations, 1);
    assert_eq!(presents, 10);
    assert_eq!(driver.swapchain().unwrap().handle, 500);
}

#[test]
fn suboptimal_acquisition_recreates() {
    let mut driver = FrameDriver::new(SURFACE, bundle(100, 3, 2), 2).unwrap();
    driver.step(Event::RedrawRequested);
    driver.step(Event::FenceSignaled);
    assert!(matches!(driver.step(Event::Acquired { index: 0, suboptimal: true }), Action::WaitIdle));
    assert_eq!(driver.phase(), Phase::Draining { cause: Cause::Acquisition });
}

#[test]
fn resize_forces_recreation_at_next_acquisition() {
    let mut driver = FrameDriver::new(SURFACE, bundle(100, 3, 2), 2).unwrap();
    assert!(matches!(driver.step(Event::Resized), Action::RequestRedraw));
    assert!(driver.resized());
    driver.step(Event::RedrawRequested);
    driver.step(Event::FenceSignaled);
    assert!(matches!(driver.step(Event::Acquired { index: 0, suboptimal: false }), Action::WaitIdle));
    driver.step(Event::DeviceIdle);
    driver.step(Event::TornDown);
    driver.step(Event::Rebuilt(bundle(500, 3, 2)));
    // the retried acquisition goes on even where it is suboptimal, and notes it
    assert!(matches!(
        driver.step(Event::Acquired { index: 0, suboptimal: false }),
        Action::ResetFence { fence: 542 }
    ));
    assert!(!driver.resized());
}

#[test]
fn suboptimal_retry_goes_on_and_is_remembered() {
    let mut driver = FrameDriver::new(SURFACE, bundle(100, 3, 2), 2).unwrap();
    driver.step(Event::RedrawRequested);
    driver.step(Event::FenceSignaled);
    driver.step(Event::StaleSurface);
    driver.step(Event::DeviceIdle);
    driver.step(Event::TornDown);
    driver.step(Event::Rebuilt(bundle(500, 3, 2)));
    assert!(matches!(
        driver.step(Event::Acquired { index: 2, suboptimal: true }),
        Action::ResetFence { .. }
    ));
    assert!(driver.resized());
}

#[test]
fn stale_retry_is_fatal() {
    let mut driver = FrameDriver::new(SURFACE, bundle(100, 3, 2), 2).unwrap();
    driver.step(Event::RedrawRequested);
    driver.step(Event::FenceSignaled);
    driver.step(Event::StaleSurface);
    driver.step(Event::DeviceIdle);
    driver.step(Event::TornDown);
    driver.step(Event::Rebuilt(bundle(500, 3, 2)));
    assert!(matches!(
        driver.step(Event::StaleSurface),
        Action::Fatal(FrameError::StaleAfterRecreation)
    ));
    assert_eq!(driver.phase(), Phase::Failed);
    assert!(matches!(driver.step(Event::RedrawRequested), Action::Ignored));
}

#[test]
fn stale_presentation_discards_the_frame_and_asks_for_a_redraw() {
    let mut driver = FrameDriver::new(SURFACE, bundle(100, 3, 2), 2).unwrap();
    for _ in 0..4 {
        good_frame(&mut driver, 1);
    }
    let slot = driver.current_frame();
    driver.step(Event::RedrawRequested);
    driver.step(Event::FenceSignaled);
    driver.step(Event::Acquired { index: 1, suboptimal: false });
    driver.step(Event::FenceReset);
    driver.step(Event::Recorded);
    driver.step(Event::Submitted);
    assert!(matches!(driver.step(Event::Notified), Action::Present { .. }));
    assert!(matches!(driver.step(Event::StaleSurface), Action::WaitIdle));
    assert_eq!(driver.phase(), Phase::Draining { cause: Cause::Presentation });
    assert!(matches!(driver.step(Event::DeviceIdle), Action::Teardown { .. }));
    assert!(matches!(driver.step(Event::TornDown), Action::Rebuild { surface: SURFACE, frames: 2 }));
    // no second presentation: a redraw is asked for instead
    assert!(matches!(driver.step(Event::Rebuilt(bundle(700, 3, 2))), Action::RequestRedraw));
    assert_eq!(driver.phase(), Phase::Idle);
    assert_eq!(driver.current_frame(), (slot + 1) % 2);
    // the next frame runs on the new bundle
    let a = good_frame(&mut driver, 0);
    assert!(matches!(a[1], Action::Acquire { chain: 700, .. }));
    assert!(matches!(a[6], Action::Present { chain: 700, image: 0, .. }));
}

#[test]
fn two_windows_are_independent() {
    let mut a = FrameDriver::new(SURFACE, bundle(100, 3, 2), 2).unwrap();
    let mut b = FrameDriver::new(SURFACE, bundle(900, 2, 2), 2).unwrap();
    good_frame(&mut b, 0);
    assert_eq!(b.current_frame(), 1);
    // window A closes in the middle of its own recreation
    a.step(Event::RedrawRequested);
    a.step(Event::FenceSignaled);
    a.step(Event::StaleSurface);
    assert!(is_nothing(&a.step(Event::CloseRequested)));
    a.step(Event::DeviceIdle);
    a.step(Event::TornDown);
    a.step(Event::Rebuilt(bundle(300, 3, 2)));
    a.step(Event::Acquired { index: 0, suboptimal: false });
    a.step(Event::FenceReset);
    a.step(Event::Recorded);
    a.step(Event::Submitted);
    a.step(Event::Notified);
    // the frame ends, and the closing starts with the wait for the device
    assert!(matches!(a.step(Event::Presented), Action::WaitIdle));
    assert_eq!(a.phase(), Phase::Draining { cause: Cause::Close });
    match a.step(Event::DeviceIdle) {
        Action::Teardown { steps } => assert_eq!(steps[12], Destroy::Swapchain(300)),
        _ => panic!("no teardown"),
    }
    assert!(matches!(a.step(Event::TornDown), Action::DestroySurface { surface: SURFACE }));
    assert_eq!(a.phase(), Phase::Closed);
    assert!(a.swapchain().is_none());
    // window B has not moved
    assert_eq!(b.current_frame(), 1);
    assert_eq!(b.phase(), Phase::Idle);
    assert_eq!(b.swapchain().unwrap().handle, 900);
    let f = good_frame(&mut b, 1);
    assert!(matches!(f[6], Action::Present { chain: 900, image: 1, .. }));
    assert_eq!(b.current_frame(), 0);
}

#[test]
fn close_at_rest_waits_for_the_device_first() {
    let mut driver = FrameDriver::new(SURFACE, bundle(100, 1, 1), 1).unwrap();
    assert!(matches!(driver.step(Event::CloseRequested), Action::WaitIdle));
    assert!(matches!(driver.step(Event::CloseRequested), Action::Ignored));
    // no teardown before the device is idle
    assert!(matches!(driver.step(Event::TornDown), Action::Ignored));
    match driver.step(Event::DeviceIdle) {
        Action::Teardown { steps } => assert_eq!(
            steps,
            vec![
                Destroy::Semaphore(140),
                Destroy::Semaphore(141),
                Destroy::Fence(142),
                Destroy::Framebuffer(130),
                Destroy::ImageView(120),
                Destroy::Swapchain(100),
            ]
        ),
        _ => panic!("no teardown"),
    }
    assert!(matches!(driver.step(Event::TornDown), Action::DestroySurface { surface: SURFACE }));
    assert!(matches!(driver.step(Event::Resized), Action::Ignored));
}

#[test]
fn failures_are_fatal() {
    let mut driver = FrameDriver::new(SURFACE, bundle(100, 3, 2), 2).unwrap();
    assert!(matches!(driver.step(Event::Failed { code: -4 }), Action::Ignored));
    driver.step(Event::RedrawRequested);
    assert!(matches!(
        driver.step(Event::Failed { code: -4 }),
        Action::Fatal(FrameError::Device { code: -4 })
    ));
    assert_eq!(driver.phase(), Phase::Failed);
}

#[test]
fn image_index_without_framebuffer_is_fatal() {
    let mut driver = FrameDriver::new(SURFACE, bundle(100, 3, 2), 2).unwrap();
    driver.step(Event::RedrawRequested);
    driver.step(Event::FenceSignaled);
    assert!(matches!(
        driver.step(Event::Acquired { index: 3, suboptimal: false }),
        Action::Fatal(FrameError::ImageIndex { index: 3 })
    ));
}

#[test]
fn misfit_rebuilt_bundle_is_fatal() {
    let mut driver = FrameDriver::new(SURFACE, bundle(100, 3, 2), 2).unwrap();
    driver.step(Event::RedrawRequested);
    driver.step(Event::FenceSignaled);
    driver.step(Event::StaleSurface);
    driver.step(Event::DeviceIdle);
    driver.step(Event::TornDown);
    assert!(matches!(
        driver.step(Event::Rebuilt(bundle(500, 3, 3))),
        Action::Fatal(FrameError::Bundle(BundleError::SyncCount))
    ));
}

#[test]
fn events_out_of_turn_change_nothing() {
    let mut driver = FrameDriver::new(SURFACE, bundle(100, 3, 2), 2).unwrap();
    for e in [
        Event::FenceSignaled,
        Event::Acquired { index: 0, suboptimal: false },
        Event::StaleSurface,
        Event::FenceReset,
        Event::Recorded,
        Event::Submitted,
        Event::Notified,
        Event::Presented,
        Event::DeviceIdle,
        Event::TornDown,
    ] {
        assert!(matches!(driver.step(e), Action::Ignored));
        assert_eq!(driver.phase(), Phase::Idle);
        assert_eq!(driver.current_frame(), 0);
    }
    assert!(matches!(driver.step(Event::Rebuilt(bundle(1, 1, 2))), Action::Ignored));
    assert_eq!(driver.swapchain().unwrap().handle, 100);
}

#[test]
fn new_driver_wants_a_fitting_bundle() {
    assert!(matches!(
        FrameDriver::new(SURFACE, bundle(100, 3, 2), 0),
        Err(FrameError::Bundle(BundleError::NoFrameSlot))
    ));
    assert!(matches!(
        FrameDriver::new(SURFACE, bundle(100, 3, 2), 3),
        Err(FrameError::Bundle(BundleError::SyncCount))
    ));
    let d = FrameDriver::new(SURFACE, bundle(100, 3, 2), 2).unwrap();
    assert_eq!(d.max_frames_in_flight(), 2);
    assert_eq!(d.surface(), SURFACE);
    assert_eq!(d.current_frame(), 0);
    assert!(!d.resized());
}

/// Feeds events to a driver and keeps what it asked for, with the slot
/// each event found.
fn trace(driver: &mut FrameDriver, events: Vec<Event>) -> Vec<(usize, Action)> {
    events
        .into_iter()
        .map(|e| {
            let slot = driver.current_frame();
            (slot, driver.step(e))
        })
        .collect()
}

fn mixed_run() -> Vec<(usize, Action)> {
    let mut driver = FrameDriver::new(SURFACE, bundle(100, 3, 2), 2).unwrap();
    let mut events: Vec<Event> = Vec::new();
    let frame = |image: u32| {
        vec![
            Event::RedrawRequested,
            Event::FenceSignaled,
            Event::Acquired { index: image, suboptimal: false },
            Event::FenceReset,
            Event::Recorded,
            Event::Submitted,
            Event::Notified,
            Event::Presented,
        ]
    };
    events.extend(frame(0));
    events.extend(frame(2));
    // a frame whose acquisition is stale
    events.extend(vec![
        Event::RedrawRequested,
        Event::Recorded,
        Event::FenceSignaled,
        Event::StaleSurface,
        Event::Resized,
        Event::DeviceIdle,
        Event::TornDown,
        Event::Rebuilt(bundle(500, 2, 2)),
        Event::Acquired { index: 1, suboptimal: false },
        Event::FenceReset,
        Event::Recorded,
        Event::Submitted,
        Event::Notified,
        Event::Presented,
    ]);
    // a frame whose presentation is stale, and a window that closes meanwhile
    events.extend(vec![
        Event::RedrawRequested,
        Event::FenceSignaled,
        Event::Acquired { index: 0, suboptimal: true },
        Event::DeviceIdle,
        Event::TornDown,
        Event::Rebuilt(bundle(600, 2, 2)),
        Event::Acquired { index: 0, suboptimal: false },
        Event::FenceReset,
        Event::Recorded,
        Event::Submitted,
        Event::Notified,
        Event::StaleSurface,
        Event::CloseRequested,
        Event::DeviceIdle,
        Event::TornDown,
        Event::Rebuilt(bundle(700, 2, 2)),
        Event::DeviceIdle,
        Event::TornDown,
        Event::RedrawRequested,
    ]);
    trace(&mut driver, events)
}

#[test]
fn fence_is_waited_for_before_reset_and_record() {
    let run = mixed_run();
    let mut resets = 0;
    for (k, (slot, action)) in run.iter().enumerate() {
        if matches!(action, Action::ResetFence { .. } | Action::Record { .. }) {
            resets += 1;
            // the last wait asked for before was on this slot, and none came after it
            let wait = run[..k].iter().rposition(|(_, a)| matches!(a, Action::WaitFence { .. })).unwrap();
            assert_eq!(run[wait].0, *slot);
            let acquire = run[..k].iter().rposition(|(_, a)| matches!(a, Action::Acquire { .. })).unwrap();
            assert!(wait < acquire);
            assert!(!run[wait..k].iter().any(|(_, a)| matches!(a, Action::Present { .. })));
        }
        if let Action::Submit { fence, .. } = action {
            let reset = run[..k].iter().rposition(|(_, a)| matches!(a, Action::ResetFence { .. })).unwrap();
            assert!(matches!(run[reset].1, Action::ResetFence { fence: f } if f == *fence));
            assert!(!run[reset..k].iter().any(|(_, a)| matches!(a, Action::Submit { .. })));
        }
    }
    assert_eq!(resets, 8);
}

#[test]
fn device_is_idle_before_every_teardown() {
    let run = mixed_run();
    let mut teardowns = 0;
    for (k, (_, action)) in run.iter().enumerate() {
        if matches!(action, Action::Teardown { .. }) {
            teardowns += 1;
            let idle = run[..k].iter().rposition(|(_, a)| matches!(a, Action::WaitIdle)).unwrap();
            assert!(!run[idle..k].iter().any(|(_, a)| matches!(a, Action::Submit { .. })));
            assert!(!run[idle + 1..k].iter().any(|(_, a)| matches!(a, Action::Teardown { .. })));
        }
    }
    assert_eq!(teardowns, 4);
    // the window is closed in the end, its surface destroyed last
    assert!(matches!(run[run.len() - 2].1, Action::DestroySurface { surface: SURFACE }));
    assert!(matches!(run[run.len() - 1].1, Action::Ignored));
}

#[test]
fn rebuilt_bundle_replaces_the_old_one_whole() {
    let mut driver = FrameDriver::new(SURFACE, bundle(100, 3, 2), 2).unwrap();
    driver.step(Event::RedrawRequested);
    driver.step(Event::FenceSignaled);
    driver.step(Event::StaleSurface);
    let old = match driver.step(Event::DeviceIdle) {
        Action::Teardown { steps } => steps,
        _ => panic!("no teardown"),
    };
    driver.step(Event::TornDown);
    assert!(driver.swapchain().is_none());
    driver.step(Event::Rebuilt(bundle(500, 4, 2)));
    let held = driver.swapchain().unwrap();
    assert!(held.is_wf(2));
    assert_eq!(held.images.len(), 4);
    assert_eq!(held.views.len(), 4);
    assert_eq!(held.framebuffers.len(), 4);
    assert_eq!(held.sync.len(), 2);
    let new = held.cleanup();
    assert!(new.iter().all(|d| !old.contains(d)));
}
