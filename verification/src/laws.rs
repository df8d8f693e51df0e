use crate::frame::{Cause, Driver, Happening, Order, Phase, UNBOUNDED};
use crate::swapchain::{
    planned_swapchain, selected_format, Bundle, Extent, SurfaceLimits, FORMAT_B8G8R8A8_SRGB,
};
use vstd::arithmetic::div_mod::lemma_add_mod_noop;
use vstd::arithmetic::div_mod::lemma_small_mod;
use vstd::prelude::*;

verus! {

/// The driver after a row of events, taken one after the other.
pub open spec fn run(start: Driver, events: Seq<Happening>) -> Driver
    decreases events.len(),
{
    if events.len() == 0 {
        start
    } else {
        run(start, events.drop_last()).next(events.last()).0
    }
}

/// The driver as event `k` of the row finds it.
pub open spec fn state_before(start: Driver, events: Seq<Happening>, k: int) -> Driver {
    run(start, events.take(k))
}

/// What the driver asks for upon event `k` of the row.
pub open spec fn order_at(start: Driver, events: Seq<Happening>, k: int) -> Order {
    state_before(start, events, k).next(events[k]).1
}

/// The events of one frame that meets no stale surface and no failure.
pub open spec fn frame(index: u32) -> Seq<Happening> {
    Seq::empty().push(Happening::RedrawRequested).push(Happening::FenceSignaled).push(
        Happening::Acquired { index, suboptimal: false },
    ).push(Happening::FenceReset).push(Happening::Recorded).push(Happening::Submitted).push(
        Happening::Notified,
    ).push(Happening::Presented)
}

/// The events of one such frame after the other, one for each acquired index.
pub open spec fn frames(indices: Seq<u32>) -> Seq<Happening>
    decreases indices.len(),
{
    if indices.len() == 0 {
        Seq::empty()
    } else {
        frames(indices.drop_last()) + frame(indices.last())
    }
}

/// Every transition keeps a driver well formed.
pub proof fn lemma_next_keeps_wf(driver: Driver, event: Happening)
    requires
        driver.wf(),
    ensures
        driver.next(event).0.wf(),
{
}

/// One more event takes the run one transition further.
pub proof fn lemma_run_push(start: Driver, events: Seq<Happening>, event: Happening)
    ensures
        run(start, events.push(event)) == run(start, events).next(event).0,
{
    assert(events.push(event).drop_last() =~= events);
}

/// Running two rows of events in turn is running them joined.
pub proof fn lemma_run_concat(start: Driver, first: Seq<Happening>, second: Seq<Happening>)
    ensures
        run(start, first + second) == run(run(start, first), second),
    decreases second.len(),
{
    if second.len() == 0 {
        assert(first + second =~= first);
    } else {
        lemma_run_concat(start, first, second.drop_last());
        assert((first + second).drop_last() =~= first + second.drop_last());
    }
}

/// Every run keeps a driver well formed.
pub proof fn lemma_run_keeps_wf(start: Driver, events: Seq<Happening>)
    requires
        start.wf(),
    ensures
        run(start, events).wf(),
    decreases events.len(),
{
    if events.len() > 0 {
        lemma_run_keeps_wf(start, events.drop_last());
        lemma_next_keeps_wf(run(start, events.drop_last()), events.last());
    }
}

/// Each event moves the run from the state before it to the state before
/// the next one.
pub proof fn lemma_state_unfolds(start: Driver, events: Seq<Happening>, k: int)
    requires
        0 <= k < events.len(),
    ensures
        state_before(start, events, 0) == start,
        state_before(start, events, k + 1) == state_before(start, events, k).next(events[k]).0,
{
    assert(events.take(k + 1).drop_last() =~= events.take(k));
    assert(events.take(0) =~= Seq::<Happening>::empty());
}

/// A frame without a stale surface leaves a resting driver at rest, with the
/// same bundle, one slot further, whichever image was acquired.
pub proof fn lemma_frame_advances_slot(start: Driver, index: u32)
    requires
        start.wf(),
        start.phase is Idle,
        !start.resized,
        !start.closing,
        index < start.bundle->0.framebuffers.len(),
    ensures
        run(start, frame(index)) == (Driver { slot: (start.slot + 1) % start.frames, ..start }),
{
    let e0 = Seq::<Happening>::empty();
    let e1 = e0.push(Happening::RedrawRequested);
    let e2 = e1.push(Happening::FenceSignaled);
    let e3 = e2.push(Happening::Acquired { index, suboptimal: false });
    let e4 = e3.push(Happening::FenceReset);
    let e5 = e4.push(Happening::Recorded);
    let e6 = e5.push(Happening::Submitted);
    let e7 = e6.push(Happening::Notified);
    lemma_run_push(start, e0, Happening::RedrawRequested);
    lemma_run_push(start, e1, Happening::FenceSignaled);
    lemma_run_push(start, e2, Happening::Acquired { index, suboptimal: false });
    lemma_run_push(start, e3, Happening::FenceReset);
    lemma_run_push(start, e4, Happening::Recorded);
    lemma_run_push(start, e5, Happening::Submitted);
    lemma_run_push(start, e6, Happening::Notified);
    lemma_run_push(start, e7, Happening::Presented);
}

/// After as many frames without a stale surface as `indices` is long, the
/// slot is the first one plus that number, modulo the frames in flight,
/// whichever images were acquired; the driver is at rest with its bundle.
pub proof fn lemma_slot_advancement(start: Driver, indices: Seq<u32>)
    requires
        start.wf(),
        start.phase is Idle,
        !start.resized,
        !start.closing,
        forall|i: int|
            0 <= i < indices.len() ==> (#[trigger] indices[i]) < start.bundle->0.framebuffers.len(),
    ensures
        run(start, frames(indices)) == (Driver {
            slot: (start.slot + indices.len()) % start.frames,
            ..start
        }),
    decreases indices.len(),
{
    if indices.len() == 0 {
        lemma_small_mod(start.slot, start.frames);
    } else {
        let rest = indices.drop_last();
        lemma_slot_advancement(start, rest);
        let middle = run(start, frames(rest));
        lemma_run_concat(start, frames(rest), frame(indices.last()));
        lemma_frame_advances_slot(middle, indices.last());
        lemma_add_mod_noop((start.slot + rest.len()) as int, 1, start.frames as int);
        if start.frames == 1 {
        } else {
            lemma_small_mod(1, start.frames);
        }
    }
}

/// Event `j` answered the wait on the fence of the slot that is still in
/// use as event `k` arrives: the driver was waiting, the fence was found
/// signaled, and the frame has gone on since on the same slot.
pub open spec fn waited_at(start: Driver, events: Seq<Happening>, k: int, j: int) -> bool {
    &&& 0 <= j < k
    &&& events[j] is FenceSignaled
    &&& state_before(start, events, j).phase is Waiting
    &&& forall|m: int|
        j < m <= k ==> {
            &&& (#[trigger] state_before(start, events, m)).slot == state_before(
                start,
                events,
                j,
            ).slot
            &&& !(state_before(start, events, m).phase is Idle)
        }
}

/// The phases of a frame after the wait on its fence in which the reset of
/// the fence or the recording is still to be asked for.
pub open spec fn past_wait(phase: Phase) -> bool {
    match phase {
        Phase::Acquiring { retried } => true,
        Phase::Draining { cause } => cause == Cause::Acquisition,
        Phase::TearingDown { cause } => cause == Cause::Acquisition,
        Phase::Rebuilding { cause } => cause == Cause::Acquisition,
        Phase::Resetting { image } => true,
        _ => false,
    }
}

proof fn lemma_wait_precedes(start: Driver, events: Seq<Happening>, k: int)
    requires
        start.phase is Idle,
        0 <= k <= events.len(),
        past_wait(state_before(start, events, k).phase),
    ensures
        exists|j: int| waited_at(start, events, k, j),
    decreases k,
{
    if k == 0 {
        assert(events.take(0) =~= Seq::<Happening>::empty());
    } else {
        lemma_state_unfolds(start, events, k - 1);
        let before = state_before(start, events, k - 1);
        if past_wait(before.phase) {
            let earlier = k - 1;
            lemma_wait_precedes(start, events, earlier);
            let j = choose|j: int| waited_at(start, events, earlier, j);
            assert(waited_at(start, events, k, j));
        } else {
            assert(waited_at(start, events, k, k - 1));
        }
    }
}

/// Whenever a driver that started at rest asks for the fence of a slot to be
/// reset, or for the slot's command buffer to be recorded anew, it has
/// waited on that fence before, within the same frame, and seen it signaled.
pub proof fn lemma_fence_discipline(start: Driver, events: Seq<Happening>, k: int)
    requires
        start.phase is Idle,
        0 <= k < events.len(),
        order_at(start, events, k) is ResetFence || order_at(start, events, k) is Record,
    ensures
        exists|j: int| waited_at(start, events, k, j),
{
    lemma_wait_precedes(start, events, k);
}

/// Upon event `j` the driver asked for the fence of the slot to be reset,
/// and the frame has gone on since on the same slot.
pub open spec fn reset_at(start: Driver, events: Seq<Happening>, k: int, j: int) -> bool {
    &&& 0 <= j < k
    &&& order_at(start, events, j) == Order::ResetFence {
        fence: state_before(start, events, k).sync().in_flight,
    }
    &&& forall|m: int|
        j < m <= k ==> {
            &&& (#[trigger] state_before(start, events, m)).slot == state_before(
                start,
                events,
                k,
            ).slot
            &&& state_before(start, events, m).bundle == state_before(start, events, k).bundle
            &&& !(state_before(start, events, m).phase is Idle)
        }
}

/// One transition into or within the phases between the reset of the fence
/// and the submission: either the frame was there already and goes on with
/// its slot and bundle, or the reset of the slot's fence is just asked for.
proof fn lemma_step_towards_submission(before: Driver, event: Happening)
    requires
        before.next(event).0.phase is Resetting || before.next(event).0.phase is Recording,
    ensures
        before.next(event).0.slot == before.slot,
        before.next(event).0.bundle == before.bundle,
        !(before.phase is Resetting || before.phase is Recording) ==> before.next(event).1 == (
        Order::ResetFence { fence: before.next(event).0.sync().in_flight }),
{
}

proof fn lemma_reset_precedes(start: Driver, events: Seq<Happening>, k: int)
    requires
        start.phase is Idle,
        0 <= k <= events.len(),
        state_before(start, events, k).phase is Resetting || state_before(
            start,
            events,
            k,
        ).phase is Recording,
    ensures
        exists|j: int| reset_at(start, events, k, j),
    decreases k,
{
    if k == 0 {
        assert(events.take(0) =~= Seq::<Happening>::empty());
    } else {
        let earlier = k - 1;
        lemma_state_unfolds(start, events, earlier);
        let before = state_before(start, events, earlier);
        let after = state_before(start, events, k);
        assert(after == before.next(events[earlier]).0);
        lemma_step_towards_submission(before, events[earlier]);
        if before.phase is Resetting || before.phase is Recording {
            lemma_reset_precedes(start, events, earlier);
            let j = choose|j: int| reset_at(start, events, earlier, j);
            assert forall|m: int| j < m <= k implies {
                &&& (#[trigger] state_before(start, events, m)).slot == after.slot
                &&& state_before(start, events, m).bundle == after.bundle
                &&& !(state_before(start, events, m).phase is Idle)
            } by {
                if m < k {
                    assert(state_before(start, events, m).slot == before.slot);
                }
            }
            assert(reset_at(start, events, k, j));
        } else {
            assert(order_at(start, events, earlier) == before.next(events[earlier]).1);
            assert(reset_at(start, events, k, earlier));
        }
    }
}

/// Whenever a driver that started at rest asks for a submission, which
/// signals the fence of the slot, it has asked before, within the same frame
/// and for the same bundle, for that fence to be reset.
pub proof fn lemma_reset_before_submission(start: Driver, events: Seq<Happening>, k: int)
    requires
        start.phase is Idle,
        0 <= k < events.len(),
        order_at(start, events, k) is Submit,
    ensures
        exists|j: int| reset_at(start, events, k, j),
        order_at(start, events, k)->Submit_fence == state_before(start, events, k).sync().in_flight,
{
    lemma_reset_precedes(start, events, k);
}

/// Upon event `j` the driver asked for the device to become idle, and it has
/// asked for no submission between then and event `k`.
pub open spec fn drained_at(start: Driver, events: Seq<Happening>, k: int, j: int) -> bool {
    &&& 0 <= j < k
    &&& order_at(start, events, j) is WaitIdle
    &&& forall|m: int| j < m < k ==> !((#[trigger] order_at(start, events, m)) is Submit)
}

proof fn lemma_drain_precedes(start: Driver, events: Seq<Happening>, k: int)
    requires
        !(start.phase is Draining),
        0 <= k <= events.len(),
        state_before(start, events, k).phase is Draining,
    ensures
        exists|j: int| drained_at(start, events, k, j),
    decreases k,
{
    if k == 0 {
        assert(events.take(0) =~= Seq::<Happening>::empty());
    } else {
        lemma_state_unfolds(start, events, k - 1);
        let before = state_before(start, events, k - 1);
        if before.phase is Draining {
            let earlier = k - 1;
            lemma_drain_precedes(start, events, earlier);
            let j = choose|j: int| drained_at(start, events, earlier, j);
            assert(!(order_at(start, events, k - 1) is Submit));
            assert(drained_at(start, events, k, j));
        } else {
            assert(order_at(start, events, k - 1) is WaitIdle);
            assert(drained_at(start, events, k, k - 1));
        }
    }
}

/// A teardown is asked for only upon the news that the device is idle, after
/// the driver has asked for that, and with no submission asked for in
/// between; and what is torn down is the bundle held.
pub proof fn lemma_idle_before_teardown(start: Driver, events: Seq<Happening>, k: int)
    requires
        !(start.phase is Draining),
        0 <= k < events.len(),
        order_at(start, events, k) is Teardown,
    ensures
        events[k] is DeviceIdle,
        exists|j: int| drained_at(start, events, k, j),
        order_at(start, events, k) == (Order::Teardown {
            steps: state_before(start, events, k).bundle->0.teardown(),
        }),
{
    lemma_drain_precedes(start, events, k);
}

/// Upon event `j`, the news that the device is idle, the driver asked for
/// the teardown of its bundle, and it has asked for nothing but rest since.
pub open spec fn torn_down_at(start: Driver, events: Seq<Happening>, k: int, j: int) -> bool {
    &&& 0 <= j < k
    &&& events[j] is DeviceIdle
    &&& order_at(start, events, j) is Teardown
    &&& forall|m: int| j < m < k ==> !((#[trigger] order_at(start, events, m)) is Submit)
}

proof fn lemma_teardown_precedes(start: Driver, events: Seq<Happening>, k: int)
    requires
        !(start.phase is TearingDown),
        0 <= k <= events.len(),
        state_before(start, events, k).phase is TearingDown,
    ensures
        exists|j: int| torn_down_at(start, events, k, j),
    decreases k,
{
    if k == 0 {
        assert(events.take(0) =~= Seq::<Happening>::empty());
    } else {
        lemma_state_unfolds(start, events, k - 1);
        let before = state_before(start, events, k - 1);
        if before.phase is TearingDown {
            let earlier = k - 1;
            lemma_teardown_precedes(start, events, earlier);
            let j = choose|j: int| torn_down_at(start, events, earlier, j);
            assert(!(order_at(start, events, k - 1) is Submit));
            assert(torn_down_at(start, events, k, j));
        } else {
            assert(order_at(start, events, k - 1) is Teardown);
            assert(torn_down_at(start, events, k, k - 1));
        }
    }
}

/// The surface of a window is destroyed only once its bundle has been torn
/// down, which was asked for upon the news that the device is idle; and
/// then the driver is closed and holds nothing.
pub proof fn lemma_surface_outlives_bundle(start: Driver, events: Seq<Happening>, k: int)
    requires
        !(start.phase is TearingDown),
        0 <= k < events.len(),
        order_at(start, events, k) is DestroySurface,
    ensures
        events[k] is TornDown,
        exists|j: int| torn_down_at(start, events, k, j),
        state_before(start, events, k).next(events[k]).0.phase is Closed,
        state_before(start, events, k).next(events[k]).0.bundle is None,
{
    lemma_teardown_precedes(start, events, k);
}

/// While a bundle is rebuilt the driver holds none, and the bundle it holds
/// afterwards is the new one whole, with one view and one framebuffer per
/// image and one synchronization set per frame in flight: nothing of the
/// bundle torn down is left.
pub proof fn lemma_rebuilt_bundle_is_whole(driver: Driver, built: Bundle)
    requires
        driver.wf(),
        driver.phase is Rebuilding,
    ensures
        driver.bundle is None,
        built.wf(driver.frames) ==> driver.next(Happening::Rebuilt(built)).0.bundle == Some(
            built,
        ),
        !built.wf(driver.frames) ==> driver.next(Happening::Rebuilt(built)).0.phase is Failed,
{
}

/// A stale surface at acquisition: the device is waited for, the bundle
/// held is torn down, a new one is built and takes its place, and the
/// acquisition is tried once more on the same slot.
pub proof fn lemma_recreation_upon_acquisition(driver: Driver, built: Bundle)
    requires
        driver.wf(),
        driver.phase == (Phase::Acquiring { retried: false }),
        built.wf(driver.frames),
    ensures
        ({
            let (s1, o1) = driver.next(Happening::StaleSurface);
            let (s2, o2) = s1.next(Happening::DeviceIdle);
            let (s3, o3) = s2.next(Happening::TornDown);
            let (s4, o4) = s3.next(Happening::Rebuilt(built));
            &&& o1 == Order::WaitIdle
            &&& o2 == Order::Teardown { steps: driver.bundle->0.teardown() }
            &&& o3 == Order::Rebuild { surface: driver.surface, frames: driver.frames }
            &&& s3.bundle is None
            &&& o4 == Order::Acquire {
                chain: built.handle,
                timeout: UNBOUNDED,
                signal: built.sync[driver.slot as int].swapchain,
            }
            &&& s4 == Driver {
                phase: Phase::Acquiring { retried: true },
                bundle: Some(built),
                ..driver
            }
        }),
{
}

/// A stale surface at presentation: the bundle is recreated, the frame is
/// not presented again, another redraw is asked for, and the slot moves on.
pub proof fn lemma_recreation_upon_presentation(driver: Driver, built: Bundle)
    requires
        driver.wf(),
        driver.phase is Presenting,
        !driver.closing,
        built.wf(driver.frames),
    ensures
        ({
            let (s1, o1) = driver.next(Happening::StaleSurface);
            let (s2, o2) = s1.next(Happening::DeviceIdle);
            let (s3, o3) = s2.next(Happening::TornDown);
            let (s4, o4) = s3.next(Happening::Rebuilt(built));
            &&& o1 == Order::WaitIdle
            &&& o2 == Order::Teardown { steps: driver.bundle->0.teardown() }
            &&& o3 == Order::Rebuild { surface: driver.surface, frames: driver.frames }
            &&& s3.bundle is None
            &&& o4 == Order::RequestRedraw
            &&& s4 == Driver {
                phase: Phase::Idle,
                slot: (driver.slot + 1) % driver.frames,
                bundle: Some(built),
                ..driver
            }
        }),
{
}

/// Where the surface lacks the preferred format, the first format it
/// reports is taken.
pub proof fn lemma_format_fallback(formats: Seq<i32>, preferred: i32)
    requires
        formats.len() > 0,
        !formats.contains(preferred),
    ensures
        selected_format(formats, preferred) == Some(formats[0]),
{
}

/// The extent of a planned chain lies within what the surface reports,
/// whatever the size of the window.
pub proof fn lemma_extent_clamped(
    window: Extent,
    limits: SurfaceLimits,
    formats: Seq<i32>,
    frames: nat,
)
    requires
        limits.ordered(),
        formats.len() > 0,
        frames > 0,
    ensures
        planned_swapchain(window, limits, formats, frames) is Ok,
        limits.admits(planned_swapchain(window, limits, formats, frames)->Ok_0.extent),
        !formats.contains(FORMAT_B8G8R8A8_SRGB) ==> planned_swapchain(
            window,
            limits,
            formats,
            frames,
        )->Ok_0.format == formats[0],
{
}

} // verus!
