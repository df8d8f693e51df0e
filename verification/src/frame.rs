use crate::record::{record_into_buffer, recorded, Command};
use crate::swapchain::{Bundle, BundleError, Destroy, Extent, PerSwapchain, SYN};
use vstd::prelude::*;

verus! {

/// The time limit of a wait that has none.
pub const UNBOUNDED: u64 = 0xffff_ffff_ffff_ffff;

/// The bit of the pipeline stage in which colours are written to the
/// attachments.
pub const STAGE_COLOR_ATTACHMENT_OUTPUT: u32 = 0x400;

/// What set a teardown of the bundle going.
#[derive(Clone, Copy, Debug, PartialEq, Eq, Structural)]
pub enum Cause {
    /// Acquisition found the surface stale.
    Acquisition,
    /// Presentation found the surface stale.
    Presentation,
    /// The window is closing.
    Close,
}

/// Where a window's driver stands; each phase but `Idle`, `Closed` and
/// `Failed` waits for the outcome of one operation handed to the caller.
#[derive(Clone, Copy, Debug, PartialEq, Eq, Structural)]
pub enum Phase {
    /// Waiting for the next redraw notification.
    Idle,
    /// Blocked on the in-flight fence of the current slot.
    Waiting,
    /// Asking for the next image; `retried` after a recreation.
    Acquiring { retried: bool },
    /// Waiting for the device to become idle.
    Draining { cause: Cause },
    /// The old bundle is being destroyed.
    TearingDown { cause: Cause },
    /// A new bundle is being built; none is held meanwhile.
    Rebuilding { cause: Cause },
    /// The fence of the current slot is being reset.
    Resetting { image: u32 },
    Recording { image: u32 },
    Submitting { image: u32 },
    /// The window is being told that presentation is imminent.
    Notifying { image: u32 },
    Presenting { image: u32 },
    /// The window is gone and nothing is held.
    Closed,
    /// A fatal error was reported; the driver does nothing further.
    Failed,
}

/// A fatal error of a window's driver.
#[derive(Clone, Copy, Debug, PartialEq, Eq, Structural)]
pub enum FrameError {
    /// The device reported a failure other than a stale surface.
    Device { code: i32 },
    /// The surface was stale again right after a recreation.
    StaleAfterRecreation,
    /// The acquired image index has no framebuffer.
    ImageIndex { index: u32 },
    /// The parts of a bundle do not fit together.
    Bundle(BundleError),
}

/// What the outside reports to a driver.
#[derive(Debug)]
pub enum Event {
    RedrawRequested,
    Resized,
    CloseRequested,
    FenceSignaled,
    Acquired { index: u32, suboptimal: bool },
    /// Acquisition or presentation found the surface out of date.
    StaleSurface,
    FenceReset,
    Recorded,
    Submitted,
    Notified,
    Presented,
    DeviceIdle,
    TornDown,
    Rebuilt(PerSwapchain),
    /// The operation asked for failed, with the device's code.
    Failed { code: i32 },
}

/// The mathematical content of an [`Event`].
pub enum Happening {
    RedrawRequested,
    Resized,
    CloseRequested,
    FenceSignaled,
    Acquired { index: u32, suboptimal: bool },
    StaleSurface,
    FenceReset,
    Recorded,
    Submitted,
    Notified,
    Presented,
    DeviceIdle,
    TornDown,
    Rebuilt(Bundle),
    Failed { code: i32 },
}

impl View for Event {
    type V = Happening;

    open spec fn view(&self) -> Happening {
        match self {
            Event::RedrawRequested => Happening::RedrawRequested,
            Event::Resized => Happening::Resized,
            Event::CloseRequested => Happening::CloseRequested,
            Event::FenceSignaled => Happening::FenceSignaled,
            Event::Acquired { index, suboptimal } => Happening::Acquired {
                index: *index,
                suboptimal: *suboptimal,
            },
            Event::StaleSurface => Happening::StaleSurface,
            Event::FenceReset => Happening::FenceReset,
            Event::Recorded => Happening::Recorded,
            Event::Submitted => Happening::Submitted,
            Event::Notified => Happening::Notified,
            Event::Presented => Happening::Presented,
            Event::DeviceIdle => Happening::DeviceIdle,
            Event::TornDown => Happening::TornDown,
            Event::Rebuilt(bundle) => Happening::Rebuilt(bundle@),
            Event::Failed { code } => Happening::Failed { code: *code },
        }
    }
}

/// What a driver asks the caller to do next.
#[derive(Debug)]
pub enum Action {
    /// Nothing to do until the next notification.
    Nothing,
    /// The event does not apply in the driver's phase; nothing changed.
    Ignored,
    /// Wait until `fence` is signaled, for `timeout` nanoseconds at most.
    WaitFence { fence: u64, timeout: u64 },
    /// Ask `chain` for its next image, waiting `timeout` nanoseconds at
    /// most and signaling `signal` when the image is ready.
    Acquire { chain: u64, timeout: u64, signal: u64 },
    ResetFence { fence: u64 },
    /// Reset the command buffer of `slot` and record these commands into it.
    Record { slot: usize, commands: Vec<Command> },
    /// Submit the command buffer of `slot`: it waits on `wait` at the
    /// pipeline stage `stage` and signals `signal` and `fence` when done.
    Submit { slot: usize, wait: u64, stage: u32, signal: u64, fence: u64 },
    /// Tell the window that presentation is imminent.
    NotifyPrePresent,
    Present { chain: u64, image: u32, wait: u64 },
    /// Ask the window for another redraw notification.
    RequestRedraw,
    /// Wait until the device is idle.
    WaitIdle,
    /// Destroy these objects, in this order.
    Teardown { steps: Vec<Destroy> },
    /// Build a bundle for `surface` at the window's current size, with
    /// `frames` synchronization sets.
    Rebuild { surface: u64, frames: usize },
    /// Destroy `surface`: the window is closed.
    DestroySurface { surface: u64 },
    /// Give up on this window.
    Fatal(FrameError),
}

/// The mathematical content of an [`Action`].
pub enum Order {
    Nothing,
    Ignored,
    WaitFence { fence: u64, timeout: u64 },
    Acquire { chain: u64, timeout: u64, signal: u64 },
    ResetFence { fence: u64 },
    Record { slot: nat, commands: Seq<Command> },
    Submit { slot: nat, wait: u64, stage: u32, signal: u64, fence: u64 },
    NotifyPrePresent,
    Present { chain: u64, image: u32, wait: u64 },
    RequestRedraw,
    WaitIdle,
    Teardown { steps: Seq<Destroy> },
    Rebuild { surface: u64, frames: nat },
    DestroySurface { surface: u64 },
    Fatal(FrameError),
}

impl View for Action {
    type V = Order;

    open spec fn view(&self) -> Order {
        match self {
            Action::Nothing => Order::Nothing,
            Action::Ignored => Order::Ignored,
            Action::WaitFence { fence, timeout } => Order::WaitFence {
                fence: *fence,
                timeout: *timeout,
            },
            Action::Acquire { chain, timeout, signal } => Order::Acquire {
                chain: *chain,
                timeout: *timeout,
                signal: *signal,
            },
            Action::ResetFence { fence } => Order::ResetFence { fence: *fence },
            Action::Record { slot, commands } => Order::Record {
                slot: *slot as nat,
                commands: commands@,
            },
            Action::Submit { slot, wait, stage, signal, fence } => Order::Submit {
                slot: *slot as nat,
                wait: *wait,
                stage: *stage,
                signal: *signal,
                fence: *fence,
            },
            Action::NotifyPrePresent => Order::NotifyPrePresent,
            Action::Present { chain, image, wait } => Order::Present {
                chain: *chain,
                image: *image,
                wait: *wait,
            },
            Action::RequestRedraw => Order::RequestRedraw,
            Action::WaitIdle => Order::WaitIdle,
            Action::Teardown { steps } => Order::Teardown { steps: steps@ },
            Action::Rebuild { surface, frames } => Order::Rebuild {
                surface: *surface,
                frames: *frames as nat,
            },
            Action::DestroySurface { surface } => Order::DestroySurface { surface: *surface },
            Action::Fatal(error) => Order::Fatal(*error),
        }
    }
}

/// The mathematical content of a [`FrameDriver`].
pub struct Driver {
    /// The surface of the window, which outlives every bundle.
    pub surface: u64,
    pub phase: Phase,
    /// The frame slot in use, below `frames`.
    pub slot: nat,
    /// How many frames may be in flight.
    pub frames: nat,
    /// The window changed size since the chain was built.
    pub resized: bool,
    /// The window is to close once the frame under way has ended.
    pub closing: bool,
    pub bundle: Option<Bundle>,
}

impl Phase {
    /// The phases in which an image has been acquired, with that image.
    pub open spec fn image(self) -> Option<u32> {
        match self {
            Phase::Resetting { image } => Some(image),
            Phase::Recording { image } => Some(image),
            Phase::Submitting { image } => Some(image),
            Phase::Notifying { image } => Some(image),
            Phase::Presenting { image } => Some(image),
            _ => None,
        }
    }

    /// The phases in which nothing will ever happen again.
    pub open spec fn ended(self) -> bool {
        self is Closed || self is Failed
    }
}

impl Driver {
    /// A driver holds a fitting bundle in every phase but while one is being
    /// rebuilt and after the end; its slot is below the frames in flight; and
    /// an acquired image has a framebuffer.
    pub open spec fn wf(self) -> bool {
        &&& self.frames > 0
        &&& self.slot < self.frames
        &&& match self.phase {
            Phase::Rebuilding { cause } => self.bundle is None && cause != Cause::Close,
            Phase::Closed => self.bundle is None,
            Phase::Failed => true,
            _ => self.bundle is Some && self.bundle->0.wf(self.frames),
        }
        &&& match self.phase.image() {
            Some(image) => image < self.bundle->0.framebuffers.len(),
            None => true,
        }
        &&& match self.phase {
            Phase::Draining { cause } => cause == Cause::Close ==> self.closing,
            Phase::TearingDown { cause } => cause == Cause::Close ==> self.closing,
            _ => true,
        }
    }

    /// The synchronization set of the slot in use.
    pub open spec fn sync(self) -> SYN {
        self.bundle->0.sync[self.slot as int]
    }

    /// Leaves the driver as it is.
    pub open spec fn ignore(self) -> (Driver, Order) {
        (self, Order::Ignored)
    }

    /// Ends with a fatal error.
    pub open spec fn fail(self, error: FrameError) -> (Driver, Order) {
        (Driver { phase: Phase::Failed, ..self }, Order::Fatal(error))
    }

    /// Starts the recreation or the closing: the device must be idle first.
    pub open spec fn drain(self, cause: Cause) -> (Driver, Order) {
        (Driver { phase: Phase::Draining { cause }, ..self }, Order::WaitIdle)
    }

    /// Ends a frame: the slot moves on by one, and the driver rests, or
    /// starts closing where that was asked for meanwhile.
    pub open spec fn settle(self, redraw: bool) -> (Driver, Order) {
        let next = Driver { slot: (self.slot + 1) % self.frames, ..self };
        if self.closing {
            next.drain(Cause::Close)
        } else {
            (
                Driver { phase: Phase::Idle, ..next },
                if redraw {
                    Order::RequestRedraw
                } else {
                    Order::Nothing
                },
            )
        }
    }

    /// Goes on with an acquired image: the fence of the slot is reset next.
    pub open spec fn accept(self, index: u32) -> (Driver, Order) {
        if index < self.bundle->0.framebuffers.len() {
            (
                Driver { phase: Phase::Resetting { image: index }, ..self },
                Order::ResetFence { fence: self.sync().in_flight },
            )
        } else {
            self.fail(FrameError::ImageIndex { index })
        }
    }

    /// The driver after `event`, and what it asks for.
    pub open spec fn next(self, event: Happening) -> (Driver, Order) {
        if self.phase.ended() {
            self.ignore()
        } else {
            match event {
                Happening::Resized => (Driver { resized: true, ..self }, Order::RequestRedraw),
                Happening::CloseRequested => {
                    if self.closing {
                        self.ignore()
                    } else if self.phase is Idle {
                        (Driver { closing: true, ..self }).drain(Cause::Close)
                    } else {
                        (Driver { closing: true, ..self }, Order::Nothing)
                    }
                },
                Happening::Failed { code } => {
                    if self.phase is Idle {
                        self.ignore()
                    } else {
                        self.fail(FrameError::Device { code })
                    }
                },
                Happening::RedrawRequested => {
                    if self.phase is Idle {
                        (
                            Driver { phase: Phase::Waiting, ..self },
                            Order::WaitFence { fence: self.sync().in_flight, timeout: UNBOUNDED },
                        )
                    } else {
                        self.ignore()
                    }
                },
                Happening::FenceSignaled => {
                    if self.phase is Waiting {
                        (
                            Driver { phase: Phase::Acquiring { retried: false }, ..self },
                            Order::Acquire {
                                chain: self.bundle->0.handle,
                                timeout: UNBOUNDED,
                                signal: self.sync().swapchain,
                            },
                        )
                    } else {
                        self.ignore()
                    }
                },
                Happening::Acquired { index, suboptimal } => {
                    match self.phase {
                        Phase::Acquiring { retried: false } => {
                            if suboptimal || self.resized {
                                self.drain(Cause::Acquisition)
                            } else {
                                self.accept(index)
                            }
                        },
                        Phase::Acquiring { retried: true } => {
                            (Driver { resized: suboptimal, ..self }).accept(index)
                        },
                        _ => self.ignore(),
                    }
                },
                Happening::StaleSurface => {
                    match self.phase {
                        Phase::Acquiring { retried: false } => self.drain(Cause::Acquisition),
                        Phase::Acquiring { retried: true } => self.fail(
                            FrameError::StaleAfterRecreation,
                        ),
                        Phase::Presenting { image } => self.drain(Cause::Presentation),
                        _ => self.ignore(),
                    }
                },
                Happening::FenceReset => {
                    match self.phase {
                        Phase::Resetting { image } => (
                            Driver { phase: Phase::Recording { image }, ..self },
                            Order::Record {
                                slot: self.slot,
                                commands: recorded(
                                    self.bundle->0.framebuffers[image as int],
                                    self.bundle->0.extent,
                                ),
                            },
                        ),
                        _ => self.ignore(),
                    }
                },
                Happening::Recorded => {
                    match self.phase {
                        Phase::Recording { image } => (
                            Driver { phase: Phase::Submitting { image }, ..self },
                            Order::Submit {
                                slot: self.slot,
                                wait: self.sync().swapchain,
                                stage: STAGE_COLOR_ATTACHMENT_OUTPUT,
                                signal: self.sync().presentation,
                                fence: self.sync().in_flight,
                            },
                        ),
                        _ => self.ignore(),
                    }
                },
                Happening::Submitted => {
                    match self.phase {
                        Phase::Submitting { image } => (
                            Driver { phase: Phase::Notifying { image }, ..self },
                            Order::NotifyPrePresent,
                        ),
                        _ => self.ignore(),
                    }
                },
                Happening::Notified => {
                    match self.phase {
                        Phase::Notifying { image } => (
                            Driver { phase: Phase::Presenting { image }, ..self },
                            Order::Present {
                                chain: self.bundle->0.handle,
                                image,
                                wait: self.sync().presentation,
                            },
                        ),
                        _ => self.ignore(),
                    }
                },
                Happening::Presented => {
                    match self.phase {
                        Phase::Presenting { image } => self.settle(false),
                        _ => self.ignore(),
                    }
                },
                Happening::DeviceIdle => {
                    match self.phase {
                        Phase::Draining { cause } => (
                            Driver { phase: Phase::TearingDown { cause }, ..self },
                            Order::Teardown { steps: self.bundle->0.teardown() },
                        ),
                        _ => self.ignore(),
                    }
                },
                Happening::TornDown => {
                    match self.phase {
                        Phase::TearingDown { cause } => {
                            if cause == Cause::Close {
                                (
                                    Driver { phase: Phase::Closed, bundle: None, ..self },
                                    Order::DestroySurface { surface: self.surface },
                                )
                            } else {
                                (
                                    Driver {
                                        phase: Phase::Rebuilding { cause },
                                        bundle: None,
                                        ..self
                                    },
                                    Order::Rebuild { surface: self.surface, frames: self.frames },
                                )
                            }
                        },
                        _ => self.ignore(),
                    }
                },
                Happening::Rebuilt(bundle) => {
                    match self.phase {
                        Phase::Rebuilding { cause } => {
                            match crate::swapchain::assembled(bundle, self.frames) {
                                Err(error) => self.fail(FrameError::Bundle(error)),
                                Ok(_) => {
                                    let held = Driver { bundle: Some(bundle), ..self };
                                    if cause == Cause::Acquisition {
                                        (
                                            Driver {
                                                phase: Phase::Acquiring { retried: true },
                                                ..held
                                            },
                                            Order::Acquire {
                                                chain: bundle.handle,
                                                timeout: UNBOUNDED,
                                                signal: held.sync().swapchain,
                                            },
                                        )
                                    } else {
                                        held.settle(true)
                                    }
                                },
                            }
                        },
                        _ => self.ignore(),
                    }
                },
            }
        }
    }
}

/// The frame loop of one window: it holds the window's bundle and decides, event
/// by event, what is done next.
#[derive(Debug)]
pub struct FrameDriver {
    surface: u64,
    phase: Phase,
    slot: usize,
    frames: usize,
    resized: bool,
    closing: bool,
    bundle: Option<PerSwapchain>,
}

impl View for FrameDriver {
    type V = Driver;

    closed spec fn view(&self) -> Driver {
        Driver {
            surface: self.surface,
            phase: self.phase,
            slot: self.slot as nat,
            frames: self.frames as nat,
            resized: self.resized,
            closing: self.closing,
            bundle: match self.bundle {
                Some(bundle) => Some(bundle@),
                None => None,
            },
        }
    }
}

/// A driver for the window of `surface`, at rest on slot 0 with `bundle`.
pub open spec fn fresh(surface: u64, bundle: Bundle, frames: nat) -> Driver {
    Driver {
        surface,
        phase: Phase::Idle,
        slot: 0,
        frames,
        resized: false,
        closing: false,
        bundle: Some(bundle),
    }
}

impl FrameDriver {
    #[verifier::type_invariant]
    spec fn inv(self) -> bool {
        self@.wf()
    }

    /// Starts the frame loop of the window of `surface` at rest on slot 0.
    /// The bundle must hold `frames` synchronization sets, and `frames` must
    /// not be zero.
    pub fn new(surface: u64, bundle: PerSwapchain, frames: usize) -> (out: Result<
        FrameDriver,
        FrameError,
    >)
        ensures
            frames == 0 ==> out == Err::<FrameDriver, FrameError>(
                FrameError::Bundle(BundleError::NoFrameSlot),
            ),
            frames != 0 ==> match crate::swapchain::assembled(bundle@, frames as nat) {
                Ok(_) => out is Ok && out->Ok_0@ == fresh(surface, bundle@, frames as nat)
                    && out->Ok_0@.wf(),
                Err(error) => out == Err::<FrameDriver, FrameError>(FrameError::Bundle(error)),
            },
    {
        if frames == 0 {
            return Err(FrameError::Bundle(BundleError::NoFrameSlot));
        }
        if bundle.views.len() != bundle.images.len() {
            return Err(FrameError::Bundle(BundleError::ViewCount));
        }
        if bundle.framebuffers.len() != bundle.images.len() {
            return Err(FrameError::Bundle(BundleError::FramebufferCount));
        }
        if bundle.sync.len() != frames {
            return Err(FrameError::Bundle(BundleError::SyncCount));
        }
        Ok(
            FrameDriver {
                surface,
                phase: Phase::Idle,
                slot: 0,
                frames,
                resized: false,
                closing: false,
                bundle: Some(bundle),
            },
        )
    }

    /// The phase the driver is in. A driver is well formed at any time.
    pub fn phase(&self) -> (out: Phase)
        ensures
            out == self@.phase,
            self@.wf(),
    {
        proof {
            use_type_invariant(self);
        }
        self.phase
    }

    /// The frame slot in use.
    pub fn current_frame(&self) -> (out: usize)
        ensures
            out == self@.slot,
    {
        self.slot
    }

    /// The surface of the window.
    pub fn surface(&self) -> (out: u64)
        ensures
            out == self@.surface,
    {
        self.surface
    }

    /// How many frames may be in flight.
    pub fn max_frames_in_flight(&self) -> (out: usize)
        ensures
            out == self@.frames,
    {
        self.frames
    }

    /// Whether the window changed size since the chain was built.
    pub fn resized(&self) -> (out: bool)
        ensures
            out == self@.resized,
    {
        self.resized
    }

    /// The bundle held, if any.
    pub fn swapchain(&self) -> (out: Option<&PerSwapchain>)
        ensures
            match out {
                Some(bundle) => self@.bundle == Some(bundle@),
                None => self@.bundle is None,
            },
    {
        self.bundle.as_ref()
    }

    fn settle(&mut self, redraw: bool) -> (action: Action)
        requires
            old(self)@.phase is Presenting,
        ensures
            (final(self)@, action@) == old(self)@.settle(redraw),
    {
        proof {
            use_type_invariant(&*self);
        }
        self.slot = (self.slot + 1) % self.frames;
        if self.closing {
            self.phase = Phase::Draining { cause: Cause::Close };
            Action::WaitIdle
        } else {
            self.phase = Phase::Idle;
            if redraw {
                Action::RequestRedraw
            } else {
                Action::Nothing
            }
        }
    }

    fn fail(&mut self, error: FrameError) -> (action: Action)
        ensures
            (final(self)@, action@) == old(self)@.fail(error),
    {
        proof {
            use_type_invariant(&*self);
        }
        self.phase = Phase::Failed;
        Action::Fatal(error)
    }

    fn drain(&mut self, cause: Cause) -> (action: Action)
        requires
            old(self)@.bundle is Some,
            old(self)@.phase.image() is None || old(self)@.phase is Presenting,
            !(old(self)@.phase is Failed),
            cause == Cause::Close ==> old(self)@.closing,
        ensures
            (final(self)@, action@) == old(self)@.drain(cause),
    {
        proof {
            use_type_invariant(&*self);
        }
        self.phase = Phase::Draining { cause };
        Action::WaitIdle
    }

    fn accept(&mut self, index: u32) -> (action: Action)
        requires
            old(self)@.phase is Acquiring,
        ensures
            (final(self)@, action@) == old(self)@.accept(index),
    {
        proof {
            use_type_invariant(&*self);
        }
        let (count, fence): (usize, u64) = match &self.bundle {
            Some(bundle) => (bundle.framebuffers.len(), bundle.sync[self.slot].in_flight),
            None => (0, 0),
        };
        if (index as usize) < count {
            self.phase = Phase::Resetting { image: index };
            Action::ResetFence { fence }
        } else {
            self.fail(FrameError::ImageIndex { index })
        }
    }

    /// Takes one event and says what to do next. An event that does not apply
    /// in the driver's phase changes nothing and is answered with
    /// `Action::Ignored`.
    pub fn step(&mut self, event: Event) -> (action: Action)
        ensures
            (final(self)@, action@) == old(self)@.next(event@),
            old(self)@.wf(),
            final(self)@.wf(),
    {
        proof {
            use_type_invariant(&*self);
        }
        if matches!(self.phase, Phase::Closed | Phase::Failed) {
            return Action::Ignored;
        }
        match event {
            Event::Resized => {
                self.resized = true;
                Action::RequestRedraw
            },
            Event::CloseRequested => {
                if self.closing {
                    Action::Ignored
                } else if matches!(self.phase, Phase::Idle) {
                    self.closing = true;
                    self.drain(Cause::Close)
                } else {
                    self.closing = true;
                    Action::Nothing
                }
            },
            Event::Failed { code } => {
                if matches!(self.phase, Phase::Idle) {
                    Action::Ignored
                } else {
                    self.fail(FrameError::Device { code })
                }
            },
            Event::RedrawRequested => {
                match (self.phase, &self.bundle) {
                    (Phase::Idle, Some(bundle)) => {
                        let fence: u64 = bundle.sync[self.slot].in_flight;
                        self.phase = Phase::Waiting;
                        Action::WaitFence { fence, timeout: UNBOUNDED }
                    },
                    _ => Action::Ignored,
                }
            },
            Event::FenceSignaled => {
                match (self.phase, &self.bundle) {
                    (Phase::Waiting, Some(bundle)) => {
                        let chain: u64 = bundle.handle;
                        let signal: u64 = bundle.sync[self.slot].swapchain;
                        self.phase = Phase::Acquiring { retried: false };
                        Action::Acquire { chain, timeout: UNBOUNDED, signal }
                    },
                    _ => Action::Ignored,
                }
            },
            Event::Acquired { index, suboptimal } => {
                match self.phase {
                    Phase::Acquiring { retried: false } => {
                        if suboptimal || self.resized {
                            self.drain(Cause::Acquisition)
                        } else {
                            self.accept(index)
                        }
                    },
                    Phase::Acquiring { retried: true } => {
                        self.resized = suboptimal;
                        self.accept(index)
                    },
                    _ => Action::Ignored,
                }
            },
            Event::StaleSurface => {
                match self.phase {
                    Phase::Acquiring { retried: false } => self.drain(Cause::Acquisition),
                    Phase::Acquiring { retried: true } => self.fail(
                        FrameError::StaleAfterRecreation,
                    ),
                    Phase::Presenting { image } => self.drain(Cause::Presentation),
                    _ => Action::Ignored,
                }
            },
            Event::FenceReset => {
                match (self.phase, &self.bundle) {
                    (Phase::Resetting { image }, Some(bundle)) => {
                        let framebuffer: u64 = bundle.framebuffers[image as usize];
                        let extent: Extent = bundle.extent;
                        self.phase = Phase::Recording { image };
                        let commands: Vec<Command> = record_into_buffer(framebuffer, extent);
                        Action::Record { slot: self.slot, commands }
                    },
                    _ => Action::Ignored,
                }
            },
            Event::Recorded => {
                match (self.phase, &self.bundle) {
                    (Phase::Recording { image }, Some(bundle)) => {
                        let set: SYN = bundle.sync[self.slot];
                        self.phase = Phase::Submitting { image };
                        Action::Submit {
                            slot: self.slot,
                            wait: set.swapchain,
                            stage: STAGE_COLOR_ATTACHMENT_OUTPUT,
                            signal: set.presentation,
                            fence: set.in_flight,
                        }
                    },
                    _ => Action::Ignored,
                }
            },
            Event::Submitted => {
                match self.phase {
                    Phase::Submitting { image } => {
                        self.phase = Phase::Notifying { image };
                        Action::NotifyPrePresent
                    },
                    _ => Action::Ignored,
                }
            },
            Event::Notified => {
                match (self.phase, &self.bundle) {
                    (Phase::Notifying { image }, Some(bundle)) => {
                        let chain: u64 = bundle.handle;
                        let wait: u64 = bundle.sync[self.slot].presentation;
                        self.phase = Phase::Presenting { image };
                        Action::Present { chain, image, wait }
                    },
                    _ => Action::Ignored,
                }
            },
            Event::Presented => {
                match self.phase {
                    Phase::Presenting { image } => self.settle(false),
                    _ => Action::Ignored,
                }
            },
            Event::DeviceIdle => {
                match (self.phase, &self.bundle) {
                    (Phase::Draining { cause }, Some(bundle)) => {
                        let steps: Vec<Destroy> = bundle.cleanup();
                        self.phase = Phase::TearingDown { cause };
                        Action::Teardown { steps }
                    },
                    _ => Action::Ignored,
                }
            },
            Event::TornDown => {
                match self.phase {
                    Phase::TearingDown { cause } => {
                        let closed: bool = matches!(cause, Cause::Close);
                        *self = FrameDriver {
                            surface: self.surface,
                            phase: if closed {
                                Phase::Closed
                            } else {
                                Phase::Rebuilding { cause }
                            },
                            slot: self.slot,
                            frames: self.frames,
                            resized: self.resized,
                            closing: self.closing,
                            bundle: None,
                        };
                        if closed {
                            Action::DestroySurface { surface: self.surface }
                        } else {
                            Action::Rebuild { surface: self.surface, frames: self.frames }
                        }
                    },
                    _ => Action::Ignored,
                }
            },
            Event::Rebuilt(bundle) => {
                match self.phase {
                    Phase::Rebuilding { cause } => {
                        if bundle.views.len() != bundle.images.len() {
                            return self.fail(FrameError::Bundle(BundleError::ViewCount));
                        }
                        if bundle.framebuffers.len() != bundle.images.len() {
                            return self.fail(FrameError::Bundle(BundleError::FramebufferCount));
                        }
                        if bundle.sync.len() != self.frames {
                            return self.fail(FrameError::Bundle(BundleError::SyncCount));
                        }
                        let chain: u64 = bundle.handle;
                        let signal: u64 = bundle.sync[self.slot].swapchain;
                        if matches!(cause, Cause::Acquisition) {
                            *self = FrameDriver {
                                surface: self.surface,
                                phase: Phase::Acquiring { retried: true },
                                slot: self.slot,
                                frames: self.frames,
                                resized: self.resized,
                                closing: self.closing,
                                bundle: Some(bundle),
                            };
                            Action::Acquire { chain, timeout: UNBOUNDED, signal }
                        } else {
                            *self = FrameDriver {
                                surface: self.surface,
                                phase: if self.closing {
                                    Phase::Draining { cause: Cause::Close }
                                } else {
                                    Phase::Idle
                                },
                                slot: (self.slot + 1) % self.frames,
                                frames: self.frames,
                                resized: self.resized,
                                closing: self.closing,
                                bundle: Some(bundle),
                            };
                            if self.closing {
                                Action::WaitIdle
                            } else {
                                Action::RequestRedraw
                            }
                        }
                    },
                    _ => Action::Ignored,
                }
            },
        }
    }
}

} // verus!
