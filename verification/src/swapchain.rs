use vstd::prelude::*;

verus! {

/// Raw value of the 32-bit BGRA sRGB pixel format, the one a bundle prefers.
pub const FORMAT_B8G8R8A8_SRGB: i32 = 50;

/// Raw value of the 32-bit RGBA sRGB pixel format.
pub const FORMAT_R8G8B8A8_SRGB: i32 = 43;

/// Width and height of a drawable area, in pixels.
#[derive(Clone, Copy, Debug, PartialEq, Eq, Structural)]
pub struct Extent {
    pub width: u32,
    pub height: u32,
}

/// What a surface reports about the chains it can carry.
#[derive(Clone, Copy, Debug, PartialEq, Eq, Structural)]
pub struct SurfaceLimits {
    pub min_extent: Extent,
    pub max_extent: Extent,
    pub min_image_count: u32,
}

/// `value` moved into `[low, high]`; `low` wins where the range is empty.
pub open spec fn clamped(value: int, low: int, high: int) -> int {
    if value < low {
        low
    } else if value > high {
        high
    } else {
        value
    }
}

/// The extent a chain gets for a window of size `requested`.
pub open spec fn clamped_extent(requested: Extent, limits: SurfaceLimits) -> Extent {
    Extent {
        width: clamped(
            requested.width as int,
            limits.min_extent.width as int,
            limits.max_extent.width as int,
        ) as u32,
        height: clamped(
            requested.height as int,
            limits.min_extent.height as int,
            limits.max_extent.height as int,
        ) as u32,
    }
}

impl SurfaceLimits {
    /// The smallest extent does not exceed the largest one.
    pub open spec fn ordered(self) -> bool {
        &&& self.min_extent.width <= self.max_extent.width
        &&& self.min_extent.height <= self.max_extent.height
    }

    /// Whether `extent` lies inside the reported range.
    pub open spec fn admits(self, extent: Extent) -> bool {
        &&& self.min_extent.width <= extent.width <= self.max_extent.width
        &&& self.min_extent.height <= extent.height <= self.max_extent.height
    }
}

fn clamp_dimension(value: u32, low: u32, high: u32) -> (out: u32)
    ensures
        out == clamped(value as int, low as int, high as int),
{
    if value < low {
        low
    } else if value > high {
        high
    } else {
        value
    }
}

/// Moves a requested extent into the range the surface reports.
pub fn clamp_extent(requested: Extent, limits: &SurfaceLimits) -> (out: Extent)
    ensures
        out == clamped_extent(requested, *limits),
        limits.ordered() ==> limits.admits(out),
        limits.admits(requested) ==> out == requested,
{
    Extent {
        width: clamp_dimension(requested.width, limits.min_extent.width, limits.max_extent.width),
        height: clamp_dimension(
            requested.height,
            limits.min_extent.height,
            limits.max_extent.height,
        ),
    }
}

/// The format a chain gets: `preferred` where the surface supports it, else
/// the first format reported.
pub open spec fn selected_format(formats: Seq<i32>, preferred: i32) -> Option<i32> {
    if formats.len() == 0 {
        None
    } else if formats.contains(preferred) {
        Some(preferred)
    } else {
        Some(formats[0])
    }
}

/// Picks the pixel format of a chain from what the surface supports.
pub fn select_format(formats: &Vec<i32>, preferred: i32) -> (out: Option<i32>)
    ensures
        out == selected_format(formats@, preferred),
{
    if formats.len() == 0 {
        return None;
    }
    let mut i: usize = 0;
    while i < formats.len()
        invariant
            i <= formats.len(),
            forall|j: int| 0 <= j < i ==> formats@[j] != preferred,
        decreases formats.len() - i,
    {
        if formats[i] == preferred {
            return Some(preferred);
        }
        i += 1;
    }
    Some(formats[0])
}


/// Raw value of the sRGB non-linear colour space, the only one a chain uses.
pub const COLOR_SPACE_SRGB_NONLINEAR: i32 = 0;

/// Raw value of the first-in-first-out present mode, the only one a chain uses.
pub const PRESENT_MODE_FIFO: i32 = 2;

/// Why a bundle could not be planned or put together.
#[derive(Clone, Copy, Debug, PartialEq, Eq, Structural)]
pub enum BundleError {
    /// The surface reports no pixel format at all.
    NoFormat,
    /// Zero frames in flight were asked for.
    NoFrameSlot,
    /// The number of image views differs from the number of images.
    ViewCount,
    /// The number of framebuffers differs from the number of images.
    FramebufferCount,
    /// The number of synchronization sets differs from the frames in flight.
    SyncCount,
}

/// The settings a chain is created with.
#[derive(Clone, Copy, Debug, PartialEq, Eq, Structural)]
pub struct SwapchainRequest {
    pub min_image_count: u32,
    pub format: i32,
    pub color_space: i32,
    pub extent: Extent,
    pub array_layers: u32,
    pub present_mode: i32,
    pub clipped: bool,
    /// How many synchronization sets go with the chain.
    pub sync_sets: usize,
    /// Whether each new in-flight fence starts signaled, so that the first
    /// wait on it returns at once.
    pub fences_signaled: bool,
}

/// The settings of the chain for a window of size `window`.
pub open spec fn planned_swapchain(
    window: Extent,
    limits: SurfaceLimits,
    formats: Seq<i32>,
    frames: nat,
) -> Result<SwapchainRequest, BundleError> {
    if formats.len() == 0 {
        Err(BundleError::NoFormat)
    } else if frames == 0 {
        Err(BundleError::NoFrameSlot)
    } else {
        Ok(
            (SwapchainRequest {
                min_image_count: limits.min_image_count,
                format: selected_format(formats, FORMAT_B8G8R8A8_SRGB).unwrap(),
                color_space: COLOR_SPACE_SRGB_NONLINEAR,
                extent: clamped_extent(window, limits),
                array_layers: 1,
                present_mode: PRESENT_MODE_FIFO,
                clipped: true,
                sync_sets: frames as usize,
                fences_signaled: true,
            }),
        )
    }
}

/// One frame slot's coordination handles.
#[derive(Clone, Copy, Debug, PartialEq, Eq, Structural)]
pub struct SYN {
    /// Signaled when the image has been acquired; the submission waits on it.
    pub swapchain: u64,
    /// Signaled when rendering has finished; presentation waits on it.
    pub presentation: u64,
    /// Fence that gates reuse of the slot by the CPU.
    pub in_flight: u64,
}

/// One device object to destroy.
#[derive(Clone, Copy, Debug, PartialEq, Eq, Structural)]
pub enum Destroy {
    Semaphore(u64),
    Fence(u64),
    Framebuffer(u64),
    ImageView(u64),
    Swapchain(u64),
}

/// What is destroyed for one synchronization set, in order.
pub open spec fn sync_teardown(set: SYN) -> Seq<Destroy> {
    seq![
        Destroy::Semaphore(set.swapchain),
        Destroy::Semaphore(set.presentation),
        Destroy::Fence(set.in_flight),
    ]
}

/// What is destroyed for a row of synchronization sets: set after set, each
/// with its two signals before its fence.
pub open spec fn syncs_teardown(sync: Seq<SYN>) -> Seq<Destroy> {
    Seq::new(3 * sync.len(), |i: int| sync_teardown(sync[i / 3])[i % 3])
}

impl SYN {
    /// Puts the three handles of one frame slot together.
    pub fn new(swapchain: u64, presentation: u64, in_flight: u64) -> (out: SYN)
        ensures
            out == (SYN { swapchain, presentation, in_flight }),
    {
        SYN { swapchain, presentation, in_flight }
    }

    /// The objects of this set in the order they are destroyed.
    pub fn destroy(&self) -> (out: Vec<Destroy>)
        ensures
            out@ == sync_teardown(*self),
    {
        let mut out: Vec<Destroy> = Vec::new();
        out.push(Destroy::Semaphore(self.swapchain));
        out.push(Destroy::Semaphore(self.presentation));
        out.push(Destroy::Fence(self.in_flight));
        out
    }
}

/// A chain of presentable images with what is derived from it.
#[derive(Debug)]
pub struct PerSwapchain {
    pub handle: u64,
    pub format: i32,
    pub extent: Extent,
    pub images: Vec<u64>,
    pub views: Vec<u64>,
    pub framebuffers: Vec<u64>,
    pub sync: Vec<SYN>,
}

/// The mathematical content of a [`PerSwapchain`].
pub struct Bundle {
    pub handle: u64,
    pub format: i32,
    pub extent: Extent,
    pub images: Seq<u64>,
    pub views: Seq<u64>,
    pub framebuffers: Seq<u64>,
    pub sync: Seq<SYN>,
}

impl Bundle {
    /// One view and one framebuffer per image, and one synchronization set
    /// per frame in flight.
    pub open spec fn wf(self, frames: nat) -> bool {
        &&& self.views.len() == self.images.len()
        &&& self.framebuffers.len() == self.images.len()
        &&& self.sync.len() == frames
    }

    /// Every destruction of a teardown, in order: the synchronization sets,
    /// the framebuffers, the views, and the chain last.
    pub open spec fn teardown(self) -> Seq<Destroy> {
        syncs_teardown(self.sync) + self.framebuffers.map_values(
            |h: u64| Destroy::Framebuffer(h),
        ) + self.views.map_values(|h: u64| Destroy::ImageView(h)) + seq![
            Destroy::Swapchain(self.handle),
        ]
    }
}

impl View for PerSwapchain {
    type V = Bundle;

    open spec fn view(&self) -> Bundle {
        Bundle {
            handle: self.handle,
            format: self.format,
            extent: self.extent,
            images: self.images@,
            views: self.views@,
            framebuffers: self.framebuffers@,
            sync: self.sync@,
        }
    }
}

/// What `PerSwapchain::new` gives for these parts.
pub open spec fn assembled(parts: Bundle, frames: nat) -> Result<Bundle, BundleError> {
    if parts.views.len() != parts.images.len() {
        Err(BundleError::ViewCount)
    } else if parts.framebuffers.len() != parts.images.len() {
        Err(BundleError::FramebufferCount)
    } else if parts.sync.len() != frames {
        Err(BundleError::SyncCount)
    } else {
        Ok(parts)
    }
}

impl PerSwapchain {
    /// Plans the chain for a window of size `window`: the preferred format
    /// where the surface has it, else the first one reported; the window's
    /// size moved into the surface's range; and `frames` synchronization sets
    /// whose fences start signaled.
    pub fn create_swapchain(
        window: Extent,
        limits: &SurfaceLimits,
        formats: &Vec<i32>,
        frames: usize,
    ) -> (out: Result<SwapchainRequest, BundleError>)
        ensures
            out == planned_swapchain(window, *limits, formats@, frames as nat),
    {
        let format: i32 = match select_format(formats, FORMAT_B8G8R8A8_SRGB) {
            Some(format) => format,
            None => {
                return Err(BundleError::NoFormat);
            },
        };
        if frames == 0 {
            return Err(BundleError::NoFrameSlot);
        }
        Ok(
            SwapchainRequest {
                min_image_count: limits.min_image_count,
                format,
                color_space: COLOR_SPACE_SRGB_NONLINEAR,
                extent: clamp_extent(window, limits),
                array_layers: 1,
                present_mode: PRESENT_MODE_FIFO,
                clipped: true,
                sync_sets: frames,
                fences_signaled: true,
            },
        )
    }

    /// Puts a bundle together from the objects created for it. Nothing is
    /// handed out unless there is one view and one framebuffer per image and
    /// one synchronization set per frame in flight.
    pub fn new(
        handle: u64,
        format: i32,
        extent: Extent,
        images: Vec<u64>,
        views: Vec<u64>,
        framebuffers: Vec<u64>,
        sync: Vec<SYN>,
        frames: usize,
    ) -> (out: Result<PerSwapchain, BundleError>)
        ensures
            match assembled(
                (Bundle {
                    handle,
                    format,
                    extent,
                    images: images@,
                    views: views@,
                    framebuffers: framebuffers@,
                    sync: sync@,
                }),
                frames as nat,
            ) {
                Ok(bundle) => out is Ok && out->Ok_0@ == bundle && bundle.wf(frames as nat),
                Err(e) => out == Err::<PerSwapchain, BundleError>(e),
            },
    {
        if views.len() != images.len() {
            return Err(BundleError::ViewCount);
        }
        if framebuffers.len() != images.len() {
            return Err(BundleError::FramebufferCount);
        }
        if sync.len() != frames {
            return Err(BundleError::SyncCount);
        }
        Ok(PerSwapchain { handle, format, extent, images, views, framebuffers, sync })
    }

    /// Whether the bundle holds one view and one framebuffer per image and
    /// `frames` synchronization sets.
    pub fn is_wf(&self, frames: usize) -> (out: bool)
        ensures
            out == self@.wf(frames as nat),
    {
        self.views.len() == self.images.len() && self.framebuffers.len() == self.images.len()
            && self.sync.len() == frames
    }

    /// Everything to destroy when the bundle goes, in order: each
    /// synchronization set (its two signals, then its fence), the
    /// framebuffers, the views, and the chain itself last. The device must be
    /// idle before the first of these is carried out.
    pub fn cleanup(&self) -> (out: Vec<Destroy>)
        ensures
            out@ == self@.teardown(),
    {
        let mut out: Vec<Destroy> = Vec::new();
        let mut i: usize = 0;
        while i < self.sync.len()
            invariant
                i <= self.sync.len(),
                out@ == syncs_teardown(self.sync@.take(i as int)),
            decreases self.sync.len() - i,
        {
            let set: SYN = self.sync[i];
            out.push(Destroy::Semaphore(set.swapchain));
            out.push(Destroy::Semaphore(set.presentation));
            out.push(Destroy::Fence(set.in_flight));
            i += 1;
        }
        assert(self.sync@.take(i as int) == self.sync@);
        let ghost syncs = out@;
        let mut j: usize = 0;
        while j < self.framebuffers.len()
            invariant
                j <= self.framebuffers.len(),
                out@ == syncs + self.framebuffers@.take(j as int).map_values(
                    |h: u64| Destroy::Framebuffer(h),
                ),
            decreases self.framebuffers.len() - j,
        {
            out.push(Destroy::Framebuffer(self.framebuffers[j]));
            j += 1;
        }
        assert(self.framebuffers@.take(j as int) == self.framebuffers@);
        let ghost buffers = out@;
        let mut k: usize = 0;
        while k < self.views.len()
            invariant
                k <= self.views.len(),
                out@ == buffers + self.views@.take(k as int).map_values(
                    |h: u64| Destroy::ImageView(h),
                ),
            decreases self.views.len() - k,
        {
            out.push(Destroy::ImageView(self.views[k]));
            k += 1;
        }
        assert(self.views@.take(k as int) == self.views@);
        out.push(Destroy::Swapchain(self.handle));
        out
    }
}

/// The settings of the view onto one image: the same channels as the image,
/// its colour aspect, one mip level and one array layer.
#[derive(Clone, Copy, Debug, PartialEq, Eq, Structural)]
pub struct ViewRequest {
    pub image: u64,
    pub format: i32,
    pub identity_swizzle: bool,
    pub color_aspect: bool,
    pub base_mip_level: u32,
    pub level_count: u32,
    pub base_array_layer: u32,
    pub layer_count: u32,
}

/// The view settings for `image`.
pub open spec fn view_request(image: u64, format: i32) -> ViewRequest {
    ViewRequest {
        image,
        format,
        identity_swizzle: true,
        color_aspect: true,
        base_mip_level: 0,
        level_count: 1,
        base_array_layer: 0,
        layer_count: 1,
    }
}

/// Plans one view per image of the chain, in the order of the images.
pub fn create_views(images: &Vec<u64>, format: i32) -> (out: Vec<ViewRequest>)
    ensures
        out@ == images@.map_values(|image: u64| view_request(image, format)),
{
    let mut out: Vec<ViewRequest> = Vec::new();
    let mut i: usize = 0;
    while i < images.len()
        invariant
            i <= images.len(),
            out@ == images@.take(i as int).map_values(|image: u64| view_request(image, format)),
        decreases images.len() - i,
    {
        out.push(
            ViewRequest {
                image: images[i],
                format,
                identity_swizzle: true,
                color_aspect: true,
                base_mip_level: 0,
                level_count: 1,
                base_array_layer: 0,
                layer_count: 1,
            },
        );
        i += 1;
    }
    assert(images@.take(i as int) == images@);
    out
}

/// The settings of the framebuffer over one view.
#[derive(Clone, Copy, Debug, PartialEq, Eq, Structural)]
pub struct FramebufferRequest {
    pub attachment: u64,
    pub width: u32,
    pub height: u32,
    pub layers: u32,
}

/// The framebuffer settings for `view`.
pub open spec fn framebuffer_request(view: u64, extent: Extent) -> FramebufferRequest {
    FramebufferRequest { attachment: view, width: extent.width, height: extent.height, layers: 1 }
}

/// Plans one framebuffer per view, in the order of the views.
pub fn create_framebuffers(views: &Vec<u64>, extent: Extent) -> (out: Vec<FramebufferRequest>)
    ensures
        out@ == views@.map_values(|view: u64| framebuffer_request(view, extent)),
{
    let mut out: Vec<FramebufferRequest> = Vec::new();
    let mut i: usize = 0;
    while i < views.len()
        invariant
            i <= views.len(),
            out@ == views@.take(i as int).map_values(|view: u64| framebuffer_request(view, extent)),
        decreases views.len() - i,
    {
        out.push(
            FramebufferRequest {
                attachment: views[i],
                width: extent.width,
                height: extent.height,
                layers: 1,
            },
        );
        i += 1;
    }
    assert(views@.take(i as int) == views@);
    out
}

} // verus!
