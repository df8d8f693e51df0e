use ember::record::{record_into_buffer, ClearColor, Command};
use ember::swapchain::{
    clamp_extent, create_framebuffers, create_views, select_format, BundleError, Destroy, Extent,
    PerSwapchain, SurfaceLimits, FORMAT_B8G8R8A8_SRGB, FORMAT_R8G8B8A8_SRGB, PRESENT_MODE_FIFO, SYN,
};

fn limits(min: (u32, u32), max: (u32, u32)) -> SurfaceLimits {
    SurfaceLimits {
        min_extent: Extent { width: min.0, height: min.1 },
        max_extent: Extent { width: max.0, height: max.1 },
        min_image_count: 2,
    }
}

#[test]
fn preferred_format_is_taken_where_supported() {
    assert_eq!(select_format(&vec![43, 50, 44], 50), Some(50));
    assert_eq!(select_format(&vec![50], 50), Some(50));
}

#[test]
fn format_falls_back_to_the_first() {
    assert_eq!(select_format(&vec![44, 43, 37], 50), Some(44));
    assert_eq!(select_format(&vec![], 50), None);
    let plan =
        PerSwapchain::create_swapchain(Extent { width: 8, height: 8 }, &limits((1, 1), (64, 64)), &vec![FORMAT_R8G8B8A8_SRGB, 44], 2)
            .unwrap();
    assert_eq!(plan.format, FORMAT_R8G8B8A8_SRGB);
}

#[test]
fn extent_is_clamped_into_the_range() {
    let l = limits((16, 32), (1024, 768));
    assert_eq!(clamp_extent(Extent { width: 4000, height: 5 }, &l), Extent { width: 1024, height: 32 });
    assert_eq!(clamp_extent(Extent { width: 3, height: 9000 }, &l), Extent { width: 16, height: 768 });
    assert_eq!(clamp_extent(Extent { width: 640, height: 480 }, &l), Extent { width: 640, height: 480 });
    assert_eq!(clamp_extent(Extent { width: 16, height: 768 }, &l), Extent { width: 16, height: 768 });
}

#[test]
fn minimized_window_gets_the_smallest_extent() {
    let plan = PerSwapchain::create_swapchain(
        Extent { width: 0, height: 0 },
        &limits((1, 1), (4096, 4096)),
        &vec![FORMAT_B8G8R8A8_SRGB],
        2,
    )
    .unwrap();
    assert_eq!(plan.extent, Extent { width: 1, height: 1 });
    assert_eq!(plan.format, FORMAT_B8G8R8A8_SRGB);
    assert_eq!(plan.min_image_count, 2);
    assert_eq!(plan.sync_sets, 2);
    assert!(plan.fences_signaled);
    assert_eq!(plan.present_mode, PRESENT_MODE_FIFO);
    assert_eq!(plan.array_layers, 1);
}

#[test]
fn plan_errors() {
    let l = limits((1, 1), (10, 10));
    let w = Extent { width: 5, height: 5 };
    assert_eq!(PerSwapchain::create_swapchain(w, &l, &vec![], 2), Err(BundleError::NoFormat));
    assert_eq!(PerSwapchain::create_swapchain(w, &l, &vec![], 0), Err(BundleError::NoFormat));
    assert_eq!(PerSwapchain::create_swapchain(w, &l, &vec![50], 0), Err(BundleError::NoFrameSlot));
}

#[test]
fn bundle_wants_matching_lengths() {
    let e = Extent { width: 1, height: 1 };
    let s = vec![SYN::new(1, 2, 3)];
    let r = PerSwapchain::new(9, 50, e, vec![1, 2], vec![3], vec![5, 6], s.clone(), 1);
    assert!(matches!(r, Err(BundleError::ViewCount)));
    let r = PerSwapchain::new(9, 50, e, vec![1, 2], vec![3, 4], vec![5], s.clone(), 1);
    assert!(matches!(r, Err(BundleError::FramebufferCount)));
    let r = PerSwapchain::new(9, 50, e, vec![1, 2], vec![3, 4], vec![5, 6], s.clone(), 2);
    assert!(matches!(r, Err(BundleError::SyncCount)));
    let b = PerSwapchain::new(9, 50, e, vec![1, 2], vec![3, 4], vec![5, 6], s, 1).unwrap();
    assert!(b.is_wf(1));
    assert!(!b.is_wf(2));
    assert_eq!(b.images, vec![1, 2]);
    assert_eq!(b.views, vec![3, 4]);
    assert_eq!(b.framebuffers, vec![5, 6]);
}

#[test]
fn teardown_order() {
    let e = Extent { width: 1, height: 1 };
    let s = vec![SYN::new(1, 2, 3), SYN::new(4, 5, 6)];
    let b = PerSwapchain::new(9, 50, e, vec![10, 11], vec![20, 21], vec![30, 31], s, 2).unwrap();
    assert_eq!(
        b.cleanup(),
        vec![
            Destroy::Semaphore(1),
            Destroy::Semaphore(2),
            Destroy::Fence(3),
            Destroy::Semaphore(4),
            Destroy::Semaphore(5),
            Destroy::Fence(6),
            Destroy::Framebuffer(30),
            Destroy::Framebuffer(31),
            Destroy::ImageView(20),
            Destroy::ImageView(21),
            Destroy::Swapchain(9),
        ]
    );
    assert_eq!(
        SYN::new(7, 8, 9).destroy(),
        vec![Destroy::Semaphore(7), Destroy::Semaphore(8), Destroy::Fence(9)]
    );
}

#[test]
fn one_view_and_one_framebuffer_per_image() {
    let views = create_views(&vec![7, 8, 9], 50);
    assert_eq!(views.len(), 3);
    assert_eq!(views[1].image, 8);
    assert_eq!(views[1].format, 50);
    assert!(views[1].identity_swizzle && views[1].color_aspect);
    assert_eq!((views[2].base_mip_level, views[2].level_count), (0, 1));
    assert_eq!((views[2].base_array_layer, views[2].layer_count), (0, 1));
    let fbs = create_framebuffers(&vec![70, 80], Extent { width: 3, height: 4 });
    assert_eq!(fbs.len(), 2);
    assert_eq!((fbs[0].attachment, fbs[0].width, fbs[0].height, fbs[0].layers), (70, 3, 4, 1));
    assert_eq!(fbs[1].attachment, 80);
    assert!(create_views(&vec![], 50).is_empty());
}

#[test]
fn one_frame_of_commands() {
    let e = Extent { width: 3, height: 4 };
    assert_eq!(
        record_into_buffer(77, e),
        vec![
            Command::Begin,
            Command::BeginRenderPass {
                framebuffer: 77,
                area: e,
                clear: ClearColor { red: 0, green: 0, blue: 0, alpha: 0 }
            },
            Command::BindPipeline,
            Command::SetViewport { width: 3, height: 4 },
            Command::SetScissor { extent: e },
            Command::Draw { vertex_count: 4, instance_count: 1, first_vertex: 0, first_instance: 0 },
            Command::EndRenderPass,
            Command::End,
        ]
    );
}
