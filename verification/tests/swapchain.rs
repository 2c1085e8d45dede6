use vulkan_triangle::error::SetupError;
use vulkan_triangle::swapchain::{
    create_swap_chain, swapchain_extent, CompositeAlpha, Extent, Format, ImageUsage, PresentMode,
    SupportedCompositeAlpha, SurfaceCapabilities, SurfaceTransform, SwapchainParams,
};

fn color_only() -> ImageUsage {
    ImageUsage {
        transfer_source: false,
        transfer_destination: false,
        sampled: false,
        storage: false,
        color_attachment: true,
        depth_stencil_attachment: false,
        transient_attachment: false,
        input_attachment: false,
    }
}

fn alpha(opaque: bool, pre: bool, post: bool, inherit: bool) -> SupportedCompositeAlpha {
    SupportedCompositeAlpha { opaque, pre_multiplied: pre, post_multiplied: post, inherit }
}

fn capabilities() -> SurfaceCapabilities {
    SurfaceCapabilities {
        min_image_count: 2,
        current_extent: Some(Extent { width: 800, height: 600 }),
        current_transform: SurfaceTransform::Identity,
        supported_composite_alpha: alpha(true, false, false, true),
        supported_usage_flags: color_only(),
        supported_formats: vec![Format { code: 44 }, Format { code: 50 }, Format { code: 37 }],
    }
}

#[test]
fn swapchain_params_take_first_format_first_alpha_and_reported_extent() {
    assert_eq!(
        create_swap_chain(&capabilities()),
        Ok(SwapchainParams {
            image_count: 2,
            format: Format { code: 44 },
            dimensions: Extent { width: 800, height: 600 },
            layers: 1,
            usage: color_only(),
            transform: SurfaceTransform::Identity,
            alpha: CompositeAlpha::Opaque,
            present_mode: PresentMode::Fifo,
            clipped: true,
        })
    );
}

#[test]
fn swapchain_params_fall_back_to_1280_by_1024() {
    let mut caps = capabilities();
    caps.current_extent = None;
    let params = create_swap_chain(&caps).unwrap();
    assert_eq!(params.dimensions, Extent { width: 1280, height: 1024 });
}

#[test]
fn swapchain_extent_keeps_reported_extent() {
    let reported = Extent { width: 1, height: 4096 };
    assert_eq!(swapchain_extent(Some(reported)), reported);
    assert_eq!(swapchain_extent(Some(Extent { width: 0, height: 0 })), Extent { width: 0, height: 0 });
    assert_eq!(swapchain_extent(None), Extent { width: 1280, height: 1024 });
}

#[test]
fn swapchain_params_pass_surface_values_through() {
    let mut caps = capabilities();
    caps.min_image_count = 3;
    caps.current_transform = SurfaceTransform::Rotate90;
    caps.supported_usage_flags.transfer_destination = true;
    let params = create_swap_chain(&caps).unwrap();
    assert_eq!(params.image_count, 3);
    assert_eq!(params.transform, SurfaceTransform::Rotate90);
    assert_eq!(params.usage, caps.supported_usage_flags);
    assert_eq!(params.layers, 1);
    assert_eq!(params.present_mode, PresentMode::Fifo);
    assert!(params.clipped);
}

#[test]
fn swapchain_params_take_first_supported_alpha_in_listing_order() {
    let cases = [
        (alpha(true, true, true, true), CompositeAlpha::Opaque),
        (alpha(true, false, false, false), CompositeAlpha::Opaque),
        (alpha(false, true, true, true), CompositeAlpha::PreMultiplied),
        (alpha(false, true, false, true), CompositeAlpha::PreMultiplied),
        (alpha(false, false, true, true), CompositeAlpha::PostMultiplied),
        (alpha(false, false, true, false), CompositeAlpha::PostMultiplied),
        (alpha(false, false, false, true), CompositeAlpha::Inherit),
    ];
    for (supported, expected) in cases {
        let mut caps = capabilities();
        caps.supported_composite_alpha = supported;
        assert_eq!(create_swap_chain(&caps).unwrap().alpha, expected);
    }
}

#[test]
fn swapchain_params_take_the_only_format() {
    let mut caps = capabilities();
    caps.supported_formats = vec![Format { code: 50 }];
    assert_eq!(create_swap_chain(&caps).unwrap().format, Format { code: 50 });
}

#[test]
fn swapchain_params_fail_without_composite_alpha() {
    let mut caps = capabilities();
    caps.supported_composite_alpha = alpha(false, false, false, false);
    assert_eq!(create_swap_chain(&caps), Err(SetupError::NoCompositeAlpha));
}

#[test]
fn swapchain_params_fail_without_format() {
    let mut caps = capabilities();
    caps.supported_formats = Vec::new();
    assert_eq!(create_swap_chain(&caps), Err(SetupError::NoSurfaceFormat));
}

#[test]
fn swapchain_params_report_missing_alpha_before_missing_format() {
    let mut caps = capabilities();
    caps.supported_composite_alpha = alpha(false, false, false, false);
    caps.supported_formats = Vec::new();
    assert_eq!(create_swap_chain(&caps), Err(SetupError::NoCompositeAlpha));
}

#[test]
fn swapchain_params_are_the_same_on_repeated_runs() {
    let caps = capabilities();
    assert_eq!(create_swap_chain(&caps), create_swap_chain(&caps.clone()));
}
