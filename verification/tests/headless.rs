use graphics_bridge::graphics_backends::headless::{
    HeadlessData, HeadlessSessionCreateInfo, HeadlessSwapchainImage,
};
use graphics_bridge::graphics_backends::GraphicsBackend;
use graphics_bridge::types::{ColorSpace, Extent, Eye, SourceTexture, SubmitFlags, TextureBounds};

#[test]
fn extract_texture_returns_the_submitted_handle() {
    let record = SourceTexture {
        handle: 0x1234,
        color_space: ColorSpace::Auto,
    };
    assert_eq!(HeadlessData::get_texture(&record), Some(0x1234));
}

#[test]
fn extract_texture_on_null_handle_is_none() {
    let record = SourceTexture {
        handle: 0,
        color_space: ColorSpace::Linear,
    };
    assert_eq!(HeadlessData::get_texture(&record), None);
}

#[test]
fn from_openxr_format_always_yields_the_sentinel() {
    assert_eq!(HeadlessData::from_openxr_format(0), 0);
    assert_eq!(HeadlessData::from_openxr_format(1), 0);
    assert_eq!(HeadlessData::from_openxr_format(43), 0);
    assert_eq!(HeadlessData::from_openxr_format(u64::MAX), 0);
}

#[test]
fn to_nice_format_is_the_identity() {
    assert_eq!(HeadlessData::to_nice_format(0), 0);
    assert_eq!(HeadlessData::to_nice_format(29), 29);
    assert_eq!(HeadlessData::to_nice_format(u32::MAX), u32::MAX);
}

#[test]
fn session_create_info_is_the_fixed_empty_descriptor() {
    let backend = HeadlessData::new();
    assert_eq!(backend.session_create_info(), HeadlessSessionCreateInfo {});
    // A second copy is independent but equal: there is only one value.
    assert_eq!(backend.session_create_info(), backend.session_create_info());
}

#[test]
fn eye_copy_returns_zero_extent() {
    let backend = HeadlessData::new();
    let bounds = TextureBounds {
        u_min_bits: 0.0f32.to_bits(),
        v_min_bits: 0.0f32.to_bits(),
        u_max_bits: 1.0f32.to_bits(),
        v_max_bits: 1.0f32.to_bits(),
    };
    let written = backend.copy_texture_to_swapchain(
        Eye::Left,
        0xABC,
        ColorSpace::Gamma,
        bounds,
        0,
        SubmitFlags { bits: 0 },
    );
    assert_eq!(
        written,
        Extent {
            width: 0,
            height: 0
        }
    );
}

#[test]
fn overlay_copy_returns_zero_extent() {
    let mut backend = HeadlessData::new();
    let bounds = TextureBounds {
        u_min_bits: 0.25f32.to_bits(),
        v_min_bits: 0.25f32.to_bits(),
        u_max_bits: 0.75f32.to_bits(),
        v_max_bits: 0.75f32.to_bits(),
    };
    let written = backend.copy_overlay_to_swapchain(0xDEAD, bounds, 2);
    assert_eq!(
        written,
        Extent {
            width: 0,
            height: 0
        }
    );
}

#[test]
fn copies_are_inert_even_at_out_of_range_indices() {
    let backend = HeadlessData::new();
    let bounds = TextureBounds {
        u_min_bits: 0.0f32.to_bits(),
        v_min_bits: 0.0f32.to_bits(),
        u_max_bits: 1.0f32.to_bits(),
        v_max_bits: 1.0f32.to_bits(),
    };
    // No image set was ever registered, so every index is outside the
    // tracked set; the headless backend still writes nothing and reports a
    // zero extent.
    let written = backend.copy_texture_to_swapchain(
        Eye::Right,
        0x77,
        ColorSpace::Linear,
        bounds,
        99,
        SubmitFlags { bits: 1 },
    );
    assert_eq!(
        written,
        Extent {
            width: 0,
            height: 0
        }
    );
}

#[test]
fn registration_is_accepted_and_discarded() {
    let mut backend = HeadlessData::new();
    backend.store_swapchain_images(
        vec![HeadlessSwapchainImage {}, HeadlessSwapchainImage {}],
        7,
    );
    let bounds = TextureBounds {
        u_min_bits: 0.0f32.to_bits(),
        v_min_bits: 0.0f32.to_bits(),
        u_max_bits: 1.0f32.to_bits(),
        v_max_bits: 1.0f32.to_bits(),
    };
    // Copies after a registration behave exactly as before it, inside and
    // outside the handed-over set's range.
    for index in [0usize, 1, 5] {
        let written = backend.copy_overlay_to_swapchain(0x5555, bounds, index);
        assert_eq!(
            written,
            Extent {
                width: 0,
                height: 0
            }
        );
    }
    assert_eq!(backend.session_create_info(), HeadlessSessionCreateInfo {});
}

#[test]
fn default_extent_is_zero() {
    assert_eq!(
        Extent::default(),
        Extent {
            width: 0,
            height: 0
        }
    );
}

#[test]
fn scenario_headless_eye_submission() {
    // A headless session: the application submits a non-null texture for the
    // left eye, full frame, gamma (sRGB-like) color space, image index 0.
    let backend = HeadlessData::new();
    let record = SourceTexture {
        handle: 0xBEEF,
        color_space: ColorSpace::Gamma,
    };
    let opened = HeadlessData::get_texture(&record);
    assert_eq!(opened, Some(0xBEEF));
    let bounds = TextureBounds {
        u_min_bits: 0.0f32.to_bits(),
        v_min_bits: 0.0f32.to_bits(),
        u_max_bits: 1.0f32.to_bits(),
        v_max_bits: 1.0f32.to_bits(),
    };
    let written = backend.copy_texture_to_swapchain(
        Eye::Left,
        opened.unwrap(),
        ColorSpace::Gamma,
        bounds,
        0,
        SubmitFlags { bits: 0 },
    );
    assert_eq!(
        written,
        Extent {
            width: 0,
            height: 0
        }
    );
}

#[test]
fn scenario_headless_null_submission_skips_the_copy() {
    // A headless session: the application submits a record with the null
    // handle; the frame driver sees `None` and skips the copy for that eye.
    let record = SourceTexture {
        handle: 0,
        color_space: ColorSpace::Gamma,
    };
    let opened = HeadlessData::get_texture(&record);
    assert_eq!(opened, None);
}
