//! The headless backend: a [`GraphicsBackend`] that performs no graphics
//! work at all, so the same frame loop that drives real backends can run
//! on machines without a display or a native graphics API — in automated
//! test runs, for instance.

use vstd::prelude::*;
use vstd::pervasive::unreached;

use crate::graphics_backends::{GraphicsBackend, SwapchainCreateParams};
use crate::types::{ColorSpace, Extent, Eye, SourceTexture, SubmitFlags, TextureBounds};

verus! {

/// The session descriptor for a headless target session. The runtime needs
/// nothing to open one, so the descriptor carries no fields: there is a
/// single fixed, empty value, shareable freely because there is nothing in
/// it to read.
#[derive(Clone, Copy, Debug, PartialEq, Eq, Structural)]
pub struct HeadlessSessionCreateInfo {}

/// A swapchain image handle for a headless session. Headless sessions never
/// allocate swapchain images, so no value of this type is ever tracked.
#[derive(Clone, Copy, Debug, PartialEq, Eq, Structural)]
pub struct HeadlessSwapchainImage {}

/// The backend for sessions without any native graphics API: every
/// operation is inert. Format conversion from the runtime yields a fixed
/// sentinel, registered image sets are discarded, and both copy operations
/// write nothing and report a zero extent — which lets the same frame loop
/// that drives real backends run headlessly unchanged.
pub struct HeadlessData {
    session_data: HeadlessSessionCreateInfo,
}

impl HeadlessData {
    /// Creates the headless backend, holding the fixed, empty session
    /// descriptor and tracking no swapchain images.
    pub fn new() -> (backend: HeadlessData)
        ensures
            backend.tracked_images().len() == 0,
            backend.tracked_format() is None,
    {
        HeadlessData { session_data: HeadlessSessionCreateInfo {} }
    }
}

impl GraphicsBackend for HeadlessData {
    type TargetFormat = u64;

    type Format = u32;

    type NiceFormat = u32;

    type SessionCreateInfo = HeadlessSessionCreateInfo;

    type SwapchainImage = HeadlessSwapchainImage;

    type OpenedTexture = usize;

    /// Every reported format value maps to the zero sentinel: headless
    /// sessions never query real formats.
    open spec fn from_openxr_format_spec(format: u64) -> u32 {
        0u32
    }

    /// Headless sessions have no target-format space, so converting back to
    /// the runtime's format is unreachable.
    open spec fn has_target_formats() -> bool {
        false
    }

    /// Never observable: `to_openxr_format` cannot be invoked headlessly.
    open spec fn to_openxr_format_spec(format: u32) -> u64 {
        0u64
    }

    /// The display-friendly conversion is the identity.
    open spec fn to_nice_format_spec(format: u32) -> u32 {
        format
    }

    /// The single fixed, empty headless descriptor.
    open spec fn session_create_info_spec(&self) -> HeadlessSessionCreateInfo {
        HeadlessSessionCreateInfo {}
    }

    /// The extracted handle is the record's own native handle, unchanged.
    open spec fn opened_texture_spec(texture: SourceTexture) -> usize {
        texture.handle
    }

    /// No real pixel transfer ever happens headlessly.
    open spec fn performs_transfer() -> bool {
        false
    }

    /// No swapchain image is ever tracked.
    open spec fn tracked_images(&self) -> Seq<HeadlessSwapchainImage> {
        Seq::empty()
    }

    open spec fn tracked_format(&self) -> Option<u32> {
        None
    }

    /// Registration discards the handed-over set: there is nothing to copy
    /// into, so nothing is retained.
    open spec fn stored_images_spec(images: Seq<HeadlessSwapchainImage>) -> Seq<
        HeadlessSwapchainImage,
    > {
        Seq::empty()
    }

    open spec fn stored_format_spec(format: u32) -> Option<u32> {
        None
    }

    /// Headless sessions never create a real swapchain, so describing one
    /// is unreachable.
    open spec fn creates_swapchains() -> bool {
        false
    }

    /// Never observable: `swapchain_info_for_texture` cannot be invoked
    /// headlessly.
    open spec fn swapchain_info_spec(
        &self,
        texture: usize,
        bounds: TextureBounds,
        color_space: ColorSpace,
    ) -> SwapchainCreateParams<u64> {
        SwapchainCreateParams {
            create_flags: 0u64,
            usage_flags: 0u64,
            format: 0u64,
            sample_count: 0u32,
            width: 0u32,
            height: 0u32,
            face_count: 0u32,
            array_size: 0u32,
            mip_count: 0u32,
        }
    }

    /// Every copy writes nothing: the extent is zero whatever the
    /// submission looked like.
    open spec fn copy_extent_spec(
        &self,
        eye: Eye,
        texture: usize,
        color_space: ColorSpace,
        bounds: TextureBounds,
        image_index: usize,
        submit_flags: SubmitFlags,
    ) -> Extent {
        Extent { width: 0, height: 0 }
    }

    open spec fn overlay_extent_spec(
        &self,
        texture: usize,
        bounds: TextureBounds,
        image_index: usize,
    ) -> Extent {
        Extent { width: 0, height: 0 }
    }

    proof fn transfer_backends_track_registrations(
        images: Seq<HeadlessSwapchainImage>,
        format: u32,
    ) {
    }

    fn from_openxr_format(_format: u64) -> u32 {
        0u32
    }

    /// A call would be a wiring error: there is no headless target-format
    /// space, so this aborts rather than fabricate a value.
    fn to_openxr_format(_format: u32) -> u64 {
        unreached()
    }

    fn to_nice_format(format: u32) -> u32 {
        format
    }

    fn session_create_info(&self) -> HeadlessSessionCreateInfo {
        self.session_data
    }

    fn get_texture(texture: &SourceTexture) -> Option<usize> {
        if texture.handle != 0 {
            Some(texture.handle)
        } else {
            None
        }
    }

    fn store_swapchain_images(&mut self, _images: Vec<HeadlessSwapchainImage>, _format: u32) {
    }

    /// A call would be a wiring error: headless sessions never create a
    /// swapchain, so this aborts rather than fabricate parameters.
    fn swapchain_info_for_texture(
        &self,
        _texture: usize,
        _bounds: TextureBounds,
        _color_space: ColorSpace,
    ) -> SwapchainCreateParams<u64> {
        unreached()
    }

    fn copy_texture_to_swapchain(
        &self,
        _eye: Eye,
        _texture: usize,
        _color_space: ColorSpace,
        _bounds: TextureBounds,
        _image_index: usize,
        _submit_flags: SubmitFlags,
    ) -> Extent {
        Extent { width: 0, height: 0 }
    }

    fn copy_overlay_to_swapchain(
        &mut self,
        _texture: usize,
        _bounds: TextureBounds,
        _image_index: usize,
    ) -> Extent {
        Extent { width: 0, height: 0 }
    }
}

/// Law: extracting the texture from a record yields the record's own native
/// handle — never a substitute — whenever the handle is non-null.
pub proof fn lemma_extracted_handle_is_input_handle(texture: SourceTexture)
    ensures
        HeadlessData::opened_texture_spec(texture) == texture.handle,
{
}

/// Law: headless format conversion from the target runtime is constant over
/// the whole input space — every reported value maps to the zero sentinel.
pub proof fn lemma_from_openxr_format_constant(format: u64, other: u64)
    ensures
        HeadlessData::from_openxr_format_spec(format) == 0u32,
        HeadlessData::from_openxr_format_spec(format) == HeadlessData::from_openxr_format_spec(
            other,
        ),
{
}

/// Law: the headless display-friendly format conversion is the identity on
/// every value.
pub proof fn lemma_to_nice_format_identity(format: u32)
    ensures
        HeadlessData::to_nice_format_spec(format) == format,
{
}

/// Law: headless copies are inert — whatever eye, texture, color space,
/// bounds, image index (inside a registered set or not) and flags are
/// supplied, the written extent is zero, and no swapchain state is ever
/// tracked that a copy could have disturbed.
pub proof fn lemma_headless_copies_are_inert(
    backend: HeadlessData,
    eye: Eye,
    texture: usize,
    color_space: ColorSpace,
    bounds: TextureBounds,
    image_index: usize,
    submit_flags: SubmitFlags,
)
    ensures
        backend.copy_extent_spec(
            eye,
            texture,
            color_space,
            bounds,
            image_index,
            submit_flags,
        ).is_zero(),
        backend.overlay_extent_spec(texture, bounds, image_index).is_zero(),
        backend.tracked_images() == Seq::<HeadlessSwapchainImage>::empty(),
        backend.tracked_format() is None,
{
}

/// Law: the headless backend discards every registered image set — after
/// any registration the tracked set is empty and the recorded format is
/// absent, so no index is ever addressed.
pub proof fn lemma_registration_discards_images(
    images: Seq<HeadlessSwapchainImage>,
    format: u32,
)
    ensures
        HeadlessData::stored_images_spec(images) == Seq::<HeadlessSwapchainImage>::empty(),
        HeadlessData::stored_format_spec(format) is None,
{
}

/// Law: the headless backend declares no target-format space and never
/// creates a real swapchain, so `to_openxr_format` and
/// `swapchain_info_for_texture` can never be invoked on it — their
/// preconditions are unsatisfiable here, and an actual call would abort
/// rather than return a value.
pub proof fn lemma_headless_unsupported_operations_unreachable()
    ensures
        !HeadlessData::has_target_formats(),
        !HeadlessData::creates_swapchains(),
{
}

} // verus!

