//! The contract every native-graphics backend satisfies, and its concrete
//! implementations. The frame-submission driver holds one backend per
//! session and only ever talks to it through [`GraphicsBackend`].

pub mod headless;

use vstd::prelude::*;

use crate::types::{ColorSpace, Extent, Eye, SourceTexture, SubmitFlags, TextureBounds};

verus! {

/// Everything the target runtime needs to create (or validate) a swapchain
/// able to hold a given application texture: how the runtime is asked to
/// shape a swapchain around one source texture.
#[derive(Clone, Copy, Debug)]
pub struct SwapchainCreateParams<F> {
    pub create_flags: u64,
    pub usage_flags: u64,
    pub format: F,
    pub sample_count: u32,
    pub width: u32,
    pub height: u32,
    pub face_count: u32,
    pub array_size: u32,
    pub mip_count: u32,
}

/// One backend per native graphics technology bridges the source API's
/// submit-a-finished-texture model onto the target runtime's
/// render-into-a-swapchain-image model: it negotiates pixel formats, tracks
/// the runtime's swapchain image set, and copies each submitted texture into
/// the addressed swapchain image.
///
/// The spec functions describe the backend's behaviour; the operations'
/// contracts tie the executable methods to them. Operations a backend
/// declares unreachable (`has_target_formats`, `creates_swapchains`) may
/// never be invoked on it — a wiring mistake aborts instead of returning a
/// plausible-looking value.
pub trait GraphicsBackend: Sized {
    /// A raw pixel-format value as the target runtime reports it for this
    /// backend's graphics technology.
    type TargetFormat;

    /// The backend's internal pixel-format representation.
    type Format;

    /// A display- and debug-friendly pixel-format identifier.
    type NiceFormat;

    /// The descriptor the target runtime needs to open a session for this
    /// backend's graphics technology.
    type SessionCreateInfo;

    /// An opaque swapchain image handle, owned by the target runtime and
    /// merely tracked by the backend.
    type SwapchainImage;

    /// The native texture handle extracted from an application's record.
    type OpenedTexture;

    /// What `from_openxr_format` turns a reported format value into.
    spec fn from_openxr_format_spec(format: Self::TargetFormat) -> Self::Format;

    /// Whether this backend has a real target-format space at all. When it
    /// does not (headless), `to_openxr_format` is unreachable.
    spec fn has_target_formats() -> bool;

    /// What `to_openxr_format` turns an internal format into, for backends
    /// that have a target-format space.
    spec fn to_openxr_format_spec(format: Self::Format) -> Self::TargetFormat;

    /// What `to_nice_format` turns an internal format into.
    spec fn to_nice_format_spec(format: Self::Format) -> Self::NiceFormat;

    /// The session descriptor this backend holds for the target runtime.
    spec fn session_create_info_spec(&self) -> Self::SessionCreateInfo;

    /// The native handle behind a non-null application texture record.
    spec fn opened_texture_spec(texture: SourceTexture) -> Self::OpenedTexture;

    /// Whether this backend performs real pixel transfer and therefore
    /// addresses tracked swapchain images during a copy.
    spec fn performs_transfer() -> bool;

    /// The swapchain image set the backend currently tracks; a transfer may
    /// only address indices into this sequence.
    spec fn tracked_images(&self) -> Seq<Self::SwapchainImage>;

    /// The format the tracked swapchain images were created with, where a
    /// registered set is retained.
    spec fn tracked_format(&self) -> Option<Self::Format>;

    /// The image set tracked after a registration call hands over `images`.
    spec fn stored_images_spec(images: Seq<Self::SwapchainImage>) -> Seq<Self::SwapchainImage>;

    /// The format recorded after a registration call hands over `format`.
    spec fn stored_format_spec(format: Self::Format) -> Option<Self::Format>;

    /// Whether this backend ever creates a real swapchain. When it does not
    /// (headless), `swapchain_info_for_texture` is unreachable.
    spec fn creates_swapchains() -> bool;

    /// The swapchain parameters negotiated for one application texture.
    spec fn swapchain_info_spec(
        &self,
        texture: Self::OpenedTexture,
        bounds: TextureBounds,
        color_space: ColorSpace,
    ) -> SwapchainCreateParams<Self::TargetFormat>;

    /// The extent an eye-texture copy writes, given the backend's state and
    /// the whole submission.
    spec fn copy_extent_spec(
        &self,
        eye: Eye,
        texture: Self::OpenedTexture,
        color_space: ColorSpace,
        bounds: TextureBounds,
        image_index: usize,
        submit_flags: SubmitFlags,
    ) -> Extent;

    /// The extent an overlay copy writes.
    spec fn overlay_extent_spec(
        &self,
        texture: Self::OpenedTexture,
        bounds: TextureBounds,
        image_index: usize,
    ) -> Extent;

    /// Law every backend must uphold: a backend that performs real transfer
    /// tracks exactly the image set it was last handed, with the format the
    /// images were created with — registration may not drop, reorder or
    /// invent images.
    proof fn transfer_backends_track_registrations(
        images: Seq<Self::SwapchainImage>,
        format: Self::Format,
    )
        ensures
            Self::performs_transfer() ==> Self::stored_images_spec(images) == images,
            Self::performs_transfer() ==> Self::stored_format_spec(format) == Some(format),
    ;

    /// Converts a format value reported by the target runtime into the
    /// backend's internal representation. Total: defined for every value
    /// the runtime can legally report.
    fn from_openxr_format(format: Self::TargetFormat) -> (converted: Self::Format)
        ensures
            converted == Self::from_openxr_format_spec(format),
    ;

    /// Converts an internal format back into the target runtime's value, for
    /// use when requesting swapchain creation. Unreachable — and a fatal
    /// wiring error — on backends without a target-format space.
    fn to_openxr_format(format: Self::Format) -> (converted: Self::TargetFormat)
        requires
            Self::has_target_formats(),
        ensures
            converted == Self::to_openxr_format_spec(format),
    ;

    /// Converts an internal format into its display-friendly identifier.
    /// Total: never fails.
    fn to_nice_format(format: Self::Format) -> (nice: Self::NiceFormat)
        ensures
            nice == Self::to_nice_format_spec(format),
    ;

    /// Hands back the session descriptor, by value and in the exact shape
    /// the target runtime requires; the backend keeps the copy it stores.
    fn session_create_info(&self) -> (info: Self::SessionCreateInfo)
        ensures
            info == self.session_create_info_spec(),
    ;

    /// Extracts the native handle to copy from out of a source-API texture
    /// record, or `None` for a null-handle record — which tells the frame
    /// driver to skip this eye for the frame.
    fn get_texture(texture: &SourceTexture) -> (opened: Option<Self::OpenedTexture>)
        ensures
            (opened is Some) <==> !texture.is_null(),
            !texture.is_null() ==> opened == Some(Self::opened_texture_spec(*texture)),
    ;

    /// Replaces the tracked swapchain image set and records the format the
    /// images were created with. Images tracked before the call may no
    /// longer be addressed afterwards.
    fn store_swapchain_images(&mut self, images: Vec<Self::SwapchainImage>, format: Self::Format)
        ensures
            final(self).tracked_images() == Self::stored_images_spec(images@),
            final(self).tracked_format() == Self::stored_format_spec(format),
            final(self).session_create_info_spec() == old(self).session_create_info_spec(),
    ;

    /// Negotiates the parameters the target runtime should use to create a
    /// swapchain able to hold the given application texture. Unreachable —
    /// and a fatal wiring error — on backends that never create a swapchain.
    fn swapchain_info_for_texture(
        &self,
        texture: Self::OpenedTexture,
        bounds: TextureBounds,
        color_space: ColorSpace,
    ) -> (params: SwapchainCreateParams<Self::TargetFormat>)
        requires
            Self::creates_swapchains(),
        ensures
            params == self.swapchain_info_spec(texture, bounds, color_space),
    ;

    /// Copies one submitted eye texture into the swapchain image at
    /// `image_index`, honoring bounds and eye selection, and reports the
    /// extent it really wrote — so a caller can tell when the bounds had to
    /// be clamped. A transfer-performing backend may only be asked to
    /// address an index within its tracked image set.
    fn copy_texture_to_swapchain(
        &self,
        eye: Eye,
        texture: Self::OpenedTexture,
        color_space: ColorSpace,
        bounds: TextureBounds,
        image_index: usize,
        submit_flags: SubmitFlags,
    ) -> (written: Extent)
        requires
            Self::performs_transfer() ==> image_index < self.tracked_images().len(),
        ensures
            written == self.copy_extent_spec(eye, texture, color_space, bounds, image_index, submit_flags),
    ;

    /// Copies a single, non-stereo overlay texture into the swapchain image
    /// at `image_index`, under the same addressing contract as the eye copy,
    /// and leaves the tracked state as it was.
    fn copy_overlay_to_swapchain(
        &mut self,
        texture: Self::OpenedTexture,
        bounds: TextureBounds,
        image_index: usize,
    ) -> (written: Extent)
        requires
            Self::performs_transfer() ==> image_index < old(self).tracked_images().len(),
        ensures
            written == old(self).overlay_extent_spec(texture, bounds, image_index),
            final(self).tracked_images() == old(self).tracked_images(),
            final(self).tracked_format() == old(self).tracked_format(),
            final(self).session_create_info_spec() == old(self).session_create_info_spec(),
    ;
}

/// Law: once a transfer-performing backend has registered an image set, an
/// index is addressable by the copy operations exactly when it lies within
/// that set — registration neither shrinks nor grows the range of legal
/// indices.
pub proof fn lemma_registered_set_addressable<B: GraphicsBackend>(
    images: Seq<B::SwapchainImage>,
    format: B::Format,
    image_index: usize,
)
    requires
        B::performs_transfer(),
    ensures
        image_index < B::stored_images_spec(images).len() <==> image_index < images.len(),
{
    B::transfer_backends_track_registrations(images, format);
}

} // verus!
