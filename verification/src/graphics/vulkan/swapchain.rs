//! The choices a swapchain is made with: how many images, how large, which
//! transform and which presentation mode, from what the surface reports.

use vstd::prelude::*;

use crate::graphics::vulkan::VulkanError;

verus! {

/// Why a swapchain could not be made.
#[derive(Debug, Copy, Clone, PartialEq, Eq, Structural)]
pub enum SwapchainError {
    SwapchainInstantiationError,
    SwapchainVulkanError(VulkanError),
    PresentationNotSupportedError,
}

impl From<VulkanError> for SwapchainError {
    fn from(error: VulkanError) -> (converted: SwapchainError) {
        SwapchainError::SwapchainVulkanError(error)
    }
}

impl vstd::std_specs::convert::FromSpecImpl<VulkanError> for SwapchainError {
    open spec fn obeys_from_spec() -> bool {
        true
    }

    open spec fn from_spec(error: VulkanError) -> SwapchainError {
        SwapchainError::SwapchainVulkanError(error)
    }
}

/// `VK_SURFACE_TRANSFORM_IDENTITY_BIT_KHR`.
pub const TRANSFORM_IDENTITY: u32 = 0x1;
/// `VK_PRESENT_MODE_MAILBOX_KHR`.
pub const PRESENT_MODE_MAILBOX: i32 = 1;
/// `VK_PRESENT_MODE_FIFO_KHR`.
pub const PRESENT_MODE_FIFO: i32 = 2;

/// What a surface reports of the swapchains it can take
/// (`VkSurfaceCapabilitiesKHR`, the parts the choices read).
#[derive(Debug, Copy, Clone, PartialEq, Eq, Structural)]
pub struct SurfaceCapabilities {
    pub min_image_count: u32,
    /// Zero when there is no limit.
    pub max_image_count: u32,
    /// `u32::MAX` when the surface takes its size from the swapchain.
    pub current_width: u32,
    pub current_height: u32,
    pub supported_transforms: u32,
    pub current_transform: u32,
}

/// A format and color space that a surface supports.
#[derive(Debug, Copy, Clone, PartialEq, Eq, Structural)]
pub struct SurfaceFormat {
    pub format: i32,
    pub color_space: i32,
}

/// What a swapchain is made with.
#[derive(Debug, Copy, Clone, PartialEq, Eq, Structural)]
pub struct SwapchainSettings {
    pub format: SurfaceFormat,
    pub image_count: u32,
    pub width: u32,
    pub height: u32,
    pub pre_transform: u32,
    pub present_mode: i32,
}

/// One image more than the surface needs, but no more than it allows.
pub open spec fn spec_desired_image_count(min_image_count: u32, max_image_count: u32) -> u32 {
    if max_image_count > 0 && min_image_count + 1 > max_image_count {
        max_image_count
    } else {
        (min_image_count + 1) as u32
    }
}

/// The swapchain never asks for more images than the surface allows, and
/// for one more than its minimum wherever that is allowed.
pub proof fn lemma_image_count_within_limits(min_image_count: u32, max_image_count: u32)
    requires
        min_image_count < u32::MAX,
    ensures
        spec_desired_image_count(min_image_count, max_image_count) <= min_image_count + 1,
        max_image_count > 0 ==> spec_desired_image_count(min_image_count, max_image_count)
            <= max_image_count,
        max_image_count == 0 || max_image_count > min_image_count ==> spec_desired_image_count(
            min_image_count,
            max_image_count,
        ) == min_image_count + 1,
{
}

/// How many images the swapchain asks for.
pub fn desired_image_count(min_image_count: u32, max_image_count: u32) -> (count: u32)
    requires
        min_image_count < u32::MAX,
    ensures
        count == spec_desired_image_count(min_image_count, max_image_count),
{
    let mut count = min_image_count + 1;
    if max_image_count > 0 && count > max_image_count {
        count = max_image_count;
    }
    count
}

/// The surface's current size, or the window's where the surface leaves it
/// to the swapchain.
pub open spec fn spec_resolution(
    capabilities: SurfaceCapabilities,
    window_width: u32,
    window_height: u32,
) -> (u32, u32) {
    if capabilities.current_width == u32::MAX {
        (window_width, window_height)
    } else {
        (capabilities.current_width, capabilities.current_height)
    }
}

/// The size of the swapchain's images.
pub fn resolution(capabilities: &SurfaceCapabilities, window_width: u32, window_height: u32) -> (size:
    (u32, u32))
    ensures
        size == spec_resolution(*capabilities, window_width, window_height),
{
    if capabilities.current_width == u32::MAX {
        (window_width, window_height)
    } else {
        (capabilities.current_width, capabilities.current_height)
    }
}

/// The identity where the surface supports it, else the current transform.
pub open spec fn spec_pre_transform(supported_transforms: u32, current_transform: u32) -> u32 {
    if supported_transforms & TRANSFORM_IDENTITY == TRANSFORM_IDENTITY {
        TRANSFORM_IDENTITY
    } else {
        current_transform
    }
}

/// The transform applied to the images before they are presented.
pub fn pre_transform(supported_transforms: u32, current_transform: u32) -> (transform: u32)
    ensures
        transform == spec_pre_transform(supported_transforms, current_transform),
{
    if supported_transforms & TRANSFORM_IDENTITY == TRANSFORM_IDENTITY {
        TRANSFORM_IDENTITY
    } else {
        current_transform
    }
}

/// Mailbox where the surface offers it, else FIFO, which every surface
/// offers.
pub open spec fn spec_present_mode(modes: Seq<i32>) -> i32 {
    if modes.contains(PRESENT_MODE_MAILBOX) {
        PRESENT_MODE_MAILBOX
    } else {
        PRESENT_MODE_FIFO
    }
}

/// Mailbox is chosen exactly when the surface offers it, wherever it stands
/// among the offered modes; otherwise the choice is FIFO, which every
/// surface offers.
pub proof fn lemma_mailbox_when_offered(modes: Seq<i32>)
    ensures
        spec_present_mode(modes) == PRESENT_MODE_MAILBOX <==> exists|i: int|
            0 <= i < modes.len() && modes[i] == PRESENT_MODE_MAILBOX,
        spec_present_mode(modes) != PRESENT_MODE_MAILBOX ==> spec_present_mode(modes)
            == PRESENT_MODE_FIFO,
{
    if exists|i: int| 0 <= i < modes.len() && modes[i] == PRESENT_MODE_MAILBOX {
        let i = choose|i: int| 0 <= i < modes.len() && modes[i] == PRESENT_MODE_MAILBOX;
        assert(modes.contains(modes[i]));
    }
}

/// The presentation mode of the swapchain.
pub fn present_mode(modes: &[i32]) -> (mode: i32)
    ensures
        mode == spec_present_mode(modes@),
        mode == PRESENT_MODE_MAILBOX <==> exists|i: int|
            0 <= i < modes@.len() && modes@[i] == PRESENT_MODE_MAILBOX,
        mode == PRESENT_MODE_MAILBOX || mode == PRESENT_MODE_FIFO,
{
    let mut i: usize = 0;
    while i < modes.len()
        invariant
            0 <= i <= modes@.len(),
            forall|k: int| 0 <= k < i ==> modes@[k] != PRESENT_MODE_MAILBOX,
        decreases modes@.len() - i,
    {
        if modes[i] == PRESENT_MODE_MAILBOX {
            assert(modes@[i as int] == PRESENT_MODE_MAILBOX);
            return PRESENT_MODE_MAILBOX;
        }
        i = i + 1;
    }
    assert(!modes@.contains(PRESENT_MODE_MAILBOX));
    PRESENT_MODE_FIFO
}

/// The settings of a swapchain on a surface: presentation must be
/// supported; the first format the surface lists is taken.
pub open spec fn spec_swapchain_settings(
    support: Result<bool, VulkanError>,
    formats: Seq<SurfaceFormat>,
    capabilities: SurfaceCapabilities,
    window_width: u32,
    window_height: u32,
    modes: Seq<i32>,
) -> Result<SwapchainSettings, SwapchainError> {
    match support {
        Err(cause) => Err(SwapchainError::SwapchainVulkanError(cause)),
        Ok(false) => Err(SwapchainError::PresentationNotSupportedError),
        Ok(true) => {
            let size = spec_resolution(capabilities, window_width, window_height);
            Ok(
                SwapchainSettings {
                    format: formats[0],
                    image_count: spec_desired_image_count(
                        capabilities.min_image_count,
                        capabilities.max_image_count,
                    ),
                    width: size.0,
                    height: size.1,
                    pre_transform: spec_pre_transform(
                        capabilities.supported_transforms,
                        capabilities.current_transform,
                    ),
                    present_mode: spec_present_mode(modes),
                },
            )
        },
    }
}

/// Chooses how a swapchain is made from what the device and the surface
/// report: whether the queue can present to the surface, the formats, the
/// capabilities and presentation modes of the surface, and the size of
/// the window.
pub fn swapchain_settings(
    support: Result<bool, VulkanError>,
    formats: &[SurfaceFormat],
    capabilities: &SurfaceCapabilities,
    window_width: u32,
    window_height: u32,
    modes: &[i32],
) -> (settings: Result<SwapchainSettings, SwapchainError>)
    requires
        support == Ok::<bool, VulkanError>(true) ==> formats@.len() > 0
            && capabilities.min_image_count < u32::MAX,
    ensures
        settings == spec_swapchain_settings(
            support,
            formats@,
            *capabilities,
            window_width,
            window_height,
            modes@,
        ),
{
    match support {
        Err(cause) => {
            return Err(SwapchainError::SwapchainVulkanError(cause));
        },
        Ok(false) => {
            return Err(SwapchainError::PresentationNotSupportedError);
        },
        Ok(true) => {},
    }
    let format = formats[0];
    let image_count = desired_image_count(
        capabilities.min_image_count,
        capabilities.max_image_count,
    );
    let size = resolution(capabilities, window_width, window_height);
    let transform = pre_transform(capabilities.supported_transforms, capabilities.current_transform);
    let mode = present_mode(modes);
    Ok(
        SwapchainSettings {
            format,
            image_count,
            width: size.0,
            height: size.1,
            pre_transform: transform,
            present_mode: mode,
        },
    )
}

} // verus!
