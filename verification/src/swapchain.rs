//! The choices that the Vulkan framework makes while it sets up a device and
//! a swapchain: which queue family, memory type, depth format, surface format,
//! present mode, extent and image count to take, given what the driver
//! reported. The driver calls themselves are made by the program around the
//! library, which hands the reports in as plain values.
use vstd::prelude::*;
use crate::vk::{
    VkColorSpaceKHR, VkComponentMapping, VkComponentSwizzle, VkExtent2D, VkFlags,
    VkFormat, VkImageSubresourceRange, VkPresentModeKHR, VkQueueFamilyProperties,
    VkSurfaceCapabilitiesKHR, VkSurfaceFormatKHR, VK_COMPOSITE_ALPHA_INHERIT_BIT_KHR,
    VK_COMPOSITE_ALPHA_OPAQUE_BIT_KHR, VK_COMPOSITE_ALPHA_POST_MULTIPLIED_BIT_KHR,
    VK_COMPOSITE_ALPHA_PRE_MULTIPLIED_BIT_KHR, VK_FORMAT_FEATURE_DEPTH_STENCIL_ATTACHMENT_BIT,
    VK_IMAGE_ASPECT_COLOR_BIT, VK_IMAGE_ASPECT_DEPTH_BIT, VK_IMAGE_ASPECT_STENCIL_BIT,
    VK_IMAGE_USAGE_COLOR_ATTACHMENT_BIT,
    VK_IMAGE_USAGE_TRANSFER_DST_BIT, VK_IMAGE_USAGE_TRANSFER_SRC_BIT, VK_QUEUE_COMPUTE_BIT,
    VK_QUEUE_GRAPHICS_BIT, VK_QUEUE_TRANSFER_BIT, VK_SURFACE_TRANSFORM_IDENTITY_BIT_KHR,
};

verus! {

/// `i` is the first index below `n` at which `p` holds.
pub open spec fn is_first_index(n: int, p: spec_fn(int) -> bool, i: int) -> bool {
    &&& 0 <= i < n
    &&& p(i)
    &&& forall|j: int| 0 <= j < i ==> !#[trigger] p(j)
}

/// `p` holds at no index below `n`.
pub open spec fn no_index(n: int, p: spec_fn(int) -> bool) -> bool {
    forall|j: int| 0 <= j < n ==> !#[trigger] p(j)
}

/// `r` is the first index below `n` at which `p` holds, or `None` where there is none.
pub open spec fn first_index_is(n: int, p: spec_fn(int) -> bool, r: Option<u32>) -> bool {
    match r {
        Some(i) => is_first_index(n, p, i as int),
        None => no_index(n, p),
    }
}

/// The present mode that a swapchain takes: FIFO under vsync; otherwise
/// mailbox where the surface offers it, else immediate where it offers that,
/// else FIFO.
pub open spec fn chosen_present_mode(modes: Seq<VkPresentModeKHR>, vsync: bool) -> VkPresentModeKHR {
    if vsync {
        VkPresentModeKHR::VK_PRESENT_MODE_FIFO_KHR
    } else if modes.contains(VkPresentModeKHR::VK_PRESENT_MODE_MAILBOX_KHR) {
        VkPresentModeKHR::VK_PRESENT_MODE_MAILBOX_KHR
    } else if modes.contains(VkPresentModeKHR::VK_PRESENT_MODE_IMMEDIATE_KHR) {
        VkPresentModeKHR::VK_PRESENT_MODE_IMMEDIATE_KHR
    } else {
        VkPresentModeKHR::VK_PRESENT_MODE_FIFO_KHR
    }
}

/// Picks the present mode from those that the surface offers.
pub fn choose_present_mode(present_modes: &[VkPresentModeKHR], vsync: bool) -> (m: VkPresentModeKHR)
    ensures
        m == chosen_present_mode(present_modes@, vsync),
{
    let mut mode = VkPresentModeKHR::VK_PRESENT_MODE_FIFO_KHR;
    if !vsync {
        let mut i: usize = 0;
        while i < present_modes.len()
            invariant
                !vsync,
                i <= present_modes.len(),
                !present_modes@.subrange(0, i as int).contains(
                    VkPresentModeKHR::VK_PRESENT_MODE_MAILBOX_KHR,
                ),
                mode == (if present_modes@.subrange(0, i as int).contains(
                    VkPresentModeKHR::VK_PRESENT_MODE_IMMEDIATE_KHR,
                ) {
                    VkPresentModeKHR::VK_PRESENT_MODE_IMMEDIATE_KHR
                } else {
                    VkPresentModeKHR::VK_PRESENT_MODE_FIFO_KHR
                }),
            decreases present_modes.len() - i,
        {
            let ghost before = present_modes@.subrange(0, i as int);
            let ghost after = present_modes@.subrange(0, i as int + 1);
            assert(after == before.push(present_modes@[i as int]));
            if present_modes[i] == VkPresentModeKHR::VK_PRESENT_MODE_MAILBOX_KHR {
                assert(present_modes@.contains(VkPresentModeKHR::VK_PRESENT_MODE_MAILBOX_KHR)) by {
                    assert(present_modes@[i as int] == VkPresentModeKHR::VK_PRESENT_MODE_MAILBOX_KHR);
                }
                return VkPresentModeKHR::VK_PRESENT_MODE_MAILBOX_KHR;
            }
            if present_modes[i] == VkPresentModeKHR::VK_PRESENT_MODE_IMMEDIATE_KHR {
                mode = VkPresentModeKHR::VK_PRESENT_MODE_IMMEDIATE_KHR;
            }
            proof {
                assert forall|m: VkPresentModeKHR| after.contains(m) <==> (before.contains(m) || m
                    == present_modes@[i as int]) by {
                    if after.contains(m) {
                        let k = choose|k: int| 0 <= k < after.len() && after[k] == m;
                        if k < i {
                            assert(before[k] == m);
                        }
                    }
                    if before.contains(m) {
                        let k = choose|k: int| 0 <= k < before.len() && before[k] == m;
                        assert(after[k] == m);
                    }
                    if m == present_modes@[i as int] {
                        assert(after[i as int] == m);
                    }
                }
            }
            i = i + 1;
        }
        assert(present_modes@.subrange(0, present_modes.len() as int) == present_modes@);
    }
    mode
}

/// The extent of a new swapchain: the surface's current extent, unless the
/// surface leaves the extent to the swapchain (width `u32::MAX`), in which
/// case the window's own size.
pub open spec fn chosen_extent(caps: VkSurfaceCapabilitiesKHR, width: u32, height: u32) -> VkExtent2D {
    if caps.currentExtent.width == u32::MAX {
        VkExtent2D { width, height }
    } else {
        caps.currentExtent
    }
}

/// One image more than the surface's minimum, but no more than its maximum
/// where it has one (a maximum of 0 means none).
pub open spec fn desired_image_count(caps: VkSurfaceCapabilitiesKHR) -> int {
    let want = caps.minImageCount + 1;
    if caps.maxImageCount > 0 && want > caps.maxImageCount {
        caps.maxImageCount as int
    } else {
        want
    }
}

/// The identity transform where the surface supports it, else its current transform.
pub open spec fn chosen_pre_transform(caps: VkSurfaceCapabilitiesKHR) -> VkFlags {
    if caps.supportedTransforms & VK_SURFACE_TRANSFORM_IDENTITY_BIT_KHR != 0 {
        VK_SURFACE_TRANSFORM_IDENTITY_BIT_KHR
    } else {
        caps.currentTransform
    }
}

/// The first of opaque, pre-multiplied, post-multiplied and inherited alpha
/// compositing that the surface supports; opaque where it supports none.
pub open spec fn chosen_composite_alpha(supported: VkFlags) -> VkFlags {
    if supported & VK_COMPOSITE_ALPHA_OPAQUE_BIT_KHR != 0 {
        VK_COMPOSITE_ALPHA_OPAQUE_BIT_KHR
    } else if supported & VK_COMPOSITE_ALPHA_PRE_MULTIPLIED_BIT_KHR != 0 {
        VK_COMPOSITE_ALPHA_PRE_MULTIPLIED_BIT_KHR
    } else if supported & VK_COMPOSITE_ALPHA_POST_MULTIPLIED_BIT_KHR != 0 {
        VK_COMPOSITE_ALPHA_POST_MULTIPLIED_BIT_KHR
    } else if supported & VK_COMPOSITE_ALPHA_INHERIT_BIT_KHR != 0 {
        VK_COMPOSITE_ALPHA_INHERIT_BIT_KHR
    } else {
        VK_COMPOSITE_ALPHA_OPAQUE_BIT_KHR
    }
}

/// The swapchain images are colour attachments, and also transfer sources
/// and destinations where the surface supports those uses.
pub open spec fn chosen_image_usage(supported: VkFlags) -> VkFlags {
    let usage = VK_IMAGE_USAGE_COLOR_ATTACHMENT_BIT;
    let usage = if supported & VK_IMAGE_USAGE_TRANSFER_SRC_BIT != 0 {
        usage | VK_IMAGE_USAGE_TRANSFER_SRC_BIT
    } else {
        usage
    };
    if supported & VK_IMAGE_USAGE_TRANSFER_DST_BIT != 0 {
        usage | VK_IMAGE_USAGE_TRANSFER_DST_BIT
    } else {
        usage
    }
}

/// How a new swapchain is to be made, as far as the surface decides it.
#[derive(Debug, Copy, Clone, PartialEq, Eq, Structural)]
pub struct SwapchainSettings {
    pub extent: VkExtent2D,
    pub present_mode: VkPresentModeKHR,
    pub min_image_count: u32,
    pub pre_transform: VkFlags,
    pub composite_alpha: VkFlags,
    pub image_usage: VkFlags,
}

/// The present mode chosen is FIFO (which every surface offers) or one that
/// the surface offers.
pub proof fn lemma_present_mode_offered(modes: Seq<VkPresentModeKHR>, vsync: bool)
    ensures
        chosen_present_mode(modes, vsync) == VkPresentModeKHR::VK_PRESENT_MODE_FIFO_KHR || modes.contains(
            chosen_present_mode(modes, vsync),
        ),
{
}

/// The alpha compositing chosen is one of the four modes, and one that the
/// surface supports whenever it supports any of them.
pub proof fn lemma_composite_alpha_supported(supported: VkFlags)
    ensures
        ({
            let a = chosen_composite_alpha(supported);
            &&& a == 1 || a == 2 || a == 4 || a == 8
            &&& supported & 15 != 0 ==> supported & a != 0
        }),
{
    assert(supported & 15 != 0 ==> (supported & 1 != 0 || supported & 2 != 0 || supported & 4 != 0
        || supported & 8 != 0)) by (bit_vector);
}

/// The swapchain images can always be drawn to, and are transfer sources or
/// destinations exactly where the surface supports those uses.
pub proof fn lemma_image_usage(supported: VkFlags)
    ensures
        chosen_image_usage(supported) & VK_IMAGE_USAGE_COLOR_ATTACHMENT_BIT != 0,
        (chosen_image_usage(supported) & VK_IMAGE_USAGE_TRANSFER_SRC_BIT != 0) == (supported
            & VK_IMAGE_USAGE_TRANSFER_SRC_BIT != 0),
        (chosen_image_usage(supported) & VK_IMAGE_USAGE_TRANSFER_DST_BIT != 0) == (supported
            & VK_IMAGE_USAGE_TRANSFER_DST_BIT != 0),
        chosen_image_usage(supported) & !(0x13u32) == 0,
{
    let s = supported;
    assert((if s & 2 != 0 { (if s & 1 != 0 { 16u32 | 1 } else { 16u32 }) | 2 } else { if s & 1 != 0 {
        16u32 | 1
    } else {
        16u32
    } }) & 16 != 0) by (bit_vector);
    assert(((if s & 2 != 0 { (if s & 1 != 0 { 16u32 | 1 } else { 16u32 }) | 2 } else { if s & 1 != 0 {
        16u32 | 1
    } else {
        16u32
    } }) & 1 != 0) == (s & 1 != 0)) by (bit_vector);
    assert(((if s & 2 != 0 { (if s & 1 != 0 { 16u32 | 1 } else { 16u32 }) | 2 } else { if s & 1 != 0 {
        16u32 | 1
    } else {
        16u32
    } }) & 2 != 0) == (s & 2 != 0)) by (bit_vector);
    assert((if s & 2 != 0 { (if s & 1 != 0 { 16u32 | 1 } else { 16u32 }) | 2 } else { if s & 1 != 0 {
        16u32 | 1
    } else {
        16u32
    } }) & !(0x13u32) == 0) by (bit_vector);
}

/// The image count asked for is one more than the surface's minimum, but
/// never above the surface's maximum where it has one, and never below its
/// minimum where its maximum is not below that.
pub proof fn lemma_image_count_bounds(caps: VkSurfaceCapabilitiesKHR)
    ensures
        caps.maxImageCount > 0 ==> desired_image_count(caps) <= caps.maxImageCount,
        caps.maxImageCount == 0 || caps.maxImageCount >= caps.minImageCount ==> desired_image_count(caps)
            >= caps.minImageCount,
        desired_image_count(caps) <= caps.minImageCount + 1,
{
}

/// Picks the alpha compositing mode, trying the candidates in order.
pub fn choose_composite_alpha(supported: VkFlags) -> (a: VkFlags)
    ensures
        a == chosen_composite_alpha(supported),
{
    let candidates: [VkFlags; 4] = [
        VK_COMPOSITE_ALPHA_OPAQUE_BIT_KHR,
        VK_COMPOSITE_ALPHA_PRE_MULTIPLIED_BIT_KHR,
        VK_COMPOSITE_ALPHA_POST_MULTIPLIED_BIT_KHR,
        VK_COMPOSITE_ALPHA_INHERIT_BIT_KHR,
    ];
    let mut i: usize = 0;
    while i < 4
        invariant
            i <= 4,
            candidates@ == seq![1u32, 2u32, 4u32, 8u32],
            forall|j: int| 0 <= j < i ==> supported & #[trigger] candidates@[j] == 0,
        decreases 4 - i,
    {
        if supported & candidates[i] != 0 {
            return candidates[i];
        }
        i = i + 1;
    }
    VK_COMPOSITE_ALPHA_OPAQUE_BIT_KHR
}

/// Decides the extent, present mode, image count, transform, alpha
/// compositing and image usage of a new swapchain from the surface's
/// capabilities and present modes, the window's size and the vsync setting.
/// The window takes the returned extent as its size.
pub fn swapchain_settings(
    caps: &VkSurfaceCapabilitiesKHR,
    present_modes: &[VkPresentModeKHR],
    width: u32,
    height: u32,
    vsync: bool,
) -> (s: SwapchainSettings)
    requires
        caps.minImageCount < u32::MAX,
    ensures
        s.extent == chosen_extent(*caps, width, height),
        s.present_mode == chosen_present_mode(present_modes@, vsync),
        s.min_image_count == desired_image_count(*caps),
        s.pre_transform == chosen_pre_transform(*caps),
        s.composite_alpha == chosen_composite_alpha(caps.supportedCompositeAlpha),
        s.image_usage == chosen_image_usage(caps.supportedUsageFlags),
{
    let extent = if caps.currentExtent.width == u32::MAX {
        VkExtent2D { width, height }
    } else {
        caps.currentExtent
    };
    let present_mode = choose_present_mode(present_modes, vsync);
    let mut min_image_count = caps.minImageCount + 1;
    if caps.maxImageCount > 0 && min_image_count > caps.maxImageCount {
        min_image_count = caps.maxImageCount;
    }
    let pre_transform = if caps.supportedTransforms & VK_SURFACE_TRANSFORM_IDENTITY_BIT_KHR != 0 {
        VK_SURFACE_TRANSFORM_IDENTITY_BIT_KHR
    } else {
        caps.currentTransform
    };
    let composite_alpha = choose_composite_alpha(caps.supportedCompositeAlpha);
    let mut image_usage = VK_IMAGE_USAGE_COLOR_ATTACHMENT_BIT;
    if caps.supportedUsageFlags & VK_IMAGE_USAGE_TRANSFER_SRC_BIT != 0 {
        image_usage = image_usage | VK_IMAGE_USAGE_TRANSFER_SRC_BIT;
    }
    if caps.supportedUsageFlags & VK_IMAGE_USAGE_TRANSFER_DST_BIT != 0 {
        image_usage = image_usage | VK_IMAGE_USAGE_TRANSFER_DST_BIT;
    }
    SwapchainSettings {
        extent,
        present_mode,
        min_image_count,
        pre_transform,
        composite_alpha,
        image_usage,
    }
}

/// The components of a swapchain image view: red, green, blue and alpha
/// each taken from themselves.
pub fn color_view_components() -> (c: VkComponentMapping)
    ensures
        c.r == VkComponentSwizzle::VK_COMPONENT_SWIZZLE_R,
        c.g == VkComponentSwizzle::VK_COMPONENT_SWIZZLE_G,
        c.b == VkComponentSwizzle::VK_COMPONENT_SWIZZLE_B,
        c.a == VkComponentSwizzle::VK_COMPONENT_SWIZZLE_A,
{
    VkComponentMapping {
        r: VkComponentSwizzle::VK_COMPONENT_SWIZZLE_R,
        g: VkComponentSwizzle::VK_COMPONENT_SWIZZLE_G,
        b: VkComponentSwizzle::VK_COMPONENT_SWIZZLE_B,
        a: VkComponentSwizzle::VK_COMPONENT_SWIZZLE_A,
    }
}

/// The part of a swapchain image that its view covers: the colour aspect of
/// its one mip level and one array layer.
pub fn color_view_range() -> (r: VkImageSubresourceRange)
    ensures
        r.aspectMask == VK_IMAGE_ASPECT_COLOR_BIT,
        r.baseMipLevel == 0 && r.levelCount == 1,
        r.baseArrayLayer == 0 && r.layerCount == 1,
{
    VkImageSubresourceRange {
        aspectMask: VK_IMAGE_ASPECT_COLOR_BIT,
        baseMipLevel: 0,
        levelCount: 1,
        baseArrayLayer: 0,
        layerCount: 1,
    }
}

/// The part of the depth image that its view covers: the depth aspect, with
/// the stencil aspect too for a format numbered from D16_UNORM_S8_UINT on
/// (the depth formats with a stencil part), of its one mip level and one
/// array layer.
pub fn depth_view_range(depth_format: VkFormat) -> (r: VkImageSubresourceRange)
    ensures
        r.aspectMask == if depth_format.spec_code()
            >= VkFormat::VK_FORMAT_D16_UNORM_S8_UINT.spec_code() {
            VK_IMAGE_ASPECT_DEPTH_BIT | VK_IMAGE_ASPECT_STENCIL_BIT
        } else {
            VK_IMAGE_ASPECT_DEPTH_BIT
        },
        r.baseMipLevel == 0 && r.levelCount == 1,
        r.baseArrayLayer == 0 && r.layerCount == 1,
{
    let aspect = if depth_format.code() >= VkFormat::VK_FORMAT_D16_UNORM_S8_UINT.code() {
        VK_IMAGE_ASPECT_DEPTH_BIT | VK_IMAGE_ASPECT_STENCIL_BIT
    } else {
        VK_IMAGE_ASPECT_DEPTH_BIT
    };
    VkImageSubresourceRange {
        aspectMask: aspect,
        baseMipLevel: 0,
        levelCount: 1,
        baseArrayLayer: 0,
        layerCount: 1,
    }
}

/// The format and colour space that a swapchain presents in, from those that
/// the surface offers: where the surface names only an undefined format it
/// takes any, and B8G8R8A8 UNORM is taken with that colour space; else the
/// first offer in B8G8R8A8 UNORM; else the first offer.
pub open spec fn surface_format_fits(
    formats: Seq<VkSurfaceFormatKHR>,
    r: (VkFormat, VkColorSpaceKHR),
) -> bool {
    let bgra = |j: int| formats[j].format == VkFormat::VK_FORMAT_B8G8R8A8_UNORM;
    if formats.len() == 1 && formats[0].format == VkFormat::VK_FORMAT_UNDEFINED {
        r == (VkFormat::VK_FORMAT_B8G8R8A8_UNORM, formats[0].colorSpace)
    } else if no_index(formats.len() as int, bgra) {
        r == (formats[0].format, formats[0].colorSpace)
    } else {
        exists|i: int| is_first_index(formats.len() as int, bgra, i)
            && r == (formats[i].format, formats[i].colorSpace)
    }
}

/// Picks the format and colour space of a swapchain from the surface's offers.
pub fn choose_surface_format(formats: &[VkSurfaceFormatKHR]) -> (r: (VkFormat, VkColorSpaceKHR))
    requires
        formats.len() > 0,
    ensures
        surface_format_fits(formats@, r),
{
    let ghost bgra = |j: int| formats@[j].format == VkFormat::VK_FORMAT_B8G8R8A8_UNORM;
    if formats.len() == 1 && formats[0].format == VkFormat::VK_FORMAT_UNDEFINED {
        return (VkFormat::VK_FORMAT_B8G8R8A8_UNORM, formats[0].colorSpace);
    }
    let mut i: usize = 0;
    while i < formats.len()
        invariant
            i <= formats.len(),
            bgra == (|j: int| formats@[j].format == VkFormat::VK_FORMAT_B8G8R8A8_UNORM),
            forall|j: int| 0 <= j < i ==> !#[trigger] bgra(j),
        decreases formats.len() - i,
    {
        if formats[i].format == VkFormat::VK_FORMAT_B8G8R8A8_UNORM {
            assert(is_first_index(formats.len() as int, bgra, i as int));
            return (formats[i].format, formats[i].colorSpace);
        }
        i = i + 1;
    }
    (formats[0].format, formats[0].colorSpace)
}

/// A swapchain image and the view through which it is drawn to; handles are
/// carried as the numbers the driver gave them, 0 for none.
#[derive(Debug, Copy, Clone, PartialEq, Eq, Structural)]
pub struct SwapChainBuffer {
    pub image: u64,
    pub view: u64,
}

impl Default for SwapChainBuffer {
    fn default() -> (b: Self)
        ensures
            b.image == 0 && b.view == 0,
    {
        SwapChainBuffer { image: 0, view: 0 }
    }
}

/// Why no swapchain can be made for a surface.
#[derive(Debug, Copy, Clone, PartialEq, Eq, Structural)]
pub enum SwapchainError {
    /// No queue family can both draw and present to the surface.
    NoGraphicsOrPresentQueue,
}

/// What the framework knows of its swapchain: the handles it works with
/// (as the numbers the driver gave them, 0 for none), the chosen format and
/// colour space, the images and their views, and the queue family that draws
/// and presents.
pub struct VulkanSwapChain {
    pub instance: u64,
    pub device: u64,
    pub physical_device: u64,
    pub surface: u64,
    pub color_format: VkFormat,
    pub color_space: VkColorSpaceKHR,
    pub swapchain: u64,
    pub image_count: u32,
    pub images: Vec<u64>,
    pub buffers: Vec<SwapChainBuffer>,
    pub queue_node_index: u32,
}

impl Default for VulkanSwapChain {
    fn default() -> (s: Self)
        ensures
            s.instance == 0 && s.device == 0 && s.physical_device == 0 && s.surface == 0,
            s.color_format == VkFormat::VK_FORMAT_UNDEFINED,
            s.color_space == VkColorSpaceKHR::VK_COLOR_SPACE_SRGB_NONLINEAR_KHR,
            s.swapchain == 0 && s.image_count == 0 && s.queue_node_index == 0,
            s.images@.len() == 0 && s.buffers@.len() == 0,
    {
        VulkanSwapChain {
            instance: 0,
            device: 0,
            physical_device: 0,
            surface: 0,
            color_format: VkFormat::VK_FORMAT_UNDEFINED,
            color_space: VkColorSpaceKHR::VK_COLOR_SPACE_SRGB_NONLINEAR_KHR,
            swapchain: 0,
            image_count: 0,
            images: Vec::new(),
            buffers: Vec::new(),
            queue_node_index: 0,
        }
    }
}

impl VulkanSwapChain {
    /// The surface, format, colour space, swapchain and images are as in `old`.
    pub open spec fn same_setup(self, old: Self) -> bool {
        &&& self.surface == old.surface
        &&& self.color_format == old.color_format
        &&& self.color_space == old.color_space
        &&& self.swapchain == old.swapchain
        &&& self.image_count == old.image_count
        &&& self.images@ == old.images@
        &&& self.buffers@ == old.buffers@
    }

    /// The instance and the devices are as in `old`.
    pub open spec fn same_devices(self, old: Self) -> bool {
        &&& self.instance == old.instance
        &&& self.physical_device == old.physical_device
        &&& self.device == old.device
    }

    /// Takes the instance, physical device and logical device that the
    /// swapchain is made with.
    pub fn connect(&mut self, instance: u64, physical_device: u64, device: u64)
        ensures
            final(self).instance == instance,
            final(self).physical_device == physical_device,
            final(self).device == device,
            final(self).same_setup(*old(self)),
            final(self).queue_node_index == old(self).queue_node_index,
    {
        self.instance = instance;
        self.physical_device = physical_device;
        self.device = device;
    }

    /// Picks the queue family that draws and presents: the first family that
    /// can present to the surface. `queue_props` and `supports_present` are
    /// the driver's reports, one entry per queue family.
    pub fn select_queue_node(
        &mut self,
        queue_props: &[VkQueueFamilyProperties],
        supports_present: &[bool],
    ) -> (r: Result<(), SwapchainError>)
        requires
            queue_props.len() == supports_present.len(),
            supports_present.len() < u32::MAX,
        ensures
            ({
                let present = |j: int| supports_present@[j];
                match r {
                    Ok(()) => is_first_index(
                        supports_present.len() as int,
                        present,
                        final(self).queue_node_index as int,
                    ),
                    Err(e) => e == SwapchainError::NoGraphicsOrPresentQueue && no_index(
                        supports_present.len() as int,
                        present,
                    ) && final(self).queue_node_index == old(self).queue_node_index,
                }
            }),
            final(self).same_devices(*old(self)),
            final(self).same_setup(*old(self)),
    {
        let ghost present = |j: int| supports_present@[j];
        let n = supports_present.len();
        let mut graphics_queue_node_index: u32 = u32::MAX;
        let mut present_queue_node_index: u32 = u32::MAX;
        let mut i: usize = 0;
        while i < n
            invariant_except_break
                present_queue_node_index == u32::MAX,
                graphics_queue_node_index == u32::MAX || graphics_queue_node_index < i,
                forall|j: int| 0 <= j < i ==> !#[trigger] present(j),
            invariant
                n == supports_present.len(),
                n == queue_props.len(),
                n < u32::MAX,
                i <= n,
                present == (|j: int| supports_present@[j]),
            ensures
                (present_queue_node_index == u32::MAX && no_index(n as int, present))
                    || (present_queue_node_index == graphics_queue_node_index && is_first_index(
                    n as int,
                    present,
                    present_queue_node_index as int,
                )),
            decreases n - i,
        {
            if queue_props[i].queueFlags & VK_QUEUE_GRAPHICS_BIT != 0 {
                graphics_queue_node_index = i as u32;
            }
            if supports_present[i] {
                graphics_queue_node_index = i as u32;
                present_queue_node_index = i as u32;
                assert(present(i as int));
                break;
            }
            i = i + 1;
        }
        if present_queue_node_index == u32::MAX {
            let mut k: usize = 0;
            while k < n
                invariant
                    n == supports_present.len(),
                    k <= n,
                    present == (|j: int| supports_present@[j]),
                    no_index(n as int, present),
                    present_queue_node_index == u32::MAX,
                decreases n - k,
            {
                if supports_present[k] {
                    assert(present(k as int));
                    present_queue_node_index = k as u32;
                    break;
                }
                k = k + 1;
            }
        }
        if graphics_queue_node_index == u32::MAX || present_queue_node_index == u32::MAX {
            return Err(SwapchainError::NoGraphicsOrPresentQueue);
        }
        assert(graphics_queue_node_index == present_queue_node_index);
        self.queue_node_index = graphics_queue_node_index;
        Ok(())
    }

    /// Takes the format and colour space of the swapchain from the surface's
    /// offers (see `choose_surface_format`).
    pub fn select_surface_format(&mut self, formats: &[VkSurfaceFormatKHR])
        requires
            formats.len() > 0,
        ensures
            surface_format_fits(formats@, (final(self).color_format, final(self).color_space)),
            final(self).same_devices(*old(self)),
            final(self).surface == old(self).surface,
            final(self).swapchain == old(self).swapchain,
            final(self).image_count == old(self).image_count,
            final(self).images@ == old(self).images@,
            final(self).buffers@ == old(self).buffers@,
            final(self).queue_node_index == old(self).queue_node_index,
    {
        let (format, color_space) = choose_surface_format(formats);
        self.color_format = format;
        self.color_space = color_space;
    }

    /// Takes the images of a newly made swapchain: each buffer holds its
    /// image, and keeps the view it had where there was a buffer at that
    /// place before (0 for a new one) until `set_view` replaces it.
    pub fn set_images(&mut self, images: Vec<u64>)
        requires
            images.len() <= u32::MAX,
        ensures
            final(self).image_count == images.len(),
            final(self).images@ == images@,
            final(self).buffers@.len() == images.len(),
            forall|i: int| 0 <= i < images.len() ==> (#[trigger] final(self).buffers@[i]).image == images@[i],
            forall|i: int| 0 <= i < images.len() ==> (#[trigger] final(self).buffers@[i]).view == (
                if i < old(self).buffers@.len() { old(self).buffers@[i].view } else { 0 }),
            final(self).same_devices(*old(self)),
            final(self).surface == old(self).surface,
            final(self).color_format == old(self).color_format,
            final(self).color_space == old(self).color_space,
            final(self).swapchain == old(self).swapchain,
            final(self).queue_node_index == old(self).queue_node_index,
    {
        let mut buffers: Vec<SwapChainBuffer> = Vec::new();
        let mut i: usize = 0;
        while i < images.len()
            invariant
                i <= images.len(),
                buffers@.len() == i,
                forall|j: int| 0 <= j < i ==> (#[trigger] buffers@[j]).image == images@[j],
                forall|j: int| 0 <= j < i ==> (#[trigger] buffers@[j]).view == (
                    if j < self.buffers@.len() { self.buffers@[j].view } else { 0 }),
            decreases images.len() - i,
        {
            let view = if i < self.buffers.len() { self.buffers[i].view } else { 0 };
            buffers.push(SwapChainBuffer { image: images[i], view });
            i = i + 1;
        }
        self.image_count = images.len() as u32;
        self.images = images;
        self.buffers = buffers;
    }

    /// Takes the view made for the image of buffer `i`.
    pub fn set_view(&mut self, i: usize, view: u64)
        requires
            i < old(self).buffers@.len(),
        ensures
            final(self).buffers@ == old(self).buffers@.update(
                i as int,
                SwapChainBuffer { image: old(self).buffers@[i as int].image, view },
            ),
            final(self).same_devices(*old(self)),
            final(self).surface == old(self).surface,
            final(self).color_format == old(self).color_format,
            final(self).color_space == old(self).color_space,
            final(self).swapchain == old(self).swapchain,
            final(self).image_count == old(self).image_count,
            final(self).images@ == old(self).images@,
            final(self).queue_node_index == old(self).queue_node_index,
    {
        let image = self.buffers[i].image;
        self.buffers.set(i, SwapChainBuffer { image, view });
    }
}

/// Family `j` offers a queue with one of the `wanted` flags and no graphics.
pub open spec fn dedicated_compute_family(families: Seq<VkQueueFamilyProperties>, wanted: VkFlags) -> spec_fn(int) -> bool {
    |j: int| families[j].queueFlags & wanted != 0 && families[j].queueFlags & VK_QUEUE_GRAPHICS_BIT == 0
}

/// Family `j` offers a queue with one of the `wanted` flags and neither
/// graphics nor compute.
pub open spec fn dedicated_transfer_family(families: Seq<VkQueueFamilyProperties>, wanted: VkFlags) -> spec_fn(int) -> bool {
    |j: int| families[j].queueFlags & wanted != 0 && families[j].queueFlags & VK_QUEUE_GRAPHICS_BIT == 0
        && families[j].queueFlags & VK_QUEUE_COMPUTE_BIT == 0
}

/// Family `j` offers a queue with one of the `wanted` flags.
pub open spec fn offering_family(families: Seq<VkQueueFamilyProperties>, wanted: VkFlags) -> spec_fn(int) -> bool {
    |j: int| families[j].queueFlags & wanted != 0
}

/// The queue family that serves the `wanted` flags: where compute is wanted,
/// the first family that offers it without graphics; else, where transfer is
/// wanted, the first that offers it without graphics or compute; else the
/// first family that offers any of the wanted flags; `None` where no family does.
pub open spec fn queue_family_fits(families: Seq<VkQueueFamilyProperties>, wanted: VkFlags, r: Option<u32>) -> bool {
    let n = families.len() as int;
    if wanted & VK_QUEUE_COMPUTE_BIT != 0 && !no_index(n, dedicated_compute_family(families, wanted)) {
        first_index_is(n, dedicated_compute_family(families, wanted), r)
    } else if wanted & VK_QUEUE_TRANSFER_BIT != 0 && !no_index(n, dedicated_transfer_family(families, wanted)) {
        first_index_is(n, dedicated_transfer_family(families, wanted), r)
    } else {
        first_index_is(n, offering_family(families, wanted), r)
    }
}

/// The test of family `j` that search `kind` makes: 0 for a dedicated
/// compute family, 1 for a dedicated transfer family, 2 for any family that
/// offers the wanted flags.
pub open spec fn family_test(families: Seq<VkQueueFamilyProperties>, wanted: VkFlags, kind: u8) -> spec_fn(int) -> bool {
    if kind == 0 {
        dedicated_compute_family(families, wanted)
    } else if kind == 1 {
        dedicated_transfer_family(families, wanted)
    } else {
        offering_family(families, wanted)
    }
}

/// The first family that passes the test of search `kind`.
fn first_family(families: &[VkQueueFamilyProperties], kind: u8, wanted: VkFlags) -> (r: Option<u32>)
    requires
        families.len() <= u32::MAX,
        kind < 3,
    ensures
        first_index_is(families.len() as int, family_test(families@, wanted, kind), r),
{
    let ghost p = family_test(families@, wanted, kind);
    let mut i: usize = 0;
    while i < families.len()
        invariant
            i <= families.len(),
            families.len() <= u32::MAX,
            kind < 3,
            p == family_test(families@, wanted, kind),
            forall|j: int| 0 <= j < i ==> !#[trigger] p(j),
        decreases families.len() - i,
    {
        let f = families[i].queueFlags;
        let hit = if kind == 0 {
            f & wanted != 0 && f & VK_QUEUE_GRAPHICS_BIT == 0
        } else if kind == 1 {
            f & wanted != 0 && f & VK_QUEUE_GRAPHICS_BIT == 0 && f & VK_QUEUE_COMPUTE_BIT == 0
        } else {
            f & wanted != 0
        };
        if hit {
            assert(p(i as int));
            return Some(i as u32);
        }
        assert(!p(i as int));
        i = i + 1;
    }
    None
}

/// The index of the queue family that serves the `wanted` flags (see
/// `queue_family_fits`); `None` where no family offers them.
pub fn queue_family_index(families: &[VkQueueFamilyProperties], wanted: VkFlags) -> (r: Option<u32>)
    requires
        families.len() <= u32::MAX,
    ensures
        queue_family_fits(families@, wanted, r),
{
    if wanted & VK_QUEUE_COMPUTE_BIT != 0 {
        let r = first_family(families, 0, wanted);
        if r.is_some() {
            return r;
        }
    }
    if wanted & VK_QUEUE_TRANSFER_BIT != 0 {
        let r = first_family(families, 1, wanted);
        if r.is_some() {
            return r;
        }
    }
    first_family(families, 2, wanted)
}

/// Memory type `j` is allowed by bit `j` of `type_bits` and has all the
/// `properties`.
pub open spec fn memory_type_fits(memory_type_flags: Seq<VkFlags>, type_bits: u32, properties: VkFlags) -> spec_fn(int) -> bool {
    |j: int| 0 <= j < 32 && (type_bits >> (j as u32)) & 1 == 1
        && memory_type_flags[j] & properties == properties
}

proof fn lemma_shift_step(x: u32, k: u32)
    requires
        k < 32,
    ensures
        k + 1 < 32 ==> (x >> k) >> 1u32 == x >> ((k + 1) as u32),
        k + 1 == 32 ==> (x >> k) >> 1u32 == 0,
{
    assert(k + 1 < 32 ==> (x >> k) >> 1u32 == x >> ((k + 1) as u32)) by (bit_vector)
        requires
            k < 32,
    ;
    assert(k + 1 == 32 ==> (x >> k) >> 1u32 == 0) by (bit_vector)
        requires
            k < 32,
    ;
}

/// The index of the first memory type that `type_bits` allows and that has
/// all the `properties`, where `memory_type_flags` holds the property flags
/// of the device's memory types; `None` where there is none.
pub fn memory_type_index(memory_type_flags: &[VkFlags], type_bits: u32, properties: VkFlags) -> (r: Option<u32>)
    requires
        memory_type_flags.len() <= 32,
    ensures
        first_index_is(
            memory_type_flags.len() as int,
            memory_type_fits(memory_type_flags@, type_bits, properties),
            r,
        ),
{
    let ghost p = memory_type_fits(memory_type_flags@, type_bits, properties);
    let mut bits = type_bits;
    let mut i: usize = 0;
    assert(type_bits >> 0u32 == type_bits) by (bit_vector);
    while i < memory_type_flags.len()
        invariant
            i <= memory_type_flags.len() <= 32,
            p == memory_type_fits(memory_type_flags@, type_bits, properties),
            i < 32 ==> bits == type_bits >> (i as u32),
            forall|j: int| 0 <= j < i ==> !#[trigger] p(j),
        decreases memory_type_flags.len() - i,
    {
        if bits & 1 == 1 {
            if memory_type_flags[i] & properties == properties {
                assert(p(i as int));
                return Some(i as u32);
            }
        }
        assert(!p(i as int));
        proof {
            lemma_shift_step(type_bits, i as u32);
        }
        bits = bits >> 1;
        i = i + 1;
    }
    None
}

/// The depth formats that a depth buffer may take, best first.
pub fn depth_format_candidates() -> (c: [VkFormat; 5])
    ensures
        c@ == seq![
            VkFormat::VK_FORMAT_D32_SFLOAT_S8_UINT,
            VkFormat::VK_FORMAT_D32_SFLOAT,
            VkFormat::VK_FORMAT_D24_UNORM_S8_UINT,
            VkFormat::VK_FORMAT_D16_UNORM_S8_UINT,
            VkFormat::VK_FORMAT_D16_UNORM,
        ],
{
    [
        VkFormat::VK_FORMAT_D32_SFLOAT_S8_UINT,
        VkFormat::VK_FORMAT_D32_SFLOAT,
        VkFormat::VK_FORMAT_D24_UNORM_S8_UINT,
        VkFormat::VK_FORMAT_D16_UNORM_S8_UINT,
        VkFormat::VK_FORMAT_D16_UNORM,
    ]
}

/// Candidate `j` can be a depth-stencil attachment with optimal tiling.
pub open spec fn depth_usable(optimal_tiling_features: Seq<VkFlags>) -> spec_fn(int) -> bool {
    |j: int| optimal_tiling_features[j] & VK_FORMAT_FEATURE_DEPTH_STENCIL_ATTACHMENT_BIT != 0
}

/// The best depth format that the device supports as a depth-stencil
/// attachment with optimal tiling, where `optimal_tiling_features[j]` is what
/// the device reported for candidate `j` of `depth_format_candidates`;
/// `None` where it supports none of them.
pub fn supported_depth_format(optimal_tiling_features: &[VkFlags; 5]) -> (r: Option<VkFormat>)
    ensures
        ({
            let c = seq![
                VkFormat::VK_FORMAT_D32_SFLOAT_S8_UINT,
                VkFormat::VK_FORMAT_D32_SFLOAT,
                VkFormat::VK_FORMAT_D24_UNORM_S8_UINT,
                VkFormat::VK_FORMAT_D16_UNORM_S8_UINT,
                VkFormat::VK_FORMAT_D16_UNORM,
            ];
            let p = depth_usable(optimal_tiling_features@);
            match r {
                Some(f) => exists|i: int| is_first_index(5, p, i) && f == c[i],
                None => no_index(5, p),
            }
        }),
{
    let ghost p = depth_usable(optimal_tiling_features@);
    let formats = depth_format_candidates();
    let mut i: usize = 0;
    while i < 5
        invariant
            i <= 5,
            p == depth_usable(optimal_tiling_features@),
            formats@ == seq![
                VkFormat::VK_FORMAT_D32_SFLOAT_S8_UINT,
                VkFormat::VK_FORMAT_D32_SFLOAT,
                VkFormat::VK_FORMAT_D24_UNORM_S8_UINT,
                VkFormat::VK_FORMAT_D16_UNORM_S8_UINT,
                VkFormat::VK_FORMAT_D16_UNORM,
            ],
            forall|j: int| 0 <= j < i ==> !#[trigger] p(j),
        decreases 5 - i,
    {
        if optimal_tiling_features[i] & VK_FORMAT_FEATURE_DEPTH_STENCIL_ATTACHMENT_BIT != 0 {
            assert(is_first_index(5, p, i as int));
            return Some(formats[i]);
        }
        i = i + 1;
    }
    None
}

/// At most one answer is the first index at which a predicate holds.
pub proof fn lemma_first_index_unique(n: int, p: spec_fn(int) -> bool, a: Option<u32>, b: Option<u32>)
    requires
        first_index_is(n, p, a),
        first_index_is(n, p, b),
    ensures
        a == b,
{
    match (a, b) {
        (Some(i), Some(j)) => {
            if (i as int) < (j as int) {
                assert(!p(i as int));
            } else if (j as int) < (i as int) {
                assert(!p(j as int));
            }
        },
        (Some(i), None) => {
            assert(!p(i as int));
        },
        (None, Some(j)) => {
            assert(!p(j as int));
        },
        (None, None) => {},
    }
}

/// The queue families that a logical device gets one queue each from.
#[derive(Debug, Clone, PartialEq, Eq)]
pub struct DeviceQueuePlan {
    /// The family of the graphics queue (0 where none was requested).
    pub graphics: u32,
    /// The family of the compute queue (that of graphics where none was requested).
    pub compute: u32,
    /// The family of the transfer queue (that of graphics where none was requested).
    pub transfer: u32,
    /// The families that a queue is created in, in order.
    pub queue_families: Vec<u32>,
}

/// The families that queues are created in: the graphics family and the
/// compute family where requested, and the transfer family where requested
/// and not one of those two.
pub open spec fn planned_families(requested: VkFlags, graphics: u32, compute: u32, transfer: u32) -> Seq<u32> {
    let g = if requested & VK_QUEUE_GRAPHICS_BIT != 0 { seq![graphics] } else { Seq::empty() };
    let c = if requested & VK_QUEUE_COMPUTE_BIT != 0 { seq![compute] } else { Seq::empty() };
    let t = if requested & VK_QUEUE_TRANSFER_BIT != 0 && transfer != graphics && transfer != compute {
        seq![transfer]
    } else {
        Seq::empty()
    };
    g + c + t
}

/// Some requested kind of queue (graphics, compute, transfer) is offered by no family.
pub open spec fn missing_queue_kind(families: Seq<VkQueueFamilyProperties>, requested: VkFlags) -> bool {
    ||| requested & VK_QUEUE_GRAPHICS_BIT != 0 && queue_family_fits(families, VK_QUEUE_GRAPHICS_BIT, None)
    ||| requested & VK_QUEUE_COMPUTE_BIT != 0 && queue_family_fits(families, VK_QUEUE_COMPUTE_BIT, None)
    ||| requested & VK_QUEUE_TRANSFER_BIT != 0 && queue_family_fits(families, VK_QUEUE_TRANSFER_BIT, None)
}

/// Decides which queue families a logical device takes its graphics, compute
/// and transfer queues from, for the `requested` kinds; `None` where a
/// requested kind is offered by no family.
pub fn device_queue_plan(families: &[VkQueueFamilyProperties], requested: VkFlags) -> (r: Option<DeviceQueuePlan>)
    requires
        families.len() <= u32::MAX,
    ensures
        r is None <==> missing_queue_kind(families@, requested),
        r matches Some(p) ==> {
            &&& requested & VK_QUEUE_GRAPHICS_BIT != 0 ==> queue_family_fits(families@, VK_QUEUE_GRAPHICS_BIT, Some(p.graphics))
            &&& requested & VK_QUEUE_GRAPHICS_BIT == 0 ==> p.graphics == 0
            &&& requested & VK_QUEUE_COMPUTE_BIT != 0 ==> queue_family_fits(families@, VK_QUEUE_COMPUTE_BIT, Some(p.compute))
            &&& requested & VK_QUEUE_COMPUTE_BIT == 0 ==> p.compute == p.graphics
            &&& requested & VK_QUEUE_TRANSFER_BIT != 0 ==> queue_family_fits(families@, VK_QUEUE_TRANSFER_BIT, Some(p.transfer))
            &&& requested & VK_QUEUE_TRANSFER_BIT == 0 ==> p.transfer == p.graphics
            &&& p.queue_families@ == planned_families(requested, p.graphics, p.compute, p.transfer)
        },
{
    let mut queue_families: Vec<u32> = Vec::new();
    let graphics: u32;
    if requested & VK_QUEUE_GRAPHICS_BIT != 0 {
        match queue_family_index(families, VK_QUEUE_GRAPHICS_BIT) {
            Some(g) => {
                graphics = g;
                queue_families.push(g);
            },
            None => {
                return None;
            },
        }
    } else {
        graphics = 0;
    }
    let compute: u32;
    if requested & VK_QUEUE_COMPUTE_BIT != 0 {
        match queue_family_index(families, VK_QUEUE_COMPUTE_BIT) {
            Some(c) => {
                compute = c;
                queue_families.push(c);
            },
            None => {
                return None;
            },
        }
    } else {
        compute = graphics;
    }
    let transfer: u32;
    if requested & VK_QUEUE_TRANSFER_BIT != 0 {
        match queue_family_index(families, VK_QUEUE_TRANSFER_BIT) {
            Some(t) => {
                transfer = t;
                if t != graphics && t != compute {
                    queue_families.push(t);
                }
            },
            None => {
                return None;
            },
        }
    } else {
        transfer = graphics;
    }
    proof {
        if requested & VK_QUEUE_GRAPHICS_BIT != 0 && queue_family_fits(families@, VK_QUEUE_GRAPHICS_BIT, None) {
            lemma_queue_family_unique(families@, VK_QUEUE_GRAPHICS_BIT, Some(graphics), None);
        }
        if requested & VK_QUEUE_COMPUTE_BIT != 0 && queue_family_fits(families@, VK_QUEUE_COMPUTE_BIT, None) {
            lemma_queue_family_unique(families@, VK_QUEUE_COMPUTE_BIT, Some(compute), None);
        }
        if requested & VK_QUEUE_TRANSFER_BIT != 0 && queue_family_fits(families@, VK_QUEUE_TRANSFER_BIT, None) {
            lemma_queue_family_unique(families@, VK_QUEUE_TRANSFER_BIT, Some(transfer), None);
        }
        assert(queue_families@ == planned_families(requested, graphics, compute, transfer));
    }
    Some(DeviceQueuePlan { graphics, compute, transfer, queue_families })
}

/// The queue family that serves a set of flags is a function of the families and the flags.
pub proof fn lemma_queue_family_unique(
    families: Seq<VkQueueFamilyProperties>,
    wanted: VkFlags,
    a: Option<u32>,
    b: Option<u32>,
)
    requires
        queue_family_fits(families, wanted, a),
        queue_family_fits(families, wanted, b),
    ensures
        a == b,
{
    let n = families.len() as int;
    if wanted & VK_QUEUE_COMPUTE_BIT != 0 && !no_index(n, dedicated_compute_family(families, wanted)) {
        lemma_first_index_unique(n, dedicated_compute_family(families, wanted), a, b);
    } else if wanted & VK_QUEUE_TRANSFER_BIT != 0 && !no_index(n, dedicated_transfer_family(families, wanted)) {
        lemma_first_index_unique(n, dedicated_transfer_family(families, wanted), a, b);
    } else {
        lemma_first_index_unique(n, offering_family(families, wanted), a, b);
    }
}

} // verus!
