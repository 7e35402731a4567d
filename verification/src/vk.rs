//! The Vulkan values that the framework's decisions read and make: extents,
//! surface capabilities and formats, queue family properties, the flag bits
//! they are tested against, and the enumerations with the numbers that the
//! Vulkan API gives them.
use vstd::prelude::*;

verus! {

/// A set of Vulkan flag bits.
pub type VkFlags = u32;

/// A Vulkan boolean: `VK_TRUE` or `VK_FALSE`.
pub type VkBool32 = u32;

pub const VK_FALSE: VkBool32 = 0;
pub const VK_TRUE: VkBool32 = 1;

pub const VK_QUEUE_GRAPHICS_BIT: VkFlags = 0x00000001;
pub const VK_QUEUE_COMPUTE_BIT: VkFlags = 0x00000002;
pub const VK_QUEUE_TRANSFER_BIT: VkFlags = 0x00000004;

pub const VK_COMPOSITE_ALPHA_OPAQUE_BIT_KHR: VkFlags = 0x00000001;
pub const VK_COMPOSITE_ALPHA_PRE_MULTIPLIED_BIT_KHR: VkFlags = 0x00000002;
pub const VK_COMPOSITE_ALPHA_POST_MULTIPLIED_BIT_KHR: VkFlags = 0x00000004;
pub const VK_COMPOSITE_ALPHA_INHERIT_BIT_KHR: VkFlags = 0x00000008;

pub const VK_IMAGE_USAGE_TRANSFER_SRC_BIT: VkFlags = 0x00000001;
pub const VK_IMAGE_USAGE_TRANSFER_DST_BIT: VkFlags = 0x00000002;
pub const VK_IMAGE_USAGE_COLOR_ATTACHMENT_BIT: VkFlags = 0x00000010;

pub const VK_IMAGE_ASPECT_COLOR_BIT: VkFlags = 0x00000001;
pub const VK_IMAGE_ASPECT_DEPTH_BIT: VkFlags = 0x00000002;
pub const VK_IMAGE_ASPECT_STENCIL_BIT: VkFlags = 0x00000004;

pub const VK_SURFACE_TRANSFORM_IDENTITY_BIT_KHR: VkFlags = 0x00000001;

pub const VK_FORMAT_FEATURE_DEPTH_STENCIL_ATTACHMENT_BIT: VkFlags = 0x00000200;

/// A two-dimensional size in pixels.
#[derive(Debug, Copy, Clone, PartialEq, Eq, Structural)]
pub struct VkExtent2D {
    pub width: u32,
    pub height: u32,
}

impl Default for VkExtent2D {
    fn default() -> (e: Self)
        ensures
            e.width == 0 && e.height == 0,
    {
        VkExtent2D { width: 0, height: 0 }
    }
}

/// A three-dimensional size in texels.
#[derive(Debug, Copy, Clone, PartialEq, Eq, Structural)]
pub struct VkExtent3D {
    pub width: u32,
    pub height: u32,
    pub depth: u32,
}

impl Default for VkExtent3D {
    fn default() -> (e: Self)
        ensures
            e.width == 0 && e.height == 0 && e.depth == 0,
    {
        VkExtent3D { width: 0, height: 0, depth: 0 }
    }
}

/// What a queue family of a physical device offers.
#[allow(non_snake_case)]
#[derive(Debug, Copy, Clone, PartialEq, Eq, Structural)]
pub struct VkQueueFamilyProperties {
    pub queueFlags: VkFlags,
    pub queueCount: u32,
    pub timestampValidBits: u32,
    pub minImageTransferGranularity: VkExtent3D,
}

impl Default for VkQueueFamilyProperties {
    fn default() -> (p: Self)
        ensures
            p.queueFlags == 0 && p.queueCount == 0 && p.timestampValidBits == 0,
            p.minImageTransferGranularity == (VkExtent3D { width: 0, height: 0, depth: 0 }),
    {
        VkQueueFamilyProperties {
            queueFlags: 0,
            queueCount: 0,
            timestampValidBits: 0,
            minImageTransferGranularity: VkExtent3D { width: 0, height: 0, depth: 0 },
        }
    }
}

/// What a surface allows a swapchain on it to be.
#[allow(non_snake_case)]
#[derive(Debug, Copy, Clone, PartialEq, Eq, Structural)]
pub struct VkSurfaceCapabilitiesKHR {
    pub minImageCount: u32,
    pub maxImageCount: u32,
    pub currentExtent: VkExtent2D,
    pub minImageExtent: VkExtent2D,
    pub maxImageExtent: VkExtent2D,
    pub maxImageArrayLayers: u32,
    pub supportedTransforms: VkFlags,
    pub currentTransform: VkFlags,
    pub supportedCompositeAlpha: VkFlags,
    pub supportedUsageFlags: VkFlags,
}

impl Default for VkSurfaceCapabilitiesKHR {
    fn default() -> (c: Self)
        ensures
            c.minImageCount == 0 && c.maxImageCount == 0 && c.maxImageArrayLayers == 0,
            c.currentExtent == (VkExtent2D { width: 0, height: 0 }),
            c.minImageExtent == (VkExtent2D { width: 0, height: 0 }),
            c.maxImageExtent == (VkExtent2D { width: 0, height: 0 }),
            c.supportedTransforms == 0 && c.currentTransform == 0,
            c.supportedCompositeAlpha == 0 && c.supportedUsageFlags == 0,
    {
        VkSurfaceCapabilitiesKHR {
            minImageCount: 0,
            maxImageCount: 0,
            currentExtent: VkExtent2D { width: 0, height: 0 },
            minImageExtent: VkExtent2D { width: 0, height: 0 },
            maxImageExtent: VkExtent2D { width: 0, height: 0 },
            maxImageArrayLayers: 0,
            supportedTransforms: 0,
            currentTransform: 0,
            supportedCompositeAlpha: 0,
            supportedUsageFlags: 0,
        }
    }
}

/// A pixel format and colour space in which a surface can present.
#[allow(non_snake_case)]
#[derive(Debug, Copy, Clone, PartialEq, Eq, Structural)]
pub struct VkSurfaceFormatKHR {
    pub format: VkFormat,
    pub colorSpace: VkColorSpaceKHR,
}

impl Default for VkSurfaceFormatKHR {
    fn default() -> (f: Self)
        ensures
            f.format == VkFormat::VK_FORMAT_UNDEFINED,
            f.colorSpace == VkColorSpaceKHR::VK_COLOR_SPACE_SRGB_NONLINEAR_KHR,
    {
        VkSurfaceFormatKHR {
            format: VkFormat::VK_FORMAT_UNDEFINED,
            colorSpace: VkColorSpaceKHR::VK_COLOR_SPACE_SRGB_NONLINEAR_KHR,
        }
    }
}

/// Where an image view takes each colour component from.
#[derive(Debug, Copy, Clone, PartialEq, Eq, Structural)]
pub struct VkComponentMapping {
    pub r: VkComponentSwizzle,
    pub g: VkComponentSwizzle,
    pub b: VkComponentSwizzle,
    pub a: VkComponentSwizzle,
}

/// The aspects, mip levels and array layers of an image that a view covers.
#[allow(non_snake_case)]
#[derive(Debug, Copy, Clone, PartialEq, Eq, Structural)]
pub struct VkImageSubresourceRange {
    pub aspectMask: VkFlags,
    pub baseMipLevel: u32,
    pub levelCount: u32,
    pub baseArrayLayer: u32,
    pub layerCount: u32,
}

/// What a Vulkan command reports.
#[allow(non_camel_case_types)]
#[derive(Debug, Copy, Clone, PartialEq, Eq, Structural)]
pub enum VkResult {
    VK_SUCCESS,
    VK_NOT_READY,
}

impl VkResult {
    /// The number that the Vulkan API gives this value.
    pub open spec fn spec_code(self) -> u32 {
        match self {
            VkResult::VK_SUCCESS => 0,
            VkResult::VK_NOT_READY => 1,
        }
    }

    /// The value that the Vulkan API number `code` stands for, if any.
    pub open spec fn spec_from_code(code: u32) -> Option<Self> {
        match code {
            0 => Some(VkResult::VK_SUCCESS),
            1 => Some(VkResult::VK_NOT_READY),
            _ => None,
        }
    }

    /// The number that the Vulkan API gives this value.
    pub fn code(&self) -> (c: u32)
        ensures
            c == self.spec_code(),
    {
        match self {
            VkResult::VK_SUCCESS => 0,
            VkResult::VK_NOT_READY => 1,
        }
    }

    /// The value that the Vulkan API number `code` stands for; `None` for a number it does not use.
    pub fn from_code(code: u32) -> (r: Option<Self>)
        ensures
            r == Self::spec_from_code(code),
    {
        match code {
            0 => Some(VkResult::VK_SUCCESS),
            1 => Some(VkResult::VK_NOT_READY),
            _ => None,
        }
    }

    /// Reading back the number of a value gives the value again.
    pub proof fn lemma_code_roundtrip(self)
        ensures
            Self::spec_from_code(self.spec_code()) == Some(self),
    {
    }
}

/// A Vulkan pixel format.
#[allow(non_camel_case_types)]
#[derive(Debug, Copy, Clone, PartialEq, Eq, Structural)]
pub enum VkFormat {
    VK_FORMAT_UNDEFINED,
    VK_FORMAT_R4G4_UNORM_PACK8,
    VK_FORMAT_R4G4B4A4_UNORM_PACK16,
    VK_FORMAT_B4G4R4A4_UNORM_PACK16,
    VK_FORMAT_R5G6B5_UNORM_PACK16,
    VK_FORMAT_B5G6R5_UNORM_PACK16,
    VK_FORMAT_R5G5B5A1_UNORM_PACK16,
    VK_FORMAT_B5G5R5A1_UNORM_PACK16,
    VK_FORMAT_A1R5G5B5_UNORM_PACK16,
    VK_FORMAT_R8_UNORM,
    VK_FORMAT_R8_SNORM,
    VK_FORMAT_R8_USCALED,
    VK_FORMAT_R8_SSCALED,
    VK_FORMAT_R8_UINT,
    VK_FORMAT_R8_SINT,
    VK_FORMAT_R8_SRGB,
    VK_FORMAT_R8G8_UNORM,
    VK_FORMAT_R8G8_SNORM,
    VK_FORMAT_R8G8_USCALED,
    VK_FORMAT_R8G8_SSCALED,
    VK_FORMAT_R8G8_UINT,
    VK_FORMAT_R8G8_SINT,
    VK_FORMAT_R8G8_SRGB,
    VK_FORMAT_R8G8B8_UNORM,
    VK_FORMAT_R8G8B8_SNORM,
    VK_FORMAT_R8G8B8_USCALED,
    VK_FORMAT_R8G8B8_SSCALED,
    VK_FORMAT_R8G8B8_UINT,
    VK_FORMAT_R8G8B8_SINT,
    VK_FORMAT_R8G8B8_SRGB,
    VK_FORMAT_B8G8R8_UNORM,
    VK_FORMAT_B8G8R8_SNORM,
    VK_FORMAT_B8G8R8_USCALED,
    VK_FORMAT_B8G8R8_SSCALED,
    VK_FORMAT_B8G8R8_UINT,
    VK_FORMAT_B8G8R8_SINT,
    VK_FORMAT_B8G8R8_SRGB,
    VK_FORMAT_R8G8B8A8_UNORM,
    VK_FORMAT_R8G8B8A8_SNORM,
    VK_FORMAT_R8G8B8A8_USCALED,
    VK_FORMAT_R8G8B8A8_SSCALED,
    VK_FORMAT_R8G8B8A8_UINT,
    VK_FORMAT_R8G8B8A8_SINT,
    VK_FORMAT_R8G8B8A8_SRGB,
    VK_FORMAT_B8G8R8A8_UNORM,
    VK_FORMAT_B8G8R8A8_SNORM,
    VK_FORMAT_B8G8R8A8_USCALED,
    VK_FORMAT_B8G8R8A8_SSCALED,
    VK_FORMAT_B8G8R8A8_UINT,
    VK_FORMAT_B8G8R8A8_SINT,
    VK_FORMAT_B8G8R8A8_SRGB,
    VK_FORMAT_A8B8G8R8_UNORM_PACK32,
    VK_FORMAT_A8B8G8R8_SNORM_PACK32,
    VK_FORMAT_A8B8G8R8_USCALED_PACK32,
    VK_FORMAT_A8B8G8R8_SSCALED_PACK32,
    VK_FORMAT_A8B8G8R8_UINT_PACK32,
    VK_FORMAT_A8B8G8R8_SINT_PACK32,
    VK_FORMAT_A8B8G8R8_SRGB_PACK32,
    VK_FORMAT_A2R10G10B10_UNORM_PACK32,
    VK_FORMAT_A2R10G10B10_SNORM_PACK32,
    VK_FORMAT_A2R10G10B10_USCALED_PACK32,
    VK_FORMAT_A2R10G10B10_SSCALED_PACK32,
    VK_FORMAT_A2R10G10B10_UINT_PACK32,
    VK_FORMAT_A2R10G10B10_SINT_PACK32,
    VK_FORMAT_A2B10G10R10_UNORM_PACK32,
    VK_FORMAT_A2B10G10R10_SNORM_PACK32,
    VK_FORMAT_A2B10G10R10_USCALED_PACK32,
    VK_FORMAT_A2B10G10R10_SSCALED_PACK32,
    VK_FORMAT_A2B10G10R10_UINT_PACK32,
    VK_FORMAT_A2B10G10R10_SINT_PACK32,
    VK_FORMAT_R16_UNORM,
    VK_FORMAT_R16_SNORM,
    VK_FORMAT_R16_USCALED,
    VK_FORMAT_R16_SSCALED,
    VK_FORMAT_R16_UINT,
    VK_FORMAT_R16_SINT,
    VK_FORMAT_R16_SFLOAT,
    VK_FORMAT_R16G16_UNORM,
    VK_FORMAT_R16G16_SNORM,
    VK_FORMAT_R16G16_USCALED,
    VK_FORMAT_R16G16_SSCALED,
    VK_FORMAT_R16G16_UINT,
    VK_FORMAT_R16G16_SINT,
    VK_FORMAT_R16G16_SFLOAT,
    VK_FORMAT_R16G16B16_UNORM,
    VK_FORMAT_R16G16B16_SNORM,
    VK_FORMAT_R16G16B16_USCALED,
    VK_FORMAT_R16G16B16_SSCALED,
    VK_FORMAT_R16G16B16_UINT,
    VK_FORMAT_R16G16B16_SINT,
    VK_FORMAT_R16G16B16_SFLOAT,
    VK_FORMAT_R16G16B16A16_UNORM,
    VK_FORMAT_R16G16B16A16_SNORM,
    VK_FORMAT_R16G16B16A16_USCALED,
    VK_FORMAT_R16G16B16A16_SSCALED,
    VK_FORMAT_R16G16B16A16_UINT,
    VK_FORMAT_R16G16B16A16_SINT,
    VK_FORMAT_R16G16B16A16_SFLOAT,
    VK_FORMAT_R32_UINT,
    VK_FORMAT_R32_SINT,
    VK_FORMAT_R32_SFLOAT,
    VK_FORMAT_R32G32_UINT,
    VK_FORMAT_R32G32_SINT,
    VK_FORMAT_R32G32_SFLOAT,
    VK_FORMAT_R32G32B32_UINT,
    VK_FORMAT_R32G32B32_SINT,
    VK_FORMAT_R32G32B32_SFLOAT,
    VK_FORMAT_R32G32B32A32_UINT,
    VK_FORMAT_R32G32B32A32_SINT,
    VK_FORMAT_R32G32B32A32_SFLOAT,
    VK_FORMAT_R64_UINT,
    VK_FORMAT_R64_SINT,
    VK_FORMAT_R64_SFLOAT,
    VK_FORMAT_R64G64_UINT,
    VK_FORMAT_R64G64_SINT,
    VK_FORMAT_R64G64_SFLOAT,
    VK_FORMAT_R64G64B64_UINT,
    VK_FORMAT_R64G64B64_SINT,
    VK_FORMAT_R64G64B64_SFLOAT,
    VK_FORMAT_R64G64B64A64_UINT,
    VK_FORMAT_R64G64B64A64_SINT,
    VK_FORMAT_R64G64B64A64_SFLOAT,
    VK_FORMAT_B10G11R11_UFLOAT_PACK32,
    VK_FORMAT_E5B9G9R9_UFLOAT_PACK32,
    VK_FORMAT_D16_UNORM,
    VK_FORMAT_X8_D24_UNORM_PACK32,
    VK_FORMAT_D32_SFLOAT,
    VK_FORMAT_S8_UINT,
    VK_FORMAT_D16_UNORM_S8_UINT,
    VK_FORMAT_D24_UNORM_S8_UINT,
    VK_FORMAT_D32_SFLOAT_S8_UINT,
    VK_FORMAT_BC1_RGB_UNORM_BLOCK,
    VK_FORMAT_BC1_RGB_SRGB_BLOCK,
    VK_FORMAT_BC1_RGBA_UNORM_BLOCK,
    VK_FORMAT_BC1_RGBA_SRGB_BLOCK,
    VK_FORMAT_BC2_UNORM_BLOCK,
    VK_FORMAT_BC2_SRGB_BLOCK,
    VK_FORMAT_BC3_UNORM_BLOCK,
    VK_FORMAT_BC3_SRGB_BLOCK,
    VK_FORMAT_BC4_UNORM_BLOCK,
    VK_FORMAT_BC4_SNORM_BLOCK,
    VK_FORMAT_BC5_UNORM_BLOCK,
    VK_FORMAT_BC5_SNORM_BLOCK,
    VK_FORMAT_BC6H_UFLOAT_BLOCK,
    VK_FORMAT_BC6H_SFLOAT_BLOCK,
    VK_FORMAT_BC7_UNORM_BLOCK,
    VK_FORMAT_BC7_SRGB_BLOCK,
    VK_FORMAT_ETC2_R8G8B8_UNORM_BLOCK,
    VK_FORMAT_ETC2_R8G8B8_SRGB_BLOCK,
    VK_FORMAT_ETC2_R8G8B8A1_UNORM_BLOCK,
    VK_FORMAT_ETC2_R8G8B8A1_SRGB_BLOCK,
    VK_FORMAT_ETC2_R8G8B8A8_UNORM_BLOCK,
    VK_FORMAT_ETC2_R8G8B8A8_SRGB_BLOCK,
    VK_FORMAT_EAC_R11_UNORM_BLOCK,
    VK_FORMAT_EAC_R11_SNORM_BLOCK,
    VK_FORMAT_EAC_R11G11_UNORM_BLOCK,
    VK_FORMAT_EAC_R11G11_SNORM_BLOCK,
    VK_FORMAT_ASTC_4x4_UNORM_BLOCK,
    VK_FORMAT_ASTC_4x4_SRGB_BLOCK,
    VK_FORMAT_ASTC_5x4_UNORM_BLOCK,
    VK_FORMAT_ASTC_5x4_SRGB_BLOCK,
    VK_FORMAT_ASTC_5x5_UNORM_BLOCK,
    VK_FORMAT_ASTC_5x5_SRGB_BLOCK,
    VK_FORMAT_ASTC_6x5_UNORM_BLOCK,
    VK_FORMAT_ASTC_6x5_SRGB_BLOCK,
    VK_FORMAT_ASTC_6x6_UNORM_BLOCK,
    VK_FORMAT_ASTC_6x6_SRGB_BLOCK,
    VK_FORMAT_ASTC_8x5_UNORM_BLOCK,
    VK_FORMAT_ASTC_8x5_SRGB_BLOCK,
    VK_FORMAT_ASTC_8x6_UNORM_BLOCK,
    VK_FORMAT_ASTC_8x6_SRGB_BLOCK,
    VK_FORMAT_ASTC_8x8_UNORM_BLOCK,
    VK_FORMAT_ASTC_8x8_SRGB_BLOCK,
    VK_FORMAT_ASTC_10x5_UNORM_BLOCK,
    VK_FORMAT_ASTC_10x5_SRGB_BLOCK,
    VK_FORMAT_ASTC_10x6_UNORM_BLOCK,
    VK_FORMAT_ASTC_10x6_SRGB_BLOCK,
    VK_FORMAT_ASTC_10x8_UNORM_BLOCK,
    VK_FORMAT_ASTC_10x8_SRGB_BLOCK,
    VK_FORMAT_ASTC_10x10_UNORM_BLOCK,
    VK_FORMAT_ASTC_10x10_SRGB_BLOCK,
    VK_FORMAT_ASTC_12x10_UNORM_BLOCK,
    VK_FORMAT_ASTC_12x10_SRGB_BLOCK,
    VK_FORMAT_ASTC_12x12_UNORM_BLOCK,
    VK_FORMAT_ASTC_12x12_SRGB_BLOCK,
    VK_FORMAT_G8B8G8R8_422_UNORM,
    VK_FORMAT_B8G8R8G8_422_UNORM,
    VK_FORMAT_G8_B8_R8_3PLANE_420_UNORM,
    VK_FORMAT_G8_B8R8_2PLANE_420_UNORM,
    VK_FORMAT_G8_B8_R8_3PLANE_422_UNORM,
    VK_FORMAT_G8_B8R8_2PLANE_422_UNORM,
    VK_FORMAT_G8_B8_R8_3PLANE_444_UNORM,
    VK_FORMAT_R10X6_UNORM_PACK16,
    VK_FORMAT_R10X6G10X6_UNORM_2PACK16,
    VK_FORMAT_R10X6G10X6B10X6A10X6_UNORM_4PACK16,
    VK_FORMAT_G10X6B10X6G10X6R10X6_422_UNORM_4PACK16,
    VK_FORMAT_B10X6G10X6R10X6G10X6_422_UNORM_4PACK16,
    VK_FORMAT_G10X6_B10X6_R10X6_3PLANE_420_UNORM_3PACK16,
    VK_FORMAT_G10X6_B10X6R10X6_2PLANE_420_UNORM_3PACK16,
    VK_FORMAT_G10X6_B10X6_R10X6_3PLANE_422_UNORM_3PACK16,
    VK_FORMAT_G10X6_B10X6R10X6_2PLANE_422_UNORM_3PACK16,
    VK_FORMAT_G10X6_B10X6_R10X6_3PLANE_444_UNORM_3PACK16,
    VK_FORMAT_R12X4_UNORM_PACK16,
    VK_FORMAT_R12X4G12X4_UNORM_2PACK16,
    VK_FORMAT_R12X4G12X4B12X4A12X4_UNORM_4PACK16,
    VK_FORMAT_G12X4B12X4G12X4R12X4_422_UNORM_4PACK16,
    VK_FORMAT_B12X4G12X4R12X4G12X4_422_UNORM_4PACK16,
    VK_FORMAT_G12X4_B12X4_R12X4_3PLANE_420_UNORM_3PACK16,
    VK_FORMAT_G12X4_B12X4R12X4_2PLANE_420_UNORM_3PACK16,
    VK_FORMAT_G12X4_B12X4_R12X4_3PLANE_422_UNORM_3PACK16,
    VK_FORMAT_G12X4_B12X4R12X4_2PLANE_422_UNORM_3PACK16,
    VK_FORMAT_G12X4_B12X4_R12X4_3PLANE_444_UNORM_3PACK16,
    VK_FORMAT_G16B16G16R16_422_UNORM,
    VK_FORMAT_B16G16R16G16_422_UNORM,
    VK_FORMAT_G16_B16_R16_3PLANE_420_UNORM,
    VK_FORMAT_G16_B16R16_2PLANE_420_UNORM,
    VK_FORMAT_G16_B16_R16_3PLANE_422_UNORM,
    VK_FORMAT_G16_B16R16_2PLANE_422_UNORM,
    VK_FORMAT_G16_B16_R16_3PLANE_444_UNORM,
    VK_FORMAT_G8_B8R8_2PLANE_444_UNORM,
    VK_FORMAT_G10X6_B10X6R10X6_2PLANE_444_UNORM_3PACK16,
    VK_FORMAT_G12X4_B12X4R12X4_2PLANE_444_UNORM_3PACK16,
    VK_FORMAT_G16_B16R16_2PLANE_444_UNORM,
    VK_FORMAT_A4R4G4B4_UNORM_PACK16,
    VK_FORMAT_A4B4G4R4_UNORM_PACK16,
    VK_FORMAT_ASTC_4x4_SFLOAT_BLOCK,
    VK_FORMAT_ASTC_5x4_SFLOAT_BLOCK,
    VK_FORMAT_ASTC_5x5_SFLOAT_BLOCK,
    VK_FORMAT_ASTC_6x5_SFLOAT_BLOCK,
    VK_FORMAT_ASTC_6x6_SFLOAT_BLOCK,
    VK_FORMAT_ASTC_8x5_SFLOAT_BLOCK,
    VK_FORMAT_ASTC_8x6_SFLOAT_BLOCK,
    VK_FORMAT_ASTC_8x8_SFLOAT_BLOCK,
    VK_FORMAT_ASTC_10x5_SFLOAT_BLOCK,
    VK_FORMAT_ASTC_10x6_SFLOAT_BLOCK,
    VK_FORMAT_ASTC_10x8_SFLOAT_BLOCK,
    VK_FORMAT_ASTC_10x10_SFLOAT_BLOCK,
    VK_FORMAT_ASTC_12x10_SFLOAT_BLOCK,
    VK_FORMAT_ASTC_12x12_SFLOAT_BLOCK,
    VK_FORMAT_PVRTC1_2BPP_UNORM_BLOCK_IMG,
    VK_FORMAT_PVRTC1_4BPP_UNORM_BLOCK_IMG,
    VK_FORMAT_PVRTC2_2BPP_UNORM_BLOCK_IMG,
    VK_FORMAT_PVRTC2_4BPP_UNORM_BLOCK_IMG,
    VK_FORMAT_PVRTC1_2BPP_SRGB_BLOCK_IMG,
    VK_FORMAT_PVRTC1_4BPP_SRGB_BLOCK_IMG,
    VK_FORMAT_PVRTC2_2BPP_SRGB_BLOCK_IMG,
    VK_FORMAT_PVRTC2_4BPP_SRGB_BLOCK_IMG,
    VK_FORMAT_MAX_ENUM,
}

impl VkFormat {
    /// The number that the Vulkan API gives this value.
    pub open spec fn spec_code(self) -> u32 {
        match self {
            VkFormat::VK_FORMAT_UNDEFINED => 0,
            VkFormat::VK_FORMAT_R4G4_UNORM_PACK8 => 1,
            VkFormat::VK_FORMAT_R4G4B4A4_UNORM_PACK16 => 2,
            VkFormat::VK_FORMAT_B4G4R4A4_UNORM_PACK16 => 3,
            VkFormat::VK_FORMAT_R5G6B5_UNORM_PACK16 => 4,
            VkFormat::VK_FORMAT_B5G6R5_UNORM_PACK16 => 5,
            VkFormat::VK_FORMAT_R5G5B5A1_UNORM_PACK16 => 6,
            VkFormat::VK_FORMAT_B5G5R5A1_UNORM_PACK16 => 7,
            VkFormat::VK_FORMAT_A1R5G5B5_UNORM_PACK16 => 8,
            VkFormat::VK_FORMAT_R8_UNORM => 9,
            VkFormat::VK_FORMAT_R8_SNORM => 10,
            VkFormat::VK_FORMAT_R8_USCALED => 11,
            VkFormat::VK_FORMAT_R8_SSCALED => 12,
            VkFormat::VK_FORMAT_R8_UINT => 13,
            VkFormat::VK_FORMAT_R8_SINT => 14,
            VkFormat::VK_FORMAT_R8_SRGB => 15,
            VkFormat::VK_FORMAT_R8G8_UNORM => 16,
            VkFormat::VK_FORMAT_R8G8_SNORM => 17,
            VkFormat::VK_FORMAT_R8G8_USCALED => 18,
            VkFormat::VK_FORMAT_R8G8_SSCALED => 19,
            VkFormat::VK_FORMAT_R8G8_UINT => 20,
            VkFormat::VK_FORMAT_R8G8_SINT => 21,
            VkFormat::VK_FORMAT_R8G8_SRGB => 22,
            VkFormat::VK_FORMAT_R8G8B8_UNORM => 23,
            VkFormat::VK_FORMAT_R8G8B8_SNORM => 24,
            VkFormat::VK_FORMAT_R8G8B8_USCALED => 25,
            VkFormat::VK_FORMAT_R8G8B8_SSCALED => 26,
            VkFormat::VK_FORMAT_R8G8B8_UINT => 27,
            VkFormat::VK_FORMAT_R8G8B8_SINT => 28,
            VkFormat::VK_FORMAT_R8G8B8_SRGB => 29,
            VkFormat::VK_FORMAT_B8G8R8_UNORM => 30,
            VkFormat::VK_FORMAT_B8G8R8_SNORM => 31,
            VkFormat::VK_FORMAT_B8G8R8_USCALED => 32,
            VkFormat::VK_FORMAT_B8G8R8_SSCALED => 33,
            VkFormat::VK_FORMAT_B8G8R8_UINT => 34,
            VkFormat::VK_FORMAT_B8G8R8_SINT => 35,
            VkFormat::VK_FORMAT_B8G8R8_SRGB => 36,
            VkFormat::VK_FORMAT_R8G8B8A8_UNORM => 37,
            VkFormat::VK_FORMAT_R8G8B8A8_SNORM => 38,
            VkFormat::VK_FORMAT_R8G8B8A8_USCALED => 39,
            VkFormat::VK_FORMAT_R8G8B8A8_SSCALED => 40,
            VkFormat::VK_FORMAT_R8G8B8A8_UINT => 41,
            VkFormat::VK_FORMAT_R8G8B8A8_SINT => 42,
            VkFormat::VK_FORMAT_R8G8B8A8_SRGB => 43,
            VkFormat::VK_FORMAT_B8G8R8A8_UNORM => 44,
            VkFormat::VK_FORMAT_B8G8R8A8_SNORM => 45,
            VkFormat::VK_FORMAT_B8G8R8A8_USCALED => 46,
            VkFormat::VK_FORMAT_B8G8R8A8_SSCALED => 47,
            VkFormat::VK_FORMAT_B8G8R8A8_UINT => 48,
            VkFormat::VK_FORMAT_B8G8R8A8_SINT => 49,
            VkFormat::VK_FORMAT_B8G8R8A8_SRGB => 50,
            VkFormat::VK_FORMAT_A8B8G8R8_UNORM_PACK32 => 51,
            VkFormat::VK_FORMAT_A8B8G8R8_SNORM_PACK32 => 52,
            VkFormat::VK_FORMAT_A8B8G8R8_USCALED_PACK32 => 53,
            VkFormat::VK_FORMAT_A8B8G8R8_SSCALED_PACK32 => 54,
            VkFormat::VK_FORMAT_A8B8G8R8_UINT_PACK32 => 55,
            VkFormat::VK_FORMAT_A8B8G8R8_SINT_PACK32 => 56,
            VkFormat::VK_FORMAT_A8B8G8R8_SRGB_PACK32 => 57,
            VkFormat::VK_FORMAT_A2R10G10B10_UNORM_PACK32 => 58,
            VkFormat::VK_FORMAT_A2R10G10B10_SNORM_PACK32 => 59,
            VkFormat::VK_FORMAT_A2R10G10B10_USCALED_PACK32 => 60,
            VkFormat::VK_FORMAT_A2R10G10B10_SSCALED_PACK32 => 61,
            VkFormat::VK_FORMAT_A2R10G10B10_UINT_PACK32 => 62,
            VkFormat::VK_FORMAT_A2R10G10B10_SINT_PACK32 => 63,
            VkFormat::VK_FORMAT_A2B10G10R10_UNORM_PACK32 => 64,
            VkFormat::VK_FORMAT_A2B10G10R10_SNORM_PACK32 => 65,
            VkFormat::VK_FORMAT_A2B10G10R10_USCALED_PACK32 => 66,
            VkFormat::VK_FORMAT_A2B10G10R10_SSCALED_PACK32 => 67,
            VkFormat::VK_FORMAT_A2B10G10R10_UINT_PACK32 => 68,
            VkFormat::VK_FORMAT_A2B10G10R10_SINT_PACK32 => 69,
            VkFormat::VK_FORMAT_R16_UNORM => 70,
            VkFormat::VK_FORMAT_R16_SNORM => 71,
            VkFormat::VK_FORMAT_R16_USCALED => 72,
            VkFormat::VK_FORMAT_R16_SSCALED => 73,
            VkFormat::VK_FORMAT_R16_UINT => 74,
            VkFormat::VK_FORMAT_R16_SINT => 75,
            VkFormat::VK_FORMAT_R16_SFLOAT => 76,
            VkFormat::VK_FORMAT_R16G16_UNORM => 77,
            VkFormat::VK_FORMAT_R16G16_SNORM => 78,
            VkFormat::VK_FORMAT_R16G16_USCALED => 79,
            VkFormat::VK_FORMAT_R16G16_SSCALED => 80,
            VkFormat::VK_FORMAT_R16G16_UINT => 81,
            VkFormat::VK_FORMAT_R16G16_SINT => 82,
            VkFormat::VK_FORMAT_R16G16_SFLOAT => 83,
            VkFormat::VK_FORMAT_R16G16B16_UNORM => 84,
            VkFormat::VK_FORMAT_R16G16B16_SNORM => 85,
            VkFormat::VK_FORMAT_R16G16B16_USCALED => 86,
            VkFormat::VK_FORMAT_R16G16B16_SSCALED => 87,
            VkFormat::VK_FORMAT_R16G16B16_UINT => 88,
            VkFormat::VK_FORMAT_R16G16B16_SINT => 89,
            VkFormat::VK_FORMAT_R16G16B16_SFLOAT => 90,
            VkFormat::VK_FORMAT_R16G16B16A16_UNORM => 91,
            VkFormat::VK_FORMAT_R16G16B16A16_SNORM => 92,
            VkFormat::VK_FORMAT_R16G16B16A16_USCALED => 93,
            VkFormat::VK_FORMAT_R16G16B16A16_SSCALED => 94,
            VkFormat::VK_FORMAT_R16G16B16A16_UINT => 95,
            VkFormat::VK_FORMAT_R16G16B16A16_SINT => 96,
            VkFormat::VK_FORMAT_R16G16B16A16_SFLOAT => 97,
            VkFormat::VK_FORMAT_R32_UINT => 98,
            VkFormat::VK_FORMAT_R32_SINT => 99,
            VkFormat::VK_FORMAT_R32_SFLOAT => 100,
            VkFormat::VK_FORMAT_R32G32_UINT => 101,
            VkFormat::VK_FORMAT_R32G32_SINT => 102,
            VkFormat::VK_FORMAT_R32G32_SFLOAT => 103,
            VkFormat::VK_FORMAT_R32G32B32_UINT => 104,
            VkFormat::VK_FORMAT_R32G32B32_SINT => 105,
            VkFormat::VK_FORMAT_R32G32B32_SFLOAT => 106,
            VkFormat::VK_FORMAT_R32G32B32A32_UINT => 107,
            VkFormat::VK_FORMAT_R32G32B32A32_SINT => 108,
            VkFormat::VK_FORMAT_R32G32B32A32_SFLOAT => 109,
            VkFormat::VK_FORMAT_R64_UINT => 110,
            VkFormat::VK_FORMAT_R64_SINT => 111,
            VkFormat::VK_FORMAT_R64_SFLOAT => 112,
            VkFormat::VK_FORMAT_R64G64_UINT => 113,
            VkFormat::VK_FORMAT_R64G64_SINT => 114,
            VkFormat::VK_FORMAT_R64G64_SFLOAT => 115,
            VkFormat::VK_FORMAT_R64G64B64_UINT => 116,
            VkFormat::VK_FORMAT_R64G64B64_SINT => 117,
            VkFormat::VK_FORMAT_R64G64B64_SFLOAT => 118,
            VkFormat::VK_FORMAT_R64G64B64A64_UINT => 119,
            VkFormat::VK_FORMAT_R64G64B64A64_SINT => 120,
            VkFormat::VK_FORMAT_R64G64B64A64_SFLOAT => 121,
            VkFormat::VK_FORMAT_B10G11R11_UFLOAT_PACK32 => 122,
            VkFormat::VK_FORMAT_E5B9G9R9_UFLOAT_PACK32 => 123,
            VkFormat::VK_FORMAT_D16_UNORM => 124,
            VkFormat::VK_FORMAT_X8_D24_UNORM_PACK32 => 125,
            VkFormat::VK_FORMAT_D32_SFLOAT => 126,
            VkFormat::VK_FORMAT_S8_UINT => 127,
            VkFormat::VK_FORMAT_D16_UNORM_S8_UINT => 128,
            VkFormat::VK_FORMAT_D24_UNORM_S8_UINT => 129,
            VkFormat::VK_FORMAT_D32_SFLOAT_S8_UINT => 130,
            VkFormat::VK_FORMAT_BC1_RGB_UNORM_BLOCK => 131,
            VkFormat::VK_FORMAT_BC1_RGB_SRGB_BLOCK => 132,
            VkFormat::VK_FORMAT_BC1_RGBA_UNORM_BLOCK => 133,
            VkFormat::VK_FORMAT_BC1_RGBA_SRGB_BLOCK => 134,
            VkFormat::VK_FORMAT_BC2_UNORM_BLOCK => 135,
            VkFormat::VK_FORMAT_BC2_SRGB_BLOCK => 136,
            VkFormat::VK_FORMAT_BC3_UNORM_BLOCK => 137,
            VkFormat::VK_FORMAT_BC3_SRGB_BLOCK => 138,
            VkFormat::VK_FORMAT_BC4_UNORM_BLOCK => 139,
            VkFormat::VK_FORMAT_BC4_SNORM_BLOCK => 140,
            VkFormat::VK_FORMAT_BC5_UNORM_BLOCK => 141,
            VkFormat::VK_FORMAT_BC5_SNORM_BLOCK => 142,
            VkFormat::VK_FORMAT_BC6H_UFLOAT_BLOCK => 143,
            VkFormat::VK_FORMAT_BC6H_SFLOAT_BLOCK => 144,
            VkFormat::VK_FORMAT_BC7_UNORM_BLOCK => 145,
            VkFormat::VK_FORMAT_BC7_SRGB_BLOCK => 146,
            VkFormat::VK_FORMAT_ETC2_R8G8B8_UNORM_BLOCK => 147,
            VkFormat::VK_FORMAT_ETC2_R8G8B8_SRGB_BLOCK => 148,
            VkFormat::VK_FORMAT_ETC2_R8G8B8A1_UNORM_BLOCK => 149,
            VkFormat::VK_FORMAT_ETC2_R8G8B8A1_SRGB_BLOCK => 150,
            VkFormat::VK_FORMAT_ETC2_R8G8B8A8_UNORM_BLOCK => 151,
            VkFormat::VK_FORMAT_ETC2_R8G8B8A8_SRGB_BLOCK => 152,
            VkFormat::VK_FORMAT_EAC_R11_UNORM_BLOCK => 153,
            VkFormat::VK_FORMAT_EAC_R11_SNORM_BLOCK => 154,
            VkFormat::VK_FORMAT_EAC_R11G11_UNORM_BLOCK => 155,
            VkFormat::VK_FORMAT_EAC_R11G11_SNORM_BLOCK => 156,
            VkFormat::VK_FORMAT_ASTC_4x4_UNORM_BLOCK => 157,
            VkFormat::VK_FORMAT_ASTC_4x4_SRGB_BLOCK => 158,
            VkFormat::VK_FORMAT_ASTC_5x4_UNORM_BLOCK => 159,
            VkFormat::VK_FORMAT_ASTC_5x4_SRGB_BLOCK => 160,
            VkFormat::VK_FORMAT_ASTC_5x5_UNORM_BLOCK => 161,
            VkFormat::VK_FORMAT_ASTC_5x5_SRGB_BLOCK => 162,
            VkFormat::VK_FORMAT_ASTC_6x5_UNORM_BLOCK => 163,
            VkFormat::VK_FORMAT_ASTC_6x5_SRGB_BLOCK => 164,
            VkFormat::VK_FORMAT_ASTC_6x6_UNORM_BLOCK => 165,
            VkFormat::VK_FORMAT_ASTC_6x6_SRGB_BLOCK => 166,
            VkFormat::VK_FORMAT_ASTC_8x5_UNORM_BLOCK => 167,
            VkFormat::VK_FORMAT_ASTC_8x5_SRGB_BLOCK => 168,
            VkFormat::VK_FORMAT_ASTC_8x6_UNORM_BLOCK => 169,
            VkFormat::VK_FORMAT_ASTC_8x6_SRGB_BLOCK => 170,
            VkFormat::VK_FORMAT_ASTC_8x8_UNORM_BLOCK => 171,
            VkFormat::VK_FORMAT_ASTC_8x8_SRGB_BLOCK => 172,
            VkFormat::VK_FORMAT_ASTC_10x5_UNORM_BLOCK => 173,
            VkFormat::VK_FORMAT_ASTC_10x5_SRGB_BLOCK => 174,
            VkFormat::VK_FORMAT_ASTC_10x6_UNORM_BLOCK => 175,
            VkFormat::VK_FORMAT_ASTC_10x6_SRGB_BLOCK => 176,
            VkFormat::VK_FORMAT_ASTC_10x8_UNORM_BLOCK => 177,
            VkFormat::VK_FORMAT_ASTC_10x8_SRGB_BLOCK => 178,
            VkFormat::VK_FORMAT_ASTC_10x10_UNORM_BLOCK => 179,
            VkFormat::VK_FORMAT_ASTC_10x10_SRGB_BLOCK => 180,
            VkFormat::VK_FORMAT_ASTC_12x10_UNORM_BLOCK => 181,
            VkFormat::VK_FORMAT_ASTC_12x10_SRGB_BLOCK => 182,
            VkFormat::VK_FORMAT_ASTC_12x12_UNORM_BLOCK => 183,
            VkFormat::VK_FORMAT_ASTC_12x12_SRGB_BLOCK => 184,
            VkFormat::VK_FORMAT_G8B8G8R8_422_UNORM => 1000156000,
            VkFormat::VK_FORMAT_B8G8R8G8_422_UNORM => 1000156001,
            VkFormat::VK_FORMAT_G8_B8_R8_3PLANE_420_UNORM => 1000156002,
            VkFormat::VK_FORMAT_G8_B8R8_2PLANE_420_UNORM => 1000156003,
            VkFormat::VK_FORMAT_G8_B8_R8_3PLANE_422_UNORM => 1000156004,
            VkFormat::VK_FORMAT_G8_B8R8_2PLANE_422_UNORM => 1000156005,
            VkFormat::VK_FORMAT_G8_B8_R8_3PLANE_444_UNORM => 1000156006,
            VkFormat::VK_FORMAT_R10X6_UNORM_PACK16 => 1000156007,
            VkFormat::VK_FORMAT_R10X6G10X6_UNORM_2PACK16 => 1000156008,
            VkFormat::VK_FORMAT_R10X6G10X6B10X6A10X6_UNORM_4PACK16 => 1000156009,
            VkFormat::VK_FORMAT_G10X6B10X6G10X6R10X6_422_UNORM_4PACK16 => 1000156010,
            VkFormat::VK_FORMAT_B10X6G10X6R10X6G10X6_422_UNORM_4PACK16 => 1000156011,
            VkFormat::VK_FORMAT_G10X6_B10X6_R10X6_3PLANE_420_UNORM_3PACK16 => 1000156012,
            VkFormat::VK_FORMAT_G10X6_B10X6R10X6_2PLANE_420_UNORM_3PACK16 => 1000156013,
            VkFormat::VK_FORMAT_G10X6_B10X6_R10X6_3PLANE_422_UNORM_3PACK16 => 1000156014,
            VkFormat::VK_FORMAT_G10X6_B10X6R10X6_2PLANE_422_UNORM_3PACK16 => 1000156015,
            VkFormat::VK_FORMAT_G10X6_B10X6_R10X6_3PLANE_444_UNORM_3PACK16 => 1000156016,
            VkFormat::VK_FORMAT_R12X4_UNORM_PACK16 => 1000156017,
            VkFormat::VK_FORMAT_R12X4G12X4_UNORM_2PACK16 => 1000156018,
            VkFormat::VK_FORMAT_R12X4G12X4B12X4A12X4_UNORM_4PACK16 => 1000156019,
            VkFormat::VK_FORMAT_G12X4B12X4G12X4R12X4_422_UNORM_4PACK16 => 1000156020,
            VkFormat::VK_FORMAT_B12X4G12X4R12X4G12X4_422_UNORM_4PACK16 => 1000156021,
            VkFormat::VK_FORMAT_G12X4_B12X4_R12X4_3PLANE_420_UNORM_3PACK16 => 1000156022,
            VkFormat::VK_FORMAT_G12X4_B12X4R12X4_2PLANE_420_UNORM_3PACK16 => 1000156023,
            VkFormat::VK_FORMAT_G12X4_B12X4_R12X4_3PLANE_422_UNORM_3PACK16 => 1000156024,
            VkFormat::VK_FORMAT_G12X4_B12X4R12X4_2PLANE_422_UNORM_3PACK16 => 1000156025,
            VkFormat::VK_FORMAT_G12X4_B12X4_R12X4_3PLANE_444_UNORM_3PACK16 => 1000156026,
            VkFormat::VK_FORMAT_G16B16G16R16_422_UNORM => 1000156027,
            VkFormat::VK_FORMAT_B16G16R16G16_422_UNORM => 1000156028,
            VkFormat::VK_FORMAT_G16_B16_R16_3PLANE_420_UNORM => 1000156029,
            VkFormat::VK_FORMAT_G16_B16R16_2PLANE_420_UNORM => 1000156030,
            VkFormat::VK_FORMAT_G16_B16_R16_3PLANE_422_UNORM => 1000156031,
            VkFormat::VK_FORMAT_G16_B16R16_2PLANE_422_UNORM => 1000156032,
            VkFormat::VK_FORMAT_G16_B16_R16_3PLANE_444_UNORM => 1000156033,
            VkFormat::VK_FORMAT_G8_B8R8_2PLANE_444_UNORM => 1000330000,
            VkFormat::VK_FORMAT_G10X6_B10X6R10X6_2PLANE_444_UNORM_3PACK16 => 1000330001,
            VkFormat::VK_FORMAT_G12X4_B12X4R12X4_2PLANE_444_UNORM_3PACK16 => 1000330002,
            VkFormat::VK_FORMAT_G16_B16R16_2PLANE_444_UNORM => 1000330003,
            VkFormat::VK_FORMAT_A4R4G4B4_UNORM_PACK16 => 1000340000,
            VkFormat::VK_FORMAT_A4B4G4R4_UNORM_PACK16 => 1000340001,
            VkFormat::VK_FORMAT_ASTC_4x4_SFLOAT_BLOCK => 1000066000,
            VkFormat::VK_FORMAT_ASTC_5x4_SFLOAT_BLOCK => 1000066001,
            VkFormat::VK_FORMAT_ASTC_5x5_SFLOAT_BLOCK => 1000066002,
            VkFormat::VK_FORMAT_ASTC_6x5_SFLOAT_BLOCK => 1000066003,
            VkFormat::VK_FORMAT_ASTC_6x6_SFLOAT_BLOCK => 1000066004,
            VkFormat::VK_FORMAT_ASTC_8x5_SFLOAT_BLOCK => 1000066005,
            VkFormat::VK_FORMAT_ASTC_8x6_SFLOAT_BLOCK => 1000066006,
            VkFormat::VK_FORMAT_ASTC_8x8_SFLOAT_BLOCK => 1000066007,
            VkFormat::VK_FORMAT_ASTC_10x5_SFLOAT_BLOCK => 1000066008,
            VkFormat::VK_FORMAT_ASTC_10x6_SFLOAT_BLOCK => 1000066009,
            VkFormat::VK_FORMAT_ASTC_10x8_SFLOAT_BLOCK => 1000066010,
            VkFormat::VK_FORMAT_ASTC_10x10_SFLOAT_BLOCK => 1000066011,
            VkFormat::VK_FORMAT_ASTC_12x10_SFLOAT_BLOCK => 1000066012,
            VkFormat::VK_FORMAT_ASTC_12x12_SFLOAT_BLOCK => 1000066013,
            VkFormat::VK_FORMAT_PVRTC1_2BPP_UNORM_BLOCK_IMG => 1000054000,
            VkFormat::VK_FORMAT_PVRTC1_4BPP_UNORM_BLOCK_IMG => 1000054001,
            VkFormat::VK_FORMAT_PVRTC2_2BPP_UNORM_BLOCK_IMG => 1000054002,
            VkFormat::VK_FORMAT_PVRTC2_4BPP_UNORM_BLOCK_IMG => 1000054003,
            VkFormat::VK_FORMAT_PVRTC1_2BPP_SRGB_BLOCK_IMG => 1000054004,
            VkFormat::VK_FORMAT_PVRTC1_4BPP_SRGB_BLOCK_IMG => 1000054005,
            VkFormat::VK_FORMAT_PVRTC2_2BPP_SRGB_BLOCK_IMG => 1000054006,
            VkFormat::VK_FORMAT_PVRTC2_4BPP_SRGB_BLOCK_IMG => 1000054007,
            VkFormat::VK_FORMAT_MAX_ENUM => 2147483647,
        }
    }

    /// The value that the Vulkan API number `code` stands for, if any.
    pub open spec fn spec_from_code(code: u32) -> Option<Self> {
        match code {
            0 => Some(VkFormat::VK_FORMAT_UNDEFINED),
            1 => Some(VkFormat::VK_FORMAT_R4G4_UNORM_PACK8),
            2 => Some(VkFormat::VK_FORMAT_R4G4B4A4_UNORM_PACK16),
            3 => Some(VkFormat::VK_FORMAT_B4G4R4A4_UNORM_PACK16),
            4 => Some(VkFormat::VK_FORMAT_R5G6B5_UNORM_PACK16),
            5 => Some(VkFormat::VK_FORMAT_B5G6R5_UNORM_PACK16),
            6 => Some(VkFormat::VK_FORMAT_R5G5B5A1_UNORM_PACK16),
            7 => Some(VkFormat::VK_FORMAT_B5G5R5A1_UNORM_PACK16),
            8 => Some(VkFormat::VK_FORMAT_A1R5G5B5_UNORM_PACK16),
            9 => Some(VkFormat::VK_FORMAT_R8_UNORM),
            10 => Some(VkFormat::VK_FORMAT_R8_SNORM),
            11 => Some(VkFormat::VK_FORMAT_R8_USCALED),
            12 => Some(VkFormat::VK_FORMAT_R8_SSCALED),
            13 => Some(VkFormat::VK_FORMAT_R8_UINT),
            14 => Some(VkFormat::VK_FORMAT_R8_SINT),
            15 => Some(VkFormat::VK_FORMAT_R8_SRGB),
            16 => Some(VkFormat::VK_FORMAT_R8G8_UNORM),
            17 => Some(VkFormat::VK_FORMAT_R8G8_SNORM),
            18 => Some(VkFormat::VK_FORMAT_R8G8_USCALED),
            19 => Some(VkFormat::VK_FORMAT_R8G8_SSCALED),
            20 => Some(VkFormat::VK_FORMAT_R8G8_UINT),
            21 => Some(VkFormat::VK_FORMAT_R8G8_SINT),
            22 => Some(VkFormat::VK_FORMAT_R8G8_SRGB),
            23 => Some(VkFormat::VK_FORMAT_R8G8B8_UNORM),
            24 => Some(VkFormat::VK_FORMAT_R8G8B8_SNORM),
            25 => Some(VkFormat::VK_FORMAT_R8G8B8_USCALED),
            26 => Some(VkFormat::VK_FORMAT_R8G8B8_SSCALED),
            27 => Some(VkFormat::VK_FORMAT_R8G8B8_UINT),
            28 => Some(VkFormat::VK_FORMAT_R8G8B8_SINT),
            29 => Some(VkFormat::VK_FORMAT_R8G8B8_SRGB),
            30 => Some(VkFormat::VK_FORMAT_B8G8R8_UNORM),
            31 => Some(VkFormat::VK_FORMAT_B8G8R8_SNORM),
            32 => Some(VkFormat::VK_FORMAT_B8G8R8_USCALED),
            33 => Some(VkFormat::VK_FORMAT_B8G8R8_SSCALED),
            34 => Some(VkFormat::VK_FORMAT_B8G8R8_UINT),
            35 => Some(VkFormat::VK_FORMAT_B8G8R8_SINT),
            36 => Some(VkFormat::VK_FORMAT_B8G8R8_SRGB),
            37 => Some(VkFormat::VK_FORMAT_R8G8B8A8_UNORM),
            38 => Some(VkFormat::VK_FORMAT_R8G8B8A8_SNORM),
            39 => Some(VkFormat::VK_FORMAT_R8G8B8A8_USCALED),
            40 => Some(VkFormat::VK_FORMAT_R8G8B8A8_SSCALED),
            41 => Some(VkFormat::VK_FORMAT_R8G8B8A8_UINT),
            42 => Some(VkFormat::VK_FORMAT_R8G8B8A8_SINT),
            43 => Some(VkFormat::VK_FORMAT_R8G8B8A8_SRGB),
            44 => Some(VkFormat::VK_FORMAT_B8G8R8A8_UNORM),
            45 => Some(VkFormat::VK_FORMAT_B8G8R8A8_SNORM),
            46 => Some(VkFormat::VK_FORMAT_B8G8R8A8_USCALED),
            47 => Some(VkFormat::VK_FORMAT_B8G8R8A8_SSCALED),
            48 => Some(VkFormat::VK_FORMAT_B8G8R8A8_UINT),
            49 => Some(VkFormat::VK_FORMAT_B8G8R8A8_SINT),
            50 => Some(VkFormat::VK_FORMAT_B8G8R8A8_SRGB),
            51 => Some(VkFormat::VK_FORMAT_A8B8G8R8_UNORM_PACK32),
            52 => Some(VkFormat::VK_FORMAT_A8B8G8R8_SNORM_PACK32),
            53 => Some(VkFormat::VK_FORMAT_A8B8G8R8_USCALED_PACK32),
            54 => Some(VkFormat::VK_FORMAT_A8B8G8R8_SSCALED_PACK32),
            55 => Some(VkFormat::VK_FORMAT_A8B8G8R8_UINT_PACK32),
            56 => Some(VkFormat::VK_FORMAT_A8B8G8R8_SINT_PACK32),
            57 => Some(VkFormat::VK_FORMAT_A8B8G8R8_SRGB_PACK32),
            58 => Some(VkFormat::VK_FORMAT_A2R10G10B10_UNORM_PACK32),
            59 => Some(VkFormat::VK_FORMAT_A2R10G10B10_SNORM_PACK32),
            60 => Some(VkFormat::VK_FORMAT_A2R10G10B10_USCALED_PACK32),
            61 => Some(VkFormat::VK_FORMAT_A2R10G10B10_SSCALED_PACK32),
            62 => Some(VkFormat::VK_FORMAT_A2R10G10B10_UINT_PACK32),
            63 => Some(VkFormat::VK_FORMAT_A2R10G10B10_SINT_PACK32),
            64 => Some(VkFormat::VK_FORMAT_A2B10G10R10_UNORM_PACK32),
            65 => Some(VkFormat::VK_FORMAT_A2B10G10R10_SNORM_PACK32),
            66 => Some(VkFormat::VK_FORMAT_A2B10G10R10_USCALED_PACK32),
            67 => Some(VkFormat::VK_FORMAT_A2B10G10R10_SSCALED_PACK32),
            68 => Some(VkFormat::VK_FORMAT_A2B10G10R10_UINT_PACK32),
            69 => Some(VkFormat::VK_FORMAT_A2B10G10R10_SINT_PACK32),
            70 => Some(VkFormat::VK_FORMAT_R16_UNORM),
            71 => Some(VkFormat::VK_FORMAT_R16_SNORM),
            72 => Some(VkFormat::VK_FORMAT_R16_USCALED),
            73 => Some(VkFormat::VK_FORMAT_R16_SSCALED),
            74 => Some(VkFormat::VK_FORMAT_R16_UINT),
            75 => Some(VkFormat::VK_FORMAT_R16_SINT),
            76 => Some(VkFormat::VK_FORMAT_R16_SFLOAT),
            77 => Some(VkFormat::VK_FORMAT_R16G16_UNORM),
            78 => Some(VkFormat::VK_FORMAT_R16G16_SNORM),
            79 => Some(VkFormat::VK_FORMAT_R16G16_USCALED),
            80 => Some(VkFormat::VK_FORMAT_R16G16_SSCALED),
            81 => Some(VkFormat::VK_FORMAT_R16G16_UINT),
            82 => Some(VkFormat::VK_FORMAT_R16G16_SINT),
            83 => Some(VkFormat::VK_FORMAT_R16G16_SFLOAT),
            84 => Some(VkFormat::VK_FORMAT_R16G16B16_UNORM),
            85 => Some(VkFormat::VK_FORMAT_R16G16B16_SNORM),
            86 => Some(VkFormat::VK_FORMAT_R16G16B16_USCALED),
            87 => Some(VkFormat::VK_FORMAT_R16G16B16_SSCALED),
            88 => Some(VkFormat::VK_FORMAT_R16G16B16_UINT),
            89 => Some(VkFormat::VK_FORMAT_R16G16B16_SINT),
            90 => Some(VkFormat::VK_FORMAT_R16G16B16_SFLOAT),
            91 => Some(VkFormat::VK_FORMAT_R16G16B16A16_UNORM),
            92 => Some(VkFormat::VK_FORMAT_R16G16B16A16_SNORM),
            93 => Some(VkFormat::VK_FORMAT_R16G16B16A16_USCALED),
            94 => Some(VkFormat::VK_FORMAT_R16G16B16A16_SSCALED),
            95 => Some(VkFormat::VK_FORMAT_R16G16B16A16_UINT),
            96 => Some(VkFormat::VK_FORMAT_R16G16B16A16_SINT),
            97 => Some(VkFormat::VK_FORMAT_R16G16B16A16_SFLOAT),
            98 => Some(VkFormat::VK_FORMAT_R32_UINT),
            99 => Some(VkFormat::VK_FORMAT_R32_SINT),
            100 => Some(VkFormat::VK_FORMAT_R32_SFLOAT),
            101 => Some(VkFormat::VK_FORMAT_R32G32_UINT),
            102 => Some(VkFormat::VK_FORMAT_R32G32_SINT),
            103 => Some(VkFormat::VK_FORMAT_R32G32_SFLOAT),
            104 => Some(VkFormat::VK_FORMAT_R32G32B32_UINT),
            105 => Some(VkFormat::VK_FORMAT_R32G32B32_SINT),
            106 => Some(VkFormat::VK_FORMAT_R32G32B32_SFLOAT),
            107 => Some(VkFormat::VK_FORMAT_R32G32B32A32_UINT),
            108 => Some(VkFormat::VK_FORMAT_R32G32B32A32_SINT),
            109 => Some(VkFormat::VK_FORMAT_R32G32B32A32_SFLOAT),
            110 => Some(VkFormat::VK_FORMAT_R64_UINT),
            111 => Some(VkFormat::VK_FORMAT_R64_SINT),
            112 => Some(VkFormat::VK_FORMAT_R64_SFLOAT),
            113 => Some(VkFormat::VK_FORMAT_R64G64_UINT),
            114 => Some(VkFormat::VK_FORMAT_R64G64_SINT),
            115 => Some(VkFormat::VK_FORMAT_R64G64_SFLOAT),
            116 => Some(VkFormat::VK_FORMAT_R64G64B64_UINT),
            117 => Some(VkFormat::VK_FORMAT_R64G64B64_SINT),
            118 => Some(VkFormat::VK_FORMAT_R64G64B64_SFLOAT),
            119 => Some(VkFormat::VK_FORMAT_R64G64B64A64_UINT),
            120 => Some(VkFormat::VK_FORMAT_R64G64B64A64_SINT),
            121 => Some(VkFormat::VK_FORMAT_R64G64B64A64_SFLOAT),
            122 => Some(VkFormat::VK_FORMAT_B10G11R11_UFLOAT_PACK32),
            123 => Some(VkFormat::VK_FORMAT_E5B9G9R9_UFLOAT_PACK32),
            124 => Some(VkFormat::VK_FORMAT_D16_UNORM),
            125 => Some(VkFormat::VK_FORMAT_X8_D24_UNORM_PACK32),
            126 => Some(VkFormat::VK_FORMAT_D32_SFLOAT),
            127 => Some(VkFormat::VK_FORMAT_S8_UINT),
            128 => Some(VkFormat::VK_FORMAT_D16_UNORM_S8_UINT),
            129 => Some(VkFormat::VK_FORMAT_D24_UNORM_S8_UINT),
            130 => Some(VkFormat::VK_FORMAT_D32_SFLOAT_S8_UINT),
            131 => Some(VkFormat::VK_FORMAT_BC1_RGB_UNORM_BLOCK),
            132 => Some(VkFormat::VK_FORMAT_BC1_RGB_SRGB_BLOCK),
            133 => Some(VkFormat::VK_FORMAT_BC1_RGBA_UNORM_BLOCK),
            134 => Some(VkFormat::VK_FORMAT_BC1_RGBA_SRGB_BLOCK),
            135 => Some(VkFormat::VK_FORMAT_BC2_UNORM_BLOCK),
            136 => Some(VkFormat::VK_FORMAT_BC2_SRGB_BLOCK),
            137 => Some(VkFormat::VK_FORMAT_BC3_UNORM_BLOCK),
            138 => Some(VkFormat::VK_FORMAT_BC3_SRGB_BLOCK),
            139 => Some(VkFormat::VK_FORMAT_BC4_UNORM_BLOCK),
            140 => Some(VkFormat::VK_FORMAT_BC4_SNORM_BLOCK),
            141 => Some(VkFormat::VK_FORMAT_BC5_UNORM_BLOCK),
            142 => Some(VkFormat::VK_FORMAT_BC5_SNORM_BLOCK),
            143 => Some(VkFormat::VK_FORMAT_BC6H_UFLOAT_BLOCK),
            144 => Some(VkFormat::VK_FORMAT_BC6H_SFLOAT_BLOCK),
            145 => Some(VkFormat::VK_FORMAT_BC7_UNORM_BLOCK),
            146 => Some(VkFormat::VK_FORMAT_BC7_SRGB_BLOCK),
            147 => Some(VkFormat::VK_FORMAT_ETC2_R8G8B8_UNORM_BLOCK),
            148 => Some(VkFormat::VK_FORMAT_ETC2_R8G8B8_SRGB_BLOCK),
            149 => Some(VkFormat::VK_FORMAT_ETC2_R8G8B8A1_UNORM_BLOCK),
            150 => Some(VkFormat::VK_FORMAT_ETC2_R8G8B8A1_SRGB_BLOCK),
            151 => Some(VkFormat::VK_FORMAT_ETC2_R8G8B8A8_UNORM_BLOCK),
            152 => Some(VkFormat::VK_FORMAT_ETC2_R8G8B8A8_SRGB_BLOCK),
            153 => Some(VkFormat::VK_FORMAT_EAC_R11_UNORM_BLOCK),
            154 => Some(VkFormat::VK_FORMAT_EAC_R11_SNORM_BLOCK),
            155 => Some(VkFormat::VK_FORMAT_EAC_R11G11_UNORM_BLOCK),
            156 => Some(VkFormat::VK_FORMAT_EAC_R11G11_SNORM_BLOCK),
            157 => Some(VkFormat::VK_FORMAT_ASTC_4x4_UNORM_BLOCK),
            158 => Some(VkFormat::VK_FORMAT_ASTC_4x4_SRGB_BLOCK),
            159 => Some(VkFormat::VK_FORMAT_ASTC_5x4_UNORM_BLOCK),
            160 => Some(VkFormat::VK_FORMAT_ASTC_5x4_SRGB_BLOCK),
            161 => Some(VkFormat::VK_FORMAT_ASTC_5x5_UNORM_BLOCK),
            162 => Some(VkFormat::VK_FORMAT_ASTC_5x5_SRGB_BLOCK),
            163 => Some(VkFormat::VK_FORMAT_ASTC_6x5_UNORM_BLOCK),
            164 => Some(VkFormat::VK_FORMAT_ASTC_6x5_SRGB_BLOCK),
            165 => Some(VkFormat::VK_FORMAT_ASTC_6x6_UNORM_BLOCK),
            166 => Some(VkFormat::VK_FORMAT_ASTC_6x6_SRGB_BLOCK),
            167 => Some(VkFormat::VK_FORMAT_ASTC_8x5_UNORM_BLOCK),
            168 => Some(VkFormat::VK_FORMAT_ASTC_8x5_SRGB_BLOCK),
            169 => Some(VkFormat::VK_FORMAT_ASTC_8x6_UNORM_BLOCK),
            170 => Some(VkFormat::VK_FORMAT_ASTC_8x6_SRGB_BLOCK),
            171 => Some(VkFormat::VK_FORMAT_ASTC_8x8_UNORM_BLOCK),
            172 => Some(VkFormat::VK_FORMAT_ASTC_8x8_SRGB_BLOCK),
            173 => Some(VkFormat::VK_FORMAT_ASTC_10x5_UNORM_BLOCK),
            174 => Some(VkFormat::VK_FORMAT_ASTC_10x5_SRGB_BLOCK),
            175 => Some(VkFormat::VK_FORMAT_ASTC_10x6_UNORM_BLOCK),
            176 => Some(VkFormat::VK_FORMAT_ASTC_10x6_SRGB_BLOCK),
            177 => Some(VkFormat::VK_FORMAT_ASTC_10x8_UNORM_BLOCK),
            178 => Some(VkFormat::VK_FORMAT_ASTC_10x8_SRGB_BLOCK),
            179 => Some(VkFormat::VK_FORMAT_ASTC_10x10_UNORM_BLOCK),
            180 => Some(VkFormat::VK_FORMAT_ASTC_10x10_SRGB_BLOCK),
            181 => Some(VkFormat::VK_FORMAT_ASTC_12x10_UNORM_BLOCK),
            182 => Some(VkFormat::VK_FORMAT_ASTC_12x10_SRGB_BLOCK),
            183 => Some(VkFormat::VK_FORMAT_ASTC_12x12_UNORM_BLOCK),
            184 => Some(VkFormat::VK_FORMAT_ASTC_12x12_SRGB_BLOCK),
            1000156000 => Some(VkFormat::VK_FORMAT_G8B8G8R8_422_UNORM),
            1000156001 => Some(VkFormat::VK_FORMAT_B8G8R8G8_422_UNORM),
            1000156002 => Some(VkFormat::VK_FORMAT_G8_B8_R8_3PLANE_420_UNORM),
            1000156003 => Some(VkFormat::VK_FORMAT_G8_B8R8_2PLANE_420_UNORM),
            1000156004 => Some(VkFormat::VK_FORMAT_G8_B8_R8_3PLANE_422_UNORM),
            1000156005 => Some(VkFormat::VK_FORMAT_G8_B8R8_2PLANE_422_UNORM),
            1000156006 => Some(VkFormat::VK_FORMAT_G8_B8_R8_3PLANE_444_UNORM),
            1000156007 => Some(VkFormat::VK_FORMAT_R10X6_UNORM_PACK16),
            1000156008 => Some(VkFormat::VK_FORMAT_R10X6G10X6_UNORM_2PACK16),
            1000156009 => Some(VkFormat::VK_FORMAT_R10X6G10X6B10X6A10X6_UNORM_4PACK16),
            1000156010 => Some(VkFormat::VK_FORMAT_G10X6B10X6G10X6R10X6_422_UNORM_4PACK16),
            1000156011 => Some(VkFormat::VK_FORMAT_B10X6G10X6R10X6G10X6_422_UNORM_4PACK16),
            1000156012 => Some(VkFormat::VK_FORMAT_G10X6_B10X6_R10X6_3PLANE_420_UNORM_3PACK16),
            1000156013 => Some(VkFormat::VK_FORMAT_G10X6_B10X6R10X6_2PLANE_420_UNORM_3PACK16),
            1000156014 => Some(VkFormat::VK_FORMAT_G10X6_B10X6_R10X6_3PLANE_422_UNORM_3PACK16),
            1000156015 => Some(VkFormat::VK_FORMAT_G10X6_B10X6R10X6_2PLANE_422_UNORM_3PACK16),
            1000156016 => Some(VkFormat::VK_FORMAT_G10X6_B10X6_R10X6_3PLANE_444_UNORM_3PACK16),
            1000156017 => Some(VkFormat::VK_FORMAT_R12X4_UNORM_PACK16),
            1000156018 => Some(VkFormat::VK_FORMAT_R12X4G12X4_UNORM_2PACK16),
            1000156019 => Some(VkFormat::VK_FORMAT_R12X4G12X4B12X4A12X4_UNORM_4PACK16),
            1000156020 => Some(VkFormat::VK_FORMAT_G12X4B12X4G12X4R12X4_422_UNORM_4PACK16),
            1000156021 => Some(VkFormat::VK_FORMAT_B12X4G12X4R12X4G12X4_422_UNORM_4PACK16),
            1000156022 => Some(VkFormat::VK_FORMAT_G12X4_B12X4_R12X4_3PLANE_420_UNORM_3PACK16),
            1000156023 => Some(VkFormat::VK_FORMAT_G12X4_B12X4R12X4_2PLANE_420_UNORM_3PACK16),
            1000156024 => Some(VkFormat::VK_FORMAT_G12X4_B12X4_R12X4_3PLANE_422_UNORM_3PACK16),
            1000156025 => Some(VkFormat::VK_FORMAT_G12X4_B12X4R12X4_2PLANE_422_UNORM_3PACK16),
            1000156026 => Some(VkFormat::VK_FORMAT_G12X4_B12X4_R12X4_3PLANE_444_UNORM_3PACK16),
            1000156027 => Some(VkFormat::VK_FORMAT_G16B16G16R16_422_UNORM),
            1000156028 => Some(VkFormat::VK_FORMAT_B16G16R16G16_422_UNORM),
            1000156029 => Some(VkFormat::VK_FORMAT_G16_B16_R16_3PLANE_420_UNORM),
            1000156030 => Some(VkFormat::VK_FORMAT_G16_B16R16_2PLANE_420_UNORM),
            1000156031 => Some(VkFormat::VK_FORMAT_G16_B16_R16_3PLANE_422_UNORM),
            1000156032 => Some(VkFormat::VK_FORMAT_G16_B16R16_2PLANE_422_UNORM),
            1000156033 => Some(VkFormat::VK_FORMAT_G16_B16_R16_3PLANE_444_UNORM),
            1000330000 => Some(VkFormat::VK_FORMAT_G8_B8R8_2PLANE_444_UNORM),
            1000330001 => Some(VkFormat::VK_FORMAT_G10X6_B10X6R10X6_2PLANE_444_UNORM_3PACK16),
            1000330002 => Some(VkFormat::VK_FORMAT_G12X4_B12X4R12X4_2PLANE_444_UNORM_3PACK16),
            1000330003 => Some(VkFormat::VK_FORMAT_G16_B16R16_2PLANE_444_UNORM),
            1000340000 => Some(VkFormat::VK_FORMAT_A4R4G4B4_UNORM_PACK16),
            1000340001 => Some(VkFormat::VK_FORMAT_A4B4G4R4_UNORM_PACK16),
            1000066000 => Some(VkFormat::VK_FORMAT_ASTC_4x4_SFLOAT_BLOCK),
            1000066001 => Some(VkFormat::VK_FORMAT_ASTC_5x4_SFLOAT_BLOCK),
            1000066002 => Some(VkFormat::VK_FORMAT_ASTC_5x5_SFLOAT_BLOCK),
            1000066003 => Some(VkFormat::VK_FORMAT_ASTC_6x5_SFLOAT_BLOCK),
            1000066004 => Some(VkFormat::VK_FORMAT_ASTC_6x6_SFLOAT_BLOCK),
            1000066005 => Some(VkFormat::VK_FORMAT_ASTC_8x5_SFLOAT_BLOCK),
            1000066006 => Some(VkFormat::VK_FORMAT_ASTC_8x6_SFLOAT_BLOCK),
            1000066007 => Some(VkFormat::VK_FORMAT_ASTC_8x8_SFLOAT_BLOCK),
            1000066008 => Some(VkFormat::VK_FORMAT_ASTC_10x5_SFLOAT_BLOCK),
            1000066009 => Some(VkFormat::VK_FORMAT_ASTC_10x6_SFLOAT_BLOCK),
            1000066010 => Some(VkFormat::VK_FORMAT_ASTC_10x8_SFLOAT_BLOCK),
            1000066011 => Some(VkFormat::VK_FORMAT_ASTC_10x10_SFLOAT_BLOCK),
            1000066012 => Some(VkFormat::VK_FORMAT_ASTC_12x10_SFLOAT_BLOCK),
            1000066013 => Some(VkFormat::VK_FORMAT_ASTC_12x12_SFLOAT_BLOCK),
            1000054000 => Some(VkFormat::VK_FORMAT_PVRTC1_2BPP_UNORM_BLOCK_IMG),
            1000054001 => Some(VkFormat::VK_FORMAT_PVRTC1_4BPP_UNORM_BLOCK_IMG),
            1000054002 => Some(VkFormat::VK_FORMAT_PVRTC2_2BPP_UNORM_BLOCK_IMG),
            1000054003 => Some(VkFormat::VK_FORMAT_PVRTC2_4BPP_UNORM_BLOCK_IMG),
            1000054004 => Some(VkFormat::VK_FORMAT_PVRTC1_2BPP_SRGB_BLOCK_IMG),
            1000054005 => Some(VkFormat::VK_FORMAT_PVRTC1_4BPP_SRGB_BLOCK_IMG),
            1000054006 => Some(VkFormat::VK_FORMAT_PVRTC2_2BPP_SRGB_BLOCK_IMG),
            1000054007 => Some(VkFormat::VK_FORMAT_PVRTC2_4BPP_SRGB_BLOCK_IMG),
            2147483647 => Some(VkFormat::VK_FORMAT_MAX_ENUM),
            _ => None,
        }
    }

    /// The number that the Vulkan API gives this value.
    pub fn code(&self) -> (c: u32)
        ensures
            c == self.spec_code(),
    {
        match self {
            VkFormat::VK_FORMAT_UNDEFINED => 0,
            VkFormat::VK_FORMAT_R4G4_UNORM_PACK8 => 1,
            VkFormat::VK_FORMAT_R4G4B4A4_UNORM_PACK16 => 2,
            VkFormat::VK_FORMAT_B4G4R4A4_UNORM_PACK16 => 3,
            VkFormat::VK_FORMAT_R5G6B5_UNORM_PACK16 => 4,
            VkFormat::VK_FORMAT_B5G6R5_UNORM_PACK16 => 5,
            VkFormat::VK_FORMAT_R5G5B5A1_UNORM_PACK16 => 6,
            VkFormat::VK_FORMAT_B5G5R5A1_UNORM_PACK16 => 7,
            VkFormat::VK_FORMAT_A1R5G5B5_UNORM_PACK16 => 8,
            VkFormat::VK_FORMAT_R8_UNORM => 9,
            VkFormat::VK_FORMAT_R8_SNORM => 10,
            VkFormat::VK_FORMAT_R8_USCALED => 11,
            VkFormat::VK_FORMAT_R8_SSCALED => 12,
            VkFormat::VK_FORMAT_R8_UINT => 13,
            VkFormat::VK_FORMAT_R8_SINT => 14,
            VkFormat::VK_FORMAT_R8_SRGB => 15,
            VkFormat::VK_FORMAT_R8G8_UNORM => 16,
            VkFormat::VK_FORMAT_R8G8_SNORM => 17,
            VkFormat::VK_FORMAT_R8G8_USCALED => 18,
            VkFormat::VK_FORMAT_R8G8_SSCALED => 19,
            VkFormat::VK_FORMAT_R8G8_UINT => 20,
            VkFormat::VK_FORMAT_R8G8_SINT => 21,
            VkFormat::VK_FORMAT_R8G8_SRGB => 22,
            VkFormat::VK_FORMAT_R8G8B8_UNORM => 23,
            VkFormat::VK_FORMAT_R8G8B8_SNORM => 24,
            VkFormat::VK_FORMAT_R8G8B8_USCALED => 25,
            VkFormat::VK_FORMAT_R8G8B8_SSCALED => 26,
            VkFormat::VK_FORMAT_R8G8B8_UINT => 27,
            VkFormat::VK_FORMAT_R8G8B8_SINT => 28,
            VkFormat::VK_FORMAT_R8G8B8_SRGB => 29,
            VkFormat::VK_FORMAT_B8G8R8_UNORM => 30,
            VkFormat::VK_FORMAT_B8G8R8_SNORM => 31,
            VkFormat::VK_FORMAT_B8G8R8_USCALED => 32,
            VkFormat::VK_FORMAT_B8G8R8_SSCALED => 33,
            VkFormat::VK_FORMAT_B8G8R8_UINT => 34,
            VkFormat::VK_FORMAT_B8G8R8_SINT => 35,
            VkFormat::VK_FORMAT_B8G8R8_SRGB => 36,
            VkFormat::VK_FORMAT_R8G8B8A8_UNORM => 37,
            VkFormat::VK_FORMAT_R8G8B8A8_SNORM => 38,
            VkFormat::VK_FORMAT_R8G8B8A8_USCALED => 39,
            VkFormat::VK_FORMAT_R8G8B8A8_SSCALED => 40,
            VkFormat::VK_FORMAT_R8G8B8A8_UINT => 41,
            VkFormat::VK_FORMAT_R8G8B8A8_SINT => 42,
            VkFormat::VK_FORMAT_R8G8B8A8_SRGB => 43,
            VkFormat::VK_FORMAT_B8G8R8A8_UNORM => 44,
            VkFormat::VK_FORMAT_B8G8R8A8_SNORM => 45,
            VkFormat::VK_FORMAT_B8G8R8A8_USCALED => 46,
            VkFormat::VK_FORMAT_B8G8R8A8_SSCALED => 47,
            VkFormat::VK_FORMAT_B8G8R8A8_UINT => 48,
            VkFormat::VK_FORMAT_B8G8R8A8_SINT => 49,
            VkFormat::VK_FORMAT_B8G8R8A8_SRGB => 50,
            VkFormat::VK_FORMAT_A8B8G8R8_UNORM_PACK32 => 51,
            VkFormat::VK_FORMAT_A8B8G8R8_SNORM_PACK32 => 52,
            VkFormat::VK_FORMAT_A8B8G8R8_USCALED_PACK32 => 53,
            VkFormat::VK_FORMAT_A8B8G8R8_SSCALED_PACK32 => 54,
            VkFormat::VK_FORMAT_A8B8G8R8_UINT_PACK32 => 55,
            VkFormat::VK_FORMAT_A8B8G8R8_SINT_PACK32 => 56,
            VkFormat::VK_FORMAT_A8B8G8R8_SRGB_PACK32 => 57,
            VkFormat::VK_FORMAT_A2R10G10B10_UNORM_PACK32 => 58,
            VkFormat::VK_FORMAT_A2R10G10B10_SNORM_PACK32 => 59,
            VkFormat::VK_FORMAT_A2R10G10B10_USCALED_PACK32 => 60,
            VkFormat::VK_FORMAT_A2R10G10B10_SSCALED_PACK32 => 61,
            VkFormat::VK_FORMAT_A2R10G10B10_UINT_PACK32 => 62,
            VkFormat::VK_FORMAT_A2R10G10B10_SINT_PACK32 => 63,
            VkFormat::VK_FORMAT_A2B10G10R10_UNORM_PACK32 => 64,
            VkFormat::VK_FORMAT_A2B10G10R10_SNORM_PACK32 => 65,
            VkFormat::VK_FORMAT_A2B10G10R10_USCALED_PACK32 => 66,
            VkFormat::VK_FORMAT_A2B10G10R10_SSCALED_PACK32 => 67,
            VkFormat::VK_FORMAT_A2B10G10R10_UINT_PACK32 => 68,
            VkFormat::VK_FORMAT_A2B10G10R10_SINT_PACK32 => 69,
            VkFormat::VK_FORMAT_R16_UNORM => 70,
            VkFormat::VK_FORMAT_R16_SNORM => 71,
            VkFormat::VK_FORMAT_R16_USCALED => 72,
            VkFormat::VK_FORMAT_R16_SSCALED => 73,
            VkFormat::VK_FORMAT_R16_UINT => 74,
            VkFormat::VK_FORMAT_R16_SINT => 75,
            VkFormat::VK_FORMAT_R16_SFLOAT => 76,
            VkFormat::VK_FORMAT_R16G16_UNORM => 77,
            VkFormat::VK_FORMAT_R16G16_SNORM => 78,
            VkFormat::VK_FORMAT_R16G16_USCALED => 79,
            VkFormat::VK_FORMAT_R16G16_SSCALED => 80,
            VkFormat::VK_FORMAT_R16G16_UINT => 81,
            VkFormat::VK_FORMAT_R16G16_SINT => 82,
            VkFormat::VK_FORMAT_R16G16_SFLOAT => 83,
            VkFormat::VK_FORMAT_R16G16B16_UNORM => 84,
            VkFormat::VK_FORMAT_R16G16B16_SNORM => 85,
            VkFormat::VK_FORMAT_R16G16B16_USCALED => 86,
            VkFormat::VK_FORMAT_R16G16B16_SSCALED => 87,
            VkFormat::VK_FORMAT_R16G16B16_UINT => 88,
            VkFormat::VK_FORMAT_R16G16B16_SINT => 89,
            VkFormat::VK_FORMAT_R16G16B16_SFLOAT => 90,
            VkFormat::VK_FORMAT_R16G16B16A16_UNORM => 91,
            VkFormat::VK_FORMAT_R16G16B16A16_SNORM => 92,
            VkFormat::VK_FORMAT_R16G16B16A16_USCALED => 93,
            VkFormat::VK_FORMAT_R16G16B16A16_SSCALED => 94,
            VkFormat::VK_FORMAT_R16G16B16A16_UINT => 95,
            VkFormat::VK_FORMAT_R16G16B16A16_SINT => 96,
            VkFormat::VK_FORMAT_R16G16B16A16_SFLOAT => 97,
            VkFormat::VK_FORMAT_R32_UINT => 98,
            VkFormat::VK_FORMAT_R32_SINT => 99,
            VkFormat::VK_FORMAT_R32_SFLOAT => 100,
            VkFormat::VK_FORMAT_R32G32_UINT => 101,
            VkFormat::VK_FORMAT_R32G32_SINT => 102,
            VkFormat::VK_FORMAT_R32G32_SFLOAT => 103,
            VkFormat::VK_FORMAT_R32G32B32_UINT => 104,
            VkFormat::VK_FORMAT_R32G32B32_SINT => 105,
            VkFormat::VK_FORMAT_R32G32B32_SFLOAT => 106,
            VkFormat::VK_FORMAT_R32G32B32A32_UINT => 107,
            VkFormat::VK_FORMAT_R32G32B32A32_SINT => 108,
            VkFormat::VK_FORMAT_R32G32B32A32_SFLOAT => 109,
            VkFormat::VK_FORMAT_R64_UINT => 110,
            VkFormat::VK_FORMAT_R64_SINT => 111,
            VkFormat::VK_FORMAT_R64_SFLOAT => 112,
            VkFormat::VK_FORMAT_R64G64_UINT => 113,
            VkFormat::VK_FORMAT_R64G64_SINT => 114,
            VkFormat::VK_FORMAT_R64G64_SFLOAT => 115,
            VkFormat::VK_FORMAT_R64G64B64_UINT => 116,
            VkFormat::VK_FORMAT_R64G64B64_SINT => 117,
            VkFormat::VK_FORMAT_R64G64B64_SFLOAT => 118,
            VkFormat::VK_FORMAT_R64G64B64A64_UINT => 119,
            VkFormat::VK_FORMAT_R64G64B64A64_SINT => 120,
            VkFormat::VK_FORMAT_R64G64B64A64_SFLOAT => 121,
            VkFormat::VK_FORMAT_B10G11R11_UFLOAT_PACK32 => 122,
            VkFormat::VK_FORMAT_E5B9G9R9_UFLOAT_PACK32 => 123,
            VkFormat::VK_FORMAT_D16_UNORM => 124,
            VkFormat::VK_FORMAT_X8_D24_UNORM_PACK32 => 125,
            VkFormat::VK_FORMAT_D32_SFLOAT => 126,
            VkFormat::VK_FORMAT_S8_UINT => 127,
            VkFormat::VK_FORMAT_D16_UNORM_S8_UINT => 128,
            VkFormat::VK_FORMAT_D24_UNORM_S8_UINT => 129,
            VkFormat::VK_FORMAT_D32_SFLOAT_S8_UINT => 130,
            VkFormat::VK_FORMAT_BC1_RGB_UNORM_BLOCK => 131,
            VkFormat::VK_FORMAT_BC1_RGB_SRGB_BLOCK => 132,
            VkFormat::VK_FORMAT_BC1_RGBA_UNORM_BLOCK => 133,
            VkFormat::VK_FORMAT_BC1_RGBA_SRGB_BLOCK => 134,
            VkFormat::VK_FORMAT_BC2_UNORM_BLOCK => 135,
            VkFormat::VK_FORMAT_BC2_SRGB_BLOCK => 136,
            VkFormat::VK_FORMAT_BC3_UNORM_BLOCK => 137,
            VkFormat::VK_FORMAT_BC3_SRGB_BLOCK => 138,
            VkFormat::VK_FORMAT_BC4_UNORM_BLOCK => 139,
            VkFormat::VK_FORMAT_BC4_SNORM_BLOCK => 140,
            VkFormat::VK_FORMAT_BC5_UNORM_BLOCK => 141,
            VkFormat::VK_FORMAT_BC5_SNORM_BLOCK => 142,
            VkFormat::VK_FORMAT_BC6H_UFLOAT_BLOCK => 143,
            VkFormat::VK_FORMAT_BC6H_SFLOAT_BLOCK => 144,
            VkFormat::VK_FORMAT_BC7_UNORM_BLOCK => 145,
            VkFormat::VK_FORMAT_BC7_SRGB_BLOCK => 146,
            VkFormat::VK_FORMAT_ETC2_R8G8B8_UNORM_BLOCK => 147,
            VkFormat::VK_FORMAT_ETC2_R8G8B8_SRGB_BLOCK => 148,
            VkFormat::VK_FORMAT_ETC2_R8G8B8A1_UNORM_BLOCK => 149,
            VkFormat::VK_FORMAT_ETC2_R8G8B8A1_SRGB_BLOCK => 150,
            VkFormat::VK_FORMAT_ETC2_R8G8B8A8_UNORM_BLOCK => 151,
            VkFormat::VK_FORMAT_ETC2_R8G8B8A8_SRGB_BLOCK => 152,
            VkFormat::VK_FORMAT_EAC_R11_UNORM_BLOCK => 153,
            VkFormat::VK_FORMAT_EAC_R11_SNORM_BLOCK => 154,
            VkFormat::VK_FORMAT_EAC_R11G11_UNORM_BLOCK => 155,
            VkFormat::VK_FORMAT_EAC_R11G11_SNORM_BLOCK => 156,
            VkFormat::VK_FORMAT_ASTC_4x4_UNORM_BLOCK => 157,
            VkFormat::VK_FORMAT_ASTC_4x4_SRGB_BLOCK => 158,
            VkFormat::VK_FORMAT_ASTC_5x4_UNORM_BLOCK => 159,
            VkFormat::VK_FORMAT_ASTC_5x4_SRGB_BLOCK => 160,
            VkFormat::VK_FORMAT_ASTC_5x5_UNORM_BLOCK => 161,
            VkFormat::VK_FORMAT_ASTC_5x5_SRGB_BLOCK => 162,
            VkFormat::VK_FORMAT_ASTC_6x5_UNORM_BLOCK => 163,
            VkFormat::VK_FORMAT_ASTC_6x5_SRGB_BLOCK => 164,
            VkFormat::VK_FORMAT_ASTC_6x6_UNORM_BLOCK => 165,
            VkFormat::VK_FORMAT_ASTC_6x6_SRGB_BLOCK => 166,
            VkFormat::VK_FORMAT_ASTC_8x5_UNORM_BLOCK => 167,
            VkFormat::VK_FORMAT_ASTC_8x5_SRGB_BLOCK => 168,
            VkFormat::VK_FORMAT_ASTC_8x6_UNORM_BLOCK => 169,
            VkFormat::VK_FORMAT_ASTC_8x6_SRGB_BLOCK => 170,
            VkFormat::VK_FORMAT_ASTC_8x8_UNORM_BLOCK => 171,
            VkFormat::VK_FORMAT_ASTC_8x8_SRGB_BLOCK => 172,
            VkFormat::VK_FORMAT_ASTC_10x5_UNORM_BLOCK => 173,
            VkFormat::VK_FORMAT_ASTC_10x5_SRGB_BLOCK => 174,
            VkFormat::VK_FORMAT_ASTC_10x6_UNORM_BLOCK => 175,
            VkFormat::VK_FORMAT_ASTC_10x6_SRGB_BLOCK => 176,
            VkFormat::VK_FORMAT_ASTC_10x8_UNORM_BLOCK => 177,
            VkFormat::VK_FORMAT_ASTC_10x8_SRGB_BLOCK => 178,
            VkFormat::VK_FORMAT_ASTC_10x10_UNORM_BLOCK => 179,
            VkFormat::VK_FORMAT_ASTC_10x10_SRGB_BLOCK => 180,
            VkFormat::VK_FORMAT_ASTC_12x10_UNORM_BLOCK => 181,
            VkFormat::VK_FORMAT_ASTC_12x10_SRGB_BLOCK => 182,
            VkFormat::VK_FORMAT_ASTC_12x12_UNORM_BLOCK => 183,
            VkFormat::VK_FORMAT_ASTC_12x12_SRGB_BLOCK => 184,
            VkFormat::VK_FORMAT_G8B8G8R8_422_UNORM => 1000156000,
            VkFormat::VK_FORMAT_B8G8R8G8_422_UNORM => 1000156001,
            VkFormat::VK_FORMAT_G8_B8_R8_3PLANE_420_UNORM => 1000156002,
            VkFormat::VK_FORMAT_G8_B8R8_2PLANE_420_UNORM => 1000156003,
            VkFormat::VK_FORMAT_G8_B8_R8_3PLANE_422_UNORM => 1000156004,
            VkFormat::VK_FORMAT_G8_B8R8_2PLANE_422_UNORM => 1000156005,
            VkFormat::VK_FORMAT_G8_B8_R8_3PLANE_444_UNORM => 1000156006,
            VkFormat::VK_FORMAT_R10X6_UNORM_PACK16 => 1000156007,
            VkFormat::VK_FORMAT_R10X6G10X6_UNORM_2PACK16 => 1000156008,
            VkFormat::VK_FORMAT_R10X6G10X6B10X6A10X6_UNORM_4PACK16 => 1000156009,
            VkFormat::VK_FORMAT_G10X6B10X6G10X6R10X6_422_UNORM_4PACK16 => 1000156010,
            VkFormat::VK_FORMAT_B10X6G10X6R10X6G10X6_422_UNORM_4PACK16 => 1000156011,
            VkFormat::VK_FORMAT_G10X6_B10X6_R10X6_3PLANE_420_UNORM_3PACK16 => 1000156012,
            VkFormat::VK_FORMAT_G10X6_B10X6R10X6_2PLANE_420_UNORM_3PACK16 => 1000156013,
            VkFormat::VK_FORMAT_G10X6_B10X6_R10X6_3PLANE_422_UNORM_3PACK16 => 1000156014,
            VkFormat::VK_FORMAT_G10X6_B10X6R10X6_2PLANE_422_UNORM_3PACK16 => 1000156015,
            VkFormat::VK_FORMAT_G10X6_B10X6_R10X6_3PLANE_444_UNORM_3PACK16 => 1000156016,
            VkFormat::VK_FORMAT_R12X4_UNORM_PACK16 => 1000156017,
            VkFormat::VK_FORMAT_R12X4G12X4_UNORM_2PACK16 => 1000156018,
            VkFormat::VK_FORMAT_R12X4G12X4B12X4A12X4_UNORM_4PACK16 => 1000156019,
            VkFormat::VK_FORMAT_G12X4B12X4G12X4R12X4_422_UNORM_4PACK16 => 1000156020,
            VkFormat::VK_FORMAT_B12X4G12X4R12X4G12X4_422_UNORM_4PACK16 => 1000156021,
            VkFormat::VK_FORMAT_G12X4_B12X4_R12X4_3PLANE_420_UNORM_3PACK16 => 1000156022,
            VkFormat::VK_FORMAT_G12X4_B12X4R12X4_2PLANE_420_UNORM_3PACK16 => 1000156023,
            VkFormat::VK_FORMAT_G12X4_B12X4_R12X4_3PLANE_422_UNORM_3PACK16 => 1000156024,
            VkFormat::VK_FORMAT_G12X4_B12X4R12X4_2PLANE_422_UNORM_3PACK16 => 1000156025,
            VkFormat::VK_FORMAT_G12X4_B12X4_R12X4_3PLANE_444_UNORM_3PACK16 => 1000156026,
            VkFormat::VK_FORMAT_G16B16G16R16_422_UNORM => 1000156027,
            VkFormat::VK_FORMAT_B16G16R16G16_422_UNORM => 1000156028,
            VkFormat::VK_FORMAT_G16_B16_R16_3PLANE_420_UNORM => 1000156029,
            VkFormat::VK_FORMAT_G16_B16R16_2PLANE_420_UNORM => 1000156030,
            VkFormat::VK_FORMAT_G16_B16_R16_3PLANE_422_UNORM => 1000156031,
            VkFormat::VK_FORMAT_G16_B16R16_2PLANE_422_UNORM => 1000156032,
            VkFormat::VK_FORMAT_G16_B16_R16_3PLANE_444_UNORM => 1000156033,
            VkFormat::VK_FORMAT_G8_B8R8_2PLANE_444_UNORM => 1000330000,
            VkFormat::VK_FORMAT_G10X6_B10X6R10X6_2PLANE_444_UNORM_3PACK16 => 1000330001,
            VkFormat::VK_FORMAT_G12X4_B12X4R12X4_2PLANE_444_UNORM_3PACK16 => 1000330002,
            VkFormat::VK_FORMAT_G16_B16R16_2PLANE_444_UNORM => 1000330003,
            VkFormat::VK_FORMAT_A4R4G4B4_UNORM_PACK16 => 1000340000,
            VkFormat::VK_FORMAT_A4B4G4R4_UNORM_PACK16 => 1000340001,
            VkFormat::VK_FORMAT_ASTC_4x4_SFLOAT_BLOCK => 1000066000,
            VkFormat::VK_FORMAT_ASTC_5x4_SFLOAT_BLOCK => 1000066001,
            VkFormat::VK_FORMAT_ASTC_5x5_SFLOAT_BLOCK => 1000066002,
            VkFormat::VK_FORMAT_ASTC_6x5_SFLOAT_BLOCK => 1000066003,
            VkFormat::VK_FORMAT_ASTC_6x6_SFLOAT_BLOCK => 1000066004,
            VkFormat::VK_FORMAT_ASTC_8x5_SFLOAT_BLOCK => 1000066005,
            VkFormat::VK_FORMAT_ASTC_8x6_SFLOAT_BLOCK => 1000066006,
            VkFormat::VK_FORMAT_ASTC_8x8_SFLOAT_BLOCK => 1000066007,
            VkFormat::VK_FORMAT_ASTC_10x5_SFLOAT_BLOCK => 1000066008,
            VkFormat::VK_FORMAT_ASTC_10x6_SFLOAT_BLOCK => 1000066009,
            VkFormat::VK_FORMAT_ASTC_10x8_SFLOAT_BLOCK => 1000066010,
            VkFormat::VK_FORMAT_ASTC_10x10_SFLOAT_BLOCK => 1000066011,
            VkFormat::VK_FORMAT_ASTC_12x10_SFLOAT_BLOCK => 1000066012,
            VkFormat::VK_FORMAT_ASTC_12x12_SFLOAT_BLOCK => 1000066013,
            VkFormat::VK_FORMAT_PVRTC1_2BPP_UNORM_BLOCK_IMG => 1000054000,
            VkFormat::VK_FORMAT_PVRTC1_4BPP_UNORM_BLOCK_IMG => 1000054001,
            VkFormat::VK_FORMAT_PVRTC2_2BPP_UNORM_BLOCK_IMG => 1000054002,
            VkFormat::VK_FORMAT_PVRTC2_4BPP_UNORM_BLOCK_IMG => 1000054003,
            VkFormat::VK_FORMAT_PVRTC1_2BPP_SRGB_BLOCK_IMG => 1000054004,
            VkFormat::VK_FORMAT_PVRTC1_4BPP_SRGB_BLOCK_IMG => 1000054005,
            VkFormat::VK_FORMAT_PVRTC2_2BPP_SRGB_BLOCK_IMG => 1000054006,
            VkFormat::VK_FORMAT_PVRTC2_4BPP_SRGB_BLOCK_IMG => 1000054007,
            VkFormat::VK_FORMAT_MAX_ENUM => 2147483647,
        }
    }

    /// The value that the Vulkan API number `code` stands for; `None` for a number it does not use.
    pub fn from_code(code: u32) -> (r: Option<Self>)
        ensures
            r == Self::spec_from_code(code),
    {
        match code {
            0 => Some(VkFormat::VK_FORMAT_UNDEFINED),
            1 => Some(VkFormat::VK_FORMAT_R4G4_UNORM_PACK8),
            2 => Some(VkFormat::VK_FORMAT_R4G4B4A4_UNORM_PACK16),
            3 => Some(VkFormat::VK_FORMAT_B4G4R4A4_UNORM_PACK16),
            4 => Some(VkFormat::VK_FORMAT_R5G6B5_UNORM_PACK16),
            5 => Some(VkFormat::VK_FORMAT_B5G6R5_UNORM_PACK16),
            6 => Some(VkFormat::VK_FORMAT_R5G5B5A1_UNORM_PACK16),
            7 => Some(VkFormat::VK_FORMAT_B5G5R5A1_UNORM_PACK16),
            8 => Some(VkFormat::VK_FORMAT_A1R5G5B5_UNORM_PACK16),
            9 => Some(VkFormat::VK_FORMAT_R8_UNORM),
            10 => Some(VkFormat::VK_FORMAT_R8_SNORM),
            11 => Some(VkFormat::VK_FORMAT_R8_USCALED),
            12 => Some(VkFormat::VK_FORMAT_R8_SSCALED),
            13 => Some(VkFormat::VK_FORMAT_R8_UINT),
            14 => Some(VkFormat::VK_FORMAT_R8_SINT),
            15 => Some(VkFormat::VK_FORMAT_R8_SRGB),
            16 => Some(VkFormat::VK_FORMAT_R8G8_UNORM),
            17 => Some(VkFormat::VK_FORMAT_R8G8_SNORM),
            18 => Some(VkFormat::VK_FORMAT_R8G8_USCALED),
            19 => Some(VkFormat::VK_FORMAT_R8G8_SSCALED),
            20 => Some(VkFormat::VK_FORMAT_R8G8_UINT),
            21 => Some(VkFormat::VK_FORMAT_R8G8_SINT),
            22 => Some(VkFormat::VK_FORMAT_R8G8_SRGB),
            23 => Some(VkFormat::VK_FORMAT_R8G8B8_UNORM),
            24 => Some(VkFormat::VK_FORMAT_R8G8B8_SNORM),
            25 => Some(VkFormat::VK_FORMAT_R8G8B8_USCALED),
            26 => Some(VkFormat::VK_FORMAT_R8G8B8_SSCALED),
            27 => Some(VkFormat::VK_FORMAT_R8G8B8_UINT),
            28 => Some(VkFormat::VK_FORMAT_R8G8B8_SINT),
            29 => Some(VkFormat::VK_FORMAT_R8G8B8_SRGB),
            30 => Some(VkFormat::VK_FORMAT_B8G8R8_UNORM),
            31 => Some(VkFormat::VK_FORMAT_B8G8R8_SNORM),
            32 => Some(VkFormat::VK_FORMAT_B8G8R8_USCALED),
            33 => Some(VkFormat::VK_FORMAT_B8G8R8_SSCALED),
            34 => Some(VkFormat::VK_FORMAT_B8G8R8_UINT),
            35 => Some(VkFormat::VK_FORMAT_B8G8R8_SINT),
            36 => Some(VkFormat::VK_FORMAT_B8G8R8_SRGB),
            37 => Some(VkFormat::VK_FORMAT_R8G8B8A8_UNORM),
            38 => Some(VkFormat::VK_FORMAT_R8G8B8A8_SNORM),
            39 => Some(VkFormat::VK_FORMAT_R8G8B8A8_USCALED),
            40 => Some(VkFormat::VK_FORMAT_R8G8B8A8_SSCALED),
            41 => Some(VkFormat::VK_FORMAT_R8G8B8A8_UINT),
            42 => Some(VkFormat::VK_FORMAT_R8G8B8A8_SINT),
            43 => Some(VkFormat::VK_FORMAT_R8G8B8A8_SRGB),
            44 => Some(VkFormat::VK_FORMAT_B8G8R8A8_UNORM),
            45 => Some(VkFormat::VK_FORMAT_B8G8R8A8_SNORM),
            46 => Some(VkFormat::VK_FORMAT_B8G8R8A8_USCALED),
            47 => Some(VkFormat::VK_FORMAT_B8G8R8A8_SSCALED),
            48 => Some(VkFormat::VK_FORMAT_B8G8R8A8_UINT),
            49 => Some(VkFormat::VK_FORMAT_B8G8R8A8_SINT),
            50 => Some(VkFormat::VK_FORMAT_B8G8R8A8_SRGB),
            51 => Some(VkFormat::VK_FORMAT_A8B8G8R8_UNORM_PACK32),
            52 => Some(VkFormat::VK_FORMAT_A8B8G8R8_SNORM_PACK32),
            53 => Some(VkFormat::VK_FORMAT_A8B8G8R8_USCALED_PACK32),
            54 => Some(VkFormat::VK_FORMAT_A8B8G8R8_SSCALED_PACK32),
            55 => Some(VkFormat::VK_FORMAT_A8B8G8R8_UINT_PACK32),
            56 => Some(VkFormat::VK_FORMAT_A8B8G8R8_SINT_PACK32),
            57 => Some(VkFormat::VK_FORMAT_A8B8G8R8_SRGB_PACK32),
            58 => Some(VkFormat::VK_FORMAT_A2R10G10B10_UNORM_PACK32),
            59 => Some(VkFormat::VK_FORMAT_A2R10G10B10_SNORM_PACK32),
            60 => Some(VkFormat::VK_FORMAT_A2R10G10B10_USCALED_PACK32),
            61 => Some(VkFormat::VK_FORMAT_A2R10G10B10_SSCALED_PACK32),
            62 => Some(VkFormat::VK_FORMAT_A2R10G10B10_UINT_PACK32),
            63 => Some(VkFormat::VK_FORMAT_A2R10G10B10_SINT_PACK32),
            64 => Some(VkFormat::VK_FORMAT_A2B10G10R10_UNORM_PACK32),
            65 => Some(VkFormat::VK_FORMAT_A2B10G10R10_SNORM_PACK32),
            66 => Some(VkFormat::VK_FORMAT_A2B10G10R10_USCALED_PACK32),
            67 => Some(VkFormat::VK_FORMAT_A2B10G10R10_SSCALED_PACK32),
            68 => Some(VkFormat::VK_FORMAT_A2B10G10R10_UINT_PACK32),
            69 => Some(VkFormat::VK_FORMAT_A2B10G10R10_SINT_PACK32),
            70 => Some(VkFormat::VK_FORMAT_R16_UNORM),
            71 => Some(VkFormat::VK_FORMAT_R16_SNORM),
            72 => Some(VkFormat::VK_FORMAT_R16_USCALED),
            73 => Some(VkFormat::VK_FORMAT_R16_SSCALED),
            74 => Some(VkFormat::VK_FORMAT_R16_UINT),
            75 => Some(VkFormat::VK_FORMAT_R16_SINT),
            76 => Some(VkFormat::VK_FORMAT_R16_SFLOAT),
            77 => Some(VkFormat::VK_FORMAT_R16G16_UNORM),
            78 => Some(VkFormat::VK_FORMAT_R16G16_SNORM),
            79 => Some(VkFormat::VK_FORMAT_R16G16_USCALED),
            80 => Some(VkFormat::VK_FORMAT_R16G16_SSCALED),
            81 => Some(VkFormat::VK_FORMAT_R16G16_UINT),
            82 => Some(VkFormat::VK_FORMAT_R16G16_SINT),
            83 => Some(VkFormat::VK_FORMAT_R16G16_SFLOAT),
            84 => Some(VkFormat::VK_FORMAT_R16G16B16_UNORM),
            85 => Some(VkFormat::VK_FORMAT_R16G16B16_SNORM),
            86 => Some(VkFormat::VK_FORMAT_R16G16B16_USCALED),
            87 => Some(VkFormat::VK_FORMAT_R16G16B16_SSCALED),
            88 => Some(VkFormat::VK_FORMAT_R16G16B16_UINT),
            89 => Some(VkFormat::VK_FORMAT_R16G16B16_SINT),
            90 => Some(VkFormat::VK_FORMAT_R16G16B16_SFLOAT),
            91 => Some(VkFormat::VK_FORMAT_R16G16B16A16_UNORM),
            92 => Some(VkFormat::VK_FORMAT_R16G16B16A16_SNORM),
            93 => Some(VkFormat::VK_FORMAT_R16G16B16A16_USCALED),
            94 => Some(VkFormat::VK_FORMAT_R16G16B16A16_SSCALED),
            95 => Some(VkFormat::VK_FORMAT_R16G16B16A16_UINT),
            96 => Some(VkFormat::VK_FORMAT_R16G16B16A16_SINT),
            97 => Some(VkFormat::VK_FORMAT_R16G16B16A16_SFLOAT),
            98 => Some(VkFormat::VK_FORMAT_R32_UINT),
            99 => Some(VkFormat::VK_FORMAT_R32_SINT),
            100 => Some(VkFormat::VK_FORMAT_R32_SFLOAT),
            101 => Some(VkFormat::VK_FORMAT_R32G32_UINT),
            102 => Some(VkFormat::VK_FORMAT_R32G32_SINT),
            103 => Some(VkFormat::VK_FORMAT_R32G32_SFLOAT),
            104 => Some(VkFormat::VK_FORMAT_R32G32B32_UINT),
            105 => Some(VkFormat::VK_FORMAT_R32G32B32_SINT),
            106 => Some(VkFormat::VK_FORMAT_R32G32B32_SFLOAT),
            107 => Some(VkFormat::VK_FORMAT_R32G32B32A32_UINT),
            108 => Some(VkFormat::VK_FORMAT_R32G32B32A32_SINT),
            109 => Some(VkFormat::VK_FORMAT_R32G32B32A32_SFLOAT),
            110 => Some(VkFormat::VK_FORMAT_R64_UINT),
            111 => Some(VkFormat::VK_FORMAT_R64_SINT),
            112 => Some(VkFormat::VK_FORMAT_R64_SFLOAT),
            113 => Some(VkFormat::VK_FORMAT_R64G64_UINT),
            114 => Some(VkFormat::VK_FORMAT_R64G64_SINT),
            115 => Some(VkFormat::VK_FORMAT_R64G64_SFLOAT),
            116 => Some(VkFormat::VK_FORMAT_R64G64B64_UINT),
            117 => Some(VkFormat::VK_FORMAT_R64G64B64_SINT),
            118 => Some(VkFormat::VK_FORMAT_R64G64B64_SFLOAT),
            119 => Some(VkFormat::VK_FORMAT_R64G64B64A64_UINT),
            120 => Some(VkFormat::VK_FORMAT_R64G64B64A64_SINT),
            121 => Some(VkFormat::VK_FORMAT_R64G64B64A64_SFLOAT),
            122 => Some(VkFormat::VK_FORMAT_B10G11R11_UFLOAT_PACK32),
            123 => Some(VkFormat::VK_FORMAT_E5B9G9R9_UFLOAT_PACK32),
            124 => Some(VkFormat::VK_FORMAT_D16_UNORM),
            125 => Some(VkFormat::VK_FORMAT_X8_D24_UNORM_PACK32),
            126 => Some(VkFormat::VK_FORMAT_D32_SFLOAT),
            127 => Some(VkFormat::VK_FORMAT_S8_UINT),
            128 => Some(VkFormat::VK_FORMAT_D16_UNORM_S8_UINT),
            129 => Some(VkFormat::VK_FORMAT_D24_UNORM_S8_UINT),
            130 => Some(VkFormat::VK_FORMAT_D32_SFLOAT_S8_UINT),
            131 => Some(VkFormat::VK_FORMAT_BC1_RGB_UNORM_BLOCK),
            132 => Some(VkFormat::VK_FORMAT_BC1_RGB_SRGB_BLOCK),
            133 => Some(VkFormat::VK_FORMAT_BC1_RGBA_UNORM_BLOCK),
            134 => Some(VkFormat::VK_FORMAT_BC1_RGBA_SRGB_BLOCK),
            135 => Some(VkFormat::VK_FORMAT_BC2_UNORM_BLOCK),
            136 => Some(VkFormat::VK_FORMAT_BC2_SRGB_BLOCK),
            137 => Some(VkFormat::VK_FORMAT_BC3_UNORM_BLOCK),
            138 => Some(VkFormat::VK_FORMAT_BC3_SRGB_BLOCK),
            139 => Some(VkFormat::VK_FORMAT_BC4_UNORM_BLOCK),
            140 => Some(VkFormat::VK_FORMAT_BC4_SNORM_BLOCK),
            141 => Some(VkFormat::VK_FORMAT_BC5_UNORM_BLOCK),
            142 => Some(VkFormat::VK_FORMAT_BC5_SNORM_BLOCK),
            143 => Some(VkFormat::VK_FORMAT_BC6H_UFLOAT_BLOCK),
            144 => Some(VkFormat::VK_FORMAT_BC6H_SFLOAT_BLOCK),
            145 => Some(VkFormat::VK_FORMAT_BC7_UNORM_BLOCK),
            146 => Some(VkFormat::VK_FORMAT_BC7_SRGB_BLOCK),
            147 => Some(VkFormat::VK_FORMAT_ETC2_R8G8B8_UNORM_BLOCK),
            148 => Some(VkFormat::VK_FORMAT_ETC2_R8G8B8_SRGB_BLOCK),
            149 => Some(VkFormat::VK_FORMAT_ETC2_R8G8B8A1_UNORM_BLOCK),
            150 => Some(VkFormat::VK_FORMAT_ETC2_R8G8B8A1_SRGB_BLOCK),
            151 => Some(VkFormat::VK_FORMAT_ETC2_R8G8B8A8_UNORM_BLOCK),
            152 => Some(VkFormat::VK_FORMAT_ETC2_R8G8B8A8_SRGB_BLOCK),
            153 => Some(VkFormat::VK_FORMAT_EAC_R11_UNORM_BLOCK),
            154 => Some(VkFormat::VK_FORMAT_EAC_R11_SNORM_BLOCK),
            155 => Some(VkFormat::VK_FORMAT_EAC_R11G11_UNORM_BLOCK),
            156 => Some(VkFormat::VK_FORMAT_EAC_R11G11_SNORM_BLOCK),
            157 => Some(VkFormat::VK_FORMAT_ASTC_4x4_UNORM_BLOCK),
            158 => Some(VkFormat::VK_FORMAT_ASTC_4x4_SRGB_BLOCK),
            159 => Some(VkFormat::VK_FORMAT_ASTC_5x4_UNORM_BLOCK),
            160 => Some(VkFormat::VK_FORMAT_ASTC_5x4_SRGB_BLOCK),
            161 => Some(VkFormat::VK_FORMAT_ASTC_5x5_UNORM_BLOCK),
            162 => Some(VkFormat::VK_FORMAT_ASTC_5x5_SRGB_BLOCK),
            163 => Some(VkFormat::VK_FORMAT_ASTC_6x5_UNORM_BLOCK),
            164 => Some(VkFormat::VK_FORMAT_ASTC_6x5_SRGB_BLOCK),
            165 => Some(VkFormat::VK_FORMAT_ASTC_6x6_UNORM_BLOCK),
            166 => Some(VkFormat::VK_FORMAT_ASTC_6x6_SRGB_BLOCK),
            167 => Some(VkFormat::VK_FORMAT_ASTC_8x5_UNORM_BLOCK),
            168 => Some(VkFormat::VK_FORMAT_ASTC_8x5_SRGB_BLOCK),
            169 => Some(VkFormat::VK_FORMAT_ASTC_8x6_UNORM_BLOCK),
            170 => Some(VkFormat::VK_FORMAT_ASTC_8x6_SRGB_BLOCK),
            171 => Some(VkFormat::VK_FORMAT_ASTC_8x8_UNORM_BLOCK),
            172 => Some(VkFormat::VK_FORMAT_ASTC_8x8_SRGB_BLOCK),
            173 => Some(VkFormat::VK_FORMAT_ASTC_10x5_UNORM_BLOCK),
            174 => Some(VkFormat::VK_FORMAT_ASTC_10x5_SRGB_BLOCK),
            175 => Some(VkFormat::VK_FORMAT_ASTC_10x6_UNORM_BLOCK),
            176 => Some(VkFormat::VK_FORMAT_ASTC_10x6_SRGB_BLOCK),
            177 => Some(VkFormat::VK_FORMAT_ASTC_10x8_UNORM_BLOCK),
            178 => Some(VkFormat::VK_FORMAT_ASTC_10x8_SRGB_BLOCK),
            179 => Some(VkFormat::VK_FORMAT_ASTC_10x10_UNORM_BLOCK),
            180 => Some(VkFormat::VK_FORMAT_ASTC_10x10_SRGB_BLOCK),
            181 => Some(VkFormat::VK_FORMAT_ASTC_12x10_UNORM_BLOCK),
            182 => Some(VkFormat::VK_FORMAT_ASTC_12x10_SRGB_BLOCK),
            183 => Some(VkFormat::VK_FORMAT_ASTC_12x12_UNORM_BLOCK),
            184 => Some(VkFormat::VK_FORMAT_ASTC_12x12_SRGB_BLOCK),
            1000156000 => Some(VkFormat::VK_FORMAT_G8B8G8R8_422_UNORM),
            1000156001 => Some(VkFormat::VK_FORMAT_B8G8R8G8_422_UNORM),
            1000156002 => Some(VkFormat::VK_FORMAT_G8_B8_R8_3PLANE_420_UNORM),
            1000156003 => Some(VkFormat::VK_FORMAT_G8_B8R8_2PLANE_420_UNORM),
            1000156004 => Some(VkFormat::VK_FORMAT_G8_B8_R8_3PLANE_422_UNORM),
            1000156005 => Some(VkFormat::VK_FORMAT_G8_B8R8_2PLANE_422_UNORM),
            1000156006 => Some(VkFormat::VK_FORMAT_G8_B8_R8_3PLANE_444_UNORM),
            1000156007 => Some(VkFormat::VK_FORMAT_R10X6_UNORM_PACK16),
            1000156008 => Some(VkFormat::VK_FORMAT_R10X6G10X6_UNORM_2PACK16),
            1000156009 => Some(VkFormat::VK_FORMAT_R10X6G10X6B10X6A10X6_UNORM_4PACK16),
            1000156010 => Some(VkFormat::VK_FORMAT_G10X6B10X6G10X6R10X6_422_UNORM_4PACK16),
            1000156011 => Some(VkFormat::VK_FORMAT_B10X6G10X6R10X6G10X6_422_UNORM_4PACK16),
            1000156012 => Some(VkFormat::VK_FORMAT_G10X6_B10X6_R10X6_3PLANE_420_UNORM_3PACK16),
            1000156013 => Some(VkFormat::VK_FORMAT_G10X6_B10X6R10X6_2PLANE_420_UNORM_3PACK16),
            1000156014 => Some(VkFormat::VK_FORMAT_G10X6_B10X6_R10X6_3PLANE_422_UNORM_3PACK16),
            1000156015 => Some(VkFormat::VK_FORMAT_G10X6_B10X6R10X6_2PLANE_422_UNORM_3PACK16),
            1000156016 => Some(VkFormat::VK_FORMAT_G10X6_B10X6_R10X6_3PLANE_444_UNORM_3PACK16),
            1000156017 => Some(VkFormat::VK_FORMAT_R12X4_UNORM_PACK16),
            1000156018 => Some(VkFormat::VK_FORMAT_R12X4G12X4_UNORM_2PACK16),
            1000156019 => Some(VkFormat::VK_FORMAT_R12X4G12X4B12X4A12X4_UNORM_4PACK16),
            1000156020 => Some(VkFormat::VK_FORMAT_G12X4B12X4G12X4R12X4_422_UNORM_4PACK16),
            1000156021 => Some(VkFormat::VK_FORMAT_B12X4G12X4R12X4G12X4_422_UNORM_4PACK16),
            1000156022 => Some(VkFormat::VK_FORMAT_G12X4_B12X4_R12X4_3PLANE_420_UNORM_3PACK16),
            1000156023 => Some(VkFormat::VK_FORMAT_G12X4_B12X4R12X4_2PLANE_420_UNORM_3PACK16),
            1000156024 => Some(VkFormat::VK_FORMAT_G12X4_B12X4_R12X4_3PLANE_422_UNORM_3PACK16),
            1000156025 => Some(VkFormat::VK_FORMAT_G12X4_B12X4R12X4_2PLANE_422_UNORM_3PACK16),
            1000156026 => Some(VkFormat::VK_FORMAT_G12X4_B12X4_R12X4_3PLANE_444_UNORM_3PACK16),
            1000156027 => Some(VkFormat::VK_FORMAT_G16B16G16R16_422_UNORM),
            1000156028 => Some(VkFormat::VK_FORMAT_B16G16R16G16_422_UNORM),
            1000156029 => Some(VkFormat::VK_FORMAT_G16_B16_R16_3PLANE_420_UNORM),
            1000156030 => Some(VkFormat::VK_FORMAT_G16_B16R16_2PLANE_420_UNORM),
            1000156031 => Some(VkFormat::VK_FORMAT_G16_B16_R16_3PLANE_422_UNORM),
            1000156032 => Some(VkFormat::VK_FORMAT_G16_B16R16_2PLANE_422_UNORM),
            1000156033 => Some(VkFormat::VK_FORMAT_G16_B16_R16_3PLANE_444_UNORM),
            1000330000 => Some(VkFormat::VK_FORMAT_G8_B8R8_2PLANE_444_UNORM),
            1000330001 => Some(VkFormat::VK_FORMAT_G10X6_B10X6R10X6_2PLANE_444_UNORM_3PACK16),
            1000330002 => Some(VkFormat::VK_FORMAT_G12X4_B12X4R12X4_2PLANE_444_UNORM_3PACK16),
            1000330003 => Some(VkFormat::VK_FORMAT_G16_B16R16_2PLANE_444_UNORM),
            1000340000 => Some(VkFormat::VK_FORMAT_A4R4G4B4_UNORM_PACK16),
            1000340001 => Some(VkFormat::VK_FORMAT_A4B4G4R4_UNORM_PACK16),
            1000066000 => Some(VkFormat::VK_FORMAT_ASTC_4x4_SFLOAT_BLOCK),
            1000066001 => Some(VkFormat::VK_FORMAT_ASTC_5x4_SFLOAT_BLOCK),
            1000066002 => Some(VkFormat::VK_FORMAT_ASTC_5x5_SFLOAT_BLOCK),
            1000066003 => Some(VkFormat::VK_FORMAT_ASTC_6x5_SFLOAT_BLOCK),
            1000066004 => Some(VkFormat::VK_FORMAT_ASTC_6x6_SFLOAT_BLOCK),
            1000066005 => Some(VkFormat::VK_FORMAT_ASTC_8x5_SFLOAT_BLOCK),
            1000066006 => Some(VkFormat::VK_FORMAT_ASTC_8x6_SFLOAT_BLOCK),
            1000066007 => Some(VkFormat::VK_FORMAT_ASTC_8x8_SFLOAT_BLOCK),
            1000066008 => Some(VkFormat::VK_FORMAT_ASTC_10x5_SFLOAT_BLOCK),
            1000066009 => Some(VkFormat::VK_FORMAT_ASTC_10x6_SFLOAT_BLOCK),
            1000066010 => Some(VkFormat::VK_FORMAT_ASTC_10x8_SFLOAT_BLOCK),
            1000066011 => Some(VkFormat::VK_FORMAT_ASTC_10x10_SFLOAT_BLOCK),
            1000066012 => Some(VkFormat::VK_FORMAT_ASTC_12x10_SFLOAT_BLOCK),
            1000066013 => Some(VkFormat::VK_FORMAT_ASTC_12x12_SFLOAT_BLOCK),
            1000054000 => Some(VkFormat::VK_FORMAT_PVRTC1_2BPP_UNORM_BLOCK_IMG),
            1000054001 => Some(VkFormat::VK_FORMAT_PVRTC1_4BPP_UNORM_BLOCK_IMG),
            1000054002 => Some(VkFormat::VK_FORMAT_PVRTC2_2BPP_UNORM_BLOCK_IMG),
            1000054003 => Some(VkFormat::VK_FORMAT_PVRTC2_4BPP_UNORM_BLOCK_IMG),
            1000054004 => Some(VkFormat::VK_FORMAT_PVRTC1_2BPP_SRGB_BLOCK_IMG),
            1000054005 => Some(VkFormat::VK_FORMAT_PVRTC1_4BPP_SRGB_BLOCK_IMG),
            1000054006 => Some(VkFormat::VK_FORMAT_PVRTC2_2BPP_SRGB_BLOCK_IMG),
            1000054007 => Some(VkFormat::VK_FORMAT_PVRTC2_4BPP_SRGB_BLOCK_IMG),
            2147483647 => Some(VkFormat::VK_FORMAT_MAX_ENUM),
            _ => None,
        }
    }

    /// Reading back the number of a value gives the value again.
    pub proof fn lemma_code_roundtrip(self)
        ensures
            Self::spec_from_code(self.spec_code()) == Some(self),
    {
    }
}

impl Default for VkFormat {
    fn default() -> (v: Self)
        ensures
            v == VkFormat::VK_FORMAT_UNDEFINED,
    {
        VkFormat::VK_FORMAT_UNDEFINED
    }
}

/// The colour space in which a surface presents.
#[allow(non_camel_case_types)]
#[derive(Debug, Copy, Clone, PartialEq, Eq, Structural)]
pub enum VkColorSpaceKHR {
    VK_COLOR_SPACE_SRGB_NONLINEAR_KHR,
    VK_COLOR_SPACE_DISPLAY_P3_NONLINEAR_EXT,
    VK_COLOR_SPACE_EXTENDED_SRGB_LINEAR_EXT,
    VK_COLOR_SPACE_DISPLAY_P3_LINEAR_EXT,
    VK_COLOR_SPACE_DCI_P3_NONLINEAR_EXT,
    VK_COLOR_SPACE_BT709_LINEAR_EXT,
    VK_COLOR_SPACE_BT709_NONLINEAR_EXT,
    VK_COLOR_SPACE_BT2020_LINEAR_EXT,
    VK_COLOR_SPACE_HDR10_ST2084_EXT,
    VK_COLOR_SPACE_DOLBYVISION_EXT,
    VK_COLOR_SPACE_HDR10_HLG_EXT,
    VK_COLOR_SPACE_ADOBERGB_LINEAR_EXT,
    VK_COLOR_SPACE_ADOBERGB_NONLINEAR_EXT,
    VK_COLOR_SPACE_PASS_THROUGH_EXT,
    VK_COLOR_SPACE_EXTENDED_SRGB_NONLINEAR_EXT,
    VK_COLOR_SPACE_DISPLAY_NATIVE_AMD,
    VK_COLOR_SPACE_MAX_ENUM_KHR,
}

impl VkColorSpaceKHR {
    /// The number that the Vulkan API gives this value.
    pub open spec fn spec_code(self) -> u32 {
        match self {
            VkColorSpaceKHR::VK_COLOR_SPACE_SRGB_NONLINEAR_KHR => 0,
            VkColorSpaceKHR::VK_COLOR_SPACE_DISPLAY_P3_NONLINEAR_EXT => 1000104001,
            VkColorSpaceKHR::VK_COLOR_SPACE_EXTENDED_SRGB_LINEAR_EXT => 1000104002,
            VkColorSpaceKHR::VK_COLOR_SPACE_DISPLAY_P3_LINEAR_EXT => 1000104003,
            VkColorSpaceKHR::VK_COLOR_SPACE_DCI_P3_NONLINEAR_EXT => 1000104004,
            VkColorSpaceKHR::VK_COLOR_SPACE_BT709_LINEAR_EXT => 1000104005,
            VkColorSpaceKHR::VK_COLOR_SPACE_BT709_NONLINEAR_EXT => 1000104006,
            VkColorSpaceKHR::VK_COLOR_SPACE_BT2020_LINEAR_EXT => 1000104007,
            VkColorSpaceKHR::VK_COLOR_SPACE_HDR10_ST2084_EXT => 1000104008,
            VkColorSpaceKHR::VK_COLOR_SPACE_DOLBYVISION_EXT => 1000104009,
            VkColorSpaceKHR::VK_COLOR_SPACE_HDR10_HLG_EXT => 1000104010,
            VkColorSpaceKHR::VK_COLOR_SPACE_ADOBERGB_LINEAR_EXT => 1000104011,
            VkColorSpaceKHR::VK_COLOR_SPACE_ADOBERGB_NONLINEAR_EXT => 1000104012,
            VkColorSpaceKHR::VK_COLOR_SPACE_PASS_THROUGH_EXT => 1000104013,
            VkColorSpaceKHR::VK_COLOR_SPACE_EXTENDED_SRGB_NONLINEAR_EXT => 1000104014,
            VkColorSpaceKHR::VK_COLOR_SPACE_DISPLAY_NATIVE_AMD => 1000213000,
            VkColorSpaceKHR::VK_COLOR_SPACE_MAX_ENUM_KHR => 2147483647,
        }
    }

    /// The value that the Vulkan API number `code` stands for, if any.
    pub open spec fn spec_from_code(code: u32) -> Option<Self> {
        match code {
            0 => Some(VkColorSpaceKHR::VK_COLOR_SPACE_SRGB_NONLINEAR_KHR),
            1000104001 => Some(VkColorSpaceKHR::VK_COLOR_SPACE_DISPLAY_P3_NONLINEAR_EXT),
            1000104002 => Some(VkColorSpaceKHR::VK_COLOR_SPACE_EXTENDED_SRGB_LINEAR_EXT),
            1000104003 => Some(VkColorSpaceKHR::VK_COLOR_SPACE_DISPLAY_P3_LINEAR_EXT),
            1000104004 => Some(VkColorSpaceKHR::VK_COLOR_SPACE_DCI_P3_NONLINEAR_EXT),
            1000104005 => Some(VkColorSpaceKHR::VK_COLOR_SPACE_BT709_LINEAR_EXT),
            1000104006 => Some(VkColorSpaceKHR::VK_COLOR_SPACE_BT709_NONLINEAR_EXT),
            1000104007 => Some(VkColorSpaceKHR::VK_COLOR_SPACE_BT2020_LINEAR_EXT),
            1000104008 => Some(VkColorSpaceKHR::VK_COLOR_SPACE_HDR10_ST2084_EXT),
            1000104009 => Some(VkColorSpaceKHR::VK_COLOR_SPACE_DOLBYVISION_EXT),
            1000104010 => Some(VkColorSpaceKHR::VK_COLOR_SPACE_HDR10_HLG_EXT),
            1000104011 => Some(VkColorSpaceKHR::VK_COLOR_SPACE_ADOBERGB_LINEAR_EXT),
            1000104012 => Some(VkColorSpaceKHR::VK_COLOR_SPACE_ADOBERGB_NONLINEAR_EXT),
            1000104013 => Some(VkColorSpaceKHR::VK_COLOR_SPACE_PASS_THROUGH_EXT),
            1000104014 => Some(VkColorSpaceKHR::VK_COLOR_SPACE_EXTENDED_SRGB_NONLINEAR_EXT),
            1000213000 => Some(VkColorSpaceKHR::VK_COLOR_SPACE_DISPLAY_NATIVE_AMD),
            2147483647 => Some(VkColorSpaceKHR::VK_COLOR_SPACE_MAX_ENUM_KHR),
            _ => None,
        }
    }

    /// The number that the Vulkan API gives this value.
    pub fn code(&self) -> (c: u32)
        ensures
            c == self.spec_code(),
    {
        match self {
            VkColorSpaceKHR::VK_COLOR_SPACE_SRGB_NONLINEAR_KHR => 0,
            VkColorSpaceKHR::VK_COLOR_SPACE_DISPLAY_P3_NONLINEAR_EXT => 1000104001,
            VkColorSpaceKHR::VK_COLOR_SPACE_EXTENDED_SRGB_LINEAR_EXT => 1000104002,
            VkColorSpaceKHR::VK_COLOR_SPACE_DISPLAY_P3_LINEAR_EXT => 1000104003,
            VkColorSpaceKHR::VK_COLOR_SPACE_DCI_P3_NONLINEAR_EXT => 1000104004,
            VkColorSpaceKHR::VK_COLOR_SPACE_BT709_LINEAR_EXT => 1000104005,
            VkColorSpaceKHR::VK_COLOR_SPACE_BT709_NONLINEAR_EXT => 1000104006,
            VkColorSpaceKHR::VK_COLOR_SPACE_BT2020_LINEAR_EXT => 1000104007,
            VkColorSpaceKHR::VK_COLOR_SPACE_HDR10_ST2084_EXT => 1000104008,
            VkColorSpaceKHR::VK_COLOR_SPACE_DOLBYVISION_EXT => 1000104009,
            VkColorSpaceKHR::VK_COLOR_SPACE_HDR10_HLG_EXT => 1000104010,
            VkColorSpaceKHR::VK_COLOR_SPACE_ADOBERGB_LINEAR_EXT => 1000104011,
            VkColorSpaceKHR::VK_COLOR_SPACE_ADOBERGB_NONLINEAR_EXT => 1000104012,
            VkColorSpaceKHR::VK_COLOR_SPACE_PASS_THROUGH_EXT => 1000104013,
            VkColorSpaceKHR::VK_COLOR_SPACE_EXTENDED_SRGB_NONLINEAR_EXT => 1000104014,
            VkColorSpaceKHR::VK_COLOR_SPACE_DISPLAY_NATIVE_AMD => 1000213000,
            VkColorSpaceKHR::VK_COLOR_SPACE_MAX_ENUM_KHR => 2147483647,
        }
    }

    /// The value that the Vulkan API number `code` stands for; `None` for a number it does not use.
    pub fn from_code(code: u32) -> (r: Option<Self>)
        ensures
            r == Self::spec_from_code(code),
    {
        match code {
            0 => Some(VkColorSpaceKHR::VK_COLOR_SPACE_SRGB_NONLINEAR_KHR),
            1000104001 => Some(VkColorSpaceKHR::VK_COLOR_SPACE_DISPLAY_P3_NONLINEAR_EXT),
            1000104002 => Some(VkColorSpaceKHR::VK_COLOR_SPACE_EXTENDED_SRGB_LINEAR_EXT),
            1000104003 => Some(VkColorSpaceKHR::VK_COLOR_SPACE_DISPLAY_P3_LINEAR_EXT),
            1000104004 => Some(VkColorSpaceKHR::VK_COLOR_SPACE_DCI_P3_NONLINEAR_EXT),
            1000104005 => Some(VkColorSpaceKHR::VK_COLOR_SPACE_BT709_LINEAR_EXT),
            1000104006 => Some(VkColorSpaceKHR::VK_COLOR_SPACE_BT709_NONLINEAR_EXT),
            1000104007 => Some(VkColorSpaceKHR::VK_COLOR_SPACE_BT2020_LINEAR_EXT),
            1000104008 => Some(VkColorSpaceKHR::VK_COLOR_SPACE_HDR10_ST2084_EXT),
            1000104009 => Some(VkColorSpaceKHR::VK_COLOR_SPACE_DOLBYVISION_EXT),
            1000104010 => Some(VkColorSpaceKHR::VK_COLOR_SPACE_HDR10_HLG_EXT),
            1000104011 => Some(VkColorSpaceKHR::VK_COLOR_SPACE_ADOBERGB_LINEAR_EXT),
            1000104012 => Some(VkColorSpaceKHR::VK_COLOR_SPACE_ADOBERGB_NONLINEAR_EXT),
            1000104013 => Some(VkColorSpaceKHR::VK_COLOR_SPACE_PASS_THROUGH_EXT),
            1000104014 => Some(VkColorSpaceKHR::VK_COLOR_SPACE_EXTENDED_SRGB_NONLINEAR_EXT),
            1000213000 => Some(VkColorSpaceKHR::VK_COLOR_SPACE_DISPLAY_NATIVE_AMD),
            2147483647 => Some(VkColorSpaceKHR::VK_COLOR_SPACE_MAX_ENUM_KHR),
            _ => None,
        }
    }

    /// Reading back the number of a value gives the value again.
    pub proof fn lemma_code_roundtrip(self)
        ensures
            Self::spec_from_code(self.spec_code()) == Some(self),
    {
    }
}

impl Default for VkColorSpaceKHR {
    fn default() -> (v: Self)
        ensures
            v == VkColorSpaceKHR::VK_COLOR_SPACE_SRGB_NONLINEAR_KHR,
    {
        VkColorSpaceKHR::VK_COLOR_SPACE_SRGB_NONLINEAR_KHR
    }
}

/// Whether queue families share an image.
#[allow(non_camel_case_types)]
#[derive(Debug, Copy, Clone, PartialEq, Eq, Structural)]
pub enum VkSharingMode {
    VK_SHARING_MODE_EXCLUSIVE,
    VK_SHARING_MODE_CONCURRENT,
    VK_SHARING_MODE_MAX_ENUM,
}

impl VkSharingMode {
    /// The number that the Vulkan API gives this value.
    pub open spec fn spec_code(self) -> u32 {
        match self {
            VkSharingMode::VK_SHARING_MODE_EXCLUSIVE => 0,
            VkSharingMode::VK_SHARING_MODE_CONCURRENT => 1,
            VkSharingMode::VK_SHARING_MODE_MAX_ENUM => 2147483647,
        }
    }

    /// The value that the Vulkan API number `code` stands for, if any.
    pub open spec fn spec_from_code(code: u32) -> Option<Self> {
        match code {
            0 => Some(VkSharingMode::VK_SHARING_MODE_EXCLUSIVE),
            1 => Some(VkSharingMode::VK_SHARING_MODE_CONCURRENT),
            2147483647 => Some(VkSharingMode::VK_SHARING_MODE_MAX_ENUM),
            _ => None,
        }
    }

    /// The number that the Vulkan API gives this value.
    pub fn code(&self) -> (c: u32)
        ensures
            c == self.spec_code(),
    {
        match self {
            VkSharingMode::VK_SHARING_MODE_EXCLUSIVE => 0,
            VkSharingMode::VK_SHARING_MODE_CONCURRENT => 1,
            VkSharingMode::VK_SHARING_MODE_MAX_ENUM => 2147483647,
        }
    }

    /// The value that the Vulkan API number `code` stands for; `None` for a number it does not use.
    pub fn from_code(code: u32) -> (r: Option<Self>)
        ensures
            r == Self::spec_from_code(code),
    {
        match code {
            0 => Some(VkSharingMode::VK_SHARING_MODE_EXCLUSIVE),
            1 => Some(VkSharingMode::VK_SHARING_MODE_CONCURRENT),
            2147483647 => Some(VkSharingMode::VK_SHARING_MODE_MAX_ENUM),
            _ => None,
        }
    }

    /// Reading back the number of a value gives the value again.
    pub proof fn lemma_code_roundtrip(self)
        ensures
            Self::spec_from_code(self.spec_code()) == Some(self),
    {
    }
}

/// How a swapchain hands its images to the screen.
#[allow(non_camel_case_types)]
#[derive(Debug, Copy, Clone, PartialEq, Eq, Structural)]
pub enum VkPresentModeKHR {
    VK_PRESENT_MODE_IMMEDIATE_KHR,
    VK_PRESENT_MODE_MAILBOX_KHR,
    VK_PRESENT_MODE_FIFO_KHR,
    VK_PRESENT_MODE_FIFO_RELAXED_KHR,
    VK_PRESENT_MODE_SHARED_DEMAND_REFRESH_KHR,
    VK_PRESENT_MODE_SHARED_CONTINUOUS_REFRESH_KHR,
    VK_PRESENT_MODE_MAX_ENUM_KHR,
}

impl VkPresentModeKHR {
    /// The number that the Vulkan API gives this value.
    pub open spec fn spec_code(self) -> u32 {
        match self {
            VkPresentModeKHR::VK_PRESENT_MODE_IMMEDIATE_KHR => 0,
            VkPresentModeKHR::VK_PRESENT_MODE_MAILBOX_KHR => 1,
            VkPresentModeKHR::VK_PRESENT_MODE_FIFO_KHR => 2,
            VkPresentModeKHR::VK_PRESENT_MODE_FIFO_RELAXED_KHR => 3,
            VkPresentModeKHR::VK_PRESENT_MODE_SHARED_DEMAND_REFRESH_KHR => 1000111000,
            VkPresentModeKHR::VK_PRESENT_MODE_SHARED_CONTINUOUS_REFRESH_KHR => 1000111001,
            VkPresentModeKHR::VK_PRESENT_MODE_MAX_ENUM_KHR => 2147483647,
        }
    }

    /// The value that the Vulkan API number `code` stands for, if any.
    pub open spec fn spec_from_code(code: u32) -> Option<Self> {
        match code {
            0 => Some(VkPresentModeKHR::VK_PRESENT_MODE_IMMEDIATE_KHR),
            1 => Some(VkPresentModeKHR::VK_PRESENT_MODE_MAILBOX_KHR),
            2 => Some(VkPresentModeKHR::VK_PRESENT_MODE_FIFO_KHR),
            3 => Some(VkPresentModeKHR::VK_PRESENT_MODE_FIFO_RELAXED_KHR),
            1000111000 => Some(VkPresentModeKHR::VK_PRESENT_MODE_SHARED_DEMAND_REFRESH_KHR),
            1000111001 => Some(VkPresentModeKHR::VK_PRESENT_MODE_SHARED_CONTINUOUS_REFRESH_KHR),
            2147483647 => Some(VkPresentModeKHR::VK_PRESENT_MODE_MAX_ENUM_KHR),
            _ => None,
        }
    }

    /// The number that the Vulkan API gives this value.
    pub fn code(&self) -> (c: u32)
        ensures
            c == self.spec_code(),
    {
        match self {
            VkPresentModeKHR::VK_PRESENT_MODE_IMMEDIATE_KHR => 0,
            VkPresentModeKHR::VK_PRESENT_MODE_MAILBOX_KHR => 1,
            VkPresentModeKHR::VK_PRESENT_MODE_FIFO_KHR => 2,
            VkPresentModeKHR::VK_PRESENT_MODE_FIFO_RELAXED_KHR => 3,
            VkPresentModeKHR::VK_PRESENT_MODE_SHARED_DEMAND_REFRESH_KHR => 1000111000,
            VkPresentModeKHR::VK_PRESENT_MODE_SHARED_CONTINUOUS_REFRESH_KHR => 1000111001,
            VkPresentModeKHR::VK_PRESENT_MODE_MAX_ENUM_KHR => 2147483647,
        }
    }

    /// The value that the Vulkan API number `code` stands for; `None` for a number it does not use.
    pub fn from_code(code: u32) -> (r: Option<Self>)
        ensures
            r == Self::spec_from_code(code),
    {
        match code {
            0 => Some(VkPresentModeKHR::VK_PRESENT_MODE_IMMEDIATE_KHR),
            1 => Some(VkPresentModeKHR::VK_PRESENT_MODE_MAILBOX_KHR),
            2 => Some(VkPresentModeKHR::VK_PRESENT_MODE_FIFO_KHR),
            3 => Some(VkPresentModeKHR::VK_PRESENT_MODE_FIFO_RELAXED_KHR),
            1000111000 => Some(VkPresentModeKHR::VK_PRESENT_MODE_SHARED_DEMAND_REFRESH_KHR),
            1000111001 => Some(VkPresentModeKHR::VK_PRESENT_MODE_SHARED_CONTINUOUS_REFRESH_KHR),
            2147483647 => Some(VkPresentModeKHR::VK_PRESENT_MODE_MAX_ENUM_KHR),
            _ => None,
        }
    }

    /// Reading back the number of a value gives the value again.
    pub proof fn lemma_code_roundtrip(self)
        ensures
            Self::spec_from_code(self.spec_code()) == Some(self),
    {
    }
}

impl Default for VkPresentModeKHR {
    fn default() -> (v: Self)
        ensures
            v == VkPresentModeKHR::VK_PRESENT_MODE_IMMEDIATE_KHR,
    {
        VkPresentModeKHR::VK_PRESENT_MODE_IMMEDIATE_KHR
    }
}

/// The shape of an image view.
#[allow(non_camel_case_types)]
#[derive(Debug, Copy, Clone, PartialEq, Eq, Structural)]
pub enum VkImageViewType {
    VK_IMAGE_VIEW_TYPE_1D,
    VK_IMAGE_VIEW_TYPE_2D,
    VK_IMAGE_VIEW_TYPE_3D,
    VK_IMAGE_VIEW_TYPE_CUBE,
    VK_IMAGE_VIEW_TYPE_1D_ARRAY,
    VK_IMAGE_VIEW_TYPE_2D_ARRAY,
    VK_IMAGE_VIEW_TYPE_CUBE_ARRAY,
    VK_IMAGE_VIEW_TYPE_MAX_ENUM,
}

impl VkImageViewType {
    /// The number that the Vulkan API gives this value.
    pub open spec fn spec_code(self) -> u32 {
        match self {
            VkImageViewType::VK_IMAGE_VIEW_TYPE_1D => 0,
            VkImageViewType::VK_IMAGE_VIEW_TYPE_2D => 1,
            VkImageViewType::VK_IMAGE_VIEW_TYPE_3D => 2,
            VkImageViewType::VK_IMAGE_VIEW_TYPE_CUBE => 3,
            VkImageViewType::VK_IMAGE_VIEW_TYPE_1D_ARRAY => 4,
            VkImageViewType::VK_IMAGE_VIEW_TYPE_2D_ARRAY => 5,
            VkImageViewType::VK_IMAGE_VIEW_TYPE_CUBE_ARRAY => 6,
            VkImageViewType::VK_IMAGE_VIEW_TYPE_MAX_ENUM => 2147483647,
        }
    }

    /// The value that the Vulkan API number `code` stands for, if any.
    pub open spec fn spec_from_code(code: u32) -> Option<Self> {
        match code {
            0 => Some(VkImageViewType::VK_IMAGE_VIEW_TYPE_1D),
            1 => Some(VkImageViewType::VK_IMAGE_VIEW_TYPE_2D),
            2 => Some(VkImageViewType::VK_IMAGE_VIEW_TYPE_3D),
            3 => Some(VkImageViewType::VK_IMAGE_VIEW_TYPE_CUBE),
            4 => Some(VkImageViewType::VK_IMAGE_VIEW_TYPE_1D_ARRAY),
            5 => Some(VkImageViewType::VK_IMAGE_VIEW_TYPE_2D_ARRAY),
            6 => Some(VkImageViewType::VK_IMAGE_VIEW_TYPE_CUBE_ARRAY),
            2147483647 => Some(VkImageViewType::VK_IMAGE_VIEW_TYPE_MAX_ENUM),
            _ => None,
        }
    }

    /// The number that the Vulkan API gives this value.
    pub fn code(&self) -> (c: u32)
        ensures
            c == self.spec_code(),
    {
        match self {
            VkImageViewType::VK_IMAGE_VIEW_TYPE_1D => 0,
            VkImageViewType::VK_IMAGE_VIEW_TYPE_2D => 1,
            VkImageViewType::VK_IMAGE_VIEW_TYPE_3D => 2,
            VkImageViewType::VK_IMAGE_VIEW_TYPE_CUBE => 3,
            VkImageViewType::VK_IMAGE_VIEW_TYPE_1D_ARRAY => 4,
            VkImageViewType::VK_IMAGE_VIEW_TYPE_2D_ARRAY => 5,
            VkImageViewType::VK_IMAGE_VIEW_TYPE_CUBE_ARRAY => 6,
            VkImageViewType::VK_IMAGE_VIEW_TYPE_MAX_ENUM => 2147483647,
        }
    }

    /// The value that the Vulkan API number `code` stands for; `None` for a number it does not use.
    pub fn from_code(code: u32) -> (r: Option<Self>)
        ensures
            r == Self::spec_from_code(code),
    {
        match code {
            0 => Some(VkImageViewType::VK_IMAGE_VIEW_TYPE_1D),
            1 => Some(VkImageViewType::VK_IMAGE_VIEW_TYPE_2D),
            2 => Some(VkImageViewType::VK_IMAGE_VIEW_TYPE_3D),
            3 => Some(VkImageViewType::VK_IMAGE_VIEW_TYPE_CUBE),
            4 => Some(VkImageViewType::VK_IMAGE_VIEW_TYPE_1D_ARRAY),
            5 => Some(VkImageViewType::VK_IMAGE_VIEW_TYPE_2D_ARRAY),
            6 => Some(VkImageViewType::VK_IMAGE_VIEW_TYPE_CUBE_ARRAY),
            2147483647 => Some(VkImageViewType::VK_IMAGE_VIEW_TYPE_MAX_ENUM),
            _ => None,
        }
    }

    /// Reading back the number of a value gives the value again.
    pub proof fn lemma_code_roundtrip(self)
        ensures
            Self::spec_from_code(self.spec_code()) == Some(self),
    {
    }
}

/// Where an image view takes one colour component from.
#[allow(non_camel_case_types)]
#[derive(Debug, Copy, Clone, PartialEq, Eq, Structural)]
pub enum VkComponentSwizzle {
    VK_COMPONENT_SWIZZLE_IDENTITY,
    VK_COMPONENT_SWIZZLE_ZERO,
    VK_COMPONENT_SWIZZLE_ONE,
    VK_COMPONENT_SWIZZLE_R,
    VK_COMPONENT_SWIZZLE_G,
    VK_COMPONENT_SWIZZLE_B,
    VK_COMPONENT_SWIZZLE_A,
    VK_COMPONENT_SWIZZLE_MAX_ENUM,
}

impl VkComponentSwizzle {
    /// The number that the Vulkan API gives this value.
    pub open spec fn spec_code(self) -> u32 {
        match self {
            VkComponentSwizzle::VK_COMPONENT_SWIZZLE_IDENTITY => 0,
            VkComponentSwizzle::VK_COMPONENT_SWIZZLE_ZERO => 1,
            VkComponentSwizzle::VK_COMPONENT_SWIZZLE_ONE => 2,
            VkComponentSwizzle::VK_COMPONENT_SWIZZLE_R => 3,
            VkComponentSwizzle::VK_COMPONENT_SWIZZLE_G => 4,
            VkComponentSwizzle::VK_COMPONENT_SWIZZLE_B => 5,
            VkComponentSwizzle::VK_COMPONENT_SWIZZLE_A => 6,
            VkComponentSwizzle::VK_COMPONENT_SWIZZLE_MAX_ENUM => 2147483647,
        }
    }

    /// The value that the Vulkan API number `code` stands for, if any.
    pub open spec fn spec_from_code(code: u32) -> Option<Self> {
        match code {
            0 => Some(VkComponentSwizzle::VK_COMPONENT_SWIZZLE_IDENTITY),
            1 => Some(VkComponentSwizzle::VK_COMPONENT_SWIZZLE_ZERO),
            2 => Some(VkComponentSwizzle::VK_COMPONENT_SWIZZLE_ONE),
            3 => Some(VkComponentSwizzle::VK_COMPONENT_SWIZZLE_R),
            4 => Some(VkComponentSwizzle::VK_COMPONENT_SWIZZLE_G),
            5 => Some(VkComponentSwizzle::VK_COMPONENT_SWIZZLE_B),
            6 => Some(VkComponentSwizzle::VK_COMPONENT_SWIZZLE_A),
            2147483647 => Some(VkComponentSwizzle::VK_COMPONENT_SWIZZLE_MAX_ENUM),
            _ => None,
        }
    }

    /// The number that the Vulkan API gives this value.
    pub fn code(&self) -> (c: u32)
        ensures
            c == self.spec_code(),
    {
        match self {
            VkComponentSwizzle::VK_COMPONENT_SWIZZLE_IDENTITY => 0,
            VkComponentSwizzle::VK_COMPONENT_SWIZZLE_ZERO => 1,
            VkComponentSwizzle::VK_COMPONENT_SWIZZLE_ONE => 2,
            VkComponentSwizzle::VK_COMPONENT_SWIZZLE_R => 3,
            VkComponentSwizzle::VK_COMPONENT_SWIZZLE_G => 4,
            VkComponentSwizzle::VK_COMPONENT_SWIZZLE_B => 5,
            VkComponentSwizzle::VK_COMPONENT_SWIZZLE_A => 6,
            VkComponentSwizzle::VK_COMPONENT_SWIZZLE_MAX_ENUM => 2147483647,
        }
    }

    /// The value that the Vulkan API number `code` stands for; `None` for a number it does not use.
    pub fn from_code(code: u32) -> (r: Option<Self>)
        ensures
            r == Self::spec_from_code(code),
    {
        match code {
            0 => Some(VkComponentSwizzle::VK_COMPONENT_SWIZZLE_IDENTITY),
            1 => Some(VkComponentSwizzle::VK_COMPONENT_SWIZZLE_ZERO),
            2 => Some(VkComponentSwizzle::VK_COMPONENT_SWIZZLE_ONE),
            3 => Some(VkComponentSwizzle::VK_COMPONENT_SWIZZLE_R),
            4 => Some(VkComponentSwizzle::VK_COMPONENT_SWIZZLE_G),
            5 => Some(VkComponentSwizzle::VK_COMPONENT_SWIZZLE_B),
            6 => Some(VkComponentSwizzle::VK_COMPONENT_SWIZZLE_A),
            2147483647 => Some(VkComponentSwizzle::VK_COMPONENT_SWIZZLE_MAX_ENUM),
            _ => None,
        }
    }

    /// Reading back the number of a value gives the value again.
    pub proof fn lemma_code_roundtrip(self)
        ensures
            Self::spec_from_code(self.spec_code()) == Some(self),
    {
    }
}

} // verus!
