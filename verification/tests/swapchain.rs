use icarus::swapchain::{
    choose_composite_alpha, choose_present_mode, choose_surface_format, color_view_components,
    color_view_range, depth_format_candidates, depth_view_range, device_queue_plan, memory_type_index,
    queue_family_index, supported_depth_format, swapchain_settings, SwapchainError,
};
use icarus::vk::{
    VkColorSpaceKHR, VkComponentSwizzle, VkExtent2D, VkExtent3D, VkFormat, VkPresentModeKHR,
    VkQueueFamilyProperties, VkSurfaceCapabilitiesKHR, VkSurfaceFormatKHR,
};
use icarus::vk_example_base::{SwapChainBuffer, VulkanSwapChain};

fn family(flags: u32) -> VkQueueFamilyProperties {
    VkQueueFamilyProperties {
        queueFlags: flags,
        queueCount: 1,
        timestampValidBits: 64,
        minImageTransferGranularity: VkExtent3D { width: 1, height: 1, depth: 1 },
    }
}

fn caps() -> VkSurfaceCapabilitiesKHR {
    VkSurfaceCapabilitiesKHR {
        minImageCount: 2,
        maxImageCount: 8,
        currentExtent: VkExtent2D { width: 640, height: 480 },
        minImageExtent: VkExtent2D { width: 1, height: 1 },
        maxImageExtent: VkExtent2D { width: 4096, height: 4096 },
        maxImageArrayLayers: 1,
        supportedTransforms: 0x1 | 0x2,
        currentTransform: 0x2,
        supportedCompositeAlpha: 0x2 | 0x8,
        supportedUsageFlags: 0x10 | 0x1,
    }
}

#[test]
fn present_mode_preference() {
    assert_eq!(choose_present_mode(&[VkPresentModeKHR::VK_PRESENT_MODE_IMMEDIATE_KHR, VkPresentModeKHR::VK_PRESENT_MODE_MAILBOX_KHR], false), VkPresentModeKHR::VK_PRESENT_MODE_MAILBOX_KHR);
    assert_eq!(choose_present_mode(&[VkPresentModeKHR::VK_PRESENT_MODE_FIFO_KHR, VkPresentModeKHR::VK_PRESENT_MODE_IMMEDIATE_KHR], false), VkPresentModeKHR::VK_PRESENT_MODE_IMMEDIATE_KHR);
    assert_eq!(choose_present_mode(&[VkPresentModeKHR::VK_PRESENT_MODE_FIFO_KHR], false), VkPresentModeKHR::VK_PRESENT_MODE_FIFO_KHR);
    assert_eq!(choose_present_mode(&[VkPresentModeKHR::VK_PRESENT_MODE_MAILBOX_KHR], true), VkPresentModeKHR::VK_PRESENT_MODE_FIFO_KHR);
}

#[test]
fn settings_follow_the_surface() {
    let s = swapchain_settings(&caps(), &[VkPresentModeKHR::VK_PRESENT_MODE_FIFO_KHR], 1280, 720, false);
    assert_eq!(s.extent, VkExtent2D { width: 640, height: 480 });
    assert_eq!(s.present_mode, VkPresentModeKHR::VK_PRESENT_MODE_FIFO_KHR);
    assert_eq!(s.min_image_count, 3);
    assert_eq!(s.pre_transform, 0x1);
    assert_eq!(s.composite_alpha, 0x2);
    assert_eq!(s.image_usage, 0x10 | 0x1);
}

#[test]
fn settings_when_the_surface_leaves_the_extent_open() {
    let mut c = caps();
    c.currentExtent = VkExtent2D { width: u32::MAX, height: u32::MAX };
    c.minImageCount = 3;
    c.maxImageCount = 3;
    c.supportedTransforms = 0x4;
    c.supportedCompositeAlpha = 0;
    c.supportedUsageFlags = 0x10 | 0x2;
    let s = swapchain_settings(&c, &[], 1280, 720, true);
    assert_eq!(s.extent, VkExtent2D { width: 1280, height: 720 });
    assert_eq!(s.min_image_count, 3);
    assert_eq!(s.pre_transform, 0x2);
    assert_eq!(s.composite_alpha, 0x1);
    assert_eq!(s.image_usage, 0x10 | 0x2);
    c.maxImageCount = 0;
    assert_eq!(swapchain_settings(&c, &[], 1, 1, true).min_image_count, 4);
}

#[test]
fn composite_alpha_order() {
    assert_eq!(choose_composite_alpha(0xf), 0x1);
    assert_eq!(choose_composite_alpha(0xc), 0x4);
    assert_eq!(choose_composite_alpha(0x8), 0x8);
    assert_eq!(choose_composite_alpha(0x10), 0x1);
}

#[test]
fn surface_format_choice() {
    let any = [VkSurfaceFormatKHR { format: VkFormat::VK_FORMAT_UNDEFINED, colorSpace: VkColorSpaceKHR::VK_COLOR_SPACE_DISPLAY_P3_NONLINEAR_EXT }];
    assert_eq!(choose_surface_format(&any), (VkFormat::VK_FORMAT_B8G8R8A8_UNORM, VkColorSpaceKHR::VK_COLOR_SPACE_DISPLAY_P3_NONLINEAR_EXT));
    let offers = [
        VkSurfaceFormatKHR { format: VkFormat::VK_FORMAT_R8G8B8A8_SRGB, colorSpace: VkColorSpaceKHR::VK_COLOR_SPACE_SRGB_NONLINEAR_KHR },
        VkSurfaceFormatKHR { format: VkFormat::VK_FORMAT_B8G8R8A8_UNORM, colorSpace: VkColorSpaceKHR::VK_COLOR_SPACE_HDR10_ST2084_EXT },
        VkSurfaceFormatKHR { format: VkFormat::VK_FORMAT_B8G8R8A8_UNORM, colorSpace: VkColorSpaceKHR::VK_COLOR_SPACE_SRGB_NONLINEAR_KHR },
    ];
    assert_eq!(choose_surface_format(&offers), (VkFormat::VK_FORMAT_B8G8R8A8_UNORM, VkColorSpaceKHR::VK_COLOR_SPACE_HDR10_ST2084_EXT));
    assert_eq!(choose_surface_format(&offers[..1]), (VkFormat::VK_FORMAT_R8G8B8A8_SRGB, VkColorSpaceKHR::VK_COLOR_SPACE_SRGB_NONLINEAR_KHR));
}

#[test]
fn queue_family_preferences() {
    let families = [family(0x1 | 0x2 | 0x4), family(0x2 | 0x4), family(0x4)];
    assert_eq!(queue_family_index(&families, 0x1), Some(0));
    assert_eq!(queue_family_index(&families, 0x2), Some(1));
    assert_eq!(queue_family_index(&families, 0x4), Some(2));
    assert_eq!(queue_family_index(&families[..1], 0x2), Some(0));
    assert_eq!(queue_family_index(&families[1..], 0x1), None);
    assert_eq!(queue_family_index(&[], 0x1), None);
}

#[test]
fn device_queues() {
    let families = [family(0x1 | 0x2 | 0x4), family(0x2 | 0x4), family(0x4)];
    let plan = device_queue_plan(&families, 0x1 | 0x2 | 0x4).unwrap();
    assert_eq!((plan.graphics, plan.compute, plan.transfer), (0, 1, 2));
    assert_eq!(plan.queue_families, vec![0, 1, 2]);
    let plan = device_queue_plan(&families[..2], 0x1 | 0x2 | 0x4).unwrap();
    assert_eq!((plan.graphics, plan.compute, plan.transfer), (0, 1, 0));
    assert_eq!(plan.queue_families, vec![0, 1]);
    let plan = device_queue_plan(&families[..1], 0x1 | 0x2).unwrap();
    assert_eq!((plan.graphics, plan.compute, plan.transfer), (0, 0, 0));
    assert_eq!(plan.queue_families, vec![0, 0]);
    // A transfer family that is the default graphics family gets no queue of its own.
    let plan = device_queue_plan(&families[..2], 0x4).unwrap();
    assert_eq!((plan.graphics, plan.compute, plan.transfer), (0, 0, 0));
    assert_eq!(plan.queue_families, Vec::<u32>::new());
    assert_eq!(device_queue_plan(&families[1..], 0x1), None);
}

#[test]
fn memory_types() {
    let flags = [0x1, 0x6, 0x7];
    assert_eq!(memory_type_index(&flags, 0b111, 0x6), Some(1));
    assert_eq!(memory_type_index(&flags, 0b101, 0x6), Some(2));
    assert_eq!(memory_type_index(&flags, 0b001, 0x6), None);
    assert_eq!(memory_type_index(&flags, 0b111, 0x0), Some(0));
    assert_eq!(memory_type_index(&[], u32::MAX, 0), None);
}

#[test]
fn depth_formats() {
    assert_eq!(depth_format_candidates()[0], VkFormat::VK_FORMAT_D32_SFLOAT_S8_UINT);
    assert_eq!(supported_depth_format(&[0, 0x200, 0x200, 0, 0]), Some(VkFormat::VK_FORMAT_D32_SFLOAT));
    assert_eq!(supported_depth_format(&[0, 0, 0, 0, 0x200]), Some(VkFormat::VK_FORMAT_D16_UNORM));
    assert_eq!(supported_depth_format(&[0x1ff; 5]), None);
}

#[test]
fn image_views() {
    let c = color_view_components();
    assert_eq!(c.r, VkComponentSwizzle::VK_COMPONENT_SWIZZLE_R);
    assert_eq!(c.a, VkComponentSwizzle::VK_COMPONENT_SWIZZLE_A);
    let r = color_view_range();
    assert_eq!((r.aspectMask, r.levelCount, r.layerCount), (1, 1, 1));
}

#[test]
fn swapchain_state() {
    let mut sc = VulkanSwapChain::default();
    sc.connect(1, 2, 3);
    assert_eq!((sc.instance, sc.physical_device, sc.device), (1, 2, 3));
    let props = [family(0x4), family(0x1), family(0x1)];
    assert_eq!(sc.select_queue_node(&props, &[false, false, true]), Ok(()));
    assert_eq!(sc.queue_node_index, 2);
    assert_eq!(sc.select_queue_node(&props, &[false; 3]), Err(SwapchainError::NoGraphicsOrPresentQueue));
    assert_eq!(sc.queue_node_index, 2);
    sc.select_surface_format(&[VkSurfaceFormatKHR {
        format: VkFormat::VK_FORMAT_B8G8R8A8_UNORM,
        colorSpace: VkColorSpaceKHR::VK_COLOR_SPACE_SRGB_NONLINEAR_KHR,
    }]);
    assert_eq!(sc.color_format, VkFormat::VK_FORMAT_B8G8R8A8_UNORM);
    sc.set_images(vec![10, 11]);
    assert_eq!(sc.image_count, 2);
    assert_eq!(sc.buffers, vec![SwapChainBuffer { image: 10, view: 0 }, SwapChainBuffer { image: 11, view: 0 }]);
    sc.set_view(1, 99);
    sc.set_images(vec![20, 21, 22]);
    assert_eq!(
        sc.buffers,
        vec![
            SwapChainBuffer { image: 20, view: 0 },
            SwapChainBuffer { image: 21, view: 99 },
            SwapChainBuffer { image: 22, view: 0 }
        ]
    );
}

#[test]
fn vulkan_codes() {
    assert_eq!(VkFormat::VK_FORMAT_B8G8R8A8_UNORM.code(), 44);
    assert_eq!(VkFormat::VK_FORMAT_D32_SFLOAT_S8_UINT.code(), 130);
    assert_eq!(VkFormat::from_code(124), Some(VkFormat::VK_FORMAT_D16_UNORM));
    assert_eq!(VkFormat::from_code(0x7FFF_FFFE), None);
    assert_eq!(VkColorSpaceKHR::from_code(1000104008), Some(VkColorSpaceKHR::VK_COLOR_SPACE_HDR10_ST2084_EXT));
    assert_eq!(VkPresentModeKHR::VK_PRESENT_MODE_FIFO_KHR.code(), 2);
    assert_eq!(VkFormat::default(), VkFormat::VK_FORMAT_UNDEFINED);
}

#[test]
fn depth_view_aspects() {
    let r = depth_view_range(VkFormat::VK_FORMAT_D32_SFLOAT_S8_UINT);
    assert_eq!(r.aspectMask, 6);
    assert_eq!((r.baseMipLevel, r.levelCount, r.baseArrayLayer, r.layerCount), (0, 1, 0, 1));
    assert_eq!(depth_view_range(VkFormat::VK_FORMAT_D16_UNORM_S8_UINT).aspectMask, 6);
    assert_eq!(depth_view_range(VkFormat::VK_FORMAT_D32_SFLOAT).aspectMask, 2);
    assert_eq!(depth_view_range(VkFormat::VK_FORMAT_D16_UNORM).aspectMask, 2);
}
