use vulkanalia::vk;
use wolf_engine::diagnostics::{
    messenger_filter, route_message, LogLevel, CATEGORY_GENERAL, CATEGORY_PERFORMANCE,
    CATEGORY_VALIDATION, SEVERITY_ERROR, SEVERITY_INFO, SEVERITY_VERBOSE, SEVERITY_WARNING,
};
use wolf_engine::error::{AppError, DriverCall};
use wolf_engine::negotiate::{negotiate_capabilities, PlatformConfig};
use wolf_engine::presentation::{
    choose_extent, choose_image_count, image_view_layout, choose_present_mode, choose_surface_format, plan_swapchain,
    render_pass_layout, Extent2D, SurfaceCapabilities, SurfaceFormat, COLOR_SPACE_SRGB_NONLINEAR,
    FORMAT_B8G8R8A8_SRGB, PRESENT_MODE_FIFO, PRESENT_MODE_MAILBOX,
};
use wolf_engine::selection::{
    device_extensions, find_queue_families, queue_family_requests, select_device,
    QueueFamilyIndices, QueueFamilySupport,
};

fn names(v: &[&str]) -> Vec<String> {
    v.iter().map(|s| s.to_string()).collect()
}

const DEBUG: PlatformConfig = PlatformConfig { debug_diagnostics: true, portability_enumeration: false };

#[test]
fn missing_validation_layer_gives_no_layers() {
    let required = names(&["VK_KHR_surface", "VK_KHR_xlib_surface"]);
    let available = names(&["VK_LAYER_MESA_device_select"]);
    let offered = names(&["VK_KHR_surface", "VK_EXT_debug_utils", "VK_KHR_xlib_surface"]);
    let caps = negotiate_capabilities(&required, &offered, &available, DEBUG);
    assert!(caps.layers.is_empty());
    assert!(caps.debug_utils);
    assert_eq!(caps.extensions, names(&["VK_KHR_surface", "VK_KHR_xlib_surface", "VK_EXT_debug_utils"]));
    let none = negotiate_capabilities(&required, &offered, &Vec::new(), DEBUG);
    assert!(none.layers.is_empty());
}

#[test]
fn advertised_validation_layer_is_enabled_in_debug_only() {
    let required = names(&["VK_KHR_surface"]);
    let available = names(&["VK_LAYER_MESA_device_select", "VK_LAYER_KHRONOS_validation"]);
    let offered = names(&["VK_KHR_surface", "VK_EXT_debug_utils"]);
    let caps = negotiate_capabilities(&required, &offered, &available, DEBUG);
    assert_eq!(caps.layers, names(&["VK_LAYER_KHRONOS_validation"]));
    let release = PlatformConfig { debug_diagnostics: false, portability_enumeration: false };
    let caps = negotiate_capabilities(&required, &offered, &available, release);
    assert!(caps.layers.is_empty());
    assert_eq!(caps.extensions, names(&["VK_KHR_surface"]));
    assert!(!caps.enumerate_portability);
    assert!(!caps.debug_utils);
}

#[test]
fn extension_names_are_not_duplicated() {
    let required = names(&["VK_KHR_surface", "VK_EXT_debug_utils", "VK_KHR_surface"]);
    let config = PlatformConfig { debug_diagnostics: true, portability_enumeration: true };
    let offered = names(&["VK_EXT_debug_utils"]);
    let caps = negotiate_capabilities(&required, &offered, &Vec::new(), config);
    assert_eq!(
        caps.extensions,
        names(&["VK_KHR_surface", "VK_EXT_debug_utils", "VK_KHR_portability_enumeration"])
    );
    assert!(caps.enumerate_portability);
}

#[test]
fn extension_names_match_the_driver_headers() {
    let debug = vk::EXT_DEBUG_UTILS_EXTENSION.name.to_string_lossy();
    let portability = vk::KHR_PORTABILITY_ENUMERATION_EXTENSION.name.to_string_lossy();
    let config = PlatformConfig { debug_diagnostics: true, portability_enumeration: true };
    let offered = vec![debug.to_string()];
    let caps = negotiate_capabilities(&Vec::new(), &offered, &Vec::new(), config);
    assert_eq!(caps.extensions, vec![debug.to_string(), portability.to_string()]);
    let swapchain = vk::KHR_SWAPCHAIN_EXTENSION.name.to_string_lossy();
    assert_eq!(device_extensions(&Vec::new()), vec![swapchain.to_string()]);
}

#[test]
fn sentinel_extent_falls_back_to_default_size() {
    let e = choose_extent(Extent2D { width: 0xFFFF_FFFF, height: 0xFFFF_FFFF });
    assert_eq!(e, Extent2D { width: 800, height: 600 });
    let e = choose_extent(Extent2D { width: 0xFFFF_FFFF, height: 17 });
    assert_eq!(e, Extent2D { width: 800, height: 600 });
}

#[test]
fn reported_extent_is_kept_unmodified() {
    let reported = Extent2D { width: 1920, height: 1080 };
    assert_eq!(choose_extent(reported), reported);
    let odd = Extent2D { width: 0, height: 0 };
    assert_eq!(choose_extent(odd), odd);
}

#[test]
fn image_count_is_one_above_minimum_within_maximum() {
    assert_eq!(choose_image_count(2, 3), 3);
    assert_eq!(choose_image_count(2, 8), 3);
    assert_eq!(choose_image_count(2, 0), 3);
    assert_eq!(choose_image_count(1, 2), 2);
    assert_eq!(choose_image_count(3, 3), 3);
    assert_eq!(choose_image_count(u32::MAX, 5), 5);
    for min in 0..6u32 {
        for max in (min + 1)..10u32 {
            let c = choose_image_count(min, max);
            assert!(min < c && c <= max);
        }
        assert_eq!(choose_image_count(min, 0), min + 1);
    }
}

fn fmt(format: i32, color_space: i32) -> SurfaceFormat {
    SurfaceFormat { format, color_space }
}

#[test]
fn preferred_format_is_chosen_anywhere_in_the_list() {
    let preferred = fmt(FORMAT_B8G8R8A8_SRGB, COLOR_SPACE_SRGB_NONLINEAR);
    let list = vec![fmt(44, 0), fmt(37, 0), preferred];
    assert_eq!(choose_surface_format(&list), Some(preferred));
    let list = vec![preferred, fmt(44, 0)];
    assert_eq!(choose_surface_format(&list), Some(preferred));
}

#[test]
fn first_format_is_chosen_without_the_preferred_one() {
    let list = vec![fmt(44, 0), fmt(FORMAT_B8G8R8A8_SRGB, 1000104001), fmt(37, 0)];
    assert_eq!(choose_surface_format(&list), Some(fmt(44, 0)));
    assert_eq!(choose_surface_format(&Vec::new()), None);
}

#[test]
fn preferred_codes_match_the_driver_headers() {
    assert_eq!(vk::Format::B8G8R8A8_SRGB.as_raw(), FORMAT_B8G8R8A8_SRGB);
    assert_eq!(vk::ColorSpaceKHR::SRGB_NONLINEAR.as_raw(), COLOR_SPACE_SRGB_NONLINEAR);
    assert_eq!(vk::PresentModeKHR::MAILBOX.as_raw(), PRESENT_MODE_MAILBOX);
    assert_eq!(vk::PresentModeKHR::FIFO.as_raw(), PRESENT_MODE_FIFO);
    assert_eq!(vk::DebugUtilsMessageSeverityFlagsEXT::ERROR.bits(), SEVERITY_ERROR);
    assert_eq!(vk::DebugUtilsMessageSeverityFlagsEXT::WARNING.bits(), SEVERITY_WARNING);
    assert_eq!(vk::DebugUtilsMessageTypeFlagsEXT::PERFORMANCE.bits(), CATEGORY_PERFORMANCE);
}

#[test]
fn mailbox_is_chosen_when_advertised() {
    let modes = vec![PRESENT_MODE_FIFO, 0, PRESENT_MODE_MAILBOX];
    assert_eq!(choose_present_mode(&modes), PRESENT_MODE_MAILBOX);
}

#[test]
fn fifo_is_the_fallback_present_mode() {
    assert_eq!(choose_present_mode(&vec![0, 3]), PRESENT_MODE_FIFO);
    assert_eq!(choose_present_mode(&Vec::new()), PRESENT_MODE_FIFO);
}

fn caps(min: u32, max: u32, width: u32, height: u32) -> SurfaceCapabilities {
    SurfaceCapabilities {
        min_image_count: min,
        max_image_count: max,
        current_extent: Extent2D { width, height },
        current_transform: 1,
    }
}

#[test]
fn swapchain_plan_combines_the_choices() {
    let formats = vec![fmt(44, 0), fmt(FORMAT_B8G8R8A8_SRGB, COLOR_SPACE_SRGB_NONLINEAR)];
    let plan = plan_swapchain(caps(2, 0, 0xFFFF_FFFF, 0), &formats, &vec![PRESENT_MODE_MAILBOX]).unwrap();
    assert_eq!(plan.format, fmt(FORMAT_B8G8R8A8_SRGB, COLOR_SPACE_SRGB_NONLINEAR));
    assert_eq!(plan.extent, Extent2D { width: 800, height: 600 });
    assert_eq!(plan.present_mode, PRESENT_MODE_MAILBOX);
    assert_eq!(plan.image_count, 3);
    assert_eq!(plan.pre_transform, 1);
}

#[test]
fn unusable_surfaces_are_rejected() {
    let modes = vec![PRESENT_MODE_FIFO];
    let r = plan_swapchain(caps(2, 3, 640, 480), &Vec::new(), &modes);
    assert_eq!(r, Err(AppError::UnusableSurface));
    let r = plan_swapchain(caps(u32::MAX, 0, 640, 480), &vec![fmt(44, 0)], &modes);
    assert_eq!(r, Err(AppError::UnusableSurface));
}

fn fam(graphics: bool, present: bool) -> QueueFamilySupport {
    QueueFamilySupport { graphics, present }
}

#[test]
fn first_eligible_device_is_selected() {
    let a = vec![fam(true, false)];
    let b = vec![fam(true, true)];
    let c = vec![fam(true, true), fam(false, true)];
    let s = select_device(&vec![a, b, c]).unwrap();
    assert_eq!(s.device_index, 1);
    assert_eq!(s.families, QueueFamilyIndices { graphics: 0, present: 0 });
}

#[test]
fn no_eligible_device_selects_nothing() {
    let a = vec![fam(true, false)];
    let b = vec![fam(false, true)];
    assert_eq!(select_device(&vec![a, b, Vec::new()]), None);
    assert_eq!(select_device(&Vec::new()), None);
}

#[test]
fn queue_families_may_differ() {
    let f = vec![fam(false, true), fam(true, false), fam(false, false)];
    assert_eq!(find_queue_families(&f), Some(QueueFamilyIndices { graphics: 1, present: 0 }));
    let f = vec![fam(true, true), fam(true, false), fam(false, true)];
    assert_eq!(find_queue_families(&f), Some(QueueFamilyIndices { graphics: 1, present: 2 }));
}

#[test]
fn shared_family_gets_a_single_request() {
    let r = queue_family_requests(QueueFamilyIndices { graphics: 2, present: 2 });
    assert_eq!(r, vec![2]);
    let r = queue_family_requests(QueueFamilyIndices { graphics: 0, present: 3 });
    assert_eq!(r, vec![0, 3]);
}

#[test]
fn portability_subset_is_enabled_when_offered() {
    let offered = names(&["VK_KHR_swapchain", "VK_KHR_portability_subset"]);
    assert_eq!(device_extensions(&offered), names(&["VK_KHR_swapchain", "VK_KHR_portability_subset"]));
    let plain = names(&["VK_KHR_swapchain", "VK_KHR_maintenance1"]);
    assert_eq!(device_extensions(&plain), names(&["VK_KHR_swapchain"]));
}

#[test]
fn diagnostics_are_routed_by_severity() {
    let f = messenger_filter();
    assert_eq!(f.severities, 0x1100);
    assert_eq!(f.categories, 0x7);
    assert_eq!(route_message(SEVERITY_ERROR, CATEGORY_VALIDATION), Some(LogLevel::Error));
    assert_eq!(route_message(SEVERITY_ERROR | SEVERITY_WARNING, CATEGORY_GENERAL), Some(LogLevel::Error));
    assert_eq!(route_message(SEVERITY_WARNING, CATEGORY_PERFORMANCE), Some(LogLevel::Warn));
    assert_eq!(route_message(SEVERITY_INFO, CATEGORY_GENERAL), None);
    assert_eq!(route_message(SEVERITY_VERBOSE, CATEGORY_VALIDATION), None);
    assert_eq!(route_message(SEVERITY_ERROR, 0x8), None);
}

#[test]
fn driver_failures_map_to_typed_errors() {
    assert_eq!(AppError::from_driver(DriverCall::CreateInstance, -3), AppError::InstanceCreationFailed(-3));
    assert_eq!(AppError::from_driver(DriverCall::CreateSurface, -7), AppError::SurfaceCreationFailed(-7));
    assert_eq!(AppError::from_driver(DriverCall::CreateDevice, -8), AppError::DeviceCreationFailed(-8));
    assert_eq!(AppError::from_driver(DriverCall::CreateSwapchain, -4), AppError::SwapchainCreationFailed(-4));
    assert_eq!(AppError::from_driver(DriverCall::CreateImageView, -2), AppError::ImageViewCreationFailed(-2));
    assert_eq!(AppError::from_driver(DriverCall::CreateRenderPass, -1), AppError::RenderPassCreationFailed(-1));
    assert_eq!(AppError::from_driver(DriverCall::CreateFramebuffer, -2), AppError::FramebufferCreationFailed(-2));
    assert_eq!(
        AppError::from_driver(DriverCall::QuerySurfaceFormats, -1000000000),
        AppError::DriverError(-1000000000, DriverCall::QuerySurfaceFormats)
    );
}

#[test]
fn render_pass_has_one_cleared_color_attachment_for_presentation() {
    let layout = render_pass_layout(fmt(44, 0));
    assert_eq!(layout.format, 44);
    assert_eq!(layout.samples, vk::SampleCountFlags::_1.bits());
    assert_eq!(layout.load_op, vk::AttachmentLoadOp::CLEAR.as_raw());
    assert_eq!(layout.store_op, vk::AttachmentStoreOp::STORE.as_raw());
    assert_eq!(layout.stencil_load_op, vk::AttachmentLoadOp::DONT_CARE.as_raw());
    assert_eq!(layout.stencil_store_op, vk::AttachmentStoreOp::DONT_CARE.as_raw());
    assert_eq!(layout.initial_layout, vk::ImageLayout::UNDEFINED.as_raw());
    assert_eq!(layout.final_layout, vk::ImageLayout::PRESENT_SRC_KHR.as_raw());
    assert_eq!(layout.subpass_color_attachment, 0);
    assert_eq!(layout.subpass_color_layout, vk::ImageLayout::COLOR_ATTACHMENT_OPTIMAL.as_raw());
}

#[test]
fn debug_utils_is_enabled_only_when_the_driver_offers_it() {
    let required = names(&["VK_KHR_surface"]);
    let layers = names(&["VK_LAYER_KHRONOS_validation"]);
    let caps = negotiate_capabilities(&required, &names(&["VK_KHR_surface"]), &layers, DEBUG);
    assert!(!caps.debug_utils);
    assert_eq!(caps.extensions, names(&["VK_KHR_surface"]));
    assert_eq!(caps.layers, names(&["VK_LAYER_KHRONOS_validation"]));
    let config = PlatformConfig { debug_diagnostics: true, portability_enumeration: true };
    let caps = negotiate_capabilities(&required, &Vec::new(), &Vec::new(), config);
    assert!(!caps.debug_utils);
    assert_eq!(caps.extensions, names(&["VK_KHR_surface", "VK_KHR_portability_enumeration"]));
    let offered = names(&["VK_EXT_debug_utils"]);
    let caps = negotiate_capabilities(&required, &offered, &Vec::new(), DEBUG);
    assert!(caps.debug_utils);
    assert_eq!(caps.extensions, names(&["VK_KHR_surface", "VK_EXT_debug_utils"]));
}

#[test]
fn swapchain_plan_fixes_exclusive_color_attachment_settings() {
    let plan = plan_swapchain(caps(2, 3, 640, 480), &vec![fmt(44, 0)], &vec![PRESENT_MODE_FIFO]).unwrap();
    assert_eq!(plan.image_array_layers, 1);
    assert_eq!(plan.image_usage, vk::ImageUsageFlags::COLOR_ATTACHMENT.bits());
    assert_eq!(plan.sharing_mode, vk::SharingMode::EXCLUSIVE.as_raw());
    assert_eq!(plan.composite_alpha, vk::CompositeAlphaFlagsKHR::OPAQUE.bits());
    assert!(plan.clipped);
    assert_eq!(plan.extent, Extent2D { width: 640, height: 480 });
    assert_eq!(plan.present_mode, PRESENT_MODE_FIFO);
    assert_eq!(plan.format, fmt(44, 0));
}

#[test]
fn image_views_are_single_level_color_views() {
    let layout = image_view_layout(fmt(FORMAT_B8G8R8A8_SRGB, COLOR_SPACE_SRGB_NONLINEAR));
    assert_eq!(layout.view_type, vk::ImageViewType::_2D.as_raw());
    assert_eq!(layout.format, FORMAT_B8G8R8A8_SRGB);
    assert_eq!(layout.swizzle, vk::ComponentSwizzle::IDENTITY.as_raw());
    assert_eq!(layout.aspect_mask, vk::ImageAspectFlags::COLOR.bits());
    assert_eq!((layout.base_mip_level, layout.level_count), (0, 1));
    assert_eq!((layout.base_array_layer, layout.layer_count), (0, 1));
    assert_eq!(image_view_layout(fmt(44, 0)).format, 44);
}
