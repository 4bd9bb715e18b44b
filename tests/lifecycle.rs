use wolf_engine::error::AppError;
use wolf_engine::lifecycle::{FramebufferSpec, Lifecycle, Stage, TeardownStep};
use wolf_engine::presentation::{Extent2D, SurfaceFormat};
use wolf_engine::selection::QueueFamilyIndices;

const FORMAT: SurfaceFormat = SurfaceFormat { format: 50, color_space: 0 };
const EXTENT: Extent2D = Extent2D { width: 800, height: 600 };
const FAMILIES: QueueFamilyIndices = QueueFamilyIndices { graphics: 0, present: 1 };

fn device_ready() -> Lifecycle {
    let mut l = Lifecycle::new();
    l.record_instance(1).unwrap();
    l.record_debug_messenger(2).unwrap();
    l.record_surface(3).unwrap();
    l.record_device(4, 5, FAMILIES, 6, 7).unwrap();
    l
}

fn fully_built() -> Lifecycle {
    let mut l = device_ready();
    l.record_swapchain(10, &vec![20, 21, 22], FORMAT, EXTENT).unwrap();
    for v in [30, 31, 32] {
        l.record_image_view(v).unwrap();
    }
    l.record_render_pass(40).unwrap();
    for f in [50, 51, 52] {
        l.record_framebuffer(f).unwrap();
    }
    l.finish_presentation().unwrap();
    l
}

#[test]
fn a_built_context_has_one_view_and_framebuffer_per_image() {
    let l = fully_built();
    assert_eq!(l.stage(), Stage::PresentationReady);
    assert_eq!(l.image_count(), 3);
    assert_eq!(l.image_view_count(), 3);
    assert_eq!(l.framebuffer_count(), 3);
    assert_eq!(l.image(1), Some(21));
    assert_eq!(l.image(3), None);
    assert_eq!(l.image_view(2), Some(32));
    assert_eq!(l.swapchain_format(), Some(FORMAT));
    assert_eq!(l.swapchain_extent(), Some(EXTENT));
    assert_eq!(l.queue_families(), Some(FAMILIES));
}

#[test]
fn teardown_runs_in_reverse_creation_order() {
    let mut l = fully_built();
    let steps = l.teardown();
    assert_eq!(
        steps,
        vec![
            TeardownStep::WaitIdle,
            TeardownStep::DestroyFramebuffer(50),
            TeardownStep::DestroyFramebuffer(51),
            TeardownStep::DestroyFramebuffer(52),
            TeardownStep::DestroyRenderPass(40),
            TeardownStep::DestroyImageView(30),
            TeardownStep::DestroyImageView(31),
            TeardownStep::DestroyImageView(32),
            TeardownStep::DestroySwapchain(10),
            TeardownStep::DestroyDebugMessenger(2),
            TeardownStep::DestroySurface(3),
            TeardownStep::DestroyDevice(5),
            TeardownStep::DestroyInstance(1),
        ]
    );
    assert_eq!(l.stage(), Stage::Uninit);
    assert_eq!(l.image_count(), 0);
    assert_eq!(l.swapchain_extent(), None);
    assert_eq!(l.queue_families(), None);
}

#[test]
fn second_teardown_destroys_nothing() {
    let mut l = fully_built();
    let first = l.teardown();
    assert_eq!(first.len(), 13);
    let second = l.teardown();
    assert!(second.is_empty());
    assert_eq!(l.stage(), Stage::Uninit);
    let mut fresh = Lifecycle::new();
    assert!(fresh.teardown().is_empty());
}

#[test]
fn teardown_skips_what_was_never_built() {
    let mut l = Lifecycle::new();
    l.record_instance(1).unwrap();
    assert_eq!(l.teardown(), vec![TeardownStep::DestroyInstance(1)]);
    let mut l = Lifecycle::new();
    l.record_instance(1).unwrap();
    l.record_debug_messenger(2).unwrap();
    l.record_surface(3).unwrap();
    assert_eq!(
        l.teardown(),
        vec![
            TeardownStep::DestroyDebugMessenger(2),
            TeardownStep::DestroySurface(3),
            TeardownStep::DestroyInstance(1),
        ]
    );
}

#[test]
fn steps_out_of_order_are_rejected() {
    let mut l = Lifecycle::new();
    assert_eq!(l.record_surface(3), Err(AppError::OutOfOrder(Stage::Uninit)));
    assert_eq!(l.record_device(4, 5, FAMILIES, 6, 7), Err(AppError::OutOfOrder(Stage::Uninit)));
    l.record_instance(1).unwrap();
    assert_eq!(l.record_instance(1), Err(AppError::OutOfOrder(Stage::InstanceReady)));
    assert_eq!(l.record_device(4, 5, FAMILIES, 6, 7), Err(AppError::OutOfOrder(Stage::InstanceReady)));
    assert_eq!(
        l.record_swapchain(10, &vec![20], FORMAT, EXTENT),
        Err(AppError::OutOfOrder(Stage::InstanceReady))
    );
    l.record_surface(3).unwrap();
    assert_eq!(l.record_surface(3), Err(AppError::OutOfOrder(Stage::InstanceReady)));
    assert_eq!(l.record_debug_messenger(2), Err(AppError::OutOfOrder(Stage::InstanceReady)));
    l.record_device(4, 5, FAMILIES, 6, 7).unwrap();
    assert_eq!(l.record_image_view(30), Err(AppError::OutOfOrder(Stage::DeviceReady)));
    assert_eq!(l.record_render_pass(40), Err(AppError::OutOfOrder(Stage::DeviceReady)));
    l.record_swapchain(10, &vec![20, 21], FORMAT, EXTENT).unwrap();
    assert_eq!(l.record_swapchain(11, &vec![20], FORMAT, EXTENT), Err(AppError::OutOfOrder(Stage::DeviceReady)));
    l.record_image_view(30).unwrap();
    assert_eq!(l.record_render_pass(40), Err(AppError::OutOfOrder(Stage::DeviceReady)));
    assert_eq!(l.record_framebuffer(50), Err(AppError::OutOfOrder(Stage::DeviceReady)));
    l.record_image_view(31).unwrap();
    assert_eq!(l.record_image_view(32), Err(AppError::OutOfOrder(Stage::DeviceReady)));
    l.record_render_pass(40).unwrap();
    l.record_framebuffer(50).unwrap();
    assert_eq!(l.finish_presentation(), Err(AppError::OutOfOrder(Stage::DeviceReady)));
    l.record_framebuffer(51).unwrap();
    assert_eq!(l.record_framebuffer(52), Err(AppError::OutOfOrder(Stage::DeviceReady)));
    l.finish_presentation().unwrap();
    assert_eq!(l.finish_presentation(), Err(AppError::OutOfOrder(Stage::PresentationReady)));
}

#[test]
fn a_failed_build_releases_what_it_created() {
    let mut l = device_ready();
    l.record_swapchain(10, &vec![20, 21, 22], FORMAT, EXTENT).unwrap();
    l.record_image_view(30).unwrap();
    let steps = l.release_presentation();
    assert_eq!(
        steps,
        vec![TeardownStep::WaitIdle, TeardownStep::DestroyImageView(30), TeardownStep::DestroySwapchain(10)]
    );
    assert_eq!(l.stage(), Stage::DeviceReady);
    assert_eq!(l.image_count(), 0);
    assert_eq!(l.image_view(0), None);
    l.record_swapchain(11, &vec![23], FORMAT, EXTENT).unwrap();
    assert_eq!(l.image(0), Some(23));
}

#[test]
fn releasing_a_built_presentation_keeps_the_device() {
    let mut l = fully_built();
    let steps = l.release_presentation();
    assert_eq!(steps.len(), 9);
    assert_eq!(steps[0], TeardownStep::WaitIdle);
    assert_eq!(steps[8], TeardownStep::DestroySwapchain(10));
    assert_eq!(l.stage(), Stage::DeviceReady);
    assert_eq!(l.queue_families(), Some(FAMILIES));
    assert_eq!(
        l.teardown(),
        vec![
            TeardownStep::WaitIdle,
            TeardownStep::DestroyDebugMessenger(2),
            TeardownStep::DestroySurface(3),
            TeardownStep::DestroyDevice(5),
            TeardownStep::DestroyInstance(1),
        ]
    );
}

#[test]
fn build_targets_follow_the_recorded_resources() {
    let mut l = device_ready();
    assert_eq!(l.next_image_for_view(), None);
    l.record_swapchain(10, &vec![20, 21], FORMAT, Extent2D { width: 1024, height: 768 }).unwrap();
    assert_eq!(l.next_image_for_view(), Some(20));
    l.record_image_view(30).unwrap();
    assert_eq!(l.next_image_for_view(), Some(21));
    assert_eq!(l.next_framebuffer(), None);
    l.record_image_view(31).unwrap();
    assert_eq!(l.next_image_for_view(), None);
    l.record_render_pass(40).unwrap();
    let first = l.next_framebuffer().unwrap();
    assert_eq!(
        first,
        FramebufferSpec { render_pass: 40, image_view: 30, width: 1024, height: 768, layers: 1 }
    );
    l.record_framebuffer(50).unwrap();
    assert_eq!(l.next_framebuffer().map(|s| s.image_view), Some(31));
    l.record_framebuffer(51).unwrap();
    assert_eq!(l.next_framebuffer(), None);
    l.finish_presentation().unwrap();
    assert_eq!(l.next_framebuffer(), None);
    assert_eq!(l.next_image_for_view(), None);
}
