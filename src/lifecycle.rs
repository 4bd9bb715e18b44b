use vstd::prelude::*;
use crate::error::AppError;
use crate::handle_list::HandleList;
use crate::presentation::{Extent2D, SurfaceFormat};
use crate::selection::QueueFamilyIndices;

verus! {

/// How far the rendering context has been built.
#[derive(Clone, Copy, Debug, PartialEq, Eq, Structural)]
pub enum Stage {
    /// Nothing exists yet.
    Uninit,
    /// The instance exists, with its debug messenger and, once created, the
    /// surface.
    InstanceReady,
    /// The logical device and its queues exist; presentation resources may be
    /// under construction.
    DeviceReady,
    /// Swapchain, image views, render pass and framebuffers are all built.
    PresentationReady,
}

/// One destructive action of a teardown, in the order it must be performed.
/// Handles are the driver's raw handle values.
#[derive(Clone, Copy, Debug, PartialEq, Eq, Structural)]
pub enum TeardownStep {
    /// Wait for the logical device to go idle. Best effort: a failure is
    /// logged and the sequence goes on.
    WaitIdle,
    DestroyFramebuffer(u64),
    DestroyRenderPass(u64),
    DestroyImageView(u64),
    DestroySwapchain(u64),
    DestroyDebugMessenger(u64),
    DestroySurface(u64),
    DestroyDevice(u64),
    DestroyInstance(u64),
}

/// What the next framebuffer is built from: the render pass, the one image
/// view it attaches, and its size in pixels and layers.
#[derive(Clone, Copy, Debug, PartialEq, Eq, Structural)]
pub struct FramebufferSpec {
    pub render_pass: u64,
    pub image_view: u64,
    pub width: u32,
    pub height: u32,
    pub layers: u32,
}

/// The abstract state of a [`Lifecycle`]: every handle it owns or refers to.
pub struct LifecycleModel {
    pub stage: Stage,
    pub instance: Option<u64>,
    pub debug_messenger: Option<u64>,
    pub surface: Option<u64>,
    pub physical_device: Option<u64>,
    pub device: Option<u64>,
    pub graphics_queue: Option<u64>,
    pub present_queue: Option<u64>,
    pub queue_families: Option<QueueFamilyIndices>,
    pub swapchain: Option<u64>,
    pub images: Seq<u64>,
    pub image_views: Seq<u64>,
    pub format: Option<SurfaceFormat>,
    pub extent: Option<Extent2D>,
    pub render_pass: Option<u64>,
    pub framebuffers: Seq<u64>,
}

/// The registry of every resource of a rendering context, built in strict
/// stages and torn down in reverse order of creation.
pub struct Lifecycle {
    stage: Stage,
    instance: Option<u64>,
    debug_messenger: Option<u64>,
    surface: Option<u64>,
    physical_device: Option<u64>,
    device: Option<u64>,
    graphics_queue: Option<u64>,
    present_queue: Option<u64>,
    queue_families: Option<QueueFamilyIndices>,
    swapchain: Option<u64>,
    images: HandleList,
    image_views: HandleList,
    format: Option<SurfaceFormat>,
    extent: Option<Extent2D>,
    render_pass: Option<u64>,
    framebuffers: HandleList,
}

/// The most handles a list can be asked to hold.
pub open spec fn handle_limit() -> int {
    0x0800_0000_0000_0000
}

pub open spec fn empty_model() -> LifecycleModel {
    LifecycleModel {
        stage: Stage::Uninit,
        instance: None,
        debug_messenger: None,
        surface: None,
        physical_device: None,
        device: None,
        graphics_queue: None,
        present_queue: None,
        queue_families: None,
        swapchain: None,
        images: Seq::empty(),
        image_views: Seq::empty(),
        format: None,
        extent: None,
        render_pass: None,
        framebuffers: Seq::empty(),
    }
}

/// No presentation resource is recorded.
pub open spec fn presentation_empty(m: LifecycleModel) -> bool {
    &&& m.swapchain is None
    &&& m.images.len() == 0
    &&& m.image_views.len() == 0
    &&& m.format is None
    &&& m.extent is None
    &&& m.render_pass is None
    &&& m.framebuffers.len() == 0
}

/// The presentation resources form a prefix of the build order: swapchain
/// (with its images), image views, render pass, framebuffers.
pub open spec fn presentation_partial(m: LifecycleModel) -> bool {
    &&& m.swapchain is None ==> presentation_empty(m)
    &&& m.swapchain is Some ==> m.format is Some && m.extent is Some
    &&& m.images.len() < handle_limit()
    &&& m.image_views.len() <= m.images.len()
    &&& m.render_pass is Some ==> m.image_views.len() == m.images.len()
    &&& m.framebuffers.len() <= m.image_views.len()
    &&& m.framebuffers.len() > 0 ==> m.render_pass is Some
}

/// Every presentation resource is built: one view and one framebuffer per
/// swapchain image.
pub open spec fn presentation_complete(m: LifecycleModel) -> bool {
    &&& presentation_partial(m)
    &&& m.swapchain is Some
    &&& m.render_pass is Some
    &&& m.image_views.len() == m.images.len()
    &&& m.framebuffers.len() == m.image_views.len()
}

pub open spec fn device_absent(m: LifecycleModel) -> bool {
    &&& m.physical_device is None
    &&& m.device is None
    &&& m.graphics_queue is None
    &&& m.present_queue is None
    &&& m.queue_families is None
}

pub open spec fn device_present(m: LifecycleModel) -> bool {
    &&& m.instance is Some
    &&& m.surface is Some
    &&& m.physical_device is Some
    &&& m.device is Some
    &&& m.graphics_queue is Some
    &&& m.present_queue is Some
    &&& m.queue_families is Some
}

/// What each stage has built, and that nothing outlives what it depends on.
pub open spec fn model_wf(m: LifecycleModel) -> bool {
    match m.stage {
        Stage::Uninit => m == empty_model(),
        Stage::InstanceReady => m.instance is Some && device_absent(m) && presentation_empty(m),
        Stage::DeviceReady => device_present(m) && presentation_partial(m),
        Stage::PresentationReady => device_present(m) && presentation_complete(m),
    }
}

pub open spec fn wait_step(device: Option<u64>) -> Seq<TeardownStep> {
    if device is Some {
        seq![TeardownStep::WaitIdle]
    } else {
        Seq::empty()
    }
}

pub open spec fn framebuffer_steps(hs: Seq<u64>) -> Seq<TeardownStep> {
    hs.map_values(|h: u64| TeardownStep::DestroyFramebuffer(h))
}

pub open spec fn image_view_steps(hs: Seq<u64>) -> Seq<TeardownStep> {
    hs.map_values(|h: u64| TeardownStep::DestroyImageView(h))
}

pub open spec fn render_pass_step(h: Option<u64>) -> Seq<TeardownStep> {
    match h {
        Some(x) => seq![TeardownStep::DestroyRenderPass(x)],
        None => Seq::empty(),
    }
}

pub open spec fn swapchain_step(h: Option<u64>) -> Seq<TeardownStep> {
    match h {
        Some(x) => seq![TeardownStep::DestroySwapchain(x)],
        None => Seq::empty(),
    }
}

pub open spec fn debug_messenger_step(h: Option<u64>) -> Seq<TeardownStep> {
    match h {
        Some(x) => seq![TeardownStep::DestroyDebugMessenger(x)],
        None => Seq::empty(),
    }
}

pub open spec fn surface_step(h: Option<u64>) -> Seq<TeardownStep> {
    match h {
        Some(x) => seq![TeardownStep::DestroySurface(x)],
        None => Seq::empty(),
    }
}

pub open spec fn device_step(h: Option<u64>) -> Seq<TeardownStep> {
    match h {
        Some(x) => seq![TeardownStep::DestroyDevice(x)],
        None => Seq::empty(),
    }
}

pub open spec fn instance_step(h: Option<u64>) -> Seq<TeardownStep> {
    match h {
        Some(x) => seq![TeardownStep::DestroyInstance(x)],
        None => Seq::empty(),
    }
}

/// Releasing the presentation resources: wait for the device, then destroy
/// all framebuffers, the render pass, all image views and the swapchain.
pub open spec fn release_plan(m: LifecycleModel) -> Seq<TeardownStep> {
    wait_step(m.device) + framebuffer_steps(m.framebuffers) + render_pass_step(m.render_pass)
        + image_view_steps(m.image_views) + swapchain_step(m.swapchain)
}

/// The state once the presentation resources are released; device and
/// instance objects stay.
pub open spec fn released(m: LifecycleModel) -> LifecycleModel {
    LifecycleModel {
        stage: if m.stage == Stage::PresentationReady {
            Stage::DeviceReady
        } else {
            m.stage
        },
        swapchain: None,
        images: Seq::empty(),
        image_views: Seq::empty(),
        format: None,
        extent: None,
        render_pass: None,
        framebuffers: Seq::empty(),
        ..m
    }
}

/// A full teardown: the presentation resources as above, then the debug
/// messenger, the surface, the logical device and the instance.
pub open spec fn teardown_plan(m: LifecycleModel) -> Seq<TeardownStep> {
    release_plan(m) + debug_messenger_step(m.debug_messenger) + surface_step(m.surface)
        + device_step(m.device) + instance_step(m.instance)
}

impl View for Lifecycle {
    type V = LifecycleModel;

    closed spec fn view(&self) -> LifecycleModel {
        LifecycleModel {
            stage: self.stage,
            instance: self.instance,
            debug_messenger: self.debug_messenger,
            surface: self.surface,
            physical_device: self.physical_device,
            device: self.device,
            graphics_queue: self.graphics_queue,
            present_queue: self.present_queue,
            queue_families: self.queue_families,
            swapchain: self.swapchain,
            images: self.images@,
            image_views: self.image_views@,
            format: self.format,
            extent: self.extent,
            render_pass: self.render_pass,
            framebuffers: self.framebuffers@,
        }
    }
}

impl Lifecycle {
    pub open spec fn wf(&self) -> bool {
        model_wf(self@)
    }

    /// A registry with nothing built.
    pub fn new() -> (r: Lifecycle)
        ensures
            r@ == empty_model(),
            r.wf(),
    {
        Lifecycle {
            stage: Stage::Uninit,
            instance: None,
            debug_messenger: None,
            surface: None,
            physical_device: None,
            device: None,
            graphics_queue: None,
            present_queue: None,
            queue_families: None,
            swapchain: None,
            images: HandleList::new(),
            image_views: HandleList::new(),
            format: None,
            extent: None,
            render_pass: None,
            framebuffers: HandleList::new(),
        }
    }

    /// Records the created instance. Admitted only before anything else is
    /// built.
    pub fn record_instance(&mut self, instance: u64) -> (r: Result<(), AppError>)
        requires
            old(self).wf(),
        ensures
            final(self).wf(),
            old(self)@.stage == Stage::Uninit ==> r is Ok && final(self)@ == (LifecycleModel {
                stage: Stage::InstanceReady,
                instance: Some(instance),
                ..empty_model()
            }),
            old(self)@.stage != Stage::Uninit ==> r == Err::<(), AppError>(AppError::OutOfOrder(old(self)@.stage))
                && final(self)@ == old(self)@,
    {
        if self.stage != Stage::Uninit {
            return Err(AppError::OutOfOrder(self.stage));
        }
        self.instance = Some(instance);
        self.stage = Stage::InstanceReady;
        Ok(())
    }

    /// Records the standing debug messenger. Admitted once, after the
    /// instance and before the surface.
    pub fn record_debug_messenger(&mut self, messenger: u64) -> (r: Result<(), AppError>)
        requires
            old(self).wf(),
        ensures
            final(self).wf(),
            old(self)@.stage == Stage::InstanceReady && old(self)@.debug_messenger is None
                && old(self)@.surface is None ==> r is Ok
                && final(self)@ == (LifecycleModel { debug_messenger: Some(messenger), ..old(self)@ }),
            !(old(self)@.stage == Stage::InstanceReady && old(self)@.debug_messenger is None
                && old(self)@.surface is None) ==> r == Err::<(), AppError>(
                AppError::OutOfOrder(old(self)@.stage),
            ) && final(self)@ == old(self)@,
    {
        if self.stage != Stage::InstanceReady || self.debug_messenger.is_some() || self.surface.is_some() {
            return Err(AppError::OutOfOrder(self.stage));
        }
        self.debug_messenger = Some(messenger);
        Ok(())
    }

    /// Records the window surface. Admitted once, after the instance and
    /// before the device.
    pub fn record_surface(&mut self, surface: u64) -> (r: Result<(), AppError>)
        requires
            old(self).wf(),
        ensures
            final(self).wf(),
            old(self)@.stage == Stage::InstanceReady && old(self)@.surface is None ==> r is Ok
                && final(self)@ == (LifecycleModel { surface: Some(surface), ..old(self)@ }),
            !(old(self)@.stage == Stage::InstanceReady && old(self)@.surface is None) ==> r == Err::<(), AppError>(
                AppError::OutOfOrder(old(self)@.stage),
            ) && final(self)@ == old(self)@,
    {
        if self.stage != Stage::InstanceReady || self.surface.is_some() {
            return Err(AppError::OutOfOrder(self.stage));
        }
        self.surface = Some(surface);
        Ok(())
    }

    /// Records the chosen physical device, the logical device created on it,
    /// the queue families and the queues obtained. Admitted once the instance
    /// and the surface exist, and only once.
    pub fn record_device(
        &mut self,
        physical_device: u64,
        device: u64,
        families: QueueFamilyIndices,
        graphics_queue: u64,
        present_queue: u64,
    ) -> (r: Result<(), AppError>)
        requires
            old(self).wf(),
        ensures
            final(self).wf(),
            old(self)@.stage == Stage::InstanceReady && old(self)@.surface is Some ==> r is Ok
                && final(self)@ == (LifecycleModel {
                stage: Stage::DeviceReady,
                physical_device: Some(physical_device),
                device: Some(device),
                queue_families: Some(families),
                graphics_queue: Some(graphics_queue),
                present_queue: Some(present_queue),
                ..old(self)@
            }),
            !(old(self)@.stage == Stage::InstanceReady && old(self)@.surface is Some) ==> r == Err::<(), AppError>(
                AppError::OutOfOrder(old(self)@.stage),
            ) && final(self)@ == old(self)@,
    {
        if self.stage != Stage::InstanceReady || self.surface.is_none() {
            return Err(AppError::OutOfOrder(self.stage));
        }
        self.physical_device = Some(physical_device);
        self.device = Some(device);
        self.queue_families = Some(families);
        self.graphics_queue = Some(graphics_queue);
        self.present_queue = Some(present_queue);
        self.stage = Stage::DeviceReady;
        Ok(())
    }

    /// Records the created swapchain with its images and the format and extent
    /// it was created with. Admitted once the device exists and no swapchain
    /// is recorded.
    pub fn record_swapchain(&mut self, swapchain: u64, images: &Vec<u64>, format: SurfaceFormat, extent: Extent2D) -> (r: Result<(), AppError>)
        requires
            old(self).wf(),
            images@.len() < handle_limit(),
        ensures
            final(self).wf(),
            old(self)@.stage == Stage::DeviceReady && old(self)@.swapchain is None ==> r is Ok
                && final(self)@ == (LifecycleModel {
                swapchain: Some(swapchain),
                images: images@,
                format: Some(format),
                extent: Some(extent),
                ..old(self)@
            }),
            !(old(self)@.stage == Stage::DeviceReady && old(self)@.swapchain is None) ==> r == Err::<(), AppError>(
                AppError::OutOfOrder(old(self)@.stage),
            ) && final(self)@ == old(self)@,
    {
        if self.stage != Stage::DeviceReady || self.swapchain.is_some() {
            return Err(AppError::OutOfOrder(self.stage));
        }
        let mut list = HandleList::new();
        let mut i: usize = 0;
        while i < images.len()
            invariant
                i <= images@.len(),
                images@.len() < handle_limit(),
                list@ == images@.take(i as int),
            decreases images@.len() - i,
        {
            list.push(images[i]);
            assert(images@.take(i + 1) =~= images@.take(i as int).push(images@[i as int]));
            i = i + 1;
        }
        assert(images@.take(i as int) =~= images@);
        self.images = list;
        self.swapchain = Some(swapchain);
        self.format = Some(format);
        self.extent = Some(extent);
        assert(self@ =~= (LifecycleModel {
            swapchain: Some(swapchain),
            images: images@,
            format: Some(format),
            extent: Some(extent),
            ..old(self)@
        }));
        Ok(())
    }

    /// Records the image view created for the next swapchain image that has
    /// none. Admitted while some image lacks its view.
    pub fn record_image_view(&mut self, view: u64) -> (r: Result<(), AppError>)
        requires
            old(self).wf(),
        ensures
            final(self).wf(),
            old(self)@.stage == Stage::DeviceReady && old(self)@.swapchain is Some
                && old(self)@.image_views.len() < old(self)@.images.len() ==> r is Ok
                && final(self)@ == (LifecycleModel {
                image_views: old(self)@.image_views.push(view),
                ..old(self)@
            }),
            !(old(self)@.stage == Stage::DeviceReady && old(self)@.swapchain is Some
                && old(self)@.image_views.len() < old(self)@.images.len()) ==> r == Err::<(), AppError>(
                AppError::OutOfOrder(old(self)@.stage),
            ) && final(self)@ == old(self)@,
    {
        if self.stage != Stage::DeviceReady || self.swapchain.is_none()
            || self.image_views.len() >= self.images.len() {
            return Err(AppError::OutOfOrder(self.stage));
        }
        self.image_views.push(view);
        assert(self@ =~= (LifecycleModel {
            image_views: old(self)@.image_views.push(view),
            ..old(self)@
        }));
        Ok(())
    }

    /// Records the render pass. Admitted once every swapchain image has its
    /// view, and only once.
    pub fn record_render_pass(&mut self, render_pass: u64) -> (r: Result<(), AppError>)
        requires
            old(self).wf(),
        ensures
            final(self).wf(),
            old(self)@.stage == Stage::DeviceReady && old(self)@.swapchain is Some
                && old(self)@.render_pass is None
                && old(self)@.image_views.len() == old(self)@.images.len() ==> r is Ok
                && final(self)@ == (LifecycleModel { render_pass: Some(render_pass), ..old(self)@ }),
            !(old(self)@.stage == Stage::DeviceReady && old(self)@.swapchain is Some
                && old(self)@.render_pass is None
                && old(self)@.image_views.len() == old(self)@.images.len()) ==> r == Err::<(), AppError>(
                AppError::OutOfOrder(old(self)@.stage),
            ) && final(self)@ == old(self)@,
    {
        if self.stage != Stage::DeviceReady || self.swapchain.is_none() || self.render_pass.is_some()
            || self.image_views.len() != self.images.len() {
            return Err(AppError::OutOfOrder(self.stage));
        }
        self.render_pass = Some(render_pass);
        Ok(())
    }

    /// Records the framebuffer created for the next image view that has none.
    /// Admitted once the render pass exists, while some view lacks its
    /// framebuffer.
    pub fn record_framebuffer(&mut self, framebuffer: u64) -> (r: Result<(), AppError>)
        requires
            old(self).wf(),
        ensures
            final(self).wf(),
            old(self)@.stage == Stage::DeviceReady && old(self)@.render_pass is Some
                && old(self)@.framebuffers.len() < old(self)@.image_views.len() ==> r is Ok
                && final(self)@ == (LifecycleModel {
                framebuffers: old(self)@.framebuffers.push(framebuffer),
                ..old(self)@
            }),
            !(old(self)@.stage == Stage::DeviceReady && old(self)@.render_pass is Some
                && old(self)@.framebuffers.len() < old(self)@.image_views.len()) ==> r == Err::<(), AppError>(
                AppError::OutOfOrder(old(self)@.stage),
            ) && final(self)@ == old(self)@,
    {
        if self.stage != Stage::DeviceReady || self.render_pass.is_none()
            || self.framebuffers.len() >= self.image_views.len() {
            return Err(AppError::OutOfOrder(self.stage));
        }
        self.framebuffers.push(framebuffer);
        assert(self@ =~= (LifecycleModel {
            framebuffers: old(self)@.framebuffers.push(framebuffer),
            ..old(self)@
        }));
        Ok(())
    }

    /// The swapchain image that the next image view is to be created for,
    /// while some image lacks its view.
    pub fn next_image_for_view(&self) -> (r: Option<u64>)
        requires
            self.wf(),
        ensures
            self@.stage == Stage::DeviceReady && self@.swapchain is Some
                && self@.image_views.len() < self@.images.len() ==> r == Some(
                self@.images[self@.image_views.len() as int],
            ),
            !(self@.stage == Stage::DeviceReady && self@.swapchain is Some
                && self@.image_views.len() < self@.images.len()) ==> r is None,
    {
        if self.stage != Stage::DeviceReady || self.swapchain.is_none() {
            return None;
        }
        let done = self.image_views.len();
        if done < self.images.len() {
            Some(self.images.get(done))
        } else {
            None
        }
    }

    /// How the next framebuffer is to be built, while some image view lacks
    /// its framebuffer: one framebuffer per image view, in order, each sized
    /// to the swapchain extent with one layer and bound to the render pass.
    pub fn next_framebuffer(&self) -> (r: Option<FramebufferSpec>)
        requires
            self.wf(),
        ensures
            self@.stage == Stage::DeviceReady && self@.render_pass is Some
                && self@.framebuffers.len() < self@.image_views.len() ==> r == Some(
                FramebufferSpec {
                    render_pass: self@.render_pass->0,
                    image_view: self@.image_views[self@.framebuffers.len() as int],
                    width: self@.extent->0.width,
                    height: self@.extent->0.height,
                    layers: 1,
                },
            ),
            !(self@.stage == Stage::DeviceReady && self@.render_pass is Some
                && self@.framebuffers.len() < self@.image_views.len()) ==> r is None,
    {
        if self.stage != Stage::DeviceReady {
            return None;
        }
        let render_pass = match self.render_pass {
            Some(h) => h,
            None => return None,
        };
        let extent = match self.extent {
            Some(e) => e,
            None => return None,
        };
        let done = self.framebuffers.len();
        if done < self.image_views.len() {
            Some(FramebufferSpec {
                render_pass,
                image_view: self.image_views.get(done),
                width: extent.width,
                height: extent.height,
                layers: 1,
            })
        } else {
            None
        }
    }

    /// Marks the presentation as built. Admitted once the render pass exists
    /// and every image view has its framebuffer; from then on there are as
    /// many image views and framebuffers as swapchain images.
    pub fn finish_presentation(&mut self) -> (r: Result<(), AppError>)
        requires
            old(self).wf(),
        ensures
            final(self).wf(),
            old(self)@.stage == Stage::DeviceReady && old(self)@.render_pass is Some
                && old(self)@.framebuffers.len() == old(self)@.image_views.len() ==> r is Ok
                && final(self)@ == (LifecycleModel { stage: Stage::PresentationReady, ..old(self)@ }),
            !(old(self)@.stage == Stage::DeviceReady && old(self)@.render_pass is Some
                && old(self)@.framebuffers.len() == old(self)@.image_views.len()) ==> r == Err::<(), AppError>(
                AppError::OutOfOrder(old(self)@.stage),
            ) && final(self)@ == old(self)@,
            r is Ok ==> final(self)@.image_views.len() == final(self)@.images.len()
                && final(self)@.framebuffers.len() == final(self)@.images.len(),
    {
        if self.stage != Stage::DeviceReady || self.render_pass.is_none()
            || self.framebuffers.len() != self.image_views.len() {
            return Err(AppError::OutOfOrder(self.stage));
        }
        self.stage = Stage::PresentationReady;
        Ok(())
    }

    /// Releases the presentation resources: returns the steps that destroy
    /// them, framebuffers first and swapchain last, preceded by a wait for the
    /// device, and forgets them. Instance, surface and device stay, so that
    /// the presentation can be built again (after a resize, or after a build
    /// that failed half way).
    pub fn release_presentation(&mut self) -> (r: Vec<TeardownStep>)
        requires
            old(self).wf(),
        ensures
            final(self).wf(),
            r@ == release_plan(old(self)@),
            final(self)@ == released(old(self)@),
    {
        let mut steps: Vec<TeardownStep> = Vec::new();
        if self.device.is_some() {
            steps.push(TeardownStep::WaitIdle);
        }
        let ghost base = steps@;
        let n = self.framebuffers.len();
        let mut i: usize = 0;
        while i < n
            invariant
                n == self.framebuffers@.len(),
                i <= n,
                steps@ == base + framebuffer_steps(self.framebuffers@.take(i as int)),
            decreases n - i,
        {
            let h = self.framebuffers.get(i);
            steps.push(TeardownStep::DestroyFramebuffer(h));
            proof {
                assert(framebuffer_steps(self.framebuffers@.take(i + 1)) =~= framebuffer_steps(
                    self.framebuffers@.take(i as int),
                ).push(TeardownStep::DestroyFramebuffer(h)));
            }
            i = i + 1;
        }
        assert(self.framebuffers@.take(n as int) =~= self.framebuffers@);
        match self.render_pass {
            Some(h) => steps.push(TeardownStep::DestroyRenderPass(h)),
            None => {},
        }
        let ghost base = steps@;
        let n = self.image_views.len();
        let mut i: usize = 0;
        while i < n
            invariant
                n == self.image_views@.len(),
                i <= n,
                steps@ == base + image_view_steps(self.image_views@.take(i as int)),
            decreases n - i,
        {
            let h = self.image_views.get(i);
            steps.push(TeardownStep::DestroyImageView(h));
            proof {
                assert(image_view_steps(self.image_views@.take(i + 1)) =~= image_view_steps(
                    self.image_views@.take(i as int),
                ).push(TeardownStep::DestroyImageView(h)));
            }
            i = i + 1;
        }
        assert(self.image_views@.take(n as int) =~= self.image_views@);
        match self.swapchain {
            Some(h) => steps.push(TeardownStep::DestroySwapchain(h)),
            None => {},
        }
        assert(steps@ =~= release_plan(old(self)@));

        self.framebuffers.clear();
        self.render_pass = None;
        self.image_views.clear();
        self.swapchain = None;
        self.images.clear();
        self.format = None;
        self.extent = None;
        if self.stage == Stage::PresentationReady {
            self.stage = Stage::DeviceReady;
        }
        assert(self@ =~= released(old(self)@));
        steps
    }

    /// Tears the whole context down: returns, in order, the steps that
    /// release the presentation resources, then destroy the debug messenger,
    /// the surface, the logical device and the instance, each only if it
    /// exists; then forgets every handle. A second call returns no step.
    pub fn teardown(&mut self) -> (r: Vec<TeardownStep>)
        requires
            old(self).wf(),
        ensures
            final(self).wf(),
            r@ == teardown_plan(old(self)@),
            final(self)@ == empty_model(),
    {
        let debug_messenger = self.debug_messenger;
        let surface = self.surface;
        let device = self.device;
        let instance = self.instance;
        let mut steps = self.release_presentation();
        match debug_messenger {
            Some(h) => steps.push(TeardownStep::DestroyDebugMessenger(h)),
            None => {},
        }
        match surface {
            Some(h) => steps.push(TeardownStep::DestroySurface(h)),
            None => {},
        }
        match device {
            Some(h) => steps.push(TeardownStep::DestroyDevice(h)),
            None => {},
        }
        match instance {
            Some(h) => steps.push(TeardownStep::DestroyInstance(h)),
            None => {},
        }
        assert(steps@ =~= teardown_plan(old(self)@));
        *self = Lifecycle::new();
        steps
    }

    pub fn stage(&self) -> (r: Stage)
        ensures
            r == self@.stage,
    {
        self.stage
    }
    pub fn image_count(&self) -> (r: usize)
        ensures
            r == self@.images.len(),
    {
        self.images.len()
    }

    pub fn image_view_count(&self) -> (r: usize)
        ensures
            r == self@.image_views.len(),
    {
        self.image_views.len()
    }

    pub fn framebuffer_count(&self) -> (r: usize)
        ensures
            r == self@.framebuffers.len(),
    {
        self.framebuffers.len()
    }

    /// The swapchain image at position `i`, if there is one.
    pub fn image(&self, i: usize) -> (r: Option<u64>)
        ensures
            i < self@.images.len() ==> r == Some(self@.images[i as int]),
            i >= self@.images.len() ==> r is None,
    {
        if i < self.images.len() {
            Some(self.images.get(i))
        } else {
            None
        }
    }

    /// The image view at position `i`, if there is one.
    pub fn image_view(&self, i: usize) -> (r: Option<u64>)
        ensures
            i < self@.image_views.len() ==> r == Some(self@.image_views[i as int]),
            i >= self@.image_views.len() ==> r is None,
    {
        if i < self.image_views.len() {
            Some(self.image_views.get(i))
        } else {
            None
        }
    }

    pub fn swapchain_format(&self) -> (r: Option<SurfaceFormat>)
        ensures
            r == self@.format,
    {
        self.format
    }

    pub fn swapchain_extent(&self) -> (r: Option<Extent2D>)
        ensures
            r == self@.extent,
    {
        self.extent
    }

    pub fn queue_families(&self) -> (r: Option<QueueFamilyIndices>)
        ensures
            r == self@.queue_families,
    {
        self.queue_families
    }
}

/// A second teardown destroys nothing: the state a teardown leaves is well
/// formed, its own teardown has no step, so two teardowns in a row perform
/// exactly the steps of the first.
pub proof fn lemma_teardown_idempotent(m: LifecycleModel)
    requires
        model_wf(m),
    ensures
        model_wf(empty_model()),
        teardown_plan(empty_model()) == Seq::<TeardownStep>::empty(),
        teardown_plan(m) + teardown_plan(empty_model()) == teardown_plan(m),
{
    assert(framebuffer_steps(Seq::empty()) =~= Seq::<TeardownStep>::empty());
    assert(image_view_steps(Seq::empty()) =~= Seq::<TeardownStep>::empty());
    assert(teardown_plan(empty_model()) =~= Seq::<TeardownStep>::empty());
    assert(teardown_plan(m) + teardown_plan(empty_model()) =~= teardown_plan(m));
}

/// Once the presentation is built there are as many image views and as many
/// framebuffers as swapchain images.
pub proof fn lemma_presentation_counts(m: LifecycleModel)
    requires
        model_wf(m),
        m.stage == Stage::PresentationReady,
    ensures
        m.image_views.len() == m.images.len(),
        m.framebuffers.len() == m.images.len(),
{
}

} // verus!
