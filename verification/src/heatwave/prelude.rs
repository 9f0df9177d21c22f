use vstd::prelude::*;
use std::sync::Arc;
use vstd::string::StringExecFns;
use vulkano::device::{Device, Queue};
use vulkano::image::view::ImageView;
use vulkano::image::Image;
use vulkano::instance::Instance;
use vulkano::render_pass::{Framebuffer, FramebufferCreateInfo, RenderPass};
use vulkano::swapchain::{Surface, Swapchain, SwapchainCreateInfo};
use vulkano::{Validated, VulkanError};
use winit::dpi::PhysicalSize;
use winit::event_loop::EventLoop;
use winit::window::Icon;
use winit::window::Window as OsWindow;
use crate::heatwave::devices::{
    find_device_id, has_device_id, is_default_choice, is_first_with_id, kind_priority,
    spec_image_count, DeviceCandidate,
};

verus! {

/// Makes `winit::window::Icon` (a window icon) usable in verified code; its values are opaque.
#[verifier::external_type_specification]
#[verifier::external_body]
pub struct ExIcon(Icon);

/// Makes `vulkano::instance::Instance` usable in verified code; its values are opaque.
#[verifier::external_type_specification]
#[verifier::external_body]
pub struct ExInstance(Instance);

/// Makes `vulkano::swapchain::Surface` usable in verified code; its values are opaque.
#[verifier::external_type_specification]
#[verifier::external_body]
pub struct ExSurface(Surface);

/// Makes `vulkano::device::Device` (a logical device) usable in verified code; its values are opaque.
#[verifier::external_type_specification]
#[verifier::external_body]
pub struct ExDevice(Device);

/// Makes `vulkano::device::Queue` usable in verified code; its values are opaque.
#[verifier::external_type_specification]
#[verifier::external_body]
pub struct ExQueue(Queue);

/// Makes `vulkano::swapchain::Swapchain` usable in verified code; its values are opaque.
#[verifier::external_type_specification]
#[verifier::external_body]
pub struct ExSwapchain(Swapchain);

/// Makes `vulkano::image::Image` usable in verified code; its values are opaque.
#[verifier::external_type_specification]
#[verifier::external_body]
pub struct ExImage(Image);

/// Makes `vulkano::VulkanError` usable in verified code; its values are opaque.
#[verifier::external_type_specification]
#[verifier::external_body]
pub struct ExVulkanError(VulkanError);

/// Makes `vulkano::Validated` (a driver or validation error) usable in verified code; its values are opaque.
#[verifier::external_type_specification]
#[verifier::external_body]
#[verifier::reject_recursive_types(E)]
pub struct ExValidated<E>(Validated<E>);

/// Makes `winit::window::Window` (the operating system window) usable in verified code; its values are opaque.
#[verifier::external_type_specification]
#[verifier::external_body]
pub struct ExWinitWindow(OsWindow);

/// Makes `winit::event_loop::EventLoop` usable in verified code; its values are opaque.
#[verifier::external_type_specification]
#[verifier::external_body]
#[verifier::reject_recursive_types(T)]
pub struct ExEventLoop<T: 'static>(EventLoop<T>);

/// Makes `winit::dpi::PhysicalSize` usable in verified code; its values are opaque.
#[verifier::external_type_specification]
#[verifier::external_body]
#[verifier::reject_recursive_types(P)]
pub struct ExPhysicalSize<P>(PhysicalSize<P>);

/// Calls `Arc::clone`, which hands out another pointer to the same value.
#[verifier::external_body]
fn share<T>(a: &Arc<T>) -> (r: Arc<T>)
    ensures
        r == *a,
{
    Arc::clone(a)
}

/// Calls `winit::window::Window::inner_size`: the size of the window's client
/// area in pixels. It comes from the windowing system, so nothing is stated of it.
#[verifier::external_body]
fn inner_size(window: &OsWindow) -> (r: PhysicalSize<u32>) {
    window.inner_size()
}

/// Makes `vulkano::render_pass::RenderPass` usable in verified code; its values are opaque.
#[verifier::external_type_specification]
#[verifier::external_body]
pub struct ExRenderPass(RenderPass);

/// Makes `vulkano::render_pass::Framebuffer` usable in verified code; its values are opaque.
#[verifier::external_type_specification]
#[verifier::external_body]
pub struct ExFramebuffer(Framebuffer);

/// Makes `vulkano::image::view::ImageView` usable in verified code; its values are opaque.
#[verifier::external_type_specification]
#[verifier::external_body]
pub struct ExImageView(ImageView);

/// Calls `vulkano::swapchain::Swapchain::recreate` with the swapchain's own
/// settings but for the image extent `new_size`. Whether the driver accepts it
/// is not stated. When it does, `recreate` builds a fresh `Swapchain` (so it is
/// not the old one) and wraps each of its images in a fresh `Image` whose
/// memory refers to that new swapchain, so none of them is an image that
/// existed before the call, such as one of `previous_images`; a swapchain has
/// at least one image. `previous_images` is not handed to vulkano.
#[verifier::external_body]
fn recreate_swapchain(
    swapchain: &Arc<Swapchain>,
    previous_images: &Vec<Arc<Image>>,
    new_size: PhysicalSize<u32>,
) -> (r: Result<(Arc<Swapchain>, Vec<Arc<Image>>), Validated<VulkanError>>)
    ensures
        r matches Ok((s, images)) ==> s != *swapchain,
        r matches Ok((s, images)) ==> images@.len() > 0,
        r matches Ok((s, images)) ==> forall|i: int, j: int|
            0 <= i < images@.len() && 0 <= j < previous_images@.len() ==> images@[i]
                != previous_images@[j],
{
    swapchain.recreate(SwapchainCreateInfo { image_extent: new_size.into(), ..swapchain.create_info() })
}

/// Why a window operation failed.
#[derive(Debug)]
pub enum WindowError {
    /// The driver refused to recreate the swapchain.
    SwapchainRecreation(Validated<VulkanError>),
    /// The driver refused to create a view of a swapchain image.
    ImageView(Validated<VulkanError>),
    /// The driver refused to create a framebuffer.
    Framebuffer(Validated<VulkanError>),
}

/// Calls `vulkano::image::view::ImageView::new_default`: a view of the whole
/// image in its own format. Whether the driver accepts it, and what it gives
/// back, is not stated.
#[verifier::external_body]
fn image_view_for(image: &Arc<Image>) -> (r: Result<Arc<ImageView>, Validated<VulkanError>>) {
    ImageView::new_default(image.clone())
}

/// Calls `vulkano::render_pass::Framebuffer::new` for `render_pass` with the
/// single attachment `view` and the extent taken from it. Whether the driver
/// accepts it, and what it gives back, is not stated.
#[verifier::external_body]
fn framebuffer_for(render_pass: &Arc<RenderPass>, view: Arc<ImageView>) -> (r: Result<
    Arc<Framebuffer>,
    Validated<VulkanError>,
>) {
    Framebuffer::new(
        render_pass.clone(),
        FramebufferCreateInfo { attachments: vec![view], ..Default::default() },
    )
}

/// A window whose graphics are handled by Heatwave.
pub struct Window {
    vulkan_instance: Arc<Instance>,
    window: Arc<OsWindow>,
    surface: Arc<Surface>,
    vulkan_device: Arc<Device>,
    swapchain: Arc<Swapchain>,
    queue_family_index: u32,
    event_loop: Option<EventLoop<()>>,
    images: Vec<Arc<Image>>,
    queue: Arc<Queue>,
}

/// Runs a window's event loop.
pub struct WindowRunner {
    event_loop: EventLoop<()>,
}

impl WindowRunner {
    pub closed spec fn spec_event_loop(&self) -> EventLoop<()> {
        self.event_loop
    }

    /// The event loop, for the caller to run.
    pub fn into_event_loop(self) -> (r: EventLoop<()>)
        ensures
            r == self.spec_event_loop(),
    {
        self.event_loop
    }
}

impl Window {
    pub closed spec fn spec_instance(&self) -> Arc<Instance> {
        self.vulkan_instance
    }

    pub closed spec fn spec_window(&self) -> Arc<OsWindow> {
        self.window
    }

    pub closed spec fn spec_surface(&self) -> Arc<Surface> {
        self.surface
    }

    pub closed spec fn spec_device(&self) -> Arc<Device> {
        self.vulkan_device
    }

    pub closed spec fn spec_swapchain(&self) -> Arc<Swapchain> {
        self.swapchain
    }

    pub closed spec fn spec_queue_family_index(&self) -> u32 {
        self.queue_family_index
    }

    pub closed spec fn spec_event_loop(&self) -> Option<EventLoop<()>> {
        self.event_loop
    }

    pub closed spec fn spec_images(&self) -> Seq<Arc<Image>> {
        self.images@
    }

    pub closed spec fn spec_queue(&self) -> Arc<Queue> {
        self.queue
    }

    /// Puts a window together from the objects its builder created.
    pub fn assemble(
        vulkan_instance: Arc<Instance>,
        window: Arc<OsWindow>,
        surface: Arc<Surface>,
        vulkan_device: Arc<Device>,
        swapchain: Arc<Swapchain>,
        queue_family_index: u32,
        event_loop: EventLoop<()>,
        images: Vec<Arc<Image>>,
        queue: Arc<Queue>,
    ) -> (r: Window)
        ensures
            r.spec_instance() == vulkan_instance,
            r.spec_window() == window,
            r.spec_surface() == surface,
            r.spec_device() == vulkan_device,
            r.spec_swapchain() == swapchain,
            r.spec_queue_family_index() == queue_family_index,
            r.spec_event_loop() == Some(event_loop),
            r.spec_images() == images@,
            r.spec_queue() == queue,
    {
        Window {
            vulkan_instance,
            window,
            surface,
            vulkan_device,
            swapchain,
            queue_family_index,
            event_loop: Some(event_loop),
            images,
            queue,
        }
    }

    /// The logical device.
    pub fn vulkan_device(&self) -> (r: Arc<Device>)
        ensures
            r == self.spec_device(),
    {
        share(&self.vulkan_device)
    }

    /// The current swapchain.
    pub fn swapchain(&self) -> (r: Arc<Swapchain>)
        ensures
            r == self.spec_swapchain(),
    {
        share(&self.swapchain)
    }

    /// The graphics queue.
    pub fn queue(&self) -> (r: Arc<Queue>)
        ensures
            r == self.spec_queue(),
    {
        share(&self.queue)
    }

    /// The current swapchain images.
    pub fn images(&self) -> (r: &Vec<Arc<Image>>)
        ensures
            r@ == self.spec_images(),
    {
        &self.images
    }

    /// The size of the window's drawable area, as the windowing system reports it.
    pub fn render_region_size(&self) -> PhysicalSize<u32> {
        inner_size(&self.window)
    }

    /// The number of images in the swapchain.
    pub fn image_count(&self) -> (r: usize)
        ensures
            r == self.spec_images().len(),
    {
        self.images.len()
    }

    /// One framebuffer for `render_pass` per swapchain image, each with a view
    /// of its image as the single attachment, in the order of the images. Fails
    /// with the first error the driver gives.
    pub fn get_framebuffers(&self, render_pass: &Arc<RenderPass>) -> (r: Result<
        Vec<Arc<Framebuffer>>,
        WindowError,
    >)
        ensures
            r matches Ok(framebuffers) ==> framebuffers@.len() == self.spec_images().len(),
            r matches Err(e) ==> (e is ImageView || e is Framebuffer),
    {
        let mut framebuffers: Vec<Arc<Framebuffer>> = Vec::new();
        let mut i: usize = 0;
        while i < self.images.len()
            invariant
                i <= self.images@.len(),
                framebuffers@.len() == i,
            decreases self.images@.len() - i,
        {
            let view = match image_view_for(&self.images[i]) {
                Ok(view) => view,
                Err(e) => {
                    return Err(WindowError::ImageView(e));
                },
            };
            let framebuffer = match framebuffer_for(render_pass, view) {
                Ok(framebuffer) => framebuffer,
                Err(e) => {
                    return Err(WindowError::Framebuffer(e));
                },
            };
            framebuffers.push(framebuffer);
            i = i + 1;
        }
        Ok(framebuffers)
    }

    /// Takes in what recreating the swapchain gave: on success the window holds
    /// the new swapchain and its images, on failure it is left as it was and
    /// the driver's error is handed back. Nothing else changes.
    pub fn apply_recreated_swapchain(
        &mut self,
        recreated: Result<(Arc<Swapchain>, Vec<Arc<Image>>), Validated<VulkanError>>,
    ) -> (r: Result<(), WindowError>)
        ensures
            final(self).spec_instance() == old(self).spec_instance(),
            final(self).spec_window() == old(self).spec_window(),
            final(self).spec_surface() == old(self).spec_surface(),
            final(self).spec_device() == old(self).spec_device(),
            final(self).spec_queue_family_index() == old(self).spec_queue_family_index(),
            final(self).spec_event_loop() == old(self).spec_event_loop(),
            final(self).spec_queue() == old(self).spec_queue(),
            recreated matches Ok((swapchain, images)) ==> r is Ok && final(self).spec_swapchain()
                == swapchain && final(self).spec_images() == images@,
            recreated matches Err(e) ==> r == Err::<(), WindowError>(
                WindowError::SwapchainRecreation(e),
            ) && final(self).spec_swapchain() == old(self).spec_swapchain()
                && final(self).spec_images() == old(self).spec_images(),
    {
        match recreated {
            Ok((new_swapchain, new_images)) => {
                self.swapchain = new_swapchain;
                self.images = new_images;
                Ok(())
            },
            Err(e) => Err(WindowError::SwapchainRecreation(e)),
        }
    }

    /// Recreates the swapchain for a new window size. Whether the driver
    /// succeeds is up to it; on failure the window is left as it was.
    pub fn resize(&mut self, new_size: PhysicalSize<u32>) -> (r: Result<(), WindowError>)
        ensures
            final(self).spec_instance() == old(self).spec_instance(),
            final(self).spec_window() == old(self).spec_window(),
            final(self).spec_surface() == old(self).spec_surface(),
            final(self).spec_device() == old(self).spec_device(),
            final(self).spec_queue_family_index() == old(self).spec_queue_family_index(),
            final(self).spec_event_loop() == old(self).spec_event_loop(),
            final(self).spec_queue() == old(self).spec_queue(),
            r is Err ==> final(self).spec_swapchain() == old(self).spec_swapchain()
                && final(self).spec_images() == old(self).spec_images(),
            r is Ok ==> final(self).spec_swapchain() != old(self).spec_swapchain(),
            r is Ok ==> final(self).spec_images().len() > 0,
            r is Ok ==> forall|i: int, j: int|
                0 <= i < final(self).spec_images().len() && 0 <= j < old(self).spec_images().len()
                    ==> final(self).spec_images()[i] != old(self).spec_images()[j],
    {
        let recreated = recreate_swapchain(&self.swapchain, &self.images, new_size);
        self.apply_recreated_swapchain(recreated)
    }

    /// Whether the window still holds its event loop.
    pub fn has_runner(&self) -> (r: bool)
        ensures
            r == self.spec_event_loop() is Some,
    {
        self.event_loop.is_some()
    }

    /// Hands the window's event loop over to a runner. The event loop can be
    /// taken only once.
    pub fn get_runner(&mut self) -> (r: WindowRunner)
        requires
            old(self).spec_event_loop() is Some,
        ensures
            r.spec_event_loop() == old(self).spec_event_loop()->0,
            final(self).spec_event_loop() is None,
            final(self).spec_instance() == old(self).spec_instance(),
            final(self).spec_window() == old(self).spec_window(),
            final(self).spec_surface() == old(self).spec_surface(),
            final(self).spec_device() == old(self).spec_device(),
            final(self).spec_swapchain() == old(self).spec_swapchain(),
            final(self).spec_queue_family_index() == old(self).spec_queue_family_index(),
            final(self).spec_images() == old(self).spec_images(),
            final(self).spec_queue() == old(self).spec_queue(),
    {
        let event_loop = self.event_loop.take().unwrap();
        WindowRunner { event_loop }
    }
}

/// Settings of a window that is yet to be built.
pub struct WindowBuilder {
    title: String,
    buffer_count: u8,
    icon: Option<Icon>,
    preferred_device: Option<u32>,
}

impl WindowBuilder {
    pub closed spec fn spec_title(&self) -> Seq<char> {
        self.title@
    }

    pub closed spec fn spec_buffer_count(&self) -> u8 {
        self.buffer_count
    }

    pub closed spec fn spec_icon(&self) -> Option<Icon> {
        self.icon
    }

    pub closed spec fn spec_preferred_device(&self) -> Option<u32> {
        self.preferred_device
    }

    /// A builder for a window titled "Heatwave App" with two buffers.
    pub fn new() -> (r: WindowBuilder)
        ensures
            r.spec_title() == "Heatwave App"@,
            r.spec_buffer_count() == 2,
            r.spec_icon() is None,
            r.spec_preferred_device() is None,
    {
        WindowBuilder {
            title: String::from_str("Heatwave App"),
            buffer_count: 2,
            icon: None,
            preferred_device: None,
        }
    }

    /// Sets the window's title.
    pub fn title(&mut self, new_title: String) -> (r: &mut Self)
        ensures
            r.spec_title() == new_title@,
            r.spec_buffer_count() == old(self).spec_buffer_count(),
            r.spec_icon() == old(self).spec_icon(),
            r.spec_preferred_device() == old(self).spec_preferred_device(),
            *final(self) == *final(r),
    {
        self.title = new_title;
        self
    }

    /// Sets the window's icon.
    pub fn icon(&mut self, new_icon: Icon) -> (r: &mut Self)
        ensures
            r.spec_title() == old(self).spec_title(),
            r.spec_buffer_count() == old(self).spec_buffer_count(),
            r.spec_icon() == Some(new_icon),
            r.spec_preferred_device() == old(self).spec_preferred_device(),
            *final(self) == *final(r),
    {
        self.icon = Some(new_icon);
        self
    }

    /// Sets how many images the swapchain should hold, within what the
    /// surface allows.
    pub fn buffer_count(&mut self, new_count: u8) -> (r: &mut Self)
        ensures
            r.spec_title() == old(self).spec_title(),
            r.spec_buffer_count() == new_count,
            r.spec_icon() == old(self).spec_icon(),
            r.spec_preferred_device() == old(self).spec_preferred_device(),
            *final(self) == *final(r),
    {
        self.buffer_count = new_count;
        self
    }

    /// Asks for the physical device with this device id, if it is compatible.
    pub fn with_physical_device(&mut self, device_id: u32) -> (r: &mut Self)
        ensures
            r.spec_title() == old(self).spec_title(),
            r.spec_buffer_count() == old(self).spec_buffer_count(),
            r.spec_icon() == old(self).spec_icon(),
            r.spec_preferred_device() == Some(device_id),
            *final(self) == *final(r),
    {
        self.preferred_device = Some(device_id);
        self
    }

    /// The window's title.
    pub fn window_title(&self) -> (r: &str)
        ensures
            r@ == self.spec_title(),
    {
        self.title.as_str()
    }

    /// The number of swapchain images asked for.
    pub fn requested_buffer_count(&self) -> (r: u8)
        ensures
            r == self.spec_buffer_count(),
    {
        self.buffer_count
    }

    /// The window's icon, if one was given.
    pub fn window_icon(&self) -> (r: Option<&Icon>)
        ensures
            r is Some <==> self.spec_icon() is Some,
            r matches Some(i) ==> *i == self.spec_icon()->0,
    {
        self.icon.as_ref()
    }

    /// The device id asked for with `with_physical_device`.
    pub fn preferred_device(&self) -> (r: Option<u32>)
        ensures
            r == self.spec_preferred_device(),
    {
        self.preferred_device
    }
}

impl WindowBuilder {
    /// The default device among the compatible ones: the first of the most
    /// preferred kind (discrete GPU, integrated GPU, virtual GPU, CPU, other).
    /// There must be a compatible device.
    pub fn scan_for_device(compatible_devices: &Vec<DeviceCandidate>) -> (r: usize)
        requires
            compatible_devices@.len() > 0,
        ensures
            is_default_choice(compatible_devices@, r as int),
    {
        let candidates = compatible_devices;
        let mut best: usize = 0;
        let mut i: usize = 1;
        while i < candidates.len()
            invariant
                1 <= i <= candidates@.len(),
                best < i,
                forall|j: int|
                    0 <= j < i ==> kind_priority(candidates@[best as int].kind) <= kind_priority(
                        #[trigger] candidates@[j].kind,
                    ),
                forall|j: int|
                    0 <= j < best ==> kind_priority(candidates@[best as int].kind) < kind_priority(
                        #[trigger] candidates@[j].kind,
                    ),
            decreases candidates@.len() - i,
        {
            if candidates[i].kind.priority() < candidates[best].kind.priority() {
                best = i;
            }
            i = i + 1;
        }
        best
    }

    /// The device the window renders with: the first compatible device with
    /// the preferred id when one was asked for and is there, otherwise the
    /// default device. There must be a compatible device.
    pub fn choose_device(&self, compatible_devices: &Vec<DeviceCandidate>) -> (r: usize)
        requires
            compatible_devices@.len() > 0,
        ensures
            (match self.spec_preferred_device() {
                Some(id) => has_device_id(compatible_devices@, id),
                None => false,
            }) ==> is_first_with_id(
                compatible_devices@,
                self.spec_preferred_device()->0,
                r as int,
            ),
            !(match self.spec_preferred_device() {
                Some(id) => has_device_id(compatible_devices@, id),
                None => false,
            }) ==> is_default_choice(compatible_devices@, r as int),
    {
        match self.preferred_device {
            Some(id) => match find_device_id(compatible_devices, id) {
                Some(i) => i,
                None => WindowBuilder::scan_for_device(compatible_devices),
            },
            None => WindowBuilder::scan_for_device(compatible_devices),
        }
    }

    /// How many images the swapchain holds, given the surface's minimum and
    /// maximum: one more than the minimum or the requested buffer count,
    /// whichever is larger, capped by the maximum (three if there is none).
    pub fn swapchain_image_count(&self, min_image_count: u32, max_image_count: Option<u32>) -> (r: u32)
        requires
            min_image_count < u32::MAX,
        ensures
            r == spec_image_count(min_image_count, max_image_count, self.spec_buffer_count()),
    {
        let one_more = min_image_count + 1;
        let requested = self.buffer_count as u32;
        let wanted = if one_more >= requested {
            one_more
        } else {
            requested
        };
        let cap = match max_image_count {
            Some(m) => m,
            None => 3,
        };
        if wanted <= cap {
            wanted
        } else {
            cap
        }
    }
}

impl Default for WindowBuilder {
    /// An untitled builder with no buffer count, icon or device preference.
    fn default() -> (r: WindowBuilder)
        ensures
            r.spec_title() == Seq::<char>::empty(),
            r.spec_buffer_count() == 0,
            r.spec_icon() is None,
            r.spec_preferred_device() is None,
    {
        WindowBuilder { title: String::new(), buffer_count: 0, icon: None, preferred_device: None }
    }
}

} // verus!
