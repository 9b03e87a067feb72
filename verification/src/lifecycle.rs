//! The lifecycle of a presentation surface.
//!
//! A [`Renderer`] keeps what is known of the device and the swapchain it
//! renders with, and decides what is to be done next. It does none of the work
//! on the graphics driver itself: the caller does, and tells the renderer how
//! it went by an [`Event`]; the renderer answers with the next [`Action`].
//! What the caller wants to decide for the renderer goes into a
//! [`RendererConfig`].
//!
//! ```text
//! Uninitialized -> DeviceSelected -> DeviceReady -> SwapchainReady
//! SwapchainReady -> Rendering | Stale -> SwapchainReady
//! any state -> Destroyed
//! ```

use vstd::prelude::*;
use vulkano::device::physical::PhysicalDeviceType;
use crate::device::{
    choose_device, resolve_selection, PhysicalDeviceInfo, Priority, Selection, PRIORITY_HALF_BITS,
};
use crate::error::RenderError;
use crate::swapchain::{
    choose_plan, extent_changed, extent_for, is_stale_for, plan_for, resolve_plan, Extent,
    SurfaceCapabilities, SwapchainPlan,
};

verus! {

/// Where a renderer stands in its lifecycle.
#[derive(Clone, Copy, Debug, PartialEq, Eq, Structural)]
pub enum Phase {
    /// Nothing was chosen yet.
    Uninitialized,
    /// A physical device and a queue family were chosen.
    DeviceSelected,
    /// The logical device and its draw queue exist.
    DeviceReady,
    /// A swapchain that fits the surface exists.
    SwapchainReady,
    /// A frame is being drawn.
    Rendering,
    /// The swapchain no longer fits the surface.
    Stale,
    /// The renderer was dropped, or could not be constructed.
    Destroyed,
}

/// The logical device that is to be created: on which physical device, with
/// one queue of which family at which priority, and with the extension that
/// swapchains need.
#[derive(Clone, Copy, Debug, PartialEq, Eq, Structural)]
pub struct DeviceRequest {
    pub device: usize,
    pub queue_family: usize,
    pub priority: Priority,
    pub swapchain_extension: bool,
}

/// What happened outside the renderer.
#[derive(Debug)]
pub enum Event {
    /// The physical devices were enumerated; what each can do for the surface
    /// is given in the order of enumeration.
    DevicesEnumerated(Vec<PhysicalDeviceInfo>),
    /// The logical device was created and handed out this many queues.
    DeviceCreated(u32),
    /// The logical device was not created.
    DeviceRejected,
    /// The surface reported its capabilities.
    SurfaceQueried(SurfaceCapabilities),
    /// The capabilities of the surface could not be had.
    SurfaceQueryFailed,
    /// The swapchain that was asked for exists.
    SwapchainCreated,
    /// The swapchain that was asked for was refused.
    SwapchainRejected,
    /// The window was resized.
    SurfaceResized,
    /// A frame is to be rendered; the surface now reports this extent.
    FrameRequested(Option<Extent>),
    /// The frame was drawn and handed to the display.
    FramePresented,
    /// Acquiring or presenting an image found the swapchain out of date. The
    /// image, if one was acquired, has been given back.
    FrameOutOfDate,
    /// Drawing failed otherwise. The image, if one was acquired, has been
    /// given back.
    FrameFailed,
    /// The renderer is being dropped.
    Dropped,
}

/// What the caller has to do next.
#[derive(Clone, Copy, Debug, PartialEq, Eq)]
pub enum Action {
    /// Create the logical device and take one queue from it.
    CreateDevice(DeviceRequest),
    /// Query the capabilities of the surface.
    QuerySurface,
    /// Create a swapchain with these parameters, in place of the one there is.
    CreateSwapchain(SwapchainPlan),
    /// Acquire an image, draw the frame and present it.
    Draw,
    /// Nothing: what was under way has succeeded.
    Done,
    /// Release what the renderer owns: swapchain images and swapchain if a
    /// swapchain exists, then queue and device if a device exists.
    Release { swapchain: bool, device: bool },
    /// Report this error to whoever asked.
    Fail(RenderError),
}

/// What a renderer holds of the graphics driver and of the window.
#[derive(Clone, Copy, Debug, PartialEq, Eq, Structural)]
pub enum Resource {
    SwapchainImages,
    Swapchain,
    Queue,
    Device,
    Surface,
    Instance,
}

impl Resource {
    /// The resource was made from the logical device and dies before it.
    pub open spec fn device_owned(self) -> bool {
        self == Resource::SwapchainImages || self == Resource::Swapchain || self
            == Resource::Queue
    }
}

/// The order in which a renderer lets go of what it holds, the reverse of the
/// order in which it came by it: the images and the swapchain if there are
/// any, then the queue and the device if there are any, then its hold on the
/// surface and on the instance.
pub open spec fn release_sequence(swapchain: bool, device: bool) -> Seq<Resource> {
    let presentation = if swapchain {
        seq![Resource::SwapchainImages, Resource::Swapchain]
    } else {
        Seq::<Resource>::empty()
    };
    let logical = if device {
        seq![Resource::Queue, Resource::Device]
    } else {
        Seq::<Resource>::empty()
    };
    presentation + logical + seq![Resource::Surface, Resource::Instance]
}

/// `first` is released before `second` wherever both are released.
pub open spec fn released_before(order: Seq<Resource>, first: Resource, second: Resource) -> bool {
    forall|i: int, j: int|
        0 <= i < order.len() && 0 <= j < order.len() && order[i] == first && order[j] == second
            ==> i < j
}

/// The order of release for a `Release` action. Whatever the device owns goes
/// before the device, and the device goes before the instance.
pub fn release_order(swapchain: bool, device: bool) -> (order: Vec<Resource>)
    ensures
        order@ == release_sequence(swapchain, device),
        released_before(order@, Resource::SwapchainImages, Resource::Swapchain),
        released_before(order@, Resource::SwapchainImages, Resource::Device),
        released_before(order@, Resource::Swapchain, Resource::Device),
        released_before(order@, Resource::Queue, Resource::Device),
        released_before(order@, Resource::Swapchain, Resource::Surface),
        released_before(order@, Resource::Device, Resource::Instance),
{
    let mut order: Vec<Resource> = Vec::new();
    if swapchain {
        order.push(Resource::SwapchainImages);
        order.push(Resource::Swapchain);
    }
    if device {
        order.push(Resource::Queue);
        order.push(Resource::Device);
    }
    order.push(Resource::Surface);
    order.push(Resource::Instance);
    proof {
        assert(order@ =~= release_sequence(swapchain, device));
        lemma_release_order(swapchain, device);
    }
    order
}

/// What the caller may decide in the renderer's place. What is left open,
/// the renderer decides when it gets there.
#[derive(Clone, Copy, Debug, PartialEq, Eq)]
pub struct RendererConfig {
    /// The device and queue family to use, by their places in the
    /// enumeration. Left open, the first device that will do is used.
    pub physical: Option<Selection>,
    /// The parameters of the swapchain. Its extent counts only for a surface
    /// that has none of its own. Left open, the parameters are chosen from
    /// what the surface can do.
    pub swapchain: Option<SwapchainPlan>,
    /// The priority of the draw queue.
    pub priority: Priority,
}

impl RendererConfig {
    /// The configuration that leaves everything open and asks for the draw
    /// queue at priority one half.
    pub fn new() -> (config: RendererConfig)
        ensures
            config.physical is None,
            config.swapchain is None,
            config.priority.spec_bits() == PRIORITY_HALF_BITS,
    {
        RendererConfig { physical: None, swapchain: None, priority: Priority::half() }
    }

    /// A renderer that goes by this configuration and has done nothing yet.
    pub fn build(self) -> (renderer: Renderer)
        ensures
            renderer@ == RendererModel::initial(self),
            renderer@.consistent(),
    {
        Renderer {
            phase: Phase::Uninitialized,
            config: self,
            selection: None,
            description: None,
            pending: None,
            swapchain: None,
            dimensions: Extent { width: 0, height: 0 },
        }
    }
}

/// A renderer as a mathematical value.
pub struct RendererModel {
    pub phase: Phase,
    /// What the caller has decided.
    pub config: RendererConfig,
    /// The chosen device and queue family.
    pub selection: Option<Selection>,
    /// Name and kind of the chosen device.
    pub description: Option<(Seq<char>, PhysicalDeviceType)>,
    /// The swapchain that was asked for and not answered yet.
    pub pending: Option<SwapchainPlan>,
    /// The swapchain that exists.
    pub swapchain: Option<SwapchainPlan>,
    /// The extent of the swapchain that exists.
    pub dimensions: Extent,
}

impl RendererModel {
    /// The renderer before anything has happened.
    pub open spec fn initial(config: RendererConfig) -> RendererModel {
        RendererModel {
            phase: Phase::Uninitialized,
            config,
            selection: None,
            description: None,
            pending: None,
            swapchain: None,
            dimensions: Extent { width: 0, height: 0 },
        }
    }

    /// The renderer after it was dropped or its construction has failed.
    pub open spec fn destroyed(self) -> RendererModel {
        RendererModel { phase: Phase::Destroyed, pending: None, swapchain: None, ..self }
    }

    /// The swapchain parameters the renderer asks for on a surface with the
    /// given capabilities.
    pub open spec fn plan(self, caps: SurfaceCapabilities) -> Result<SwapchainPlan, RenderError> {
        resolve_plan(self.config.swapchain, caps)
    }

    /// The device exists and a swapchain can be asked for.
    pub open spec fn awaits_swapchain(self) -> bool {
        self.phase == Phase::DeviceReady || self.phase == Phase::Stale
    }

    /// The logical device exists.
    pub open spec fn has_device(self) -> bool {
        self.phase == Phase::DeviceReady || self.phase == Phase::SwapchainReady || self.phase
            == Phase::Rendering || self.phase == Phase::Stale
    }

    /// What holds of every renderer that was reached from an initial one: the
    /// device is known from its selection on, a swapchain exists exactly from
    /// `SwapchainReady` on and the cached dimensions are its extent, and a
    /// swapchain is only asked for while none fits.
    pub open spec fn consistent(self) -> bool {
        &&& (self.phase == Phase::Uninitialized ==> self.selection is None && self.description
            is None)
        &&& (self.phase == Phase::DeviceSelected || self.has_device() ==> self.selection is Some
            && self.description is Some)
        &&& (self.phase == Phase::SwapchainReady || self.phase == Phase::Rendering || self.phase
            == Phase::Stale <==> self.swapchain is Some)
        &&& (self.swapchain matches Some(plan) ==> self.dimensions == plan.extent)
        &&& (self.pending is Some ==> self.awaits_swapchain())
    }

    pub open spec fn on_devices(self, devices: Seq<PhysicalDeviceInfo>) -> (RendererModel, Action) {
        if self.phase != Phase::Uninitialized {
            (self, Action::Fail(RenderError::UnexpectedEvent))
        } else {
            match resolve_selection(self.config.physical, devices) {
                Ok(selection) => (
                    RendererModel {
                        phase: Phase::DeviceSelected,
                        selection: Some(selection),
                        description: Some(
                            (
                                devices[selection.device as int].name@,
                                devices[selection.device as int].ty,
                            ),
                        ),
                        ..self
                    },
                    Action::CreateDevice(
                        DeviceRequest {
                            device: selection.device,
                            queue_family: selection.queue_family,
                            priority: self.config.priority,
                            swapchain_extension: true,
                        },
                    ),
                ),
                Err(error) => (self.destroyed(), Action::Fail(error)),
            }
        }
    }

    pub open spec fn on_device_created(self, queues: u32) -> (RendererModel, Action) {
        if self.phase != Phase::DeviceSelected {
            (self, Action::Fail(RenderError::UnexpectedEvent))
        } else if queues == 0 {
            (self.destroyed(), Action::Fail(RenderError::DeviceCreationFailed))
        } else {
            (RendererModel { phase: Phase::DeviceReady, ..self }, Action::QuerySurface)
        }
    }

    pub open spec fn on_device_rejected(self) -> (RendererModel, Action) {
        if self.phase != Phase::DeviceSelected {
            (self, Action::Fail(RenderError::UnexpectedEvent))
        } else {
            (self.destroyed(), Action::Fail(RenderError::DeviceCreationFailed))
        }
    }

    pub open spec fn on_surface(self, caps: SurfaceCapabilities) -> (RendererModel, Action) {
        if !self.awaits_swapchain() {
            (self, Action::Fail(RenderError::UnexpectedEvent))
        } else {
            match self.plan(caps) {
                Ok(plan) => (
                    RendererModel { pending: Some(plan), ..self },
                    Action::CreateSwapchain(plan),
                ),
                Err(error) => (RendererModel { pending: None, ..self }, Action::Fail(error)),
            }
        }
    }

    pub open spec fn on_surface_failed(self) -> (RendererModel, Action) {
        if !self.awaits_swapchain() {
            (self, Action::Fail(RenderError::UnexpectedEvent))
        } else {
            (
                RendererModel { pending: None, ..self },
                Action::Fail(RenderError::SurfaceCapabilitiesUnavailable),
            )
        }
    }

    pub open spec fn on_swapchain_created(self) -> (RendererModel, Action) {
        if self.awaits_swapchain() && self.pending is Some {
            let plan = self.pending->0;
            (
                RendererModel {
                    phase: Phase::SwapchainReady,
                    pending: None,
                    swapchain: Some(plan),
                    dimensions: plan.extent,
                    ..self
                },
                Action::Done,
            )
        } else {
            (self, Action::Fail(RenderError::UnexpectedEvent))
        }
    }

    pub open spec fn on_swapchain_rejected(self) -> (RendererModel, Action) {
        if self.awaits_swapchain() && self.pending is Some {
            (
                RendererModel { pending: None, ..self },
                Action::Fail(RenderError::SwapchainCreationFailed),
            )
        } else {
            (self, Action::Fail(RenderError::UnexpectedEvent))
        }
    }

    pub open spec fn on_resized(self) -> (RendererModel, Action) {
        if self.phase == Phase::SwapchainReady || self.phase == Phase::Stale {
            (RendererModel { phase: Phase::Stale, pending: None, ..self }, Action::QuerySurface)
        } else if self.phase == Phase::DeviceReady {
            (RendererModel { pending: None, ..self }, Action::QuerySurface)
        } else {
            (self, Action::Fail(RenderError::UnexpectedEvent))
        }
    }

    pub open spec fn on_frame_requested(self, current: Option<Extent>) -> (RendererModel, Action) {
        if self.phase == Phase::SwapchainReady {
            if is_stale_for(self.dimensions, current) {
                (RendererModel { phase: Phase::Stale, ..self }, Action::QuerySurface)
            } else {
                (RendererModel { phase: Phase::Rendering, ..self }, Action::Draw)
            }
        } else if self.awaits_swapchain() {
            (RendererModel { pending: None, ..self }, Action::QuerySurface)
        } else {
            (self, Action::Fail(RenderError::UnexpectedEvent))
        }
    }

    pub open spec fn on_presented(self) -> (RendererModel, Action) {
        if self.phase == Phase::Rendering {
            (RendererModel { phase: Phase::SwapchainReady, ..self }, Action::Done)
        } else {
            (self, Action::Fail(RenderError::UnexpectedEvent))
        }
    }

    pub open spec fn on_out_of_date(self) -> (RendererModel, Action) {
        if self.phase == Phase::Rendering {
            (
                RendererModel { phase: Phase::Stale, ..self },
                Action::Fail(RenderError::SwapchainOutOfDate),
            )
        } else {
            (self, Action::Fail(RenderError::UnexpectedEvent))
        }
    }

    pub open spec fn on_frame_failed(self) -> (RendererModel, Action) {
        if self.phase == Phase::Rendering {
            (
                RendererModel { phase: Phase::SwapchainReady, ..self },
                Action::Fail(RenderError::FrameFailed),
            )
        } else {
            (self, Action::Fail(RenderError::UnexpectedEvent))
        }
    }

    pub open spec fn on_dropped(self) -> (RendererModel, Action) {
        if self.phase == Phase::Destroyed {
            (self, Action::Done)
        } else {
            (
                self.destroyed(),
                Action::Release { swapchain: self.swapchain is Some, device: self.has_device() },
            )
        }
    }

    /// The renderer after an event, and the action it answers with. An event
    /// that cannot happen in the state leaves the state as it is and is
    /// answered with `Fail(UnexpectedEvent)`.
    pub open spec fn transition(self, event: Event) -> (RendererModel, Action) {
        match event {
            Event::DevicesEnumerated(devices) => self.on_devices(devices@),
            Event::DeviceCreated(queues) => self.on_device_created(queues),
            Event::DeviceRejected => self.on_device_rejected(),
            Event::SurfaceQueried(caps) => self.on_surface(caps),
            Event::SurfaceQueryFailed => self.on_surface_failed(),
            Event::SwapchainCreated => self.on_swapchain_created(),
            Event::SwapchainRejected => self.on_swapchain_rejected(),
            Event::SurfaceResized => self.on_resized(),
            Event::FrameRequested(current) => self.on_frame_requested(current),
            Event::FramePresented => self.on_presented(),
            Event::FrameOutOfDate => self.on_out_of_date(),
            Event::FrameFailed => self.on_frame_failed(),
            Event::Dropped => self.on_dropped(),
        }
    }

    /// The renderer after an event.
    pub open spec fn after(self, event: Event) -> RendererModel {
        self.transition(event).0
    }

    /// One round of swapchain creation: the capabilities are reported and the
    /// swapchain that is asked for is created.
    pub open spec fn created(self, caps: SurfaceCapabilities) -> RendererModel {
        self.after(Event::SurfaceQueried(caps)).after(Event::SwapchainCreated)
    }

    /// One round of swapchain recreation after a resize.
    pub open spec fn recreated(self, caps: SurfaceCapabilities) -> RendererModel {
        self.after(Event::SurfaceResized).created(caps)
    }

    /// The renderer after one round of recreation for each entry of `resizes`,
    /// in order.
    pub open spec fn recreated_all(self, resizes: Seq<SurfaceCapabilities>) -> RendererModel
        decreases resizes.len(),
    {
        if resizes.len() == 0 {
            self
        } else {
            self.recreated_all(resizes.drop_last()).recreated(resizes.last())
        }
    }
}

/// The state of the surface lifecycle.
#[derive(Debug)]
pub struct Renderer {
    phase: Phase,
    config: RendererConfig,
    selection: Option<Selection>,
    description: Option<(String, PhysicalDeviceType)>,
    pending: Option<SwapchainPlan>,
    swapchain: Option<SwapchainPlan>,
    dimensions: Extent,
}

impl View for Renderer {
    type V = RendererModel;

    closed spec fn view(&self) -> RendererModel {
        RendererModel {
            phase: self.phase,
            config: self.config,
            selection: self.selection,
            description: match self.description {
                Some((name, ty)) => Some((name@, ty)),
                None => None,
            },
            pending: self.pending,
            swapchain: self.swapchain,
            dimensions: self.dimensions,
        }
    }
}

impl Renderer {
    /// A renderer that has done nothing yet and decides everything itself:
    /// `RendererConfig::new().build()`.
    pub fn new() -> (renderer: Renderer)
        ensures
            renderer@ == RendererModel::initial(renderer@.config),
            renderer@.config.physical is None,
            renderer@.config.swapchain is None,
            renderer@.config.priority.spec_bits() == PRIORITY_HALF_BITS,
            renderer@.consistent(),
    {
        RendererConfig::new().build()
    }

    /// What the caller has decided.
    pub fn config(&self) -> (config: RendererConfig)
        ensures
            config == self@.config,
    {
        self.config
    }

    pub fn phase(&self) -> (phase: Phase)
        ensures
            phase == self@.phase,
    {
        self.phase
    }

    /// The extent of the swapchain that exists.
    pub fn dimensions(&self) -> (dimensions: Extent)
        ensures
            dimensions == self@.dimensions,
    {
        self.dimensions
    }

    pub fn selection(&self) -> (selection: Option<Selection>)
        ensures
            selection == self@.selection,
    {
        self.selection
    }

    pub fn swapchain(&self) -> (swapchain: Option<SwapchainPlan>)
        ensures
            swapchain == self@.swapchain,
    {
        self.swapchain
    }

    /// The name of the chosen device.
    pub fn device_name(&self) -> (name: Option<&String>)
        ensures
            match name {
                Some(name) => self@.description matches Some(d) && d.0 == name@,
                None => self@.description is None,
            },
    {
        match &self.description {
            Some(description) => Some(&description.0),
            None => None,
        }
    }

    /// The kind of the chosen device.
    pub fn device_type(&self) -> (ty: Option<PhysicalDeviceType>)
        ensures
            match ty {
                Some(ty) => self@.description matches Some(d) && d.1 == ty,
                None => self@.description is None,
            },
    {
        match &self.description {
            Some(description) => Some(description.1),
            None => None,
        }
    }

    fn destroy(&mut self)
        ensures
            final(self)@ == old(self)@.destroyed(),
    {
        self.phase = Phase::Destroyed;
        self.pending = None;
        self.swapchain = None;
    }

    fn devices_enumerated(&mut self, devices: Vec<PhysicalDeviceInfo>) -> (action: Action)
        ensures
            (final(self)@, action) == old(self)@.on_devices(devices@),
    {
        match self.phase {
            Phase::Uninitialized => {},
            _ => {
                return Action::Fail(RenderError::UnexpectedEvent);
            },
        }
        match choose_device(self.config.physical, &devices) {
            Ok(selection) => {
                let name = devices[selection.device].name.clone();
                let ty = devices[selection.device].ty;
                self.phase = Phase::DeviceSelected;
                self.selection = Some(selection);
                self.description = Some((name, ty));
                Action::CreateDevice(
                    DeviceRequest {
                        device: selection.device,
                        queue_family: selection.queue_family,
                        priority: self.config.priority,
                        swapchain_extension: true,
                    },
                )
            },
            Err(error) => {
                self.destroy();
                Action::Fail(error)
            },
        }
    }

    fn device_created(&mut self, queues: u32) -> (action: Action)
        ensures
            (final(self)@, action) == old(self)@.on_device_created(queues),
    {
        match self.phase {
            Phase::DeviceSelected => {
                if queues == 0 {
                    self.destroy();
                    Action::Fail(RenderError::DeviceCreationFailed)
                } else {
                    self.phase = Phase::DeviceReady;
                    Action::QuerySurface
                }
            },
            _ => Action::Fail(RenderError::UnexpectedEvent),
        }
    }

    fn device_rejected(&mut self) -> (action: Action)
        ensures
            (final(self)@, action) == old(self)@.on_device_rejected(),
    {
        match self.phase {
            Phase::DeviceSelected => {
                self.destroy();
                Action::Fail(RenderError::DeviceCreationFailed)
            },
            _ => Action::Fail(RenderError::UnexpectedEvent),
        }
    }

    fn awaits_swapchain(&self) -> (awaits: bool)
        ensures
            awaits == self@.awaits_swapchain(),
    {
        match self.phase {
            Phase::DeviceReady | Phase::Stale => true,
            _ => false,
        }
    }

    fn surface_queried(&mut self, caps: &SurfaceCapabilities) -> (action: Action)
        ensures
            (final(self)@, action) == old(self)@.on_surface(*caps),
    {
        if !self.awaits_swapchain() {
            return Action::Fail(RenderError::UnexpectedEvent);
        }
        match choose_plan(self.config.swapchain, caps) {
            Ok(plan) => {
                self.pending = Some(plan);
                Action::CreateSwapchain(plan)
            },
            Err(error) => {
                self.pending = None;
                Action::Fail(error)
            },
        }
    }

    fn surface_query_failed(&mut self) -> (action: Action)
        ensures
            (final(self)@, action) == old(self)@.on_surface_failed(),
    {
        if !self.awaits_swapchain() {
            return Action::Fail(RenderError::UnexpectedEvent);
        }
        self.pending = None;
        Action::Fail(RenderError::SurfaceCapabilitiesUnavailable)
    }

    fn swapchain_created(&mut self) -> (action: Action)
        ensures
            (final(self)@, action) == old(self)@.on_swapchain_created(),
    {
        if !self.awaits_swapchain() {
            return Action::Fail(RenderError::UnexpectedEvent);
        }
        match self.pending {
            Some(plan) => {
                self.phase = Phase::SwapchainReady;
                self.pending = None;
                self.swapchain = Some(plan);
                self.dimensions = plan.extent;
                Action::Done
            },
            None => Action::Fail(RenderError::UnexpectedEvent),
        }
    }

    fn swapchain_rejected(&mut self) -> (action: Action)
        ensures
            (final(self)@, action) == old(self)@.on_swapchain_rejected(),
    {
        if !self.awaits_swapchain() {
            return Action::Fail(RenderError::UnexpectedEvent);
        }
        match self.pending {
            Some(_) => {
                self.pending = None;
                Action::Fail(RenderError::SwapchainCreationFailed)
            },
            None => Action::Fail(RenderError::UnexpectedEvent),
        }
    }

    fn surface_resized(&mut self) -> (action: Action)
        ensures
            (final(self)@, action) == old(self)@.on_resized(),
    {
        match self.phase {
            Phase::SwapchainReady | Phase::Stale => {
                self.phase = Phase::Stale;
                self.pending = None;
                Action::QuerySurface
            },
            Phase::DeviceReady => {
                self.pending = None;
                Action::QuerySurface
            },
            _ => Action::Fail(RenderError::UnexpectedEvent),
        }
    }

    fn frame_requested(&mut self, current: Option<Extent>) -> (action: Action)
        ensures
            (final(self)@, action) == old(self)@.on_frame_requested(current),
    {
        match self.phase {
            Phase::SwapchainReady => {
                if extent_changed(self.dimensions, current) {
                    self.phase = Phase::Stale;
                    Action::QuerySurface
                } else {
                    self.phase = Phase::Rendering;
                    Action::Draw
                }
            },
            Phase::DeviceReady | Phase::Stale => {
                self.pending = None;
                Action::QuerySurface
            },
            _ => Action::Fail(RenderError::UnexpectedEvent),
        }
    }

    fn frame_presented(&mut self) -> (action: Action)
        ensures
            (final(self)@, action) == old(self)@.on_presented(),
    {
        match self.phase {
            Phase::Rendering => {
                self.phase = Phase::SwapchainReady;
                Action::Done
            },
            _ => Action::Fail(RenderError::UnexpectedEvent),
        }
    }

    fn frame_out_of_date(&mut self) -> (action: Action)
        ensures
            (final(self)@, action) == old(self)@.on_out_of_date(),
    {
        match self.phase {
            Phase::Rendering => {
                self.phase = Phase::Stale;
                Action::Fail(RenderError::SwapchainOutOfDate)
            },
            _ => Action::Fail(RenderError::UnexpectedEvent),
        }
    }

    fn frame_failed(&mut self) -> (action: Action)
        ensures
            (final(self)@, action) == old(self)@.on_frame_failed(),
    {
        match self.phase {
            Phase::Rendering => {
                self.phase = Phase::SwapchainReady;
                Action::Fail(RenderError::FrameFailed)
            },
            _ => Action::Fail(RenderError::UnexpectedEvent),
        }
    }

    fn dropped(&mut self) -> (action: Action)
        ensures
            (final(self)@, action) == old(self)@.on_dropped(),
    {
        let device = match self.phase {
            Phase::Destroyed => {
                return Action::Done;
            },
            Phase::DeviceReady | Phase::SwapchainReady | Phase::Rendering | Phase::Stale => true,
            _ => false,
        };
        let swapchain = self.swapchain.is_some();
        self.destroy();
        Action::Release { swapchain, device }
    }

    /// Takes note of an event and says what is to be done next.
    pub fn step(&mut self, event: Event) -> (action: Action)
        ensures
            (final(self)@, action) == old(self)@.transition(event),
            old(self)@.consistent() ==> final(self)@.consistent(),
    {
        proof {
            if self@.consistent() {
                lemma_transition_keeps_consistency(self@, event);
            }
        }
        match event {
            Event::DevicesEnumerated(devices) => self.devices_enumerated(devices),
            Event::DeviceCreated(queues) => self.device_created(queues),
            Event::DeviceRejected => self.device_rejected(),
            Event::SurfaceQueried(caps) => self.surface_queried(&caps),
            Event::SurfaceQueryFailed => self.surface_query_failed(),
            Event::SwapchainCreated => self.swapchain_created(),
            Event::SwapchainRejected => self.swapchain_rejected(),
            Event::SurfaceResized => self.surface_resized(),
            Event::FrameRequested(current) => self.frame_requested(current),
            Event::FramePresented => self.frame_presented(),
            Event::FrameOutOfDate => self.frame_out_of_date(),
            Event::FrameFailed => self.frame_failed(),
            Event::Dropped => self.dropped(),
        }
    }
}

/// No event leads a consistent renderer to an inconsistent one.
pub proof fn lemma_transition_keeps_consistency(state: RendererModel, event: Event)
    requires
        state.consistent(),
    ensures
        state.after(event).consistent(),
{
}

/// Device selection is deterministic: two renderers that have done nothing
/// yet and were configured with the same choice of device, told of
/// enumerations that read the same, end up with the same device and queue
/// family, in the same phase, and answer with the same action but for the
/// priority each was configured with.
pub proof fn lemma_construction_is_deterministic(
    first: RendererModel,
    second: RendererModel,
    seen_by_first: Vec<PhysicalDeviceInfo>,
    seen_by_second: Vec<PhysicalDeviceInfo>,
)
    requires
        first.consistent(),
        second.consistent(),
        first.phase == Phase::Uninitialized,
        second.phase == Phase::Uninitialized,
        first.config.physical == second.config.physical,
        seen_by_first@ == seen_by_second@,
    ensures
        first.after(Event::DevicesEnumerated(seen_by_first)).phase == second.after(
            Event::DevicesEnumerated(seen_by_second),
        ).phase,
        first.after(Event::DevicesEnumerated(seen_by_first)).selection == second.after(
            Event::DevicesEnumerated(seen_by_second),
        ).selection,
        first.after(Event::DevicesEnumerated(seen_by_first)).description == second.after(
            Event::DevicesEnumerated(seen_by_second),
        ).description,
        first.config.priority == second.config.priority ==> first.transition(
            Event::DevicesEnumerated(seen_by_first),
        ).1 == second.transition(Event::DevicesEnumerated(seen_by_second)).1,
{
}

/// A round of swapchain creation that the surface has a plan for ends with a
/// swapchain that fits: the renderer is ready, holds that plan, and its
/// dimensions are the extent of the plan. Device, description and
/// configuration are untouched.
pub proof fn lemma_creation_result(state: RendererModel, caps: SurfaceCapabilities)
    requires
        state.awaits_swapchain(),
        state.plan(caps) is Ok,
    ensures
        state.created(caps) == (RendererModel {
            phase: Phase::SwapchainReady,
            pending: None,
            swapchain: Some(state.plan(caps)->Ok_0),
            dimensions: (state.plan(caps)->Ok_0).extent,
            ..state
        }),
{
}

/// A round of creation that the surface has no plan for changes nothing but
/// what was asked for before: the renderer still waits for a swapchain.
pub proof fn lemma_creation_without_plan(state: RendererModel, caps: SurfaceCapabilities)
    requires
        state.awaits_swapchain(),
        state.plan(caps) is Err,
    ensures
        state.created(caps) == (RendererModel { pending: None, ..state }),
{
}

/// Recreation forgets what came before it: after a resize that the surface
/// has a plan for, the renderer is what one creation with the same
/// capabilities would have made of it, whatever swapchain it had, and whether
/// or not that one was stale already.
pub proof fn lemma_recreation_result(state: RendererModel, caps: SurfaceCapabilities)
    requires
        state.phase == Phase::SwapchainReady || state.awaits_swapchain(),
        state.plan(caps) is Ok,
    ensures
        state.recreated(caps) == (RendererModel {
            phase: Phase::SwapchainReady,
            pending: None,
            swapchain: Some(state.plan(caps)->Ok_0),
            dimensions: (state.plan(caps)->Ok_0).extent,
            ..state
        }),
{
}

/// A round of recreation never leaves the phases in which a device exists and
/// a swapchain exists or can be asked for, and touches neither device nor
/// configuration.
pub proof fn lemma_recreation_keeps_device(state: RendererModel, caps: SurfaceCapabilities)
    requires
        state.phase == Phase::SwapchainReady || state.awaits_swapchain(),
    ensures
        state.recreated(caps).phase == Phase::SwapchainReady || state.recreated(
            caps,
        ).awaits_swapchain(),
        state.recreated(caps).selection == state.selection,
        state.recreated(caps).description == state.description,
        state.recreated(caps).config == state.config,
{
}

/// As `lemma_recreation_keeps_device`, for any number of rounds.
pub proof fn lemma_recreations_keep_device(state: RendererModel, resizes: Seq<SurfaceCapabilities>)
    requires
        state.phase == Phase::SwapchainReady || state.awaits_swapchain(),
    ensures
        state.recreated_all(resizes).phase == Phase::SwapchainReady || state.recreated_all(
            resizes,
        ).awaits_swapchain(),
        state.recreated_all(resizes).selection == state.selection,
        state.recreated_all(resizes).description == state.description,
        state.recreated_all(resizes).config == state.config,
    decreases resizes.len(),
{
    if resizes.len() > 0 {
        lemma_recreations_keep_device(state, resizes.drop_last());
        lemma_recreation_keeps_device(state.recreated_all(resizes.drop_last()), resizes.last());
    }
}

/// Swapchain recreation is idempotent under repeated resizes: any number of
/// rounds of recreation, of which the last one has a plan, leave the renderer
/// as a single round with the last capabilities would have. Earlier rounds
/// may have succeeded or failed.
pub proof fn lemma_recreation_idempotent(state: RendererModel, resizes: Seq<SurfaceCapabilities>)
    requires
        state.phase == Phase::SwapchainReady || state.awaits_swapchain(),
        resizes.len() > 0,
        state.plan(resizes.last()) is Ok,
    ensures
        state.recreated_all(resizes) == state.recreated(resizes.last()),
        state.recreated_all(resizes).phase == Phase::SwapchainReady,
        state.recreated_all(resizes).dimensions == (state.plan(resizes.last())->Ok_0).extent,
{
    let before = state.recreated_all(resizes.drop_last());
    lemma_recreations_keep_device(state, resizes.drop_last());
    lemma_recreation_result(before, resizes.last());
    lemma_recreation_result(state, resizes.last());
}

/// Repeated recreation ends where a single creation would have: a renderer
/// whose device has just become ready, taken through a first creation and
/// then through any number of resizes, is in the end what one creation with
/// the last capabilities makes of it.
pub proof fn lemma_recreation_equals_single_creation(
    state: RendererModel,
    first: SurfaceCapabilities,
    resizes: Seq<SurfaceCapabilities>,
)
    requires
        state.phase == Phase::DeviceReady,
        resizes.len() > 0,
        state.plan(resizes.last()) is Ok,
    ensures
        state.created(first).recreated_all(resizes) == state.created(resizes.last()),
{
    let made = state.created(first);
    lemma_recreation_idempotent(made, resizes);
    lemma_recreation_result(made, resizes.last());
    lemma_creation_result(state, resizes.last());
}

/// A renderer that decides for itself gives a surface that reports an extent
/// that extent, and a surface that reports none the fallback of 1024 by 768.
pub proof fn lemma_dimensions_follow_surface(state: RendererModel, caps: SurfaceCapabilities)
    requires
        state.awaits_swapchain(),
        state.config.swapchain is None,
        plan_for(caps) is Ok,
    ensures
        state.created(caps).phase == Phase::SwapchainReady,
        state.created(caps).dimensions == extent_for(caps.current_extent),
        caps.current_extent is None ==> state.created(caps).dimensions == (Extent {
            width: 1024,
            height: 768,
        }),
{
    lemma_creation_result(state, caps);
}

/// A frame that is requested of a ready renderer whose swapchain still fits
/// the surface is drawn, and once it is presented the renderer is exactly
/// what it was: ready, with the same swapchain and dimensions.
pub proof fn lemma_ready_frame_succeeds(state: RendererModel, current: Option<Extent>)
    requires
        state.phase == Phase::SwapchainReady,
        !is_stale_for(state.dimensions, current),
    ensures
        state.transition(Event::FrameRequested(current)).1 == Action::Draw,
        state.after(Event::FrameRequested(current)).transition(Event::FramePresented) == (
            state,
            Action::Done,
        ),
{
}

/// A ready renderer turns stale over a frame only where the surface has
/// changed: where it reports another extent than the cached one when the
/// frame is requested, or where presentation finds the swapchain out of date.
/// In every other case it is ready again after the frame.
pub proof fn lemma_stale_only_on_change(
    state: RendererModel,
    current: Option<Extent>,
    outcome: Event,
)
    requires
        state.phase == Phase::SwapchainReady,
        outcome is FramePresented || outcome is FrameOutOfDate || outcome is FrameFailed,
    ensures
        is_stale_for(state.dimensions, current) ==> state.after(Event::FrameRequested(current))
            == (RendererModel { phase: Phase::Stale, ..state }),
        !is_stale_for(state.dimensions, current) ==> state.after(
            Event::FrameRequested(current),
        ).after(outcome) == (RendererModel {
            phase: if outcome is FrameOutOfDate {
                Phase::Stale
            } else {
                Phase::SwapchainReady
            },
            ..state
        }),
{
}

/// An error leaves the renderer usable: whatever event a renderer with a
/// device is told of, short of being dropped, it keeps its device, and it is
/// in a phase from which rendering can go on.
pub proof fn lemma_errors_keep_device(state: RendererModel, event: Event)
    requires
        state.has_device(),
        !(event is Dropped),
    ensures
        state.after(event).has_device(),
        state.after(event).selection == state.selection,
        state.after(event).description == state.description,
{
}

/// Teardown runs against construction: in every order of release, nothing
/// is released twice, each thing the device owns is released before the
/// device, the swapchain before the surface it presents to, and the device
/// before the instance.
pub proof fn lemma_release_order(swapchain: bool, device: bool)
    ensures
        release_sequence(swapchain, device).no_duplicates(),
        forall|owned: Resource| #[trigger]
            owned.device_owned() ==> released_before(
                release_sequence(swapchain, device),
                owned,
                Resource::Device,
            ),
        released_before(
            release_sequence(swapchain, device),
            Resource::SwapchainImages,
            Resource::Swapchain,
        ),
        released_before(release_sequence(swapchain, device), Resource::Swapchain, Resource::Surface),
        released_before(release_sequence(swapchain, device), Resource::Device, Resource::Instance),
{
    let order = release_sequence(swapchain, device);
    if swapchain && device {
        assert(order =~= seq![
            Resource::SwapchainImages,
            Resource::Swapchain,
            Resource::Queue,
            Resource::Device,
            Resource::Surface,
            Resource::Instance,
        ]);
    } else if swapchain {
        assert(order =~= seq![
            Resource::SwapchainImages,
            Resource::Swapchain,
            Resource::Surface,
            Resource::Instance,
        ]);
    } else if device {
        assert(order =~= seq![
            Resource::Queue,
            Resource::Device,
            Resource::Surface,
            Resource::Instance,
        ]);
    } else {
        assert(order =~= seq![Resource::Surface, Resource::Instance]);
    }
}

/// The chosen device is chosen for good: once a renderer has selected its
/// device, no event changes the selection or the description of the device,
/// and none changes what the caller has configured.
pub proof fn lemma_selection_is_immutable(state: RendererModel, event: Event)
    requires
        state.phase != Phase::Uninitialized,
    ensures
        state.after(event).selection == state.selection,
        state.after(event).description == state.description,
        state.after(event).config == state.config,
{
}

/// Once destroyed, a renderer stays destroyed.
pub proof fn lemma_destroyed_is_terminal(state: RendererModel, event: Event)
    requires
        state.phase == Phase::Destroyed,
    ensures
        state.after(event) == state,
{
}

} // verus!
