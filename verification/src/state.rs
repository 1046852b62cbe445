//! The client's state and its reaction to events.
//!
//! The client is a state machine. The host hands it each event that the
//! compositor sends, in arrival order, and carries out the actions that come
//! back before it hands over the next one. What the machine does is written
//! twice: as the mathematical functions `StateView::after` and
//! `StateView::emits`, and as the code of `State::handle`, which is proved to
//! compute exactly those.

use crate::action::{Action, KeyboardFocus, Layer, PixelFormat, PixelSource};
use crate::buffer::{valid_dimensions, PixelBuffer, Pixels};
use crate::crosshair::crosshair_word;
use crate::buffer::BufferError;
use crate::decoded::{image_height, image_is_float, image_rgba, image_width};
use crate::globals::GlobalKind;
use crate::pixel::rgba_word;
use image::DynamicImage;
use vstd::prelude::*;

verus! {

/// Width of the crosshair until an image says otherwise.
pub const DEFAULT_WIDTH: u32 = 10;

/// Height of the crosshair until an image says otherwise.
pub const DEFAULT_HEIGHT: u32 = 10;

/// Version at which the base shell is bound, whatever version is advertised.
pub const WM_BASE_VERSION: u32 = 1;

/// Exclusive zone of the overlay: it neither reserves space nor makes way for
/// surfaces that do.
pub const EXCLUSIVE_ZONE: i32 = -1;

/// The two forms of the overlay.
#[derive(Clone, Copy, Debug, PartialEq, Eq, Structural)]
pub enum Variant {
    /// Shows an image and lets all input through to what lies beneath.
    ImageDriven,
    /// Shows the procedural crosshair and hides while the pointer is over it.
    PointerAware,
}

impl Variant {
    /// Where this variant takes its pixels from.
    pub open spec fn source(self) -> PixelSource {
        match self {
            Variant::ImageDriven => PixelSource::Image,
            Variant::PointerAware => PixelSource::Crosshair,
        }
    }

    /// Whether the surface gets an empty input region.
    pub open spec fn click_through(self) -> bool {
        self == Variant::ImageDriven
    }

    /// Whether the client follows the pointer.
    pub open spec fn follows_pointer(self) -> bool {
        self == Variant::PointerAware
    }
}

/// Progress of the layer surface through its handshake.
#[derive(Clone, Copy, Debug, PartialEq, Eq, Structural)]
pub enum LayerSurfaceState {
    /// The layer surface exists; its first commit has not been made.
    Created,
    /// The first commit is made; the compositor has not answered yet.
    AwaitingConfigure,
    /// A configure event has been received and acknowledged.
    Configured,
}

/// Events of the pointer.
#[derive(Clone, Copy, Debug, PartialEq, Eq, Structural)]
pub enum PointerEvent {
    Enter,
    Leave,
    Motion,
    Button,
    Axis,
    Frame,
}

/// The events that the client reacts to.
#[derive(Clone, Copy, Debug, PartialEq, Eq)]
pub enum Event {
    /// The registry advertises a global. `kind` is what its interface name
    /// stands for, `None` for an interface the client has no use for.
    Global { name: u32, kind: Option<GlobalKind>, version: u32 },
    /// The seat reports what it has. `pointer` says whether a pointer is
    /// among it.
    Capabilities { pointer: bool },
    /// The compositor configures the layer surface.
    Configure { serial: u32 },
    /// The pointer reports something.
    Pointer { event: PointerEvent },
}

impl Event {
    /// The event for a global advertised under the interface name `interface`.
    pub fn global(name: u32, interface: &str, version: u32) -> (event: Event)
        ensures
            event == (Event::Global {
                name,
                kind: crate::globals::interface_kind(interface@),
                version,
            }),
    {
        Event::Global { name, kind: GlobalKind::of_interface(interface), version }
    }
}

/// The state of the client, as the contracts see it.
pub struct StateView {
    /// The dispatch loop goes on while this holds.
    pub running: bool,
    pub variant: Variant,
    /// Size that the layer surface asks for.
    pub cursor_width: u32,
    pub cursor_height: u32,
    pub compositor: bool,
    pub shm: bool,
    pub layer_shell: bool,
    pub wm_base: bool,
    pub seat: bool,
    /// The seat's pointer is obtained.
    pub pointer: bool,
    /// A base surface is live.
    pub surface: bool,
    /// The layer surface built on the live base surface, if there is one.
    pub layer_surface: Option<LayerSurfaceState>,
    /// The pixel buffer, once it is drawn.
    pub buffer: Option<Pixels>,
}

impl StateView {
    /// The state before any event.
    pub open spec fn initial(variant: Variant, width: u32, height: u32) -> StateView {
        StateView {
            running: true,
            variant,
            cursor_width: width,
            cursor_height: height,
            compositor: false,
            shm: false,
            layer_shell: false,
            wm_base: false,
            seat: false,
            pointer: false,
            surface: false,
            layer_surface: None,
            buffer: None,
        }
    }

    /// What holds of every state that the client can be in: a surface needs
    /// the compositor binding; a layer surface needs a surface and the layer
    /// shell, and between events its first commit is always made; only the
    /// pointer-aware variant binds the seat, and the pointer comes from the
    /// seat; a buffer needs the shared-memory binding, is well formed and has
    /// the size that the layer surface asks for.
    pub open spec fn wf(self) -> bool {
        &&& self.surface ==> self.compositor
        &&& self.layer_surface is Some ==> self.surface && self.layer_shell
        &&& self.layer_surface != Some(LayerSurfaceState::Created)
        &&& self.seat ==> self.variant.follows_pointer()
        &&& self.pointer ==> self.seat
        &&& self.buffer matches Some(buffer) ==> {
            &&& self.shm
            &&& buffer.wf()
            &&& buffer.width == self.cursor_width
            &&& buffer.height == self.cursor_height
        }
    }

    /// Number of live base surfaces.
    pub open spec fn surfaces(self) -> int {
        if self.surface {
            1
        } else {
            0
        }
    }

    /// Whether the layer surface may show a buffer: it exists and has been
    /// configured.
    pub open spec fn mapped(self) -> bool {
        self.layer_surface == Some(LayerSurfaceState::Configured)
    }

    /// Whether a global of this kind is bound.
    pub open spec fn bound(self, kind: GlobalKind) -> bool {
        match kind {
            GlobalKind::LayerShell => self.layer_shell,
            GlobalKind::Compositor => self.compositor,
            GlobalKind::Shm => self.shm,
            GlobalKind::WmBase => self.wm_base,
            GlobalKind::Seat => self.seat,
        }
    }

    /// Whether an advertised global of this kind is bound now: it is not
    /// bound yet, and the variant has a use for it.
    pub open spec fn accepts(self, kind: GlobalKind) -> bool {
        !self.bound(kind) && (kind == GlobalKind::Seat ==> self.variant.follows_pointer())
    }

    /// The state after binding a global of this kind. Binding the compositor
    /// creates the base surface at once.
    pub open spec fn with_binding(self, kind: GlobalKind) -> StateView {
        match kind {
            GlobalKind::LayerShell => StateView { layer_shell: true, ..self },
            GlobalKind::Compositor => StateView { compositor: true, surface: true, ..self },
            GlobalKind::Shm => StateView { shm: true, ..self },
            GlobalKind::WmBase => StateView { wm_base: true, ..self },
            GlobalKind::Seat => StateView { seat: true, ..self },
        }
    }

    /// The actions that bind the global `name` of this kind.
    pub open spec fn binding(self, name: u32, kind: GlobalKind, version: u32) -> Seq<Action> {
        match kind {
            GlobalKind::LayerShell => seq![Action::Bind { name, version, kind }],
            GlobalKind::Compositor => seq![Action::Bind { name, version, kind }, Action::CreateSurface],
            GlobalKind::Shm => seq![
                Action::Bind { name, version, kind },
                Action::ProduceBuffer { source: self.variant.source() },
            ],
            GlobalKind::WmBase => seq![Action::Bind { name, version: WM_BASE_VERSION, kind }],
            GlobalKind::Seat => seq![Action::Bind { name, version, kind }],
        }
    }

    /// Whether the client asks for the pointer when the seat reports its
    /// capabilities: a pointer is among them, the seat is bound, and the
    /// pointer is not obtained yet.
    pub open spec fn takes_pointer(self, offered: bool) -> bool {
        offered && self.seat && !self.pointer
    }

    /// The state once `buffer` is drawn: the buffer is kept, and its size is
    /// the size that the layer surface asks for from now on.
    pub open spec fn with_buffer(self, buffer: Pixels) -> StateView {
        StateView {
            cursor_width: buffer.width,
            cursor_height: buffer.height,
            buffer: Some(buffer),
            ..self
        }
    }

    /// Whether the layer surface can be set up: the layer shell is bound, a
    /// base surface is live, and no layer surface is built on it yet.
    pub open spec fn can_init(self) -> bool {
        self.layer_shell && self.surface && self.layer_surface is None
    }

    /// Whether the client, after the first round of events, has what it needs
    /// to show itself.
    pub open spec fn ready(self) -> bool {
        self.wm_base && self.can_init()
    }

    /// The state after the layer surface is set up and committed.
    pub open spec fn with_layer_surface(self) -> StateView {
        StateView { layer_surface: Some(LayerSurfaceState::AwaitingConfigure), ..self }
    }

    /// The actions that set up the layer surface: the layer role on the
    /// overlay layer, anchored to all four edges, never focused, of the
    /// crosshair's size, with no exclusive zone; an empty input region where
    /// the variant lets input through; and the first commit.
    pub open spec fn layer_surface_setup(self) -> Seq<Action> {
        seq![
            Action::GetLayerSurface { layer: Layer::Overlay },
            Action::SetAnchor { top: true, right: true, bottom: true, left: true },
            Action::SetKeyboardInteractivity { focus: KeyboardFocus::Never },
            Action::SetSize { width: self.cursor_width, height: self.cursor_height },
            Action::SetExclusiveZone { zone: EXCLUSIVE_ZONE },
        ] + (if self.variant.click_through() {
            seq![Action::SetEmptyInputRegion]
        } else {
            seq![]
        }) + seq![Action::Commit]
    }

    /// The state after a configure event.
    pub open spec fn configured(self) -> StateView {
        if self.layer_surface is Some {
            StateView { layer_surface: Some(LayerSurfaceState::Configured), ..self }
        } else {
            self
        }
    }

    /// The answer to a configure event: the acknowledgement of its serial,
    /// then, where a surface is live and the buffer drawn, the buffer attached
    /// at the origin and the surface committed.
    pub open spec fn configure_reply(self, serial: u32) -> Seq<Action> {
        seq![Action::AckConfigure { serial }] + (if self.surface && self.buffer is Some {
            seq![Action::Attach { x: 0, y: 0 }, Action::Commit]
        } else {
            seq![]
        })
    }

    /// Whether the pointer's entering hides the overlay.
    pub open spec fn hides(self) -> bool {
        self.variant.follows_pointer() && self.surface
    }

    /// The state after the overlay is hidden: the surface is gone, and the
    /// layer surface with it.
    pub open spec fn hidden(self) -> StateView {
        StateView { surface: false, layer_surface: None, ..self }
    }

    /// Whether the pointer's leaving brings the overlay back.
    pub open spec fn reappears(self) -> bool {
        self.variant.follows_pointer() && self.compositor && !self.surface
    }

    /// The state after the overlay is brought back: a new surface is live,
    /// and where the layer shell is bound its layer surface is set up.
    pub open spec fn shown(self) -> StateView {
        let fresh = StateView { surface: true, layer_surface: None, ..self };
        if fresh.can_init() {
            fresh.with_layer_surface()
        } else {
            fresh
        }
    }

    /// The actions that bring the overlay back.
    pub open spec fn showing(self) -> Seq<Action> {
        let fresh = StateView { surface: true, layer_surface: None, ..self };
        seq![Action::CreateSurface] + (if fresh.can_init() {
            fresh.layer_surface_setup()
        } else {
            seq![]
        })
    }

    /// The state after `event`.
    pub open spec fn after(self, event: Event) -> StateView {
        match event {
            Event::Global { name, kind, version } => match kind {
                Some(kind) => if self.accepts(kind) {
                    self.with_binding(kind)
                } else {
                    self
                },
                None => self,
            },
            Event::Capabilities { pointer } => if self.takes_pointer(pointer) {
                StateView { pointer: true, ..self }
            } else {
                self
            },
            Event::Configure { serial } => self.configured(),
            Event::Pointer { event } => match event {
                PointerEvent::Enter => if self.hides() {
                    self.hidden()
                } else {
                    self
                },
                PointerEvent::Leave => if self.reappears() {
                    self.shown()
                } else {
                    self
                },
                _ => self,
            },
        }
    }

    /// The state after all of `events`, taken in order.
    pub open spec fn after_all(self, events: Seq<Event>) -> StateView
        decreases events.len(),
    {
        if events.len() == 0 {
            self
        } else {
            self.after_all(events.drop_last()).after(events.last())
        }
    }

    /// The actions that `events` call for, taken in order.
    pub open spec fn emits_all(self, events: Seq<Event>) -> Seq<Action>
        decreases events.len(),
    {
        if events.len() == 0 {
            seq![]
        } else {
            self.emits_all(events.drop_last()) + self.after_all(events.drop_last()).emits(
                events.last(),
            )
        }
    }

    /// The actions that `event` calls for, in order.
    pub open spec fn emits(self, event: Event) -> Seq<Action> {
        match event {
            Event::Global { name, kind, version } => match kind {
                Some(kind) => if self.accepts(kind) {
                    self.binding(name, kind, version)
                } else {
                    seq![]
                },
                None => seq![],
            },
            Event::Capabilities { pointer } => if self.takes_pointer(pointer) {
                seq![Action::GetPointer]
            } else {
                seq![]
            },
            Event::Configure { serial } => self.configure_reply(serial),
            Event::Pointer { event } => match event {
                PointerEvent::Enter => if self.hides() {
                    seq![Action::DestroySurface]
                } else {
                    seq![]
                },
                PointerEvent::Leave => if self.reappears() {
                    self.showing()
                } else {
                    seq![]
                },
                _ => seq![],
            },
        }
    }
}

/// The actions that hand a drawn buffer to the compositor: the bytes written
/// and flushed, then a pool of exactly the buffer's size, then the buffer
/// itself at offset 0 with its width, height and stride, in ARGB.
pub open spec fn buffer_handover(buffer: Pixels) -> Seq<Action> {
    seq![
        Action::WritePixels,
        Action::FlushPixels,
        Action::CreatePool { size: buffer.size() as i32 },
        Action::CreateBuffer {
            offset: 0,
            width: buffer.width as i32,
            height: buffer.height as i32,
            stride: buffer.stride() as i32,
            format: PixelFormat::Argb8888,
        },
    ]
}

/// Why the buffer was not drawn.
#[derive(Clone, Copy, Debug, PartialEq, Eq, Structural)]
pub enum DrawError {
    /// The shared-memory global is not bound, so no pool could be made.
    NoSharedMemory,
    /// The buffer is drawn already; it is drawn once.
    AlreadyDrawn,
    /// The image holds floating-point samples. It has to be converted to
    /// eight-bit RGBA before it is drawn.
    FloatSamples,
    /// The dimensions do not fit the protocol's signed 32-bit numbers.
    TooLarge,
}

/// The error that drawing a `width` by `height` buffer meets in state `s`, if
/// any. `float` says whether the pixels come from an image with
/// floating-point samples.
pub open spec fn draw_error(s: StateView, float: bool, width: u32, height: u32) -> Option<
    DrawError,
> {
    if !s.shm {
        Some(DrawError::NoSharedMemory)
    } else if s.buffer is Some {
        Some(DrawError::AlreadyDrawn)
    } else if float {
        Some(DrawError::FloatSamples)
    } else if !valid_dimensions(width, height) {
        Some(DrawError::TooLarge)
    } else {
        None
    }
}

/// The client's state.
pub struct State {
    running: bool,
    variant: Variant,
    cursor_width: u32,
    cursor_height: u32,
    compositor: bool,
    shm: bool,
    layer_shell: bool,
    wm_base: bool,
    seat: bool,
    pointer: bool,
    surface: bool,
    layer_surface: Option<LayerSurfaceState>,
    buffer: Option<PixelBuffer>,
}

impl View for State {
    type V = StateView;

    closed spec fn view(&self) -> StateView {
        StateView {
            running: self.running,
            variant: self.variant,
            cursor_width: self.cursor_width,
            cursor_height: self.cursor_height,
            compositor: self.compositor,
            shm: self.shm,
            layer_shell: self.layer_shell,
            wm_base: self.wm_base,
            seat: self.seat,
            pointer: self.pointer,
            surface: self.surface,
            layer_surface: self.layer_surface,
            buffer: match self.buffer {
                Some(buffer) => Some(buffer@),
                None => None,
            },
        }
    }
}

impl State {
    #[verifier::type_invariant]
    spec fn inv(self) -> bool {
        self@.wf()
    }

    /// The state before any event, with the default size.
    pub fn new(variant: Variant) -> (state: State)
        ensures
            state@ == StateView::initial(variant, DEFAULT_WIDTH, DEFAULT_HEIGHT),
    {
        State::with_size(variant, DEFAULT_WIDTH, DEFAULT_HEIGHT)
    }

    /// The state before any event, with a size of the caller's choice.
    pub fn with_size(variant: Variant, width: u32, height: u32) -> (state: State)
        ensures
            state@ == StateView::initial(variant, width, height),
    {
        State {
            running: true,
            variant,
            cursor_width: width,
            cursor_height: height,
            compositor: false,
            shm: false,
            layer_shell: false,
            wm_base: false,
            seat: false,
            pointer: false,
            surface: false,
            layer_surface: None,
            buffer: None,
        }
    }

    /// Whether the dispatch loop goes on.
    pub fn is_running(&self) -> (running: bool)
        ensures
            running == self@.running,
    {
        self.running
    }

    /// Asks the dispatch loop to end. No event does this by itself.
    pub fn stop(&mut self)
        ensures
            final(self)@ == (StateView { running: false, ..old(self)@ }),
            final(self)@.wf(),
    {
        proof {
            use_type_invariant(&*self);
        }
        self.running = false;
    }

    /// The variant that the client was made for.
    pub fn variant(&self) -> (variant: Variant)
        ensures
            variant == self@.variant,
    {
        self.variant
    }

    /// Width that the layer surface asks for.
    pub fn cursor_width(&self) -> (width: u32)
        ensures
            width == self@.cursor_width,
    {
        self.cursor_width
    }

    /// Height that the layer surface asks for.
    pub fn cursor_height(&self) -> (height: u32)
        ensures
            height == self@.cursor_height,
    {
        self.cursor_height
    }

    /// Whether a global of this kind is bound.
    pub fn is_bound(&self, kind: GlobalKind) -> (bound: bool)
        ensures
            bound == self@.bound(kind),
    {
        match kind {
            GlobalKind::LayerShell => self.layer_shell,
            GlobalKind::Compositor => self.compositor,
            GlobalKind::Shm => self.shm,
            GlobalKind::WmBase => self.wm_base,
            GlobalKind::Seat => self.seat,
        }
    }

    /// Whether the seat's pointer is obtained.
    pub fn has_pointer(&self) -> (obtained: bool)
        ensures
            obtained == self@.pointer,
    {
        self.pointer
    }

    /// Whether a base surface is live.
    pub fn has_surface(&self) -> (live: bool)
        ensures
            live == self@.surface,
    {
        self.surface
    }

    /// Progress of the layer surface, if there is one.
    pub fn layer_surface(&self) -> (progress: Option<LayerSurfaceState>)
        ensures
            progress == self@.layer_surface,
    {
        self.layer_surface
    }

    /// The pixel buffer, once it is drawn.
    pub fn buffer(&self) -> (buffer: Option<&PixelBuffer>)
        ensures
            buffer is Some <==> self@.buffer is Some,
            buffer matches Some(b) ==> self@.buffer == Some(b@) && b@.wf(),
    {
        proof {
            use_type_invariant(self);
        }
        self.buffer.as_ref()
    }

    /// Whether the client has what it needs to show itself.
    pub fn is_ready(&self) -> (ready: bool)
        ensures
            ready == self@.ready(),
    {
        self.wm_base && self.layer_shell && self.surface && self.layer_surface.is_none()
    }

    fn setup_actions(&self) -> (actions: Vec<Action>)
        ensures
            actions@ == self@.layer_surface_setup(),
    {
        let mut actions = vec![
            Action::GetLayerSurface { layer: Layer::Overlay },
            Action::SetAnchor { top: true, right: true, bottom: true, left: true },
            Action::SetKeyboardInteractivity { focus: KeyboardFocus::Never },
            Action::SetSize { width: self.cursor_width, height: self.cursor_height },
            Action::SetExclusiveZone { zone: EXCLUSIVE_ZONE },
        ];
        match self.variant {
            Variant::ImageDriven => {
                actions.push(Action::SetEmptyInputRegion);
            },
            Variant::PointerAware => {},
        }
        actions.push(Action::Commit);
        assert(actions@ =~= self@.layer_surface_setup());
        actions
    }

    /// Sets up the layer surface on the live base surface and commits it. The
    /// compositor answers the commit with a configure event.
    ///
    /// The layer shell must be bound and a base surface live, with no layer
    /// surface on it yet; `start` tests this before it calls.
    pub fn init_layer_surface(&mut self) -> (actions: Vec<Action>)
        requires
            old(self)@.can_init(),
        ensures
            final(self)@ == old(self)@.with_layer_surface(),
            final(self)@.wf(),
            actions@ == old(self)@.layer_surface_setup(),
    {
        proof {
            use_type_invariant(&*self);
        }
        let actions = self.setup_actions();
        self.layer_surface = Some(LayerSurfaceState::AwaitingConfigure);
        actions
    }

    /// The step after the first round of events: where the client is ready,
    /// the layer surface is set up; where it is not, nothing happens.
    pub fn start(&mut self) -> (actions: Vec<Action>)
        ensures
            old(self)@.ready() ==> final(self)@ == old(self)@.with_layer_surface() && actions@
                == old(self)@.layer_surface_setup(),
            !old(self)@.ready() ==> final(self)@ == old(self)@ && actions@ == Seq::<Action>::empty(),
            final(self)@.wf(),
    {
        proof {
            use_type_invariant(&*self);
        }
        if self.is_ready() {
            self.init_layer_surface()
        } else {
            Vec::new()
        }
    }

    fn on_global(&mut self, name: u32, kind: GlobalKind, version: u32) -> (actions: Vec<Action>)
        ensures
            final(self)@ == old(self)@.after(Event::Global { name, kind: Some(kind), version }),
            actions@ == old(self)@.emits(Event::Global { name, kind: Some(kind), version }),
    {
        proof {
            use_type_invariant(&*self);
        }
        if self.is_bound(kind) {
            return Vec::new();
        }
        match kind {
            GlobalKind::LayerShell => {
                self.layer_shell = true;
                vec![Action::Bind { name, version, kind }]
            },
            GlobalKind::Compositor => {
                self.compositor = true;
                self.surface = true;
                vec![Action::Bind { name, version, kind }, Action::CreateSurface]
            },
            GlobalKind::Shm => {
                self.shm = true;
                let source = match self.variant {
                    Variant::ImageDriven => PixelSource::Image,
                    Variant::PointerAware => PixelSource::Crosshair,
                };
                vec![Action::Bind { name, version, kind }, Action::ProduceBuffer { source }]
            },
            GlobalKind::WmBase => {
                self.wm_base = true;
                vec![Action::Bind { name, version: WM_BASE_VERSION, kind }]
            },
            GlobalKind::Seat => {
                match self.variant {
                    Variant::ImageDriven => Vec::new(),
                    Variant::PointerAware => {
                        self.seat = true;
                        vec![Action::Bind { name, version, kind }]
                    },
                }
            },
        }
    }

    fn on_capabilities(&mut self, pointer: bool) -> (actions: Vec<Action>)
        ensures
            final(self)@ == old(self)@.after(Event::Capabilities { pointer }),
            actions@ == old(self)@.emits(Event::Capabilities { pointer }),
    {
        proof {
            use_type_invariant(&*self);
        }
        if pointer && self.seat && !self.pointer {
            self.pointer = true;
            vec![Action::GetPointer]
        } else {
            Vec::new()
        }
    }

    fn on_configure(&mut self, serial: u32) -> (actions: Vec<Action>)
        ensures
            final(self)@ == old(self)@.after(Event::Configure { serial }),
            actions@ == old(self)@.emits(Event::Configure { serial }),
    {
        proof {
            use_type_invariant(&*self);
        }
        let mut actions = vec![Action::AckConfigure { serial }];
        if self.surface && self.buffer.is_some() {
            actions.push(Action::Attach { x: 0, y: 0 });
            actions.push(Action::Commit);
        }
        if self.layer_surface.is_some() {
            self.layer_surface = Some(LayerSurfaceState::Configured);
        }
        assert(actions@ =~= old(self)@.configure_reply(serial));
        actions
    }

    fn on_pointer(&mut self, event: PointerEvent) -> (actions: Vec<Action>)
        ensures
            final(self)@ == old(self)@.after(Event::Pointer { event }),
            actions@ == old(self)@.emits(Event::Pointer { event }),
    {
        proof {
            use_type_invariant(&*self);
        }
        match self.variant {
            Variant::ImageDriven => {
                return Vec::new();
            },
            Variant::PointerAware => {},
        }
        match event {
            PointerEvent::Enter => {
                if self.surface {
                    self.layer_surface = None;
                    self.surface = false;
                    vec![Action::DestroySurface]
                } else {
                    Vec::new()
                }
            },
            PointerEvent::Leave => {
                if self.compositor && !self.surface {
                    self.layer_surface = None;
                    self.surface = true;
                    let mut actions = vec![Action::CreateSurface];
                    if self.layer_shell {
                        let mut setup = self.init_layer_surface();
                        actions.append(&mut setup);
                    }
                    assert(actions@ =~= old(self)@.showing());
                    actions
                } else {
                    Vec::new()
                }
            },
            _ => Vec::new(),
        }
    }

    /// Reacts to one event: moves to the state after it and returns the
    /// actions that it calls for, in the order in which the host must carry
    /// them out.
    pub fn handle(&mut self, event: Event) -> (actions: Vec<Action>)
        ensures
            final(self)@ == old(self)@.after(event),
            final(self)@.wf(),
            actions@ == old(self)@.emits(event),
    {
        let actions = match event {
            Event::Global { name, kind, version } => match kind {
                Some(kind) => self.on_global(name, kind, version),
                None => Vec::new(),
            },
            Event::Capabilities { pointer } => self.on_capabilities(pointer),
            Event::Configure { serial } => self.on_configure(serial),
            Event::Pointer { event } => self.on_pointer(event),
        };
        proof {
            use_type_invariant(&*self);
        }
        actions
    }
    /// Takes a freshly drawn buffer in and lists what hands it to the compositor.
    fn install(&mut self, buffer: PixelBuffer) -> (actions: Vec<Action>)
        requires
            old(self)@.shm,
            old(self)@.buffer is None,
        ensures
            final(self)@ == old(self)@.with_buffer(buffer@),
            actions@ == buffer_handover(buffer@),
            buffer@.wf(),
    {
        proof {
            use_type_invariant(&*self);
        }
        let size = buffer.size();
        let stride = buffer.stride();
        let width = buffer.width();
        let height = buffer.height();
        self.cursor_width = width;
        self.cursor_height = height;
        self.buffer = Some(buffer);
        vec![
            Action::WritePixels,
            Action::FlushPixels,
            Action::CreatePool { size },
            Action::CreateBuffer {
                offset: 0,
                width: width as i32,
                height: height as i32,
                stride,
                format: PixelFormat::Argb8888,
            },
        ]
    }

    /// Draws the buffer from a decoded image and takes the image's size as
    /// the crosshair's size.
    ///
    /// Succeeds exactly when the shared-memory global is bound, no buffer is
    /// drawn yet, the image holds integer samples and its dimensions fit the
    /// protocol. The buffer then holds `width * height * 4` bytes, each pixel
    /// the ARGB word of the image's pixel at the same place, and the actions
    /// hand it to the compositor. On failure the state is as before; an image
    /// refused for its floating-point samples can be converted to eight-bit
    /// RGBA and drawn then.
    pub fn draw(&mut self, image: &DynamicImage) -> (drawn: Result<Vec<Action>, DrawError>)
        ensures
            match drawn {
                Ok(actions) => {
                    &&& draw_error(
                        old(self)@,
                        image_is_float(*image),
                        image_width(*image),
                        image_height(*image),
                    ) is None
                    &&& final(self)@.buffer matches Some(buffer)
                    &&& final(self)@ == old(self)@.with_buffer(buffer)
                    &&& buffer.wf()
                    &&& buffer.width == image_width(*image)
                    &&& buffer.height == image_height(*image)
                    &&& buffer.bytes.len() == image_width(*image) * image_height(*image) * 4
                    &&& buffer.painted(|x: int, y: int| rgba_word(image_rgba(*image)[(x, y)]))
                    &&& actions@ == buffer_handover(buffer)
                },
                Err(error) => {
                    &&& draw_error(
                        old(self)@,
                        image_is_float(*image),
                        image_width(*image),
                        image_height(*image),
                    ) == Some(error)
                    &&& final(self)@ == old(self)@
                },
            },
            final(self)@.wf(),
    {
        proof {
            use_type_invariant(&*self);
        }
        if !self.shm {
            return Err(DrawError::NoSharedMemory);
        }
        if self.buffer.is_some() {
            return Err(DrawError::AlreadyDrawn);
        }
        match PixelBuffer::from_image(image) {
            Ok(buffer) => Ok(self.install(buffer)),
            Err(BufferError::FloatSamples) => Err(DrawError::FloatSamples),
            Err(BufferError::TooLarge) => Err(DrawError::TooLarge),
        }
    }

    /// Draws the buffer as the procedural crosshair, in the crosshair's size.
    ///
    /// Succeeds exactly when the shared-memory global is bound, no buffer is
    /// drawn yet and the size fits the protocol. The buffer then holds
    /// `width * height * 4` bytes, each pixel the crosshair's word for its
    /// place, and the actions hand it to the compositor. On failure the state
    /// is as before.
    pub fn draw_crosshair(&mut self) -> (drawn: Result<Vec<Action>, DrawError>)
        ensures
            match drawn {
                Ok(actions) => {
                    &&& draw_error(
                        old(self)@,
                        false,
                        old(self)@.cursor_width,
                        old(self)@.cursor_height,
                    ) is None
                    &&& final(self)@.buffer matches Some(buffer)
                    &&& final(self)@ == old(self)@.with_buffer(buffer)
                    &&& buffer.wf()
                    &&& buffer.width == old(self)@.cursor_width
                    &&& buffer.height == old(self)@.cursor_height
                    &&& buffer.bytes.len() == old(self)@.cursor_width * old(self)@.cursor_height * 4
                    &&& buffer.painted(
                        |x: int, y: int|
                            crosshair_word(
                                old(self)@.cursor_width as int,
                                old(self)@.cursor_height as int,
                                x,
                                y,
                            ),
                    )
                    &&& actions@ == buffer_handover(buffer)
                },
                Err(error) => {
                    &&& draw_error(
                        old(self)@,
                        false,
                        old(self)@.cursor_width,
                        old(self)@.cursor_height,
                    ) == Some(error)
                    &&& final(self)@ == old(self)@
                },
            },
            final(self)@.wf(),
    {
        proof {
            use_type_invariant(&*self);
        }
        if !self.shm {
            return Err(DrawError::NoSharedMemory);
        }
        if self.buffer.is_some() {
            return Err(DrawError::AlreadyDrawn);
        }
        match PixelBuffer::crosshair(self.cursor_width, self.cursor_height) {
            Ok(buffer) => Ok(self.install(buffer)),
            Err(_) => Err(DrawError::TooLarge),
        }
    }

    /// Reacts to a batch of events in arrival order, each in the state that
    /// the one before it left, and returns all their actions in that order.
    pub fn handle_batch(&mut self, events: &Vec<Event>) -> (actions: Vec<Action>)
        ensures
            final(self)@ == old(self)@.after_all(events@),
            final(self)@.wf(),
            actions@ == old(self)@.emits_all(events@),
    {
        let mut actions: Vec<Action> = Vec::new();
        let mut i: usize = 0;
        proof {
            use_type_invariant(&*self);
        }
        while i < events.len()
            invariant
                i <= events@.len(),
                self@ == old(self)@.after_all(events@.take(i as int)),
                self@.wf(),
                actions@ == old(self)@.emits_all(events@.take(i as int)),
            decreases events@.len() - i,
        {
            let ghost before = self@;
            let mut step = self.handle(events[i]);
            actions.append(&mut step);
            proof {
                let done = events@.take(i + 1);
                assert(done.drop_last() =~= events@.take(i as int));
                assert(done.last() == events@[i as int]);
            }
            i = i + 1;
        }
        assert(events@.take(i as int) =~= events@);
        actions
    }
}

} // verus!
