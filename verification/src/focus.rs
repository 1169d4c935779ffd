//! Focus targets: two closed unions over the kinds of on-screen surface a seat
//! can address, one for keyboard focus and one for pointer/touch focus.
//!
//! A target wraps exactly one handle and never owns the surface it stands for:
//! liveness must be re-checked before every dispatch, because the handle's
//! lifetime is owned by the compositor's window and surface tables.

use vstd::prelude::*;

verus! {

/// A native protocol surface as the routing layer sees it: its protocol
/// object identity, the client that owns it, and whether the object is still
/// present in the compositor's tables.
#[derive(Clone, Copy, PartialEq, Eq, Debug)]
pub struct SurfaceHandle {
    /// Protocol object id.
    pub id: u64,
    /// Identity of the owning client.
    pub client: u64,
    /// Whether the object is still alive.
    pub alive: bool,
}

/// A foreign-toolkit surface: managed by a compatibility layer, it may or may
/// not have an associated native surface.
#[derive(Clone, Copy, PartialEq, Eq, Debug)]
pub struct ForeignHandle {
    /// The foreign window id.
    pub id: u64,
    /// The associated native surface, when the compatibility layer has one.
    pub surface: Option<SurfaceHandle>,
    /// Identity of the owning client.
    pub client: u64,
    /// Whether the foreign window is still alive.
    pub alive: bool,
}

/// A compositor-synthesized decoration region (server-side borders and
/// titlebar). It has no protocol identity of its own; identity queries resolve
/// through the decorated surface when one exists.
#[derive(Clone, Copy, PartialEq, Eq, Debug)]
pub struct DecorationHandle {
    /// Synthetic id used only to route events to this region's handler.
    pub id: u64,
    /// The decorated surface, when it can be resolved.
    pub surface: Option<SurfaceHandle>,
    /// Whether the decoration is still alive.
    pub alive: bool,
}

/// The surface a window presents: a native protocol surface or a
/// foreign-toolkit one.
#[derive(Clone, Copy, PartialEq, Eq, Debug)]
pub enum WindowSurface {
    Wayland(SurfaceHandle),
    Foreign(ForeignHandle),
}

/// A toplevel window; its liveness and identity are those of its underlying
/// surface.
#[derive(Clone, Copy, PartialEq, Eq, Debug)]
pub struct WindowHandle {
    pub surface: WindowSurface,
}

/// A layer-shell surface; it always has a backing native surface.
#[derive(Clone, Copy, PartialEq, Eq, Debug)]
pub struct LayerHandle {
    pub surface: SurfaceHandle,
}

/// A popup; it always has a backing native surface.
#[derive(Clone, Copy, PartialEq, Eq, Debug)]
pub struct PopupHandle {
    pub surface: SurfaceHandle,
}

/// The keyboard-focus union: every surface kind the keyboard can address.
#[derive(Clone, Copy, PartialEq, Eq, Debug)]
pub enum KeyboardFocusTarget {
    Window(WindowHandle),
    LayerSurface(LayerHandle),
    Popup(PopupHandle),
}

/// The pointer/touch-focus union: a native surface, a foreign-toolkit
/// surface, or a decoration region.
#[derive(Clone, Copy, PartialEq, Eq, Debug)]
pub enum PointerFocusTarget {
    WlSurface(SurfaceHandle),
    X11Surface(ForeignHandle),
    SSD(DecorationHandle),
}

impl SurfaceHandle {
    /// The handle after the compositor has dropped the object: same identity,
    /// no longer alive.
    pub open spec fn retired(self) -> SurfaceHandle {
        SurfaceHandle { alive: false, ..self }
    }

    /// Mark the object as dropped. Identity is kept; liveness is not.
    pub fn retire(&mut self)
        ensures
            *final(self) == old(self).retired(),
    {
        self.alive = false;
    }
}

impl ForeignHandle {
    /// The handle after the foreign window is gone: same identity, not alive.
    pub open spec fn retired(self) -> ForeignHandle {
        ForeignHandle { alive: false, ..self }
    }

    /// Mark the foreign window as gone.
    pub fn retire(&mut self)
        ensures
            *final(self) == old(self).retired(),
    {
        self.alive = false;
    }
}

impl DecorationHandle {
    /// The handle after the decoration is gone: same identity, not alive.
    pub open spec fn retired(self) -> DecorationHandle {
        DecorationHandle { alive: false, ..self }
    }

    /// Mark the decoration as gone.
    pub fn retire(&mut self)
        ensures
            *final(self) == old(self).retired(),
    {
        self.alive = false;
    }
}

impl WindowHandle {
    /// A window is alive exactly when its underlying surface is.
    pub open spec fn alive_spec(self) -> bool {
        match self.surface {
            WindowSurface::Wayland(s) => s.alive,
            WindowSurface::Foreign(f) => f.alive,
        }
    }

    pub fn alive(&self) -> (r: bool)
        ensures
            r == self.alive_spec(),
    {
        match self.surface {
            WindowSurface::Wayland(s) => s.alive,
            WindowSurface::Foreign(f) => f.alive,
        }
    }
}

impl KeyboardFocusTarget {
    /// Liveness is variant-specific: the target is alive iff the handle it
    /// wraps reports alive.
    pub open spec fn alive_spec(self) -> bool {
        match self {
            KeyboardFocusTarget::Window(w) => w.alive_spec(),
            KeyboardFocusTarget::LayerSurface(l) => l.surface.alive,
            KeyboardFocusTarget::Popup(p) => p.surface.alive,
        }
    }

    /// Whether the wrapped handle still reports alive. Callers must consult
    /// this before dispatching an event; dispatch itself does not self-guard.
    pub fn alive(&self) -> (r: bool)
        ensures
            r == self.alive_spec(),
    {
        match self {
            KeyboardFocusTarget::Window(w) => w.alive(),
            KeyboardFocusTarget::LayerSurface(l) => l.surface.alive,
            KeyboardFocusTarget::Popup(p) => p.surface.alive,
        }
    }
}

impl PointerFocusTarget {
    /// Liveness is variant-specific: the target is alive iff the handle it
    /// wraps reports alive.
    pub open spec fn alive_spec(self) -> bool {
        match self {
            PointerFocusTarget::WlSurface(s) => s.alive,
            PointerFocusTarget::X11Surface(f) => f.alive,
            PointerFocusTarget::SSD(d) => d.alive,
        }
    }

    /// Whether the wrapped handle still reports alive. Callers must consult
    /// this before dispatching an event; dispatch itself does not self-guard.
    pub fn alive(&self) -> (r: bool)
        ensures
            r == self.alive_spec(),
    {
        match self {
            PointerFocusTarget::WlSurface(s) => s.alive,
            PointerFocusTarget::X11Surface(f) => f.alive,
            PointerFocusTarget::SSD(d) => d.alive,
        }
    }
}

impl KeyboardFocusTarget {
    /// The backing native surface, where the variant has one: a window hands
    /// out its underlying surface (the foreign path has one only when the
    /// compatibility layer does), a layer surface or popup its own.
    pub open spec fn wl_surface_spec(self) -> Option<SurfaceHandle> {
        match self {
            KeyboardFocusTarget::Window(w) => match w.surface {
                WindowSurface::Wayland(s) => Some(s),
                WindowSurface::Foreign(f) => f.surface,
            },
            KeyboardFocusTarget::LayerSurface(l) => Some(l.surface),
            KeyboardFocusTarget::Popup(p) => Some(p.surface),
        }
    }

    pub fn wl_surface(&self) -> (r: Option<SurfaceHandle>)
        ensures
            r == self.wl_surface_spec(),
    {
        match self {
            KeyboardFocusTarget::Window(w) => match w.surface {
                WindowSurface::Wayland(s) => Some(s),
                WindowSurface::Foreign(f) => f.surface,
            },
            KeyboardFocusTarget::LayerSurface(l) => Some(l.surface),
            KeyboardFocusTarget::Popup(p) => Some(p.surface),
        }
    }

    /// Whether the target belongs to the given client: it resolves through
    /// the backing surface, and reports no match where there is none.
    pub open spec fn same_client_spec(self, client: u64) -> bool {
        match self.wl_surface_spec() {
            Some(s) => s.client == client,
            None => false,
        }
    }

    pub fn same_client_as(&self, client: u64) -> (r: bool)
        ensures
            r == self.same_client_spec(client),
    {
        match self.wl_surface() {
            Some(s) => s.client == client,
            None => false,
        }
    }
}

impl PointerFocusTarget {
    /// The backing native surface, where the variant has one. A decoration
    /// region is compositor-synthesized and hands out none.
    pub open spec fn wl_surface_spec(self) -> Option<SurfaceHandle> {
        match self {
            PointerFocusTarget::WlSurface(s) => Some(s),
            PointerFocusTarget::X11Surface(f) => f.surface,
            PointerFocusTarget::SSD(_) => None,
        }
    }

    pub fn wl_surface(&self) -> (r: Option<SurfaceHandle>)
        ensures
            r == self.wl_surface_spec(),
    {
        match self {
            PointerFocusTarget::WlSurface(s) => Some(*s),
            PointerFocusTarget::X11Surface(f) => f.surface,
            PointerFocusTarget::SSD(_) => None,
        }
    }

    /// Whether the target belongs to the given client. A surface or foreign
    /// window answers with its own client; a decoration region resolves
    /// through its decorated surface and reports a different client when it
    /// has none (it never matches, and never fails).
    pub open spec fn same_client_spec(self, client: u64) -> bool {
        match self {
            PointerFocusTarget::WlSurface(s) => s.client == client,
            PointerFocusTarget::X11Surface(f) => f.client == client,
            PointerFocusTarget::SSD(d) => match d.surface {
                Some(s) => s.client == client,
                None => false,
            },
        }
    }

    pub fn same_client_as(&self, client: u64) -> (r: bool)
        ensures
            r == self.same_client_spec(client),
    {
        match self {
            PointerFocusTarget::WlSurface(s) => s.client == client,
            PointerFocusTarget::X11Surface(f) => f.client == client,
            PointerFocusTarget::SSD(d) => match d.surface {
                Some(s) => s.client == client,
                None => false,
            },
        }
    }

    /// The backing surface of a target that has one. The generic surface and
    /// foreign variants resolve as `wl_surface` does; a decoration region has
    /// no backing surface and is excluded.
    pub fn into_surface(self) -> (r: SurfaceHandle)
        requires
            self.wl_surface_spec() is Some,
        ensures
            Some(r) == self.wl_surface_spec(),
    {
        match self {
            PointerFocusTarget::WlSurface(s) => s,
            PointerFocusTarget::X11Surface(f) => f.surface.unwrap(),
            PointerFocusTarget::SSD(_) => unreached(),
        }
    }
}

impl WindowHandle {
    /// The window after its underlying surface is gone.
    pub open spec fn retired(self) -> WindowHandle {
        match self.surface {
            WindowSurface::Wayland(s) => WindowHandle { surface: WindowSurface::Wayland(s.retired()) },
            WindowSurface::Foreign(f) => WindowHandle { surface: WindowSurface::Foreign(f.retired()) },
        }
    }

    /// Mark the underlying surface as gone.
    pub fn retire(&mut self)
        ensures
            *final(self) == old(self).retired(),
    {
        match &mut self.surface {
            WindowSurface::Wayland(s) => s.retire(),
            WindowSurface::Foreign(f) => f.retire(),
        }
    }
}

impl KeyboardFocusTarget {
    /// The target after its wrapped handle is gone.
    pub open spec fn retired(self) -> KeyboardFocusTarget {
        match self {
            KeyboardFocusTarget::Window(w) => KeyboardFocusTarget::Window(w.retired()),
            KeyboardFocusTarget::LayerSurface(l) => KeyboardFocusTarget::LayerSurface(
                LayerHandle { surface: l.surface.retired() },
            ),
            KeyboardFocusTarget::Popup(p) => KeyboardFocusTarget::Popup(
                PopupHandle { surface: p.surface.retired() },
            ),
        }
    }

    /// Mark the wrapped handle as gone.
    pub fn retire(&mut self)
        ensures
            *final(self) == old(self).retired(),
    {
        match self {
            KeyboardFocusTarget::Window(w) => w.retire(),
            KeyboardFocusTarget::LayerSurface(l) => l.surface.retire(),
            KeyboardFocusTarget::Popup(p) => p.surface.retire(),
        }
    }
}

impl PointerFocusTarget {
    /// The target after its wrapped handle is gone.
    pub open spec fn retired(self) -> PointerFocusTarget {
        match self {
            PointerFocusTarget::WlSurface(s) => PointerFocusTarget::WlSurface(s.retired()),
            PointerFocusTarget::X11Surface(f) => PointerFocusTarget::X11Surface(f.retired()),
            PointerFocusTarget::SSD(d) => PointerFocusTarget::SSD(d.retired()),
        }
    }

    /// Mark the wrapped handle as gone.
    pub fn retire(&mut self)
        ensures
            *final(self) == old(self).retired(),
    {
        match self {
            PointerFocusTarget::WlSurface(s) => s.retire(),
            PointerFocusTarget::X11Surface(f) => f.retire(),
            PointerFocusTarget::SSD(d) => d.retire(),
        }
    }
}

/// Liveness after teardown, keyboard side: once the wrapped handle is gone
/// the target reports not alive, and the only liveness transition there is
/// (retirement) never brings it back, whichever variant wraps the handle.
pub proof fn lemma_keyboard_liveness_after_teardown(t: KeyboardFocusTarget)
    ensures
        !t.retired().alive_spec(),
        t.retired().retired() == t.retired(),
{
}

/// Liveness after teardown, pointer side: once the wrapped handle is gone the
/// target reports not alive, and retirement never brings it back.
pub proof fn lemma_pointer_liveness_after_teardown(t: PointerFocusTarget)
    ensures
        !t.retired().alive_spec(),
        t.retired().retired() == t.retired(),
{
}

impl From<SurfaceHandle> for PointerFocusTarget {
    /// A native surface becomes the generic surface-handle variant.
    fn from(value: SurfaceHandle) -> (r: Self) {
        PointerFocusTarget::WlSurface(value)
    }
}

impl vstd::std_specs::convert::FromSpecImpl<SurfaceHandle> for PointerFocusTarget {
    open spec fn obeys_from_spec() -> bool {
        true
    }

    open spec fn from_spec(value: SurfaceHandle) -> Self {
        PointerFocusTarget::WlSurface(value)
    }
}

impl From<ForeignHandle> for PointerFocusTarget {
    /// A foreign-toolkit surface becomes the foreign variant.
    fn from(value: ForeignHandle) -> (r: Self) {
        PointerFocusTarget::X11Surface(value)
    }
}

impl vstd::std_specs::convert::FromSpecImpl<ForeignHandle> for PointerFocusTarget {
    open spec fn obeys_from_spec() -> bool {
        true
    }

    open spec fn from_spec(value: ForeignHandle) -> Self {
        PointerFocusTarget::X11Surface(value)
    }
}

impl From<PopupHandle> for PointerFocusTarget {
    /// A popup resolves to its backing surface, which then becomes the
    /// generic surface-handle variant.
    fn from(value: PopupHandle) -> (r: Self) {
        PointerFocusTarget::WlSurface(value.surface)
    }
}

impl vstd::std_specs::convert::FromSpecImpl<PopupHandle> for PointerFocusTarget {
    open spec fn obeys_from_spec() -> bool {
        true
    }

    open spec fn from_spec(value: PopupHandle) -> Self {
        PointerFocusTarget::WlSurface(value.surface)
    }
}

impl From<WindowHandle> for KeyboardFocusTarget {
    /// A window wraps as the window variant, keeping its underlying surface
    /// kind for later dispatch.
    fn from(value: WindowHandle) -> (r: Self) {
        KeyboardFocusTarget::Window(value)
    }
}

impl vstd::std_specs::convert::FromSpecImpl<WindowHandle> for KeyboardFocusTarget {
    open spec fn obeys_from_spec() -> bool {
        true
    }

    open spec fn from_spec(value: WindowHandle) -> Self {
        KeyboardFocusTarget::Window(value)
    }
}

impl From<LayerHandle> for KeyboardFocusTarget {
    /// A layer surface wraps one-to-one.
    fn from(value: LayerHandle) -> (r: Self) {
        KeyboardFocusTarget::LayerSurface(value)
    }
}

impl vstd::std_specs::convert::FromSpecImpl<LayerHandle> for KeyboardFocusTarget {
    open spec fn obeys_from_spec() -> bool {
        true
    }

    open spec fn from_spec(value: LayerHandle) -> Self {
        KeyboardFocusTarget::LayerSurface(value)
    }
}

impl From<PopupHandle> for KeyboardFocusTarget {
    /// A popup wraps one-to-one.
    fn from(value: PopupHandle) -> (r: Self) {
        KeyboardFocusTarget::Popup(value)
    }
}

impl vstd::std_specs::convert::FromSpecImpl<PopupHandle> for KeyboardFocusTarget {
    open spec fn obeys_from_spec() -> bool {
        true
    }

    open spec fn from_spec(value: PopupHandle) -> Self {
        KeyboardFocusTarget::Popup(value)
    }
}

/// What a keyboard-focus target becomes when pointer focus moves to the same
/// place: a window unwraps to its underlying surface kind and re-wraps as the
/// corresponding pointer variant; a layer surface or popup resolves its
/// backing surface and wraps as the generic surface-handle variant.
pub open spec fn pointer_target_of(value: KeyboardFocusTarget) -> PointerFocusTarget {
    match value {
        KeyboardFocusTarget::Window(w) => match w.surface {
            WindowSurface::Wayland(s) => PointerFocusTarget::WlSurface(s),
            WindowSurface::Foreign(f) => PointerFocusTarget::X11Surface(f),
        },
        KeyboardFocusTarget::LayerSurface(l) => PointerFocusTarget::WlSurface(l.surface),
        KeyboardFocusTarget::Popup(p) => PointerFocusTarget::WlSurface(p.surface),
    }
}

impl From<KeyboardFocusTarget> for PointerFocusTarget {
    /// See `pointer_target_of`: this conversion is total and side-effect-free.
    fn from(value: KeyboardFocusTarget) -> (r: Self) {
        match value {
            KeyboardFocusTarget::Window(w) => match w.surface {
                WindowSurface::Wayland(s) => PointerFocusTarget::WlSurface(s),
                WindowSurface::Foreign(f) => PointerFocusTarget::X11Surface(f),
            },
            KeyboardFocusTarget::LayerSurface(l) => PointerFocusTarget::WlSurface(l.surface),
            KeyboardFocusTarget::Popup(p) => PointerFocusTarget::WlSurface(p.surface),
        }
    }
}

impl vstd::std_specs::convert::FromSpecImpl<KeyboardFocusTarget> for PointerFocusTarget {
    open spec fn obeys_from_spec() -> bool {
        true
    }

    open spec fn from_spec(value: KeyboardFocusTarget) -> Self {
        pointer_target_of(value)
    }
}

/// Conversion coherence: converting a popup keyboard-focus target to a
/// pointer-focus target yields the generic surface-handle variant wrapping
/// that popup's backing surface, for any popup.
pub proof fn lemma_popup_conversion_coherence(p: PopupHandle)
    ensures
        pointer_target_of(KeyboardFocusTarget::Popup(p)) == PointerFocusTarget::WlSurface(p.surface),
{
}

/// A pointer enter or absolute-motion event. Coordinates are fixed-point
/// surface-local positions.
#[derive(Clone, Copy, PartialEq, Eq, Debug)]
pub struct MotionEvent {
    pub location_x: i64,
    pub location_y: i64,
    pub serial: u32,
    pub time: u32,
}

/// An unaccelerated relative pointer motion.
#[derive(Clone, Copy, PartialEq, Eq, Debug)]
pub struct RelativeMotionEvent {
    pub delta_x: i64,
    pub delta_y: i64,
    pub utime: u64,
}

#[derive(Clone, Copy, PartialEq, Eq, Debug)]
pub enum ButtonState {
    Pressed,
    Released,
}

/// A pointer button press or release.
#[derive(Clone, Copy, PartialEq, Eq, Debug)]
pub struct ButtonEvent {
    pub serial: u32,
    pub time: u32,
    pub button: u32,
    pub state: ButtonState,
}

/// One frame of accumulated scroll on both axes, fixed-point.
#[derive(Clone, Copy, PartialEq, Eq, Debug)]
pub struct AxisFrame {
    pub time: u32,
    pub horizontal: i64,
    pub vertical: i64,
}

/// The start of a swipe or pinch or hold gesture.
#[derive(Clone, Copy, PartialEq, Eq, Debug)]
pub struct GestureBeginEvent {
    pub serial: u32,
    pub time: u32,
    pub fingers: u32,
}

/// Progress of a swipe gesture.
#[derive(Clone, Copy, PartialEq, Eq, Debug)]
pub struct GestureSwipeUpdateEvent {
    pub time: u32,
    pub delta_x: i64,
    pub delta_y: i64,
}

/// Progress of a pinch gesture; scale and rotation are fixed-point.
#[derive(Clone, Copy, PartialEq, Eq, Debug)]
pub struct GesturePinchUpdateEvent {
    pub time: u32,
    pub delta_x: i64,
    pub delta_y: i64,
    pub scale: i64,
    pub rotation: i64,
}

/// The end of a swipe or pinch or hold gesture.
#[derive(Clone, Copy, PartialEq, Eq, Debug)]
pub struct GestureEndEvent {
    pub serial: u32,
    pub time: u32,
    pub cancelled: bool,
}

/// A touch point going down on the surface.
#[derive(Clone, Copy, PartialEq, Eq, Debug)]
pub struct TouchDownEvent {
    pub serial: u32,
    pub time: u32,
    pub slot: u32,
    pub location_x: i64,
    pub location_y: i64,
}

/// A touch point being lifted.
#[derive(Clone, Copy, PartialEq, Eq, Debug)]
pub struct TouchUpEvent {
    pub serial: u32,
    pub time: u32,
    pub slot: u32,
}

/// A touch point moving.
#[derive(Clone, Copy, PartialEq, Eq, Debug)]
pub struct TouchMotionEvent {
    pub time: u32,
    pub slot: u32,
    pub location_x: i64,
    pub location_y: i64,
}

/// The contact shape of a touch point, fixed-point ellipse axes.
#[derive(Clone, Copy, PartialEq, Eq, Debug)]
pub struct TouchShapeEvent {
    pub time: u32,
    pub slot: u32,
    pub major: i64,
    pub minor: i64,
}

/// The orientation of a touch point, fixed-point degrees.
#[derive(Clone, Copy, PartialEq, Eq, Debug)]
pub struct TouchOrientationEvent {
    pub time: u32,
    pub slot: u32,
    pub orientation: i64,
}

#[derive(Clone, Copy, PartialEq, Eq, Debug)]
pub enum KeyState {
    Pressed,
    Released,
}

/// The keyboard modifier state delivered alongside key events.
#[derive(Clone, Copy, PartialEq, Eq, Debug)]
pub struct ModifiersState {
    pub ctrl: bool,
    pub alt: bool,
    pub shift: bool,
    pub logo: bool,
    pub caps_lock: bool,
    pub num_lock: bool,
}

/// Every input event kind a focus target can forward, each carrying the
/// event exactly as it was handed to the dispatcher.
#[derive(Clone, PartialEq, Eq, Debug)]
pub enum InputEvent {
    PointerEnter(MotionEvent),
    PointerMotion(MotionEvent),
    RelativeMotion(RelativeMotionEvent),
    Button(ButtonEvent),
    Axis(AxisFrame),
    PointerFrame,
    PointerLeave { serial: u32, time: u32 },
    GestureSwipeBegin(GestureBeginEvent),
    GestureSwipeUpdate(GestureSwipeUpdateEvent),
    GestureSwipeEnd(GestureEndEvent),
    GesturePinchBegin(GestureBeginEvent),
    GesturePinchUpdate(GesturePinchUpdateEvent),
    GesturePinchEnd(GestureEndEvent),
    GestureHoldBegin(GestureBeginEvent),
    GestureHoldEnd(GestureEndEvent),
    TouchDown { event: TouchDownEvent, seq: u32 },
    TouchUp { event: TouchUpEvent, seq: u32 },
    TouchMotion { event: TouchMotionEvent, seq: u32 },
    TouchFrame { seq: u32 },
    TouchCancel { seq: u32 },
    TouchShape { event: TouchShapeEvent, seq: u32 },
    TouchOrientation { event: TouchOrientationEvent, seq: u32 },
    KeyboardEnter { keys: Vec<u32>, serial: u32 },
    KeyboardLeave { serial: u32 },
    Key { key: u32, state: KeyState, serial: u32, time: u32 },
    Modifiers { modifiers: ModifiersState, serial: u32 },
}

/// The handler an event is routed to: the identity of the handle that
/// receives it, by kind.
#[derive(Clone, Copy, PartialEq, Eq, Debug)]
pub enum SinkId {
    Surface(u64),
    Foreign(u64),
    Decoration(u64),
}

/// One routed event: the receiving handler and the event, unmodified. All
/// observable effects originate in the receiver's own handling; the
/// multiplexer only routes.
#[derive(Clone, PartialEq, Eq, Debug)]
pub struct Delivery {
    pub sink: SinkId,
    pub event: InputEvent,
}

impl PointerFocusTarget {
    /// The handler pointer and touch events are routed to, chosen purely by
    /// the union's active tag.
    pub open spec fn sink_spec(self) -> SinkId {
        match self {
            PointerFocusTarget::WlSurface(s) => SinkId::Surface(s.id),
            PointerFocusTarget::X11Surface(f) => SinkId::Foreign(f.id),
            PointerFocusTarget::SSD(d) => SinkId::Decoration(d.id),
        }
    }

    fn sink(&self) -> (s: SinkId)
        ensures
            s == self.sink_spec(),
    {
        match self {
            PointerFocusTarget::WlSurface(s) => SinkId::Surface(s.id),
            PointerFocusTarget::X11Surface(f) => SinkId::Foreign(f.id),
            PointerFocusTarget::SSD(d) => SinkId::Decoration(d.id),
        }
    }

    /// Forward a pointer-enter event, unmodified, to the wrapped handle.
    pub fn enter(&self, event: &MotionEvent) -> (d: Delivery)
        ensures
            d == (Delivery { sink: self.sink_spec(), event: InputEvent::PointerEnter(*event) }),
    {
        Delivery { sink: self.sink(), event: InputEvent::PointerEnter(*event) }
    }

    /// Forward an absolute-motion event, unmodified, to the wrapped handle.
    pub fn motion(&self, event: &MotionEvent) -> (d: Delivery)
        ensures
            d == (Delivery { sink: self.sink_spec(), event: InputEvent::PointerMotion(*event) }),
    {
        Delivery { sink: self.sink(), event: InputEvent::PointerMotion(*event) }
    }

    /// Forward a relative-motion event, unmodified, to the wrapped handle.
    pub fn relative_motion(&self, event: &RelativeMotionEvent) -> (d: Delivery)
        ensures
            d == (Delivery { sink: self.sink_spec(), event: InputEvent::RelativeMotion(*event) }),
    {
        Delivery { sink: self.sink(), event: InputEvent::RelativeMotion(*event) }
    }

    /// Forward a button event, unmodified, to the wrapped handle.
    pub fn button(&self, event: &ButtonEvent) -> (d: Delivery)
        ensures
            d == (Delivery { sink: self.sink_spec(), event: InputEvent::Button(*event) }),
    {
        Delivery { sink: self.sink(), event: InputEvent::Button(*event) }
    }

    /// Forward a scroll frame, unmodified, to the wrapped handle.
    pub fn axis(&self, frame: AxisFrame) -> (d: Delivery)
        ensures
            d == (Delivery { sink: self.sink_spec(), event: InputEvent::Axis(frame) }),
    {
        Delivery { sink: self.sink(), event: InputEvent::Axis(frame) }
    }

    /// Forward an end-of-pointer-event-sequence frame to the wrapped handle.
    pub fn frame(&self) -> (d: Delivery)
        ensures
            d == (Delivery { sink: self.sink_spec(), event: InputEvent::PointerFrame }),
    {
        Delivery { sink: self.sink(), event: InputEvent::PointerFrame }
    }

    /// Forward a pointer-leave notification to the wrapped handle.
    pub fn leave(&self, serial: u32, time: u32) -> (d: Delivery)
        ensures
            d == (Delivery { sink: self.sink_spec(), event: InputEvent::PointerLeave { serial, time } }),
    {
        Delivery { sink: self.sink(), event: InputEvent::PointerLeave { serial, time } }
    }

    /// Forward the start of a swipe gesture to the wrapped handle.
    pub fn gesture_swipe_begin(&self, event: &GestureBeginEvent) -> (d: Delivery)
        ensures
            d == (Delivery { sink: self.sink_spec(), event: InputEvent::GestureSwipeBegin(*event) }),
    {
        Delivery { sink: self.sink(), event: InputEvent::GestureSwipeBegin(*event) }
    }

    /// Forward swipe-gesture progress to the wrapped handle.
    pub fn gesture_swipe_update(&self, event: &GestureSwipeUpdateEvent) -> (d: Delivery)
        ensures
            d == (Delivery { sink: self.sink_spec(), event: InputEvent::GestureSwipeUpdate(*event) }),
    {
        Delivery { sink: self.sink(), event: InputEvent::GestureSwipeUpdate(*event) }
    }

    /// Forward the end of a swipe gesture to the wrapped handle.
    pub fn gesture_swipe_end(&self, event: &GestureEndEvent) -> (d: Delivery)
        ensures
            d == (Delivery { sink: self.sink_spec(), event: InputEvent::GestureSwipeEnd(*event) }),
    {
        Delivery { sink: self.sink(), event: InputEvent::GestureSwipeEnd(*event) }
    }

    /// Forward the start of a pinch gesture to the wrapped handle.
    pub fn gesture_pinch_begin(&self, event: &GestureBeginEvent) -> (d: Delivery)
        ensures
            d == (Delivery { sink: self.sink_spec(), event: InputEvent::GesturePinchBegin(*event) }),
    {
        Delivery { sink: self.sink(), event: InputEvent::GesturePinchBegin(*event) }
    }

    /// Forward pinch-gesture progress to the wrapped handle.
    pub fn gesture_pinch_update(&self, event: &GesturePinchUpdateEvent) -> (d: Delivery)
        ensures
            d == (Delivery { sink: self.sink_spec(), event: InputEvent::GesturePinchUpdate(*event) }),
    {
        Delivery { sink: self.sink(), event: InputEvent::GesturePinchUpdate(*event) }
    }

    /// Forward the end of a pinch gesture to the wrapped handle.
    pub fn gesture_pinch_end(&self, event: &GestureEndEvent) -> (d: Delivery)
        ensures
            d == (Delivery { sink: self.sink_spec(), event: InputEvent::GesturePinchEnd(*event) }),
    {
        Delivery { sink: self.sink(), event: InputEvent::GesturePinchEnd(*event) }
    }

    /// Forward the start of a hold gesture to the wrapped handle.
    pub fn gesture_hold_begin(&self, event: &GestureBeginEvent) -> (d: Delivery)
        ensures
            d == (Delivery { sink: self.sink_spec(), event: InputEvent::GestureHoldBegin(*event) }),
    {
        Delivery { sink: self.sink(), event: InputEvent::GestureHoldBegin(*event) }
    }

    /// Forward the end of a hold gesture to the wrapped handle.
    pub fn gesture_hold_end(&self, event: &GestureEndEvent) -> (d: Delivery)
        ensures
            d == (Delivery { sink: self.sink_spec(), event: InputEvent::GestureHoldEnd(*event) }),
    {
        Delivery { sink: self.sink(), event: InputEvent::GestureHoldEnd(*event) }
    }

    /// Forward a touch-down event, unmodified, to the wrapped handle.
    pub fn down(&self, event: &TouchDownEvent, seq: u32) -> (d: Delivery)
        ensures
            d == (Delivery { sink: self.sink_spec(), event: InputEvent::TouchDown { event: *event, seq } }),
    {
        Delivery { sink: self.sink(), event: InputEvent::TouchDown { event: *event, seq } }
    }

    /// Forward a touch-up event, unmodified, to the wrapped handle.
    pub fn up(&self, event: &TouchUpEvent, seq: u32) -> (d: Delivery)
        ensures
            d == (Delivery { sink: self.sink_spec(), event: InputEvent::TouchUp { event: *event, seq } }),
    {
        Delivery { sink: self.sink(), event: InputEvent::TouchUp { event: *event, seq } }
    }

    /// Forward a touch-motion event, unmodified, to the wrapped handle.
    pub fn touch_motion(&self, event: &TouchMotionEvent, seq: u32) -> (d: Delivery)
        ensures
            d == (Delivery { sink: self.sink_spec(), event: InputEvent::TouchMotion { event: *event, seq } }),
    {
        Delivery { sink: self.sink(), event: InputEvent::TouchMotion { event: *event, seq } }
    }

    /// Forward an end-of-touch-event-sequence frame to the wrapped handle.
    pub fn touch_frame(&self, seq: u32) -> (d: Delivery)
        ensures
            d == (Delivery { sink: self.sink_spec(), event: InputEvent::TouchFrame { seq } }),
    {
        Delivery { sink: self.sink(), event: InputEvent::TouchFrame { seq } }
    }

    /// Forward a touch-cancel notification to the wrapped handle.
    pub fn cancel(&self, seq: u32) -> (d: Delivery)
        ensures
            d == (Delivery { sink: self.sink_spec(), event: InputEvent::TouchCancel { seq } }),
    {
        Delivery { sink: self.sink(), event: InputEvent::TouchCancel { seq } }
    }

    /// Forward a touch-shape event, unmodified, to the wrapped handle.
    pub fn shape(&self, event: &TouchShapeEvent, seq: u32) -> (d: Delivery)
        ensures
            d == (Delivery { sink: self.sink_spec(), event: InputEvent::TouchShape { event: *event, seq } }),
    {
        Delivery { sink: self.sink(), event: InputEvent::TouchShape { event: *event, seq } }
    }

    /// Forward a touch-orientation event, unmodified, to the wrapped handle.
    pub fn orientation(&self, event: &TouchOrientationEvent, seq: u32) -> (d: Delivery)
        ensures
            d == (Delivery {
                sink: self.sink_spec(),
                event: InputEvent::TouchOrientation { event: *event, seq },
            }),
    {
        Delivery { sink: self.sink(), event: InputEvent::TouchOrientation { event: *event, seq } }
    }
}

impl KeyboardFocusTarget {
    /// The handler keyboard events are routed to: a window's underlying
    /// surface kind decides between the native and foreign handlers; a layer
    /// surface or popup routes to its backing surface.
    pub open spec fn sink_spec(self) -> SinkId {
        match self {
            KeyboardFocusTarget::Window(w) => match w.surface {
                WindowSurface::Wayland(s) => SinkId::Surface(s.id),
                WindowSurface::Foreign(f) => SinkId::Foreign(f.id),
            },
            KeyboardFocusTarget::LayerSurface(l) => SinkId::Surface(l.surface.id),
            KeyboardFocusTarget::Popup(p) => SinkId::Surface(p.surface.id),
        }
    }

    fn sink(&self) -> (s: SinkId)
        ensures
            s == self.sink_spec(),
    {
        match self {
            KeyboardFocusTarget::Window(w) => match w.surface {
                WindowSurface::Wayland(s) => SinkId::Surface(s.id),
                WindowSurface::Foreign(f) => SinkId::Foreign(f.id),
            },
            KeyboardFocusTarget::LayerSurface(l) => SinkId::Surface(l.surface.id),
            KeyboardFocusTarget::Popup(p) => SinkId::Surface(p.surface.id),
        }
    }

    /// Forward a keyboard-enter notification, with the keys already held
    /// down, to the wrapped handle.
    pub fn enter(&self, keys: Vec<u32>, serial: u32) -> (d: Delivery)
        ensures
            d == (Delivery { sink: self.sink_spec(), event: InputEvent::KeyboardEnter { keys, serial } }),
    {
        Delivery { sink: self.sink(), event: InputEvent::KeyboardEnter { keys, serial } }
    }

    /// Forward a keyboard-leave notification to the wrapped handle.
    pub fn leave(&self, serial: u32) -> (d: Delivery)
        ensures
            d == (Delivery { sink: self.sink_spec(), event: InputEvent::KeyboardLeave { serial } }),
    {
        Delivery { sink: self.sink(), event: InputEvent::KeyboardLeave { serial } }
    }

    /// Forward a key press or release, unmodified, to the wrapped handle.
    pub fn key(&self, key: u32, state: KeyState, serial: u32, time: u32) -> (d: Delivery)
        ensures
            d == (Delivery { sink: self.sink_spec(), event: InputEvent::Key { key, state, serial, time } }),
    {
        Delivery { sink: self.sink(), event: InputEvent::Key { key, state, serial, time } }
    }

    /// Forward a modifier-state change, unmodified, to the wrapped handle.
    pub fn modifiers(&self, modifiers: ModifiersState, serial: u32) -> (d: Delivery)
        ensures
            d == (Delivery { sink: self.sink_spec(), event: InputEvent::Modifiers { modifiers, serial } }),
    {
        Delivery { sink: self.sink(), event: InputEvent::Modifiers { modifiers, serial } }
    }
}

} // verus!
