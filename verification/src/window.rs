//! The bar's surface: created hidden as a thin Handle at the bottom edge, and
//! resized as the keyboard is shown and hidden.

use crate::layout::{KeyboardView, ViewWidth};
use crate::request::{
    Anchor, Global, Interface, KeyboardInteractivity, Layer, RegistryEvent, Request, RequestModel,
};
use crate::state::{queue_kept, KeyboardModel, MechanixKeyboardState};
use vstd::prelude::*;

verus! {

/// Height in logical pixels of the Handle: the full-width band at the bottom
/// edge, always drawn, whose tap shows or hides the keyboard. It is the whole bar
/// while hidden, and is added below the keyboard while shown.
pub const HANDLE_HEIGHT: u32 = 40;

/// The globals the bar needs.
#[derive(Debug, Clone, Copy, PartialEq, Eq, Structural)]
pub struct WaylandGlobals {
    pub compositor: Option<Global>,
    pub output: Option<Global>,
    pub layer_shell: Option<Global>,
    pub dmabuf: Option<Global>,
}

impl WaylandGlobals {
    /// Nothing bound.
    pub open spec fn unbound() -> WaylandGlobals {
        WaylandGlobals { compositor: None, output: None, layer_shell: None, dmabuf: None }
    }
}

impl Default for WaylandGlobals {
    fn default() -> (globals: Self)
        ensures
            globals == WaylandGlobals::unbound(),
    {
        WaylandGlobals { compositor: None, output: None, layer_shell: None, dmabuf: None }
    }
}

/// A buffer slot: the buffer's object id, and whether the compositor has handed
/// it back.
#[derive(Debug, Clone, Copy, PartialEq, Eq, Structural)]
pub struct Slot {
    pub buffer_id: u32,
    pub released: bool,
}

/// The bar's surface.
#[derive(Debug, Clone, Copy)]
pub struct WindowState {
    /// Both buffer slots, once allocated.
    pub slots: Option<[Slot; 2]>,
    /// Which slot is drawn to next.
    pub back: usize,
    pub physical_width: u32,
    pub physical_height: u32,
    pub logical_width: u32,
    pub logical_height: u32,
    /// The height last asked for, so that it is asked for again only when it
    /// changes.
    pub requested_height: u32,
    /// A frame is due but its buffer is still in flight.
    pub pending_frame: bool,
    /// Whether the keyboard shows above the Handle.
    pub visible: bool,
}

/// The mathematical model of a [`WindowState`].
#[verifier::ext_equal]
pub struct WindowModel {
    pub slots: Option<Seq<Slot>>,
    pub back: usize,
    pub physical_width: u32,
    pub physical_height: u32,
    pub logical_width: u32,
    pub logical_height: u32,
    pub requested_height: u32,
    pub pending_frame: bool,
    pub visible: bool,
}

impl View for WindowState {
    type V = WindowModel;

    open spec fn view(&self) -> WindowModel {
        WindowModel {
            slots: match self.slots {
                Some(slots) => Some(slots@),
                None => None,
            },
            back: self.back,
            physical_width: self.physical_width,
            physical_height: self.physical_height,
            logical_width: self.logical_width,
            logical_height: self.logical_height,
            requested_height: self.requested_height,
            pending_frame: self.pending_frame,
            visible: self.visible,
        }
    }
}

/// A layer-surface event.
#[derive(Debug, Clone, Copy, PartialEq, Eq, Structural)]
pub enum LayerSurfaceEvent {
    Configure { serial: u32, width: u32, height: u32 },
    Closed,
}

/// An output event.
#[derive(Debug, Clone, Copy, PartialEq, Eq, Structural)]
pub enum OutputEvent {
    Scale { factor: i32 },
    Other,
}

/// The Handle's place on the surface, in logical pixels.
#[derive(Debug, Clone, Copy, PartialEq, Eq, Structural)]
pub struct HandleRect {
    pub x: u32,
    pub y: i64,
    pub width: u32,
    pub height: u32,
}

impl WindowModel {
    /// A surface just created: hidden, of unknown size, with the Handle's height
    /// asked for.
    pub open spec fn created() -> WindowModel {
        WindowModel {
            slots: None,
            back: 0,
            physical_width: 0,
            physical_height: 0,
            logical_width: 0,
            logical_height: 0,
            requested_height: HANDLE_HEIGHT,
            pending_frame: false,
            visible: false,
        }
    }

    /// The logical width a configure settles on: the granted one, or while none
    /// is granted the present one, at least a pixel.
    pub open spec fn settled_width(self, granted: u32) -> u32 {
        if granted != 0 {
            granted
        } else if self.logical_width == 0 {
            1
        } else {
            self.logical_width
        }
    }

    /// The Handle's place: the bottom band, full width, once the size is known.
    pub open spec fn handle(self) -> Option<HandleRect> {
        if self.logical_width == 0 || self.logical_height == 0 {
            None
        } else {
            Some(
                HandleRect {
                    x: 0,
                    y: (self.logical_height - HANDLE_HEIGHT) as i64,
                    width: self.logical_width,
                    height: HANDLE_HEIGHT,
                },
            )
        }
    }

    /// The slots once the compositor has handed back the buffer `id`.
    pub open spec fn with_released(self, id: u32) -> WindowModel {
        WindowModel {
            slots: match self.slots {
                Some(slots) => Some(
                    Seq::new(
                        slots.len(),
                        |i: int|
                            Slot {
                                released: slots[i].released || slots[i].buffer_id == id,
                                ..slots[i]
                            },
                    ),
                ),
                None => None,
            },
            ..self
        }
    }
}

/// Height of the bar: the keyboard plus the Handle while shown, the Handle alone
/// while hidden.
pub open spec fn bar_height(visible: bool, kb_height: u32) -> int {
    if visible {
        kb_height + HANDLE_HEIGHT
    } else {
        HANDLE_HEIGHT as int
    }
}

/// The output scale in force: at least one.
pub open spec fn effective_scale(scale: i32) -> i32 {
    if scale < 1 {
        1
    } else {
        scale
    }
}

impl KeyboardModel {
    /// The state with its window replaced.
    pub open spec fn with_window(self, window: WindowModel) -> KeyboardModel {
        KeyboardModel { window: Some(window), ..self }
    }

    /// The showing view exists and has a positive width.
    pub open spec fn has_measurable_view(self) -> bool {
        self.current() matches Some(view) && view.width == ViewWidth::Positive
    }

    /// The showing view exists and its width does not rule out scaling it: that a
    /// width is not a number does not, as it is not at most zero.
    pub open spec fn has_scalable_view(self) -> bool {
        self.current() matches Some(view) && view.width != ViewWidth::NotPositive
    }

    /// The registry asked for, and a callback once it has been sent.
    pub open spec fn started(self) -> KeyboardModel {
        self.send(RequestModel::GetRegistry).send(RequestModel::Sync)
    }

    /// The output's scale taken over, if it is positive.
    pub open spec fn output_event(self, event: OutputEvent) -> KeyboardModel {
        match event {
            OutputEvent::Scale { factor } if factor > 0 => KeyboardModel { scale: factor, ..self },
            _ => self,
        }
    }

    /// A global the bar needs is bound when it is advertised.
    pub open spec fn window_registry(self, event: RegistryEvent) -> KeyboardModel {
        match event {
            RegistryEvent::Global { name, interface, version } => {
                let bound = Some(Global { name, version });
                let sent = self.send(RequestModel::Bind { interface, name, version });
                match interface {
                    Interface::Compositor => KeyboardModel {
                        globals: WaylandGlobals { compositor: bound, ..self.globals },
                        ..sent
                    },
                    Interface::LayerShell => KeyboardModel {
                        globals: WaylandGlobals { layer_shell: bound, ..self.globals },
                        ..sent
                    },
                    Interface::Output => KeyboardModel {
                        globals: WaylandGlobals { output: bound, ..self.globals },
                        ..sent
                    },
                    Interface::LinuxDmabuf => KeyboardModel {
                        globals: WaylandGlobals { dmabuf: bound, ..self.globals },
                        ..sent
                    },
                    _ => self,
                }
            },
            RegistryEvent::GlobalRemove { name } => self,
        }
    }

    /// The surface is created once, as soon as the compositor and the layer
    /// shell are bound: hidden, anchored to the bottom, with a constant zone of
    /// the Handle's height reserved.
    pub open spec fn window_created(self) -> KeyboardModel {
        if self.window is None && self.globals.compositor is Some && self.globals.layer_shell
            is Some {
            self.with_window(WindowModel::created()).send_all(
                seq![
                    RequestModel::CreateLayerSurface {
                        layer: Layer::Top,
                        namespace: "mechanix-keyboard"@,
                    },
                    RequestModel::SetSize { width: 0, height: HANDLE_HEIGHT },
                    RequestModel::SetAnchor(
                        Anchor { top: false, bottom: true, left: true, right: true },
                    ),
                    RequestModel::SetExclusiveZone { zone: HANDLE_HEIGHT as i32 },
                    RequestModel::SetKeyboardInteractivity(KeyboardInteractivity::Never),
                    RequestModel::CommitSurface,
                ],
            )
        } else {
            self
        }
    }

    /// A frame callback that was waited for repaints; any other callback is the
    /// registry roundtrip, which creates the surface.
    pub open spec fn callback_done(self, id: Option<u32>) -> KeyboardModel {
        match id {
            Some(id) => if self.frame_callbacks.contains(id) {
                KeyboardModel {
                    frame_callbacks: self.frame_callbacks.remove(id),
                    ..self
                }.send(RequestModel::Render)
            } else {
                self.window_created()
            },
            None => self,
        }
    }

    /// Setting the visibility has an effect: the window exists, has a width, is
    /// not so already, and the showing view has a positive width.
    pub open spec fn visibility_applies(self, visible: bool) -> bool {
        &&& self.window matches Some(window) && window.visible != visible && window.logical_width
            > 0
        &&& self.has_measurable_view()
    }

    /// Setting the visibility does not make the bar taller than a height can say.
    pub open spec fn visibility_in_range(self, visible: bool, kb_height: u32) -> bool {
        self.visibility_applies(visible) ==> bar_height(visible, kb_height) <= u32::MAX
    }

    /// The state once the keyboard is shown or hidden: the matching bar height is
    /// asked for.
    pub open spec fn with_visibility(self, visible: bool, kb_height: u32) -> KeyboardModel {
        if self.visibility_applies(visible) {
            let height = bar_height(visible, kb_height) as u32;
            self.with_window(
                WindowModel { visible, requested_height: height, ..self.window->0 },
            ).send_all(
                seq![RequestModel::SetSize { width: 0, height }, RequestModel::CommitSurface],
            )
        } else {
            self
        }
    }

    /// A configure is acted upon: buffers can be made, the showing view can be
    /// scaled, and the window exists.
    pub open spec fn configure_applies(self, event: LayerSurfaceEvent) -> bool {
        &&& event is Configure
        &&& self.globals.dmabuf is Some
        &&& self.has_scalable_view()
        &&& self.window is Some
    }

    /// A configure acknowledged, with the width it settles on.
    pub open spec fn acknowledged(self, serial: u32, width: u32) -> KeyboardModel {
        self.with_window(
            WindowModel {
                logical_width: self.window->0.settled_width(width),
                ..self.window->0
            },
        ).send(RequestModel::AckConfigure { serial })
    }

    /// The height of the bar is asked for anew.
    pub open spec fn height_requested(self, height: u32) -> KeyboardModel {
        self.with_window(WindowModel { requested_height: height, ..self.window->0 }).send_all(
            seq![RequestModel::SetSize { width: 0, height }, RequestModel::CommitSurface],
        )
    }

    /// The bar is painted at a logical height, in fresh buffers if their
    /// physical size changes.
    pub open spec fn presented(self, height: u32) -> KeyboardModel {
        let window = self.window->0;
        let scale = effective_scale(self.scale);
        let physical_width = (window.logical_width * scale) as u32;
        let physical_height = (height * scale) as u32;
        if window.slots is None || window.physical_width != physical_width
            || window.physical_height != physical_height {
            self.with_window(
                WindowModel { logical_height: height, physical_width, physical_height, ..window },
            ).send_all(
                seq![
                    RequestModel::SetBufferScale { scale },
                    RequestModel::AllocSlots { width: physical_width, height: physical_height },
                    RequestModel::Render,
                ],
            )
        } else {
            self.send(RequestModel::Render)
        }
    }

    /// The state after a configure. `kb_height` is the height of the showing view
    /// at the width the configure settles on. The configure is acknowledged; if
    /// the bar's height is not the one last asked for, it is asked for and the
    /// next configure awaited; otherwise the bar is painted. A shown keyboard
    /// without height stops after the acknowledgement.
    pub open spec fn configured(self, event: LayerSurfaceEvent, kb_height: u32) -> KeyboardModel {
        if self.configure_applies(event) {
            let acknowledged = self.acknowledged(
                event->Configure_serial,
                event->Configure_width,
            );
            let visible = self.window->0.visible;
            let height = bar_height(visible, kb_height) as u32;
            if visible && kb_height == 0 {
                acknowledged
            } else if self.window->0.requested_height != height {
                acknowledged.height_requested(height)
            } else {
                acknowledged.presented(height)
            }
        } else {
            self
        }
    }

    /// The bar's height and the buffer's size can be said: the height always, the
    /// size when the bar is painted.
    pub open spec fn configure_in_range(self, event: LayerSurfaceEvent, kb_height: u32) -> bool {
        self.configure_applies(event) ==> {
            let window = self.window->0;
            let height = bar_height(window.visible, kb_height);
            let scale = effective_scale(self.scale);
            &&& height <= u32::MAX
            &&& !(window.visible && kb_height == 0) && window.requested_height == height ==> {
                &&& window.settled_width(event->Configure_width) * scale <= u32::MAX
                &&& height * scale <= u32::MAX
            }
        }
    }

    /// A buffer handed back can be drawn to again, and a frame that waited for
    /// one is painted.
    pub open spec fn buffer_released(self, id: Option<u32>) -> KeyboardModel {
        match (id, self.window) {
            (Some(id), Some(window)) => {
                let released = self.with_window(window.with_released(id));
                if window.pending_frame {
                    released.send(RequestModel::Render)
                } else {
                    released
                }
            },
            _ => self,
        }
    }
}

/// Starts the registry roundtrip that discovers the globals.
pub fn on_start(s: &mut MechanixKeyboardState)
    ensures
        queue_kept(old(s).outbox@, final(s).outbox@),
        final(s)@ == old(s)@.started(),
{
    s.send(Request::GetRegistry);
    s.send(Request::Sync);
}

/// Binds the globals the bar needs as the registry advertises them.
pub fn on_registry(s: &mut MechanixKeyboardState, event: &RegistryEvent)
    ensures
        queue_kept(old(s).outbox@, final(s).outbox@),
        final(s)@ == old(s)@.window_registry(*event),
{
    match *event {
        RegistryEvent::Global { name, interface, version } => {
            let bound: Option<Global> = Some(Global { name, version });
            match interface {
                Interface::Compositor => {
                    s.globals.compositor = bound;
                },
                Interface::LayerShell => {
                    s.globals.layer_shell = bound;
                },
                Interface::Output => {
                    s.globals.output = bound;
                },
                Interface::LinuxDmabuf => {
                    s.globals.dmabuf = bound;
                },
                _ => {
                    return ;
                },
            }
            s.send(Request::Bind { interface, name, version });
        },
        RegistryEvent::GlobalRemove { .. } => {},
    }
}

/// Tracks the output's buffer scale; a factor that is not positive is ignored.
pub fn on_output(s: &mut MechanixKeyboardState, event: &OutputEvent)
    ensures
        queue_kept(old(s).outbox@, final(s).outbox@),
        final(s)@ == old(s)@.output_event(*event),
{
    if let OutputEvent::Scale { factor } = *event {
        if factor > 0 {
            s.scale = factor;
        }
    }
}

/// Creates the bar's surface once the globals are there, without a buffer yet:
/// that waits for the first configure. Does nothing if it exists already.
pub fn create_window(s: &mut MechanixKeyboardState)
    ensures
        queue_kept(old(s).outbox@, final(s).outbox@),
        final(s)@ == old(s)@.window_created(),
{
    if s.window.is_some() {
        return ;
    }
    if s.globals.compositor.is_none() || s.globals.layer_shell.is_none() {
        return ;
    }
    s.send(
        Request::CreateLayerSurface {
            layer: Layer::Top,
            namespace: "mechanix-keyboard".to_owned(),
        },
    );
    s.send(Request::SetSize { width: 0, height: HANDLE_HEIGHT });
    s.send(Request::SetAnchor(Anchor { top: false, bottom: true, left: true, right: true }));
    // A constant zone in both states, so that toggling never moves other
    // windows; a shown keyboard overlaps their bottom content.
    s.send(Request::SetExclusiveZone { zone: HANDLE_HEIGHT as i32 });
    s.send(Request::SetKeyboardInteractivity(KeyboardInteractivity::Never));
    s.send(Request::CommitSurface);
    s.window =
    Some(
        WindowState {
            slots: None,
            back: 0,
            physical_width: 0,
            physical_height: 0,
            logical_width: 0,
            logical_height: 0,
            requested_height: HANDLE_HEIGHT,
            pending_frame: false,
            visible: false,
        },
    );
    assert(s@ =~= old(s)@.window_created());
}

/// A callback fired: repaint if it was a frame callback, else create the surface.
/// `id` is the callback's object id, if it still has one.
pub fn on_callback(s: &mut MechanixKeyboardState, id: Option<u32>)
    ensures
        queue_kept(old(s).outbox@, final(s).outbox@),
        final(s)@ == old(s)@.callback_done(id),
{
    let id: u32 = match id {
        Some(id) => id,
        None => {
            return ;
        },
    };
    if s.frame_callbacks.remove(&id) {
        s.send(Request::Render);
    } else {
        create_window(s);
    }
}

/// Whether the showing view exists and has a positive width.
fn has_measurable_view(s: &MechanixKeyboardState) -> (measurable: bool)
    ensures
        measurable == s@.has_measurable_view(),
{
    match s.current_view() {
        Some(view) => view.width == ViewWidth::Positive,
        None => false,
    }
}

/// Whether the showing view exists and is not of zero width or less.
fn has_scalable_view(s: &MechanixKeyboardState) -> (scalable: bool)
    ensures
        scalable == s@.has_scalable_view(),
{
    match s.current_view() {
        Some(view) => view.width != ViewWidth::NotPositive,
        None => false,
    }
}

/// The width a configure settles on, given the width it grants. Nothing without
/// a window.
pub fn settled_width(s: &MechanixKeyboardState, granted: u32) -> (width: Option<u32>)
    ensures
        width == match s@.window {
            Some(window) => Some(window.settled_width(granted)),
            None => None,
        },
{
    match &s.window {
        Some(window) => Some(
            if granted != 0 {
                granted
            } else if window.logical_width == 0 {
                1
            } else {
                window.logical_width
            },
        ),
        None => None,
    }
}

/// Whether a configure can be handled without leaving the range of heights and
/// buffer sizes.
pub fn configure_in_range(
    s: &MechanixKeyboardState,
    event: &LayerSurfaceEvent,
    kb_height: u32,
) -> (in_range: bool)
    ensures
        in_range == s@.configure_in_range(*event, kb_height),
{
    let granted: u32 = match *event {
        LayerSurfaceEvent::Configure { width, .. } => width,
        LayerSurfaceEvent::Closed => {
            return true;
        },
    };
    if s.globals.dmabuf.is_none() || !has_scalable_view(s) {
        return true;
    }
    let width: u32 = match settled_width(s, granted) {
        Some(width) => width,
        None => {
            return true;
        },
    };
    let window: WindowState = s.window.unwrap();
    let scale: u64 = if s.scale < 1 {
        1
    } else {
        s.scale as u64
    };
    let height: u64 = if window.visible {
        kb_height as u64 + HANDLE_HEIGHT as u64
    } else {
        HANDLE_HEIGHT as u64
    };
    if height > u32::MAX as u64 {
        return false;
    }
    if (window.visible && kb_height == 0) || window.requested_height as u64 != height {
        return true;
    }
    assert(width * scale <= u32::MAX * i32::MAX && height * scale <= u32::MAX * i32::MAX)
        by (nonlinear_arith)
        requires
            0 <= width <= u32::MAX,
            0 <= height <= u32::MAX,
            0 <= scale <= i32::MAX,
    ;
    width as u64 * scale <= u32::MAX as u64 && height * scale <= u32::MAX as u64
}

/// The compositor sized the surface. It grants the width; the height follows from
/// the visibility and the showing view.
///
/// `kb_height` is the height of the showing view at the width that
/// [`settled_width`] gives for this event.
pub fn on_configure(s: &mut MechanixKeyboardState, event: &LayerSurfaceEvent, kb_height: u32)
    requires
        old(s)@.configure_in_range(*event, kb_height),
    ensures
        queue_kept(old(s).outbox@, final(s).outbox@),
        final(s)@ == old(s)@.configured(*event, kb_height),
{
    let (serial, granted): (u32, u32) = match *event {
        LayerSurfaceEvent::Configure { serial, width, .. } => (serial, width),
        LayerSurfaceEvent::Closed => {
            return ;
        },
    };
    if s.globals.dmabuf.is_none() || !has_scalable_view(s) {
        return ;
    }
    let width: u32 = match settled_width(s, granted) {
        Some(width) => width,
        None => {
            return ;
        },
    };
    let scale: i32 = if s.scale < 1 {
        1
    } else {
        s.scale
    };
    let mut window: WindowState = s.window.unwrap();
    s.send(Request::AckConfigure { serial });
    window.logical_width = width;
    s.window = Some(window);
    let ghost acknowledged = s@;
    assert(acknowledged =~= old(s)@.acknowledged(serial, granted));

    // Shown: keyboard height plus the Handle. Hidden: the Handle alone, whatever
    // the granted width.
    let height: u32 = if window.visible {
        if kb_height == 0 {
            return ;
        }
        kb_height + HANDLE_HEIGHT
    } else {
        HANDLE_HEIGHT
    };
    if window.requested_height != height {
        // Ask for the height this state wants and wait for the next configure.
        window.requested_height = height;
        s.window = Some(window);
        s.send(Request::SetSize { width: 0, height });
        s.send(Request::CommitSurface);
        assert(s@ =~= acknowledged.height_requested(height));
        return ;
    }
    let buffer_width: u32 = width * scale as u32;
    let buffer_height: u32 = height * scale as u32;
    if window.slots.is_none() || window.physical_width != buffer_width || window.physical_height
        != buffer_height {
        window.logical_height = height;
        window.physical_width = buffer_width;
        window.physical_height = buffer_height;
        s.window = Some(window);
        s.send(Request::SetBufferScale { scale });
        s.send(Request::AllocSlots { width: buffer_width, height: buffer_height });
    }
    s.send(Request::Render);
    assert(s@ =~= acknowledged.presented(height));
}

/// Puts freshly allocated buffer slots in place.
pub fn install_slots(s: &mut MechanixKeyboardState, slots: [Slot; 2])
    requires
        old(s)@.window is Some,
    ensures
        queue_kept(old(s).outbox@, final(s).outbox@),
        final(s)@ == old(s)@.with_window(
            WindowModel { slots: Some(slots@), ..old(s)@.window->0 },
        ),
{
    let mut window: WindowState = s.window.unwrap();
    window.slots = Some(slots);
    s.window = Some(window);
}

/// The compositor handed a buffer back: mark it drawable, and paint the frame
/// that was waiting for one. `id` is the buffer's object id, if it still has one.
pub fn on_buffer_release(s: &mut MechanixKeyboardState, id: Option<u32>)
    ensures
        queue_kept(old(s).outbox@, final(s).outbox@),
        final(s)@ == old(s)@.buffer_released(id),
{
    let id: u32 = match id {
        Some(id) => id,
        None => {
            return ;
        },
    };
    let mut window: WindowState = match s.window {
        Some(window) => window,
        None => {
            return ;
        },
    };
    if let Some(slots) = window.slots {
        let mut slots: [Slot; 2] = slots;
        let mut i: usize = 0;
        let ghost before = slots@;
        while i < 2
            invariant
                i <= 2,
                before.len() == 2,
                slots@.len() == 2,
                forall|j: int|
                    0 <= j < i ==> #[trigger] slots@[j] == (Slot {
                        released: before[j].released || before[j].buffer_id == id,
                        ..before[j]
                    }),
                forall|j: int| i <= j < 2 ==> #[trigger] slots@[j] == before[j],
            decreases 2 - i,
        {
            if slots[i].buffer_id == id {
                let slot: Slot = slots[i];
                slots[i] = Slot { buffer_id: slot.buffer_id, released: true };
            }
            i = i + 1;
        }
        window.slots = Some(slots);
    }
    s.window = Some(window);
    assert(s@ =~= old(s)@.with_window(old(s)@.window->0.with_released(id)));
    if window.pending_frame {
        s.send(Request::Render);
    }
}

/// The Handle's place on the surface: the bottom band, full width. Nothing until
/// the surface's size is known. While hidden the bar is no taller, so the Handle
/// is the whole surface.
pub fn handle_rect(s: &MechanixKeyboardState) -> (rect: Option<HandleRect>)
    ensures
        rect == match s@.window {
            Some(window) => window.handle(),
            None => None,
        },
{
    match &s.window {
        Some(window) => if window.logical_width == 0 || window.logical_height == 0 {
            None
        } else {
            Some(
                HandleRect {
                    x: 0,
                    y: window.logical_height as i64 - HANDLE_HEIGHT as i64,
                    width: window.logical_width,
                    height: HANDLE_HEIGHT,
                },
            )
        },
        None => None,
    }
}

/// Whether setting the visibility would have an effect.
pub fn visibility_applies(s: &MechanixKeyboardState, visible: bool) -> (applies: bool)
    ensures
        applies == s@.visibility_applies(visible),
{
    match &s.window {
        Some(window) => window.visible != visible && window.logical_width > 0
            && has_measurable_view(s),
        None => false,
    }
}

/// Whether the keyboard can be shown or hidden without leaving the range of
/// heights.
pub fn visibility_in_range(
    s: &MechanixKeyboardState,
    visible: bool,
    kb_height: u32,
) -> (in_range: bool)
    ensures
        in_range == s@.visibility_in_range(visible, kb_height),
{
    !visibility_applies(s, visible) || !visible || kb_height <= u32::MAX - HANDLE_HEIGHT
}

/// Shows or hides the keyboard and asks for the matching bar height. Does nothing
/// if it is so already, or while the window's width or the view is unknown.
///
/// `kb_height` is the height of the showing view at the window's logical width.
pub fn set_visibility(s: &mut MechanixKeyboardState, visible: bool, kb_height: u32)
    requires
        old(s)@.visibility_in_range(visible, kb_height),
    ensures
        queue_kept(old(s).outbox@, final(s).outbox@),
        final(s)@ == old(s)@.with_visibility(visible, kb_height),
{
    if !visibility_applies(s, visible) {
        return ;
    }
    let mut window: WindowState = s.window.unwrap();
    let height: u32 = if visible {
        kb_height + HANDLE_HEIGHT
    } else {
        HANDLE_HEIGHT
    };
    window.visible = visible;
    window.requested_height = height;
    s.window = Some(window);
    s.send(Request::SetSize { width: 0, height });
    s.send(Request::CommitSurface);
    assert(s@ =~= old(s)@.with_visibility(visible, kb_height));
}

impl KeyboardModel {
    /// The state with the keyboard shown if it was hidden and hidden if it was
    /// shown.
    pub open spec fn toggled_visibility(self, kb_height: u32) -> KeyboardModel {
        self.with_visibility(!self.window->0.visible, kb_height)
    }

    /// Toggling does not make the bar taller than a height can say.
    pub open spec fn toggle_in_range(self, kb_height: u32) -> bool {
        self.visibility_in_range(!self.window->0.visible, kb_height)
    }
}

/// Whether the visibility can be flipped without leaving the range of heights.
pub fn toggle_in_range(s: &MechanixKeyboardState, kb_height: u32) -> (in_range: bool)
    ensures
        in_range == s@.toggle_in_range(kb_height),
{
    match &s.window {
        Some(window) => visibility_in_range(s, !window.visible, kb_height),
        None => true,
    }
}

/// Flips the visibility and asks for the matching bar height; the configure that
/// follows allocates and repaints.
pub fn toggle_visibility(s: &mut MechanixKeyboardState, kb_height: u32)
    requires
        old(s)@.window is Some,
        old(s)@.toggle_in_range(kb_height),
    ensures
        queue_kept(old(s).outbox@, final(s).outbox@),
        final(s)@ == old(s)@.toggled_visibility(kb_height),
{
    let visible: bool = s.window.unwrap().visible;
    set_visibility(s, !visible, kb_height);
}

impl KeyboardModel {
    /// The keys can be hit: there is a showing view to scale and a window with a
    /// width to scale it to.
    pub open spec fn has_live_view(self) -> bool {
        &&& self.has_scalable_view()
        &&& self.window matches Some(window) && window.logical_width > 0
    }
}

/// The showing view and the logical width it is scaled to. Nothing until both the
/// view and the width are known.
pub fn view_and_width(s: &MechanixKeyboardState) -> (live: Option<(&KeyboardView, u32)>)
    ensures
        match live {
            Some((view, width)) => {
                &&& s@.has_live_view()
                &&& s@.current() == Some(view@)
                &&& width == s@.window->0.logical_width
            },
            None => !s@.has_live_view(),
        },
{
    match (s.current_view(), &s.window) {
        (Some(view), Some(window)) => if view.width != ViewWidth::NotPositive
            && window.logical_width > 0 {
            Some((view, window.logical_width))
        } else {
            None
        },
        _ => None,
    }
}

} // verus!
