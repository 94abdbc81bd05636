//! The virtual keyboard: typing keysyms, latching modifiers, switching views, and
//! the pointer and touch input that leads there.

use crate::latch::{combined_mask, is_combined_mask, LatchSet};
use crate::layout::{
    action_hit, find_first, first_named, label_hit, KeyAction, KeyActionModel, KeyboardView,
};
use crate::request::{Global, Interface, KeyState, RegistryEvent, Request, RequestModel};
use crate::state::{queue_kept, text_of, KeyboardModel, MechanixKeyboardState};
use crate::window::{handle_rect, toggle_in_range, toggle_visibility, view_and_width};
use crate::xkb::{char_keysym, keysym_from_char, scan_keycodes, Keystroke, XkbKeymap, XkbModel};
use std::collections::HashMap;
use std::time::Instant;
use vstd::hash_map::StringHashMap;
use vstd::prelude::*;

verus! {

/// All state of the virtual keyboard.
pub struct VirtualKeyboardState {
    /// The bound seat.
    pub seat: Option<Global>,
    /// Whether the seat's pointer has been obtained.
    pub pointer: bool,
    /// Whether the seat's keyboard has been obtained.
    pub keyboard: bool,
    /// Whether the seat's touch device has been obtained.
    pub touch: bool,
    /// The bound virtual-keyboard manager.
    pub virtual_keyboard_manager: Option<Global>,
    /// Whether the virtual keyboard exists and has its keymap.
    pub virtual_keyboard: bool,
    /// What time stamps count from.
    pub start_time: Instant,
    /// Size in bytes of the uploaded keymap.
    pub keymap: Option<u32>,
    /// Keysym to keystroke, from the uploaded keymap. Empty until one is
    /// uploaded, and typing does nothing until then.
    pub keycodes: HashMap<u32, Keystroke>,
    /// Modifier name to its mask; only modifiers that can be latched are here.
    pub mod_masks: StringHashMap<u32>,
    /// The modifiers armed for the next key that fires, which disarms them.
    pub latched: LatchSet,
}

/// The mathematical model of a [`VirtualKeyboardState`].
#[verifier::ext_equal]
pub struct VirtualKeyboardModel {
    pub seat: Option<Global>,
    pub pointer: bool,
    pub keyboard: bool,
    pub touch: bool,
    pub virtual_keyboard_manager: Option<Global>,
    pub virtual_keyboard: bool,
    pub start_time: Instant,
    pub keymap: Option<u32>,
    pub keycodes: Map<u32, Keystroke>,
    pub mod_masks: Map<Seq<char>, u32>,
    pub latched: Set<Seq<char>>,
}

impl View for VirtualKeyboardState {
    type V = VirtualKeyboardModel;

    open spec fn view(&self) -> VirtualKeyboardModel {
        VirtualKeyboardModel {
            seat: self.seat,
            pointer: self.pointer,
            keyboard: self.keyboard,
            touch: self.touch,
            virtual_keyboard_manager: self.virtual_keyboard_manager,
            virtual_keyboard: self.virtual_keyboard,
            start_time: self.start_time,
            keymap: self.keymap,
            keycodes: self.keycodes@,
            mod_masks: self.mod_masks@,
            latched: self.latched@,
        }
    }
}

/// What a seat has.
#[derive(Debug, Clone, Copy, PartialEq, Eq, Structural)]
pub struct SeatCapabilities {
    pub keyboard: bool,
    pub pointer: bool,
    pub touch: bool,
}

/// A seat event.
#[derive(Debug, Clone, Copy, PartialEq, Eq, Structural)]
pub enum SeatEvent {
    Capabilities(SeatCapabilities),
    Other,
}

/// What one pointer event amounts to on the present surface.
pub struct PointerFrame {
    /// The left button went down inside the Handle.
    pub pressed_handle: bool,
    /// For each key of the showing view, whether the pointer is over it.
    pub hover: Vec<bool>,
    /// If the left button went down: for each key of the showing view, whether it
    /// went down on it.
    pub pressed: Option<Vec<bool>>,
}

/// What one touch event amounts to on the present surface.
pub struct TouchFrame {
    /// A tap completed inside the Handle.
    pub tapped_handle: bool,
    /// For each key of the showing view, whether a tap completed on it.
    pub tapped: Vec<bool>,
}

/// The requests of one keystroke: the key goes down and up, and any modifiers are
/// held around it and let go of after.
pub open spec fn keystroke_requests(code: u32, mods: u32) -> Seq<RequestModel> {
    let tap = seq![
        RequestModel::Key { code, state: KeyState::Pressed },
        RequestModel::Key { code, state: KeyState::Released },
    ];
    if mods == 0 {
        tap
    } else {
        seq![RequestModel::Modifiers { depressed: mods, latched: 0, locked: 0, group: 0 }] + tap
            + seq![RequestModel::Modifiers { depressed: 0, latched: 0, locked: 0, group: 0 }]
    }
}

impl VirtualKeyboardModel {
    /// Nothing bound, nothing to type with, nothing latched.
    pub open spec fn is_fresh(self) -> bool {
        &&& self.seat is None
        &&& !self.pointer && !self.keyboard && !self.touch
        &&& self.virtual_keyboard_manager is None
        &&& !self.virtual_keyboard
        &&& self.keymap is None
        &&& self.keycodes == Map::<u32, Keystroke>::empty()
        &&& self.mod_masks == Map::<Seq<char>, u32>::empty()
        &&& self.latched == Set::<Seq<char>>::empty()
    }

    /// The requests that type a keysym: its keystroke, with the latched modifiers
    /// held besides its own. None if the keymap lacks the keysym or the virtual
    /// keyboard is not ready.
    pub open spec fn strokes(self, keysym: u32) -> Seq<RequestModel> {
        if self.keycodes.contains_key(keysym) && self.virtual_keyboard {
            let stroke = self.keycodes[keysym];
            keystroke_requests(
                stroke.code,
                stroke.mods | combined_mask(self.latched, self.mod_masks),
            )
        } else {
            seq![]
        }
    }

    /// The requests that type a text: those of each character in turn.
    pub open spec fn text_strokes(self, text: Seq<char>) -> Seq<RequestModel>
        decreases text.len(),
    {
        if text.len() == 0 {
            seq![]
        } else {
            self.text_strokes(text.drop_last()) + self.strokes(char_keysym(text.last()))
        }
    }

    /// The requests that type an action: those of its keysym or its text, and none
    /// for an action that is no keystroke.
    pub open spec fn action_strokes(self, action: KeyActionModel) -> Seq<RequestModel> {
        match action {
            KeyActionModel::EmitKeysym(keysym) => self.strokes(keysym),
            KeyActionModel::EmitText(text) => self.text_strokes(text),
            _ => seq![],
        }
    }

    /// A modifier's latch flipped: armed if idle, disarmed if armed. One without a
    /// mask cannot be latched.
    pub open spec fn with_latch_toggled(self, name: Seq<char>) -> VirtualKeyboardModel {
        if !self.mod_masks.contains_key(name) {
            self
        } else if self.latched.contains(name) {
            VirtualKeyboardModel { latched: self.latched.remove(name), ..self }
        } else {
            VirtualKeyboardModel { latched: self.latched.insert(name), ..self }
        }
    }

    /// Nothing latched any more.
    pub open spec fn with_latch_consumed(self) -> VirtualKeyboardModel {
        VirtualKeyboardModel { latched: Set::empty(), ..self }
    }

    /// A device obtained from the seat, if it is offered and was not yet.
    pub open spec fn offers(self, capabilities: SeatCapabilities) -> Seq<RequestModel> {
        let keyboard = if capabilities.keyboard && !self.keyboard {
            seq![RequestModel::GetKeyboard]
        } else {
            seq![]
        };
        let pointer = if capabilities.pointer && !self.pointer {
            seq![RequestModel::GetPointer]
        } else {
            seq![]
        };
        let touch = if capabilities.touch && !self.touch {
            seq![RequestModel::GetTouch]
        } else {
            seq![]
        };
        keyboard + pointer + touch
    }
}

impl KeyboardModel {
    /// The state with its virtual-keyboard part replaced.
    pub open spec fn with_keyboard(self, virtual_keyboard: VirtualKeyboardModel) -> KeyboardModel {
        KeyboardModel { virtual_keyboard, ..self }
    }

    /// A seat or virtual-keyboard manager that is advertised is bound.
    pub open spec fn keyboard_registry(self, event: RegistryEvent) -> KeyboardModel {
        match event {
            RegistryEvent::Global { name, interface, version } => {
                let bound = Some(Global { name, version });
                let sent = self.send(RequestModel::Bind { interface, name, version });
                match interface {
                    Interface::Seat => sent.with_keyboard(
                        VirtualKeyboardModel { seat: bound, ..self.virtual_keyboard },
                    ),
                    Interface::VirtualKeyboardManager => sent.with_keyboard(
                        VirtualKeyboardModel {
                            virtual_keyboard_manager: bound,
                            ..self.virtual_keyboard
                        },
                    ),
                    _ => self,
                }
            },
            RegistryEvent::GlobalRemove { name } => self,
        }
    }

    /// The globals that the virtual keyboard is made from are bound.
    pub open spec fn keyboard_globals_bound(self) -> bool {
        self.virtual_keyboard.seat is Some && self.virtual_keyboard.virtual_keyboard_manager
            is Some
    }

    /// The virtual keyboard is created and, if its keymap could be put into shared
    /// memory, gets it; only a keyboard with a keymap is kept.
    pub open spec fn keyboard_ready(
        self,
        keymap: XkbModel,
        keymap_size: Option<u32>,
    ) -> KeyboardModel {
        if !self.keyboard_globals_bound() {
            self
        } else {
            let created = self.send(RequestModel::CreateVirtualKeyboard);
            match keymap_size {
                Some(size) => created.send(RequestModel::UploadKeymap { size }).with_keyboard(
                    VirtualKeyboardModel {
                        virtual_keyboard: true,
                        keymap: Some(size),
                        keycodes: keymap.keystrokes(),
                        mod_masks: Map::empty().insert(
                            "Control"@,
                            1u32 << keymap.control_index,
                        ),
                        ..self.virtual_keyboard
                    },
                ),
                None => created,
            }
        }
    }

    /// Each device the seat offers is obtained once.
    pub open spec fn seat_event(self, event: SeatEvent) -> KeyboardModel {
        match event {
            SeatEvent::Capabilities(capabilities) if self.virtual_keyboard.seat is Some =>
            self.with_keyboard(
                VirtualKeyboardModel {
                    keyboard: self.virtual_keyboard.keyboard || capabilities.keyboard,
                    pointer: self.virtual_keyboard.pointer || capabilities.pointer,
                    touch: self.virtual_keyboard.touch || capabilities.touch,
                    ..self.virtual_keyboard
                },
            ).send_all(self.virtual_keyboard.offers(capabilities)),
            _ => self,
        }
    }

    /// An action typed. If any key fires, the latch is consumed; an action that
    /// fires none changes nothing, so the latch stays armed.
    pub open spec fn emitted(self, action: KeyActionModel) -> KeyboardModel {
        let keyboard = self.virtual_keyboard;
        let requests = keyboard.action_strokes(action);
        if requests.len() == 0 {
            self
        } else {
            self.send_all(requests).with_keyboard(keyboard.with_latch_consumed())
        }
    }

    /// A virtual keyboard can be made ready with a keymap: once the globals are
    /// bound it is scanned, and to be kept it needs a Control modifier too.
    pub open spec fn can_use_keymap(self, keymap: XkbModel, keymap_size: Option<u32>) -> bool {
        self.keyboard_globals_bound() ==> {
            &&& keymap.is_scannable()
            &&& keymap_size is Some ==> keymap.control_index < 32
        }
    }

    /// The named view showing, repainted; nothing changes if there is no such view
    /// or it is showing already.
    pub open spec fn switched(self, name: Seq<char>) -> KeyboardModel {
        match self.keymap {
            Some(views) => match first_named(views, name) {
                Some(i) if i != self.current_view => KeyboardModel {
                    current_view: i as usize,
                    ..self
                }.send(RequestModel::Render),
                _ => self,
            },
            None => self,
        }
    }

    /// The view a toggle goes to: back to `unlock` while `lock` is showing, else
    /// to `lock`.
    pub open spec fn toggle_target(self, lock: Seq<char>, unlock: Seq<char>) -> Seq<char> {
        if self.current() matches Some(view) && view.name == lock {
            unlock
        } else {
            lock
        }
    }

    /// The state after a key's action.
    pub open spec fn dispatched(self, action: KeyActionModel) -> KeyboardModel {
        match action {
            KeyActionModel::SetView(name) => self.switched(name),
            KeyActionModel::ToggleView { lock, unlock } => self.switched(
                self.toggle_target(lock, unlock),
            ),
            KeyActionModel::LatchModifier(name) => self.with_keyboard(
                self.virtual_keyboard.with_latch_toggled(name),
            ).send(RequestModel::Render),
            _ => {
                let emitted = self.emitted(action);
                if emitted.virtual_keyboard.latched != self.virtual_keyboard.latched {
                    emitted.send(RequestModel::Render)
                } else {
                    emitted
                }
            },
        }
    }

    /// The state after an optional action.
    pub open spec fn dispatched_any(self, action: Option<KeyActionModel>) -> KeyboardModel {
        match action {
            Some(action) => self.dispatched(action),
            None => self,
        }
    }

    /// The Handle is on the surface.
    pub open spec fn has_handle(self) -> bool {
        self.window matches Some(window) && window.handle() is Some
    }

    /// The keyboard is showing.
    pub open spec fn is_visible(self) -> bool {
        self.window matches Some(window) && window.visible
    }

    /// The state after a pointer event. A press on the Handle toggles the
    /// visibility. Otherwise keys are live only while shown: a press on a key
    /// performs its action, and the hovered label follows the pointer. While
    /// hidden nothing is hovered.
    pub open spec fn pointed(
        self,
        pressed_handle: bool,
        hover: Seq<bool>,
        pressed: Option<Seq<bool>>,
        kb_height: u32,
    ) -> KeyboardModel {
        if self.has_handle() && pressed_handle {
            self.toggled_visibility(kb_height)
        } else if !self.is_visible() {
            KeyboardModel { last_hover: None, ..self }
        } else if !self.has_live_view() {
            self
        } else {
            let view = self.current()->0;
            let clicked = match pressed {
                Some(pressed) => action_hit(view, pressed),
                None => None,
            };
            KeyboardModel { last_hover: label_hit(view, hover), ..self.dispatched_any(clicked) }
        }
    }

    /// The state after a touch event. A tap on the Handle toggles the visibility;
    /// otherwise a tap on a key performs its action while the keyboard is shown.
    pub open spec fn touched(
        self,
        tapped_handle: bool,
        tapped: Seq<bool>,
        kb_height: u32,
    ) -> KeyboardModel {
        if self.has_handle() && tapped_handle {
            self.toggled_visibility(kb_height)
        } else if self.is_visible() && self.has_live_view() {
            self.dispatched_any(action_hit(self.current()->0, tapped))
        } else {
            self
        }
    }
}

impl VirtualKeyboardState {
    /// Nothing bound, nothing to type with, nothing latched; time stamps count
    /// from now.
    pub fn new() -> (state: Self)
        ensures
            state@.is_fresh(),
    {
        VirtualKeyboardState {
            seat: None,
            pointer: false,
            keyboard: false,
            touch: false,
            virtual_keyboard_manager: None,
            virtual_keyboard: false,
            start_time: Instant::now(),
            keymap: None,
            keycodes: HashMap::new(),
            mod_masks: StringHashMap::new(),
            latched: LatchSet::new(),
        }
    }
}

/// Binds the seat and the virtual-keyboard manager when the registry advertises
/// them. Tells whether both are bound after an advertisement, so that [`init`]
/// is due.
pub fn on_registry(s: &mut MechanixKeyboardState, event: &RegistryEvent) -> (ready: bool)
    ensures
        queue_kept(old(s).outbox@, final(s).outbox@),
        final(s)@ == old(s)@.keyboard_registry(*event),
        ready <==> event is Global && final(s)@.keyboard_globals_bound(),
{
    match *event {
        RegistryEvent::Global { name, interface, version } => {
            match interface {
                Interface::Seat => {
                    s.virtual_keyboard_state.seat = Some(Global { name, version });
                    s.send(Request::Bind { interface, name, version });
                },
                Interface::VirtualKeyboardManager => {
                    s.virtual_keyboard_state.virtual_keyboard_manager =
                    Some(Global { name, version });
                    s.send(Request::Bind { interface, name, version });
                },
                _ => {},
            }
            s.virtual_keyboard_state.seat.is_some()
                && s.virtual_keyboard_state.virtual_keyboard_manager.is_some()
        },
        RegistryEvent::GlobalRemove { .. } => false,
    }
}

/// Whether a virtual keyboard can be made ready with a keymap.
pub fn can_use_keymap(
    s: &MechanixKeyboardState,
    keymap: &XkbKeymap,
    keymap_size: Option<u32>,
) -> (usable: bool)
    ensures
        usable == s@.can_use_keymap(keymap@, keymap_size),
{
    s.virtual_keyboard_state.seat.is_none()
        || s.virtual_keyboard_state.virtual_keyboard_manager.is_none() || (keymap.is_scannable()
        && (keymap_size.is_none() || keymap.control_index < 32))
}

/// Creates the virtual keyboard from its globals and gives it the compiled
/// keymap. `keymap_size` is the size of the shared memory that holds the keymap's
/// text, or nothing if that could not be had: the keyboard then stays unready.
pub fn init(s: &mut MechanixKeyboardState, keymap: &XkbKeymap, keymap_size: Option<u32>)
    requires
        old(s)@.can_use_keymap(keymap@, keymap_size),
    ensures
        queue_kept(old(s).outbox@, final(s).outbox@),
        final(s)@ == old(s)@.keyboard_ready(keymap@, keymap_size),
{
    if s.virtual_keyboard_state.seat.is_none()
        || s.virtual_keyboard_state.virtual_keyboard_manager.is_none() {
        return ;
    }
    s.send(Request::CreateVirtualKeyboard);
    let keycodes: HashMap<u32, Keystroke> = scan_keycodes(keymap);
    let size: u32 = match keymap_size {
        Some(size) => size,
        None => {
            return ;
        },
    };
    s.send(Request::UploadKeymap { size });
    let mut mod_masks: StringHashMap<u32> = StringHashMap::new();
    mod_masks.insert("Control".to_owned(), 1u32 << keymap.control_index);
    s.virtual_keyboard_state.virtual_keyboard = true;
    s.virtual_keyboard_state.keymap = Some(size);
    s.virtual_keyboard_state.keycodes = keycodes;
    s.virtual_keyboard_state.mod_masks = mod_masks;
}

/// The bytes of the shared memory that a keymap is uploaded in: its text and the
/// NUL the protocol expects, with their count as the protocol counts.
pub fn keymap_buffer(text: &[u8]) -> (buffer: (Vec<u8>, u32))
    requires
        text@.len() < usize::MAX,
    ensures
        buffer.0@ == text@.push(0),
        buffer.1 == (text@.len() + 1) as u32,
{
    let mut bytes: Vec<u8> = Vec::new();
    let mut i: usize = 0;
    while i < text.len()
        invariant
            i <= text@.len(),
            bytes@ == text@.take(i as int),
        decreases text@.len() - i,
    {
        bytes.push(text[i]);
        assert(bytes@ =~= text@.take(i + 1));
        i = i + 1;
    }
    bytes.push(0);
    assert(bytes@ =~= text@.push(0));
    let size: usize = text.len() + 1;
    (bytes, #[verifier::truncate] (size as u32))
}

/// Obtains the keyboard, pointer and touch device as the seat reports having
/// them, each once.
pub fn on_seat(s: &mut MechanixKeyboardState, event: &SeatEvent)
    ensures
        queue_kept(old(s).outbox@, final(s).outbox@),
        final(s)@ == old(s)@.seat_event(*event),
{
    let capabilities: SeatCapabilities = match *event {
        SeatEvent::Capabilities(capabilities) => capabilities,
        SeatEvent::Other => {
            return ;
        },
    };
    if s.virtual_keyboard_state.seat.is_none() {
        return ;
    }
    if capabilities.keyboard && !s.virtual_keyboard_state.keyboard {
        s.virtual_keyboard_state.keyboard = true;
        s.send(Request::GetKeyboard);
    }
    if capabilities.pointer && !s.virtual_keyboard_state.pointer {
        s.virtual_keyboard_state.pointer = true;
        s.send(Request::GetPointer);
    }
    if capabilities.touch && !s.virtual_keyboard_state.touch {
        s.virtual_keyboard_state.touch = true;
        s.send(Request::GetTouch);
    }
    assert(s@ =~= old(s)@.seat_event(*event));
}

/// Label of the first key that is hit, where `hits[i]` says whether key `i` is.
pub fn key_at(view: &KeyboardView, hits: &[bool]) -> (label: Option<String>)
    ensures
        text_of(label) == label_hit(view@, hits@),
{
    match find_first(hits) {
        Some(i) => if i < view.keys.len() {
            Some(view.keys[i].display_label().to_owned())
        } else {
            None
        },
        None => None,
    }
}

/// The model of an optional action.
pub open spec fn action_of(action: Option<KeyAction>) -> Option<KeyActionModel> {
    match action {
        Some(action) => Some(action@),
        None => None,
    }
}

/// Action of the first key that is hit, where `hits[i]` says whether key `i` is.
pub fn action_at(view: &KeyboardView, hits: &[bool]) -> (action: Option<KeyAction>)
    ensures
        action_of(action) == action_hit(view@, hits@),
{
    match find_first(hits) {
        Some(i) => if i < view.keys.len() {
            Some(view.keys[i].action.clone())
        } else {
            None
        },
        None => None,
    }
}

/// Every key queued behind the first `from` requests is stamped `time`.
pub open spec fn stamped(outbox: Seq<Request>, from: int, time: u32) -> bool {
    forall|i: int|
        from <= i < outbox.len() ==> (#[trigger] outbox[i] matches Request::Key { time: t, .. }
            ==> t == time)
}

/// Every press queued behind the first `from` requests is followed by the release
/// of the same key, with the same stamp.
pub open spec fn presses_paired(outbox: Seq<Request>, from: int) -> bool {
    forall|i: int|
        from <= i < outbox.len() ==> (#[trigger] outbox[i] matches Request::Key {
            time,
            code,
            state,
        } ==> state == KeyState::Pressed ==> i + 1 < outbox.len() && outbox[i + 1]
            == (Request::Key { time, code, state: KeyState::Released }))
}

/// Requests other than keys have nothing to pair.
proof fn lemma_no_keys_paired(before: MechanixKeyboardState, after: MechanixKeyboardState)
    requires
        forall|i: int|
            before@.outbox.len() <= i < after@.outbox.len() ==> !(#[trigger] after@.outbox[i]
                is Key),
    ensures
        presses_paired(after.outbox@, before.outbox@.len() as int),
{
    assert forall|i: int| before.outbox@.len() <= i < after.outbox@.len() implies !(
    #[trigger] after.outbox@[i] is Key) by {
        assert(!(after@.outbox[i] is Key));
    }
}

/// Types one keysym at a given time, in milliseconds since the start: its keycode
/// goes down and up, with its own and the latched modifiers held around it. The
/// stamp counts modulo its range. Does nothing if the keymap lacks the keysym or
/// the virtual keyboard is not ready.
pub fn type_keysym(s: &mut MechanixKeyboardState, keysym: u32, millis: u128)
    ensures
        queue_kept(old(s).outbox@, final(s).outbox@),
        presses_paired(final(s).outbox@, old(s).outbox@.len() as int),
        final(s)@ == old(s)@.send_all(old(s)@.virtual_keyboard.strokes(keysym)),
        stamped(final(s).outbox@, old(s).outbox@.len() as int, millis as u32),
{
    let stroke: Keystroke = match s.virtual_keyboard_state.keycodes.get(&keysym) {
        Some(stroke) => *stroke,
        None => {
            assert(s@ =~= old(s)@.send_all(seq![]));
            return ;
        },
    };
    if !s.virtual_keyboard_state.virtual_keyboard {
        assert(s@ =~= old(s)@.send_all(seq![]));
        return ;
    }
    let mods: u32 = stroke.mods | latched_mask(s);
    let time: u32 = #[verifier::truncate] (millis as u32);
    // Depress the modifiers before the key, so that the receiving app maps the
    // keycode to the right level, and let go of them after, so that nothing
    // lingers. A bare key needs neither.
    if mods != 0 {
        s.send(Request::Modifiers { depressed: mods, latched: 0, locked: 0, group: 0 });
    }
    s.send(Request::Key { time, code: stroke.code, state: KeyState::Pressed });
    s.send(Request::Key { time, code: stroke.code, state: KeyState::Released });
    if mods != 0 {
        s.send(Request::Modifiers { depressed: 0, latched: 0, locked: 0, group: 0 });
    }
    assert(s@ =~= old(s)@.send_all(keystroke_requests(stroke.code, mods)));
}

/// Types one keysym now. The key going down and coming up carry one stamp, read
/// from the clock.
pub fn emit_keysym(s: &mut MechanixKeyboardState, keysym: u32)
    ensures
        queue_kept(old(s).outbox@, final(s).outbox@),
        presses_paired(final(s).outbox@, old(s).outbox@.len() as int),
        final(s)@ == old(s)@.send_all(old(s)@.virtual_keyboard.strokes(keysym)),
        exists|time: u32| stamped(final(s).outbox@, old(s).outbox@.len() as int, time),
{
    let millis: u128 = s.virtual_keyboard_state.start_time.elapsed().as_millis();
    type_keysym(s, keysym, millis);
}

/// Performs a keystroke action: types its keysym, or each character of its text,
/// and disarms any latched modifiers once a key has fired. An action that fires no
/// key, because it is no keystroke or because nothing of it can be typed, leaves
/// the latch armed.
pub fn emit_action(s: &mut MechanixKeyboardState, action: &KeyAction)
    ensures
        queue_kept(old(s).outbox@, final(s).outbox@),
        presses_paired(final(s).outbox@, old(s).outbox@.len() as int),
        final(s)@ == old(s)@.emitted(action@),
{
    let queued_before: usize = s.outbox.len();
    match action {
        KeyAction::EmitKeysym(keysym) => {
            emit_keysym(s, *keysym);
        },
        KeyAction::EmitText(text) => {
            emit_text(s, text.as_str());
        },
        _ => {},
    }
    let ghost requests = old(s)@.virtual_keyboard.action_strokes(action@);
    assert(s@ =~= old(s)@.send_all(requests));
    assert(s.outbox@.len() == old(s).outbox@.len() + requests.len()) by {
        assert(s@.outbox.len() == s.outbox@.len());
        assert(old(s)@.outbox.len() == old(s).outbox@.len());
    }
    if s.outbox.len() > queued_before {
        consume_latch(s);
    } else {
        assert(s@ =~= old(s)@);
    }
}

/// Types each character of a text in turn.
fn emit_text(s: &mut MechanixKeyboardState, text: &str)
    ensures
        queue_kept(old(s).outbox@, final(s).outbox@),
        presses_paired(final(s).outbox@, old(s).outbox@.len() as int),
        final(s)@ == old(s)@.send_all(old(s)@.virtual_keyboard.text_strokes(text@)),
{
    let ghost keyboard = s@.virtual_keyboard;
    let ghost before = s@;
    assert(s@ =~= before.send_all(keyboard.text_strokes(text@.take(0))));
    for ch in chars: text.chars()
        invariant
            keyboard == before.virtual_keyboard,
            chars.seq() == text@,
            s@ == before.send_all(keyboard.text_strokes(text@.take(chars.index() as int))),
            queue_kept(old(s).outbox@, s.outbox@),
            presses_paired(s.outbox@, old(s).outbox@.len() as int),
    {
        let ghost done = chars.index() as int;
        emit_keysym(s, keysym_from_char(ch));
        proof {
            assert(text@.take(done + 1).drop_last() =~= text@.take(done));
            assert(text@.take(done + 1).last() == ch);
            assert(s@ =~= before.send_all(keyboard.text_strokes(text@.take(done + 1))));
        }
    }
    assert(text@.take(text@.len() as int) =~= text@);
}

/// Flips a modifier's latch: arms it if idle, disarms it if armed, so that a
/// second tap cancels. Does nothing for a modifier without a mask. An armed latch
/// stays until a real key fires.
pub fn toggle_latch(s: &mut MechanixKeyboardState, name: &str)
    ensures
        final(s).outbox@ == old(s).outbox@,
        final(s)@ == old(s)@.with_keyboard(
            old(s)@.virtual_keyboard.with_latch_toggled(name@),
        ),
{
    if !s.virtual_keyboard_state.mod_masks.contains_key(name) {
        return ;
    }
    if !s.virtual_keyboard_state.latched.remove(name) {
        s.virtual_keyboard_state.latched.insert(name);
        assert(s@.virtual_keyboard.latched =~= old(s)@.virtual_keyboard.latched.insert(name@));
    }
}

/// The mask of every latched modifier put together, to hold during a keystroke.
pub fn latched_mask(s: &MechanixKeyboardState) -> (mask: u32)
    ensures
        mask == combined_mask(s@.virtual_keyboard.latched, s@.virtual_keyboard.mod_masks),
        is_combined_mask(mask, s@.virtual_keyboard.latched, s@.virtual_keyboard.mod_masks),
{
    s.virtual_keyboard_state.latched.mask(&s.virtual_keyboard_state.mod_masks)
}

/// Disarms all latched modifiers once a key has fired.
pub fn consume_latch(s: &mut MechanixKeyboardState)
    ensures
        final(s).outbox@ == old(s).outbox@,
        final(s)@ == old(s)@.with_keyboard(old(s)@.virtual_keyboard.with_latch_consumed()),
{
    if !s.virtual_keyboard_state.latched.is_empty() {
        s.virtual_keyboard_state.latched.clear();
    }
}

/// Shows the named view and repaints. Does nothing, not even repaint, if there is
/// no such view or it is showing already.
pub fn switch_view(s: &mut MechanixKeyboardState, name: &str)
    ensures
        queue_kept(old(s).outbox@, final(s).outbox@),
        final(s)@ == old(s)@.switched(name@),
{
    let index: usize = match &s.keymap {
        Some(keymap) => match keymap.index_of(name) {
            Some(index) => index,
            None => {
                return ;
            },
        },
        None => {
            return ;
        },
    };
    if index == s.current_view {
        return ;
    }
    s.current_view = index;
    s.send(Request::Render);
}

/// Whether the view called `name` is showing.
fn is_showing(s: &MechanixKeyboardState, name: &String) -> (showing: bool)
    ensures
        showing <==> (s@.current() matches Some(view) && view.name == name@),
{
    match s.current_view() {
        Some(view) => view.name == *name,
        None => false,
    }
}

/// Performs a key's action. A view switch changes the showing view and a latch
/// arms or disarms; both repaint. Everything else is a keystroke, which repaints
/// only if it disarmed a latch, so that the highlight goes.
pub fn dispatch_action(s: &mut MechanixKeyboardState, action: &KeyAction)
    ensures
        queue_kept(old(s).outbox@, final(s).outbox@),
        presses_paired(final(s).outbox@, old(s).outbox@.len() as int),
        final(s)@ == old(s)@.dispatched(action@),
{
    match action {
        KeyAction::SetView(name) => {
            switch_view(s, name.as_str());
            proof {
                lemma_no_keys_paired(*old(s), *s);
            }
        },
        KeyAction::ToggleView { lock, unlock } => {
            if is_showing(s, lock) {
                switch_view(s, unlock.as_str());
            } else {
                switch_view(s, lock.as_str());
            }
            proof {
                lemma_no_keys_paired(*old(s), *s);
            }
        },
        KeyAction::LatchModifier(name) => {
            toggle_latch(s, name.as_str());
            s.send(Request::Render);
        },
        _ => {
            let was_armed: bool = !s.virtual_keyboard_state.latched.is_empty();
            emit_action(s, action);
            if was_armed && s.virtual_keyboard_state.latched.is_empty() {
                s.send(Request::Render);
            }
        },
    }
}

impl KeyboardModel {
    /// If the Handle is hit, toggling stays in range.
    pub open spec fn handle_hit_in_range(self, hit: bool, kb_height: u32) -> bool {
        self.has_handle() && hit ==> self.toggle_in_range(kb_height)
    }
}

/// Whether a hit on the Handle can be acted upon without leaving the range of
/// heights.
pub fn handle_hit_in_range(
    s: &MechanixKeyboardState,
    hit: bool,
    kb_height: u32,
) -> (in_range: bool)
    ensures
        in_range == s@.handle_hit_in_range(hit, kb_height),
{
    !hit || handle_rect(s).is_none() || toggle_in_range(s, kb_height)
}

/// Acts on a pointer event: a press on the Handle toggles the visibility, a press
/// on a key performs its action, and the hovered label follows the pointer.
///
/// `kb_height` is the height of the showing view at the window's logical width;
/// it matters only to a press on the Handle that shows the keyboard.
pub fn on_pointer(s: &mut MechanixKeyboardState, frame: &PointerFrame, kb_height: u32)
    requires
        old(s)@.handle_hit_in_range(frame.pressed_handle, kb_height),
    ensures
        queue_kept(old(s).outbox@, final(s).outbox@),
        presses_paired(final(s).outbox@, old(s).outbox@.len() as int),
        final(s)@ == old(s)@.pointed(
            frame.pressed_handle,
            frame.hover@,
            match frame.pressed {
                Some(pressed) => Some(pressed@),
                None => None,
            },
            kb_height,
        ),
{
    if handle_rect(s).is_some() && frame.pressed_handle {
        toggle_visibility(s, kb_height);
        proof {
            lemma_no_keys_paired(*old(s), *s);
        }
        return ;
    }
    let visible: bool = match &s.window {
        Some(window) => window.visible,
        None => false,
    };
    if !visible {
        s.last_hover = None;
        return ;
    }
    let (hover, clicked): (Option<String>, Option<KeyAction>) = match view_and_width(s) {
        Some((view, _)) => {
            let hover = key_at(view, frame.hover.as_slice());
            let clicked = match &frame.pressed {
                Some(pressed) => action_at(view, pressed.as_slice()),
                None => None,
            };
            (hover, clicked)
        },
        None => {
            return ;
        },
    };
    if let Some(action) = clicked {
        dispatch_action(s, &action);
    }
    s.last_hover = hover;
}

/// Acts on a touch event: a tap on the Handle toggles the visibility, a tap on a
/// key performs its action while the keyboard is shown.
///
/// `kb_height` is the height of the showing view at the window's logical width;
/// it matters only to a tap on the Handle that shows the keyboard.
pub fn on_touch(s: &mut MechanixKeyboardState, frame: &TouchFrame, kb_height: u32)
    requires
        old(s)@.handle_hit_in_range(frame.tapped_handle, kb_height),
    ensures
        queue_kept(old(s).outbox@, final(s).outbox@),
        presses_paired(final(s).outbox@, old(s).outbox@.len() as int),
        final(s)@ == old(s)@.touched(frame.tapped_handle, frame.tapped@, kb_height),
{
    if handle_rect(s).is_some() && frame.tapped_handle {
        toggle_visibility(s, kb_height);
        proof {
            lemma_no_keys_paired(*old(s), *s);
        }
        return ;
    }
    let visible: bool = match &s.window {
        Some(window) => window.visible,
        None => false,
    };
    if !visible {
        return ;
    }
    let tapped: Option<KeyAction> = match view_and_width(s) {
        Some((view, _)) => action_at(view, frame.tapped.as_slice()),
        None => {
            return ;
        },
    };
    if let Some(action) = tapped {
        dispatch_action(s, &action);
    }
}

} // verus!
