use mechanix_keyboard::layout::{Key, KeyAction, KeyboardView, Keymap, ViewWidth};
use mechanix_keyboard::request::{Global, Interface, KeyState, RegistryEvent, Request};
use mechanix_keyboard::state::MechanixKeyboardState;
use mechanix_keyboard::virtual_keyboard::{
    action_at, can_use_keymap, dispatch_action, emit_action, handle_hit_in_range, init, key_at,
    keymap_buffer, latched_mask, on_pointer, on_registry, on_seat, on_touch, switch_view, toggle_latch, type_keysym, PointerFrame,
    SeatCapabilities, SeatEvent, TouchFrame,
};
use mechanix_keyboard::window::{WindowState, HANDLE_HEIGHT};
use mechanix_keyboard::xkb::{scan_keycodes, KeyLevels, Keystroke, XkbKeymap};
use xkeysym::Keysym;

const SHIFT: u32 = 1;
const CONTROL: u32 = 4;

fn sym(ch: char) -> u32 {
    Keysym::from_char(ch).raw()
}

fn row(keys: &mut Vec<KeyLevels>, plain: &str, shifted: &str) {
    for (p, s) in plain.chars().zip(shifted.chars()) {
        keys.push(KeyLevels { base: vec![sym(p)], shifted: vec![sym(s)] });
    }
}

fn bare(keys: &mut Vec<KeyLevels>, raw: u32) {
    keys.push(KeyLevels { base: vec![raw], shifted: vec![] });
}

/// The alphanumeric part of the default US keymap, keycodes 8 to 61.
fn us_keymap() -> XkbKeymap {
    let mut keys = vec![KeyLevels { base: vec![], shifted: vec![] }];
    bare(&mut keys, xkeysym::key::Escape);
    row(&mut keys, "1234567890-=", "!@#$%^&*()_+");
    bare(&mut keys, xkeysym::key::BackSpace);
    bare(&mut keys, xkeysym::key::Tab);
    row(&mut keys, "qwertyuiop[]", "QWERTYUIOP{}");
    bare(&mut keys, xkeysym::key::Return);
    bare(&mut keys, xkeysym::key::Control_L);
    row(&mut keys, "asdfghjkl;'`", "ASDFGHJKL:\"~");
    bare(&mut keys, xkeysym::key::Shift_L);
    row(&mut keys, "\\zxcvbnm,./", "|ZXCVBNM<>?");
    XkbKeymap { min_keycode: 8, keys, shift_index: 0, control_index: 2 }
}

fn ready() -> MechanixKeyboardState {
    let mut s = MechanixKeyboardState::new();
    s.virtual_keyboard_state.seat = Some(Global { name: 1, version: 1 });
    s.virtual_keyboard_state.virtual_keyboard_manager = Some(Global { name: 2, version: 1 });
    init(&mut s, &us_keymap(), Some(100));
    s.take_requests();
    s
}

fn mods(mask: u32) -> Request {
    Request::Modifiers { depressed: mask, latched: 0, locked: 0, group: 0 }
}

fn untimed(requests: Vec<Request>) -> Vec<Request> {
    requests
        .into_iter()
        .map(|r| match r {
            Request::Key { code, state, .. } => Request::Key { time: 0, code, state },
            other => other,
        })
        .collect()
}

fn down(code: u32) -> Request {
    Request::Key { time: 0, code, state: KeyState::Pressed }
}

fn up(code: u32) -> Request {
    Request::Key { time: 0, code, state: KeyState::Released }
}

fn key(label: &str, action: KeyAction) -> Key {
    Key { label: label.to_string(), action }
}

fn views() -> Keymap {
    Keymap {
        views: vec![
            KeyboardView {
                name: "base".to_string(),
                width: ViewWidth::Positive,
                keys: vec![
                    key("q", KeyAction::EmitKeysym(sym('q'))),
                    key("Ctrl", KeyAction::LatchModifier("Control".to_string())),
                    key(
                        "up",
                        KeyAction::ToggleView {
                            lock: "upper".to_string(),
                            unlock: "base".to_string(),
                        },
                    ),
                ],
            },
            KeyboardView {
                name: "upper".to_string(),
                width: ViewWidth::Positive,
                keys: vec![key("Q", KeyAction::EmitKeysym(sym('Q')))],
            },
        ],
    }
}

fn window(visible: bool) -> WindowState {
    WindowState {
        slots: None,
        back: 0,
        physical_width: 0,
        physical_height: 0,
        logical_width: 300,
        logical_height: if visible { 140 } else { HANDLE_HEIGHT },
        requested_height: if visible { 140 } else { HANDLE_HEIGHT },
        pending_frame: false,
        visible,
    }
}

fn shown() -> MechanixKeyboardState {
    let mut s = ready();
    s.keymap = Some(views());
    s.window = Some(window(true));
    s
}

#[test]
fn shifted_keysym_carries_shift_on_the_same_key() {
    let keymap = us_keymap();
    let map = scan_keycodes(&keymap);

    // A plain lowercase letter is level 0: a bare keycode, no modifiers.
    let q = map[&sym('q')];
    assert_eq!(q.mods, 0, "lowercase q should need no modifiers");

    // Its uppercase reaches the same physical key, plus a non-empty mask.
    let cap_q = map[&sym('Q')];
    assert_eq!(cap_q.code, q.code, "Q must be the q key, shifted");
    assert_ne!(cap_q.mods, 0, "Q must carry the Shift mask");

    // The symbols ride the same mechanism: `!` is Shift+1.
    let one = map[&sym('1')];
    let bang = map[&sym('!')];
    assert_eq!(one.mods, 0, "digit 1 should need no modifiers");
    assert_eq!(bang.code, one.code, "! must be the 1 key, shifted");
    assert_ne!(bang.mods, 0, "! must carry the Shift mask");
}

#[test]
fn scan_gives_evdev_codes() {
    let map = scan_keycodes(&us_keymap());
    assert_eq!(map[&sym('1')], Keystroke { code: 2, mods: 0 });
    assert_eq!(map[&sym('q')], Keystroke { code: 16, mods: 0 });
    assert_eq!(map[&sym('Q')], Keystroke { code: 16, mods: SHIFT });
    assert_eq!(map[&xkeysym::key::Return], Keystroke { code: 28, mods: 0 });
    assert!(!map.contains_key(&0));
    assert!(!map.contains_key(&sym('é')));
}

#[test]
fn scan_prefers_fewer_modifiers_and_lower_codes() {
    let level = |base: u32, shifted: u32| KeyLevels { base: vec![base], shifted: vec![shifted] };
    let keymap = XkbKeymap {
        min_keycode: 7,
        keys: vec![
            level(900, 901),
            level(50, 60),
            level(60, 70),
            level(60, 70),
            KeyLevels { base: vec![0, 80], shifted: vec![] },
        ],
        shift_index: 3,
        control_index: 2,
    };
    let map = scan_keycodes(&keymap);
    assert_eq!(map[&50], Keystroke { code: 0, mods: 0 });
    assert_eq!(map[&60], Keystroke { code: 1, mods: 0 });
    assert_eq!(map[&70], Keystroke { code: 1, mods: 8 });
    // Below the evdev range, empty, and second keysyms are not typed.
    assert_eq!(map.len(), 3);
}

#[test]
fn registry_tells_when_the_keyboard_is_due() {
    let mut s = MechanixKeyboardState::new();
    let seat = RegistryEvent::Global { name: 4, interface: Interface::Seat, version: 5 };
    let manager =
        RegistryEvent::Global { name: 6, interface: Interface::VirtualKeyboardManager, version: 1 };
    let other = RegistryEvent::Global { name: 9, interface: Interface::Output, version: 2 };
    assert!(!on_registry(&mut s, &seat));
    assert!(!on_registry(&mut s, &other));
    assert!(on_registry(&mut s, &manager));
    assert!(on_registry(&mut s, &other));
    assert!(!on_registry(&mut s, &RegistryEvent::GlobalRemove { name: 4 }));
    assert_eq!(s.virtual_keyboard_state.seat, Some(Global { name: 4, version: 5 }));
    assert_eq!(
        s.take_requests(),
        vec![
            Request::Bind { interface: Interface::Seat, name: 4, version: 5 },
            Request::Bind { interface: Interface::VirtualKeyboardManager, name: 6, version: 1 },
        ]
    );
}

#[test]
fn init_uploads_the_keymap() {
    let mut s = MechanixKeyboardState::new();
    init(&mut s, &us_keymap(), Some(9));
    assert!(s.outbox.is_empty());
    s.virtual_keyboard_state.seat = Some(Global { name: 1, version: 1 });
    s.virtual_keyboard_state.virtual_keyboard_manager = Some(Global { name: 2, version: 1 });
    init(&mut s, &us_keymap(), None);
    assert!(!s.virtual_keyboard_state.virtual_keyboard);
    assert!(s.virtual_keyboard_state.keycodes.is_empty());
    init(&mut s, &us_keymap(), Some(9));
    assert!(s.virtual_keyboard_state.virtual_keyboard);
    assert_eq!(s.virtual_keyboard_state.keymap, Some(9));
    assert_eq!(s.virtual_keyboard_state.mod_masks.get("Control").copied(), Some(CONTROL));
    assert_eq!(
        s.take_requests(),
        vec![
            Request::CreateVirtualKeyboard,
            Request::CreateVirtualKeyboard,
            Request::UploadKeymap { size: 9 },
        ]
    );
}

#[test]
fn keymap_buffer_ends_in_nul() {
    assert_eq!(keymap_buffer(b"xkb"), (vec![b'x', b'k', b'b', 0], 4));
    assert_eq!(keymap_buffer(b""), (vec![0], 1));
}

#[test]
fn seat_devices_are_obtained_once() {
    let all = SeatEvent::Capabilities(SeatCapabilities {
        keyboard: true,
        pointer: true,
        touch: true,
    });
    let mut s = MechanixKeyboardState::new();
    on_seat(&mut s, &all);
    assert!(s.outbox.is_empty());
    s.virtual_keyboard_state.seat = Some(Global { name: 1, version: 1 });
    on_seat(&mut s, &SeatEvent::Other);
    on_seat(
        &mut s,
        &SeatEvent::Capabilities(SeatCapabilities { keyboard: false, pointer: true, touch: false }),
    );
    on_seat(&mut s, &all);
    on_seat(&mut s, &all);
    assert_eq!(
        s.take_requests(),
        vec![Request::GetPointer, Request::GetKeyboard, Request::GetTouch]
    );
}

#[test]
fn keystroke_holds_and_releases_modifiers() {
    let mut s = ready();
    type_keysym(&mut s, sym('q'), 5);
    type_keysym(&mut s, sym('Q'), 0x1_0000_0007);
    assert_eq!(
        s.take_requests(),
        vec![
            Request::Key { time: 5, code: 16, state: KeyState::Pressed },
            Request::Key { time: 5, code: 16, state: KeyState::Released },
            mods(SHIFT),
            Request::Key { time: 7, code: 16, state: KeyState::Pressed },
            Request::Key { time: 7, code: 16, state: KeyState::Released },
            mods(0),
        ]
    );
}

#[test]
fn unknown_keysym_and_unready_keyboard_type_nothing() {
    let mut s = ready();
    type_keysym(&mut s, sym('é'), 0);
    s.virtual_keyboard_state.virtual_keyboard = false;
    type_keysym(&mut s, sym('q'), 0);
    let mut fresh = MechanixKeyboardState::new();
    emit_action(&mut fresh, &KeyAction::EmitText("abc".to_string()));
    assert!(s.outbox.is_empty());
    assert!(fresh.outbox.is_empty());
}

#[test]
fn press_and_release_share_a_stamp() {
    let mut s = ready();
    emit_action(&mut s, &KeyAction::EmitKeysym(sym('a')));
    let times: Vec<u32> = s
        .take_requests()
        .iter()
        .map(|r| match r {
            Request::Key { time, .. } => *time,
            _ => panic!("only keys are expected"),
        })
        .collect();
    assert_eq!(times.len(), 2);
    assert_eq!(times[0], times[1]);
}

#[test]
fn text_is_typed_character_by_character() {
    let mut s = ready();
    emit_action(&mut s, &KeyAction::EmitText("q!".to_string()));
    assert_eq!(
        untimed(s.take_requests()),
        vec![down(16), up(16), mods(SHIFT), down(2), up(2), mods(0)]
    );
}

#[test]
fn text_goes_through_legacy_keysyms() {
    let mut s = ready();
    // Greek capital omega and the newline have keysyms other than their code.
    s.virtual_keyboard_state.keycodes.insert(0x07d9, Keystroke { code: 90, mods: 0 });
    s.virtual_keyboard_state.keycodes.insert(0xff0a, Keystroke { code: 91, mods: 0 });
    emit_action(&mut s, &KeyAction::EmitText("Ω\n".to_string()));
    assert_eq!(untimed(s.take_requests()), vec![down(90), up(90), down(91), up(91)]);
}

#[test]
fn latch_is_one_shot() {
    let mut s = ready();
    toggle_latch(&mut s, "Control");
    assert_eq!(latched_mask(&s), CONTROL);
    emit_action(&mut s, &KeyAction::EmitKeysym(sym('Q')));
    assert_eq!(latched_mask(&s), 0);
    emit_action(&mut s, &KeyAction::EmitKeysym(sym('q')));
    assert_eq!(
        untimed(s.take_requests()),
        vec![mods(SHIFT | CONTROL), down(16), up(16), mods(0), down(16), up(16)]
    );
}

#[test]
fn latch_covers_a_whole_text() {
    let mut s = ready();
    toggle_latch(&mut s, "Control");
    emit_action(&mut s, &KeyAction::EmitText("qa".to_string()));
    assert!(s.virtual_keyboard_state.latched.is_empty());
    assert_eq!(
        untimed(s.take_requests()),
        vec![
            mods(CONTROL),
            down(16),
            up(16),
            mods(0),
            mods(CONTROL),
            down(30),
            up(30),
            mods(0)
        ]
    );
}

#[test]
fn second_tap_cancels_the_latch() {
    let mut s = ready();
    toggle_latch(&mut s, "Control");
    assert!(s.virtual_keyboard_state.latched.contains("Control"));
    toggle_latch(&mut s, "Control");
    assert!(s.virtual_keyboard_state.latched.is_empty());
}

#[test]
fn modifier_without_mask_is_not_latched() {
    let mut s = ready();
    toggle_latch(&mut s, "Alt");
    assert!(s.virtual_keyboard_state.latched.is_empty());
}

#[test]
fn combined_mask_joins_all_latched_modifiers() {
    let mut s = ready();
    s.virtual_keyboard_state.mod_masks.insert("Alt".to_string(), 0x48);
    s.virtual_keyboard_state.mod_masks.insert("Super".to_string(), 0x0c);
    toggle_latch(&mut s, "Control");
    toggle_latch(&mut s, "Alt");
    toggle_latch(&mut s, "Super");
    assert_eq!(latched_mask(&s), 0x4c);
    toggle_latch(&mut s, "Alt");
    assert_eq!(latched_mask(&s), 0x0c);
}

#[test]
fn unhandled_action_keeps_the_latch() {
    let mut s = ready();
    toggle_latch(&mut s, "Control");
    emit_action(&mut s, &KeyAction::Unhandled("mystery".to_string()));
    emit_action(&mut s, &KeyAction::SetView("base".to_string()));
    assert_eq!(latched_mask(&s), CONTROL);
    assert!(s.outbox.is_empty());
}

#[test]
fn dropped_key_keeps_the_latch() {
    let mut s = shown();
    toggle_latch(&mut s, "Control");
    // Absent from the keymap, in whole or as a text, and nothing at all.
    dispatch_action(&mut s, &KeyAction::EmitKeysym(sym('é')));
    dispatch_action(&mut s, &KeyAction::EmitText("éß".to_string()));
    dispatch_action(&mut s, &KeyAction::EmitText(String::new()));
    assert!(s.outbox.is_empty());
    assert_eq!(latched_mask(&s), CONTROL);
    // Not ready.
    s.virtual_keyboard_state.virtual_keyboard = false;
    emit_action(&mut s, &KeyAction::EmitKeysym(sym('q')));
    assert!(s.outbox.is_empty());
    assert_eq!(latched_mask(&s), CONTROL);
    // One key of a text that fires is enough.
    s.virtual_keyboard_state.virtual_keyboard = true;
    emit_action(&mut s, &KeyAction::EmitText("éq".to_string()));
    assert_eq!(untimed(s.take_requests()), vec![mods(CONTROL), down(16), up(16), mods(0)]);
    assert_eq!(latched_mask(&s), 0);
}

#[test]
fn scan_does_not_need_control() {
    let mut keymap = us_keymap();
    keymap.control_index = u32::MAX;
    assert_eq!(scan_keycodes(&keymap)[&sym('q')], Keystroke { code: 16, mods: 0 });
    // Nor does a keyboard whose keymap could not be shared.
    let mut s = ready();
    init(&mut s, &keymap, None);
    assert_eq!(s.take_requests(), vec![Request::CreateVirtualKeyboard]);
    assert!(s.virtual_keyboard_state.virtual_keyboard);
}

#[test]
fn interfaces_go_by_their_protocol_names() {
    assert_eq!(Interface::from_name("wl_seat"), Interface::Seat);
    assert_eq!(
        Interface::from_name("zwp_virtual_keyboard_manager_v1"),
        Interface::VirtualKeyboardManager
    );
    assert_eq!(
        Interface::from_name("zwp_input_method_manager_v2"),
        Interface::InputMethodManager
    );
    assert_eq!(Interface::from_name("wl_compositor"), Interface::Compositor);
    assert_eq!(Interface::from_name("zwlr_layer_shell_v1"), Interface::LayerShell);
    assert_eq!(Interface::from_name("wl_output"), Interface::Output);
    assert_eq!(Interface::from_name("zwp_linux_dmabuf_v1"), Interface::LinuxDmabuf);
    assert_eq!(Interface::from_name("wl_shm"), Interface::Other);
}

#[test]
fn dispatch_repaints_when_a_latch_is_consumed() {
    let mut s = shown();
    dispatch_action(&mut s, &KeyAction::EmitKeysym(sym('q')));
    assert_eq!(untimed(s.take_requests()), vec![down(16), up(16)]);
    dispatch_action(&mut s, &KeyAction::LatchModifier("Control".to_string()));
    assert_eq!(s.take_requests(), vec![Request::Render]);
    dispatch_action(&mut s, &KeyAction::Unhandled("x".to_string()));
    assert_eq!(s.take_requests(), vec![]);
    dispatch_action(&mut s, &KeyAction::EmitKeysym(sym('q')));
    assert_eq!(
        untimed(s.take_requests()),
        vec![mods(CONTROL), down(16), up(16), mods(0), Request::Render]
    );
}

#[test]
fn views_switch_and_toggle() {
    let mut s = shown();
    switch_view(&mut s, "nowhere");
    switch_view(&mut s, "base");
    assert!(s.outbox.is_empty());
    let toggle =
        KeyAction::ToggleView { lock: "upper".to_string(), unlock: "base".to_string() };
    dispatch_action(&mut s, &toggle);
    assert_eq!(s.current_view().unwrap().name, "upper");
    dispatch_action(&mut s, &toggle);
    assert_eq!(s.current_view().unwrap().name, "base");
    dispatch_action(&mut s, &KeyAction::SetView("upper".to_string()));
    dispatch_action(&mut s, &KeyAction::SetView("upper".to_string()));
    assert_eq!(s.current_view, 1);
    assert_eq!(s.take_requests(), vec![Request::Render, Request::Render, Request::Render]);
    assert_eq!(s.window.unwrap().requested_height, 140);
    s.keymap = None;
    switch_view(&mut s, "base");
    assert_eq!(s.current_view, 1);
    assert!(s.current_view().is_none());
}

#[test]
fn first_hit_key_wins() {
    let keymap = views();
    let view = &keymap.views[0];
    assert_eq!(key_at(view, &[false, true, true]), Some("Ctrl".to_string()));
    assert_eq!(
        action_at(view, &[false, true, true]),
        Some(KeyAction::LatchModifier("Control".to_string()))
    );
    assert_eq!(key_at(view, &[false, false, false]), None);
    assert_eq!(action_at(view, &[]), None);
}

fn pointer(hover: [bool; 3], pressed: Option<[bool; 3]>, pressed_handle: bool) -> PointerFrame {
    PointerFrame {
        pressed_handle,
        hover: hover.to_vec(),
        pressed: pressed.map(|p| p.to_vec()),
    }
}

#[test]
fn pointer_hovers_and_clicks() {
    let mut s = shown();
    on_pointer(&mut s, &pointer([true, false, false], None, false), 100);
    assert_eq!(s.last_hover, Some("q".to_string()));
    assert!(s.outbox.is_empty());
    on_pointer(
        &mut s,
        &pointer([false, false, false], Some([true, false, false]), false),
        100,
    );
    assert_eq!(s.last_hover, None);
    assert_eq!(untimed(s.take_requests()), vec![down(16), up(16)]);
}

#[test]
fn pointer_press_on_handle_toggles() {
    let mut s = shown();
    s.last_hover = Some("q".to_string());
    on_pointer(
        &mut s,
        &pointer([true, false, false], Some([true, false, false]), true),
        100,
    );
    assert!(!s.window.unwrap().visible);
    assert_eq!(s.last_hover, Some("q".to_string()));
    assert_eq!(
        s.take_requests(),
        vec![Request::SetSize { width: 0, height: 40 }, Request::CommitSurface]
    );
    on_pointer(&mut s, &pointer([true, false, false], Some([true, false, false]), false), 100);
    assert_eq!(s.last_hover, None);
    assert!(s.outbox.is_empty());
    on_pointer(&mut s, &pointer([false, false, false], None, true), 100);
    assert!(s.window.unwrap().visible);
    assert_eq!(
        s.take_requests(),
        vec![Request::SetSize { width: 0, height: 140 }, Request::CommitSurface]
    );
}

#[test]
fn touch_taps_keys_and_handle() {
    let mut s = shown();
    let tap = |keys: [bool; 3], tapped_handle: bool| TouchFrame {
        tapped_handle,
        tapped: keys.to_vec(),
    };
    on_touch(&mut s, &tap([false, false, true], false), 100);
    assert_eq!(s.current_view, 1);
    on_touch(&mut s, &tap([true, false, false], false), 100);
    assert_eq!(
        untimed(s.take_requests()),
        vec![Request::Render, mods(SHIFT), down(16), up(16), mods(0)]
    );
    on_touch(&mut s, &tap([true, false, false], true), 100);
    assert!(!s.window.unwrap().visible);
    s.take_requests();
    on_touch(&mut s, &tap([true, false, false], false), 100);
    assert!(s.outbox.is_empty());
}

#[test]
fn input_without_a_window_is_harmless() {
    let mut s = ready();
    s.keymap = Some(views());
    on_pointer(&mut s, &pointer([true, false, false], Some([true, false, false]), true), 100);
    on_touch(&mut s, &TouchFrame { tapped_handle: true, tapped: vec![true] }, 100);
    assert!(s.outbox.is_empty());
    // Shown, but the view has no width to scale by.
    let mut s = shown();
    s.keymap.as_mut().unwrap().views[0].width = ViewWidth::NotPositive;
    s.last_hover = Some("kept".to_string());
    on_pointer(&mut s, &pointer([true, false, false], Some([true, false, false]), false), 100);
    assert_eq!(s.last_hover, Some("kept".to_string()));
    assert!(s.outbox.is_empty());
}

#[test]
fn keys_of_a_view_without_a_number_for_its_width_stay_live() {
    let mut s = shown();
    s.keymap.as_mut().unwrap().views[0].width = ViewWidth::NotANumber;
    s.last_hover = Some("gone".to_string());
    on_pointer(&mut s, &pointer([false, false, false], None, false), 100);
    assert_eq!(s.last_hover, None);
    on_touch(&mut s, &TouchFrame { tapped_handle: false, tapped: vec![true, false, false] }, 100);
    assert_eq!(untimed(s.take_requests()), vec![down(16), up(16)]);
    // The Handle does nothing: hiding needs a positive width.
    on_touch(&mut s, &TouchFrame { tapped_handle: true, tapped: vec![] }, 100);
    assert!(s.window.unwrap().visible);
    assert!(s.outbox.is_empty());
}

#[test]
fn toggled_view_repaints_once_each_way() {
    let mut s = shown();
    let toggle =
        KeyAction::ToggleView { lock: "upper".to_string(), unlock: "base".to_string() };
    dispatch_action(&mut s, &toggle);
    assert_eq!(s.current_view, 1);
    assert_eq!(s.take_requests(), vec![Request::Render]);
    dispatch_action(&mut s, &toggle);
    assert_eq!(s.current_view, 0);
    assert_eq!(s.take_requests(), vec![Request::Render]);
    // One view for both: the second toggle has nowhere to go.
    let same = KeyAction::ToggleView { lock: "upper".to_string(), unlock: "upper".to_string() };
    dispatch_action(&mut s, &same);
    assert_eq!(s.take_requests(), vec![Request::Render]);
    dispatch_action(&mut s, &same);
    assert_eq!(s.current_view, 1);
    assert!(s.outbox.is_empty());
}

#[test]
fn handle_hit_range_is_checked() {
    let mut s = shown();
    assert!(handle_hit_in_range(&s, true, u32::MAX));
    s.window = Some(window(false));
    assert!(handle_hit_in_range(&s, false, u32::MAX));
    assert!(handle_hit_in_range(&s, true, u32::MAX - 40));
    assert!(!handle_hit_in_range(&s, true, u32::MAX - 39));
    s.window = None;
    assert!(handle_hit_in_range(&s, true, u32::MAX));
}

#[test]
fn keymap_is_checked_before_use() {
    let mut keymap = us_keymap();
    let s = ready();
    let unbound = MechanixKeyboardState::new();
    assert!(keymap.is_scannable());
    assert!(can_use_keymap(&s, &keymap, Some(1)));
    keymap.control_index = 32;
    assert!(keymap.is_scannable());
    assert!(!can_use_keymap(&s, &keymap, Some(1)));
    assert!(can_use_keymap(&s, &keymap, None));
    keymap.shift_index = 32;
    assert!(!keymap.is_scannable());
    assert!(!can_use_keymap(&s, &keymap, None));
    assert!(can_use_keymap(&unbound, &keymap, Some(1)));
    keymap.shift_index = 0;
    keymap.min_keycode = u32::MAX;
    assert_eq!(keymap.is_scannable(), keymap.keys.len() <= 1);
}
