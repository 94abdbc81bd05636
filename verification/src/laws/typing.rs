//! What a tap comes to: which keys and modifiers are sent, what is latched after,
//! which view shows, and how pointer and touch input leads there.

use crate::latch::{
    armed_bit, bit, combined_mask, is_combined_mask, lemma_combined_mask_unique,
    lemma_nothing_latched,
};
use crate::laws::model::{law_first_key_hit_is_taken, law_views_are_found_by_name};
use crate::layout::KeyActionModel;
use crate::request::{Global, Interface, KeyState, RegistryEvent, Request, RequestModel};
use crate::state::KeyboardModel;
use crate::virtual_keyboard::{
    keystroke_requests, presses_paired, stamped, SeatCapabilities, SeatEvent,
    VirtualKeyboardModel,
};
use crate::xkb::{char_keysym, XkbModel};
use vstd::prelude::*;

verus! {

// ── masks ──────────────────────────────────────────────────────────────────

/// A bit of a mask is what masking it out tells.
pub proof fn law_bits_of_a_mask(mask: u32, b: u32)
    requires
        b < 32,
    ensures
        bit(mask, b) <==> mask & (1u32 << b) != 0,
{
    assert((mask >> b) & 1 == 1 <==> mask & (1u32 << b) != 0) by (bit_vector)
        requires
            b < 32,
    ;
}

/// The mask with the lowest `n` bits that the latched modifiers have between them.
spec fn low_bits(latched: Set<Seq<char>>, masks: Map<Seq<char>, u32>, n: nat) -> u32
    decreases n,
{
    if n == 0 {
        0
    } else {
        let rest = low_bits(latched, masks, (n - 1) as nat);
        if armed_bit(latched, masks, (n - 1) as u32) {
            rest | (1u32 << ((n - 1) as u32))
        } else {
            rest
        }
    }
}

proof fn lemma_low_bits(latched: Set<Seq<char>>, masks: Map<Seq<char>, u32>, n: nat)
    requires
        n <= 32,
    ensures
        forall|b: u32|
            b < 32 ==> (#[trigger] bit(low_bits(latched, masks, n), b) <==> b < n && armed_bit(
                latched,
                masks,
                b,
            )),
    decreases n,
{
    if n == 0 {
        assert forall|b: u32| b < 32 implies !#[trigger] bit(low_bits(latched, masks, n), b) by {
            assert((0u32 >> b) & 1 == 0) by (bit_vector);
        }
    } else {
        lemma_low_bits(latched, masks, (n - 1) as nat);
        let rest = low_bits(latched, masks, (n - 1) as nat);
        let k = (n - 1) as u32;
        assert forall|b: u32| b < 32 implies (#[trigger] bit(low_bits(latched, masks, n), b)
            <==> b < n && armed_bit(latched, masks, b)) by {
            assert(bit(rest, b) <==> b < n - 1 && armed_bit(latched, masks, b));
            assert(((rest | (1u32 << k)) >> b) & 1 == 1 <==> ((rest >> b) & 1 == 1 || b == k))
                by (bit_vector)
                requires
                    b < 32,
                    k < 32,
            ;
        }
    }
}

/// Every set of latched modifiers has a combined mask.
proof fn lemma_combined_mask_exists(latched: Set<Seq<char>>, masks: Map<Seq<char>, u32>)
    ensures
        is_combined_mask(combined_mask(latched, masks), latched, masks),
{
    let mask = low_bits(latched, masks, 32);
    lemma_low_bits(latched, masks, 32);
    assert(is_combined_mask(mask, latched, masks));
}

/// The combined mask is put together one modifier at a time: none gives an empty
/// mask, and one more adds exactly its own mask, if it has one.
pub proof fn law_masks_add_up(latched: Set<Seq<char>>, masks: Map<Seq<char>, u32>, name: Seq<char>)
    ensures
        combined_mask(Set::empty(), masks) == 0,
        combined_mask(latched.insert(name), masks) == if masks.contains_key(name) {
            combined_mask(latched, masks) | masks[name]
        } else {
            combined_mask(latched, masks)
        },
{
    lemma_nothing_latched(masks);
    lemma_combined_mask_exists(latched, masks);
    let fewer = combined_mask(latched, masks);
    let own = if masks.contains_key(name) {
        masks[name]
    } else {
        0
    };
    let mask = fewer | own;
    let more = latched.insert(name);
    assert(fewer | 0 == fewer) by (bit_vector);
    assert forall|b: u32| b < 32 implies (#[trigger] bit(mask, b) <==> armed_bit(
        more,
        masks,
        b,
    )) by {
        assert(bit(fewer, b) <==> armed_bit(latched, masks, b));
        assert(((fewer | own) >> b) & 1 == 1 <==> ((fewer >> b) & 1 == 1 || (own >> b) & 1 == 1))
            by (bit_vector);
        assert((0u32 >> b) & 1 == 0) by (bit_vector);
        if bit(own, b) {
            assert(more.contains(name));
        }
        if armed_bit(latched, masks, b) {
            let n = choose|n: Seq<char>| #[trigger]
                latched.contains(n) && masks.contains_key(n) && bit(masks[n], b);
            assert(more.contains(n));
        }
        if armed_bit(more, masks, b) {
            let n = choose|n: Seq<char>| #[trigger]
                more.contains(n) && masks.contains_key(n) && bit(masks[n], b);
            if n != name {
                assert(latched.contains(n));
            }
        }
    }
    lemma_combined_mask_unique(mask, more, masks);
}

/// A single latched modifier gives its own mask.
pub proof fn law_one_latch_gives_its_mask(masks: Map<Seq<char>, u32>, name: Seq<char>)
    requires
        masks.contains_key(name),
    ensures
        combined_mask(set![name], masks) == masks[name],
{
    law_masks_add_up(Set::empty(), masks, name);
    let own = masks[name];
    assert(0 | own == own) by (bit_vector);
    assert(set![name] =~= Set::empty().insert(name));
}

// ── keystrokes ─────────────────────────────────────────────────────────────

/// A key goes down and up at once, with the modifiers depressed just before and
/// let go of just after; without modifiers there are only the two.
pub proof fn law_keystroke_in_full(code: u32, mods: u32)
    ensures
        ({
            let requests = keystroke_requests(code, mods);
            let at = if mods == 0 {
                0int
            } else {
                1int
            };
            &&& requests.len() == 2 + 2 * at
            &&& requests[at] == (RequestModel::Key { code, state: KeyState::Pressed })
            &&& requests[at + 1] == (RequestModel::Key { code, state: KeyState::Released })
            &&& mods != 0 ==> requests.first() == (RequestModel::Modifiers {
                depressed: mods,
                latched: 0,
                locked: 0,
                group: 0,
            })
            &&& mods != 0 ==> requests.last() == (RequestModel::Modifiers {
                depressed: 0,
                latched: 0,
                locked: 0,
                group: 0,
            })
        }),
{
}

/// A keysym of the keymap is typed, once the keyboard is ready, by the keycode the
/// table has for it, with the modifiers the table has and the latched ones held.
/// Any other is not typed at all.
pub proof fn law_keysym_is_typed_by_its_keystroke(keyboard: VirtualKeyboardModel, keysym: u32)
    ensures
        keyboard.virtual_keyboard && keyboard.keycodes.contains_key(keysym) ==> keyboard.strokes(
            keysym,
        ) == keystroke_requests(
            keyboard.keycodes[keysym].code,
            keyboard.keycodes[keysym].mods | combined_mask(keyboard.latched, keyboard.mod_masks),
        ),
        !keyboard.virtual_keyboard || !keyboard.keycodes.contains_key(keysym)
            ==> keyboard.strokes(keysym).len() == 0,
{
}

/// A text of one character is typed as that character's keysym, and one of none
/// not at all; longer ones are typed part by part.
pub proof fn law_text_is_typed_by_character(keyboard: VirtualKeyboardModel, ch: char)
    ensures
        keyboard.text_strokes(seq![]).len() == 0,
        keyboard.text_strokes(seq![ch]) == keyboard.strokes(char_keysym(ch)),
{
    assert(seq![ch].drop_last() =~= Seq::<char>::empty());
    reveal_with_fuel(VirtualKeyboardModel::text_strokes, 2);
    assert(keyboard.text_strokes(seq![ch]) =~= keyboard.strokes(char_keysym(ch)));
}

/// A keystroke action queues the requests that type its keysym or its text, and
/// lets go of the latch if there are any; nothing else changes.
pub proof fn law_keystroke_actions_type(s: KeyboardModel, keysym: u32, text: Seq<char>)
    ensures
        ({
            let strokes = s.virtual_keyboard.strokes(keysym);
            let after = s.emitted(KeyActionModel::EmitKeysym(keysym));
            &&& after.outbox == s.outbox + strokes
            &&& forall|name: Seq<char>| #[trigger]
                after.virtual_keyboard.latched.contains(name) <==> strokes.len() == 0
                    && s.virtual_keyboard.latched.contains(name)
            &&& after == (KeyboardModel {
                virtual_keyboard: VirtualKeyboardModel {
                    latched: after.virtual_keyboard.latched,
                    ..s.virtual_keyboard
                },
                outbox: after.outbox,
                ..s
            })
        }),
        ({
            let strokes = s.virtual_keyboard.text_strokes(text);
            let after = s.emitted(KeyActionModel::EmitText(text));
            &&& after.outbox == s.outbox + strokes
            &&& forall|name: Seq<char>| #[trigger]
                after.virtual_keyboard.latched.contains(name) <==> strokes.len() == 0
                    && s.virtual_keyboard.latched.contains(name)
            &&& after == (KeyboardModel {
                virtual_keyboard: VirtualKeyboardModel {
                    latched: after.virtual_keyboard.latched,
                    ..s.virtual_keyboard
                },
                outbox: after.outbox,
                ..s
            })
        }),
{
    let strokes = s.virtual_keyboard.strokes(keysym);
    if strokes.len() == 0 {
        assert(s.outbox + strokes =~= s.outbox);
    }
    let strokes = s.virtual_keyboard.text_strokes(text);
    if strokes.len() == 0 {
        assert(s.outbox + strokes =~= s.outbox);
    }
}

/// The requests of an action are those of its keysym or its text; other actions
/// have none.
pub proof fn law_requests_of_an_action(
    keyboard: VirtualKeyboardModel,
    keysym: u32,
    text: Seq<char>,
    action: KeyActionModel,
)
    ensures
        keyboard.action_strokes(KeyActionModel::EmitKeysym(keysym)) == keyboard.strokes(keysym),
        keyboard.action_strokes(KeyActionModel::EmitText(text)) == keyboard.text_strokes(text),
        !(action is EmitKeysym || action is EmitText) ==> keyboard.action_strokes(action).len()
            == 0,
{
}

/// A tap on a key that types is the keystroke, and a repaint behind it exactly if
/// it let go of a latch.
pub proof fn law_typing_taps_repaint_for_the_latch(
    s: KeyboardModel,
    action: KeyActionModel,
    name: Seq<char>,
)
    requires
        action is EmitKeysym || action is EmitText,
    ensures
        ({
            let typed = s.emitted(action);
            let after = s.dispatched(action);
            &&& s.virtual_keyboard.latched.contains(name) && typed.outbox.len() > s.outbox.len()
                ==> after == (KeyboardModel {
                outbox: typed.outbox.push(RequestModel::Render),
                ..typed
            })
            &&& s.virtual_keyboard.latched =~= Set::empty() || typed.outbox.len()
                == s.outbox.len() ==> after == typed
        }),
{
    let typed = s.emitted(action);
    if s.virtual_keyboard.latched.contains(name) && typed.outbox.len() > s.outbox.len() {
        assert(!typed.virtual_keyboard.latched.contains(name));
    }
    if s.virtual_keyboard.latched =~= Set::empty() {
        assert(typed.virtual_keyboard.latched =~= s.virtual_keyboard.latched);
    }
}

/// An action that nothing is wired to changes nothing.
pub proof fn law_unhandled_actions_do_nothing(s: KeyboardModel, name: Seq<char>)
    ensures
        s.dispatched(KeyActionModel::Unhandled(name)) == s,
        s.emitted(KeyActionModel::Unhandled(name)) == s,
{
}

// ── latches ────────────────────────────────────────────────────────────────

/// A latch flips for a modifier that has a mask, and for no other; the others
/// stay as they are, and so does everything else.
pub proof fn law_latch_flips_one_modifier(
    keyboard: VirtualKeyboardModel,
    name: Seq<char>,
    other: Seq<char>,
)
    ensures
        ({
            let after = keyboard.with_latch_toggled(name);
            &&& keyboard.mod_masks.contains_key(name) ==> (after.latched.contains(name)
                <==> !keyboard.latched.contains(name))
            &&& !keyboard.mod_masks.contains_key(name) ==> after == keyboard
            &&& other != name ==> (after.latched.contains(other) <==> keyboard.latched.contains(
                other,
            ))
            &&& after == (VirtualKeyboardModel { latched: after.latched, ..keyboard })
            &&& !keyboard.with_latch_consumed().latched.contains(name)
            &&& keyboard.with_latch_consumed() == (VirtualKeyboardModel {
                latched: keyboard.with_latch_consumed().latched,
                ..keyboard
            })
        }),
{
}

/// A tap on a modifier flips its latch and repaints, and does nothing else.
pub proof fn law_latch_taps_repaint(s: KeyboardModel, name: Seq<char>)
    ensures
        ({
            let after = s.dispatched(KeyActionModel::LatchModifier(name));
            &&& after.virtual_keyboard == s.virtual_keyboard.with_latch_toggled(name)
            &&& after.outbox == s.outbox.push(RequestModel::Render)
            &&& after == (KeyboardModel {
                virtual_keyboard: after.virtual_keyboard,
                outbox: after.outbox,
                ..s
            })
        }),
{
}

// ── views ──────────────────────────────────────────────────────────────────

/// Switching shows the first view of that name and repaints, unless it is showing
/// already; nothing else changes.
pub proof fn law_switch_goes_to_the_first_of_its_name(s: KeyboardModel, name: Seq<char>, i: int)
    requires
        s.keymap is Some,
        s.keymap->0.len() <= usize::MAX,
        0 <= i < s.keymap->0.len(),
        s.keymap->0[i].name == name,
        forall|j: int| 0 <= j < i ==> (#[trigger] s.keymap->0[j]).name != name,
    ensures
        s.switched(name).current_view == i,
        s.current_view == i ==> s.switched(name) == s,
        s.current_view != i ==> s.switched(name) == (KeyboardModel {
            current_view: i as usize,
            outbox: s.outbox.push(RequestModel::Render),
            ..s
        }),
{
    law_views_are_found_by_name(s.keymap->0, name, i);
}

/// Switching to a view that the layout lacks, or without a layout, does nothing.
pub proof fn law_switch_to_a_missing_view(s: KeyboardModel, name: Seq<char>)
    requires
        s.keymap matches Some(views) ==> forall|j: int|
            0 <= j < views.len() ==> (#[trigger] views[j]).name != name,
    ensures
        s.switched(name) == s,
{
    if let Some(views) = s.keymap {
        law_views_are_found_by_name(views, name, 0);
    }
}

/// A view key switches to the view it names; a toggle to its lock view, or to its
/// unlock view while the lock view is showing.
pub proof fn law_view_keys_switch(s: KeyboardModel, lock: Seq<char>, unlock: Seq<char>)
    ensures
        s.dispatched(KeyActionModel::SetView(lock)) == s.switched(lock),
        ({
            let after = s.dispatched(KeyActionModel::ToggleView { lock, unlock });
            let showing = s.keymap is Some && s.current_view < s.keymap->0.len()
                && s.keymap->0[s.current_view as int].name == lock;
            &&& showing ==> after == s.switched(unlock)
            &&& !showing ==> after == s.switched(lock)
        }),
{
}

// ── pointer and touch ──────────────────────────────────────────────────────

/// The keyboard is shown, at a known width, with a view that can be scaled: its
/// keys are live.
pub open spec fn keys_are_live(s: KeyboardModel) -> bool {
    &&& s.window is Some
    &&& s.window->0.visible
    &&& s.window->0.logical_width != 0
    &&& s.keymap is Some
    &&& s.current_view < s.keymap->0.len()
    &&& s.has_scalable_view()
}

/// The Handle is on the surface and was hit.
pub open spec fn handle_was_hit(s: KeyboardModel, hit: bool) -> bool {
    hit && s.window is Some && s.window->0.logical_width != 0 && s.window->0.logical_height != 0
}

/// `i` is the first position hit.
pub open spec fn hit_first(hits: Seq<bool>, i: int) -> bool {
    0 <= i < hits.len() && hits[i] && forall|j: int| 0 <= j < i ==> !#[trigger] hits[j]
}

/// A press on a live key performs that key's action, whatever the pointer hovers
/// over or hovered over before: apart from the hovered label, the state is the one
/// that the action leaves.
pub proof fn law_press_performs_the_key(
    s: KeyboardModel,
    handle: bool,
    hover: Seq<bool>,
    pressed: Seq<bool>,
    kb_height: u32,
    i: int,
)
    requires
        keys_are_live(s),
        !handle_was_hit(s, handle),
        hit_first(pressed, i),
        i < s.keymap->0[s.current_view as int].keys.len(),
    ensures
        ({
            let after = s.pointed(handle, hover, Some(pressed), kb_height);
            let performed = s.dispatched(s.keymap->0[s.current_view as int].keys[i].action);
            &&& after.outbox == performed.outbox
            &&& after.virtual_keyboard == performed.virtual_keyboard
            &&& after.current_view == performed.current_view
            &&& after == (KeyboardModel { last_hover: after.last_hover, ..performed })
        }),
{
    law_first_key_hit_is_taken(s.keymap->0[s.current_view as int], pressed, i);
}

/// A press that hits no key of the view performs nothing.
pub proof fn law_press_beside_the_keys(
    s: KeyboardModel,
    handle: bool,
    hover: Seq<bool>,
    pressed: Seq<bool>,
    kb_height: u32,
    i: int,
)
    requires
        keys_are_live(s),
        !handle_was_hit(s, handle),
        hit_first(pressed, i),
        i >= s.keymap->0[s.current_view as int].keys.len(),
    ensures
        ({
            let after = s.pointed(handle, hover, Some(pressed), kb_height);
            after == (KeyboardModel { last_hover: after.last_hover, ..s })
        }),
{
    law_first_key_hit_is_taken(s.keymap->0[s.current_view as int], pressed, i);
}

/// A pointer event without a press, or with one beside the keys, performs nothing:
/// only the hovered label can change.
pub proof fn law_no_press_performs_nothing(
    s: KeyboardModel,
    handle: bool,
    hover: Seq<bool>,
    pressed: Option<Seq<bool>>,
    kb_height: u32,
)
    requires
        !handle_was_hit(s, handle),
        pressed matches Some(hits) ==> forall|j: int| 0 <= j < hits.len() ==> !#[trigger] hits[j],
    ensures
        ({
            let after = s.pointed(handle, hover, pressed, kb_height);
            after == (KeyboardModel { last_hover: after.last_hover, ..s })
        }),
{
    if let Some(hits) = pressed {
        if s.current() is Some {
            law_first_key_hit_is_taken(s.current()->0, hits, 0);
        }
    }
}

/// The hovered label is that of the first live key under the pointer, whether or
/// not it is pressed, and none where there is no such key.
pub proof fn law_hover_follows_the_pointer(
    s: KeyboardModel,
    handle: bool,
    hover: Seq<bool>,
    pressed: Option<Seq<bool>>,
    kb_height: u32,
    i: int,
)
    requires
        keys_are_live(s),
        !handle_was_hit(s, handle),
    ensures
        ({
            let after = s.pointed(handle, hover, pressed, kb_height);
            let keys = s.keymap->0[s.current_view as int].keys;
            &&& hit_first(hover, i) && i < keys.len() ==> after.last_hover == Some(keys[i].label)
            &&& hit_first(hover, i) && i >= keys.len() ==> after.last_hover is None
            &&& (forall|j: int| 0 <= j < hover.len() ==> !#[trigger] hover[j]) ==> after.last_hover
                is None
        }),
{
    law_first_key_hit_is_taken(s.keymap->0[s.current_view as int], hover, i);
}

/// A tap on a live key performs that key's action, and nothing else.
pub proof fn law_tap_performs_the_key(
    s: KeyboardModel,
    handle: bool,
    tapped: Seq<bool>,
    kb_height: u32,
    i: int,
)
    requires
        keys_are_live(s),
        !handle_was_hit(s, handle),
    ensures
        ({
            let after = s.touched(handle, tapped, kb_height);
            let keys = s.keymap->0[s.current_view as int].keys;
            &&& hit_first(tapped, i) && i < keys.len() ==> after == s.dispatched(keys[i].action)
            &&& hit_first(tapped, i) && i >= keys.len() ==> after == s
            &&& (forall|j: int| 0 <= j < tapped.len() ==> !#[trigger] tapped[j]) ==> after == s
        }),
{
    law_first_key_hit_is_taken(s.keymap->0[s.current_view as int], tapped, i);
}

/// A pointer press and a tap on the same key do the same, but for the hovered
/// label.
pub proof fn law_press_and_tap_agree(
    s: KeyboardModel,
    handle: bool,
    hover: Seq<bool>,
    hits: Seq<bool>,
    kb_height: u32,
)
    ensures
        ({
            let pressed = s.pointed(handle, hover, Some(hits), kb_height);
            let tapped = s.touched(handle, hits, kb_height);
            pressed == (KeyboardModel { last_hover: pressed.last_hover, ..tapped })
        }),
{
}

/// A hit on the Handle toggles the visibility, shown or hidden, and does nothing
/// else; the hovered label stays.
pub proof fn law_handle_hit_toggles(
    s: KeyboardModel,
    hover: Seq<bool>,
    pressed: Option<Seq<bool>>,
    tapped: Seq<bool>,
    kb_height: u32,
)
    requires
        handle_was_hit(s, true),
    ensures
        s.pointed(true, hover, pressed, kb_height) == s.toggled_visibility(kb_height),
        s.touched(true, tapped, kb_height) == s.toggled_visibility(kb_height),
{
}

/// While the keys are not live nothing is performed. Hidden or without a window,
/// nothing is hovered; shown but without a width or a view to scale, the hovered
/// label stays.
pub proof fn law_keys_that_are_not_live(
    s: KeyboardModel,
    handle: bool,
    hover: Seq<bool>,
    pressed: Option<Seq<bool>>,
    tapped: Seq<bool>,
    kb_height: u32,
)
    requires
        !keys_are_live(s),
        !handle_was_hit(s, handle),
    ensures
        s.touched(handle, tapped, kb_height) == s,
        s.window is None || !s.window->0.visible ==> s.pointed(handle, hover, pressed, kb_height)
            == (KeyboardModel { last_hover: None, ..s }),
        s.window is Some && s.window->0.visible ==> s.pointed(handle, hover, pressed, kb_height)
            == s,
{
}

/// A hit on the Handle stays in range exactly if the Handle was not hit or
/// toggling stays in range.
pub proof fn law_handle_hit_range(s: KeyboardModel, hit: bool, kb_height: u32)
    ensures
        s.handle_hit_in_range(hit, kb_height) <==> !handle_was_hit(s, hit) || s.toggle_in_range(
            kb_height,
        ),
        s.is_visible() <==> s.window is Some && s.window->0.visible,
        s.has_handle() <==> handle_was_hit(s, true),
{
}

// ── globals, keymap and seat ───────────────────────────────────────────────

/// The seat and the virtual-keyboard manager are bound under their names and
/// versions when they are advertised, the latest one if several are; nothing else
/// is.
pub proof fn law_keyboard_globals_are_bound(
    s: KeyboardModel,
    name: u32,
    interface: Interface,
    version: u32,
)
    ensures
        s.keyboard_registry(RegistryEvent::GlobalRemove { name }) == s,
        ({
            let after = s.keyboard_registry(RegistryEvent::Global { name, interface, version });
            let bound = Some(Global { name, version });
            let wanted = interface == Interface::Seat || interface
                == Interface::VirtualKeyboardManager;
            &&& after.virtual_keyboard.seat == if interface == Interface::Seat {
                bound
            } else {
                s.virtual_keyboard.seat
            }
            &&& after.virtual_keyboard.virtual_keyboard_manager == if interface
                == Interface::VirtualKeyboardManager {
                bound
            } else {
                s.virtual_keyboard.virtual_keyboard_manager
            }
            &&& wanted ==> after.outbox == s.outbox.push(
                RequestModel::Bind { interface, name, version },
            )
            &&& !wanted ==> after.outbox == s.outbox
            &&& after == (KeyboardModel {
                virtual_keyboard: VirtualKeyboardModel {
                    seat: after.virtual_keyboard.seat,
                    virtual_keyboard_manager: after.virtual_keyboard.virtual_keyboard_manager,
                    ..s.virtual_keyboard
                },
                outbox: after.outbox,
                ..s
            })
            &&& s.keyboard_globals_bound() <==> s.virtual_keyboard.seat is Some
                && s.virtual_keyboard.virtual_keyboard_manager is Some
        }),
{
}

/// Once its globals are bound, a keyboard is created, and with a keymap in shared
/// memory it gets that keymap and is ready: it types by the keymap's table, and
/// Control, and only Control, can be latched, under its own bit. What was latched
/// stays latched, and nothing else changes.
pub proof fn law_keymap_makes_the_keyboard_ready(
    s: KeyboardModel,
    keymap: XkbModel,
    size: u32,
    name: Seq<char>,
)
    requires
        s.virtual_keyboard.seat is Some,
        s.virtual_keyboard.virtual_keyboard_manager is Some,
    ensures
        ({
            let after = s.keyboard_ready(keymap, Some(size));
            let keyboard = after.virtual_keyboard;
            &&& keyboard.virtual_keyboard
            &&& keyboard.keymap == Some(size)
            &&& keyboard.keycodes == keymap.keystrokes()
            &&& keyboard.mod_masks.contains_key(name) <==> name == "Control"@
            &&& keyboard.mod_masks["Control"@] == 1u32 << keymap.control_index
            &&& after.outbox == s.outbox.push(RequestModel::CreateVirtualKeyboard).push(
                RequestModel::UploadKeymap { size },
            )
            &&& after == (KeyboardModel {
                virtual_keyboard: VirtualKeyboardModel {
                    virtual_keyboard: keyboard.virtual_keyboard,
                    keymap: keyboard.keymap,
                    keycodes: keyboard.keycodes,
                    mod_masks: keyboard.mod_masks,
                    ..s.virtual_keyboard
                },
                outbox: after.outbox,
                ..s
            })
        }),
{
}

/// A keymap that could not be shared leaves the keyboard as it was, though one is
/// created; without the globals nothing happens.
pub proof fn law_keyboard_without_keymap_or_globals(
    s: KeyboardModel,
    keymap: XkbModel,
    size: Option<u32>,
)
    ensures
        s.virtual_keyboard.seat is None || s.virtual_keyboard.virtual_keyboard_manager is None
            ==> s.keyboard_ready(keymap, size) == s,
        s.virtual_keyboard.seat is Some && s.virtual_keyboard.virtual_keyboard_manager is Some
            ==> s.keyboard_ready(keymap, None) == (KeyboardModel {
            outbox: s.outbox.push(RequestModel::CreateVirtualKeyboard),
            ..s
        }),
{
}

/// A keymap can be used exactly if the globals are missing, or it can be scanned
/// and, to be kept, has a Control modifier.
pub proof fn law_usable_keymaps(s: KeyboardModel, keymap: XkbModel, size: Option<u32>)
    ensures
        s.can_use_keymap(keymap, size) <==> s.virtual_keyboard.seat is None
            || s.virtual_keyboard.virtual_keyboard_manager is None || (keymap.is_scannable() && (
        size is None || keymap.control_index < 32)),
{
}

/// Each device is obtained exactly if the seat is bound and has it and it was not
/// obtained before; none is ever given up.
pub proof fn law_seat_devices(s: KeyboardModel, capabilities: SeatCapabilities)
    ensures
        s.seat_event(SeatEvent::Other) == s,
        s.virtual_keyboard.seat is None ==> s.seat_event(SeatEvent::Capabilities(capabilities))
            == s,
        s.virtual_keyboard.seat is Some ==> {
            let before = s.virtual_keyboard;
            let after = s.seat_event(SeatEvent::Capabilities(capabilities));
            let sent = after.outbox.skip(s.outbox.len() as int);
            let keyboard = capabilities.keyboard && !before.keyboard;
            let pointer = capabilities.pointer && !before.pointer;
            let touch = capabilities.touch && !before.touch;
            &&& after.virtual_keyboard.keyboard <==> before.keyboard || capabilities.keyboard
            &&& after.virtual_keyboard.pointer <==> before.pointer || capabilities.pointer
            &&& after.virtual_keyboard.touch <==> before.touch || capabilities.touch
            &&& after.outbox.take(s.outbox.len() as int) == s.outbox
            &&& sent.contains(RequestModel::GetKeyboard) <==> keyboard
            &&& sent.contains(RequestModel::GetPointer) <==> pointer
            &&& sent.contains(RequestModel::GetTouch) <==> touch
            &&& sent.len() == (if keyboard {
                1int
            } else {
                0
            }) + (if pointer {
                1int
            } else {
                0
            }) + (if touch {
                1int
            } else {
                0
            })
            &&& after == (KeyboardModel {
                virtual_keyboard: VirtualKeyboardModel {
                    keyboard: after.virtual_keyboard.keyboard,
                    pointer: after.virtual_keyboard.pointer,
                    touch: after.virtual_keyboard.touch,
                    ..before
                },
                outbox: after.outbox,
                ..s
            })
        },
{
    if s.virtual_keyboard.seat is Some {
        let before = s.virtual_keyboard;
        let after = s.seat_event(SeatEvent::Capabilities(capabilities));
        let sent = after.outbox.skip(s.outbox.len() as int);
        assert(after.outbox.take(s.outbox.len() as int) =~= s.outbox);
        assert(sent =~= before.offers(capabilities));
        let pointer_at = if capabilities.keyboard && !before.keyboard {
            1int
        } else {
            0int
        };
        let touch_at = pointer_at + if capabilities.pointer && !before.pointer {
            1int
        } else {
            0int
        };
        if capabilities.keyboard && !before.keyboard {
            assert(sent[0] == RequestModel::GetKeyboard);
        }
        if capabilities.pointer && !before.pointer {
            assert(sent[pointer_at] == RequestModel::GetPointer);
        }
        if capabilities.touch && !before.touch {
            assert(sent[touch_at] == RequestModel::GetTouch);
        }
    }
}

// ── stamps ─────────────────────────────────────────────────────────────────

/// In a queue whose presses are paired, a press is followed at once by the release
/// of the same key under the same stamp; in one that is stamped, every key carries
/// the stamp.
pub proof fn law_stamps(
    outbox: Seq<Request>,
    from: int,
    stamp: u32,
    i: int,
    time: u32,
    code: u32,
)
    requires
        from <= i < outbox.len(),
    ensures
        presses_paired(outbox, from) && outbox[i] == (Request::Key {
            time,
            code,
            state: KeyState::Pressed,
        }) ==> i + 1 < outbox.len() && outbox[i + 1] == (Request::Key {
            time,
            code,
            state: KeyState::Released,
        }),
        stamped(outbox, from, stamp) && outbox[i] is Key ==> outbox[i]->time == stamp,
{
    let request = outbox[i];
}

} // verus!
