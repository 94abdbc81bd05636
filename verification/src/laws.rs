//! What holds of the keyboard as a whole: facts that relate several operations,
//! or one operation to itself over time.
//!
//! The modules below say what each operation does to the fields it reaches, and
//! that it leaves the others alone.
//!
//! - [`input_method`]: events and edits of the input-method client.
//! - [`keymap`]: the keysym table, key by key.
//! - [`model`]: what the models hold and what searches over them find.
//! - [`surface`]: creating, sizing, showing and painting the bar.
//! - [`typing`]: keystrokes, latches, views, pointer and touch.

pub mod input_method;
pub mod keymap;
pub mod model;
pub mod surface;
pub mod typing;

use crate::input_method::{
    ChangeCause, ContextModel, DeleteSurrounding, EditModel, InputMethodEventModel,
    InputMethodModel, PreeditModel,
};
use crate::latch::{combined_mask, lemma_nothing_latched};
use crate::layout::{
    first_named, first_true, is_first_true, lemma_first_true_complete, lemma_first_true_unique,
    KeyActionModel, ViewModel,
};
use crate::request::{Interface, KeyState, RegistryEvent, RequestModel};
use crate::state::KeyboardModel;
use crate::virtual_keyboard::{keystroke_requests, SeatEvent, VirtualKeyboardModel};
use crate::window::{bar_height, effective_scale, LayerSurfaceEvent, WindowModel, HANDLE_HEIGHT};
use crate::xkb::{char_keysym, XkbModel};
use vstd::prelude::*;

verus! {

// ── input method: inbound ──────────────────────────────────────────────────

/// The state after a run of events.
pub open spec fn receive_all(
    im: InputMethodModel,
    events: Seq<InputMethodEventModel>,
) -> InputMethodModel
    decreases events.len(),
{
    if events.len() == 0 {
        im
    } else {
        receive_all(im, events.drop_last()).receive(events.last())
    }
}

/// How many of the events are a `done`.
pub open spec fn count_done(events: Seq<InputMethodEventModel>) -> nat
    decreases events.len(),
{
    if events.len() == 0 {
        0
    } else {
        count_done(events.drop_last()) + if events.last() is Done {
            1nat
        } else {
            0nat
        }
    }
}

/// The pending context after a run of events has been written into it.
pub open spec fn fill_all(
    pending: ContextModel,
    events: Seq<InputMethodEventModel>,
) -> ContextModel
    decreases events.len(),
{
    if events.len() == 0 {
        pending
    } else {
        fill_all(pending, events.drop_last()).fill(events.last())
    }
}

/// Which of the events say that the object is unavailable.
pub open spec fn unavailable_flags(events: Seq<InputMethodEventModel>) -> Seq<bool> {
    Seq::new(events.len(), |i: int| events[i] is Unavailable)
}

/// The events before the first that says that the object is unavailable.
pub open spec fn heard(events: Seq<InputMethodEventModel>) -> Seq<InputMethodEventModel> {
    match first_true(unavailable_flags(events)) {
        Some(i) => events.take(i),
        None => events,
    }
}

/// The serial counts the `done` events, modulo its range, up to the event that
/// makes the object unavailable, if one does.
pub proof fn law_serial_counts_done(im: InputMethodModel, events: Seq<InputMethodEventModel>)
    requires
        !im.inert,
    ensures
        receive_all(im, events).serial as int == (im.serial + count_done(heard(events)))
            % 0x1_0000_0000,
        receive_all(im, events).inert <==> exists|i: int|
            0 <= i < events.len() && #[trigger] events[i] is Unavailable,
    decreases events.len(),
{
    let flags = unavailable_flags(events);
    if exists|i: int| 0 <= i < events.len() && #[trigger] events[i] is Unavailable {
        let k = choose|i: int| 0 <= i < events.len() && #[trigger] events[i] is Unavailable;
        lemma_first_true_complete(flags, k);
        let first = first_true(flags)->0;
        assert(is_first_true(flags, first));
        assert(events[first] is Unavailable);
        let earlier = events.drop_last();
        if first == earlier.len() {
            assert forall|i: int| 0 <= i < earlier.len() implies !(
            #[trigger] earlier[i] is Unavailable) by {
                assert(!flags[i]);
            }
            lemma_serial_while_available(im, earlier);
            assert(events.take(first) =~= earlier);
        } else {
            assert(earlier[first] is Unavailable);
            assert(unavailable_flags(earlier) =~= flags.drop_last());
            assert(is_first_true(unavailable_flags(earlier), first)) by {
                assert forall|j: int| 0 <= j < first implies !#[trigger] unavailable_flags(
                    earlier,
                )[j] by {
                    assert(!flags[j]);
                }
            }
            lemma_first_true_unique(unavailable_flags(earlier), first);
            assert(earlier.take(first) =~= events.take(first));
            law_serial_counts_done(im, earlier);
        }
    } else {
        if let Some(i) = first_true(flags) {
            assert(is_first_true(flags, i));
            assert(events[i] is Unavailable);
        }
        lemma_serial_while_available(im, events);
    }
}

/// While no event makes the object unavailable, it stays available and every
/// `done` counts.
proof fn lemma_serial_while_available(im: InputMethodModel, events: Seq<InputMethodEventModel>)
    requires
        !im.inert,
        forall|i: int| 0 <= i < events.len() ==> !(#[trigger] events[i] is Unavailable),
    ensures
        receive_all(im, events).serial as int == (im.serial + count_done(events)) % 0x1_0000_0000,
        !receive_all(im, events).inert,
    decreases events.len(),
{
    if events.len() > 0 {
        assert(!(events.last() is Unavailable));
        assert forall|i: int| 0 <= i < events.drop_last().len() implies !(
        #[trigger] events.drop_last()[i] is Unavailable) by {
            assert(!(events[i] is Unavailable));
        }
        lemma_serial_while_available(im, events.drop_last());
    }
}

/// What the keyboard reads changes at a `done` alone: a batch of other events
/// leaves the current context as it was.
pub proof fn law_current_waits_for_done(im: InputMethodModel, events: Seq<InputMethodEventModel>)
    requires
        forall|i: int| 0 <= i < events.len() ==> !(#[trigger] events[i] is Done),
    ensures
        receive_all(im, events).current == im.current,
        receive_all(im, events).serial == im.serial,
    decreases events.len(),
{
    if events.len() > 0 {
        assert(!(events.last() is Done));
        assert forall|i: int| 0 <= i < events.drop_last().len() implies !(
        #[trigger] events.drop_last()[i] is Done) by {
            assert(!(events[i] is Done));
        }
        law_current_waits_for_done(im, events.drop_last());
    }
}

/// A batch is applied as one: the `done` that ends it makes current exactly what
/// its events wrote into the pending context, in order.
pub proof fn law_done_applies_the_batch(im: InputMethodModel, events: Seq<InputMethodEventModel>)
    requires
        !im.inert,
        forall|i: int| 0 <= i < events.len() ==> !(#[trigger] events[i] is Unavailable),
    ensures
        receive_all(im, events.push(InputMethodEventModel::Done)).current == fill_all(
            im.pending,
            events,
        ),
        receive_all(im, events).pending == fill_all(im.pending, events),
    decreases events.len(),
{
    assert(events.push(InputMethodEventModel::Done).drop_last() =~= events);
    lemma_serial_while_available(im, events);
    if events.len() > 0 {
        assert(!(events.last() is Unavailable));
        assert forall|i: int| 0 <= i < events.drop_last().len() implies !(
        #[trigger] events.drop_last()[i] is Unavailable) by {
            assert(!(events[i] is Unavailable));
        }
        law_done_applies_the_batch(im, events.drop_last());
        lemma_serial_while_available(im, events.drop_last());
    }
}

/// An activation forgets everything reported before it: applied at once, the
/// current context is active and otherwise at its initial values.
pub proof fn law_activation_starts_clean(im: InputMethodModel)
    requires
        !im.inert,
    ensures
        ({
            let applied = im.receive(InputMethodEventModel::Activate).receive(
                InputMethodEventModel::Done,
            ).current;
            applied == (ContextModel { active: true, ..ContextModel::initial() })
                && applied.change_cause == ChangeCause::InputMethod
        }),
{
}

/// A deactivation, once applied, ends committing until the next activation is
/// applied.
pub proof fn law_deactivation_stops_commits(im: InputMethodModel)
    requires
        !im.inert,
    ensures
        !im.receive(InputMethodEventModel::Deactivate).receive(
            InputMethodEventModel::Done,
        ).commits(),
        im.input_method ==> im.receive(InputMethodEventModel::Activate).receive(
            InputMethodEventModel::Done,
        ).commits(),
{
}

/// Once unavailable, the object ignores everything: no event changes it, no edit
/// can be staged or sent, and it is never created again.
pub proof fn law_unavailable_is_final(
    s: KeyboardModel,
    event: InputMethodEventModel,
    edit: EditModel,
    kb_height: u32,
)
    requires
        s.input_method.inert,
    ensures
        s.input_method_event(event, kb_height) == s,
        s.input_method.stage(edit) == s.input_method,
        s.flushed() == s,
        s.input_method_created() == s,
        !s.input_method.commits(),
{
    assert(s.input_method_event(event, kb_height) =~= s);
}

/// An object that has not become unavailable becomes so by that event, whatever
/// it was doing.
pub proof fn law_unavailable_makes_inert(im: InputMethodModel)
    ensures
        im.receive(InputMethodEventModel::Unavailable).inert,
        !im.receive(InputMethodEventModel::Unavailable).commits(),
{
}

/// Focus and visibility go together: where showing or hiding has an effect, a
/// `done` leaves the keyboard visible exactly while a field is focused.
pub proof fn law_done_follows_focus(s: KeyboardModel, kb_height: u32)
    requires
        !s.input_method.inert,
        s.window matches Some(window) && window.logical_width > 0,
        s.has_measurable_view(),
    ensures
        ({
            let after = s.input_method_event(InputMethodEventModel::Done, kb_height);
            after.window->0.visible == after.input_method.current.active
        }),
{
}

// ── input method: outbound ─────────────────────────────────────────────────

/// Fields are set, not accumulated: staging a field again leaves only the later
/// value, and does not touch the other fields.
pub proof fn law_staging_replaces(
    im: InputMethodModel,
    text1: Seq<char>,
    text2: Seq<char>,
    preedit1: PreeditModel,
    preedit2: PreeditModel,
    delete1: DeleteSurrounding,
    delete2: DeleteSurrounding,
)
    ensures
        ({
            &&& im.stage_text(text1).stage_text(text2) == im.stage_text(text2)
            &&& im.stage_preedit(preedit1).stage_preedit(preedit2) == im.stage_preedit(preedit2)
            &&& im.stage_delete(delete1).stage_delete(delete2) == im.stage_delete(delete2)
            &&& im.stage_preedit(preedit1).stage_text(text1) == im.stage_text(
                text1,
            ).stage_preedit(preedit1)
            &&& im.stage_delete(delete1).stage_text(text1) == im.stage_text(text1).stage_delete(
                delete1,
            )
            &&& im.stage_delete(delete1).stage_preedit(preedit1) == im.stage_preedit(
                preedit1,
            ).stage_delete(delete1)
        }),
{
}

/// A flush leaves nothing staged, so a second flush sends nothing.
pub proof fn law_flush_sends_once(s: KeyboardModel)
    ensures
        s.flushed().flushed() == s.flushed(),
        s.input_method.accepts_edits() ==> s.flushed().input_method.pending_edit
            == EditModel::nothing(),
{
}

/// Every flush that sends anything ends in exactly one commit, and that commit
/// carries the serial.
pub proof fn law_flush_commits_with_serial(s: KeyboardModel)
    requires
        s.input_method.accepts_edits(),
        s.input_method.pending_edit != EditModel::nothing(),
    ensures
        s.flushed().outbox.last() == (RequestModel::Commit { serial: s.input_method.serial }),
        s.flushed().outbox.len() > s.outbox.len() + 1,
        forall|i: int|
            s.outbox.len() <= i < s.flushed().outbox.len() - 1 ==> !(
            #[trigger] s.flushed().outbox[i] is Commit),
{
    let edit = s.input_method.pending_edit;
    let all = edit.requests().push(RequestModel::Commit { serial: s.input_method.serial });
    assert(s.flushed().outbox =~= s.outbox + all);
    assert(edit.requests().len() > 0);
    assert forall|i: int|
        s.outbox.len() <= i < s.flushed().outbox.len() - 1 implies !(
    #[trigger] s.flushed().outbox[i] is Commit) by {
        assert(s.flushed().outbox[i] == edit.requests()[i - s.outbox.len()]);
    }
}

/// Text committed while a field is focused and nothing else is staged goes out as
/// that text and a commit, and nothing more.
pub proof fn law_commit_text_sends_the_text(s: KeyboardModel, text: Seq<char>)
    requires
        s.input_method.commits(),
        s.input_method.pending_edit == EditModel::nothing(),
    ensures
        s.with_input_method(s.input_method.stage_text(text)).flushed() == s.send(RequestModel::CommitString(text)).send(
            RequestModel::Commit { serial: s.input_method.serial },
        ),
{
    let staged = s.with_input_method(s.input_method.stage_text(text));
    assert(staged.flushed() =~= s.send(RequestModel::CommitString(text)).send(
        RequestModel::Commit { serial: s.input_method.serial },
    ));
}

// ── registry ───────────────────────────────────────────────────────────────

/// An advertisement, as both keyboard clients see it.
pub open spec fn advertised(s: KeyboardModel, event: RegistryEvent) -> KeyboardModel {
    s.keyboard_registry(event).input_method_registry(event)
}

/// The input method is created whichever of its manager and the seat is
/// advertised first.
pub proof fn law_creation_in_either_order(
    s: KeyboardModel,
    seat: RegistryEvent,
    manager: RegistryEvent,
)
    requires
        !s.input_method.inert,
        seat matches RegistryEvent::Global { interface, .. } && interface == Interface::Seat,
        manager matches RegistryEvent::Global { interface, .. } && interface
            == Interface::InputMethodManager,
    ensures
        advertised(advertised(s, seat), manager).input_method.input_method,
        advertised(advertised(s, manager), seat).input_method.input_method,
{
}

/// Creating the input method again changes nothing.
pub proof fn law_creation_is_idempotent(s: KeyboardModel)
    ensures
        s.input_method_created().input_method_created() == s.input_method_created(),
{
}

/// `after` holds everything `before` held, in place, and maybe more behind it.
pub open spec fn extends(before: Seq<RequestModel>, after: Seq<RequestModel>) -> bool {
    before.len() <= after.len() && after.take(before.len() as int) == before
}

/// No request is lost or overtaken: an advertisement only queues behind what is
/// waiting.
pub proof fn law_advertisements_only_append(s: KeyboardModel, event: RegistryEvent)
    ensures
        extends(s.outbox, s.keyboard_registry(event).outbox),
        extends(s.outbox, s.input_method_registry(event).outbox),
        extends(s.outbox, s.window_registry(event).outbox),
{
    assert(s.keyboard_registry(event).outbox.take(s.outbox.len() as int) =~= s.outbox);
    assert(s.input_method_registry(event).outbox.take(s.outbox.len() as int) =~= s.outbox);
    assert(s.window_registry(event).outbox.take(s.outbox.len() as int) =~= s.outbox);
}

/// No request is lost or overtaken: pointer, touch and input-method events only
/// queue behind what is waiting.
pub proof fn law_input_only_appends(
    s: KeyboardModel,
    handle: bool,
    hover: Seq<bool>,
    pressed: Option<Seq<bool>>,
    tapped: Seq<bool>,
    event: InputMethodEventModel,
    kb_height: u32,
)
    ensures
        extends(s.outbox, s.pointed(handle, hover, pressed, kb_height).outbox),
        extends(s.outbox, s.touched(handle, tapped, kb_height).outbox),
        extends(s.outbox, s.input_method_event(event, kb_height).outbox),
        extends(s.outbox, s.flushed().outbox),
{
    let len = s.outbox.len() as int;
    assert forall|action: KeyActionModel| extends(
        s.outbox,
        #[trigger] s.dispatched(action).outbox,
    ) by {
        assert(s.dispatched(action).outbox.take(len) =~= s.outbox);
    }
    assert(s.pointed(handle, hover, pressed, kb_height).outbox.take(len) =~= s.outbox);
    assert(s.touched(handle, tapped, kb_height).outbox.take(len) =~= s.outbox);
    assert(s.input_method_event(event, kb_height).outbox.take(len) =~= s.outbox);
    assert(s.flushed().outbox.take(len) =~= s.outbox);
}

/// No request is lost or overtaken: surface, callback and seat events only queue
/// behind what is waiting.
pub proof fn law_surface_events_only_append(
    s: KeyboardModel,
    event: LayerSurfaceEvent,
    id: Option<u32>,
    seat: SeatEvent,
    kb_height: u32,
)
    ensures
        extends(s.outbox, s.configured(event, kb_height).outbox),
        extends(s.outbox, s.callback_done(id).outbox),
        extends(s.outbox, s.buffer_released(id).outbox),
        extends(s.outbox, s.seat_event(seat).outbox),
{
    let len = s.outbox.len() as int;
    assert(s.configured(event, kb_height).outbox.take(len) =~= s.outbox);
    assert(s.callback_done(id).outbox.take(len) =~= s.outbox);
    assert(s.buffer_released(id).outbox.take(len) =~= s.outbox);
    assert(s.seat_event(seat).outbox.take(len) =~= s.outbox);
}

/// Each seat device is obtained once: hearing of the same capabilities again
/// changes nothing.
pub proof fn law_seat_devices_are_obtained_once(s: KeyboardModel, event: SeatEvent)
    ensures
        s.seat_event(event).seat_event(event) == s.seat_event(event),
{
    assert(s.seat_event(event).seat_event(event) =~= s.seat_event(event));
}

// ── latched modifiers ──────────────────────────────────────────────────────

/// A second tap on a modifier cancels the first.
pub proof fn law_second_tap_cancels(keyboard: VirtualKeyboardModel, name: Seq<char>)
    ensures
        keyboard.with_latch_toggled(name).with_latch_toggled(name) == keyboard,
{
    assert(keyboard.with_latch_toggled(name).with_latch_toggled(name) =~= keyboard);
}

/// A latch lasts for one keystroke: the first keysym typed holds the latched
/// modifiers besides its own, the next one holds only its own.
pub proof fn law_latch_is_one_shot(s: KeyboardModel, first: u32, second: u32)
    requires
        s.virtual_keyboard.virtual_keyboard,
        s.virtual_keyboard.keycodes.contains_key(first),
        s.virtual_keyboard.keycodes.contains_key(second),
    ensures
        ({
            let keyboard = s.virtual_keyboard;
            let once = s.emitted(KeyActionModel::EmitKeysym(first));
            let twice = once.emitted(KeyActionModel::EmitKeysym(second));
            let own1 = keyboard.keycodes[first];
            let own2 = keyboard.keycodes[second];
            &&& once.virtual_keyboard.latched == Set::<Seq<char>>::empty()
            &&& once.outbox == s.outbox + keystroke_requests(
                own1.code,
                own1.mods | combined_mask(keyboard.latched, keyboard.mod_masks),
            )
            &&& twice.outbox == once.outbox + keystroke_requests(own2.code, own2.mods)
        }),
{
    let masks = s.virtual_keyboard.mod_masks;
    lemma_nothing_latched(masks);
    let mods = s.virtual_keyboard.keycodes[second].mods;
    assert(mods | 0 == mods) by (bit_vector);
}

/// A latch stays armed until a real key fires: an action that queues anything
/// leaves nothing latched, and one that queues nothing leaves everything as it was.
pub proof fn law_only_keystrokes_consume(s: KeyboardModel, action: KeyActionModel)
    ensures
        s.emitted(action).outbox != s.outbox ==> s.emitted(action).virtual_keyboard.latched
            == Set::<Seq<char>>::empty(),
        s.emitted(action).outbox == s.outbox ==> s.emitted(action) == s,
        !(action is EmitKeysym || action is EmitText) ==> s.emitted(action) == s,
{
    let requests = s.virtual_keyboard.action_strokes(action);
    assert((s.outbox + requests).len() == s.outbox.len() + requests.len());
}

/// A keysym that cannot be typed, because the keymap lacks it or the keyboard is
/// not ready, changes nothing when its key is tapped, and does not repaint.
pub proof fn law_dropped_key_keeps_the_latch(s: KeyboardModel, keysym: u32)
    requires
        !s.virtual_keyboard.keycodes.contains_key(keysym)
            || !s.virtual_keyboard.virtual_keyboard,
    ensures
        s.emitted(KeyActionModel::EmitKeysym(keysym)) == s,
        s.dispatched(KeyActionModel::EmitKeysym(keysym)) == s,
{
}

/// Only modifiers with a mask are ever latched, and Control is the only one with
/// a mask.
pub open spec fn latch_is_sound(keyboard: VirtualKeyboardModel) -> bool {
    &&& forall|name: Seq<char>| #[trigger]
        keyboard.latched.contains(name) ==> keyboard.mod_masks.contains_key(name)
    &&& forall|name: Seq<char>| #[trigger]
        keyboard.mod_masks.contains_key(name) ==> name == "Control"@
}

/// A fresh keyboard latches soundly, and no operation on the latch or the keymap
/// changes that.
pub proof fn law_latch_stays_sound(
    s: KeyboardModel,
    name: Seq<char>,
    action: KeyActionModel,
    keymap: XkbModel,
    size: Option<u32>,
)
    ensures
        s.virtual_keyboard.is_fresh() ==> latch_is_sound(s.virtual_keyboard),
        latch_is_sound(s.virtual_keyboard) ==> {
            &&& latch_is_sound(s.virtual_keyboard.with_latch_toggled(name))
            &&& latch_is_sound(s.dispatched(action).virtual_keyboard)
            &&& latch_is_sound(s.keyboard_ready(keymap, size).virtual_keyboard)
        },
{
}

// ── typing ─────────────────────────────────────────────────────────────────

/// The depressed modifier mask after a run of requests.
pub open spec fn depressed_after(mask: u32, requests: Seq<RequestModel>) -> u32
    decreases requests.len(),
{
    if requests.len() == 0 {
        mask
    } else {
        match requests.last() {
            RequestModel::Modifiers { depressed, .. } => depressed,
            _ => depressed_after(mask, requests.drop_last()),
        }
    }
}

/// The keycodes held down after a run of requests.
pub open spec fn held_after(held: Set<u32>, requests: Seq<RequestModel>) -> Set<u32>
    decreases requests.len(),
{
    if requests.len() == 0 {
        held
    } else {
        let before = held_after(held, requests.drop_last());
        match requests.last() {
            RequestModel::Key { code, state: KeyState::Pressed } => before.insert(code),
            RequestModel::Key { code, state: KeyState::Released } => before.remove(code),
            _ => before,
        }
    }
}

proof fn lemma_after_concat(mask: u32, held: Set<u32>, a: Seq<RequestModel>, b: Seq<RequestModel>)
    ensures
        depressed_after(mask, a + b) == depressed_after(depressed_after(mask, a), b),
        held_after(held, a + b) == held_after(held_after(held, a), b),
    decreases b.len(),
{
    if b.len() == 0 {
        assert(a + b =~= a);
    } else {
        assert((a + b).drop_last() =~= a + b.drop_last());
        assert((a + b).last() == b.last());
        lemma_after_concat(mask, held, a, b.drop_last());
    }
}

/// Nothing lingers after typing a keysym: no key is held and no modifier is
/// depressed.
pub proof fn law_keysym_leaves_nothing_held(keyboard: VirtualKeyboardModel, keysym: u32)
    ensures
        depressed_after(0, keyboard.strokes(keysym)) == 0,
        held_after(Set::empty(), keyboard.strokes(keysym)) == Set::<u32>::empty(),
{
    let all = keyboard.strokes(keysym);
    reveal_with_fuel(depressed_after, 5);
    reveal_with_fuel(held_after, 5);
    if keyboard.keycodes.contains_key(keysym) && keyboard.virtual_keyboard {
        let code = keyboard.keycodes[keysym].code;
        let mods = keyboard.keycodes[keysym].mods | combined_mask(
            keyboard.latched,
            keyboard.mod_masks,
        );
        let down = RequestModel::Key { code, state: KeyState::Pressed };
        let up = RequestModel::Key { code, state: KeyState::Released };
        let clear = RequestModel::Modifiers { depressed: 0, latched: 0, locked: 0, group: 0 };
        let hold = RequestModel::Modifiers { depressed: mods, latched: 0, locked: 0, group: 0 };
        if mods == 0 {
            assert(all =~= seq![down, up]);
            assert(all.drop_last() =~= seq![down]);
            assert(all.drop_last().drop_last() =~= seq![]);
        } else {
            assert(all =~= seq![hold, down, up, clear]);
            assert(all.drop_last() =~= seq![hold, down, up]);
            assert(all.drop_last().drop_last() =~= seq![hold, down]);
            assert(all.drop_last().drop_last().drop_last() =~= seq![hold]);
            assert(all.drop_last().drop_last().drop_last().drop_last() =~= seq![]);
        }
        assert(held_after(Set::empty(), all) =~= Set::<u32>::empty());
    }
}

/// Nothing lingers after typing a text: no key is held and no modifier is
/// depressed.
pub proof fn law_text_leaves_nothing_held(keyboard: VirtualKeyboardModel, text: Seq<char>)
    ensures
        depressed_after(0, keyboard.text_strokes(text)) == 0,
        held_after(Set::empty(), keyboard.text_strokes(text)) == Set::<u32>::empty(),
    decreases text.len(),
{
    if text.len() > 0 {
        let keysym = char_keysym(text.last());
        law_text_leaves_nothing_held(keyboard, text.drop_last());
        law_keysym_leaves_nothing_held(keyboard, keysym);
        lemma_after_concat(
            0,
            Set::empty(),
            keyboard.text_strokes(text.drop_last()),
            keyboard.strokes(keysym),
        );
    }
}

/// A text is typed in order: the requests of a text are those of its first part
/// followed by those of the rest.
pub proof fn law_text_is_typed_in_order(
    keyboard: VirtualKeyboardModel,
    first: Seq<char>,
    rest: Seq<char>,
)
    ensures
        keyboard.text_strokes(first + rest) == keyboard.text_strokes(first)
            + keyboard.text_strokes(rest),
    decreases rest.len(),
{
    if rest.len() == 0 {
        assert(first + rest =~= first);
        assert(keyboard.text_strokes(first) + keyboard.text_strokes(rest)
            =~= keyboard.text_strokes(first));
    } else {
        assert((first + rest).drop_last() =~= first + rest.drop_last());
        assert((first + rest).last() == rest.last());
        law_text_is_typed_in_order(keyboard, first, rest.drop_last());
        assert(keyboard.text_strokes(first + rest) =~= keyboard.text_strokes(first)
            + keyboard.text_strokes(rest));
    }
}

/// Nothing is typed until a keymap has been uploaded.
pub proof fn law_nothing_typed_before_keymap(
    keyboard: VirtualKeyboardModel,
    keysym: u32,
    text: Seq<char>,
)
    requires
        keyboard.is_fresh() || !keyboard.virtual_keyboard,
    ensures
        keyboard.strokes(keysym) == Seq::<RequestModel>::empty(),
        keyboard.text_strokes(text) == Seq::<RequestModel>::empty(),
    decreases text.len(),
{
    if text.len() > 0 {
        law_nothing_typed_before_keymap(keyboard, char_keysym(text.last()), text.drop_last());
    }
}

/// Once the virtual keyboard has its keymap, a keysym is typed by exactly the
/// keystroke the keymap resolves it to.
pub proof fn law_uploaded_keymap_is_typed(
    s: KeyboardModel,
    keymap: XkbModel,
    size: u32,
    keysym: u32,
)
    requires
        keymap.is_scannable(),
        s.keyboard_globals_bound(),
        s.virtual_keyboard.latched == Set::<Seq<char>>::empty(),
    ensures
        ({
            let ready = s.keyboard_ready(keymap, Some(size)).virtual_keyboard;
            ready.strokes(keysym) == match keymap.keystroke(keysym) {
                Some(stroke) => keystroke_requests(stroke.code, stroke.mods),
                None => Seq::<RequestModel>::empty(),
            }
        }),
{
    let ready = s.keyboard_ready(keymap, Some(size)).virtual_keyboard;
    lemma_nothing_latched(ready.mod_masks);
    if let Some(stroke) = keymap.keystroke(keysym) {
        let mods = stroke.mods;
        assert(mods | 0 == mods) by (bit_vector);
    }
}

// ── views ──────────────────────────────────────────────────────────────────

/// Switching to the view that is showing, or to one that does not exist, changes
/// nothing; so switching twice is switching once.
pub proof fn law_switching_twice_is_once(s: KeyboardModel, name: Seq<char>)
    requires
        s.keymap matches Some(views) ==> views.len() <= usize::MAX,
    ensures
        s.switched(name).switched(name) == s.switched(name),
        s.keymap is None ==> s.switched(name) == s,
        s.keymap matches Some(views) ==> first_named(views, name) is None ==> s.switched(name)
            == s,
{
    if let Some(views) = s.keymap {
        lemma_first_named(views, name);
    }
}

/// The view found under a name has that name.
proof fn lemma_first_named(views: Seq<ViewModel>, name: Seq<char>)
    ensures
        first_named(views, name) matches Some(i) ==> 0 <= i < views.len() && views[i].name == name,
{
    let flags = Seq::new(views.len(), |i: int| views[i].name == name);
    if let Some(i) = first_named(views, name) {
        assert(crate::layout::is_first_true(flags, i));
        assert(flags[i]);
    }
}

/// A view that switching leads to is showing afterwards, under the name asked
/// for.
pub proof fn law_switch_shows_the_named_view(s: KeyboardModel, name: Seq<char>)
    requires
        s.keymap matches Some(views) && views.len() <= usize::MAX && first_named(views, name)
            is Some,
    ensures
        s.switched(name).current() matches Some(view) && view.name == name,
{
    lemma_first_named(s.keymap->0, name);
}

/// A toggle goes to its lock view, and toggling again comes back to the unlock
/// view. Each of the two repaints once, and queues nothing else; with one view for
/// both there is nowhere to come back to, and only the first does.
pub proof fn law_toggle_view_comes_back(s: KeyboardModel, lock: Seq<char>, unlock: Seq<char>)
    requires
        s.keymap matches Some(views) && views.len() <= usize::MAX && first_named(views, lock)
            is Some && first_named(views, unlock) is Some,
        !(s.current() matches Some(view) && view.name == lock),
    ensures
        ({
            let action = KeyActionModel::ToggleView { lock, unlock };
            let locked = s.dispatched(action);
            let back = locked.dispatched(action);
            &&& locked.current() matches Some(view) && view.name == lock
            &&& back.current() matches Some(view) && view.name == unlock
            &&& locked.outbox == s.outbox.push(RequestModel::Render)
            &&& back.outbox == if lock != unlock {
                locked.outbox.push(RequestModel::Render)
            } else {
                locked.outbox
            }
        }),
{
    lemma_first_named(s.keymap->0, lock);
    lemma_first_named(s.keymap->0, unlock);
    law_switch_shows_the_named_view(s, lock);
    law_switch_shows_the_named_view(s.switched(lock), unlock);
}

/// A view switch never resizes the bar.
pub proof fn law_view_switch_keeps_the_size(s: KeyboardModel, name: Seq<char>)
    ensures
        s.switched(name).window == s.window,
        s.switched(name).outbox == s.outbox || s.switched(name).outbox == s.outbox.push(
            RequestModel::Render,
        ),
{
}

/// A latch or a view switch types nothing.
pub proof fn law_only_keystrokes_type(s: KeyboardModel, action: KeyActionModel)
    requires
        !(action is EmitKeysym || action is EmitText),
    ensures
        s.dispatched(action).outbox == s.outbox || s.dispatched(action).outbox == s.outbox.push(
            RequestModel::Render,
        ),
{
}

// ── window ─────────────────────────────────────────────────────────────────

/// The surface is created once, hidden.
pub proof fn law_window_is_created_once(s: KeyboardModel)
    ensures
        s.window_created().window_created() == s.window_created(),
        s.window is None ==> (s.window_created().window matches Some(window) ==> !window.visible),
        s.window is Some ==> s.window_created() == s,
{
}

/// No request of a queue after its first `from` sets the exclusive zone.
pub open spec fn zone_untouched(outbox: Seq<RequestModel>, from: nat) -> bool {
    forall|i: int| from <= i < outbox.len() ==> !(#[trigger] outbox[i] is SetExclusiveZone)
}

/// The reserved zone is constant: showing, hiding and sizing the bar never touch
/// it, so other windows never move.
pub proof fn law_zone_is_constant(
    s: KeyboardModel,
    visible: bool,
    event: LayerSurfaceEvent,
    kb_height: u32,
)
    ensures
        zone_untouched(s.with_visibility(visible, kb_height).outbox, s.outbox.len()),
        zone_untouched(s.configured(event, kb_height).outbox, s.outbox.len()),
{
}

/// No request of a queue after its first `from` asks for a size or commits the
/// surface.
pub open spec fn size_untouched(outbox: Seq<RequestModel>, from: nat) -> bool {
    forall|i: int|
        from <= i < outbox.len() ==> !(#[trigger] outbox[i] is SetSize) && !(outbox[i]
            is CommitSurface)
}

/// The requests of a queue after its first `from` end in the only repaint among
/// them.
pub open spec fn repaints_once_at_the_end(outbox: Seq<RequestModel>, from: nat) -> bool {
    &&& from < outbox.len()
    &&& outbox.last() is Render
    &&& forall|i: int| from <= i < outbox.len() - 1 ==> !(#[trigger] outbox[i] is Render)
}

/// The height is asked for at most once per width: after one configure, any other
/// that settles on the same width leaves the height asked for as it is and asks
/// for none. It paints once, after everything else, unless the keyboard is shown
/// and has no height.
pub proof fn law_configure_settles(
    s: KeyboardModel,
    first: LayerSurfaceEvent,
    second: LayerSurfaceEvent,
    kb_height: u32,
)
    requires
        s.configure_applies(first),
        s.configure_in_range(first, kb_height),
        second matches LayerSurfaceEvent::Configure { width, .. } && s.configured(
            first,
            kb_height,
        ).window->0.settled_width(width) == s.window->0.settled_width(first->Configure_width),
    ensures
        ({
            let once = s.configured(first, kb_height);
            let twice = once.configured(second, kb_height);
            let visible = s.window->0.visible;
            &&& once.configure_applies(second)
            &&& twice.window->0.requested_height == once.window->0.requested_height
            &&& size_untouched(twice.outbox, once.outbox.len())
            &&& !(visible && kb_height == 0) ==> {
                &&& once.window->0.requested_height == bar_height(visible, kb_height)
                &&& repaints_once_at_the_end(twice.outbox, once.outbox.len())
            }
        }),
{
}

/// A hidden bar wants the Handle's height whatever the width, so one that has
/// asked for it is painted at the first configure.
pub proof fn law_hidden_bar_paints_at_once(
    s: KeyboardModel,
    event: LayerSurfaceEvent,
    kb_height: u32,
)
    requires
        s.configure_applies(event),
        !s.window->0.visible,
        s.window->0.requested_height == HANDLE_HEIGHT,
    ensures
        s.configured(event, kb_height).outbox.last() == RequestModel::Render,
        s.configured(event, kb_height) == s.configured(event, 0),
{
}

/// After showing or hiding, the next configure at the same width finds the height
/// it wants already asked for, and paints.
pub proof fn law_visibility_then_configure_paints(
    s: KeyboardModel,
    visible: bool,
    serial: u32,
    kb_height: u32,
)
    requires
        s.visibility_applies(visible),
        s.visibility_in_range(visible, kb_height),
        s.globals.dmabuf is Some,
        visible ==> kb_height > 0,
    ensures
        ({
            let width = s.window->0.logical_width;
            let event = LayerSurfaceEvent::Configure { serial, width, height: 0 };
            s.with_visibility(visible, kb_height).configured(event, kb_height).outbox.last()
                == RequestModel::Render
        }),
{
}

/// Buffers match the surface: after a configure that paints, the buffer's size is
/// the bar's logical size times the scale, and a first allocation records the
/// bar's height.
pub proof fn law_buffers_match_the_surface(
    s: KeyboardModel,
    event: LayerSurfaceEvent,
    kb_height: u32,
)
    requires
        s.configure_applies(event),
        s.configure_in_range(event, kb_height),
        !(s.window->0.visible && kb_height == 0),
        s.window->0.requested_height == bar_height(s.window->0.visible, kb_height),
    ensures
        ({
            let window = s.configured(event, kb_height).window->0;
            let height = bar_height(s.window->0.visible, kb_height);
            let scale = effective_scale(s.scale);
            &&& window.physical_width == window.logical_width * scale
            &&& window.physical_height == height * scale
            &&& s.window->0.slots is None ==> window.logical_height == height
        }),
{
}

/// Setting the visibility twice is setting it once.
pub proof fn law_visibility_is_idempotent(s: KeyboardModel, visible: bool, kb_height: u32)
    ensures
        s.with_visibility(visible, kb_height).with_visibility(visible, kb_height)
            == s.with_visibility(visible, kb_height),
{
}

/// The requests that ask for the bar's height in a state.
pub open spec fn height_requests(visible: bool, kb_height: u32) -> Seq<RequestModel> {
    seq![
        RequestModel::SetSize { width: 0, height: bar_height(visible, kb_height) as u32 },
        RequestModel::CommitSurface,
    ]
}

/// Toggling twice brings the visibility back. Each toggle asks for the height of
/// the state it goes to, and queues nothing else; a window whose height was asked
/// for already is back as it was, and any other differs in that alone.
pub proof fn law_toggling_twice_comes_back(s: KeyboardModel, kb_height: u32)
    requires
        s.visibility_applies(!s.window->0.visible),
        kb_height + HANDLE_HEIGHT <= u32::MAX,
    ensures
        ({
            let visible = s.window->0.visible;
            let height = bar_height(visible, kb_height);
            let once = s.toggled_visibility(kb_height);
            let twice = once.toggled_visibility(kb_height);
            &&& once.window->0.visible == !visible
            &&& once.outbox == s.outbox + height_requests(!visible, kb_height)
            &&& twice.window == Some(
                WindowModel { requested_height: height as u32, ..s.window->0 },
            )
            &&& twice.outbox == once.outbox + height_requests(visible, kb_height)
            &&& s.window->0.requested_height == height ==> twice.window == s.window
        }),
{
}

/// The Handle is the bottom band of the surface; a hidden bar is nothing but the
/// Handle.
pub proof fn law_handle_is_the_bottom_band(window: WindowModel)
    ensures
        window.handle() matches Some(rect) ==> {
            &&& rect.x == 0 && rect.width == window.logical_width
            &&& rect.y + rect.height == window.logical_height
            &&& window.logical_height == HANDLE_HEIGHT ==> rect.y == 0 && rect.height
                == window.logical_height
        },
        window.handle() is Some <==> window.logical_width > 0 && window.logical_height > 0,
{
}

/// A buffer handed back is drawable, the other keeps its state, and hearing of it
/// again changes nothing.
pub proof fn law_release_marks_its_buffer(window: WindowModel, id: u32)
    requires
        window.slots is Some,
    ensures
        forall|i: int|
            0 <= i < window.slots->0.len() ==> {
                let before = window.slots->0[i];
                let after = #[trigger] window.with_released(id).slots->0[i];
                &&& after.buffer_id == before.buffer_id
                &&& before.buffer_id == id ==> after.released
                &&& before.buffer_id != id ==> after == before
            },
        window.with_released(id).with_released(id) == window.with_released(id),
{
    assert(window.with_released(id).with_released(id).slots->0 =~= window.with_released(
        id,
    ).slots->0);
}

/// A frame callback repaints once: heard of again, it is no frame callback.
pub proof fn law_frame_callback_fires_once(s: KeyboardModel, id: u32)
    requires
        s.frame_callbacks.contains(id),
    ensures
        s.callback_done(Some(id)).outbox == s.outbox.push(RequestModel::Render),
        s.callback_done(Some(id)).callback_done(Some(id)) == s.callback_done(
            Some(id),
        ).window_created(),
{
}

/// Keys are live only while shown: with the keyboard hidden, pointer and touch
/// input off the Handle types nothing and switches nothing.
pub proof fn law_hidden_keys_are_dead(
    s: KeyboardModel,
    hover: Seq<bool>,
    pressed: Option<Seq<bool>>,
    tapped: Seq<bool>,
    kb_height: u32,
)
    requires
        !s.is_visible(),
    ensures
        s.pointed(false, hover, pressed, kb_height) == (KeyboardModel { last_hover: None, ..s }),
        s.touched(false, tapped, kb_height) == s,
{
}

/// The Handle works in either state: a hit on it toggles the visibility and types
/// nothing, whatever keys are under the pointer or finger.
pub proof fn law_handle_toggles_in_either_state(
    s: KeyboardModel,
    hover: Seq<bool>,
    pressed: Option<Seq<bool>>,
    tapped: Seq<bool>,
    kb_height: u32,
)
    requires
        s.has_handle(),
        s.has_measurable_view(),
    ensures
        ({
            let toggled = s.toggled_visibility(kb_height);
            &&& s.pointed(true, hover, pressed, kb_height) == toggled
            &&& s.touched(true, tapped, kb_height) == toggled
            &&& toggled.is_visible() == !s.is_visible()
            &&& toggled.virtual_keyboard == s.virtual_keyboard
            &&& toggled.current_view == s.current_view
        }),
{
}

} // verus!
