//! What the models of the state, the layout and the requests hold, and what the
//! searches over them find.

use crate::input_method::{DeleteSurrounding, InputMethodModel, Preedit};
use crate::layout::{
    action_hit, first_named, first_true, is_first_true, label_hit, lemma_first_true_complete,
    lemma_first_true_unique, Key, KeyAction, KeyActionModel, KeyboardView, Keymap, ViewModel,
};
use crate::request::{
    interface_called, Anchor, Interface, KeyState, KeyboardInteractivity, Layer, Request,
    RequestModel,
};
use crate::state::{queue_kept, queued, text_of, KeyboardModel, MechanixKeyboardState};
use crate::virtual_keyboard::{VirtualKeyboardModel, VirtualKeyboardState};
use crate::window::WindowModel;
use vstd::prelude::*;

verus! {

// ── searches ───────────────────────────────────────────────────────────────

/// A search finds the position that holds and has none before it that does, and
/// comes back empty exactly if no position holds.
pub proof fn law_search_finds_the_first(flags: Seq<bool>, i: int)
    ensures
        first_true(flags) == Some(i) <==> 0 <= i < flags.len() && flags[i] && forall|j: int|
            0 <= j < i ==> !#[trigger] flags[j],
        first_true(flags) is None <==> forall|j: int| 0 <= j < flags.len() ==> !#[trigger] flags[j],
{
    if 0 <= i < flags.len() && flags[i] && forall|j: int| 0 <= j < i ==> !#[trigger] flags[j] {
        lemma_first_true_unique(flags, i);
    }
    if first_true(flags) is Some {
        let k = first_true(flags)->0;
        assert(is_first_true(flags, k));
        assert(flags[k]);
    } else {
        assert forall|j: int| 0 <= j < flags.len() implies !#[trigger] flags[j] by {
            if flags[j] {
                lemma_first_true_complete(flags, j);
            }
        }
    }
}

/// A view is found under its name, the first one if several have it; no view is
/// found under a name that none has.
pub proof fn law_views_are_found_by_name(views: Seq<ViewModel>, name: Seq<char>, i: int)
    ensures
        first_named(views, name) == Some(i) <==> 0 <= i < views.len() && views[i].name == name
            && forall|j: int| 0 <= j < i ==> (#[trigger] views[j]).name != name,
        first_named(views, name) is None <==> forall|j: int|
            0 <= j < views.len() ==> (#[trigger] views[j]).name != name,
{
    let flags = Seq::new(views.len(), |k: int| views[k].name == name);
    law_search_finds_the_first(flags, i);
    assert forall|j: int| 0 <= j < views.len() implies #[trigger] flags[j] == (views[j].name
        == name) by {}
    if first_named(views, name) == Some(i) {
        assert forall|j: int| 0 <= j < i implies (#[trigger] views[j]).name != name by {
            assert(!flags[j]);
        }
    }
    if first_named(views, name) is None {
        assert forall|j: int| 0 <= j < views.len() implies (#[trigger] views[j]).name != name by {
            assert(!flags[j]);
        }
    }
    if forall|j: int| 0 <= j < views.len() ==> (#[trigger] views[j]).name != name {
        assert forall|j: int| 0 <= j < flags.len() implies !#[trigger] flags[j] by {
            let view = views[j];
        }
    }
    if 0 <= i < views.len() && views[i].name == name && forall|j: int|
        0 <= j < i ==> (#[trigger] views[j]).name != name {
        assert forall|j: int| 0 <= j < i implies !#[trigger] flags[j] by {
            let view = views[j];
        }
    }
}

/// The key hit is the first whose flag is set: its label and its action are the
/// ones taken. Nothing is taken where no flag is set.
pub proof fn law_first_key_hit_is_taken(view: ViewModel, hits: Seq<bool>, i: int)
    ensures
        0 <= i < hits.len() && hits[i] && (forall|j: int| 0 <= j < i ==> !#[trigger] hits[j]) ==> {
            &&& i < view.keys.len() ==> label_hit(view, hits) == Some(view.keys[i].label)
            &&& i < view.keys.len() ==> action_hit(view, hits) == Some(view.keys[i].action)
            &&& i >= view.keys.len() ==> label_hit(view, hits) is None
            &&& i >= view.keys.len() ==> action_hit(view, hits) is None
        },
        (forall|j: int| 0 <= j < hits.len() ==> !#[trigger] hits[j]) ==> label_hit(view, hits)
            is None && action_hit(view, hits) is None,
{
    law_search_finds_the_first(hits, i);
}

// ── models ─────────────────────────────────────────────────────────────────

/// The models of an action and a key hold what they hold.
pub proof fn law_key_model_is_faithful(action: KeyAction, key: Key)
    ensures
        action matches KeyAction::EmitKeysym(keysym) ==> action@ == KeyActionModel::EmitKeysym(
            keysym,
        ),
        action matches KeyAction::EmitText(text) ==> action@ == KeyActionModel::EmitText(text@),
        action matches KeyAction::SetView(name) ==> action@ == KeyActionModel::SetView(name@),
        action matches KeyAction::ToggleView { lock, unlock } ==> action@ == (
        KeyActionModel::ToggleView { lock: lock@, unlock: unlock@ }),
        action matches KeyAction::LatchModifier(name) ==> action@ == KeyActionModel::LatchModifier(
            name@,
        ),
        action matches KeyAction::Unhandled(name) ==> action@ == KeyActionModel::Unhandled(name@),
        key@.label == key.label@,
        key@.action == key.action@,
{
}

/// The models of a view and a layout hold what they hold, in order.
pub proof fn law_layout_model_is_faithful(view: KeyboardView, keymap: Keymap, i: int)
    ensures
        view@.name == view.name@,
        view@.width == view.width,
        view@.keys.len() == view.keys@.len(),
        0 <= i < view.keys@.len() ==> view@.keys[i] == view.keys@[i]@,
        keymap@.len() == keymap.views@.len(),
        0 <= i < keymap.views@.len() ==> keymap@[i] == keymap.views@[i]@,
{
}

/// The model of the state holds what the state holds.
pub proof fn law_state_model_is_faithful(s: MechanixKeyboardState, i: int)
    ensures
        s@.globals == s.globals,
        s.window matches Some(window) ==> s@.window == Some(window@),
        s.window is None ==> s@.window is None,
        s@.virtual_keyboard == s.virtual_keyboard_state@,
        s@.input_method == s.input_method_state@,
        s.keymap matches Some(keymap) ==> s@.keymap == Some(keymap@),
        s.keymap is None ==> s@.keymap is None,
        s@.current_view == s.current_view,
        s.last_hover matches Some(label) ==> s@.last_hover == Some(label@),
        s.last_hover is None ==> s@.last_hover is None,
        s@.scale == s.scale,
        s@.frame_callbacks == s.frame_callbacks@,
        s@.outbox.len() == s.outbox@.len(),
        0 <= i < s.outbox@.len() ==> s@.outbox[i] == s.outbox@[i]@,
{
}

/// The model of the virtual keyboard holds what the virtual keyboard holds.
pub proof fn law_virtual_keyboard_model_is_faithful(keyboard: VirtualKeyboardState)
    ensures
        keyboard@.seat == keyboard.seat,
        keyboard@.pointer == keyboard.pointer,
        keyboard@.keyboard == keyboard.keyboard,
        keyboard@.touch == keyboard.touch,
        keyboard@.virtual_keyboard_manager == keyboard.virtual_keyboard_manager,
        keyboard@.virtual_keyboard == keyboard.virtual_keyboard,
        keyboard@.start_time == keyboard.start_time,
        keyboard@.keymap == keyboard.keymap,
        keyboard@.keycodes == keyboard.keycodes@,
        keyboard@.mod_masks == keyboard.mod_masks@,
        keyboard@.latched == keyboard.latched@,
{
}

/// A virtual keyboard starts with nothing bound, obtained, uploaded or latched.
pub proof fn law_virtual_keyboard_starts_empty(
    keyboard: VirtualKeyboardModel,
    keysym: u32,
    name: Seq<char>,
)
    requires
        keyboard.is_fresh(),
    ensures
        keyboard.seat is None && keyboard.virtual_keyboard_manager is None,
        !keyboard.pointer && !keyboard.keyboard && !keyboard.touch,
        !keyboard.virtual_keyboard && keyboard.keymap is None,
        !keyboard.keycodes.contains_key(keysym),
        !keyboard.mod_masks.contains_key(name),
        !keyboard.latched.contains(name),
{
}

/// The model of an optional text is the text.
pub proof fn law_optional_text(text: Option<String>)
    ensures
        text matches Some(t) ==> text_of(text) == Some(t@),
        text is None ==> text_of(text) is None,
{
}

/// Queueing appends, in order, and leaves everything else as it is.
pub proof fn law_sending_appends(
    s: KeyboardModel,
    request: RequestModel,
    requests: Seq<RequestModel>,
)
    ensures
        s.send(request) == (KeyboardModel { outbox: s.outbox.push(request), ..s }),
        s.send_all(requests) == (KeyboardModel { outbox: s.outbox + requests, ..s }),
        s.send_all(seq![]) == s,
        s.send_all(requests.push(request)) == s.send_all(requests).send(request),
{
    assert(s.send_all(seq![]) =~= s);
    assert(s.send_all(requests.push(request)) =~= s.send_all(requests).send(request));
}

/// Putting a part in place changes that part alone.
pub proof fn law_parts_are_replaced_alone(
    s: KeyboardModel,
    window: WindowModel,
    keyboard: VirtualKeyboardModel,
    im: InputMethodModel,
)
    ensures
        s.with_window(window) == (KeyboardModel { window: Some(window), ..s }),
        s.with_keyboard(keyboard) == (KeyboardModel { virtual_keyboard: keyboard, ..s }),
        s.with_input_method(im) == (KeyboardModel { input_method: im, ..s }),
{
}

/// A queue that is kept starts with everything that was in it.
pub proof fn law_kept_queue_is_a_prefix(before: Seq<Request>, after: Seq<Request>)
    ensures
        queue_kept(before, after) <==> before.len() <= after.len() && after.take(
            before.len() as int,
        ) == before,
        queue_kept(before, after) ==> queued(after).take(before.len() as int) == queued(before),
{
    if queue_kept(before, after) {
        assert(after.take(before.len() as int) =~= before);
        assert(queued(after).take(before.len() as int) =~= queued(before));
    }
    if before.len() <= after.len() && after.take(before.len() as int) == before {
        assert forall|i: int| 0 <= i < before.len() implies #[trigger] after[i] == before[i] by {
            assert(after.take(before.len() as int)[i] == before[i]);
        }
    }
}

/// The showing view is the one at the index of the showing view, if the layout
/// reaches so far.
pub proof fn law_showing_view(s: KeyboardModel)
    ensures
        s.keymap matches Some(views) ==> s.current_view < views.len() ==> s.current() == Some(
            views[s.current_view as int],
        ),
        s.keymap matches Some(views) ==> s.current_view >= views.len() ==> s.current() is None,
        s.keymap is None ==> s.current() is None,
{
}

// ── interfaces and requests ────────────────────────────────────────────────

/// The seven interfaces that the keyboard has a use for go by their protocol
/// names, and no other name stands for any of them.
pub proof fn law_interfaces_by_name(name: Seq<char>)
    ensures
        interface_called(name) == Interface::Seat <==> name == "wl_seat"@,
        interface_called(name) == Interface::VirtualKeyboardManager <==> name
            == "zwp_virtual_keyboard_manager_v1"@,
        interface_called(name) == Interface::InputMethodManager <==> name
            == "zwp_input_method_manager_v2"@,
        interface_called(name) == Interface::Compositor <==> name == "wl_compositor"@,
        interface_called(name) == Interface::LayerShell <==> name == "zwlr_layer_shell_v1"@,
        interface_called(name) == Interface::Output <==> name == "wl_output"@,
        interface_called(name) == Interface::LinuxDmabuf <==> name == "zwp_linux_dmabuf_v1"@,
{
    reveal_strlit("wl_seat");
    reveal_strlit("zwp_virtual_keyboard_manager_v1");
    reveal_strlit("zwp_input_method_manager_v2");
    reveal_strlit("wl_compositor");
    reveal_strlit("zwlr_layer_shell_v1");
    reveal_strlit("wl_output");
    reveal_strlit("zwp_linux_dmabuf_v1");
    assert("wl_seat"@.len() == 7);
    assert("zwp_virtual_keyboard_manager_v1"@.len() == 31);
    assert("zwp_input_method_manager_v2"@.len() == 27);
    assert("wl_compositor"@.len() == 13);
    assert("zwlr_layer_shell_v1"@.len() == 19);
    assert("wl_output"@.len() == 9);
    assert("zwp_linux_dmabuf_v1"@.len() == 19);
    assert("zwlr_layer_shell_v1"@[2] != "zwp_linux_dmabuf_v1"@[2]);
}

/// The model of a request with numbers in it holds them, each in its place.
pub proof fn law_request_model_holds_the_numbers(a: u32, b: u32, c: u32, d: u32, n: i32)
    ensures
        (Request::UploadKeymap { size: a })@ == (RequestModel::UploadKeymap { size: a }),
        (Request::Modifiers { depressed: a, latched: b, locked: c, group: d })@ == (
        RequestModel::Modifiers { depressed: a, latched: b, locked: c, group: d }),
        (Request::Commit { serial: a })@ == (RequestModel::Commit { serial: a }),
        (Request::SetSize { width: a, height: b })@ == (RequestModel::SetSize {
            width: a,
            height: b,
        }),
        (Request::SetExclusiveZone { zone: n })@ == (RequestModel::SetExclusiveZone { zone: n }),
        (Request::AckConfigure { serial: a })@ == (RequestModel::AckConfigure { serial: a }),
        (Request::SetBufferScale { scale: n })@ == (RequestModel::SetBufferScale { scale: n }),
        (Request::AllocSlots { width: a, height: b })@ == (RequestModel::AllocSlots {
            width: a,
            height: b,
        }),
{
}

/// The model of a request with other values in it holds them; of a key it leaves
/// out the time stamp alone.
pub proof fn law_request_model_holds_the_values(
    interface: Interface,
    name: u32,
    version: u32,
    time: u32,
    code: u32,
    state: KeyState,
    text: String,
    preedit: Preedit,
    delete: DeleteSurrounding,
    layer: Layer,
    anchor: Anchor,
    interactivity: KeyboardInteractivity,
)
    ensures
        (Request::Bind { interface, name, version })@ == (RequestModel::Bind {
            interface,
            name,
            version,
        }),
        (Request::Key { time, code, state })@ == (RequestModel::Key { code, state }),
        Request::CommitString(text)@ == RequestModel::CommitString(text@),
        Request::SetPreedit(preedit)@ == RequestModel::SetPreedit(preedit@),
        Request::DeleteSurroundingText(delete)@ == RequestModel::DeleteSurroundingText(delete),
        (Request::CreateLayerSurface { layer, namespace: text })@ == (
        RequestModel::CreateLayerSurface { layer, namespace: text@ }),
        Request::SetAnchor(anchor)@ == RequestModel::SetAnchor(anchor),
        Request::SetKeyboardInteractivity(interactivity)@
            == RequestModel::SetKeyboardInteractivity(interactivity),
{
}

/// The model of a request with nothing in it is that request.
pub proof fn law_request_model_keeps_the_kind()
    ensures
        Request::GetRegistry@ is GetRegistry,
        Request::Sync@ is Sync,
        Request::GetKeyboard@ is GetKeyboard,
        Request::GetPointer@ is GetPointer,
        Request::GetTouch@ is GetTouch,
        Request::CreateVirtualKeyboard@ is CreateVirtualKeyboard,
        Request::GetInputMethod@ is GetInputMethod,
        Request::CommitSurface@ is CommitSurface,
        Request::Render@ is Render,
{
}

} // verus!
