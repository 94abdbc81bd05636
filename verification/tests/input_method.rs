use mechanix_keyboard::input_method::{
    commit_text, done_in_range, flush, on_input_method_event, on_registry, stage_commit_string,
    stage_delete_surrounding, stage_preedit, try_create, ChangeCause, ContentHint, ContentPurpose,
    ContentType, DeleteSurrounding, InputMethodContext, InputMethodEvent, InputMethodState, Preedit,
};
use mechanix_keyboard::layout::{KeyboardView, Keymap, ViewWidth};
use mechanix_keyboard::request::{Global, Interface, RegistryEvent, Request};
use mechanix_keyboard::state::MechanixKeyboardState;
use mechanix_keyboard::window::{WindowState, HANDLE_HEIGHT};

fn bound() -> MechanixKeyboardState {
    let mut s = MechanixKeyboardState::new();
    s.input_method_state.input_method = true;
    s
}

fn focused() -> MechanixKeyboardState {
    let mut s = bound();
    on_input_method_event(&mut s, &InputMethodEvent::Activate, 0);
    on_input_method_event(&mut s, &InputMethodEvent::Done, 0);
    s
}

/// A fresh state reports neither active nor inert, and the serial is zero until
/// the first `done`.
#[test]
fn fresh_state_is_inactive_and_uncommitted() {
    let st = InputMethodState::new();
    assert!(!st.should_commit());
    assert!(!st.inert);
    assert_eq!(st.serial, 0);
    assert!(!st.current.active);
}

/// The initial cause is `InputMethod` in both buffers, so that a `done` before any
/// `text_change_cause` applies the right default.
#[test]
fn initial_change_cause_is_input_method() {
    let st = InputMethodState::new();
    assert_eq!(st.current.change_cause, ChangeCause::InputMethod);
    assert_eq!(st.pending.change_cause, ChangeCause::InputMethod);
}

#[test]
fn default_context_has_the_initial_values() {
    let context = InputMethodContext::default();
    assert!(!context.active);
    assert_eq!(context.surrounding.text, "");
    assert!(!context.surrounding.reported);
    assert_eq!(context.content_type, ContentType::default());
    assert_eq!(context.content_type.hint, ContentHint { bits: 0 });
    assert_eq!(context.content_type.purpose, ContentPurpose { number: 0 });
}

#[test]
fn events_wait_for_done() {
    let mut s = bound();
    on_input_method_event(&mut s, &InputMethodEvent::Activate, 0);
    on_input_method_event(
        &mut s,
        &InputMethodEvent::SurroundingText { text: "abc".to_string(), cursor: 2, anchor: 1 },
        0,
    );
    on_input_method_event(
        &mut s,
        &InputMethodEvent::TextChangeCause { cause: ChangeCause::Other },
        0,
    );
    on_input_method_event(
        &mut s,
        &InputMethodEvent::ContentType {
            hint: ContentHint { bits: 3 },
            purpose: ContentPurpose { number: 8 },
        },
        0,
    );
    assert!(!s.input_method_state.current.active);
    assert_eq!(s.input_method_state.current.surrounding.text, "");
    assert_eq!(s.input_method_state.serial, 0);
    assert!(!s.input_method_state.should_commit());

    on_input_method_event(&mut s, &InputMethodEvent::Done, 0);
    let current = &s.input_method_state.current;
    assert!(current.active);
    assert_eq!(current.surrounding.text, "abc");
    assert_eq!((current.surrounding.cursor, current.surrounding.anchor), (2, 1));
    assert!(current.surrounding.reported);
    assert_eq!(current.change_cause, ChangeCause::Other);
    assert_eq!(current.content_type.hint.bits, 3);
    assert_eq!(current.content_type.purpose.number, 8);
    assert_eq!(s.input_method_state.serial, 1);
    assert!(s.input_method_state.should_commit());
}

#[test]
fn activation_forgets_what_was_reported() {
    let mut s = focused();
    on_input_method_event(
        &mut s,
        &InputMethodEvent::SurroundingText { text: "old".to_string(), cursor: 3, anchor: 3 },
        0,
    );
    on_input_method_event(&mut s, &InputMethodEvent::Done, 0);
    assert_eq!(s.input_method_state.current.surrounding.text, "old");
    on_input_method_event(&mut s, &InputMethodEvent::Activate, 0);
    on_input_method_event(&mut s, &InputMethodEvent::Done, 0);
    assert_eq!(s.input_method_state.current.surrounding.text, "");
    assert!(!s.input_method_state.current.surrounding.reported);
    assert!(s.input_method_state.current.active);
    assert_eq!(s.input_method_state.serial, 3);
}

#[test]
fn deactivation_keeps_the_rest_of_the_context() {
    let mut s = focused();
    on_input_method_event(
        &mut s,
        &InputMethodEvent::SurroundingText { text: "kept".to_string(), cursor: 0, anchor: 0 },
        0,
    );
    on_input_method_event(&mut s, &InputMethodEvent::Deactivate, 0);
    assert!(s.input_method_state.should_commit());
    on_input_method_event(&mut s, &InputMethodEvent::Done, 0);
    assert!(!s.input_method_state.should_commit());
    assert_eq!(s.input_method_state.current.surrounding.text, "kept");
}

#[test]
fn serial_wraps() {
    let mut s = bound();
    s.input_method_state.serial = u32::MAX;
    on_input_method_event(&mut s, &InputMethodEvent::Done, 0);
    assert_eq!(s.input_method_state.serial, 0);
}

#[test]
fn unavailable_is_final() {
    let mut s = focused();
    on_input_method_event(&mut s, &InputMethodEvent::Unavailable, 0);
    assert!(s.input_method_state.inert);
    assert!(!s.input_method_state.should_commit());
    on_input_method_event(&mut s, &InputMethodEvent::Deactivate, 0);
    on_input_method_event(&mut s, &InputMethodEvent::Done, 0);
    assert_eq!(s.input_method_state.serial, 1);
    assert!(s.input_method_state.current.active);
    stage_commit_string(&mut s, "x".to_string());
    stage_preedit(&mut s, "y".to_string(), 0, 1);
    stage_delete_surrounding(&mut s, 1, 0);
    flush(&mut s);
    assert!(!commit_text(&mut s, "z"));
    assert!(s.outbox.is_empty());
    assert!(s.input_method_state.pending_edit.commit_string.is_none());
}

#[test]
fn done_shows_and_hides_the_keyboard() {
    let mut s = bound();
    s.keymap = Some(Keymap {
        views: vec![KeyboardView { name: "base".to_string(), width: ViewWidth::Positive, keys: vec![] }],
    });
    s.window = Some(WindowState {
        slots: None,
        back: 0,
        physical_width: 0,
        physical_height: 0,
        logical_width: 400,
        logical_height: 40,
        requested_height: HANDLE_HEIGHT,
        pending_frame: false,
        visible: false,
    });
    on_input_method_event(&mut s, &InputMethodEvent::Activate, 160);
    assert!(!s.window.unwrap().visible);
    on_input_method_event(&mut s, &InputMethodEvent::Done, 160);
    assert!(s.window.unwrap().visible);
    assert_eq!(
        s.take_requests(),
        vec![Request::SetSize { width: 0, height: 200 }, Request::CommitSurface]
    );
    on_input_method_event(&mut s, &InputMethodEvent::Deactivate, 160);
    on_input_method_event(&mut s, &InputMethodEvent::Done, 160);
    assert!(!s.window.unwrap().visible);
    assert_eq!(
        s.take_requests(),
        vec![Request::SetSize { width: 0, height: 40 }, Request::CommitSurface]
    );
}

#[test]
fn done_range_is_checked() {
    let mut s = bound();
    s.keymap = Some(Keymap {
        views: vec![KeyboardView {
            name: "base".to_string(),
            width: ViewWidth::Positive,
            keys: vec![],
        }],
    });
    s.window = Some(WindowState {
        slots: None,
        back: 0,
        physical_width: 0,
        physical_height: 0,
        logical_width: 400,
        logical_height: 40,
        requested_height: HANDLE_HEIGHT,
        pending_frame: false,
        visible: false,
    });
    // Nothing to show yet.
    assert!(done_in_range(&s, &InputMethodEvent::Done, u32::MAX));
    on_input_method_event(&mut s, &InputMethodEvent::Activate, 0);
    assert!(done_in_range(&s, &InputMethodEvent::Done, u32::MAX - 40));
    assert!(!done_in_range(&s, &InputMethodEvent::Done, u32::MAX - 39));
    assert!(done_in_range(&s, &InputMethodEvent::Deactivate, u32::MAX));
    on_input_method_event(&mut s, &InputMethodEvent::Unavailable, 0);
    assert!(done_in_range(&s, &InputMethodEvent::Done, u32::MAX));
}

#[test]
fn serial_counts_until_unavailable() {
    let mut s = bound();
    s.input_method_state.serial = u32::MAX - 1;
    for _ in 0..3 {
        on_input_method_event(&mut s, &InputMethodEvent::Done, 0);
    }
    assert_eq!(s.input_method_state.serial, 1);
    on_input_method_event(&mut s, &InputMethodEvent::Unavailable, 0);
    on_input_method_event(&mut s, &InputMethodEvent::Done, 0);
    assert_eq!(s.input_method_state.serial, 1);
    assert!(s.input_method_state.inert);
}

#[test]
fn flush_sends_staged_fields_in_order() {
    let mut s = focused();
    stage_delete_surrounding(&mut s, 9, 9);
    stage_delete_surrounding(&mut s, 3, 1);
    stage_preedit(&mut s, "draft".to_string(), 5, 5);
    stage_preedit(&mut s, "pre".to_string(), 0, 3);
    stage_commit_string(&mut s, "first".to_string());
    stage_commit_string(&mut s, "second".to_string());
    flush(&mut s);
    assert_eq!(
        s.take_requests(),
        vec![
            Request::CommitString("second".to_string()),
            Request::SetPreedit(Preedit {
                text: "pre".to_string(),
                cursor_begin: 0,
                cursor_end: 3
            }),
            Request::DeleteSurroundingText(DeleteSurrounding { before: 3, after: 1 }),
            Request::Commit { serial: 1 },
        ]
    );
    assert!(s.input_method_state.pending_edit.commit_string.is_none());
    assert!(s.input_method_state.pending_edit.preedit.is_none());
    assert!(s.input_method_state.pending_edit.delete.is_none());
}

#[test]
fn flush_with_nothing_staged_is_silent() {
    let mut s = focused();
    flush(&mut s);
    assert!(s.outbox.is_empty());
    stage_delete_surrounding(&mut s, 0, 0);
    flush(&mut s);
    assert_eq!(s.outbox.len(), 2);
    flush(&mut s);
    assert_eq!(s.outbox.len(), 2);
}

#[test]
fn staging_needs_the_object() {
    let mut s = MechanixKeyboardState::new();
    stage_commit_string(&mut s, "lost".to_string());
    assert!(s.input_method_state.pending_edit.commit_string.is_none());
    flush(&mut s);
    assert!(s.outbox.is_empty());
}

#[test]
fn commit_text_needs_focus() {
    let mut s = bound();
    assert!(!commit_text(&mut s, "no"));
    assert!(s.outbox.is_empty());
    let mut s = focused();
    assert!(commit_text(&mut s, "yes"));
    assert_eq!(
        s.take_requests(),
        vec![Request::CommitString("yes".to_string()), Request::Commit { serial: 1 }]
    );
}

#[test]
fn created_in_either_order() {
    let seat = RegistryEvent::Global { name: 1, interface: Interface::Seat, version: 7 };
    let manager =
        RegistryEvent::Global { name: 2, interface: Interface::InputMethodManager, version: 1 };
    for order in [[seat, manager], [manager, seat]] {
        let mut s = MechanixKeyboardState::new();
        for event in order {
            mechanix_keyboard::virtual_keyboard::on_registry(&mut s, &event);
            on_registry(&mut s, &event);
        }
        assert!(s.input_method_state.input_method);
        assert_eq!(s.input_method_state.manager, Some(Global { name: 2, version: 1 }));
        let created = s.outbox.iter().filter(|r| matches!(r, Request::GetInputMethod)).count();
        assert_eq!(created, 1);
        try_create(&mut s);
        assert_eq!(s.outbox.len(), 3);
    }
}

#[test]
fn removal_and_strangers_bind_nothing() {
    let mut s = MechanixKeyboardState::new();
    on_registry(&mut s, &RegistryEvent::GlobalRemove { name: 2 });
    on_registry(
        &mut s,
        &RegistryEvent::Global { name: 3, interface: Interface::Other, version: 1 },
    );
    assert!(s.outbox.is_empty());
    assert!(s.input_method_state.manager.is_none());
}
