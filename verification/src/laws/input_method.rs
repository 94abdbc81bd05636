//! What each input-method event and edit does to the client, field by field.

use crate::input_method::{
    ChangeCause, ContentHint, ContentPurpose, ContentType, ContextModel, DeleteSurrounding,
    EditModel, InputMethodContext, InputMethodEvent, InputMethodEventModel, InputMethodModel,
    InputMethodState, PendingEdit, Preedit, PreeditModel, SurroundingModel, SurroundingText,
};
use crate::request::{Global, Interface, RegistryEvent, RequestModel};
use crate::state::KeyboardModel;
use vstd::prelude::*;

verus! {

// ── inbound ────────────────────────────────────────────────────────────────

/// A context in which nothing has been reported of the field.
pub open spec fn nothing_reported(context: ContextModel) -> bool {
    &&& context.surrounding.text.len() == 0
    &&& context.surrounding.cursor == 0
    &&& context.surrounding.anchor == 0
    &&& !context.surrounding.reported
    &&& context.change_cause == ChangeCause::InputMethod
    &&& context.content_type.hint.bits == 0
    &&& context.content_type.purpose.number == 0
}

/// A client starts with nothing bound, focused, reported, staged or counted.
pub proof fn law_client_starts_empty()
    ensures
        ({
            let fresh = InputMethodModel::fresh();
            &&& fresh.manager is None
            &&& !fresh.input_method
            &&& !fresh.inert
            &&& fresh.serial == 0
            &&& !fresh.current.active && nothing_reported(fresh.current)
            &&& !fresh.pending.active && nothing_reported(fresh.pending)
            &&& fresh.pending_edit.commit_string is None
            &&& fresh.pending_edit.preedit is None
            &&& fresh.pending_edit.delete is None
        }),
        !ContextModel::initial().active && nothing_reported(ContextModel::initial()),
        nothing_reported(
            ContextModel {
                surrounding: SurroundingModel::initial(),
                content_type: ContentType::initial(),
                ..ContextModel::initial()
            },
        ),
{
}

/// No event touches what the client is bound to or has staged, and the current
/// context and the serial wait for a `done`.
pub proof fn law_events_leave_the_rest_alone(im: InputMethodModel, event: InputMethodEventModel)
    ensures
        ({
            let after = im.receive(event);
            &&& after.manager == im.manager
            &&& after.input_method == im.input_method
            &&& after.pending_edit == im.pending_edit
            &&& !(event is Done) ==> after.current == im.current && after.serial == im.serial
            &&& event is Done || event is Unavailable ==> after.pending == im.pending
            &&& after.inert <==> im.inert || event is Unavailable
            &&& im.inert ==> after == im
        }),
{
}

/// A `done` makes the pending context current and counts, modulo the serial's
/// range.
pub proof fn law_done_applies_the_pending_context(im: InputMethodModel)
    requires
        !im.inert,
    ensures
        im.receive(InputMethodEventModel::Done).current == im.pending,
        im.receive(InputMethodEventModel::Done).serial as int == (im.serial + 1) % 0x1_0000_0000,
{
}

/// The last report of surrounding text before a `done` is the one applied,
/// whatever was reported before; the other fields keep what they had.
pub proof fn law_last_surrounding_text_wins(
    im: InputMethodModel,
    text: Seq<char>,
    cursor: u32,
    anchor: u32,
)
    requires
        !im.inert,
    ensures
        ({
            let current = im.receive(
                InputMethodEventModel::SurroundingText { text, cursor, anchor },
            ).receive(InputMethodEventModel::Done).current;
            &&& current.surrounding.text == text
            &&& current.surrounding.cursor == cursor
            &&& current.surrounding.anchor == anchor
            &&& current.surrounding.reported
            &&& current.active == im.pending.active
            &&& current.change_cause == im.pending.change_cause
            &&& current.content_type == im.pending.content_type
        }),
{
}

/// The last cause of change reported before a `done` is the one applied; the
/// other fields keep what they had.
pub proof fn law_last_change_cause_wins(im: InputMethodModel, cause: ChangeCause)
    requires
        !im.inert,
    ensures
        ({
            let current = im.receive(InputMethodEventModel::TextChangeCause { cause }).receive(
                InputMethodEventModel::Done,
            ).current;
            &&& current.change_cause == cause
            &&& current.active == im.pending.active
            &&& current.surrounding == im.pending.surrounding
            &&& current.content_type == im.pending.content_type
        }),
{
}

/// The last content type reported before a `done` is the one applied; the other
/// fields keep what they had.
pub proof fn law_last_content_type_wins(
    im: InputMethodModel,
    hint: ContentHint,
    purpose: ContentPurpose,
)
    requires
        !im.inert,
    ensures
        ({
            let current = im.receive(
                InputMethodEventModel::ContentType { hint, purpose },
            ).receive(InputMethodEventModel::Done).current;
            &&& current.content_type.hint == hint
            &&& current.content_type.purpose == purpose
            &&& current.active == im.pending.active
            &&& current.surrounding == im.pending.surrounding
            &&& current.change_cause == im.pending.change_cause
        }),
{
}

/// An activation focuses and forgets what was reported; a deactivation takes the
/// focus away and forgets nothing.
pub proof fn law_focus_comes_and_goes(im: InputMethodModel)
    requires
        !im.inert,
    ensures
        ({
            let focused = im.receive(InputMethodEventModel::Activate).pending;
            &&& focused.active
            &&& nothing_reported(focused)
        }),
        ({
            let left = im.receive(InputMethodEventModel::Deactivate).pending;
            &&& !left.active
            &&& left.surrounding == im.pending.surrounding
            &&& left.change_cause == im.pending.change_cause
            &&& left.content_type == im.pending.content_type
        }),
{
}

/// An event reaches the window only as a `done` to an available object, which
/// shows or hides the keyboard as the pending context is active or not. It
/// changes nothing of the state but the client, the window and the queue.
pub proof fn law_done_alone_reaches_the_window(
    s: KeyboardModel,
    event: InputMethodEventModel,
    kb_height: u32,
)
    ensures
        ({
            let after = s.input_method_event(event, kb_height);
            let shown = s.with_visibility(s.input_method.pending.active, kb_height);
            &&& after.input_method == s.input_method.receive(event)
            &&& after == (KeyboardModel {
                input_method: after.input_method,
                window: after.window,
                outbox: after.outbox,
                ..s
            })
            &&& event is Done && !s.input_method.inert ==> after.window == shown.window
                && after.outbox == shown.outbox
            &&& !(event is Done) || s.input_method.inert ==> after.window == s.window
                && after.outbox == s.outbox
        }),
{
}

// ── outbound ───────────────────────────────────────────────────────────────

/// Text goes to the input method exactly while it exists, is available and a
/// field is focused.
pub proof fn law_commits_while_focused(im: InputMethodModel)
    ensures
        im.accepts_edits() <==> im.input_method && !im.inert,
        im.commits() <==> im.input_method && !im.inert && im.current.active,
{
}

/// Staging changes the staged edit alone, and only of an object that exists and
/// is available.
pub proof fn law_staging_changes_the_edit_alone(im: InputMethodModel, edit: EditModel)
    ensures
        ({
            let after = im.stage(edit);
            &&& after == (InputMethodModel { pending_edit: after.pending_edit, ..im })
            &&& im.input_method && !im.inert ==> after.pending_edit == edit
            &&& !im.input_method || im.inert ==> after == im
        }),
{
}

/// Staging a field of an object that exists and is available sets that field to
/// the value given, whatever it was, and leaves the other two as they are.
pub proof fn law_staging_sets_one_field(
    im: InputMethodModel,
    text: Seq<char>,
    preedit: PreeditModel,
    delete: DeleteSurrounding,
)
    ensures
        ({
            let before = im.pending_edit;
            let with_text = im.stage_text(text);
            let with_preedit = im.stage_preedit(preedit);
            let with_delete = im.stage_delete(delete);
            if im.input_method && !im.inert {
                &&& with_text.pending_edit.commit_string == Some(text)
                &&& with_text.pending_edit.preedit == before.preedit
                &&& with_text.pending_edit.delete == before.delete
                &&& with_preedit.pending_edit.commit_string == before.commit_string
                &&& with_preedit.pending_edit.preedit == Some(preedit)
                &&& with_preedit.pending_edit.delete == before.delete
                &&& with_delete.pending_edit.commit_string == before.commit_string
                &&& with_delete.pending_edit.preedit == before.preedit
                &&& with_delete.pending_edit.delete == Some(delete)
                &&& with_text == (InputMethodModel { pending_edit: with_text.pending_edit, ..im })
                &&& with_preedit == (InputMethodModel {
                    pending_edit: with_preedit.pending_edit,
                    ..im
                })
                &&& with_delete == (InputMethodModel {
                    pending_edit: with_delete.pending_edit,
                    ..im
                })
            } else {
                with_text == im && with_preedit == im && with_delete == im
            }
        }),
{
}

/// How many fields an edit has staged.
pub open spec fn fields_staged(edit: EditModel) -> nat {
    (if edit.commit_string is Some {
        1nat
    } else {
        0nat
    }) + (if edit.preedit is Some {
        1nat
    } else {
        0nat
    }) + (if edit.delete is Some {
        1nat
    } else {
        0nat
    })
}

/// A flush with anything staged queues one request for each staged field, and the
/// commit behind them.
pub proof fn law_flush_sends_as_much_as_is_staged(s: KeyboardModel)
    requires
        s.input_method.input_method,
        !s.input_method.inert,
        fields_staged(s.input_method.pending_edit) > 0,
    ensures
        ({
            let outbox = s.flushed().outbox;
            let from = s.outbox.len();
            &&& outbox.len() == from + fields_staged(s.input_method.pending_edit) + 1
            &&& outbox.take(from as int) == s.outbox
            &&& outbox.last() == (RequestModel::Commit { serial: s.input_method.serial })
        }),
{
    let edit = s.input_method.pending_edit;
    let sent = edit.requests().push(RequestModel::Commit { serial: s.input_method.serial });
    assert(s.flushed().outbox == s.outbox + sent);
    assert(edit.requests().len() == fields_staged(edit));
    assert(s.flushed().outbox.take(s.outbox.len() as int) =~= s.outbox);
}

/// Every staged field is sent, with its value, whatever else is staged.
pub proof fn law_flush_sends_every_staged_field(s: KeyboardModel)
    requires
        s.input_method.input_method,
        !s.input_method.inert,
    ensures
        ({
            let edit = s.input_method.pending_edit;
            let sent = s.flushed().outbox.skip(s.outbox.len() as int);
            &&& edit.commit_string matches Some(text) ==> sent.contains(
                RequestModel::CommitString(text),
            )
            &&& edit.preedit matches Some(preedit) ==> sent.contains(
                RequestModel::SetPreedit(preedit),
            )
            &&& edit.delete matches Some(delete) ==> sent.contains(
                RequestModel::DeleteSurroundingText(delete),
            )
        }),
{
    let edit = s.input_method.pending_edit;
    let sent = s.flushed().outbox.skip(s.outbox.len() as int);
    if fields_staged(edit) > 0 {
        assert(edit != EditModel::nothing());
        let all = edit.requests().push(RequestModel::Commit { serial: s.input_method.serial });
        assert(sent =~= all);
        let preedit_at = if edit.commit_string is Some {
            1int
        } else {
            0int
        };
        let delete_at = preedit_at + if edit.preedit is Some {
            1int
        } else {
            0int
        };
        if let Some(text) = edit.commit_string {
            assert(sent[0] == RequestModel::CommitString(text));
        }
        if let Some(preedit) = edit.preedit {
            assert(sent[preedit_at] == RequestModel::SetPreedit(preedit));
        }
        if let Some(delete) = edit.delete {
            assert(sent[delete_at] == RequestModel::DeleteSurroundingText(delete));
        }
    }
}

/// A flush sends nothing that is not staged: besides the last request, which is
/// the commit, each carries the value of a staged field.
pub proof fn law_flush_sends_only_what_is_staged(s: KeyboardModel, i: int)
    requires
        s.outbox.len() <= i < s.flushed().outbox.len(),
    ensures
        ({
            let edit = s.input_method.pending_edit;
            match s.flushed().outbox[i] {
                RequestModel::CommitString(text) => edit.commit_string == Some(text),
                RequestModel::SetPreedit(preedit) => edit.preedit == Some(preedit),
                RequestModel::DeleteSurroundingText(delete) => edit.delete == Some(delete),
                RequestModel::Commit { serial } => serial == s.input_method.serial && i
                    == s.flushed().outbox.len() - 1,
                _ => false,
            }
        }),
{
}

/// A flush sends no field twice.
pub proof fn law_flush_sends_no_field_twice(s: KeyboardModel, i: int, j: int)
    requires
        s.outbox.len() <= i < s.flushed().outbox.len(),
        s.outbox.len() <= j < s.flushed().outbox.len(),
        i != j,
    ensures
        ({
            let outbox = s.flushed().outbox;
            &&& !(outbox[i] is CommitString && outbox[j] is CommitString)
            &&& !(outbox[i] is SetPreedit && outbox[j] is SetPreedit)
            &&& !(outbox[i] is DeleteSurroundingText && outbox[j] is DeleteSurroundingText)
            &&& !(outbox[i] is Commit && outbox[j] is Commit)
        }),
{
}

/// The fields go out in order: the text before the preedit, and both before the
/// deletion.
pub proof fn law_flush_keeps_the_order(s: KeyboardModel, i: int, j: int)
    requires
        s.outbox.len() <= i < s.flushed().outbox.len(),
        s.outbox.len() <= j < s.flushed().outbox.len(),
    ensures
        ({
            let outbox = s.flushed().outbox;
            &&& outbox[i] is CommitString && outbox[j] is SetPreedit ==> i < j
            &&& outbox[i] is CommitString && outbox[j] is DeleteSurroundingText ==> i < j
            &&& outbox[i] is SetPreedit && outbox[j] is DeleteSurroundingText ==> i < j
        }),
{
}

/// A flush empties the staged edit and changes nothing else but the queue. With
/// nothing staged, or while the object is missing or unavailable, it changes
/// nothing at all.
pub proof fn law_flush_empties_the_edit(s: KeyboardModel)
    ensures
        ({
            let edit = s.input_method.pending_edit;
            let after = s.flushed();
            let sends = s.input_method.input_method && !s.input_method.inert && (
            edit.commit_string is Some || edit.preedit is Some || edit.delete is Some);
            &&& after == (KeyboardModel {
                input_method: InputMethodModel {
                    pending_edit: after.input_method.pending_edit,
                    ..s.input_method
                },
                outbox: after.outbox,
                ..s
            })
            &&& sends ==> after.input_method.pending_edit.commit_string is None
                && after.input_method.pending_edit.preedit is None
                && after.input_method.pending_edit.delete is None
            &&& !sends ==> after == s
        }),
{
    let edit = s.input_method.pending_edit;
    if edit.commit_string is None && edit.preedit is None && edit.delete is None {
        assert(edit =~= EditModel::nothing());
    }
}

// ── creation ───────────────────────────────────────────────────────────────

/// The input method is created exactly when its manager and the seat are bound
/// and it neither exists nor is unavailable: one request, and nothing else
/// changes.
pub proof fn law_input_method_is_created_when_possible(s: KeyboardModel)
    ensures
        ({
            let due = s.input_method.manager is Some && s.virtual_keyboard.seat is Some
                && !s.input_method.input_method && !s.input_method.inert;
            let after = s.input_method_created();
            &&& after.input_method.input_method == (s.input_method.input_method || due)
            &&& due ==> after.outbox == s.outbox.push(RequestModel::GetInputMethod)
            &&& !due ==> after.outbox == s.outbox
            &&& after == (KeyboardModel {
                input_method: InputMethodModel {
                    input_method: after.input_method.input_method,
                    ..s.input_method
                },
                outbox: after.outbox,
                ..s
            })
        }),
{
}

/// An advertised manager is bound under its name and version, and any
/// advertisement is a chance to create the input method; a removal does nothing.
pub proof fn law_input_method_manager_is_bound(
    s: KeyboardModel,
    name: u32,
    interface: Interface,
    version: u32,
)
    ensures
        s.input_method_registry(RegistryEvent::GlobalRemove { name }) == s,
        ({
            let after = s.input_method_registry(RegistryEvent::Global { name, interface, version });
            let due = !s.input_method.input_method && !s.input_method.inert
                && s.virtual_keyboard.seat is Some;
            if interface == Interface::InputMethodManager {
                let bind = RequestModel::Bind { interface, name, version };
                &&& after.input_method.manager == Some(Global { name, version })
                &&& after.input_method.input_method == (s.input_method.input_method || due)
                &&& due ==> after.outbox == s.outbox.push(bind).push(RequestModel::GetInputMethod)
                &&& !due ==> after.outbox == s.outbox.push(bind)
                &&& after == (KeyboardModel {
                    input_method: InputMethodModel {
                        manager: after.input_method.manager,
                        input_method: after.input_method.input_method,
                        ..s.input_method
                    },
                    outbox: after.outbox,
                    ..s
                })
            } else {
                after == s.input_method_created()
            }
        }),
{
}

// ── models ─────────────────────────────────────────────────────────────────

/// The model of the client holds what the client holds.
pub proof fn law_client_model_is_faithful(
    state: InputMethodState,
    context: InputMethodContext,
    surrounding: SurroundingText,
)
    ensures
        state@.manager == state.manager,
        state@.input_method == state.input_method,
        state@.current == state.current@,
        state@.pending == state.pending@,
        state@.serial == state.serial,
        state@.pending_edit == state.pending_edit@,
        state@.inert == state.inert,
        context@.active == context.active,
        context@.surrounding == context.surrounding@,
        context@.change_cause == context.change_cause,
        context@.content_type == context.content_type,
        surrounding@.text == surrounding.text@,
        surrounding@.cursor == surrounding.cursor,
        surrounding@.anchor == surrounding.anchor,
        surrounding@.reported == surrounding.reported,
{
}

/// The model of a staged edit holds what the edit holds.
pub proof fn law_edit_model_is_faithful(edit: PendingEdit, preedit: Preedit)
    ensures
        edit.commit_string matches Some(text) ==> edit@.commit_string == Some(text@),
        edit.commit_string is None ==> edit@.commit_string is None,
        edit.preedit matches Some(preedit) ==> edit@.preedit == Some(preedit@),
        edit.preedit is None ==> edit@.preedit is None,
        edit@.delete == edit.delete,
        preedit@.text == preedit.text@,
        preedit@.cursor_begin == preedit.cursor_begin,
        preedit@.cursor_end == preedit.cursor_end,
        EditModel::nothing().commit_string is None,
        EditModel::nothing().preedit is None,
        EditModel::nothing().delete is None,
{
}

/// The model of an event holds what the event holds.
pub proof fn law_event_model_is_faithful(event: InputMethodEvent)
    ensures
        event is Activate <==> event@ is Activate,
        event is Deactivate <==> event@ is Deactivate,
        event is Done <==> event@ is Done,
        event is Unavailable <==> event@ is Unavailable,
        event matches InputMethodEvent::SurroundingText { text, cursor, anchor } ==> event@ == (
        InputMethodEventModel::SurroundingText { text: text@, cursor, anchor }),
        event matches InputMethodEvent::TextChangeCause { cause } ==> event@ == (
        InputMethodEventModel::TextChangeCause { cause }),
        event matches InputMethodEvent::ContentType { hint, purpose } ==> event@ == (
        InputMethodEventModel::ContentType { hint, purpose }),
{
}

/// A `done` can be handled exactly if the bar it would show has a height that can
/// be said.
pub proof fn law_done_range(s: KeyboardModel, event: InputMethodEventModel, kb_height: u32)
    ensures
        s.done_in_range(event, kb_height) <==> !(event is Done) || s.input_method.inert
            || s.visibility_in_range(s.input_method.pending.active, kb_height),
{
}

} // verus!
