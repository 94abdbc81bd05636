//! `zwp_input_method_v2`: the client side of the input-method protocol.
//!
//! The input method is a double-buffered state machine in both directions:
//!
//! - **Inbound:** `activate`, `deactivate`, `surrounding_text`,
//!   `text_change_cause` and `content_type` fill the *pending* context; `done`
//!   applies it to the *current* context at once and bumps the serial echoed
//!   back.
//! - **Outbound:** `commit_string`, `set_preedit_string` and
//!   `delete_surrounding_text` fill a *pending edit*; `commit` flushes it. Each
//!   field is set, not accumulated, and is back at its initial value after a
//!   flush.

use crate::request::{Global, Interface, RegistryEvent, Request, RequestModel};
use crate::state::{queue_kept, text_of, KeyboardModel, MechanixKeyboardState};
use crate::window::{set_visibility, visibility_in_range};
use vstd::prelude::*;

verus! {

/// Why the surrounding text changed.
#[derive(Debug, Clone, Copy, PartialEq, Eq, Structural)]
pub enum ChangeCause {
    InputMethod,
    Other,
}

/// The content hints of a text field, as protocol bits.
#[derive(Debug, Clone, Copy, PartialEq, Eq, Structural)]
pub struct ContentHint {
    pub bits: u32,
}

/// The content purpose of a text field, as its protocol number.
#[derive(Debug, Clone, Copy, PartialEq, Eq, Structural)]
pub struct ContentPurpose {
    pub number: u32,
}

/// Content hint and purpose of the focused field.
#[derive(Debug, Clone, Copy, PartialEq, Eq, Structural)]
pub struct ContentType {
    pub hint: ContentHint,
    pub purpose: ContentPurpose,
}

impl ContentType {
    /// The protocol's initial value: hint `none`, purpose `normal`.
    pub open spec fn initial() -> ContentType {
        ContentType { hint: ContentHint { bits: 0 }, purpose: ContentPurpose { number: 0 } }
    }
}

impl Default for ContentType {
    fn default() -> (content_type: Self)
        ensures
            content_type == ContentType::initial(),
    {
        ContentType { hint: ContentHint { bits: 0 }, purpose: ContentPurpose { number: 0 } }
    }
}

/// The text around the cursor, without any preedit.
#[derive(Debug)]
pub struct SurroundingText {
    pub text: String,
    pub cursor: u32,
    pub anchor: u32,
    /// Tells a reported empty text from one that was never reported.
    pub reported: bool,
}

/// The mathematical model of a [`SurroundingText`].
#[verifier::ext_equal]
pub struct SurroundingModel {
    pub text: Seq<char>,
    pub cursor: u32,
    pub anchor: u32,
    pub reported: bool,
}

impl View for SurroundingText {
    type V = SurroundingModel;

    open spec fn view(&self) -> SurroundingModel {
        SurroundingModel {
            text: self.text@,
            cursor: self.cursor,
            anchor: self.anchor,
            reported: self.reported,
        }
    }
}

impl SurroundingModel {
    /// No surrounding text reported.
    pub open spec fn initial() -> SurroundingModel {
        SurroundingModel { text: Seq::empty(), cursor: 0, anchor: 0, reported: false }
    }
}

impl Default for SurroundingText {
    fn default() -> (surrounding: Self)
        ensures
            surrounding@ == SurroundingModel::initial(),
    {
        SurroundingText { text: String::new(), cursor: 0, anchor: 0, reported: false }
    }
}

impl Clone for SurroundingText {
    fn clone(&self) -> (copy: Self)
        ensures
            copy == *self,
    {
        SurroundingText {
            text: self.text.clone(),
            cursor: self.cursor,
            anchor: self.anchor,
            reported: self.reported,
        }
    }
}

/// What the compositor reports of the focused text field.
#[derive(Debug)]
pub struct InputMethodContext {
    /// Whether a text field is focused, as of the last `done`.
    pub active: bool,
    /// Text, cursor and anchor last reported; empty text means the field does
    /// not support surrounding text.
    pub surrounding: SurroundingText,
    /// Why the surrounding text last changed.
    pub change_cause: ChangeCause,
    /// Hint and purpose of the field.
    pub content_type: ContentType,
}

/// The mathematical model of an [`InputMethodContext`].
#[verifier::ext_equal]
pub struct ContextModel {
    pub active: bool,
    pub surrounding: SurroundingModel,
    pub change_cause: ChangeCause,
    pub content_type: ContentType,
}

impl View for InputMethodContext {
    type V = ContextModel;

    open spec fn view(&self) -> ContextModel {
        ContextModel {
            active: self.active,
            surrounding: self.surrounding@,
            change_cause: self.change_cause,
            content_type: self.content_type,
        }
    }
}

impl ContextModel {
    /// The protocol's initial values: inactive, no surrounding text, cause
    /// `input_method`, hint `none`, purpose `normal`.
    pub open spec fn initial() -> ContextModel {
        ContextModel {
            active: false,
            surrounding: SurroundingModel::initial(),
            change_cause: ChangeCause::InputMethod,
            content_type: ContentType::initial(),
        }
    }
}

impl Default for InputMethodContext {
    fn default() -> (context: Self)
        ensures
            context@ == ContextModel::initial(),
    {
        InputMethodContext {
            active: false,
            surrounding: SurroundingText::default(),
            change_cause: ChangeCause::InputMethod,
            content_type: ContentType::default(),
        }
    }
}

impl Clone for InputMethodContext {
    fn clone(&self) -> (copy: Self)
        ensures
            copy == *self,
    {
        InputMethodContext {
            active: self.active,
            surrounding: self.surrounding.clone(),
            change_cause: self.change_cause,
            content_type: self.content_type,
        }
    }
}

/// A staged preedit string.
#[derive(Debug, PartialEq, Eq)]
pub struct Preedit {
    pub text: String,
    pub cursor_begin: i32,
    pub cursor_end: i32,
}

/// The mathematical model of a [`Preedit`].
#[verifier::ext_equal]
pub struct PreeditModel {
    pub text: Seq<char>,
    pub cursor_begin: i32,
    pub cursor_end: i32,
}

impl View for Preedit {
    type V = PreeditModel;

    open spec fn view(&self) -> PreeditModel {
        PreeditModel {
            text: self.text@,
            cursor_begin: self.cursor_begin,
            cursor_end: self.cursor_end,
        }
    }
}

impl Clone for Preedit {
    fn clone(&self) -> (copy: Self)
        ensures
            copy == *self,
    {
        Preedit {
            text: self.text.clone(),
            cursor_begin: self.cursor_begin,
            cursor_end: self.cursor_end,
        }
    }
}

/// A staged deletion around the cursor, in bytes.
#[derive(Debug, Clone, Copy, PartialEq, Eq, Structural)]
pub struct DeleteSurrounding {
    pub before: u32,
    pub after: u32,
}

/// The edits staged for the next commit. A field that was not staged stays at
/// its initial value.
#[derive(Debug)]
pub struct PendingEdit {
    pub commit_string: Option<String>,
    pub preedit: Option<Preedit>,
    pub delete: Option<DeleteSurrounding>,
}

/// The mathematical model of a [`PendingEdit`].
#[verifier::ext_equal]
pub struct EditModel {
    pub commit_string: Option<Seq<char>>,
    pub preedit: Option<PreeditModel>,
    pub delete: Option<DeleteSurrounding>,
}

impl View for PendingEdit {
    type V = EditModel;

    open spec fn view(&self) -> EditModel {
        EditModel {
            commit_string: text_of(self.commit_string),
            preedit: match self.preedit {
                Some(preedit) => Some(preedit@),
                None => None,
            },
            delete: self.delete,
        }
    }
}

impl EditModel {
    /// Nothing staged.
    pub open spec fn nothing() -> EditModel {
        EditModel { commit_string: None, preedit: None, delete: None }
    }

    /// The requests that send the edit: one for each staged field, text before
    /// preedit before deletion.
    pub open spec fn requests(self) -> Seq<RequestModel> {
        let text = match self.commit_string {
            Some(text) => seq![RequestModel::CommitString(text)],
            None => seq![],
        };
        let preedit = match self.preedit {
            Some(preedit) => seq![RequestModel::SetPreedit(preedit)],
            None => seq![],
        };
        let delete = match self.delete {
            Some(delete) => seq![RequestModel::DeleteSurroundingText(delete)],
            None => seq![],
        };
        text + preedit + delete
    }
}

impl Default for PendingEdit {
    fn default() -> (edit: Self)
        ensures
            edit@ == EditModel::nothing(),
            edit.commit_string is None,
            edit.preedit is None,
            edit.delete is None,
    {
        PendingEdit { commit_string: None, preedit: None, delete: None }
    }
}

/// All state of the input-method client.
pub struct InputMethodState {
    /// The bound `zwp_input_method_manager_v2`.
    pub manager: Option<Global>,
    /// Whether the seat's `zwp_input_method_v2` has been created.
    pub input_method: bool,
    /// The applied context: what the keyboard reads.
    pub current: InputMethodContext,
    /// The context that events are filling.
    pub pending: InputMethodContext,
    /// How many `done` events have come, to be echoed in a commit.
    pub serial: u32,
    /// Edits staged since the last flush.
    pub pending_edit: PendingEdit,
    /// Set by `unavailable`: every further event and edit is ignored.
    pub inert: bool,
}

/// The mathematical model of an [`InputMethodState`].
#[verifier::ext_equal]
pub struct InputMethodModel {
    pub manager: Option<Global>,
    pub input_method: bool,
    pub current: ContextModel,
    pub pending: ContextModel,
    pub serial: u32,
    pub pending_edit: EditModel,
    pub inert: bool,
}

impl View for InputMethodState {
    type V = InputMethodModel;

    open spec fn view(&self) -> InputMethodModel {
        InputMethodModel {
            manager: self.manager,
            input_method: self.input_method,
            current: self.current@,
            pending: self.pending@,
            serial: self.serial,
            pending_edit: self.pending_edit@,
            inert: self.inert,
        }
    }
}

/// An event of the input method.
pub enum InputMethodEvent {
    Activate,
    Deactivate,
    SurroundingText { text: String, cursor: u32, anchor: u32 },
    TextChangeCause { cause: ChangeCause },
    ContentType { hint: ContentHint, purpose: ContentPurpose },
    Done,
    Unavailable,
}

/// The mathematical model of an [`InputMethodEvent`].
pub enum InputMethodEventModel {
    Activate,
    Deactivate,
    SurroundingText { text: Seq<char>, cursor: u32, anchor: u32 },
    TextChangeCause { cause: ChangeCause },
    ContentType { hint: ContentHint, purpose: ContentPurpose },
    Done,
    Unavailable,
}

impl View for InputMethodEvent {
    type V = InputMethodEventModel;

    open spec fn view(&self) -> InputMethodEventModel {
        match self {
            InputMethodEvent::Activate => InputMethodEventModel::Activate,
            InputMethodEvent::Deactivate => InputMethodEventModel::Deactivate,
            InputMethodEvent::SurroundingText {
                text,
                cursor,
                anchor,
            } => InputMethodEventModel::SurroundingText {
                text: text@,
                cursor: *cursor,
                anchor: *anchor,
            },
            InputMethodEvent::TextChangeCause { cause } => InputMethodEventModel::TextChangeCause {
                cause: *cause,
            },
            InputMethodEvent::ContentType { hint, purpose } => InputMethodEventModel::ContentType {
                hint: *hint,
                purpose: *purpose,
            },
            InputMethodEvent::Done => InputMethodEventModel::Done,
            InputMethodEvent::Unavailable => InputMethodEventModel::Unavailable,
        }
    }
}

impl ContextModel {
    /// The pending context once an event has been written into it. An activation
    /// drops everything reported before; `done` and `unavailable` write nothing.
    pub open spec fn fill(self, event: InputMethodEventModel) -> ContextModel {
        match event {
            InputMethodEventModel::Activate => ContextModel {
                active: true,
                ..ContextModel::initial()
            },
            InputMethodEventModel::Deactivate => ContextModel { active: false, ..self },
            InputMethodEventModel::SurroundingText { text, cursor, anchor } => ContextModel {
                surrounding: SurroundingModel { text, cursor, anchor, reported: true },
                ..self
            },
            InputMethodEventModel::TextChangeCause { cause } => ContextModel {
                change_cause: cause,
                ..self
            },
            InputMethodEventModel::ContentType { hint, purpose } => ContextModel {
                content_type: ContentType { hint, purpose },
                ..self
            },
            InputMethodEventModel::Done => self,
            InputMethodEventModel::Unavailable => self,
        }
    }
}

impl InputMethodModel {
    /// Nothing bound, nothing reported, nothing staged.
    pub open spec fn fresh() -> InputMethodModel {
        InputMethodModel {
            manager: None,
            input_method: false,
            current: ContextModel::initial(),
            pending: ContextModel::initial(),
            serial: 0,
            pending_edit: EditModel::nothing(),
            inert: false,
        }
    }

    /// Edits can be staged: the object exists and is not inert.
    pub open spec fn accepts_edits(self) -> bool {
        self.input_method && !self.inert
    }

    /// Text should be committed here: edits are accepted and a field is focused.
    pub open spec fn commits(self) -> bool {
        self.accepts_edits() && self.current.active
    }

    /// The state after an event. Events fill the pending context; `done` makes
    /// it current and counts up the serial, which wraps; `unavailable` leaves
    /// the object inert, and an inert object ignores every event.
    pub open spec fn receive(self, event: InputMethodEventModel) -> InputMethodModel {
        if self.inert {
            self
        } else {
            match event {
                InputMethodEventModel::Done => InputMethodModel {
                    current: self.pending,
                    serial: if self.serial == u32::MAX {
                        0
                    } else {
                        (self.serial + 1) as u32
                    },
                    ..self
                },
                InputMethodEventModel::Unavailable => InputMethodModel { inert: true, ..self },
                _ => InputMethodModel { pending: self.pending.fill(event), ..self },
            }
        }
    }

    /// The state with the given edit staged in place of the present one, if
    /// edits are accepted at all.
    pub open spec fn stage(self, edit: EditModel) -> InputMethodModel {
        if self.accepts_edits() {
            InputMethodModel { pending_edit: edit, ..self }
        } else {
            self
        }
    }

    /// The state with a text staged to commit, in place of any staged before.
    pub open spec fn stage_text(self, text: Seq<char>) -> InputMethodModel {
        self.stage(EditModel { commit_string: Some(text), ..self.pending_edit })
    }

    /// The state with a preedit string staged, in place of any staged before.
    pub open spec fn stage_preedit(self, preedit: PreeditModel) -> InputMethodModel {
        self.stage(EditModel { preedit: Some(preedit), ..self.pending_edit })
    }

    /// The state with a deletion staged, in place of any staged before.
    pub open spec fn stage_delete(self, delete: DeleteSurrounding) -> InputMethodModel {
        self.stage(EditModel { delete: Some(delete), ..self.pending_edit })
    }
}

impl KeyboardModel {
    /// The state with its input-method part replaced.
    pub open spec fn with_input_method(self, input_method: InputMethodModel) -> KeyboardModel {
        KeyboardModel { input_method, ..self }
    }

    /// The input method is created once its manager and a seat are there, unless
    /// it exists already or has become inert.
    pub open spec fn input_method_created(self) -> KeyboardModel {
        if !self.input_method.input_method && !self.input_method.inert
            && self.input_method.manager is Some && self.virtual_keyboard.seat is Some {
            self.with_input_method(
                InputMethodModel { input_method: true, ..self.input_method },
            ).send(RequestModel::GetInputMethod)
        } else {
            self
        }
    }

    /// A manager that is advertised is bound; after any advertisement the input
    /// method is created if that has become possible.
    pub open spec fn input_method_registry(self, event: RegistryEvent) -> KeyboardModel {
        match event {
            RegistryEvent::Global { name, interface, version } => if interface
                == Interface::InputMethodManager {
                self.with_input_method(
                    InputMethodModel {
                        manager: Some(Global { name, version }),
                        ..self.input_method
                    },
                ).send(RequestModel::Bind { interface, name, version }).input_method_created()
            } else {
                self.input_method_created()
            },
            RegistryEvent::GlobalRemove { name } => self,
        }
    }

    /// The state after an input-method event: the client's own part, and on a
    /// `done` the keyboard is shown or hidden as the field is focused or not.
    pub open spec fn input_method_event(
        self,
        event: InputMethodEventModel,
        kb_height: u32,
    ) -> KeyboardModel {
        let received = self.with_input_method(self.input_method.receive(event));
        if event is Done && !self.input_method.inert {
            received.with_visibility(received.input_method.current.active, kb_height)
        } else {
            received
        }
    }

    /// The state after a flush: the staged edit is sent with the serial and is
    /// staged no longer. Nothing happens when nothing is staged or no edits are
    /// accepted.
    pub open spec fn flushed(self) -> KeyboardModel {
        let edit = self.input_method.pending_edit;
        if self.input_method.accepts_edits() && edit != EditModel::nothing() {
            self.with_input_method(self.input_method.stage(EditModel::nothing())).send_all(
                edit.requests().push(RequestModel::Commit { serial: self.input_method.serial }),
            )
        } else {
            self
        }
    }
}

impl Default for InputMethodState {
    fn default() -> (state: Self)
        ensures
            state@ == InputMethodModel::fresh(),
    {
        InputMethodState {
            manager: None,
            input_method: false,
            current: InputMethodContext::default(),
            pending: InputMethodContext::default(),
            serial: 0,
            pending_edit: PendingEdit::default(),
            inert: false,
        }
    }
}

impl InputMethodState {
    /// Nothing bound, nothing reported, nothing staged.
    pub fn new() -> (state: Self)
        ensures
            state@ == InputMethodModel::fresh(),
    {
        Self::default()
    }

    /// Whether text taps should commit here rather than be typed on the virtual
    /// keyboard: only while a field is focused and the object is not inert.
    pub fn should_commit(&self) -> (commits: bool)
        ensures
            commits == self@.commits(),
    {
        !self.inert && self.input_method && self.current.active
    }
}

/// Creates the input method once the manager and a seat are both bound. Does
/// nothing if it exists already, is inert, or something is missing.
pub fn try_create(s: &mut MechanixKeyboardState)
    ensures
        queue_kept(old(s).outbox@, final(s).outbox@),
        final(s)@ == old(s)@.input_method_created(),
{
    if s.input_method_state.input_method || s.input_method_state.inert {
        return ;
    }
    if s.input_method_state.manager.is_none() || s.virtual_keyboard_state.seat.is_none() {
        return ;
    }
    s.input_method_state.input_method = true;
    s.send(Request::GetInputMethod);
}

/// Binds the manager when the registry advertises it. Every advertisement is
/// another chance to create the input method, so the order does not matter.
pub fn on_registry(s: &mut MechanixKeyboardState, event: &RegistryEvent)
    ensures
        queue_kept(old(s).outbox@, final(s).outbox@),
        final(s)@ == old(s)@.input_method_registry(*event),
{
    match *event {
        RegistryEvent::Global { name, interface, version } => {
            if interface == Interface::InputMethodManager {
                s.input_method_state.manager = Some(Global { name, version });
                s.send(Request::Bind { interface, name, version });
            }
            try_create(s);
        },
        RegistryEvent::GlobalRemove { .. } => {},
    }
}

/// Runs one inbound event through the double-buffered state machine.
///
/// `kb_height` is the height of the showing view at the window's logical width;
/// it matters only to a `done` that shows the keyboard.
pub fn on_input_method_event(
    s: &mut MechanixKeyboardState,
    event: &InputMethodEvent,
    kb_height: u32,
)
    requires
        old(s)@.done_in_range(event@, kb_height),
    ensures
        queue_kept(old(s).outbox@, final(s).outbox@),
        final(s)@ == old(s)@.input_method_event(event@, kb_height),
{
    if s.input_method_state.inert {
        return ;
    }
    match event {
        InputMethodEvent::Activate => {
            let mut pending: InputMethodContext = InputMethodContext::default();
            pending.active = true;
            s.input_method_state.pending = pending;
        },
        InputMethodEvent::Deactivate => {
            s.input_method_state.pending.active = false;
        },
        InputMethodEvent::SurroundingText { text, cursor, anchor } => {
            s.input_method_state.pending.surrounding =
            SurroundingText {
                text: text.clone(),
                cursor: *cursor,
                anchor: *anchor,
                reported: true,
            };
        },
        InputMethodEvent::TextChangeCause { cause } => {
            s.input_method_state.pending.change_cause = *cause;
        },
        InputMethodEvent::ContentType { hint, purpose } => {
            s.input_method_state.pending.content_type =
            ContentType { hint: *hint, purpose: *purpose };
        },
        InputMethodEvent::Done => {
            s.input_method_state.current = s.input_method_state.pending.clone();
            s.input_method_state.serial = s.input_method_state.serial.wrapping_add(1);
            let active: bool = s.input_method_state.current.active;
            set_visibility(s, active, kb_height);
        },
        InputMethodEvent::Unavailable => {
            s.input_method_state.inert = true;
        },
    }
}

impl KeyboardModel {
    /// A `done` that shows the keyboard does not make the bar taller than a
    /// height can say.
    pub open spec fn done_in_range(self, event: InputMethodEventModel, kb_height: u32) -> bool {
        event is Done && !self.input_method.inert ==> self.visibility_in_range(
            self.input_method.pending.active,
            kb_height,
        )
    }
}

/// Whether an event can be handled without leaving the range of heights.
pub fn done_in_range(
    s: &MechanixKeyboardState,
    event: &InputMethodEvent,
    kb_height: u32,
) -> (in_range: bool)
    ensures
        in_range == s@.done_in_range(event@, kb_height),
{
    match event {
        InputMethodEvent::Done => s.input_method_state.inert || visibility_in_range(
            s,
            s.input_method_state.pending.active,
            kb_height,
        ),
        _ => true,
    }
}

/// Stages text to commit, in place of any staged before. Does nothing while the
/// input method does not exist or is inert.
pub fn stage_commit_string(s: &mut MechanixKeyboardState, text: String)
    ensures
        queue_kept(old(s).outbox@, final(s).outbox@),
        final(s)@ == old(s)@.with_input_method(old(s)@.input_method.stage_text(text@)),
{
    if s.input_method_state.inert || !s.input_method_state.input_method {
        return ;
    }
    s.input_method_state.pending_edit.commit_string = Some(text);
}

/// Stages a preedit string, in place of any staged before. Does nothing while
/// the input method does not exist or is inert.
pub fn stage_preedit(
    s: &mut MechanixKeyboardState,
    text: String,
    cursor_begin: i32,
    cursor_end: i32,
)
    ensures
        queue_kept(old(s).outbox@, final(s).outbox@),
        final(s)@ == old(s)@.with_input_method(
            old(s)@.input_method.stage_preedit(
                PreeditModel { text: text@, cursor_begin, cursor_end },
            ),
        ),
{
    if s.input_method_state.inert || !s.input_method_state.input_method {
        return ;
    }
    s.input_method_state.pending_edit.preedit = Some(Preedit { text, cursor_begin, cursor_end });
}

/// Stages a deletion around the cursor, in place of any staged before. Does
/// nothing while the input method does not exist or is inert.
pub fn stage_delete_surrounding(s: &mut MechanixKeyboardState, before: u32, after: u32)
    ensures
        queue_kept(old(s).outbox@, final(s).outbox@),
        final(s)@ == old(s)@.with_input_method(
            old(s)@.input_method.stage_delete(DeleteSurrounding { before, after }),
        ),
{
    if s.input_method_state.inert || !s.input_method_state.input_method {
        return ;
    }
    s.input_method_state.pending_edit.delete = Some(DeleteSurrounding { before, after });
}

/// Sends all staged edits and commits them with the serial, which is the number
/// of `done` events received. The staged edit is back at its initial value
/// afterwards. Does nothing with nothing staged, while inert, or while the input
/// method does not exist.
pub fn flush(s: &mut MechanixKeyboardState)
    ensures
        queue_kept(old(s).outbox@, final(s).outbox@),
        final(s)@ == old(s)@.flushed(),
{
    if s.input_method_state.inert || !s.input_method_state.input_method {
        return ;
    }
    let mut edit: PendingEdit = PendingEdit::default();
    std::mem::swap(&mut edit, &mut s.input_method_state.pending_edit);
    let ghost staged = edit@;
    if edit.commit_string.is_none() && edit.preedit.is_none() && edit.delete.is_none() {
        return ;
    }
    let serial: u32 = s.input_method_state.serial;
    if let Some(text) = edit.commit_string {
        s.send(Request::CommitString(text));
    }
    if let Some(preedit) = edit.preedit {
        s.send(Request::SetPreedit(preedit));
    }
    if let Some(delete) = edit.delete {
        s.send(Request::DeleteSurroundingText(delete));
    }
    s.send(Request::Commit { serial });
    assert(s@.outbox =~= old(s)@.outbox + staged.requests().push(RequestModel::Commit { serial }));
}

/// Commits one piece of text at once: stages it and flushes. Tells whether it
/// was sent; it is not unless a field is focused.
pub fn commit_text(s: &mut MechanixKeyboardState, text: &str) -> (sent: bool)
    ensures
        queue_kept(old(s).outbox@, final(s).outbox@),
        sent == old(s)@.input_method.commits(),
        final(s)@ == if sent {
            old(s)@.with_input_method(old(s)@.input_method.stage_text(text@)).flushed()
        } else {
            old(s)@
        },
{
    if !s.input_method_state.should_commit() {
        return false;
    }
    stage_commit_string(s, text.to_owned());
    flush(s);
    true
}

} // verus!
