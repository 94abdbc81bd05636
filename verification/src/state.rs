//! The state of the keyboard as a whole, and its mathematical model.

use crate::input_method::{InputMethodModel, InputMethodState};
use crate::layout::{KeyboardView, Keymap, ViewModel};
use crate::request::{Request, RequestModel};
use crate::virtual_keyboard::{VirtualKeyboardModel, VirtualKeyboardState};
use crate::window::{WaylandGlobals, WindowModel, WindowState};
use std::collections::HashSet;
use vstd::prelude::*;

verus! {

/// Everything the keyboard knows, and the requests it has queued.
pub struct MechanixKeyboardState {
    /// Globals the window needs.
    pub globals: WaylandGlobals,
    /// The bar's surface, once created.
    pub window: Option<WindowState>,
    pub virtual_keyboard_state: VirtualKeyboardState,
    pub input_method_state: InputMethodState,
    /// The views of the loaded layout.
    pub keymap: Option<Keymap>,
    /// Which view is showing.
    pub current_view: usize,
    /// Label of the key last seen under the pointer.
    pub last_hover: Option<String>,
    /// The output's buffer scale.
    pub scale: i32,
    /// Object ids of the frame callbacks that have not fired yet.
    pub frame_callbacks: HashSet<u32>,
    /// Requests to carry out, oldest first.
    pub outbox: Vec<Request>,
}

/// The mathematical model of a [`MechanixKeyboardState`].
#[verifier::ext_equal]
pub struct KeyboardModel {
    pub globals: WaylandGlobals,
    pub window: Option<WindowModel>,
    pub virtual_keyboard: VirtualKeyboardModel,
    pub input_method: InputMethodModel,
    pub keymap: Option<Seq<ViewModel>>,
    pub current_view: usize,
    pub last_hover: Option<Seq<char>>,
    pub scale: i32,
    pub frame_callbacks: Set<u32>,
    pub outbox: Seq<RequestModel>,
}

/// The model of a queue of requests.
pub open spec fn queued(outbox: Seq<Request>) -> Seq<RequestModel> {
    Seq::new(outbox.len(), |i: int| outbox[i]@)
}

/// Everything queued before is still queued, unchanged and in place; whatever is
/// new stands behind it.
pub open spec fn queue_kept(before: Seq<Request>, after: Seq<Request>) -> bool {
    &&& before.len() <= after.len()
    &&& forall|i: int| 0 <= i < before.len() ==> #[trigger] after[i] == before[i]
}

/// The model of an optional string.
pub open spec fn text_of(text: Option<String>) -> Option<Seq<char>> {
    match text {
        Some(text) => Some(text@),
        None => None,
    }
}

impl View for MechanixKeyboardState {
    type V = KeyboardModel;

    open spec fn view(&self) -> KeyboardModel {
        KeyboardModel {
            globals: self.globals,
            window: match self.window {
                Some(window) => Some(window@),
                None => None,
            },
            virtual_keyboard: self.virtual_keyboard_state@,
            input_method: self.input_method_state@,
            keymap: match self.keymap {
                Some(keymap) => Some(keymap@),
                None => None,
            },
            current_view: self.current_view,
            last_hover: text_of(self.last_hover),
            scale: self.scale,
            frame_callbacks: self.frame_callbacks@,
            outbox: queued(self.outbox@),
        }
    }
}

impl KeyboardModel {
    /// The view that is showing, if the layout has it.
    pub open spec fn current(self) -> Option<ViewModel> {
        match self.keymap {
            Some(views) => if self.current_view < views.len() {
                Some(views[self.current_view as int])
            } else {
                None
            },
            None => None,
        }
    }

    /// The same state with one more request queued.
    pub open spec fn send(self, request: RequestModel) -> KeyboardModel {
        KeyboardModel { outbox: self.outbox.push(request), ..self }
    }

    /// The same state with a run of requests queued.
    pub open spec fn send_all(self, requests: Seq<RequestModel>) -> KeyboardModel {
        KeyboardModel { outbox: self.outbox + requests, ..self }
    }
}

impl MechanixKeyboardState {
    /// Nothing bound, nothing loaded, nothing queued.
    pub fn new() -> (s: Self)
        ensures
            s@.globals == WaylandGlobals::unbound(),
            s@.window is None,
            s@.virtual_keyboard.is_fresh(),
            s@.input_method == InputMethodModel::fresh(),
            s@.keymap is None,
            s@.current_view == 0,
            s@.last_hover is None,
            s@.scale == 1,
            s@.frame_callbacks == Set::<u32>::empty(),
            s@.outbox == Seq::<RequestModel>::empty(),
    {
        MechanixKeyboardState {
            globals: WaylandGlobals::default(),
            window: None,
            virtual_keyboard_state: VirtualKeyboardState::new(),
            input_method_state: InputMethodState::new(),
            keymap: None,
            current_view: 0,
            last_hover: None,
            scale: 1,
            frame_callbacks: HashSet::new(),
            outbox: Vec::new(),
        }
    }

    /// The view that is showing, if the layout has it.
    pub fn current_view(&self) -> (view: Option<&KeyboardView>)
        ensures
            match view {
                Some(view) => self@.current() == Some(view@),
                None => self@.current() is None,
            },
    {
        match &self.keymap {
            Some(keymap) => if self.current_view < keymap.views.len() {
                Some(&keymap.views[self.current_view])
            } else {
                None
            },
            None => None,
        }
    }

    /// Queues a request behind those already waiting.
    pub fn send(&mut self, request: Request)
        ensures
            final(self)@ == old(self)@.send(request@),
            final(self).outbox@ == old(self).outbox@.push(request),
    {
        self.outbox.push(request);
        assert(self@ =~= old(self)@.send(request@));
    }

    /// Hands over the queued requests, oldest first, and empties the queue.
    pub fn take_requests(&mut self) -> (requests: Vec<Request>)
        ensures
            requests@ == old(self).outbox@,
            final(self)@ == (KeyboardModel {
                outbox: Seq::<RequestModel>::empty(),
                ..old(self)@
            }),
    {
        let mut requests: Vec<Request> = Vec::new();
        std::mem::swap(&mut requests, &mut self.outbox);
        assert(self@.outbox =~= Seq::<RequestModel>::empty());
        requests
    }
}

} // verus!
