//! The key layout: what a key does when tapped, the keys of a view, and the
//! views the keyboard switches between.

use vstd::prelude::*;

verus! {

/// What tapping a key does.
#[derive(Debug, PartialEq, Eq)]
pub enum KeyAction {
    /// Type one keysym, given by its raw number.
    EmitKeysym(u32),
    /// Type each character of a text run.
    EmitText(String),
    /// Show the named view.
    SetView(String),
    /// Show `lock`, or go back to `unlock` while `lock` is showing.
    ToggleView { lock: String, unlock: String },
    /// Arm or disarm the named modifier for the next keystroke.
    LatchModifier(String),
    /// An action nothing is wired to; the name is kept for diagnostics.
    Unhandled(String),
}

/// The mathematical model of a [`KeyAction`].
pub enum KeyActionModel {
    EmitKeysym(u32),
    EmitText(Seq<char>),
    SetView(Seq<char>),
    ToggleView { lock: Seq<char>, unlock: Seq<char> },
    LatchModifier(Seq<char>),
    Unhandled(Seq<char>),
}

impl View for KeyAction {
    type V = KeyActionModel;

    open spec fn view(&self) -> KeyActionModel {
        match self {
            KeyAction::EmitKeysym(keysym) => KeyActionModel::EmitKeysym(*keysym),
            KeyAction::EmitText(text) => KeyActionModel::EmitText(text@),
            KeyAction::SetView(name) => KeyActionModel::SetView(name@),
            KeyAction::ToggleView { lock, unlock } => KeyActionModel::ToggleView {
                lock: lock@,
                unlock: unlock@,
            },
            KeyAction::LatchModifier(name) => KeyActionModel::LatchModifier(name@),
            KeyAction::Unhandled(name) => KeyActionModel::Unhandled(name@),
        }
    }
}

impl Clone for KeyAction {
    fn clone(&self) -> (copy: Self)
        ensures
            copy == *self,
    {
        match self {
            KeyAction::EmitKeysym(keysym) => KeyAction::EmitKeysym(*keysym),
            KeyAction::EmitText(text) => KeyAction::EmitText(text.clone()),
            KeyAction::SetView(name) => KeyAction::SetView(name.clone()),
            KeyAction::ToggleView { lock, unlock } => KeyAction::ToggleView {
                lock: lock.clone(),
                unlock: unlock.clone(),
            },
            KeyAction::LatchModifier(name) => KeyAction::LatchModifier(name.clone()),
            KeyAction::Unhandled(name) => KeyAction::Unhandled(name.clone()),
        }
    }
}

/// One key of a view: the label drawn on it and its action.
pub struct Key {
    pub label: String,
    pub action: KeyAction,
}

/// The mathematical model of a [`Key`].
pub struct KeyModel {
    pub label: Seq<char>,
    pub action: KeyActionModel,
}

impl View for Key {
    type V = KeyModel;

    open spec fn view(&self) -> KeyModel {
        KeyModel { label: self.label@, action: self.action@ }
    }
}

impl Key {
    /// The label drawn on the key.
    pub fn display_label(&self) -> (label: &str)
        ensures
            label@ == self@.label,
    {
        self.label.as_str()
    }
}

/// How a view's width, a floating-point measure, stands to zero.
#[derive(Debug, Clone, Copy, PartialEq, Eq, Structural)]
pub enum ViewWidth {
    /// Greater than zero.
    Positive,
    /// Zero or less.
    NotPositive,
    /// Not a number, so neither greater than zero nor at most zero.
    NotANumber,
}

/// One view of the keyboard: a named arrangement of keys.
///
/// The touch areas are measured in layout units by whoever draws the view; all
/// that matters here is how the view's width stands to zero.
pub struct KeyboardView {
    pub name: String,
    pub width: ViewWidth,
    pub keys: Vec<Key>,
}

/// The mathematical model of a [`KeyboardView`].
pub struct ViewModel {
    pub name: Seq<char>,
    pub width: ViewWidth,
    pub keys: Seq<KeyModel>,
}

impl View for KeyboardView {
    type V = ViewModel;

    open spec fn view(&self) -> ViewModel {
        ViewModel {
            name: self.name@,
            width: self.width,
            keys: Seq::new(self.keys@.len(), |i: int| self.keys@[i]@),
        }
    }
}

/// `i` is the first position at which `flags` holds.
pub open spec fn is_first_true(flags: Seq<bool>, i: int) -> bool {
    &&& 0 <= i < flags.len()
    &&& flags[i]
    &&& forall|j: int| 0 <= j < i ==> !#[trigger] flags[j]
}

/// The first position at which `flags` holds, if it holds anywhere.
pub open spec fn first_true(flags: Seq<bool>) -> Option<int> {
    if exists|i: int| is_first_true(flags, i) {
        Some(choose|i: int| is_first_true(flags, i))
    } else {
        None
    }
}

/// A sequence of flags has at most one first position.
pub proof fn lemma_first_true_unique(flags: Seq<bool>, i: int)
    requires
        is_first_true(flags, i),
    ensures
        first_true(flags) == Some(i),
{
    let k = choose|k: int| is_first_true(flags, k);
    assert(is_first_true(flags, k));
    assert(flags[i] && flags[k]);
}

/// The search for the first flag misses nothing: it comes back empty only when
/// no flag holds.
pub proof fn lemma_first_true_complete(flags: Seq<bool>, i: int)
    requires
        0 <= i < flags.len(),
        flags[i],
    ensures
        first_true(flags) matches Some(k) && is_first_true(flags, k) && k <= i,
    decreases i,
{
    if forall|j: int| 0 <= j < i ==> !#[trigger] flags[j] {
        assert(is_first_true(flags, i));
        lemma_first_true_unique(flags, i);
    } else {
        let j = choose|j: int| 0 <= j < i && #[trigger] flags[j];
        lemma_first_true_complete(flags, j);
    }
}

/// The position of the first `true` in `flags`.
pub fn find_first(flags: &[bool]) -> (found: Option<usize>)
    ensures
        match found {
            Some(i) => first_true(flags@) == Some(i as int),
            None => first_true(flags@) is None,
        },
{
    let mut i: usize = 0;
    while i < flags.len()
        invariant
            i <= flags@.len(),
            forall|j: int| 0 <= j < i ==> !#[trigger] flags@[j],
        decreases flags@.len() - i,
    {
        if flags[i] {
            proof {
                lemma_first_true_unique(flags@, i as int);
            }
            return Some(i);
        }
        i = i + 1;
    }
    None
}

/// The views of a layout, in order.
pub struct Keymap {
    pub views: Vec<KeyboardView>,
}

impl View for Keymap {
    type V = Seq<ViewModel>;

    open spec fn view(&self) -> Seq<ViewModel> {
        Seq::new(self.views@.len(), |i: int| self.views@[i]@)
    }
}

/// Position of the first view with the given name, if there is one.
pub open spec fn first_named(views: Seq<ViewModel>, name: Seq<char>) -> Option<int> {
    first_true(Seq::new(views.len(), |i: int| views[i].name == name))
}

impl Keymap {
    /// Position of the view called `name`; the first one if several are.
    pub fn index_of(&self, name: &str) -> (found: Option<usize>)
        ensures
            match found {
                Some(i) => first_named(self@, name@) == Some(i as int) && i < self@.len(),
                None => first_named(self@, name@) is None,
            },
    {
        let wanted: String = name.to_owned();
        let ghost flags = Seq::new(self@.len(), |i: int| self@[i].name == name@);
        let mut i: usize = 0;
        while i < self.views.len()
            invariant
                i <= self.views@.len(),
                wanted@ == name@,
                flags == Seq::new(self@.len(), |i: int| self@[i].name == name@),
                forall|j: int| 0 <= j < i ==> !#[trigger] flags[j],
            decreases self.views@.len() - i,
        {
            if self.views[i].name == wanted {
                proof {
                    lemma_first_true_unique(flags, i as int);
                }
                return Some(i);
            }
            i = i + 1;
        }
        None
    }
}

/// The label of the first key that is hit, where `hits[i]` says whether key `i`
/// is.
pub open spec fn label_hit(view: ViewModel, hits: Seq<bool>) -> Option<Seq<char>> {
    match first_true(hits) {
        Some(i) => if i < view.keys.len() {
            Some(view.keys[i].label)
        } else {
            None
        },
        None => None,
    }
}

/// The action of the first key that is hit, where `hits[i]` says whether key `i`
/// is.
pub open spec fn action_hit(view: ViewModel, hits: Seq<bool>) -> Option<KeyActionModel> {
    match first_true(hits) {
        Some(i) => if i < view.keys.len() {
            Some(view.keys[i].action)
        } else {
            None
        },
        None => None,
    }
}

} // verus!
