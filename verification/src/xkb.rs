//! Keysyms and the compiled XKB keymap, as far as typing needs them.

use crate::layout::{
    first_true, is_first_true, lemma_first_true_complete, lemma_first_true_unique,
};
use std::collections::HashMap;
use vstd::prelude::*;

verus! {

/// The keysym that stands for a character, as `xkeysym::Keysym::from_char`
/// computes it: by the Latin-1 range, a table of some hundred legacy keysyms,
/// and the Unicode range.
pub uninterp spec fn char_keysym(ch: char) -> u32;

/// The printable characters of Latin-1.
pub open spec fn is_latin1(ch: char) -> bool {
    0x20 <= ch as u32 <= 0x7e || 0xa0 <= ch as u32 <= 0xff
}

/// Calls `xkeysym::Keysym::from_char`. The result depends on the character
/// alone; a printable Latin-1 character is its own keysym.
#[verifier::external_body]
pub(crate) fn keysym_from_char(ch: char) -> (keysym: u32)
    ensures
        keysym == char_keysym(ch),
        is_latin1(ch) ==> keysym == ch as u32,
{
    xkeysym::Keysym::from_char(ch).raw()
}

/// One resolved keystroke: the evdev keycode to press plus the modifier mask to
/// hold while pressing it. A keysym of the base level needs no modifiers; one of
/// the shifted level (an uppercase letter, say) is its physical key's keycode
/// plus the Shift mask, so typing it reproduces the shifted keysym without any
/// persistent modifier.
#[derive(Debug, Clone, Copy, PartialEq, Eq, Structural)]
pub struct Keystroke {
    pub code: u32,
    pub mods: u32,
}

/// The keysyms of one physical key in the first layout: what it yields plainly,
/// and what it yields with Shift.
pub struct KeyLevels {
    pub base: Vec<u32>,
    pub shifted: Vec<u32>,
}

/// A compiled keymap: the levels of each key from `min_keycode` upwards, one
/// after the other, and where Shift and Control stand among the modifiers.
pub struct XkbKeymap {
    pub min_keycode: u32,
    pub keys: Vec<KeyLevels>,
    pub shift_index: u32,
    pub control_index: u32,
}

/// XKB keycodes are evdev keycodes shifted up by this much.
pub const EVDEV_OFFSET: u32 = 8;

/// The keysyms of one physical key, in the model.
pub struct LevelsModel {
    pub base: Seq<u32>,
    pub shifted: Seq<u32>,
}

/// The mathematical model of an [`XkbKeymap`].
pub struct XkbModel {
    pub min_keycode: u32,
    pub keys: Seq<LevelsModel>,
    pub shift_index: u32,
    pub control_index: u32,
}

impl View for XkbKeymap {
    type V = XkbModel;

    open spec fn view(&self) -> XkbModel {
        XkbModel {
            min_keycode: self.min_keycode,
            keys: Seq::new(
                self.keys@.len(),
                |i: int| LevelsModel { base: self.keys@[i].base@, shifted: self.keys@[i].shifted@ },
            ),
            shift_index: self.shift_index,
            control_index: self.control_index,
        }
    }
}

impl XkbModel {
    /// The keycodes fit their type, and there is a Shift modifier: what it takes
    /// to resolve keysyms.
    pub open spec fn is_scannable(self) -> bool {
        &&& self.min_keycode + self.keys.len() <= u32::MAX + 1
        &&& self.shift_index < 32
    }

    /// The XKB keycode of the `i`-th key.
    pub open spec fn keycode(self, i: int) -> int {
        self.min_keycode + i
    }

    /// The keysyms of the `i`-th key at the shifted or the base level.
    pub open spec fn syms(self, i: int, shifted: bool) -> Seq<u32> {
        if shifted {
            self.keys[i].shifted
        } else {
            self.keys[i].base
        }
    }

    /// Pressing the `i`-th key at a level types `keysym`: it is the key's first
    /// keysym there, it is not the empty keysym, and the key has an evdev code.
    pub open spec fn types(self, i: int, shifted: bool, keysym: u32) -> bool {
        &&& self.keycode(i) >= EVDEV_OFFSET
        &&& self.syms(i, shifted).len() > 0
        &&& self.syms(i, shifted)[0] == keysym
        &&& keysym != 0
    }

    /// Which keys type `keysym` at a level.
    pub open spec fn typing_keys(self, shifted: bool, keysym: u32) -> Seq<bool> {
        Seq::new(self.keys.len(), |i: int| self.types(i, shifted, keysym))
    }

    /// The mask of the modifier held for a level.
    pub open spec fn level_mods(self, shifted: bool) -> u32 {
        if shifted {
            1u32 << self.shift_index
        } else {
            0
        }
    }

    /// The keystroke that types `keysym` at one level: the lowest keycode that
    /// does.
    pub open spec fn level_keystroke(self, shifted: bool, keysym: u32) -> Option<Keystroke> {
        match first_true(self.typing_keys(shifted, keysym)) {
            Some(i) => Some(
                Keystroke {
                    code: (self.keycode(i) - EVDEV_OFFSET) as u32,
                    mods: self.level_mods(shifted),
                },
            ),
            None => None,
        }
    }

    /// The keystroke that types `keysym`: one without modifiers if there is one,
    /// else one with Shift.
    pub open spec fn keystroke(self, keysym: u32) -> Option<Keystroke> {
        match self.level_keystroke(false, keysym) {
            Some(stroke) => Some(stroke),
            None => self.level_keystroke(true, keysym),
        }
    }

    /// Every keysym that can be typed, with its keystroke.
    pub open spec fn keystrokes(self) -> Map<u32, Keystroke> {
        Map::new(
            |keysym: u32| self.keystroke(keysym) is Some,
            |keysym: u32| self.keystroke(keysym)->0,
        )
    }
}

impl XkbKeymap {
    /// Whether the keycodes fit their type and there is a Shift modifier.
    pub fn is_scannable(&self) -> (scannable: bool)
        ensures
            scannable == self@.is_scannable(),
    {
        self.min_keycode as u128 + self.keys.len() as u128 <= u32::MAX as u128 + 1
            && self.shift_index < 32
    }
}

/// Key `j` is the first of all keys that types `keysym` at a level.
spec fn types_first(keymap: XkbModel, shifted: bool, keysym: u32, j: int) -> bool {
    &&& keymap.types(j, shifted, keysym)
    &&& forall|k: int| 0 <= k < j ==> !#[trigger] keymap.types(k, shifted, keysym)
}

/// Adds the keystrokes of one level to `map`, leaving alone what is there.
fn scan_level(keymap: &XkbKeymap, shifted: bool, mods: u32, map: &mut HashMap<u32, Keystroke>)
    requires
        keymap@.is_scannable(),
        mods == keymap@.level_mods(shifted),
    ensures
        forall|keysym: u32| #[trigger]
            final(map)@.contains_key(keysym) <==> old(map)@.contains_key(keysym)
                || keymap@.level_keystroke(shifted, keysym) is Some,
        forall|keysym: u32|
            final(map)@.contains_key(keysym) ==> #[trigger] final(map)@[keysym] == (
            if old(map)@.contains_key(keysym) {
                old(map)@[keysym]
            } else {
                keymap@.level_keystroke(shifted, keysym)->0
            }),
{
    let ghost model = keymap@;
    let ghost before = map@;
    let mut i: usize = 0;
    while i < keymap.keys.len()
        invariant
            i <= keymap.keys@.len(),
            model == keymap@,
            model.is_scannable(),
            forall|keysym: u32| #[trigger]
                map@.contains_key(keysym) <==> before.contains_key(keysym) || exists|j: int|
                    0 <= j < i && #[trigger] types_first(model, shifted, keysym, j),
            forall|keysym: u32|
                before.contains_key(keysym) ==> #[trigger] map@[keysym] == before[keysym],
            forall|keysym: u32, j: int|
                !before.contains_key(keysym) && 0 <= j < i && #[trigger] types_first(
                    model,
                    shifted,
                    keysym,
                    j,
                ) ==> map@[keysym] == (Keystroke {
                    code: (model.keycode(j) - EVDEV_OFFSET) as u32,
                    mods,
                }),
        decreases keymap.keys@.len() - i,
    {
        let ghost prior = map@;
        let keycode: u32 = keymap.min_keycode + i as u32;
        let syms: &Vec<u32> = if shifted {
            &keymap.keys[i].shifted
        } else {
            &keymap.keys[i].base
        };
        assert(syms@ == model.syms(i as int, shifted));
        if keycode >= EVDEV_OFFSET && syms.len() > 0 && syms[0] != 0 {
            let keysym: u32 = syms[0];
            if !map.contains_key(&keysym) {
                map.insert(keysym, Keystroke { code: keycode - EVDEV_OFFSET, mods });
            }
            proof {
                assert(model.types(i as int, shifted, keysym));
                if !before.contains_key(keysym) && !prior.contains_key(keysym) {
                    assert forall|k: int| 0 <= k < i implies !#[trigger] model.types(
                        k,
                        shifted,
                        keysym,
                    ) by {
                        if model.types(k, shifted, keysym) {
                            lemma_some_key_types_first(model, shifted, keysym, k);
                        }
                    }
                    assert(types_first(model, shifted, keysym, i as int));
                }
            }
        }
        i = i + 1;
    }
    proof {
        assert forall|keysym: u32| (exists|j: int|
            0 <= j < i && #[trigger] types_first(model, shifted, keysym, j)) <==> (
        #[trigger] model.level_keystroke(shifted, keysym)) is Some by {
            lemma_level_keystroke(model, shifted, keysym);
        }
        assert forall|keysym: u32| map@.contains_key(keysym) implies #[trigger] map@[keysym] == (
        if before.contains_key(keysym) {
            before[keysym]
        } else {
            model.level_keystroke(shifted, keysym)->0
        }) by {
            lemma_level_keystroke(model, shifted, keysym);
        }
    }
}

/// If a key types `keysym`, some key at or below it does so first.
proof fn lemma_some_key_types_first(keymap: XkbModel, shifted: bool, keysym: u32, k: int) -> (j:
    int)
    requires
        0 <= k < keymap.keys.len(),
        keymap.types(k, shifted, keysym),
    ensures
        0 <= j <= k,
        types_first(keymap, shifted, keysym, j),
{
    let flags = keymap.typing_keys(shifted, keysym);
    lemma_first_true_complete(flags, k);
    let j = first_true(flags)->0;
    assert forall|n: int| 0 <= n < j implies !#[trigger] keymap.types(n, shifted, keysym) by {
        assert(!flags[n]);
    }
    j
}

/// The keystroke of a level is that of the key that types the keysym first.
proof fn lemma_level_keystroke(keymap: XkbModel, shifted: bool, keysym: u32)
    ensures
        keymap.level_keystroke(shifted, keysym) is Some <==> exists|j: int|
            0 <= j < keymap.keys.len() && #[trigger] types_first(keymap, shifted, keysym, j),
        forall|j: int|
            0 <= j < keymap.keys.len() && #[trigger] types_first(keymap, shifted, keysym, j)
                ==> keymap.level_keystroke(shifted, keysym) == Some(
                Keystroke {
                    code: (keymap.keycode(j) - EVDEV_OFFSET) as u32,
                    mods: keymap.level_mods(shifted),
                },
            ),
{
    let flags = keymap.typing_keys(shifted, keysym);
    assert forall|j: int|
        0 <= j < keymap.keys.len() && #[trigger] types_first(
            keymap,
            shifted,
            keysym,
            j,
        ) implies first_true(flags) == Some(j) by {
        assert(is_first_true(flags, j));
        lemma_first_true_unique(flags, j);
    }
    if exists|i: int| is_first_true(flags, i) {
        let i = choose|i: int| is_first_true(flags, i);
        assert forall|n: int| 0 <= n < i implies !#[trigger] keymap.types(n, shifted, keysym) by {
            assert(!flags[n]);
        }
        assert(types_first(keymap, shifted, keysym, i));
    }
}

/// Builds the keysym to keystroke table of a keymap, from its base and shifted
/// levels. The base level comes first, so the form with the fewest modifiers
/// wins for a keysym found on both; within a level the lowest keycode wins.
pub fn scan_keycodes(keymap: &XkbKeymap) -> (map: HashMap<u32, Keystroke>)
    requires
        keymap@.is_scannable(),
    ensures
        map@ == keymap@.keystrokes(),
{
    let shift: u32 = 1u32 << keymap.shift_index;
    let mut map: HashMap<u32, Keystroke> = HashMap::new();
    scan_level(keymap, false, 0, &mut map);
    scan_level(keymap, true, shift, &mut map);
    proof {
        let table = keymap@.keystrokes();
        assert forall|keysym: u32| map@.contains_key(keysym) <==> #[trigger] table.contains_key(
            keysym,
        ) by {
            assert(keymap@.keystroke(keysym) is Some <==> keymap@.level_keystroke(
                false,
                keysym,
            ) is Some || keymap@.level_keystroke(true, keysym) is Some);
        }
        assert(map@ =~= table);
    }
    map
}

/// The table agrees with the keymap key by key: a keysym is typed without
/// modifiers by the lowest key that has it at the base level.
pub proof fn law_base_level_wins(keymap: XkbModel, i: int, keysym: u32)
    requires
        keymap.is_scannable(),
        0 <= i < keymap.keys.len(),
        keymap.types(i, false, keysym),
        forall|j: int| 0 <= j < i ==> !#[trigger] keymap.types(j, false, keysym),
    ensures
        keymap.keystrokes().contains_key(keysym),
        keymap.keystrokes()[keysym] == (Keystroke {
            code: (keymap.keycode(i) - EVDEV_OFFSET) as u32,
            mods: 0,
        }),
{
    assert(types_first(keymap, false, keysym, i));
    lemma_level_keystroke(keymap, false, keysym);
}

/// A keysym that no key has at the base level is typed with Shift held, by the
/// lowest key that has it at the shifted level.
pub proof fn law_shifted_level_carries_shift(keymap: XkbModel, i: int, keysym: u32)
    requires
        keymap.is_scannable(),
        0 <= i < keymap.keys.len(),
        keymap.types(i, true, keysym),
        forall|j: int| 0 <= j < i ==> !#[trigger] keymap.types(j, true, keysym),
        forall|j: int|
            0 <= j < keymap.keys.len() ==> !#[trigger] keymap.types(j, false, keysym),
    ensures
        keymap.keystrokes().contains_key(keysym),
        keymap.keystrokes()[keysym] == (Keystroke {
            code: (keymap.keycode(i) - EVDEV_OFFSET) as u32,
            mods: 1u32 << keymap.shift_index,
        }),
        keymap.keystrokes()[keysym].mods != 0,
{
    assert(types_first(keymap, true, keysym, i));
    lemma_level_keystroke(keymap, true, keysym);
    lemma_level_keystroke(keymap, false, keysym);
    let index = keymap.shift_index;
    assert((1u32 << index) != 0) by (bit_vector)
        requires
            index < 32,
    ;
}

/// A keysym that no key has at either level cannot be typed, and the empty
/// keysym never can.
pub proof fn law_unmapped_keysym_is_absent(keymap: XkbModel, keysym: u32)
    requires
        keymap.is_scannable(),
        keysym == 0 || forall|j: int, shifted: bool|
            0 <= j < keymap.keys.len() ==> !#[trigger] keymap.types(j, shifted, keysym),
    ensures
        !keymap.keystrokes().contains_key(keysym),
{
    lemma_level_keystroke(keymap, false, keysym);
    lemma_level_keystroke(keymap, true, keysym);
}

} // verus!
