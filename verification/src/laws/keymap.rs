//! What the keysym table of a keymap holds, key by key: stated on the keysyms
//! that the keys have at their two levels.

use crate::layout::{first_true, is_first_true, lemma_first_true_complete, lemma_first_true_unique};
use crate::xkb::{XkbKeymap, XkbModel};
use vstd::prelude::*;

verus! {

/// Every keysym that stands first on a key with an evdev code can be typed; one
/// that does so at the base level is typed without modifiers.
pub proof fn law_every_first_keysym_can_be_typed(keymap: XkbModel, i: int)
    requires
        0 <= i < keymap.keys.len(),
        keymap.min_keycode + i >= 8,
    ensures
        ({
            let base = keymap.keys[i].base;
            base.len() > 0 && base[0] != 0 ==> keymap.keystrokes().contains_key(base[0])
                && keymap.keystrokes()[base[0]].mods == 0
        }),
        ({
            let shifted = keymap.keys[i].shifted;
            shifted.len() > 0 && shifted[0] != 0 ==> keymap.keystrokes().contains_key(shifted[0])
        }),
{
    let base = keymap.keys[i].base;
    let shifted = keymap.keys[i].shifted;
    if base.len() > 0 && base[0] != 0 {
        lemma_first_true_complete(keymap.typing_keys(false, base[0]), i);
    }
    if shifted.len() > 0 && shifted[0] != 0 {
        lemma_first_true_complete(keymap.typing_keys(true, shifted[0]), i);
    }
}

/// The lowest key that has a keysym first at the base level is the one that types
/// it, with no modifier held.
pub proof fn law_lowest_base_key_types_it(keymap: XkbModel, i: int, keysym: u32)
    requires
        keymap.min_keycode + keymap.keys.len() <= 0x1_0000_0000,
        0 <= i < keymap.keys.len(),
        keymap.min_keycode + i >= 8,
        keysym != 0,
        keymap.keys[i].base.len() > 0 && keymap.keys[i].base[0] == keysym,
        forall|j: int|
            0 <= j < i && keymap.min_keycode + j >= 8 ==> !((#[trigger] keymap.keys[j]).base.len()
                > 0 && keymap.keys[j].base[0] == keysym),
    ensures
        keymap.keystrokes().contains_key(keysym),
        keymap.keystrokes()[keysym].code == keymap.min_keycode + i - 8,
        keymap.keystrokes()[keysym].mods == 0,
{
    let flags = keymap.typing_keys(false, keysym);
    assert(is_first_true(flags, i)) by {
        assert forall|j: int| 0 <= j < i implies !#[trigger] flags[j] by {
            let key = keymap.keys[j];
        }
    }
    lemma_first_true_unique(flags, i);
}

/// A keysym that no key has first at the base level is typed by the lowest key
/// that has it first at the shifted level, with the Shift modifier held.
pub proof fn law_lowest_shifted_key_types_it(keymap: XkbModel, i: int, keysym: u32)
    requires
        keymap.min_keycode + keymap.keys.len() <= 0x1_0000_0000,
        keymap.shift_index < 32,
        0 <= i < keymap.keys.len(),
        keymap.min_keycode + i >= 8,
        keysym != 0,
        keymap.keys[i].shifted.len() > 0 && keymap.keys[i].shifted[0] == keysym,
        forall|j: int|
            0 <= j < i && keymap.min_keycode + j >= 8 ==> !((
            #[trigger] keymap.keys[j]).shifted.len() > 0 && keymap.keys[j].shifted[0] == keysym),
        forall|j: int|
            0 <= j < keymap.keys.len() && keymap.min_keycode + j >= 8 ==> !((
            #[trigger] keymap.keys[j]).base.len() > 0 && keymap.keys[j].base[0] == keysym),
    ensures
        keymap.keystrokes().contains_key(keysym),
        keymap.keystrokes()[keysym].code == keymap.min_keycode + i - 8,
        keymap.keystrokes()[keysym].mods == 1u32 << keymap.shift_index,
        keymap.keystrokes()[keysym].mods != 0,
{
    let flags = keymap.typing_keys(true, keysym);
    assert(is_first_true(flags, i)) by {
        assert forall|j: int| 0 <= j < i implies !#[trigger] flags[j] by {
            let key = keymap.keys[j];
        }
    }
    lemma_first_true_unique(flags, i);
    let base = keymap.typing_keys(false, keysym);
    if let Some(k) = first_true(base) {
        assert(is_first_true(base, k));
        let key = keymap.keys[k];
        assert(base[k]);
    }
    let index = keymap.shift_index;
    assert((1u32 << index) != 0) by (bit_vector)
        requires
            index < 32,
    ;
}

/// Nothing else is in the table: an entry is the keystroke of a key with an evdev
/// code that has the keysym first, bare if at the base level and with Shift if at
/// the shifted one. The empty keysym is never there.
pub proof fn law_table_entries_come_from_keys(keymap: XkbModel, keysym: u32)
    requires
        keymap.min_keycode + keymap.keys.len() <= 0x1_0000_0000,
        keymap.keystrokes().contains_key(keysym),
    ensures
        keysym != 0,
        exists|i: int|
            {
                &&& 0 <= i < keymap.keys.len()
                &&& keymap.min_keycode + i >= 8
                &&& keymap.keystrokes()[keysym].code == keymap.min_keycode + i - 8
                &&& {
                    ||| keymap.keystrokes()[keysym].mods == 0 && (
                    #[trigger] keymap.keys[i]).base.len() > 0 && keymap.keys[i].base[0] == keysym
                    ||| keymap.keystrokes()[keysym].mods == 1u32 << keymap.shift_index
                        && keymap.keys[i].shifted.len() > 0 && keymap.keys[i].shifted[0] == keysym
                }
            },
{
    let base = keymap.typing_keys(false, keysym);
    let shifted = keymap.typing_keys(true, keysym);
    if let Some(i) = first_true(base) {
        assert(is_first_true(base, i));
        let key = keymap.keys[i];
        assert(base[i]);
    } else {
        let i = first_true(shifted)->0;
        assert(is_first_true(shifted, i));
        let key = keymap.keys[i];
        assert(shifted[i]);
    }
}

/// A keymap can be scanned exactly if its last keycode fits and it has a Shift
/// modifier.
pub proof fn law_scannable_keymaps(keymap: XkbModel)
    ensures
        keymap.is_scannable() <==> keymap.min_keycode + keymap.keys.len() <= 0x1_0000_0000
            && keymap.shift_index < 32,
{
}

/// The model of a keymap holds what the keymap holds.
pub proof fn law_keymap_model_is_faithful(keymap: XkbKeymap, i: int)
    requires
        0 <= i < keymap.keys@.len(),
    ensures
        keymap@.min_keycode == keymap.min_keycode,
        keymap@.shift_index == keymap.shift_index,
        keymap@.control_index == keymap.control_index,
        keymap@.keys.len() == keymap.keys@.len(),
        keymap@.keys[i].base == keymap.keys@[i].base@,
        keymap@.keys[i].shifted == keymap.keys@[i].shifted@,
{
}

} // verus!
