//! The state of the sixteen keys of the keypad.

use vstd::prelude::*;
use std::collections::HashMap;

verus! {

/// Key `k` is held down: the map has it, with a value other than 0.
pub open spec fn is_pressed(keys: Map<u8, u8>, k: u8) -> bool {
    keys.contains_key(k) && keys[k] != 0
}

/// The lowest key code from `from` to `0xF` that is held down, if there is one.
pub open spec fn first_pressed_from(keys: Map<u8, u8>, from: int) -> Option<u8>
    decreases 16 - from,
{
    if from < 0 || from >= 16 {
        None
    } else if is_pressed(keys, from as u8) {
        Some(from as u8)
    } else {
        first_pressed_from(keys, from + 1)
    }
}

/// The lowest of the sixteen key codes that is held down, if there is one.
pub open spec fn first_pressed(keys: Map<u8, u8>) -> Option<u8> {
    first_pressed_from(keys, 0)
}

/// The keyboard with all of its sixteen keys released.
pub open spec fn released_keyboard() -> Map<u8, u8> {
    Map::new(|k: u8| k < 16, |k: u8| 0u8)
}

/// The sixteen keys `0x0`..`0xF`, each released.
pub fn get_keyboard_map() -> (keyboard: HashMap<u8, u8>)
    ensures
        keyboard@ == released_keyboard(),
{
    let mut keyboard: HashMap<u8, u8> = HashMap::new();
    let mut k: u8 = 0;
    while k < 16
        invariant
            k <= 16,
            keyboard@ == Map::new(|j: u8| j < k, |j: u8| 0u8),
        decreases 16 - k,
    {
        keyboard.insert(k, 0);
        k += 1;
        assert(keyboard@ =~= Map::new(|j: u8| j < k, |j: u8| 0u8));
    }
    keyboard
}

/// Whether key `key` is held down. A key that the map lacks is not.
pub fn key_down(keyboard: &HashMap<u8, u8>, key: u8) -> (down: bool)
    ensures
        down == is_pressed(keyboard@, key),
{
    match keyboard.get(&key) {
        Some(v) => *v != 0,
        None => false,
    }
}

/// Records that key `key` went down or came up.
pub fn set_key(keyboard: &mut HashMap<u8, u8>, key: u8, pressed: bool)
    ensures
        final(keyboard)@ == old(keyboard)@.insert(key, if pressed { 1u8 } else { 0u8 }),
{
    keyboard.insert(key, if pressed { 1 } else { 0 });
}

/// The lowest of the sixteen key codes that is held down, if there is one.
pub fn lowest_pressed(keyboard: &HashMap<u8, u8>) -> (found: Option<u8>)
    ensures
        found == first_pressed(keyboard@),
{
    let mut k: u8 = 0;
    while k < 16
        invariant
            k <= 16,
            first_pressed(keyboard@) == first_pressed_from(keyboard@, k as int),
        decreases 16 - k,
    {
        if key_down(keyboard, k) {
            return Some(k);
        }
        k += 1;
    }
    None
}

} // verus!
