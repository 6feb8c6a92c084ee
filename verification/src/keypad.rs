use vstd::prelude::*;

verus! {

/// For each of the sixteen keys, the key of a keyboard that stands for it, by
/// its USB usage number: the block `1234 / QWER / ASDF / ZXCV` laid over the
/// keypad `123C / 456D / 789E / A0BF`.
pub const KEYPAD: [i32; 16] = [
    27, 30, 31, 32,
    20, 26, 8, 4,
    22, 7, 29, 6,
    33, 21, 9, 25,
];

/// The keyboard key that stands for `key`.
pub fn keypad_scancode(key: u8) -> (code: i32)
    requires
        key < 16,
    ensures
        code == KEYPAD[key as int],
{
    KEYPAD[key as usize]
}

/// No keyboard key stands for two keys.
pub proof fn law_keypad_distinct(j: int, k: int)
    requires
        0 <= j < 16,
        0 <= k < 16,
        j != k,
    ensures
        KEYPAD[j] != KEYPAD[k],
{
}

} // verus!
