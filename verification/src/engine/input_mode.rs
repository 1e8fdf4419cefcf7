//! The input mode of the text service.

use vstd::prelude::*;

verus! {

/// What typed letters become.
#[derive(Clone, Copy, Debug, PartialEq, Eq, Structural)]
pub enum InputMode {
    Hiragana,
    Katakana,
    Alphanumeric,
}

/// The number under which the hot path keeps a mode.
pub open spec fn mode_code(mode: InputMode) -> u8 {
    match mode {
        InputMode::Hiragana => 0,
        InputMode::Katakana => 1,
        InputMode::Alphanumeric => 2,
    }
}

/// The mode kept under a number; numbers that stand for none read as hiragana.
pub open spec fn mode_of_code(code: u8) -> InputMode {
    if code == 1 {
        InputMode::Katakana
    } else if code == 2 {
        InputMode::Alphanumeric
    } else {
        InputMode::Hiragana
    }
}

/// The number to keep for `mode`.
pub fn input_mode_set_atomic(mode: InputMode) -> (code: u8)
    ensures
        code == mode_code(mode),
{
    match mode {
        InputMode::Hiragana => 0,
        InputMode::Katakana => 1,
        InputMode::Alphanumeric => 2,
    }
}

/// The mode that was kept as `code`.
pub fn input_mode_get_atomic(code: u8) -> (mode: InputMode)
    ensures
        mode == mode_of_code(code),
{
    match code {
        1 => InputMode::Katakana,
        2 => InputMode::Alphanumeric,
        _ => InputMode::Hiragana,
    }
}

/// A mode is read back as it was kept.
pub proof fn kept_mode_is_read_back(mode: InputMode)
    ensures
        mode_of_code(mode_code(mode)) == mode,
{
}

} // verus!
