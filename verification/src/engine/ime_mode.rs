//! Whether the input method is on.

use vstd::prelude::*;

verus! {

/// On: kana are typed and converted. Off: keys reach the application as they are.
#[derive(Clone, Copy, Debug, PartialEq, Eq, Structural)]
pub enum ImeMode {
    On,
    Off,
}

impl Default for ImeMode {
    fn default() -> (r: Self)
        ensures
            r == ImeMode::On,
    {
        ImeMode::On
    }
}

impl ImeMode {
    /// Whether this is the mode in which kana are typed.
    pub fn is_on(self) -> (r: bool)
        ensures
            r == (self is On),
    {
        match self {
            ImeMode::On => true,
            ImeMode::Off => false,
        }
    }

    /// The mode for what the system says: open is on.
    pub fn from_open(open: bool) -> (r: Self)
        ensures
            r == (if open {
                ImeMode::On
            } else {
                ImeMode::Off
            }),
    {
        if open {
            ImeMode::On
        } else {
            ImeMode::Off
        }
    }

    /// The other mode.
    pub open spec fn other(self) -> ImeMode {
        if self is On {
            ImeMode::Off
        } else {
            ImeMode::On
        }
    }

    /// The other mode.
    pub fn toggled(self) -> (r: Self)
        ensures
            r == self.other(),
    {
        match self {
            ImeMode::On => ImeMode::Off,
            ImeMode::Off => ImeMode::On,
        }
    }

    /// The sign in the language bar and beside the caret.
    pub fn label(self) -> (r: &'static str)
        ensures
            r@ == (if self is On {
                "あ"@
            } else {
                "A"@
            }),
    {
        match self {
            ImeMode::On => "あ",
            ImeMode::Off => "A",
        }
    }

    /// The name in diagnostics.
    pub fn name(self) -> (r: &'static str)
        ensures
            r@ == (if self is On {
                "On"@
            } else {
                "Off"@
            }),
    {
        match self {
            ImeMode::On => "On",
            ImeMode::Off => "Off",
        }
    }
}

/// Toggling twice changes nothing, and toggling once always does.
pub proof fn toggle_is_an_involution(mode: ImeMode)
    ensures
        mode.other().other() == mode,
        mode.other() != mode,
{
}

} // verus!
