//! The command state machine: which simulation mode is active, how keyboard
//! input changes it, and how the active mode is encoded for the GPU.

use vstd::prelude::*;

verus! {

/// The active simulation mode, read every frame to fill the command uniform.
#[derive(Copy, Clone, Debug, PartialEq, Eq, Structural)]
pub enum Command {
    /// Particles steer toward the cursor.
    Roam,
    /// Particles receive bounded random positional offsets.
    Shuffle,
}

impl Command {
    /// The numeric encoding carried to the shader: 0 for Roam, 1 for Shuffle.
    pub open spec fn encoding(self) -> u32 {
        match self {
            Command::Roam => 0,
            Command::Shuffle => 1,
        }
    }
}

/// The per-frame uniform value holding the numeric encoding of the mode.
#[derive(Copy, Clone, Debug, PartialEq, Eq, Structural)]
pub struct CommandUniform {
    pub command: u32,
}

impl CommandUniform {
    pub fn from_command(command: Command) -> (r: Self)
        ensures
            r.command == command.encoding(),
    {
        let val: u32 = match command {
            Command::Roam => 0,
            Command::Shuffle => 1,
        };

        Self { command: val }
    }
}

/// ASCII code of the key that forces Roam ("r").
pub const KEY_ROAM: u8 = 114;

/// ASCII code of the key that forces Shuffle ("s").
pub const KEY_SHUFFLE: u8 = 115;

/// A keyboard event as the host hands it in: whether the key went down,
/// whether the event is synthetic or an auto-repeat, and the UTF-8 text of
/// the logical key for character keys (`None` for non-character keys).
pub struct KeyPress {
    pub pressed: bool,
    pub synthetic: bool,
    pub repeat: bool,
    pub text: Option<Vec<u8>>,
}

impl KeyPress {
    /// A genuine, first press of the single-character key `c`.
    pub open spec fn is_press_of(self, c: u8) -> bool {
        &&& self.pressed
        &&& !self.synthetic
        &&& !self.repeat
        &&& self.text is Some
        &&& self.text->Some_0@ == seq![c]
    }
}

/// The transition function of the command state machine: a genuine press of
/// "r" forces Roam, a genuine press of "s" forces Shuffle, and every other
/// event leaves the mode unchanged.
pub open spec fn next_command(current: Command, key: KeyPress) -> Command {
    if key.is_press_of(KEY_ROAM) {
        Command::Roam
    } else if key.is_press_of(KEY_SHUFFLE) {
        Command::Shuffle
    } else {
        current
    }
}

/// Applies one keyboard event to the current mode.
pub fn apply_key(current: Command, key: &KeyPress) -> (r: Command)
    ensures
        r == next_command(current, *key),
{
    if key.pressed && !key.synthetic && !key.repeat {
        match &key.text {
            Some(t) => {
                if t.len() == 1 {
                    let b = t[0];
                    proof {
                        assert(key.text->Some_0@ =~= seq![b]);
                    }
                    if b == KEY_ROAM {
                        Command::Roam
                    } else if b == KEY_SHUFFLE {
                        Command::Shuffle
                    } else {
                        current
                    }
                } else {
                    proof {
                        assert(!key.is_press_of(KEY_ROAM));
                        assert(!key.is_press_of(KEY_SHUFFLE));
                    }
                    current
                }
            },
            None => current,
        }
    } else {
        current
    }
}

/// The command machine's laws: the designated keys force their mode from any
/// state, and synthetic, repeated, or released events never change the state.
pub proof fn lemma_command_transitions(c: Command, k: KeyPress)
    ensures
        k.is_press_of(KEY_SHUFFLE) ==> next_command(c, k) == Command::Shuffle,
        k.is_press_of(KEY_ROAM) ==> next_command(c, k) == Command::Roam,
        !k.pressed || k.synthetic || k.repeat ==> next_command(c, k) == c,
{
    assert(seq![KEY_ROAM][0] == KEY_ROAM);
    assert(seq![KEY_SHUFFLE][0] == KEY_SHUFFLE);
}

} // verus!
