use vstd::prelude::*;

verus! {

/// A resolved logical key identity, as the platform numbers it.
pub type KeySym = u64;

/// The key symbol that stands for "no symbol".
pub const NO_SYMBOL: KeySym = 0;

pub const SHIFT_MASK: u32 = 1;
pub const LOCK_MASK: u32 = 2;
pub const CONTROL_MASK: u32 = 4;
/// The Alt/Meta modifier.
pub const MOD1_MASK: u32 = 8;
pub const MOD2_MASK: u32 = 16;
pub const MOD3_MASK: u32 = 32;
pub const MOD4_MASK: u32 = 64;
pub const MOD5_MASK: u32 = 128;

/// Whether the Alt/Meta modifier is in the modifier mask `state`.
pub open spec fn meta_held(state: u32) -> bool {
    state & MOD1_MASK != 0
}

/// The parts of a platform key-press record that translation reads.
#[derive(Debug, Clone, Copy, PartialEq, Eq, Structural)]
pub struct KeyEvent {
    /// The modifier mask held at the time of the press.
    pub state: u32,
    /// The raw hardware keycode.
    pub keycode: u32,
    /// The server timestamp of the press.
    pub time: u64,
}

impl KeyEvent {
    /// Whether the Alt/Meta modifier was held.
    pub fn alt_held(&self) -> (r: bool)
        ensures
            r == meta_held(self.state),
    {
        self.state & MOD1_MASK != 0
    }
}

} // verus!
