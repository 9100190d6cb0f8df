use vstd::prelude::*;

verus! {

/// The named display and input modes of a terminal window.
#[derive(Debug, Clone, Copy, PartialEq, Eq, Structural)]
pub enum WindowMode {
    VISIBLE,
    FOCUSED,
    APPKEYPAD,
    MOUSEBTN,
    MOUSEMOTION,
    REVERSE,
    KBDLOCK,
    HIDE,
    APPCURSOR,
    MOUSESGR,
    EIGHTBIT,
    BLINK,
    FBLINK,
    FOCUS,
    MOUSEX10,
    MOUSEMANY,
    BRCKTPASTE,
    NUMLOCK,
}

/// The bit that stands for a mode in a [`TerminalModeFlags`] set.
pub open spec fn mode_index(m: WindowMode) -> u32 {
    match m {
        WindowMode::VISIBLE => 0,
        WindowMode::FOCUSED => 1,
        WindowMode::APPKEYPAD => 2,
        WindowMode::MOUSEBTN => 3,
        WindowMode::MOUSEMOTION => 4,
        WindowMode::REVERSE => 5,
        WindowMode::KBDLOCK => 6,
        WindowMode::HIDE => 7,
        WindowMode::APPCURSOR => 8,
        WindowMode::MOUSESGR => 9,
        WindowMode::EIGHTBIT => 10,
        WindowMode::BLINK => 11,
        WindowMode::FBLINK => 12,
        WindowMode::FOCUS => 13,
        WindowMode::MOUSEX10 => 14,
        WindowMode::MOUSEMANY => 15,
        WindowMode::BRCKTPASTE => 16,
        WindowMode::NUMLOCK => 17,
    }
}

impl WindowMode {
    /// The position of this mode's bit in a mode set.
    pub fn index(&self) -> (r: u32)
        ensures
            r == mode_index(*self),
            r < 18,
    {
        match self {
            WindowMode::VISIBLE => 0,
            WindowMode::FOCUSED => 1,
            WindowMode::APPKEYPAD => 2,
            WindowMode::MOUSEBTN => 3,
            WindowMode::MOUSEMOTION => 4,
            WindowMode::REVERSE => 5,
            WindowMode::KBDLOCK => 6,
            WindowMode::HIDE => 7,
            WindowMode::APPCURSOR => 8,
            WindowMode::MOUSESGR => 9,
            WindowMode::EIGHTBIT => 10,
            WindowMode::BLINK => 11,
            WindowMode::FBLINK => 12,
            WindowMode::FOCUS => 13,
            WindowMode::MOUSEX10 => 14,
            WindowMode::MOUSEMANY => 15,
            WindowMode::BRCKTPASTE => 16,
            WindowMode::NUMLOCK => 17,
        }
    }
}

proof fn lemma_mode_index_injective(a: WindowMode, b: WindowMode)
    ensures
        mode_index(a) == mode_index(b) ==> a == b,
        mode_index(a) < 18,
{
}

proof fn lemma_bit_insert(b: u32, i: u32, j: u32)
    requires
        i < 32,
        j < 32,
    ensures
        ((b | (1u32 << i)) & (1u32 << j) != 0) == (i == j || b & (1u32 << j) != 0),
{
    assert(((b | (1u32 << i)) & (1u32 << j) != 0) == (i == j || b & (1u32 << j) != 0))
        by (bit_vector)
        requires
            i < 32,
            j < 32,
    ;
}

proof fn lemma_bit_remove(b: u32, i: u32, j: u32)
    requires
        i < 32,
        j < 32,
    ensures
        ((b & !(1u32 << i)) & (1u32 << j) != 0) == (i != j && b & (1u32 << j) != 0),
{
    assert(((b & !(1u32 << i)) & (1u32 << j) != 0) == (i != j && b & (1u32 << j) != 0))
        by (bit_vector)
        requires
            i < 32,
            j < 32,
    ;
}

proof fn lemma_bit_empty(j: u32)
    requires
        j < 32,
    ensures
        0u32 & (1u32 << j) == 0,
{
    assert(0u32 & (1u32 << j) == 0) by (bit_vector);
}

/// A set of [`WindowMode`]s: the snapshot of terminal state that each key
/// press is translated against.
#[derive(Debug, Clone, Copy, PartialEq, Eq, Structural)]
pub struct TerminalModeFlags {
    bits: u32,
}

impl TerminalModeFlags {
    /// Whether mode `m` is in the set.
    pub closed spec fn has(self, m: WindowMode) -> bool {
        self.bits & (1u32 << mode_index(m)) != 0
    }

    /// Whether the keyboard is locked.
    pub open spec fn locked(self) -> bool {
        self.has(WindowMode::KBDLOCK)
    }

    /// Whether the Meta modifier is folded into the high bit of a byte.
    pub open spec fn eight_bit(self) -> bool {
        self.has(WindowMode::EIGHTBIT)
    }

    /// The empty set.
    pub fn new() -> (r: TerminalModeFlags)
        ensures
            forall|m: WindowMode| !#[trigger] r.has(m),
    {
        proof {
            assert forall|m: WindowMode| !#[trigger] (TerminalModeFlags { bits: 0 }).has(m) by {
                lemma_mode_index_injective(m, m);
                lemma_bit_empty(mode_index(m));
            }
        }
        TerminalModeFlags { bits: 0 }
    }

    /// Whether mode `m` is in the set.
    pub fn contains(&self, m: WindowMode) -> (r: bool)
        ensures
            r == self.has(m),
    {
        let i = m.index();
        self.bits & (1u32 << i) != 0
    }

    /// Adds mode `m`; the other modes are kept as they were.
    pub fn insert(&mut self, m: WindowMode)
        ensures
            final(self).has(m),
            forall|o: WindowMode| o != m ==> (#[trigger] final(self).has(o) == old(self).has(o)),
    {
        let i = m.index();
        let ghost b = self.bits;
        self.bits = self.bits | (1u32 << i);
        proof {
            lemma_bit_insert(b, i, i);
            assert forall|o: WindowMode| o != m implies (#[trigger] self.has(o) == (TerminalModeFlags { bits: b }).has(o)) by {
                lemma_mode_index_injective(o, m);
                lemma_bit_insert(b, i, mode_index(o));
            }
        }
    }

    /// Removes mode `m`; the other modes are kept as they were.
    pub fn remove(&mut self, m: WindowMode)
        ensures
            !final(self).has(m),
            forall|o: WindowMode| o != m ==> (#[trigger] final(self).has(o) == old(self).has(o)),
    {
        let i = m.index();
        let ghost b = self.bits;
        self.bits = self.bits & !(1u32 << i);
        proof {
            lemma_bit_remove(b, i, i);
            assert forall|o: WindowMode| o != m implies (#[trigger] self.has(o) == (TerminalModeFlags { bits: b }).has(o)) by {
                lemma_mode_index_injective(o, m);
                lemma_bit_remove(b, i, mode_index(o));
            }
        }
    }

    /// Whether the keyboard is locked.
    pub fn is_locked(&self) -> (r: bool)
        ensures
            r == self.locked(),
    {
        self.contains(WindowMode::KBDLOCK)
    }

    /// Whether eight-bit input mode is on.
    pub fn eight_bit_mode(&self) -> (r: bool)
        ensures
            r == self.eight_bit(),
    {
        self.contains(WindowMode::EIGHTBIT)
    }
}

/// The terminal window's geometry and its current modes.
pub struct TermWindow {
    pub tty_width: i32,
    pub tty_height: i32,
    pub window_width: i32,
    pub window_height: i32,
    pub char_height: i32,
    pub char_width: i32,
    pub window_mode: TerminalModeFlags,
    pub cursor_style: i32,
}

} // verus!
