use vstd::prelude::*;

verus! {

/// An X atom: the server's number for an interned name.
pub type Atom = u64;

/// A point in time, in seconds and nanoseconds.
#[derive(Debug, Clone, Copy, PartialEq, Eq, Structural)]
pub struct Timespec {
    pub tv_sec: i64,
    pub tv_nsec: i64,
}

/// Selection state: the target atom, the primary and clipboard selections,
/// and the times of the last two clicks.
#[derive(Debug, Clone, Copy, PartialEq, Eq, Structural)]
pub struct XSelection {
    pub x_target: Atom,
    pub primary: char,
    pub clipboard: char,
    pub time_click_1: Timespec,
    pub time_click_2: Timespec,
}

} // verus!
