use vstd::prelude::*;
use crate::compose::{composed, composed_bytes, LookupReport, COMPOSE_CAPACITY};
use crate::error::XError;
use crate::keys::{meta_held, KeyEvent};
use crate::meta::{meta_encode, meta_fold};
use crate::modes::{TermWindow, TerminalModeFlags};
use crate::shortcut::{find_shortcut, first_match, lemma_first_match_is, shortcut_matches, Shortcut};

verus! {

/// What became of a key press that was translated without failure.
#[derive(Debug, PartialEq, Eq)]
pub enum KeyOutcome {
    /// The keyboard is locked: nothing is sent and no shortcut runs.
    Discarded,
    /// The shortcut at this index of the table is to run; nothing is sent.
    Dispatched(usize),
    /// These bytes go to the terminal (possibly none).
    Emit(Vec<u8>),
}

/// The mathematical value of a [`KeyOutcome`].
pub enum Response {
    Discarded,
    Dispatched(int),
    Emit(Seq<u8>),
}

impl View for KeyOutcome {
    type V = Response;

    open spec fn view(&self) -> Response {
        match self {
            KeyOutcome::Discarded => Response::Discarded,
            KeyOutcome::Dispatched(i) => Response::Dispatched(*i as int),
            KeyOutcome::Emit(v) => Response::Emit(v@),
        }
    }
}

/// The value of a translation result.
pub open spec fn result_view(r: Result<KeyOutcome, XError>) -> Result<Response, XError> {
    match r {
        Ok(o) => Ok(o@),
        Err(e) => Err(e),
    }
}

/// What a key press with modifier mask `state` comes to, given the modes, the
/// shortcut table, what the composition lookup reported and the buffer it
/// wrote into.
///
/// A locked keyboard discards the press. An overflow status fails it. A
/// shortcut bound to the modifiers and the resolved key symbol takes it (the
/// first in table order). Otherwise the composed bytes, with the Alt/Meta
/// policy applied, are sent.
pub open spec fn translation<A>(
    modes: TerminalModeFlags,
    table: Seq<Shortcut<A>>,
    state: u32,
    report: LookupReport,
    buf: Seq<u8>,
) -> Result<Response, XError> {
    if modes.locked() {
        Ok(Response::Discarded)
    } else if report.overflow {
        Err(XError::BufferOverflow)
    } else {
        match first_match(table, state, report.key_symbol) {
            Some(i) => Ok(Response::Dispatched(i)),
            None => match composed(report, buf) {
                Ok(bytes) => Ok(Response::Emit(meta_fold(bytes, meta_held(state), modes.eight_bit()))),
                Err(e) => Err(e),
            },
        }
    }
}

/// A locked keyboard discards every key press: no bytes are sent and no
/// shortcut runs, whatever the press, the table and the lookup held.
pub proof fn lemma_locked_discards<A>(
    modes: TerminalModeFlags,
    table: Seq<Shortcut<A>>,
    state: u32,
    report: LookupReport,
    buf: Seq<u8>,
)
    requires
        modes.locked(),
    ensures
        translation(modes, table, state, report, buf) == Ok::<Response, XError>(Response::Discarded),
{
}

/// When entries `i < j` of the table both match a press and none before `i`
/// does, the shortcut at `i` is the one run, and no bytes are sent.
pub proof fn lemma_first_match_wins<A>(
    modes: TerminalModeFlags,
    table: Seq<Shortcut<A>>,
    state: u32,
    report: LookupReport,
    buf: Seq<u8>,
    i: int,
    j: int,
)
    requires
        !modes.locked(),
        !report.overflow,
        0 <= i < j < table.len(),
        shortcut_matches(table[i], state, report.key_symbol),
        shortcut_matches(table[j], state, report.key_symbol),
        forall|k: int| 0 <= k < i ==> !shortcut_matches(#[trigger] table[k], state, report.key_symbol),
    ensures
        translation(modes, table, state, report, buf) == Ok::<Response, XError>(Response::Dispatched(i)),
{
    lemma_first_match_is(table, state, report.key_symbol, i);
}

/// Without Alt/Meta the encoder hands the composed bytes back unchanged.
pub proof fn lemma_meta_fold_without_alt(bytes: Seq<u8>, eight_bit: bool)
    ensures
        meta_fold(bytes, false, eight_bit) == bytes,
{
}

/// An overflow status from the lookup fails the press with
/// `BufferOverflow`: nothing is sent.
pub proof fn lemma_overflow_fails<A>(
    modes: TerminalModeFlags,
    table: Seq<Shortcut<A>>,
    state: u32,
    report: LookupReport,
    buf: Seq<u8>,
)
    requires
        !modes.locked(),
        report.overflow,
    ensures
        translation(modes, table, state, report, buf) == Err::<Response, XError>(XError::BufferOverflow),
{
}

/// A lookup that composed nothing, with no shortcut bound to the press,
/// succeeds and sends no bytes.
pub proof fn lemma_empty_composition_sends_nothing<A>(
    modes: TerminalModeFlags,
    table: Seq<Shortcut<A>>,
    state: u32,
    report: LookupReport,
    buf: Seq<u8>,
)
    requires
        !modes.locked(),
        !report.overflow,
        report.length == 0,
        first_match(table, state, report.key_symbol) is None,
    ensures
        translation(modes, table, state, report, buf) == Ok::<Response, XError>(Response::Emit(Seq::empty())),
{
    assert(buf.subrange(0, 0) =~= Seq::<u8>::empty());
}

/// Translation depends on its inputs alone: the same press against the same
/// modes, table, lookup report and buffer gives the same result.
pub proof fn lemma_translation_is_pure<A>(
    modes1: TerminalModeFlags,
    table1: Seq<Shortcut<A>>,
    state1: u32,
    report1: LookupReport,
    buf1: Seq<u8>,
    modes2: TerminalModeFlags,
    table2: Seq<Shortcut<A>>,
    state2: u32,
    report2: LookupReport,
    buf2: Seq<u8>,
)
    requires
        modes1 == modes2,
        table1 =~= table2,
        state1 == state2,
        report1 == report2,
        buf1 =~= buf2,
    ensures
        translation(modes1, table1, state1, report1, buf1) == translation(modes2, table2, state2, report2, buf2),
{
}

/// Translates one key press.
///
/// `report` and `buf` are what the platform's composition lookup gave for
/// `event`; they are not read when the keyboard is locked.
pub fn key_press<A>(
    term_window: &TermWindow,
    shortcuts: &Vec<Shortcut<A>>,
    event: &KeyEvent,
    report: &LookupReport,
    buf: &[u8; COMPOSE_CAPACITY],
) -> (r: Result<KeyOutcome, XError>)
    ensures
        result_view(r) == translation(term_window.window_mode, shortcuts@, event.state, *report, buf@),
{
    let modes = &term_window.window_mode;
    if modes.is_locked() {
        return Ok(KeyOutcome::Discarded);
    }
    if report.overflow {
        return Err(XError::BufferOverflow);
    }
    if let Some(i) = find_shortcut(shortcuts, event.state, report.key_symbol) {
        return Ok(KeyOutcome::Dispatched(i));
    }
    match composed_bytes(report, buf) {
        Ok(bytes) => {
            let mut bytes = bytes;
            meta_encode(&mut bytes, event.alt_held(), modes.eight_bit_mode());
            Ok(KeyOutcome::Emit(bytes))
        },
        Err(e) => Err(e),
    }
}

} // verus!
