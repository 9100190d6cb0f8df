use vstd::prelude::*;
use crate::error::XError;
use crate::keys::KeySym;

verus! {

/// Capacity, in bytes, of the buffer that a composition lookup writes into.
pub const COMPOSE_CAPACITY: usize = 64;

/// The status code with which the locale-aware lookup says that its result
/// did not fit the buffer.
pub const X_BUFFER_OVERFLOW: i32 = -1;

/// A point on the window, in pixels.
#[derive(Debug, Clone, Copy, PartialEq, Eq, Structural)]
pub struct XPoint {
    pub x: i16,
    pub y: i16,
}

/// The window's input method and input context, each held as an opaque
/// handle, and where pre-edit text is drawn.
#[derive(Debug, Clone, Copy, PartialEq, Eq, Structural)]
pub struct InputMethodEditor {
    pub x_input_method: Option<u64>,
    pub x_input_context: Option<u64>,
    pub spot: XPoint,
    pub spotlist: Option<u64>,
}

/// Which platform lookup turns a key press into text.
#[derive(Debug, Clone, Copy, PartialEq, Eq, Structural)]
pub enum LookupStrategy {
    /// Locale-aware multi-byte composition through the input context.
    Context,
    /// Plain symbol-table lookup, when no input context is active.
    Plain,
}

impl InputMethodEditor {
    /// The locale-aware lookup when an input context is active, else the
    /// plain one.
    pub fn lookup_strategy(&self) -> (r: LookupStrategy)
        ensures
            r == (if self.x_input_context is Some {
                LookupStrategy::Context
            } else {
                LookupStrategy::Plain
            }),
    {
        match self.x_input_context {
            Some(_) => LookupStrategy::Context,
            None => LookupStrategy::Plain,
        }
    }
}

/// What a composition lookup reported, besides the bytes it wrote.
#[derive(Debug, Clone, Copy, PartialEq, Eq, Structural)]
pub struct LookupReport {
    /// The lookup said its result did not fit the buffer.
    pub overflow: bool,
    /// The key symbol it resolved.
    pub key_symbol: KeySym,
    /// The number of bytes it says it wrote.
    pub length: i32,
}

impl LookupReport {
    /// The report of a locale-aware lookup that returned `status`.
    pub fn from_context(status: i32, key_symbol: KeySym, length: i32) -> (r: LookupReport)
        ensures
            r == (LookupReport { overflow: status == X_BUFFER_OVERFLOW, key_symbol, length }),
    {
        LookupReport { overflow: status == X_BUFFER_OVERFLOW, key_symbol, length }
    }

    /// The report of a plain lookup, which has no overflow status.
    pub fn from_plain(key_symbol: KeySym, length: i32) -> (r: LookupReport)
        ensures
            r == (LookupReport { overflow: false, key_symbol, length }),
    {
        LookupReport { overflow: false, key_symbol, length }
    }
}

/// The composed text that `report` and the buffer `buf` describe: an
/// overflow status, or a length that does not leave room in the buffer, is a
/// failure and the buffer is not read.
pub open spec fn composed(report: LookupReport, buf: Seq<u8>) -> Result<Seq<u8>, XError> {
    if report.overflow {
        Err(XError::BufferOverflow)
    } else if report.length < 0 {
        Err(XError::Unknown)
    } else if report.length >= COMPOSE_CAPACITY {
        Err(XError::BufferOverflow)
    } else {
        Ok(buf.subrange(0, report.length as int))
    }
}

/// Copies out the bytes that a lookup composed into `buf`.
pub fn composed_bytes(report: &LookupReport, buf: &[u8; COMPOSE_CAPACITY]) -> (r: Result<Vec<u8>, XError>)
    ensures
        match r {
            Ok(v) => composed(*report, buf@) == Ok::<Seq<u8>, XError>(v@),
            Err(e) => composed(*report, buf@) == Err::<Seq<u8>, XError>(e),
        },
{
    if report.overflow {
        return Err(XError::BufferOverflow);
    }
    if report.length < 0 {
        return Err(XError::Unknown);
    }
    let n = report.length as usize;
    if n >= COMPOSE_CAPACITY {
        return Err(XError::BufferOverflow);
    }
    let mut out: Vec<u8> = Vec::new();
    let mut i: usize = 0;
    while i < n
        invariant
            n < COMPOSE_CAPACITY,
            buf@.len() == COMPOSE_CAPACITY,
            i <= n,
            out@ == buf@.subrange(0, i as int),
        decreases n - i,
    {
        out.push(buf[i]);
        i = i + 1;
        assert(out@ =~= buf@.subrange(0, i as int));
    }
    Ok(out)
}

} // verus!
