use xkey::compose::{composed_bytes, COMPOSE_CAPACITY, X_BUFFER_OVERFLOW};
use xkey::keys::{CONTROL_MASK, MOD1_MASK, SHIFT_MASK};
use xkey::meta::meta_encode;
use xkey::{
    find_shortcut, key_press, InputMethodEditor, KeyEvent, KeyOutcome, LookupReport,
    LookupStrategy, Shortcut, TermWindow, TerminalModeFlags, WindowMode, XError, XPoint,
};

fn window(modes: &[WindowMode]) -> TermWindow {
    let mut flags = TerminalModeFlags::new();
    for m in modes {
        flags.insert(*m);
    }
    TermWindow {
        tty_width: 80,
        tty_height: 24,
        window_width: 640,
        window_height: 480,
        char_height: 20,
        char_width: 8,
        window_mode: flags,
        cursor_style: 0,
    }
}

fn event(state: u32) -> KeyEvent {
    KeyEvent { state, keycode: 38, time: 1000 }
}

fn buffer(bytes: &[u8]) -> [u8; COMPOSE_CAPACITY] {
    let mut buf = [0u8; COMPOSE_CAPACITY];
    buf[..bytes.len()].copy_from_slice(bytes);
    buf
}

fn shortcut(modifiers: usize, key_symbol: u64, action: &'static str) -> Shortcut<&'static str> {
    Shortcut { modifiers, key_symbol, action }
}

const XK_A: u64 = 0x41;
const XK_PRIOR: u64 = 0xff55;

#[test]
fn locked_keyboard_discards_everything() {
    let w = window(&[WindowMode::KBDLOCK, WindowMode::FOCUSED]);
    let table = vec![shortcut(0, XK_A, "copy")];
    let buf = buffer(b"a");
    let report = LookupReport::from_plain(XK_A, 1);
    assert_eq!(key_press(&w, &table, &event(0), &report, &buf), Ok(KeyOutcome::Discarded));
    let overflow = LookupReport::from_context(X_BUFFER_OVERFLOW, XK_A, 70);
    assert_eq!(key_press(&w, &table, &event(MOD1_MASK), &overflow, &buf), Ok(KeyOutcome::Discarded));
}

#[test]
fn first_matching_shortcut_wins() {
    let w = window(&[]);
    let table = vec![
        shortcut(SHIFT_MASK as usize, XK_A, "other"),
        shortcut(CONTROL_MASK as usize, XK_PRIOR, "zoom"),
        shortcut(CONTROL_MASK as usize, XK_PRIOR, "paste"),
    ];
    let buf = buffer(b"");
    let report = LookupReport::from_context(3, XK_PRIOR, 0);
    let r = key_press(&w, &table, &event(CONTROL_MASK), &report, &buf);
    assert_eq!(r, Ok(KeyOutcome::Dispatched(1)));
    assert_eq!(table[1].action, "zoom");
}

#[test]
fn shortcut_needs_exact_modifiers_and_symbol() {
    let table = vec![shortcut(CONTROL_MASK as usize, XK_PRIOR, "zoom")];
    assert_eq!(find_shortcut(&table, CONTROL_MASK | SHIFT_MASK, XK_PRIOR), None);
    assert_eq!(find_shortcut(&table, CONTROL_MASK, XK_A), None);
    assert_eq!(find_shortcut(&table, CONTROL_MASK, XK_PRIOR), Some(0));
    let empty: Vec<Shortcut<&'static str>> = Vec::new();
    assert_eq!(find_shortcut(&empty, 0, XK_A), None);
}

#[test]
fn meta_in_eight_bit_mode_sets_high_bit() {
    let mut bytes = vec![0x41u8];
    meta_encode(&mut bytes, true, true);
    assert_eq!(bytes, vec![0xC1u8]);

    let w = window(&[WindowMode::EIGHTBIT]);
    let table: Vec<Shortcut<&'static str>> = Vec::new();
    let r = key_press(&w, &table, &event(MOD1_MASK), &LookupReport::from_plain(XK_A, 1), &buffer(&[0x41]));
    assert_eq!(r, Ok(KeyOutcome::Emit(vec![0xC1])));
}

#[test]
fn meta_in_eight_bit_mode_keeps_del_and_high_bytes() {
    let mut del = vec![0x7Fu8];
    meta_encode(&mut del, true, true);
    assert_eq!(del, vec![0x7Fu8]);
    let mut high = vec![0xE9u8];
    meta_encode(&mut high, true, true);
    assert_eq!(high, vec![0xE9u8]);
}

#[test]
fn meta_in_seven_bit_mode_prefixes_escape() {
    let mut bytes = vec![0x41u8];
    meta_encode(&mut bytes, true, false);
    assert_eq!(bytes, vec![0x1Bu8, 0x41]);

    let w = window(&[]);
    let table: Vec<Shortcut<&'static str>> = Vec::new();
    let r = key_press(&w, &table, &event(MOD1_MASK), &LookupReport::from_plain(XK_A, 1), &buffer(&[0x41]));
    assert_eq!(r, Ok(KeyOutcome::Emit(vec![0x1B, 0x41])));
}

#[test]
fn without_alt_composition_passes_unchanged() {
    for eight_bit in [false, true] {
        let mut one = vec![0x41u8];
        meta_encode(&mut one, false, eight_bit);
        assert_eq!(one, vec![0x41u8]);
    }
    let w = window(&[WindowMode::EIGHTBIT]);
    let table: Vec<Shortcut<&'static str>> = Vec::new();
    let r = key_press(&w, &table, &event(SHIFT_MASK), &LookupReport::from_plain(XK_A, 1), &buffer(b"A"));
    assert_eq!(r, Ok(KeyOutcome::Emit(vec![0x41])));
}

#[test]
fn multi_byte_composition_ignores_meta() {
    let w = window(&[]);
    let table: Vec<Shortcut<&'static str>> = Vec::new();
    let report = LookupReport::from_context(2, 0, 2);
    let r = key_press(&w, &table, &event(MOD1_MASK), &report, &buffer("é".as_bytes()));
    assert_eq!(r, Ok(KeyOutcome::Emit(vec![0xC3, 0xA9])));
}

#[test]
fn overflow_status_fails_without_output() {
    let w = window(&[]);
    let table = vec![shortcut(0, XK_A, "copy")];
    let report = LookupReport::from_context(X_BUFFER_OVERFLOW, XK_A, 0);
    let r = key_press(&w, &table, &event(0), &report, &buffer(b""));
    assert_eq!(r, Err(XError::BufferOverflow));
}

#[test]
fn length_at_capacity_is_overflow() {
    let report = LookupReport::from_plain(XK_A, COMPOSE_CAPACITY as i32);
    assert_eq!(composed_bytes(&report, &buffer(b"")), Err(XError::BufferOverflow));
    let report = LookupReport::from_plain(XK_A, (COMPOSE_CAPACITY - 1) as i32);
    assert_eq!(composed_bytes(&report, &[7u8; COMPOSE_CAPACITY]), Ok(vec![7u8; COMPOSE_CAPACITY - 1]));
}

#[test]
fn negative_length_is_unknown_error() {
    let w = window(&[]);
    let table: Vec<Shortcut<&'static str>> = Vec::new();
    let r = key_press(&w, &table, &event(0), &LookupReport::from_plain(XK_A, -1), &buffer(b"a"));
    assert_eq!(r, Err(XError::Unknown));
}

#[test]
fn empty_composition_emits_nothing() {
    let w = window(&[]);
    let table = vec![shortcut(CONTROL_MASK as usize, XK_PRIOR, "zoom")];
    let report = LookupReport::from_plain(0xffe9, 0);
    let r = key_press(&w, &table, &event(MOD1_MASK), &report, &buffer(b""));
    assert_eq!(r, Ok(KeyOutcome::Emit(Vec::new())));
}

#[test]
fn translation_is_repeatable() {
    let w = window(&[WindowMode::EIGHTBIT]);
    let table = vec![shortcut(CONTROL_MASK as usize, XK_PRIOR, "zoom")];
    let report = LookupReport::from_plain(XK_A, 1);
    let buf = buffer(b"a");
    let first = key_press(&w, &table, &event(MOD1_MASK), &report, &buf);
    let second = key_press(&w, &table, &event(MOD1_MASK), &report, &buf);
    assert_eq!(first, second);
    assert_eq!(first, Ok(KeyOutcome::Emit(vec![0xE1])));
}

#[test]
fn lookup_strategy_follows_input_context() {
    let mut ime = InputMethodEditor {
        x_input_method: Some(1),
        x_input_context: None,
        spot: XPoint { x: 0, y: 0 },
        spotlist: None,
    };
    assert_eq!(ime.lookup_strategy(), LookupStrategy::Plain);
    ime.x_input_context = Some(2);
    assert_eq!(ime.lookup_strategy(), LookupStrategy::Context);
}

#[test]
fn context_report_flags_overflow_status_only() {
    let r = LookupReport::from_context(X_BUFFER_OVERFLOW, 5, 9);
    assert!(r.overflow);
    assert_eq!((r.key_symbol, r.length), (5, 9));
    assert!(!LookupReport::from_context(4, 5, 9).overflow);
    assert!(!LookupReport::from_plain(5, 9).overflow);
}

#[test]
fn mode_flags_insert_and_remove() {
    let mut f = TerminalModeFlags::new();
    assert!(!f.is_locked());
    assert!(!f.eight_bit_mode());
    f.insert(WindowMode::KBDLOCK);
    f.insert(WindowMode::EIGHTBIT);
    f.insert(WindowMode::NUMLOCK);
    assert!(f.is_locked());
    assert!(f.eight_bit_mode());
    f.remove(WindowMode::KBDLOCK);
    assert!(!f.is_locked());
    assert!(f.contains(WindowMode::EIGHTBIT));
    assert!(f.contains(WindowMode::NUMLOCK));
    assert!(!f.contains(WindowMode::VISIBLE));
    assert_eq!(WindowMode::NUMLOCK.index(), 17);
}

#[test]
fn error_messages() {
    assert_eq!(XError::BufferOverflow.message(), "Buffer overflow occurred");
    assert_eq!(XError::Unknown.message(), "An unknown error occurred");
}
