use vstd::prelude::*;

verus! {

/// The escape control byte that prefixes a Meta key in seven-bit mode.
pub const ESC: u8 = 0x1B;

/// The bit that folds Meta into a byte in eight-bit mode.
pub const META_BIT: u8 = 0x80;

/// Bytes below this value (octal 177) are seven-bit characters that can
/// carry Meta in their high bit.
pub const FOLD_LIMIT: u8 = 0o177;

/// The bytes to send once the Alt/Meta policy is applied to `bytes`.
///
/// Only a single-byte composition is rewritten: in eight-bit mode a
/// seven-bit byte gets its high bit set, otherwise the byte is prefixed with
/// ESC. Anything else passes through unchanged.
pub open spec fn meta_fold(bytes: Seq<u8>, alt_held: bool, eight_bit: bool) -> Seq<u8> {
    if alt_held && bytes.len() == 1 {
        if eight_bit {
            if bytes[0] < FOLD_LIMIT {
                seq![bytes[0] | META_BIT]
            } else {
                bytes
            }
        } else {
            seq![ESC, bytes[0]]
        }
    } else {
        bytes
    }
}

/// Whether `v` is a Unicode scalar value.
pub open spec fn is_scalar_value(v: u32) -> bool {
    v < 0xD800 || (0xE000 <= v && v < 0x110000)
}

/// Folding Meta into a seven-bit byte adds 0x80 and always yields a Unicode
/// scalar value, so the folded byte is a valid character.
pub proof fn lemma_folded_byte_is_scalar(b: u8)
    requires
        b < FOLD_LIMIT,
    ensures
        b | META_BIT == b + 0x80,
        is_scalar_value((b | META_BIT) as u32),
{
    assert(b < 0x7f ==> b | 0x80u8 == b + 0x80u8) by (bit_vector);
}

/// Applies the Alt/Meta policy to the composed bytes, in place.
pub fn meta_encode(bytes: &mut Vec<u8>, alt_held: bool, eight_bit_mode: bool)
    ensures
        final(bytes)@ == meta_fold(old(bytes)@, alt_held, eight_bit_mode),
{
    if alt_held && bytes.len() == 1 {
        let b = bytes[0];
        if eight_bit_mode {
            if b < FOLD_LIMIT {
                proof {
                    lemma_folded_byte_is_scalar(b);
                }
                bytes.set(0, b | META_BIT);
                assert(bytes@ =~= seq![b | META_BIT]);
            }
        } else {
            bytes.set(0, ESC);
            bytes.push(b);
            assert(bytes@ =~= seq![ESC, b]);
        }
    }
}

} // verus!
