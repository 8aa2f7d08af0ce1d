//! Words, operand addressing and the arithmetic of the machine.

use vstd::prelude::*;

verus! {

/// Values below this are literal words; values from here on address registers.
pub const REGISTER_BASE: u16 = 32768;

/// One past the highest raw value that names a register.
pub const REGISTER_END: u16 = 32776;

/// Every word-producing arithmetic result is reduced modulo this.
pub const WORD_MODULUS: u16 = 32768;

/// A raw operand that stands for itself.
pub open spec fn is_literal(raw: u16) -> bool {
    raw < REGISTER_BASE
}

/// A raw operand that names one of the eight registers.
pub open spec fn is_register(raw: u16) -> bool {
    REGISTER_BASE <= raw < REGISTER_END
}

/// The register index a register-range operand names.
pub open spec fn register_index(raw: u16) -> int {
    raw - REGISTER_BASE
}

/// A raw operand that resolves: a literal or one of the eight registers.
pub open spec fn is_valid_operand(raw: u16) -> bool {
    raw < REGISTER_END
}

/// The value a valid raw operand resolves to against the given register file.
pub open spec fn operand_value(registers: Seq<u16>, raw: u16) -> u16 {
    if is_literal(raw) {
        raw
    } else {
        registers[register_index(raw)]
    }
}

/// The register file after writing `word` through the raw destination `raw`:
/// a literal destination discards the write.
pub open spec fn written_registers(registers: Seq<u16>, raw: u16, word: u16) -> Seq<u16> {
    if is_literal(raw) {
        registers
    } else {
        registers.update(register_index(raw), word)
    }
}

/// `add`: a wrapping 16-bit sum reduced modulo 32768.
pub open spec fn add_word(b: u16, c: u16) -> u16 {
    (b.wrapping_add(c) % WORD_MODULUS) as u16
}

/// `mult`: a wrapping 16-bit product reduced modulo 32768.
pub open spec fn mult_word(b: u16, c: u16) -> u16 {
    (b.wrapping_mul(c) % WORD_MODULUS) as u16
}

/// `mod`: the remainder, reduced modulo 32768.
pub open spec fn mod_word(b: u16, c: u16) -> u16
    recommends
        c != 0,
{
    ((b % c) % WORD_MODULUS) as u16
}

/// `not`: the complement of the low fifteen bits.
pub open spec fn not_word(b: u16) -> u16 {
    b ^ 0x7FFFu16
}

/// The wrap-then-reduce arithmetic of `add` and `mult` equals plain reduction
/// of the mathematical sum and product modulo 32768, so it always yields a
/// word in 0..32767, whatever 16-bit operands it is given.
pub proof fn lemma_arithmetic_is_reduced(b: u16, c: u16)
    ensures
        add_word(b, c) == (b + c) % 32768,
        mult_word(b, c) == (b * c) % 32768,
        add_word(b, c) < 32768,
        mult_word(b, c) < 32768,
{
    let s = b as int + c as int;
    let p = b as int * c as int;
    assert(0 <= p) by (nonlinear_arith)
        requires
            0 <= b,
            0 <= c,
            p == b * c,
    ;
    vstd::arithmetic::div_mod::lemma_mod_mod(s, 32768, 2);
    vstd::arithmetic::div_mod::lemma_mod_mod(p, 32768, 2);
    assert(b.wrapping_add(c) == s % 65536);
    assert(b.wrapping_mul(c) == p % 65536);
}

} // verus!
