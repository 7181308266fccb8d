use vstd::prelude::*;

verus! {

// The flag register F holds Z (bit 7), N (bit 6), H (bit 5) and C (bit 4);
// its low nibble is always zero. Each operation below yields its result and
// the new F, as the flag table of the instruction set gives them; `x % 16`
// stands for the low nibble x & 0xF.

pub open spec fn flag_bits(z: bool, n: bool, h: bool, c: bool) -> u8 {
    ((if z { 0x80int } else { 0 }) + (if n { 0x40int } else { 0 }) + (if h { 0x20int } else { 0 }) + (if c {
        0x10int
    } else {
        0
    })) as u8
}

/// Bit 7 of F.
pub open spec fn zf(f: u8) -> bool {
    (f / 0x80) % 2 == 1
}

/// Bit 6 of F.
pub open spec fn nf(f: u8) -> bool {
    (f / 0x40) % 2 == 1
}

/// Bit 5 of F.
pub open spec fn hf(f: u8) -> bool {
    (f / 0x20) % 2 == 1
}

/// Bit 4 of F.
pub open spec fn cf(f: u8) -> bool {
    (f / 0x10) % 2 == 1
}

pub open spec fn carry_in(c: bool) -> int {
    if c {
        1
    } else {
        0
    }
}

/// ADD A,v (no carry in) and ADC A,v.
pub open spec fn add8(a: u8, v: u8, cin: bool) -> (u8, u8) {
    let r = ((a + v + carry_in(cin)) % 256) as u8;
    (r, flag_bits(r == 0, false, a % 16 + v % 16 + carry_in(cin) > 0x0F, a + v + carry_in(cin) > 0xFF))
}

/// SUB A,v (no carry in) and SBC A,v; CP keeps A and takes these flags.
pub open spec fn sub8(a: u8, v: u8, cin: bool) -> (u8, u8) {
    let r = ((a - v - carry_in(cin)) % 256) as u8;
    (r, flag_bits(r == 0, true, a % 16 < v % 16 + carry_in(cin), a < v + carry_in(cin)))
}

pub open spec fn and8(a: u8, v: u8) -> (u8, u8) {
    let r = a & v;
    (r, flag_bits(r == 0, false, true, false))
}

pub open spec fn or8(a: u8, v: u8) -> (u8, u8) {
    let r = a | v;
    (r, flag_bits(r == 0, false, false, false))
}

pub open spec fn xor8(a: u8, v: u8) -> (u8, u8) {
    let r = a ^ v;
    (r, flag_bits(r == 0, false, false, false))
}

/// INC r; C is kept.
pub open spec fn inc8(v: u8, c: bool) -> (u8, u8) {
    let r = ((v + 1) % 256) as u8;
    (r, flag_bits(r == 0, false, v % 16 + 1 > 0x0F, c))
}

/// DEC r; C is kept.
pub open spec fn dec8(v: u8, c: bool) -> (u8, u8) {
    let r = ((v - 1) % 256) as u8;
    (r, flag_bits(r == 0, true, v % 16 == 0, c))
}

/// The eight operations of the ALU block, by index: ADD ADC SUB SBC AND XOR
/// OR CP. `f` is the flag register before.
pub open spec fn alu8(k: u8, a: u8, v: u8, f: u8) -> (u8, u8) {
    if k == 0 {
        add8(a, v, false)
    } else if k == 1 {
        add8(a, v, cf(f))
    } else if k == 2 {
        sub8(a, v, false)
    } else if k == 3 {
        sub8(a, v, cf(f))
    } else if k == 4 {
        and8(a, v)
    } else if k == 5 {
        xor8(a, v)
    } else if k == 6 {
        or8(a, v)
    } else {
        (a, sub8(a, v, false).1)
    }
}

/// ADD HL,rr; Z is kept.
pub open spec fn add16(hl: u16, rr: u16, f: u8) -> (u16, u8) {
    let r = ((hl + rr) % 65536) as u16;
    (r, flag_bits(zf(f), false, hl % 0x1000 + rr % 0x1000 > 0x0FFF, hl + rr > 0xFFFF))
}

/// The signed value of a displacement byte.
pub open spec fn sign_extend(e: u8) -> int {
    if e < 128 {
        e as int
    } else {
        e - 256
    }
}

/// ADD SP,e and LD HL,SP+e: SP plus the signed byte, flags from the low byte.
pub open spec fn add_sp(sp: u16, e: u8) -> (u16, u8) {
    let r = ((sp + sign_extend(e)) % 65536) as u16;
    (r, flag_bits(false, false, sp % 16 + e % 16 > 0x0F, sp % 256 + e > 0xFF))
}

/// Decimal adjust of A after an addition (N clear) or a subtraction (N set).
pub open spec fn daa(a: u8, f: u8) -> (u8, u8) {
    if !nf(f) {
        let low = hf(f) || a % 16 > 0x09;
        let high = cf(f) || a > 0x99;
        let adjust = (if low { 0x06int } else { 0 }) + (if high { 0x60int } else { 0 });
        let r = ((a + adjust) % 256) as u8;
        (r, flag_bits(r == 0, false, false, high))
    } else {
        let adjust = (if hf(f) { 0x06int } else { 0 }) + (if cf(f) { 0x60int } else { 0 });
        let r = ((a - adjust) % 256) as u8;
        (r, flag_bits(r == 0, true, false, cf(f)))
    }
}

/// CPL: A complemented; N and H set.
pub open spec fn cpl(a: u8, f: u8) -> (u8, u8) {
    (!a, flag_bits(zf(f), true, true, cf(f)))
}

/// SCF and CCF: C set, or toggled; N and H cleared.
pub open spec fn carry_flag_op(toggle: bool, f: u8) -> u8 {
    flag_bits(zf(f), false, false, if toggle { !cf(f) } else { true })
}

/// RLC: rotate left; bit 7 re-enters at bit 0.
pub open spec fn rlc(v: u8) -> u8 {
    (v << 1) | (v >> 7)
}

/// RRC: rotate right; bit 0 re-enters at bit 7.
pub open spec fn rrc(v: u8) -> u8 {
    (v >> 1) | (v << 7)
}

/// RL: nine-bit rotate left through the carry.
pub open spec fn rl(v: u8, c: bool) -> u8 {
    (v << 1) | (if c { 1u8 } else { 0u8 })
}

/// RR: nine-bit rotate right through the carry.
pub open spec fn rr(v: u8, c: bool) -> u8 {
    (v >> 1) | (if c { 0x80u8 } else { 0u8 })
}

pub open spec fn sla(v: u8) -> u8 {
    v << 1
}

/// SRA: bit 7 is kept.
pub open spec fn sra(v: u8) -> u8 {
    (v >> 1) | (v & 0x80)
}

pub open spec fn srl(v: u8) -> u8 {
    v >> 1
}

pub open spec fn swap(v: u8) -> u8 {
    (v << 4) | (v >> 4)
}

/// The rotate and shift group of the prefixed page, by index: RLC RRC RL RR
/// SLA SRA SWAP SRL. The carry is the bit shifted out.
pub open spec fn shift8(k: u8, v: u8, f: u8) -> (u8, u8) {
    let (r, c) = if k == 0 {
        (rlc(v), v >= 0x80)
    } else if k == 1 {
        (rrc(v), v % 2 == 1)
    } else if k == 2 {
        (rl(v, cf(f)), v >= 0x80)
    } else if k == 3 {
        (rr(v, cf(f)), v % 2 == 1)
    } else if k == 4 {
        (sla(v), v >= 0x80)
    } else if k == 5 {
        (sra(v), v % 2 == 1)
    } else if k == 6 {
        (swap(v), false)
    } else {
        (srl(v), v % 2 == 1)
    };
    (r, flag_bits(r == 0, false, false, c))
}

/// RLCA RRCA RLA RRA (k = 0..3): as the prefixed rotates, with Z cleared.
pub open spec fn rotate_a(k: u8, a: u8, f: u8) -> (u8, u8) {
    let (r, fl) = shift8(k, a, f);
    (r, flag_bits(false, false, false, cf(fl)))
}

/// BIT b,v: Z tells whether bit b is clear; H set; C kept.
pub open spec fn bit_test(b: u8, v: u8, f: u8) -> u8 {
    flag_bits((v >> b) & 1 == 0, false, true, cf(f))
}

pub open spec fn res_bit(b: u8, v: u8) -> u8 {
    v & !(1u8 << b)
}

pub open spec fn set_bit(b: u8, v: u8) -> u8 {
    v | (1u8 << b)
}

/// The flag byte has the four flags where they belong and a clear low nibble.
pub proof fn lemma_flag_bits(z: bool, n: bool, h: bool, c: bool)
    ensures
        zf(flag_bits(z, n, h, c)) == z,
        nf(flag_bits(z, n, h, c)) == n,
        hf(flag_bits(z, n, h, c)) == h,
        cf(flag_bits(z, n, h, c)) == c,
        flag_bits(z, n, h, c) % 16 == 0,
{
}

/// The bit masks that read the flags agree with `zf`, `nf`, `hf`, `cf`;
/// masking with 0xF0 clears the low nibble.
pub proof fn lemma_flag_masks(f: u8)
    ensures
        (f & 0x80 != 0) == zf(f),
        (f & 0x40 != 0) == nf(f),
        (f & 0x20 != 0) == hf(f),
        (f & 0x10 != 0) == cf(f),
        (f & 0xF0) % 16 == 0,
        (f & 0x0F == 0) == (f % 16 == 0),
        f % 16 == 0 ==> f & 0xF0 == f,
{
    assert((f & 0x80 != 0) == ((f / 0x80) % 2 == 1)) by (bit_vector);
    assert((f & 0x40 != 0) == ((f / 0x40) % 2 == 1)) by (bit_vector);
    assert((f & 0x20 != 0) == ((f / 0x20) % 2 == 1)) by (bit_vector);
    assert((f & 0x10 != 0) == ((f / 0x10) % 2 == 1)) by (bit_vector);
    assert((f & 0xF0) % 16 == 0) by (bit_vector);
    assert((f & 0x0F == 0) == (f % 16 == 0)) by (bit_vector);
    assert(f % 16 == 0 ==> f & 0xF0 == f) by (bit_vector);
}

/// No flag byte has a bit in the low nibble.
pub proof fn lemma_flag_bits_low_nibble()
    ensures
        forall|z: bool, n: bool, h: bool, c: bool| #[trigger] flag_bits(z, n, h, c) % 16 == 0,
{
    assert forall|z: bool, n: bool, h: bool, c: bool| #[trigger] flag_bits(z, n, h, c) % 16 == 0 by {
        lemma_flag_bits(z, n, h, c);
    }
}

/// ADD A,v followed by SUB A,v gives A back, and the SUB leaves Z set
/// exactly when A was zero.
pub proof fn lemma_add_then_sub(a: u8, v: u8)
    ensures
        sub8(add8(a, v, false).0, v, false).0 == a,
        zf(sub8(add8(a, v, false).0, v, false).1) == (a == 0),
{
    let r1 = add8(a, v, false).0;
    let (r2, f2) = sub8(r1, v, false);
    assert(r2 == a);
    lemma_flag_bits(r2 == 0, true, r1 % 16 < v % 16, r1 < v);
}

/// RLC undoes RRC, and SWAP is its own inverse.
pub proof fn lemma_rotate_laws(v: u8)
    ensures
        rlc(rrc(v)) == v,
        swap(swap(v)) == v,
{
    assert(((((v >> 1) | (v << 7)) << 1) | (((v >> 1) | (v << 7)) >> 7)) == v) by (bit_vector);
    assert(((((v << 4) | (v >> 4)) << 4) | (((v << 4) | (v >> 4)) >> 4)) == v) by (bit_vector);
}

} // verus!
