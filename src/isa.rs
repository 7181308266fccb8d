use vstd::prelude::*;
use crate::alu::{
    add16,
    add_sp,
    alu8,
    bit_test,
    carry_flag_op,
    cf,
    cpl,
    daa,
    dec8,
    inc8,
    lemma_flag_bits_low_nibble,
    lemma_flag_masks,
    res_bit,
    rotate_a,
    set_bit,
    shift8,
    sign_extend,
    zf,
};
use crate::interrupt::{InterruptHandlerThing, pending_bits, polled};
use crate::memory::{BusState, bus_read, bus_write, is_plain_ram};

verus! {

/// The CPU registers as values. `pc` points at the next byte to fetch.
/// `halted` is set by HALT; `ei_pending` records an EI whose effect on IME
/// waits for one more instruction. IME itself lives in the interrupt
/// controller.
pub struct CpuState {
    pub a: u8,
    pub f: u8,
    pub b: u8,
    pub c: u8,
    pub d: u8,
    pub e: u8,
    pub h: u8,
    pub l: u8,
    pub sp: u16,
    pub pc: u16,
    pub halted: bool,
    pub ei_pending: bool,
}

impl CpuState {
    /// The low nibble of F (F & 0x0F) is zero.
    pub open spec fn wf(self) -> bool {
        self.f % 16 == 0
    }
}

/// 16-bit wrap-around.
pub open spec fn wrap16(x: int) -> u16 {
    (x % 65536) as u16
}

pub open spec fn af(s: CpuState) -> u16 {
    (s.a * 256 + s.f) as u16
}

pub open spec fn bc(s: CpuState) -> u16 {
    (s.b * 256 + s.c) as u16
}

pub open spec fn de(s: CpuState) -> u16 {
    (s.d * 256 + s.e) as u16
}

pub open spec fn hl(s: CpuState) -> u16 {
    (s.h * 256 + s.l) as u16
}

/// AF written as a pair: F keeps only its four flag bits, its low nibble
/// being dropped.
pub open spec fn with_af(s: CpuState, v: u16) -> CpuState {
    CpuState { a: (v / 256) as u8, f: ((v % 256) / 16 * 16) as u8, ..s }
}

pub open spec fn with_bc(s: CpuState, v: u16) -> CpuState {
    CpuState { b: (v / 256) as u8, c: (v % 256) as u8, ..s }
}

pub open spec fn with_de(s: CpuState, v: u16) -> CpuState {
    CpuState { d: (v / 256) as u8, e: (v % 256) as u8, ..s }
}

pub open spec fn with_hl(s: CpuState, v: u16) -> CpuState {
    CpuState { h: (v / 256) as u8, l: (v % 256) as u8, ..s }
}

/// A and F replaced by an operation's (result, flags).
pub open spec fn with_a_f(s: CpuState, r: (u8, u8)) -> CpuState {
    CpuState { a: r.0, f: r.1, ..s }
}

/// Register k of the register-index pattern B C D E H L - A (k != 6).
pub open spec fn reg8(s: CpuState, k: u8) -> u8 {
    if k == 0 {
        s.b
    } else if k == 1 {
        s.c
    } else if k == 2 {
        s.d
    } else if k == 3 {
        s.e
    } else if k == 4 {
        s.h
    } else if k == 5 {
        s.l
    } else {
        s.a
    }
}

pub open spec fn with_reg8(s: CpuState, k: u8, v: u8) -> CpuState {
    if k == 0 {
        CpuState { b: v, ..s }
    } else if k == 1 {
        CpuState { c: v, ..s }
    } else if k == 2 {
        CpuState { d: v, ..s }
    } else if k == 3 {
        CpuState { e: v, ..s }
    } else if k == 4 {
        CpuState { h: v, ..s }
    } else if k == 5 {
        CpuState { l: v, ..s }
    } else {
        CpuState { a: v, ..s }
    }
}

/// Operand slot k: B C D E H L (HL) A, where (HL) goes through the bus.
pub open spec fn operand(s: CpuState, b: BusState, k: u8) -> u8 {
    if k == 6 {
        bus_read(b, hl(s) as int)
    } else {
        reg8(s, k)
    }
}

pub open spec fn with_operand(s: CpuState, b: BusState, k: u8, v: u8) -> (CpuState, BusState) {
    if k == 6 {
        (s, bus_write(b, hl(s) as int, v))
    } else {
        (with_reg8(s, k, v), b)
    }
}

/// Pair p of the load and arithmetic group: BC DE HL SP.
pub open spec fn pair(s: CpuState, p: u8) -> u16 {
    if p == 0 {
        bc(s)
    } else if p == 1 {
        de(s)
    } else if p == 2 {
        hl(s)
    } else {
        s.sp
    }
}

pub open spec fn with_pair(s: CpuState, p: u8, v: u16) -> CpuState {
    if p == 0 {
        with_bc(s, v)
    } else if p == 1 {
        with_de(s, v)
    } else if p == 2 {
        with_hl(s, v)
    } else {
        CpuState { sp: v, ..s }
    }
}

/// Pair p of the stack group: BC DE HL AF.
pub open spec fn stack_pair(s: CpuState, p: u8) -> u16 {
    if p == 3 {
        af(s)
    } else {
        pair(s, p)
    }
}

pub open spec fn with_stack_pair(s: CpuState, p: u8, v: u16) -> CpuState {
    if p == 3 {
        with_af(s, v)
    } else {
        with_pair(s, p, v)
    }
}

pub open spec fn advance(s: CpuState, n: int) -> CpuState {
    CpuState { pc: wrap16(s.pc + n), ..s }
}

/// The byte at PC.
pub open spec fn imm8(s: CpuState, b: BusState) -> u8 {
    bus_read(b, s.pc as int)
}

/// The little-endian word at PC.
pub open spec fn imm16(s: CpuState, b: BusState) -> u16 {
    (bus_read(b, s.pc as int) + 256 * bus_read(b, wrap16(s.pc + 1) as int)) as u16
}

/// PUSH: SP drops by 2, then the high byte goes to SP+1 and the low byte to SP.
pub open spec fn pushed(s: CpuState, b: BusState, v: u16) -> (CpuState, BusState) {
    let sp = wrap16(s.sp - 2);
    let b1 = bus_write(b, wrap16(sp + 1) as int, (v / 256) as u8);
    (CpuState { sp: sp, ..s }, bus_write(b1, sp as int, (v % 256) as u8))
}

/// The little-endian word at SP.
pub open spec fn popped_value(s: CpuState, b: BusState) -> u16 {
    (bus_read(b, s.sp as int) + 256 * bus_read(b, wrap16(s.sp + 1) as int)) as u16
}

pub open spec fn after_pop(s: CpuState) -> CpuState {
    CpuState { sp: wrap16(s.sp + 2), ..s }
}

/// Branch condition cc: NZ Z NC C.
pub open spec fn condition(f: u8, cc: u8) -> bool {
    if cc == 0 {
        !zf(f)
    } else if cc == 1 {
        zf(f)
    } else if cc == 2 {
        !cf(f)
    } else {
        cf(f)
    }
}

/// JR cc, RET cc, JP cc and CALL cc.
pub open spec fn is_conditional(op: u8) -> bool {
    ||| (0x20 <= op < 0x40 && op % 8 == 0)
    ||| (0xC0 <= op < 0xE0 && (op % 8 == 0 || op % 8 == 2 || op % 8 == 4))
}

pub open spec fn branch_taken(s: CpuState, op: u8) -> bool {
    is_conditional(op) && condition(s.f, (op / 8) % 4)
}

pub open spec fn with_ime(b: BusState, on: bool) -> BusState {
    BusState { irq: InterruptHandlerThing { ime: on, ..b.irq }, ..b }
}

/// CALL to `target` with PC at the return address.
pub open spec fn called(s: CpuState, b: BusState, target: u16) -> (CpuState, BusState) {
    let (s1, b1) = pushed(s, b, s.pc);
    (CpuState { pc: target, ..s1 }, b1)
}

/// Opcodes 0x00..0x3F, by y = op / 8 and z = op % 8.
pub open spec fn exec_block0(s: CpuState, b: BusState, op: u8) -> (CpuState, BusState) {
    let y = op / 8;
    let z = op % 8;
    let p = y / 2;
    let q = y % 2;
    if z == 0 {
        if y == 0 {
            (s, b)
        } else if y == 1 {
            let nn = imm16(s, b);
            let b1 = bus_write(b, nn as int, (s.sp % 256) as u8);
            (advance(s, 2), bus_write(b1, wrap16(nn + 1) as int, (s.sp / 256) as u8))
        } else if y == 2 {
            // STOP is a stub: its second byte is skipped.
            (advance(s, 1), b)
        } else {
            let s1 = advance(s, 1);
            if y == 3 || condition(s.f, (y - 4) as u8) {
                (CpuState { pc: wrap16(s1.pc + sign_extend(imm8(s, b))), ..s1 }, b)
            } else {
                (s1, b)
            }
        }
    } else if z == 1 {
        if q == 0 {
            (with_pair(advance(s, 2), p, imm16(s, b)), b)
        } else {
            let (r, fl) = add16(hl(s), pair(s, p), s.f);
            (CpuState { f: fl, ..with_hl(s, r) }, b)
        }
    } else if z == 2 {
        let addr = if p == 0 {
            bc(s)
        } else if p == 1 {
            de(s)
        } else {
            hl(s)
        };
        let s1 = if p == 2 {
            with_hl(s, wrap16(hl(s) + 1))
        } else if p == 3 {
            with_hl(s, wrap16(hl(s) - 1))
        } else {
            s
        };
        if q == 0 {
            (s1, bus_write(b, addr as int, s.a))
        } else {
            (CpuState { a: bus_read(b, addr as int), ..s1 }, b)
        }
    } else if z == 3 {
        if q == 0 {
            (with_pair(s, p, wrap16(pair(s, p) + 1)), b)
        } else {
            (with_pair(s, p, wrap16(pair(s, p) - 1)), b)
        }
    } else if z == 4 {
        let (r, fl) = inc8(operand(s, b, y), cf(s.f));
        with_operand(CpuState { f: fl, ..s }, b, y, r)
    } else if z == 5 {
        let (r, fl) = dec8(operand(s, b, y), cf(s.f));
        with_operand(CpuState { f: fl, ..s }, b, y, r)
    } else if z == 6 {
        with_operand(advance(s, 1), b, y, imm8(s, b))
    } else {
        (accumulator_op(s, y), b)
    }
}

/// Column 7 of the first block, by y: RLCA RRCA RLA RRA DAA CPL SCF CCF.
pub open spec fn accumulator_op(s: CpuState, y: u8) -> CpuState {
    if y < 4 {
        with_a_f(s, rotate_a(y, s.a, s.f))
    } else if y == 4 {
        with_a_f(s, daa(s.a, s.f))
    } else if y == 5 {
        with_a_f(s, cpl(s.a, s.f))
    } else {
        CpuState { f: carry_flag_op(y == 7, s.f), ..s }
    }
}

/// Opcodes 0x40..0x7F: LD r,r' and HALT (0x76).
pub open spec fn exec_load(s: CpuState, b: BusState, op: u8) -> (CpuState, BusState) {
    if op == 0x76 {
        (CpuState { halted: true, ..s }, b)
    } else {
        with_operand(s, b, (op / 8) % 8, operand(s, b, op % 8))
    }
}

/// Opcodes 0x80..0xBF: the ALU block on operand slot op % 8.
pub open spec fn exec_alu(s: CpuState, b: BusState, op: u8) -> (CpuState, BusState) {
    (with_a_f(s, alu8((op / 8) % 8, s.a, operand(s, b, op % 8), s.f)), b)
}

/// Opcodes 0xC0..0xFF other than 0xCB. The unused opcodes (D3 DB DD E3 E4
/// EB EC ED F4 FC FD) do nothing.
pub open spec fn exec_block3(s: CpuState, b: BusState, op: u8) -> (CpuState, BusState) {
    let y = (op / 8) % 8;
    let z = op % 8;
    let p = y / 2;
    let q = y % 2;
    if z == 0 {
        if y < 4 {
            if condition(s.f, y) {
                (CpuState { pc: popped_value(s, b), ..after_pop(s) }, b)
            } else {
                (s, b)
            }
        } else if y == 4 {
            (advance(s, 1), bus_write(b, 0xFF00 + imm8(s, b), s.a))
        } else if y == 5 {
            let (r, fl) = add_sp(s.sp, imm8(s, b));
            (CpuState { sp: r, f: fl, ..advance(s, 1) }, b)
        } else if y == 6 {
            (CpuState { a: bus_read(b, 0xFF00 + imm8(s, b)), ..advance(s, 1) }, b)
        } else {
            let (r, fl) = add_sp(s.sp, imm8(s, b));
            (CpuState { f: fl, ..with_hl(advance(s, 1), r) }, b)
        }
    } else if z == 1 {
        if q == 0 {
            (with_stack_pair(after_pop(s), p, popped_value(s, b)), b)
        } else if p == 0 {
            (CpuState { pc: popped_value(s, b), ..after_pop(s) }, b)
        } else if p == 1 {
            (CpuState { pc: popped_value(s, b), ..after_pop(s) }, with_ime(b, true))
        } else if p == 2 {
            (CpuState { pc: hl(s), ..s }, b)
        } else {
            (CpuState { sp: hl(s), ..s }, b)
        }
    } else if z == 2 {
        if y < 4 {
            if condition(s.f, y) {
                (CpuState { pc: imm16(s, b), ..advance(s, 2) }, b)
            } else {
                (advance(s, 2), b)
            }
        } else if y == 4 {
            (s, bus_write(b, 0xFF00 + s.c, s.a))
        } else if y == 5 {
            (advance(s, 2), bus_write(b, imm16(s, b) as int, s.a))
        } else if y == 6 {
            (CpuState { a: bus_read(b, 0xFF00 + s.c), ..s }, b)
        } else {
            (CpuState { a: bus_read(b, imm16(s, b) as int), ..advance(s, 2) }, b)
        }
    } else if z == 3 {
        if y == 0 {
            (CpuState { pc: imm16(s, b), ..s }, b)
        } else if y == 6 {
            (CpuState { ei_pending: false, ..s }, with_ime(b, false))
        } else if y == 7 {
            (CpuState { ei_pending: true, ..s }, b)
        } else {
            (s, b)
        }
    } else if z == 4 {
        if y < 4 && condition(s.f, y) {
            called(advance(s, 2), b, imm16(s, b))
        } else if y < 4 {
            (advance(s, 2), b)
        } else {
            (s, b)
        }
    } else if z == 5 {
        if q == 0 {
            pushed(s, b, stack_pair(s, p))
        } else if p == 0 {
            called(advance(s, 2), b, imm16(s, b))
        } else {
            (s, b)
        }
    } else if z == 6 {
        (with_a_f(advance(s, 1), alu8(y, s.a, imm8(s, b), s.f)), b)
    } else {
        called(s, b, (y * 8) as u16)
    }
}

/// The prefixed page, on `cb`, with PC already past it: x = cb / 64 picks
/// rotate/shift, BIT, RES or SET; y = (cb / 8) % 8 the operation or bit;
/// z = cb % 8 the operand slot.
pub open spec fn execute_cb(s: CpuState, b: BusState, cb: u8) -> (CpuState, BusState) {
    let x = cb / 64;
    let y = (cb / 8) % 8;
    let z = cb % 8;
    let v = operand(s, b, z);
    if x == 0 {
        let (r, fl) = shift8(y, v, s.f);
        with_operand(CpuState { f: fl, ..s }, b, z, r)
    } else if x == 1 {
        (CpuState { f: bit_test(y, v, s.f), ..s }, b)
    } else if x == 2 {
        with_operand(s, b, z, res_bit(y, v))
    } else {
        with_operand(s, b, z, set_bit(y, v))
    }
}

/// Opcode `op`, fetched already (PC points past it). Opaque: `reveal` it to
/// reason about particular opcodes.
#[verifier::opaque]
pub open spec fn execute(s: CpuState, b: BusState, op: u8) -> (CpuState, BusState) {
    if op == 0xCB {
        execute_cb(advance(s, 1), b, imm8(s, b))
    } else if op < 0x40 {
        exec_block0(s, b, op)
    } else if op < 0x80 {
        exec_load(s, b, op)
    } else if op < 0xC0 {
        exec_alu(s, b, op)
    } else {
        exec_block3(s, b, op)
    }
}

/// Row r (high nibble) of the machine-cycle table of the unprefixed page,
/// branches not taken; one hex digit per column, column 0 first. Unused
/// opcodes count 1, as the no-operation they are here.
pub open spec fn cycle_row(r: u8) -> u64 {
    if r == 0x0 {
        0x1322_1121_5222_1121
    } else if r == 0x1 {
        0x1322_1121_3222_1121
    } else if r == 0x2 {
        0x2322_1121_2222_1121
    } else if r == 0x3 {
        0x2322_3331_2222_1121
    } else if r == 0x7 {
        0x2222_2212_1111_1121
    } else if r < 0xC {
        0x1111_1121_1111_1121
    } else if r == 0xC {
        0x2334_3424_2431_3624
    } else if r == 0xD {
        0x2331_3424_2431_3124
    } else if r == 0xE {
        0x3321_1424_4141_1124
    } else {
        0x3321_1424_3241_1124
    }
}

/// The place value of column `col` in a row: 16 to the power 15 - col.
pub open spec fn column_place(col: u8) -> u64 {
    if col == 0 {
        0x1000_0000_0000_0000
    } else if col == 1 {
        0x0100_0000_0000_0000
    } else if col == 2 {
        0x0010_0000_0000_0000
    } else if col == 3 {
        0x0001_0000_0000_0000
    } else if col == 4 {
        0x0000_1000_0000_0000
    } else if col == 5 {
        0x0000_0100_0000_0000
    } else if col == 6 {
        0x0000_0010_0000_0000
    } else if col == 7 {
        0x0000_0001_0000_0000
    } else if col == 8 {
        0x0000_0000_1000_0000
    } else if col == 9 {
        0x0000_0000_0100_0000
    } else if col == 10 {
        0x0000_0000_0010_0000
    } else if col == 11 {
        0x0000_0000_0001_0000
    } else if col == 12 {
        0x0000_0000_0000_1000
    } else if col == 13 {
        0x0000_0000_0000_0100
    } else if col == 14 {
        0x0000_0000_0000_0010
    } else {
        0x0000_0000_0000_0001
    }
}

/// Machine cycles of `op`, branch not taken: its digit in the table.
pub open spec fn cycle_table(op: u8) -> u8 {
    ((cycle_row(op / 16) / column_place(op % 16)) % 16) as u8
}

/// Cost of a conditional branch when taken: JR 3, RET 5, JP 4, CALL 6.
pub open spec fn taken_cycles(op: u8) -> u8 {
    if op < 0x40 {
        3
    } else if op % 8 == 0 {
        5
    } else if op % 8 == 2 {
        4
    } else {
        6
    }
}

/// Cost of a prefixed opcode, prefix included: 2, or 4 with (HL), 3 for BIT b,(HL).
pub open spec fn cb_cycles(cb: u8) -> u8 {
    if cb % 8 != 6 {
        2
    } else if cb / 64 == 1 {
        3
    } else {
        4
    }
}

/// Machine cycles of opcode `op` (PC past it).
pub open spec fn opcode_cycles(s: CpuState, b: BusState, op: u8) -> u8 {
    if op == 0xCB {
        cb_cycles(imm8(s, b))
    } else if branch_taken(s, op) {
        taken_cycles(op)
    } else {
        cycle_table(op)
    }
}

/// One step: a halted CPU idles for a cycle until an enabled interrupt is
/// requested; then a pending interrupt is dispatched (PC pushed, 5 cycles),
/// or the opcode at PC is fetched and executed. An EI takes effect once the
/// instruction after it has run.
pub open spec fn step(s: CpuState, b: BusState) -> (CpuState, BusState, u8) {
    if s.halted && pending_bits(b.irq) == 0 {
        (s, b, 1)
    } else {
        let s0 = CpuState { halted: false, ..s };
        let (irq, vector) = polled(b.irq);
        if vector != 0 {
            let (s1, b1) = pushed(CpuState { ei_pending: false, ..s0 }, BusState { irq: irq, ..b }, s0.pc);
            (CpuState { pc: vector, ..s1 }, b1, 5)
        } else {
            let op = bus_read(b, s0.pc as int);
            let s1 = advance(s0, 1);
            let (s2, b2) = execute(s1, b, op);
            let cycles = opcode_cycles(s1, b, op);
            if s.ei_pending && s2.ei_pending {
                (CpuState { ei_pending: false, ..s2 }, with_ime(b2, true), cycles)
            } else {
                (s2, b2, cycles)
            }
        }
    }
}

/// Writing AF leaves F with a clear low nibble.
proof fn lemma_with_af_keeps_flags(s: CpuState, v: u16)
    ensures
        with_af(s, v).wf(),
{
    let x = (v % 256) / 16;
    assert((x * 16) % 16 == 0) by (nonlinear_arith);
}

/// Whatever opcode runs, F keeps a clear low nibble.
pub proof fn lemma_execute_keeps_flags(s: CpuState, b: BusState, op: u8)
    requires
        s.wf(),
    ensures
        execute(s, b, op).0.wf(),
        execute(s, b, op).0.f & 0x0F == 0,
{
    reveal(execute);
    lemma_flag_masks(execute(s, b, op).0.f);
    lemma_flag_bits_low_nibble();
    if op == 0xCB {
        assert(execute_cb(advance(s, 1), b, imm8(s, b)).0.wf());
    } else if op < 0x40 {
        assert(exec_block0(s, b, op).0.wf());
    } else if op < 0x80 {
        assert(exec_load(s, b, op).0.wf());
    } else if op < 0xC0 {
        assert(exec_alu(s, b, op).0.wf());
    } else {
        let y = (op / 8) % 8;
        if op % 8 == 1 && y % 2 == 0 && y / 2 == 3 {
            lemma_with_af_keeps_flags(after_pop(s), popped_value(s, b));
        }
        assert(exec_block3(s, b, op).0.wf());
    }
}

/// Whatever a step does, F keeps a clear low nibble.
pub proof fn lemma_step_keeps_flags(s: CpuState, b: BusState)
    requires
        s.wf(),
    ensures
        step(s, b).0.wf(),
        step(s, b).0.f & 0x0F == 0,
{
    lemma_flag_masks(step(s, b).0.f);
    let s0 = CpuState { halted: false, ..s };
    let op = bus_read(b, s0.pc as int);
    lemma_execute_keeps_flags(advance(s0, 1), b, op);
}

proof fn lemma_pop_af(s: CpuState, b: BusState)
    ensures
        execute(s, b, 0xF1) == (with_af(after_pop(s), popped_value(s, b)), b),
{
    reveal(execute);
}

proof fn lemma_push_af(s: CpuState, b: BusState)
    ensures
        execute(s, b, 0xF5) == pushed(s, b, af(s)),
{
    reveal(execute);
}

/// POP AF followed by PUSH AF: the F that was popped has a clear low nibble,
/// SP ends where it started, and when both stack bytes are plain memory and
/// the stacked F byte has a clear low nibble, memory holds the same bytes as
/// before.
pub proof fn lemma_pop_push_af(s: CpuState, b: BusState)
    requires
        b.wf(),
    ensures
        execute(s, b, 0xF1).0.wf(),
        ({
            let (s1, b1) = execute(s, b, 0xF1);
            execute(s1, b1, 0xF5).0.sp == s.sp
        }),
        is_plain_ram(s.sp as int) && is_plain_ram(wrap16(s.sp + 1) as int) && bus_read(b, s.sp as int)
            % 16 == 0 ==> ({
            let (s1, b1) = execute(s, b, 0xF1);
            execute(s1, b1, 0xF5).1.ram == b.ram
        }),
{
    let v = popped_value(s, b);
    lemma_pop_af(s, b);
    let s1 = with_af(after_pop(s), v);
    lemma_with_af_keeps_flags(after_pop(s), v);
    lemma_push_af(s1, b);
    let (s2, b2) = pushed(s1, b, af(s1));
    if is_plain_ram(s.sp as int) && is_plain_ram(wrap16(s.sp + 1) as int) && bus_read(b, s.sp as int)
        % 16 == 0 {
        let lo = b.ram[s.sp as int];
        let hi = b.ram[wrap16(s.sp + 1) as int];
        assert(v == lo + 256 * hi);
        assert(s1.a == hi);
        assert(s1.f == lo);
        assert(af(s1) == v);
        assert(b2.ram =~= b.ram);
    }
}

} // verus!
