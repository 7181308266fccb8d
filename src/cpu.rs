use vstd::prelude::*;
use crate::memory::Mem;
use crate::alu::{
    add16,
    add8,
    add_sp,
    alu8,
    and8,
    bit_test,
    carry_flag_op,
    cf,
    cpl,
    daa,
    dec8,
    flag_bits,
    hf,
    inc8,
    lemma_flag_bits,
    lemma_flag_masks,
    nf,
    or8,
    res_bit,
    rotate_a,
    set_bit,
    shift8,
    sign_extend,
    sub8,
    xor8,
    zf,
};
use crate::isa::{
    CpuState,
    accumulator_op,
    advance,
    af,
    after_pop,
    bc,
    branch_taken,
    cb_cycles,
    column_place,
    condition,
    cycle_row,
    cycle_table,
    de,
    exec_alu,
    exec_block0,
    exec_block3,
    exec_load,
    execute,
    execute_cb,
    hl,
    imm16,
    imm8,
    lemma_execute_keeps_flags,
    lemma_step_keeps_flags,
    opcode_cycles,
    operand,
    pair,
    popped_value,
    pushed,
    reg8,
    stack_pair,
    taken_cycles,
    with_a_f,
    with_af,
    with_bc,
    with_de,
    with_hl,
    with_operand,
    with_pair,
    with_reg8,
    with_stack_pair,
    wrap16,
};

verus! {

/// The flag byte with Z, N, H, C at bits 7..4.
fn flags_of(z: bool, n: bool, h: bool, c: bool) -> (r: u8)
    ensures
        r == flag_bits(z, n, h, c),
        zf(r) == z,
        nf(r) == n,
        hf(r) == h,
        cf(r) == c,
        r % 16 == 0,
{
    proof {
        lemma_flag_bits(z, n, h, c);
    }
    (if z { 0x80u8 } else { 0u8 }) + (if n { 0x40u8 } else { 0u8 }) + (if h { 0x20u8 } else { 0u8 }) + (
    if c { 0x10u8 } else { 0u8 })
}

/// A displacement byte sign-extended to 16 bits (two's complement).
fn sign_extended(e: u8) -> (r: u16)
    ensures
        r == wrap16(sign_extend(e)),
{
    if e < 128 {
        e as u16
    } else {
        (e as u16) + 0xFF00
    }
}

fn inc16(v: u16) -> (r: u16)
    ensures
        r == wrap16(v + 1),
{
    v.wrapping_add(1)
}

fn dec16(v: u16) -> (r: u16)
    ensures
        r == wrap16(v - 1),
{
    v.wrapping_sub(1)
}

/// The target of a relative jump by displacement `e` from `pc`.
fn jump_target(pc: u16, e: u8) -> (r: u16)
    ensures
        r == wrap16(pc + sign_extend(e)),
{
    pc.wrapping_add(sign_extended(e))
}

/// Row r of the machine-cycle table (see `cycle_row`).
fn cycle_row_of(r: u8) -> (row: u64)
    ensures
        row == cycle_row(r),
{
    if r == 0x0 {
        0x1322_1121_5222_1121
    } else if r == 0x1 {
        0x1322_1121_3222_1121
    } else if r == 0x2 {
        0x2322_1121_2222_1121
    } else if r == 0x3 {
        0x2322_3331_2222_1121
    } else if r == 0x7 {
        0x2222_2212_1111_1121
    } else if r < 0xC {
        0x1111_1121_1111_1121
    } else if r == 0xC {
        0x2334_3424_2431_3624
    } else if r == 0xD {
        0x2331_3424_2431_3124
    } else if r == 0xE {
        0x3321_1424_4141_1124
    } else {
        0x3321_1424_3241_1124
    }
}

/// 16 to the power 15 - col: the place of column `col` in a table row.
fn digit_place(col: u8) -> (r: u64)
    ensures
        r == column_place(col),
{
    match col {
        0 => 0x1000_0000_0000_0000,
        1 => 0x0100_0000_0000_0000,
        2 => 0x0010_0000_0000_0000,
        3 => 0x0001_0000_0000_0000,
        4 => 0x0000_1000_0000_0000,
        5 => 0x0000_0100_0000_0000,
        6 => 0x0000_0010_0000_0000,
        7 => 0x0000_0001_0000_0000,
        8 => 0x0000_0000_1000_0000,
        9 => 0x0000_0000_0100_0000,
        10 => 0x0000_0000_0010_0000,
        11 => 0x0000_0000_0001_0000,
        12 => 0x0000_0000_0000_1000,
        13 => 0x0000_0000_0000_0100,
        14 => 0x0000_0000_0000_0010,
        _ => 0x0000_0000_0000_0001,
    }
}

/// Machine cycles of an unprefixed opcode, branch not taken.
fn cycles_of(op: u8) -> (r: u8)
    ensures
        r == cycle_table(op),
{
    let row = cycle_row_of(op / 16);
    ((row / digit_place(op % 16)) % 16) as u8
}

/// Machine cycles of a conditional branch that is taken.
fn taken_cycles_of(op: u8) -> (r: u8)
    ensures
        r == taken_cycles(op),
{
    if op < 0x40 {
        3
    } else if op % 8 == 0 {
        5
    } else if op % 8 == 2 {
        4
    } else {
        6
    }
}

/// Machine cycles of a prefixed opcode.
fn cb_cycles_of(cb: u8) -> (r: u8)
    ensures
        r == cb_cycles(cb),
{
    if cb % 8 != 6 {
        2
    } else if cb / 64 == 1 {
        3
    } else {
        4
    }
}

/// The CPU's registers. The bus is handed to each operation that needs it.
pub struct CPU {
    reg_a: u8,
    reg_b: u8,
    reg_c: u8,
    reg_d: u8,
    reg_e: u8,
    reg_f: u8,
    reg_h: u8,
    reg_l: u8,
    sp: u16,
    pc: u16,
    halted: bool,
    ei_pending: bool,
}

impl View for CPU {
    type V = CpuState;

    closed spec fn view(&self) -> CpuState {
        CpuState {
            a: self.reg_a,
            f: self.reg_f,
            b: self.reg_b,
            c: self.reg_c,
            d: self.reg_d,
            e: self.reg_e,
            h: self.reg_h,
            l: self.reg_l,
            sp: self.sp,
            pc: self.pc,
            halted: self.halted,
            ei_pending: self.ei_pending,
        }
    }
}

impl CPU {
    /// Power-on state: every register zero.
    pub fn new() -> (r: Self)
        ensures
            r@ == (CpuState {
                a: 0,
                f: 0,
                b: 0,
                c: 0,
                d: 0,
                e: 0,
                h: 0,
                l: 0,
                sp: 0,
                pc: 0,
                halted: false,
                ei_pending: false,
            }),
            r@.wf(),
    {
        CPU {
            reg_a: 0,
            reg_b: 0,
            reg_c: 0,
            reg_d: 0,
            reg_e: 0,
            reg_f: 0,
            reg_h: 0,
            reg_l: 0,
            sp: 0,
            pc: 0,
            halted: false,
            ei_pending: false,
        }
    }

    pub fn get_af(&self) -> (r: u16)
        ensures
            r == af(self@),
    {
        (self.reg_a as u16) * 256 + (self.reg_f as u16)
    }

    /// Writes A and F; the low nibble of F is dropped.
    pub fn set_af(&mut self, val: u16)
        ensures
            final(self)@ == with_af(old(self)@, val),
            final(self)@.wf(),
    {
        self.reg_a = (val / 256) as u8;
        let low = (val % 256) as u8;
        self.reg_f = low & 0xF0;
        assert((low & 0xF0) == low / 16 * 16) by (bit_vector);
    }

    pub fn get_bc(&self) -> (r: u16)
        ensures
            r == bc(self@),
    {
        (self.reg_b as u16) * 256 + (self.reg_c as u16)
    }

    pub fn set_bc(&mut self, val: u16)
        ensures
            final(self)@ == with_bc(old(self)@, val),
    {
        self.reg_b = (val / 256) as u8;
        self.reg_c = (val % 256) as u8;
    }

    pub fn get_de(&self) -> (r: u16)
        ensures
            r == de(self@),
    {
        (self.reg_d as u16) * 256 + (self.reg_e as u16)
    }

    pub fn set_de(&mut self, val: u16)
        ensures
            final(self)@ == with_de(old(self)@, val),
    {
        self.reg_d = (val / 256) as u8;
        self.reg_e = (val % 256) as u8;
    }

    pub fn get_hl(&self) -> (r: u16)
        ensures
            r == hl(self@),
    {
        (self.reg_h as u16) * 256 + (self.reg_l as u16)
    }

    pub fn set_hl(&mut self, val: u16)
        ensures
            final(self)@ == with_hl(old(self)@, val),
    {
        self.reg_h = (val / 256) as u8;
        self.reg_l = (val % 256) as u8;
    }

    pub fn get_pc(&self) -> (r: u16)
        ensures
            r == self@.pc,
    {
        self.pc
    }

    pub fn set_pc(&mut self, val: u16)
        ensures
            final(self)@ == (CpuState { pc: val, ..old(self)@ }),
    {
        self.pc = val;
    }

    pub fn get_sp(&self) -> (r: u16)
        ensures
            r == self@.sp,
    {
        self.sp
    }

    pub fn set_sp(&mut self, val: u16)
        ensures
            final(self)@ == (CpuState { sp: val, ..old(self)@ }),
    {
        self.sp = val;
    }

    pub fn is_halted(&self) -> (r: bool)
        ensures
            r == self@.halted,
    {
        self.halted
    }

    pub fn get_zero(&self) -> (r: bool)
        ensures
            r == zf(self@.f),
    {
        proof {
            lemma_flag_masks(self.reg_f);
        }
        self.reg_f & 0x80 != 0
    }

    pub fn get_neg(&self) -> (r: bool)
        ensures
            r == nf(self@.f),
    {
        proof {
            lemma_flag_masks(self.reg_f);
        }
        self.reg_f & 0x40 != 0
    }

    pub fn get_halfcarry(&self) -> (r: bool)
        ensures
            r == hf(self@.f),
    {
        proof {
            lemma_flag_masks(self.reg_f);
        }
        self.reg_f & 0x20 != 0
    }

    pub fn get_carry(&self) -> (r: bool)
        ensures
            r == cf(self@.f),
    {
        proof {
            lemma_flag_masks(self.reg_f);
        }
        self.reg_f & 0x10 != 0
    }

    fn set_flags(&mut self, z: bool, n: bool, h: bool, c: bool)
        ensures
            final(self)@ == (CpuState { f: flag_bits(z, n, h, c), ..old(self)@ }),
            final(self)@.wf(),
    {
        self.reg_f = flags_of(z, n, h, c);
    }

    /// Register k of B C D E H L - A (k != 6).
    fn read_reg(&self, k: u8) -> (r: u8)
        requires
            k < 8,
            k != 6,
        ensures
            r == reg8(self@, k),
    {
        match k {
            0 => self.reg_b,
            1 => self.reg_c,
            2 => self.reg_d,
            3 => self.reg_e,
            4 => self.reg_h,
            5 => self.reg_l,
            _ => self.reg_a,
        }
    }

    fn write_reg(&mut self, k: u8, v: u8)
        requires
            k < 8,
            k != 6,
        ensures
            final(self)@ == with_reg8(old(self)@, k, v),
    {
        match k {
            0 => self.reg_b = v,
            1 => self.reg_c = v,
            2 => self.reg_d = v,
            3 => self.reg_e = v,
            4 => self.reg_h = v,
            5 => self.reg_l = v,
            _ => self.reg_a = v,
        }
    }

    /// Pair p of BC DE HL SP.
    fn read_pair(&self, p: u8) -> (r: u16)
        requires
            p < 4,
        ensures
            r == pair(self@, p),
    {
        match p {
            0 => self.get_bc(),
            1 => self.get_de(),
            2 => self.get_hl(),
            _ => self.sp,
        }
    }

    fn write_pair(&mut self, p: u8, v: u16)
        requires
            p < 4,
        ensures
            final(self)@ == with_pair(old(self)@, p, v),
    {
        match p {
            0 => self.set_bc(v),
            1 => self.set_de(v),
            2 => self.set_hl(v),
            _ => self.sp = v,
        }
    }

    // Arithmetic and logic on A. Each sets F as the flag table says.

    fn add(&mut self, val: u8)
        ensures
            final(self)@ == with_a_f(old(self)@, add8(old(self)@.a, val, false)),
    {
        let a = self.reg_a;
        let result = a.wrapping_add(val);
        let h = a % 16 + val % 16 > 0x0F;
        let c = (a as u16) + (val as u16) > 0xFF;
        self.set_flags(result == 0, false, h, c);
        self.reg_a = result;
    }

    fn add_carry(&mut self, val: u8)
        ensures
            final(self)@ == with_a_f(old(self)@, add8(old(self)@.a, val, cf(old(self)@.f))),
    {
        let a = self.reg_a;
        let carry: u16 = if self.get_carry() { 1 } else { 0 };
        let sum: u16 = (a as u16) + (val as u16) + carry;
        let result = (sum % 256) as u8;
        let h = (a % 16) as u16 + (val % 16) as u16 + carry > 0x0F;
        self.set_flags(result == 0, false, h, sum > 0xFF);
        self.reg_a = result;
    }

    fn sub(&mut self, val: u8)
        ensures
            final(self)@ == with_a_f(old(self)@, sub8(old(self)@.a, val, false)),
    {
        let a = self.reg_a;
        let result = a.wrapping_sub(val);
        self.set_flags(result == 0, true, a % 16 < val % 16, a < val);
        self.reg_a = result;
    }

    fn sub_carry(&mut self, val: u8)
        ensures
            final(self)@ == with_a_f(old(self)@, sub8(old(self)@.a, val, cf(old(self)@.f))),
    {
        let a = self.reg_a;
        let carry: u8 = if self.get_carry() { 1 } else { 0 };
        let result = a.wrapping_sub(val).wrapping_sub(carry);
        let h = a % 16 < val % 16 + carry;
        let c = (a as u16) < (val as u16) + (carry as u16);
        self.set_flags(result == 0, true, h, c);
        self.reg_a = result;
    }

    fn compare(&mut self, val: u8)
        ensures
            final(self)@ == (CpuState { f: sub8(old(self)@.a, val, false).1, ..old(self)@ }),
    {
        let a = self.reg_a;
        let result = a.wrapping_sub(val);
        self.set_flags(result == 0, true, a % 16 < val % 16, a < val);
    }

    fn and(&mut self, val: u8)
        ensures
            final(self)@ == with_a_f(old(self)@, and8(old(self)@.a, val)),
    {
        let result = self.reg_a & val;
        self.set_flags(result == 0, false, true, false);
        self.reg_a = result;
    }

    fn or(&mut self, val: u8)
        ensures
            final(self)@ == with_a_f(old(self)@, or8(old(self)@.a, val)),
    {
        let result = self.reg_a | val;
        self.set_flags(result == 0, false, false, false);
        self.reg_a = result;
    }

    fn xor(&mut self, val: u8)
        ensures
            final(self)@ == with_a_f(old(self)@, xor8(old(self)@.a, val)),
    {
        let result = self.reg_a ^ val;
        self.set_flags(result == 0, false, false, false);
        self.reg_a = result;
    }

    /// INC on a value; C is kept.
    fn increment(&mut self, val: u8) -> (r: u8)
        ensures
            (r, final(self)@.f) == inc8(val, cf(old(self)@.f)),
            final(self)@ == (CpuState { f: final(self)@.f, ..old(self)@ }),
    {
        let result = val.wrapping_add(1);
        let c = self.get_carry();
        self.set_flags(result == 0, false, val % 16 == 0x0F, c);
        result
    }

    /// DEC on a value; C is kept.
    fn decrement(&mut self, val: u8) -> (r: u8)
        ensures
            (r, final(self)@.f) == dec8(val, cf(old(self)@.f)),
            final(self)@ == (CpuState { f: final(self)@.f, ..old(self)@ }),
    {
        let result = val.wrapping_sub(1);
        let c = self.get_carry();
        self.set_flags(result == 0, true, val % 16 == 0, c);
        result
    }

    /// ADD HL,val; Z is kept.
    fn add16(&mut self, val: u16)
        ensures
            final(self)@ == (CpuState {
                f: add16(hl(old(self)@), val, old(self)@.f).1,
                ..with_hl(old(self)@, add16(hl(old(self)@), val, old(self)@.f).0)
            }),
    {
        let hlv = self.get_hl();
        let result = hlv.wrapping_add(val);
        let h = hlv % 0x1000 + val % 0x1000 > 0x0FFF;
        let c = (hlv as u32) + (val as u32) > 0xFFFF;
        let z = self.get_zero();
        self.set_flags(z, false, h, c);
        self.set_hl(result);
    }

    // The rotate and shift group. Each returns the new value and sets F; Z
    // tells whether the value is zero.

    /// RL: rotate left through the carry.
    fn rotate_left(&mut self, val: u8) -> (r: u8)
        ensures
            (r, final(self)@.f) == shift8(2, val, old(self)@.f),
            final(self)@ == (CpuState { f: final(self)@.f, ..old(self)@ }),
    {
        let carry: u8 = if self.get_carry() { 1 } else { 0 };
        let result = (val << 1) | carry;
        self.set_flags(result == 0, false, false, val >= 0x80);
        result
    }

    /// RR: rotate right through the carry.
    fn rotate_right(&mut self, val: u8) -> (r: u8)
        ensures
            (r, final(self)@.f) == shift8(3, val, old(self)@.f),
            final(self)@ == (CpuState { f: final(self)@.f, ..old(self)@ }),
    {
        let carry: u8 = if self.get_carry() { 0x80 } else { 0 };
        let result = (val >> 1) | carry;
        self.set_flags(result == 0, false, false, val % 2 == 1);
        result
    }

    /// RLC: rotate left, bit 7 into bit 0 and C.
    fn rotate_left_carry(&mut self, val: u8) -> (r: u8)
        ensures
            (r, final(self)@.f) == shift8(0, val, old(self)@.f),
            final(self)@ == (CpuState { f: final(self)@.f, ..old(self)@ }),
    {
        let result = (val << 1) | (val >> 7);
        self.set_flags(result == 0, false, false, val >= 0x80);
        result
    }

    /// RRC: rotate right, bit 0 into bit 7 and C.
    fn rotate_right_carry(&mut self, val: u8) -> (r: u8)
        ensures
            (r, final(self)@.f) == shift8(1, val, old(self)@.f),
            final(self)@ == (CpuState { f: final(self)@.f, ..old(self)@ }),
    {
        let result = (val >> 1) | (val << 7);
        self.set_flags(result == 0, false, false, val % 2 == 1);
        result
    }

    fn sla(&mut self, val: u8) -> (r: u8)
        ensures
            (r, final(self)@.f) == shift8(4, val, old(self)@.f),
            final(self)@ == (CpuState { f: final(self)@.f, ..old(self)@ }),
    {
        let result = val << 1;
        self.set_flags(result == 0, false, false, val >= 0x80);
        result
    }

    fn sra(&mut self, val: u8) -> (r: u8)
        ensures
            (r, final(self)@.f) == shift8(5, val, old(self)@.f),
            final(self)@ == (CpuState { f: final(self)@.f, ..old(self)@ }),
    {
        let result = (val >> 1) | (val & 0x80);
        self.set_flags(result == 0, false, false, val % 2 == 1);
        result
    }

    fn swap(&mut self, val: u8) -> (r: u8)
        ensures
            (r, final(self)@.f) == shift8(6, val, old(self)@.f),
            final(self)@ == (CpuState { f: final(self)@.f, ..old(self)@ }),
    {
        let result = (val << 4) | (val >> 4);
        self.set_flags(result == 0, false, false, false);
        result
    }

    fn srl(&mut self, val: u8) -> (r: u8)
        ensures
            (r, final(self)@.f) == shift8(7, val, old(self)@.f),
            final(self)@ == (CpuState { f: final(self)@.f, ..old(self)@ }),
    {
        let result = val >> 1;
        self.set_flags(result == 0, false, false, val % 2 == 1);
        result
    }

    /// Operation k of the rotate and shift group (see `shift8`).
    fn shift(&mut self, k: u8, val: u8) -> (r: u8)
        requires
            k < 8,
        ensures
            (r, final(self)@.f) == shift8(k, val, old(self)@.f),
            final(self)@ == (CpuState { f: final(self)@.f, ..old(self)@ }),
    {
        match k {
            0 => self.rotate_left_carry(val),
            1 => self.rotate_right_carry(val),
            2 => self.rotate_left(val),
            3 => self.rotate_right(val),
            4 => self.sla(val),
            5 => self.sra(val),
            6 => self.swap(val),
            _ => self.srl(val),
        }
    }

    /// Operation k of the ALU block (see `alu8`) with operand `val`.
    fn alu(&mut self, k: u8, val: u8)
        requires
            k < 8,
        ensures
            final(self)@ == with_a_f(old(self)@, alu8(k, old(self)@.a, val, old(self)@.f)),
    {
        match k {
            0 => self.add(val),
            1 => self.add_carry(val),
            2 => self.sub(val),
            3 => self.sub_carry(val),
            4 => self.and(val),
            5 => self.xor(val),
            6 => self.or(val),
            _ => self.compare(val),
        }
    }

    /// BIT b,val.
    fn bit(&mut self, val: u8, bit: u8)
        requires
            bit < 8,
        ensures
            final(self)@ == (CpuState { f: bit_test(bit, val, old(self)@.f), ..old(self)@ }),
    {
        let c = self.get_carry();
        self.set_flags((val >> bit) & 1 == 0, false, true, c);
    }

    /// RES b,val.
    fn res(val: u8, bit: u8) -> (r: u8)
        requires
            bit < 8,
        ensures
            r == res_bit(bit, val),
    {
        val & !(1u8 << bit)
    }

    /// SET b,val.
    fn set(val: u8, bit: u8) -> (r: u8)
        requires
            bit < 8,
        ensures
            r == set_bit(bit, val),
    {
        val | (1u8 << bit)
    }

    // Bus access.

    /// Operand slot k: B C D E H L (HL) A.
    fn read_operand(&self, k: u8, bus: &Mem) -> (r: u8)
        requires
            k < 8,
            bus@.wf(),
        ensures
            r == operand(self@, bus@, k),
    {
        if k == 6 {
            bus.read(self.get_hl() as usize)
        } else {
            self.read_reg(k)
        }
    }

    fn write_operand(&mut self, k: u8, v: u8, bus: &mut Mem)
        requires
            k < 8,
            old(bus)@.wf(),
        ensures
            (final(self)@, final(bus)@) == with_operand(old(self)@, old(bus)@, k, v),
            final(bus)@.wf(),
    {
        if k == 6 {
            bus.write(self.get_hl() as usize, v);
        } else {
            self.write_reg(k, v);
        }
    }

    /// The byte at PC; PC moves past it.
    fn fetch8(&mut self, bus: &Mem) -> (r: u8)
        requires
            bus@.wf(),
        ensures
            r == imm8(old(self)@, bus@),
            final(self)@ == advance(old(self)@, 1),
    {
        let v = bus.read(self.pc as usize);
        self.pc = self.pc.wrapping_add(1);
        v
    }

    /// The little-endian word at PC; PC moves past it.
    fn fetch16(&mut self, bus: &Mem) -> (r: u16)
        requires
            bus@.wf(),
        ensures
            r == imm16(old(self)@, bus@),
            final(self)@ == advance(old(self)@, 2),
    {
        let low = self.fetch8(bus);
        let high = self.fetch8(bus);
        (high as u16) * 256 + (low as u16)
    }

    pub fn push_stack(&mut self, val: u16, bus: &mut Mem)
        requires
            old(bus)@.wf(),
        ensures
            (final(self)@, final(bus)@) == pushed(old(self)@, old(bus)@, val),
            final(bus)@.wf(),
    {
        self.sp = self.sp.wrapping_sub(2);
        bus.write(self.sp.wrapping_add(1) as usize, (val / 256) as u8);
        bus.write(self.sp as usize, (val % 256) as u8);
    }

    pub fn pop_stack(&mut self, bus: &Mem) -> (r: u16)
        requires
            bus@.wf(),
        ensures
            r == popped_value(old(self)@, bus@),
            final(self)@ == after_pop(old(self)@),
    {
        let low = bus.read(self.sp as usize);
        let high = bus.read(self.sp.wrapping_add(1) as usize);
        self.sp = self.sp.wrapping_add(2);
        (high as u16) * 256 + (low as u16)
    }

    /// Fetches the second byte of a prefixed opcode and executes it; returns
    /// that byte.
    fn execute_cb(&mut self, bus: &mut Mem) -> (cb: u8)
        requires
            old(bus)@.wf(),
        ensures
            cb == imm8(old(self)@, old(bus)@),
            (final(self)@, final(bus)@) == execute_cb(advance(old(self)@, 1), old(bus)@, cb),
            final(bus)@.wf(),
    {
        let cb = self.fetch8(bus);
        let x = cb / 64;
        let y = (cb / 8) % 8;
        let z = cb % 8;
        let v = self.read_operand(z, bus);
        if x == 0 {
            let r = self.shift(y, v);
            self.write_operand(z, r, bus);
        } else if x == 1 {
            self.bit(v, y);
        } else if x == 2 {
            self.write_operand(z, Self::res(v, y), bus);
        } else {
            self.write_operand(z, Self::set(v, y), bus);
        }
        cb
    }

    /// Branch condition cc: NZ Z NC C.
    fn condition(&self, cc: u8) -> (r: bool)
        requires
            cc < 4,
        ensures
            r == condition(self@.f, cc),
    {
        match cc {
            0 => !self.get_zero(),
            1 => self.get_zero(),
            2 => !self.get_carry(),
            _ => self.get_carry(),
        }
    }

    /// Pair p of BC DE HL AF.
    fn read_stack_pair(&self, p: u8) -> (r: u16)
        requires
            p < 4,
        ensures
            r == stack_pair(self@, p),
    {
        if p == 3 {
            self.get_af()
        } else {
            self.read_pair(p)
        }
    }

    fn write_stack_pair(&mut self, p: u8, v: u16)
        requires
            p < 4,
        ensures
            final(self)@ == with_stack_pair(old(self)@, p, v),
    {
        if p == 3 {
            self.set_af(v);
        } else {
            self.write_pair(p, v);
        }
    }

    /// SP plus a signed displacement, with the flags of ADD SP,e; SP itself
    /// is left alone.
    fn sp_plus(&mut self, e: u8) -> (r: u16)
        ensures
            (r, final(self)@.f) == add_sp(old(self)@.sp, e),
            final(self)@ == (CpuState { f: final(self)@.f, ..old(self)@ }),
    {
        let sp = self.sp;
        let result = sp.wrapping_add(sign_extended(e));
        let h = sp % 16 + (e % 16) as u16 > 0x0F;
        let c = sp % 256 + e as u16 > 0xFF;
        self.set_flags(false, false, h, c);
        result
    }

    /// Pushes PC and jumps to `target`.
    fn call(&mut self, target: u16, bus: &mut Mem)
        requires
            old(bus)@.wf(),
        ensures
            (final(self)@, final(bus)@) == crate::isa::called(old(self)@, old(bus)@, target),
            final(bus)@.wf(),
    {
        let pc = self.pc;
        self.push_stack(pc, bus);
        self.pc = target;
    }

    /// DAA: decimal adjust of A.
    fn daa(&mut self)
        ensures
            final(self)@ == with_a_f(old(self)@, daa(old(self)@.a, old(self)@.f)),
    {
        let a = self.reg_a;
        let h = self.get_halfcarry();
        let c = self.get_carry();
        if !self.get_neg() {
            let low = h || a % 16 > 0x09;
            let high = c || a > 0x99;
            let adjust: u8 = (if low { 0x06u8 } else { 0u8 }) + (if high { 0x60u8 } else { 0u8 });
            let result = a.wrapping_add(adjust);
            self.set_flags(result == 0, false, false, high);
            self.reg_a = result;
        } else {
            let adjust: u8 = (if h { 0x06u8 } else { 0u8 }) + (if c { 0x60u8 } else { 0u8 });
            let result = a.wrapping_sub(adjust);
            self.set_flags(result == 0, true, false, c);
            self.reg_a = result;
        }
    }

    /// Column 7 of the first block: RLCA RRCA RLA RRA DAA CPL SCF CCF.
    fn accumulator_op(&mut self, y: u8)
        requires
            y < 8,
        ensures
            final(self)@ == accumulator_op(old(self)@, y),
    {
        let z = self.get_zero();
        let c = self.get_carry();
        if y < 4 {
            let a = self.reg_a;
            let r = self.shift(y, a);
            let out = self.get_carry();
            self.set_flags(false, false, false, out);
            self.reg_a = r;
            assert(final(self)@ == with_a_f(old(self)@, rotate_a(y, old(self)@.a, old(self)@.f)));
        } else if y == 4 {
            self.daa();
        } else if y == 5 {
            self.reg_a = !self.reg_a;
            self.set_flags(z, true, true, c);
            assert(final(self)@ == with_a_f(old(self)@, cpl(old(self)@.a, old(self)@.f)));
        } else {
            self.set_flags(z, false, false, if y == 7 { !c } else { true });
            assert(final(self)@.f == carry_flag_op(y == 7, old(self)@.f));
        }
    }

    /// Column 0 of the first block: NOP, LD (nn),SP, STOP, JR, JR cc.
    fn block0_column0(&mut self, op: u8, bus: &mut Mem) -> (taken: bool)
        requires
            op < 0x40,
            op % 8 == 0,
            old(bus)@.wf(),
        ensures
            (final(self)@, final(bus)@) == exec_block0(old(self)@, old(bus)@, op),
            taken == branch_taken(old(self)@, op),
            final(bus)@.wf(),
    {
        let y = op / 8;
        let mut taken = false;
        if y == 1 {
            let nn = self.fetch16(bus);
            bus.write(nn as usize, (self.sp % 256) as u8);
            bus.write(inc16(nn) as usize, (self.sp / 256) as u8);
        } else if y == 2 {
            self.pc = inc16(self.pc);
        } else if y >= 3 {
            let e = self.fetch8(bus);
            if y == 3 || self.condition(y - 4) {
                taken = y != 3;
                self.pc = jump_target(self.pc, e);
            }
        }
        taken
    }

    /// Columns 1 and 3 of the first block: LD rr,nn, ADD HL,rr, INC rr, DEC rr.
    fn block0_pairs(&mut self, op: u8, bus: &Mem)
        requires
            op < 0x40,
            op % 8 == 1 || op % 8 == 3,
            bus@.wf(),
        ensures
            (final(self)@, bus@) == exec_block0(old(self)@, bus@, op),
    {
        let y = op / 8;
        let p = y / 2;
        let v = self.read_pair(p);
        if op % 8 == 1 {
            if y % 2 == 0 {
                let nn = self.fetch16(bus);
                self.write_pair(p, nn);
            } else {
                self.add16(v);
            }
        } else if y % 2 == 0 {
            self.write_pair(p, inc16(v));
        } else {
            self.write_pair(p, dec16(v));
        }
    }

    /// Column 2 of the first block: LD between A and (BC), (DE), (HL+), (HL-).
    fn block0_indirect(&mut self, op: u8, bus: &mut Mem)
        requires
            op < 0x40,
            op % 8 == 2,
            old(bus)@.wf(),
        ensures
            (final(self)@, final(bus)@) == exec_block0(old(self)@, old(bus)@, op),
            final(bus)@.wf(),
    {
        let y = op / 8;
        let p = y / 2;
        let addr: u16 = if p == 0 {
            self.get_bc()
        } else if p == 1 {
            self.get_de()
        } else {
            self.get_hl()
        };
        if p == 2 {
            self.set_hl(inc16(addr));
        } else if p == 3 {
            self.set_hl(dec16(addr));
        }
        if y % 2 == 0 {
            bus.write(addr as usize, self.reg_a);
        } else {
            self.reg_a = bus.read(addr as usize);
        }
    }

    /// Columns 4, 5 and 6 of the first block: INC r, DEC r, LD r,n.
    fn block0_operand(&mut self, op: u8, bus: &mut Mem)
        requires
            op < 0x40,
            4 <= op % 8 <= 6,
            old(bus)@.wf(),
        ensures
            (final(self)@, final(bus)@) == exec_block0(old(self)@, old(bus)@, op),
            final(bus)@.wf(),
    {
        let y = op / 8;
        if op % 8 == 4 {
            let v = self.read_operand(y, bus);
            let r = self.increment(v);
            self.write_operand(y, r, bus);
        } else if op % 8 == 5 {
            let v = self.read_operand(y, bus);
            let r = self.decrement(v);
            self.write_operand(y, r, bus);
        } else {
            let n = self.fetch8(bus);
            self.write_operand(y, n, bus);
        }
    }

    /// Opcodes 0x00..0x3F (see `exec_block0`); returns whether a conditional
    /// branch was taken.
    fn exec_block0(&mut self, op: u8, bus: &mut Mem) -> (taken: bool)
        requires
            op < 0x40,
            old(bus)@.wf(),
        ensures
            (final(self)@, final(bus)@) == exec_block0(old(self)@, old(bus)@, op),
            taken == branch_taken(old(self)@, op),
            final(bus)@.wf(),
    {
        let z = op % 8;
        if z == 0 {
            return self.block0_column0(op, bus);
        } else if z == 1 || z == 3 {
            self.block0_pairs(op, bus);
        } else if z == 2 {
            self.block0_indirect(op, bus);
        } else if z <= 6 {
            self.block0_operand(op, bus);
        } else {
            self.accumulator_op(op / 8);
        }
        false
    }

    /// Opcodes 0x40..0x7F: LD r,r' and HALT.
    fn exec_load(&mut self, op: u8, bus: &mut Mem)
        requires
            0x40 <= op < 0x80,
            old(bus)@.wf(),
        ensures
            (final(self)@, final(bus)@) == exec_load(old(self)@, old(bus)@, op),
            final(bus)@.wf(),
    {
        if op == 0x76 {
            self.halted = true;
        } else {
            let v = self.read_operand(op % 8, bus);
            self.write_operand((op / 8) % 8, v, bus);
        }
    }

    /// Opcodes 0x80..0xBF: the ALU block.
    fn exec_alu(&mut self, op: u8, bus: &Mem)
        requires
            0x80 <= op < 0xC0,
            bus@.wf(),
        ensures
            (final(self)@, bus@) == exec_alu(old(self)@, bus@, op),
    {
        let v = self.read_operand(op % 8, bus);
        self.alu((op / 8) % 8, v);
    }

    /// Column 0 of the last block: RET cc, LDH (n),A, ADD SP,e, LDH A,(n),
    /// LD HL,SP+e.
    fn block3_column0(&mut self, op: u8, bus: &mut Mem) -> (taken: bool)
        requires
            0xC0 <= op,
            op % 8 == 0,
            old(bus)@.wf(),
        ensures
            (final(self)@, final(bus)@) == exec_block3(old(self)@, old(bus)@, op),
            taken == branch_taken(old(self)@, op),
            final(bus)@.wf(),
    {
        let y = (op / 8) % 8;
        let mut taken = false;
        if y < 4 {
            if self.condition(y) {
                taken = true;
                self.pc = self.pop_stack(bus);
            }
        } else if y == 4 {
            let n = self.fetch8(bus);
            bus.write(0xFF00 + n as usize, self.reg_a);
        } else if y == 5 {
            let e = self.fetch8(bus);
            self.sp = self.sp_plus(e);
        } else if y == 6 {
            let n = self.fetch8(bus);
            self.reg_a = bus.read(0xFF00 + n as usize);
        } else {
            let e = self.fetch8(bus);
            let r = self.sp_plus(e);
            self.set_hl(r);
        }
        taken
    }

    /// Column 1 of the last block: POP rr, RET, RETI, JP HL, LD SP,HL.
    fn block3_column1(&mut self, op: u8, bus: &mut Mem)
        requires
            0xC0 <= op,
            op % 8 == 1,
            old(bus)@.wf(),
        ensures
            (final(self)@, final(bus)@) == exec_block3(old(self)@, old(bus)@, op),
            final(bus)@.wf(),
    {
        let y = (op / 8) % 8;
        let p = y / 2;
        if y % 2 == 0 {
            let v = self.pop_stack(bus);
            self.write_stack_pair(p, v);
        } else if p == 0 {
            self.pc = self.pop_stack(bus);
        } else if p == 1 {
            self.pc = self.pop_stack(bus);
            bus.set_ime(true);
        } else if p == 2 {
            self.pc = self.get_hl();
        } else {
            self.sp = self.get_hl();
        }
    }

    /// Column 2 of the last block: JP cc,nn and the loads between A and
    /// (C) or (nn).
    fn block3_column2(&mut self, op: u8, bus: &mut Mem) -> (taken: bool)
        requires
            0xC0 <= op,
            op % 8 == 2,
            old(bus)@.wf(),
        ensures
            (final(self)@, final(bus)@) == exec_block3(old(self)@, old(bus)@, op),
            taken == branch_taken(old(self)@, op),
            final(bus)@.wf(),
    {
        let y = (op / 8) % 8;
        let mut taken = false;
        if y < 4 {
            let nn = self.fetch16(bus);
            if self.condition(y) {
                taken = true;
                self.pc = nn;
            }
        } else if y == 4 {
            bus.write(0xFF00 + self.reg_c as usize, self.reg_a);
        } else if y == 5 {
            let nn = self.fetch16(bus);
            bus.write(nn as usize, self.reg_a);
        } else if y == 6 {
            self.reg_a = bus.read(0xFF00 + self.reg_c as usize);
        } else {
            let nn = self.fetch16(bus);
            self.reg_a = bus.read(nn as usize);
        }
        taken
    }

    /// Opcodes 0xC0..0xFF but 0xCB (see `exec_block3`); returns whether a
    /// conditional branch was taken.
    fn exec_block3(&mut self, op: u8, bus: &mut Mem) -> (taken: bool)
        requires
            0xC0 <= op,
            old(bus)@.wf(),
        ensures
            (final(self)@, final(bus)@) == exec_block3(old(self)@, old(bus)@, op),
            taken == branch_taken(old(self)@, op),
            final(bus)@.wf(),
    {
        let y = (op / 8) % 8;
        let z = op % 8;
        let p = y / 2;
        let mut taken = false;
        if z == 0 {
            taken = self.block3_column0(op, bus);
        } else if z == 1 {
            self.block3_column1(op, bus);
        } else if z == 2 {
            taken = self.block3_column2(op, bus);
        } else if z == 3 {
            if y == 0 {
                self.pc = self.fetch16(bus);
            } else if y == 6 {
                self.ei_pending = false;
                bus.set_ime(false);
            } else if y == 7 {
                self.ei_pending = true;
            }
        } else if z == 4 {
            if y < 4 {
                let nn = self.fetch16(bus);
                if self.condition(y) {
                    taken = true;
                    self.call(nn, bus);
                }
            }
        } else if z == 5 {
            if y % 2 == 0 {
                let v = self.read_stack_pair(p);
                self.push_stack(v, bus);
            } else if p == 0 {
                let nn = self.fetch16(bus);
                self.call(nn, bus);
            }
        } else if z == 6 {
            let n = self.fetch8(bus);
            self.alu(y, n);
        } else {
            self.call((y as u16) * 8, bus);
        }
        taken
    }

    /// Executes opcode `op`, already fetched (PC points past it), and returns
    /// the machine cycles it takes: the standard cycle table, with the
    /// branch-taken costs of the conditional branches.
    pub fn run_opcode(&mut self, op: u8, bus: &mut Mem) -> (r: u8)
        requires
            old(bus)@.wf(),
        ensures
            (final(self)@, final(bus)@) == execute(old(self)@, old(bus)@, op),
            r == opcode_cycles(old(self)@, old(bus)@, op),
            final(bus)@.wf(),
            old(self)@.wf() ==> final(self)@.wf(),
    {
        proof {
            reveal(execute);
            if self@.wf() {
                lemma_execute_keeps_flags(self@, bus@, op);
            }
        }
        if op == 0xCB {
            let cb = self.execute_cb(bus);
            return cb_cycles_of(cb);
        }
        let taken = if op < 0x40 {
            self.exec_block0(op, bus)
        } else if op < 0x80 {
            self.exec_load(op, bus);
            false
        } else if op < 0xC0 {
            self.exec_alu(op, bus);
            false
        } else {
            self.exec_block3(op, bus)
        };
        if taken {
            taken_cycles_of(op)
        } else {
            cycles_of(op)
        }
    }

    /// One step: wakes from HALT when an enabled interrupt is requested (or
    /// idles one cycle), dispatches a pending interrupt (5 cycles), or
    /// fetches and executes the opcode at PC. Returns the machine cycles
    /// spent (see `step`).
    pub fn step(&mut self, bus: &mut Mem) -> (r: u8)
        requires
            old(bus)@.wf(),
        ensures
            (final(self)@, final(bus)@, r) == crate::isa::step(old(self)@, old(bus)@),
            final(bus)@.wf(),
            old(self)@.wf() ==> final(self)@.wf(),
    {
        proof {
            if self@.wf() {
                lemma_step_keeps_flags(self@, bus@);
            }
        }
        if self.halted {
            if !bus.interrupts().interrupt_requested() {
                return 1;
            }
            self.halted = false;
        }
        let vector = bus.check_interrupt();
        if vector != 0 {
            self.ei_pending = false;
            let pc = self.pc;
            self.push_stack(pc, bus);
            self.pc = vector;
            return 5;
        }
        let enable_after = self.ei_pending;
        let op = self.fetch8(bus);
        let cycles = self.run_opcode(op, bus);
        if enable_after && self.ei_pending {
            self.ei_pending = false;
            bus.set_ime(true);
        }
        cycles
    }
}

} // verus!
