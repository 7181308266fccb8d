use sastaboy::cpu::CPU;
use sastaboy::memory::Mem;

fn run(cpu: &mut CPU, mem: &mut Mem, bytes: &[u8]) -> u32 {
    let start = cpu.get_pc() as usize;
    for (i, b) in bytes.iter().enumerate() {
        mem.write(start + i, *b);
    }
    let end = start + bytes.len();
    let mut cycles: u32 = 0;
    while (cpu.get_pc() as usize) < end {
        cycles += cpu.step(mem) as u32;
    }
    cycles
}

fn fresh() -> (CPU, Mem) {
    let mut cpu = CPU::new();
    cpu.set_pc(0x0100);
    cpu.set_sp(0xDFF0);
    (cpu, Mem::new())
}

#[test]
fn af_writes_mask_the_low_nibble() {
    let mut cpu = CPU::new();
    cpu.set_af(0x12FF);
    assert_eq!(cpu.get_af(), 0x12F0);
    let mut mem = Mem::new();
    cpu.set_pc(0x0100);
    cpu.set_sp(0xC000);
    mem.write(0xC000, 0xFF);
    mem.write(0xC001, 0x34);
    run(&mut cpu, &mut mem, &[0xF1]);
    assert_eq!(cpu.get_af(), 0x34F0);
}

#[test]
fn flag_table_adc_and_sbc() {
    let (mut cpu, mut mem) = fresh();
    cpu.set_af(0x0F10);
    cpu.set_bc(0x0000);
    run(&mut cpu, &mut mem, &[0x88]);
    assert_eq!(cpu.get_af(), 0x1020);
    let (mut cpu, mut mem) = fresh();
    cpu.set_af(0x1010);
    cpu.set_bc(0x0F00);
    run(&mut cpu, &mut mem, &[0x98]);
    assert_eq!(cpu.get_af(), 0x0060 | 0x80);
}

#[test]
fn flag_table_logic() {
    let (mut cpu, mut mem) = fresh();
    cpu.set_af(0xF0F0);
    run(&mut cpu, &mut mem, &[0xE6, 0x0F]);
    assert_eq!(cpu.get_af(), 0x00A0);
    let (mut cpu, mut mem) = fresh();
    cpu.set_af(0xF0F0);
    run(&mut cpu, &mut mem, &[0xF6, 0x0F]);
    assert_eq!(cpu.get_af(), 0xFF00);
    let (mut cpu, mut mem) = fresh();
    cpu.set_af(0xFFF0);
    run(&mut cpu, &mut mem, &[0xEE, 0xFF]);
    assert_eq!(cpu.get_af(), 0x0080);
}

#[test]
fn flag_table_compare_keeps_a() {
    let (mut cpu, mut mem) = fresh();
    cpu.set_af(0x1000);
    run(&mut cpu, &mut mem, &[0xFE, 0x21]);
    assert_eq!(cpu.get_af(), 0x1070);
}

#[test]
fn flag_table_inc_dec_keep_carry() {
    let (mut cpu, mut mem) = fresh();
    cpu.set_af(0x0010);
    cpu.set_bc(0x0F00);
    run(&mut cpu, &mut mem, &[0x04]);
    assert_eq!(cpu.get_bc(), 0x1000);
    assert_eq!(cpu.get_af(), 0x0030);
    let (mut cpu, mut mem) = fresh();
    cpu.set_af(0x0000);
    cpu.set_bc(0x0100);
    run(&mut cpu, &mut mem, &[0x05]);
    assert_eq!(cpu.get_bc(), 0x0000);
    assert_eq!(cpu.get_af(), 0x00C0);
    let (mut cpu, mut mem) = fresh();
    cpu.set_bc(0x0000);
    run(&mut cpu, &mut mem, &[0x05]);
    assert_eq!(cpu.get_bc(), 0xFF00);
    assert_eq!(cpu.get_af(), 0x0060);
}

#[test]
fn flag_table_add_hl() {
    let (mut cpu, mut mem) = fresh();
    cpu.set_af(0x0080);
    cpu.set_hl(0x8FFF);
    cpu.set_bc(0x8001);
    assert_eq!(run(&mut cpu, &mut mem, &[0x09]), 2);
    assert_eq!(cpu.get_hl(), 0x1000);
    assert_eq!(cpu.get_af(), 0x00B0);
}

#[test]
fn flag_table_add_sp_and_ld_hl_sp() {
    let (mut cpu, mut mem) = fresh();
    cpu.set_sp(0x00FF);
    assert_eq!(run(&mut cpu, &mut mem, &[0xE8, 0x01]), 4);
    assert_eq!(cpu.get_sp(), 0x0100);
    assert_eq!(cpu.get_af(), 0x0030);
    let (mut cpu, mut mem) = fresh();
    cpu.set_sp(0x0005);
    assert_eq!(run(&mut cpu, &mut mem, &[0xF8, 0xFE]), 3);
    assert_eq!(cpu.get_hl(), 0x0003);
    assert_eq!(cpu.get_sp(), 0x0005);
    assert_eq!(cpu.get_af(), 0x0030);
}

#[test]
fn flag_table_daa() {
    let (mut cpu, mut mem) = fresh();
    cpu.set_af(0x1500);
    cpu.set_bc(0x2700);
    run(&mut cpu, &mut mem, &[0x80, 0x27]);
    assert_eq!(cpu.get_af() >> 8, 0x42);
    let (mut cpu, mut mem) = fresh();
    cpu.set_af(0x4200);
    cpu.set_bc(0x1500);
    run(&mut cpu, &mut mem, &[0x90, 0x27]);
    assert_eq!(cpu.get_af() >> 8, 0x27);
    let (mut cpu, mut mem) = fresh();
    cpu.set_af(0x9000);
    cpu.set_bc(0x1000);
    run(&mut cpu, &mut mem, &[0x80, 0x27]);
    assert_eq!(cpu.get_af(), 0x0090);
}

#[test]
fn flag_table_cpl_scf_ccf() {
    let (mut cpu, mut mem) = fresh();
    cpu.set_af(0x5A80);
    run(&mut cpu, &mut mem, &[0x2F]);
    assert_eq!(cpu.get_af(), 0xA5E0);
    run(&mut cpu, &mut mem, &[0x37]);
    assert_eq!(cpu.get_af(), 0xA590);
    run(&mut cpu, &mut mem, &[0x3F]);
    assert_eq!(cpu.get_af(), 0xA580);
}

#[test]
fn flag_table_rotates_of_a_clear_z() {
    let (mut cpu, mut mem) = fresh();
    cpu.set_af(0x0000);
    run(&mut cpu, &mut mem, &[0x07]);
    assert_eq!(cpu.get_af(), 0x0000);
    let (mut cpu, mut mem) = fresh();
    cpu.set_af(0x8000);
    run(&mut cpu, &mut mem, &[0x17]);
    assert_eq!(cpu.get_af(), 0x0010);
    run(&mut cpu, &mut mem, &[0x1F]);
    assert_eq!(cpu.get_af(), 0x8000);
    run(&mut cpu, &mut mem, &[0x0F]);
    assert_eq!(cpu.get_af(), 0x4000);
}

#[test]
fn flag_table_prefixed_page() {
    let (mut cpu, mut mem) = fresh();
    cpu.set_bc(0x8000);
    assert_eq!(run(&mut cpu, &mut mem, &[0xCB, 0x20]), 2);
    assert_eq!(cpu.get_bc(), 0x0000);
    assert_eq!(cpu.get_af(), 0x0090);
    let (mut cpu, mut mem) = fresh();
    cpu.set_bc(0x8100);
    run(&mut cpu, &mut mem, &[0xCB, 0x28]);
    assert_eq!(cpu.get_bc(), 0xC000);
    assert_eq!(cpu.get_af(), 0x0010);
    let (mut cpu, mut mem) = fresh();
    cpu.set_bc(0x8100);
    run(&mut cpu, &mut mem, &[0xCB, 0x38]);
    assert_eq!(cpu.get_bc(), 0x4000);
    assert_eq!(cpu.get_af(), 0x0010);
    let (mut cpu, mut mem) = fresh();
    cpu.set_af(0x0010);
    cpu.set_bc(0x0100);
    run(&mut cpu, &mut mem, &[0xCB, 0x18]);
    assert_eq!(cpu.get_bc(), 0x8000);
    assert_eq!(cpu.get_af(), 0x0010);
}

#[test]
fn flag_table_bit_res_set() {
    let (mut cpu, mut mem) = fresh();
    cpu.set_af(0x0010);
    cpu.set_hl(0xC000);
    mem.write(0xC000, 0x08);
    assert_eq!(run(&mut cpu, &mut mem, &[0xCB, 0x5E]), 3);
    assert_eq!(cpu.get_af(), 0x0030);
    assert_eq!(run(&mut cpu, &mut mem, &[0xCB, 0x66]), 3);
    assert_eq!(cpu.get_af(), 0x00B0);
    assert_eq!(run(&mut cpu, &mut mem, &[0xCB, 0x9E]), 4);
    assert_eq!(mem.read(0xC000), 0x00);
    assert_eq!(run(&mut cpu, &mut mem, &[0xCB, 0xFE]), 4);
    assert_eq!(mem.read(0xC000), 0x80);
}

#[test]
fn add_then_sub_restores_a() {
    for &(a, v) in &[(0x80u8, 0x90u8), (0x00, 0x00), (0x3A, 0xC6), (0xFF, 0x01)] {
        let (mut cpu, mut mem) = fresh();
        cpu.set_af((a as u16) << 8);
        run(&mut cpu, &mut mem, &[0xC6, v, 0xD6, v]);
        assert_eq!(cpu.get_af() >> 8, a as u16);
        assert_eq!(cpu.get_zero(), a == 0);
    }
}

#[test]
fn cycle_table_samples() {
    let cases: &[(&[u8], u16, u32)] = &[
        (&[0x00], 0x0000, 1),
        (&[0x01, 0x00, 0x00], 0x0000, 3),
        (&[0x08, 0x00, 0xC0], 0x0000, 5),
        (&[0x34], 0x0000, 3),
        (&[0x36, 0x00], 0x0000, 3),
        (&[0x7E], 0x0000, 2),
        (&[0xC5], 0x0000, 4),
        (&[0xC1], 0x0000, 3),
        (&[0xD3], 0x0000, 1),
        (&[0xF0, 0x80], 0x0000, 3),
        (&[0xEA, 0x00, 0xC0], 0x0000, 4),
        (&[0xF9], 0x0000, 2),
        (&[0xCB, 0x00], 0x0000, 2),
        (&[0xCB, 0x06], 0x0000, 4),
        (&[0xCB, 0x46], 0x0000, 3),
        (&[0xCB, 0xC6], 0x0000, 4),
    ];
    for (bytes, af, expected) in cases {
        let (mut cpu, mut mem) = fresh();
        cpu.set_af(*af);
        cpu.set_hl(0xC000);
        for (i, b) in bytes.iter().enumerate() {
            mem.write(0x0100 + i, *b);
        }
        assert_eq!(cpu.step(&mut mem) as u32, *expected, "opcode {:02X}", bytes[0]);
    }
}

#[test]
fn cycle_table_branches() {
    // (opcode bytes, F, cycles, where PC ends)
    let cases: &[(&[u8], u16, u8, u16)] = &[
        (&[0xC2, 0x00, 0x30], 0x0000, 4, 0x3000),
        (&[0xC2, 0x00, 0x30], 0x0080, 3, 0x0103),
        (&[0xC4, 0x00, 0x30], 0x0000, 6, 0x3000),
        (&[0xC4, 0x00, 0x30], 0x0080, 3, 0x0103),
        (&[0xD8], 0x0010, 5, 0x0000),
        (&[0xD8], 0x0000, 2, 0x0101),
        (&[0xC9], 0x0000, 4, 0x0000),
        (&[0xCD, 0x00, 0x30], 0x0000, 6, 0x3000),
        (&[0xC3, 0x00, 0x30], 0x0000, 4, 0x3000),
        (&[0x18, 0x05], 0x0000, 3, 0x0107),
        (&[0x38, 0x05], 0x0010, 3, 0x0107),
        (&[0x38, 0x05], 0x0000, 2, 0x0102),
        (&[0xFF], 0x0000, 4, 0x0038),
    ];
    for (bytes, f, cycles, pc) in cases {
        let (mut cpu, mut mem) = fresh();
        cpu.set_af(*f);
        for (i, b) in bytes.iter().enumerate() {
            mem.write(0x0100 + i, *b);
        }
        assert_eq!(cpu.step(&mut mem), *cycles, "opcode {:02X}", bytes[0]);
        assert_eq!(cpu.get_pc(), *pc, "opcode {:02X}", bytes[0]);
    }
}

#[test]
fn rlc_undoes_rrc_and_swap_twice() {
    for v in 0..=255u8 {
        let (mut cpu, mut mem) = fresh();
        cpu.set_bc((v as u16) << 8);
        run(&mut cpu, &mut mem, &[0xCB, 0x08, 0xCB, 0x00]);
        assert_eq!(cpu.get_bc() >> 8, v as u16);
        let (mut cpu, mut mem) = fresh();
        cpu.set_de((v as u16) << 8);
        run(&mut cpu, &mut mem, &[0xCB, 0x32, 0xCB, 0x32]);
        assert_eq!(cpu.get_de() >> 8, v as u16);
    }
}

#[test]
fn swap_exchanges_nibbles() {
    let (mut cpu, mut mem) = fresh();
    cpu.set_af(0xA500);
    run(&mut cpu, &mut mem, &[0xCB, 0x37]);
    assert_eq!(cpu.get_af(), 0x5A00);
}

#[test]
fn pop_af_then_push_af_restores_memory() {
    let (mut cpu, mut mem) = fresh();
    cpu.set_sp(0xC000);
    mem.write(0xC000, 0x50);
    mem.write(0xC001, 0x12);
    run(&mut cpu, &mut mem, &[0xF1]);
    assert_eq!(cpu.get_af(), 0x1250);
    assert_eq!(cpu.get_af() & 0x0F, 0);
    run(&mut cpu, &mut mem, &[0xF5]);
    assert_eq!(cpu.get_sp(), 0xC000);
    assert_eq!(mem.read(0xC000), 0x50);
    assert_eq!(mem.read(0xC001), 0x12);
}

#[test]
fn pop_af_drops_the_low_nibble() {
    let (mut cpu, mut mem) = fresh();
    cpu.set_sp(0xC000);
    mem.write(0xC000, 0x5F);
    mem.write(0xC001, 0x12);
    run(&mut cpu, &mut mem, &[0xF1, 0xF5]);
    assert_eq!(mem.read(0xC000), 0x50);
}

#[test]
fn div_reads_high_byte_and_resets_on_write() {
    let mut mem = Mem::new();
    mem.tick(100);
    assert_eq!(mem.timer().div_ctr, 400);
    assert_eq!(mem.read(0xFF04), 1);
    mem.tick(200);
    assert_eq!(mem.read(0xFF04), ((mem.timer().div_ctr >> 8) & 0xFF) as u8);
    assert_eq!(mem.read(0xFF04), 4);
    mem.write(0xFF04, 0x77);
    assert_eq!(mem.read(0xFF04), 0);
    assert_eq!(mem.timer().div_ctr, 0);
}
