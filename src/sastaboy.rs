use vstd::prelude::*;
use crate::cpu::CPU;
use crate::isa::{CpuState, step};
use crate::memory::{
    ADDRESS_SPACE,
    BusState,
    Mem,
    bus_read,
    bus_tick,
    bus_write,
    power_on_bus,
};

verus! {

/// Serial transfer data register.
pub const SERIAL_DATA_ADDR: usize = 0xFF01;
/// Serial transfer control register; 0x81 starts a transfer.
pub const SERIAL_CONTROL_ADDR: usize = 0xFF02;
pub const SERIAL_START: u8 = 0x81;

/// The bus after the first `n` bytes of `rom` are written to addresses 0..n.
pub open spec fn loaded(b: BusState, rom: Seq<u8>, n: nat) -> BusState
    decreases n,
{
    if n == 0 {
        b
    } else {
        bus_write(loaded(b, rom, (n - 1) as nat), n - 1, rom[n - 1])
    }
}

/// The console: the CPU and the bus, which owns the timer and the interrupt
/// controller.
pub struct SastaBoy {
    pub cpu: CPU,
    pub mem: Mem,
}

impl SastaBoy {
    pub fn new() -> (r: Self)
        ensures
            r.cpu@ == (CpuState {
                a: 0,
                f: 0,
                b: 0,
                c: 0,
                d: 0,
                e: 0,
                h: 0,
                l: 0,
                sp: 0,
                pc: 0,
                halted: false,
                ei_pending: false,
            }),
            r.mem@ == power_on_bus(),
            r.mem@.wf(),
    {
        SastaBoy { cpu: CPU::new(), mem: Mem::new() }
    }

    /// Writes the cartridge image `rom` to bus addresses 0..rom.len().
    pub fn load_rom(&mut self, rom: &Vec<u8>)
        requires
            old(self).mem@.wf(),
            rom.len() <= ADDRESS_SPACE,
        ensures
            final(self).mem@ == loaded(old(self).mem@, rom@, rom.len() as nat),
            final(self).mem@.wf(),
            final(self).cpu@ == old(self).cpu@,
    {
        let mut i: usize = 0;
        while i < rom.len()
            invariant
                i <= rom.len() <= ADDRESS_SPACE,
                self.mem@ == loaded(old(self).mem@, rom@, i as nat),
                self.mem@.wf(),
                self.cpu@ == old(self).cpu@,
            decreases rom.len() - i,
        {
            self.mem.write(i, rom[i]);
            i = i + 1;
        }
    }

    /// One step of the CPU, then the timer runs for the cycles it took.
    /// Returns those cycles.
    pub fn step(&mut self) -> (r: u8)
        requires
            old(self).mem@.wf(),
        ensures
            ({
                let (c, b, n) = step(old(self).cpu@, old(self).mem@);
                &&& final(self).cpu@ == c
                &&& final(self).mem@ == bus_tick(b, n)
                &&& r == n
            }),
            final(self).mem@.wf(),
            old(self).cpu@.wf() ==> final(self).cpu@.wf(),
    {
        let mcycles = self.cpu.step(&mut self.mem);
        self.mem.tick(mcycles);
        mcycles
    }

    /// The serial port: when a transfer has been started, the byte sent, and
    /// the control register is cleared; otherwise nothing.
    pub fn serial_output(&mut self) -> (r: Option<u8>)
        requires
            old(self).mem@.wf(),
        ensures
            bus_read(old(self).mem@, SERIAL_CONTROL_ADDR as int) == SERIAL_START ==> r == Some(
                bus_read(old(self).mem@, SERIAL_DATA_ADDR as int),
            ) && final(self).mem@ == bus_write(old(self).mem@, SERIAL_CONTROL_ADDR as int, 0),
            bus_read(old(self).mem@, SERIAL_CONTROL_ADDR as int) != SERIAL_START ==> r.is_none()
                && final(self).mem@ == old(self).mem@,
            final(self).mem@.wf(),
            final(self).cpu@ == old(self).cpu@,
    {
        if self.mem.read(SERIAL_CONTROL_ADDR) == SERIAL_START {
            let c = self.mem.read(SERIAL_DATA_ADDR);
            self.mem.write(SERIAL_CONTROL_ADDR, 0);
            Some(c)
        } else {
            None
        }
    }

    /// Whether the program counter is still below the top of memory, where
    /// the run stops.
    pub fn running(&self) -> (r: bool)
        ensures
            r == (self.cpu@.pc < 0xFFFF),
    {
        self.cpu.get_pc() < 0xFFFF
    }
}

} // verus!
