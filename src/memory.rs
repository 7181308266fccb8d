use vstd::prelude::*;
use crate::interrupt::{IE_ADDR, IF_ADDR, InterruptHandlerThing};
use crate::timer::{
    DIV_ADDR,
    TAC_ADDR,
    TIMA_ADDR,
    TMA_ADDR,
    Timer,
    after_div_write,
    after_tac_write,
    after_tima_write,
    div_of,
    run_tcycles,
};

verus! {

/// Size of the address space.
pub const ADDRESS_SPACE: usize = 0x10000;
/// LY, stubbed: it always reads 0x90 and ignores writes.
pub const LY_ADDR: usize = 0xFF44;
pub const LY_STUB: u8 = 0x90;

/// Flat backing store for the whole 16-bit address space.
pub struct MemBus {
    mem: Vec<u8>,
}

impl View for MemBus {
    type V = Seq<u8>;

    closed spec fn view(&self) -> Seq<u8> {
        self.mem@
    }
}

impl MemBus {
    pub fn new() -> (r: Self)
        ensures
            r@.len() == ADDRESS_SPACE,
            forall|i: int| 0 <= i < ADDRESS_SPACE ==> #[trigger] r@[i] == 0,
    {
        MemBus { mem: vec![0u8; ADDRESS_SPACE] }
    }

    pub fn read(&self, addr: usize) -> (r: u8)
        requires
            addr < self@.len(),
        ensures
            r == self@[addr as int],
    {
        self.mem[addr]
    }

    pub fn write(&mut self, addr: usize, val: u8)
        requires
            addr < old(self)@.len(),
        ensures
            final(self)@ == old(self)@.update(addr as int, val),
    {
        self.mem[addr] = val;
    }
}

/// The bus as a value: the backing store and the two peripherals whose
/// registers it maps.
pub struct BusState {
    pub ram: Seq<u8>,
    pub timer: Timer,
    pub irq: InterruptHandlerThing,
}

impl BusState {
    pub open spec fn wf(self) -> bool {
        self.ram.len() == ADDRESS_SPACE && self.timer.wf()
    }
}

/// Whether `addr` is plain memory rather than a mapped register.
pub open spec fn is_plain_ram(addr: int) -> bool {
    0 <= addr < ADDRESS_SPACE && addr != DIV_ADDR && addr != TIMA_ADDR && addr != TMA_ADDR
        && addr != TAC_ADDR && addr != IF_ADDR && addr != IE_ADDR && addr != LY_ADDR
}

/// What a read of `addr` returns. IF's three unused bits read as set.
pub open spec fn bus_read(b: BusState, addr: int) -> u8 {
    if addr == DIV_ADDR {
        div_of(b.timer)
    } else if addr == TIMA_ADDR {
        b.timer.tima
    } else if addr == TMA_ADDR {
        b.timer.tma
    } else if addr == TAC_ADDR {
        b.timer.tac
    } else if addr == IF_ADDR {
        b.irq.if_ | 0xE0
    } else if addr == IE_ADDR {
        b.irq.ie
    } else if addr == LY_ADDR {
        LY_STUB
    } else {
        b.ram[addr]
    }
}

/// The bus after a write of `val` to `addr`.
pub open spec fn bus_write(b: BusState, addr: int, val: u8) -> BusState {
    if addr == DIV_ADDR {
        BusState { timer: after_div_write(b.timer), ..b }
    } else if addr == TIMA_ADDR {
        BusState { timer: after_tima_write(b.timer, val), ..b }
    } else if addr == TMA_ADDR {
        BusState { timer: Timer { tma: val, ..b.timer }, ..b }
    } else if addr == TAC_ADDR {
        BusState { timer: after_tac_write(b.timer, val), ..b }
    } else if addr == IF_ADDR {
        BusState { irq: InterruptHandlerThing { if_: val, ..b.irq }, ..b }
    } else if addr == IE_ADDR {
        BusState { irq: InterruptHandlerThing { ie: val, ..b.irq }, ..b }
    } else if addr == LY_ADDR {
        b
    } else {
        BusState { ram: b.ram.update(addr, val), ..b }
    }
}

/// The bus after `mcycles` machine cycles of timer activity.
pub open spec fn bus_tick(b: BusState, mcycles: u8) -> BusState {
    let (t, i) = run_tcycles(b.timer, b.irq, 4 * mcycles as nat);
    BusState { timer: t, irq: i, ..b }
}

/// The bus at power-on: all bytes, registers and counters zero.
pub open spec fn power_on_bus() -> BusState {
    BusState {
        ram: Seq::new(ADDRESS_SPACE as nat, |i: int| 0u8),
        timer: Timer {
            div_ctr: 0,
            tma: 0,
            tac: 0,
            tima: 0,
            tima_overflow_pending: false,
            tima_overflow_tcycles: 0,
        },
        irq: InterruptHandlerThing { ime: false, if_: 0, ie: 0 },
    }
}

/// The memory bus: flat RAM, with the timer and interrupt registers mapped
/// into it.
pub struct Mem {
    memory: MemBus,
    timer: Timer,
    interrupt_handler: InterruptHandlerThing,
}

impl View for Mem {
    type V = BusState;

    closed spec fn view(&self) -> BusState {
        BusState { ram: self.memory@, timer: self.timer, irq: self.interrupt_handler }
    }
}

impl Mem {
    pub fn new() -> (r: Self)
        ensures
            r@ == power_on_bus(),
            r@.wf(),
    {
        let m = Mem {
            memory: MemBus::new(),
            timer: Timer::new(),
            interrupt_handler: InterruptHandlerThing::new(),
        };
        assert(m@.ram =~= power_on_bus().ram);
        m
    }

    pub fn read(&self, addr: usize) -> (r: u8)
        requires
            self@.wf(),
            addr < ADDRESS_SPACE,
        ensures
            r == bus_read(self@, addr as int),
    {
        if addr == DIV_ADDR {
            self.timer.get_div()
        } else if addr == TIMA_ADDR {
            self.timer.tima
        } else if addr == TMA_ADDR {
            self.timer.tma
        } else if addr == TAC_ADDR {
            self.timer.tac
        } else if addr == IF_ADDR {
            self.interrupt_handler.if_ | 0xE0
        } else if addr == IE_ADDR {
            self.interrupt_handler.ie
        } else if addr == LY_ADDR {
            LY_STUB
        } else {
            self.memory.read(addr)
        }
    }

    pub fn write(&mut self, addr: usize, val: u8)
        requires
            old(self)@.wf(),
            addr < ADDRESS_SPACE,
        ensures
            final(self)@ == bus_write(old(self)@, addr as int, val),
            final(self)@.wf(),
    {
        if addr == DIV_ADDR {
            self.timer.write_div();
        } else if addr == TIMA_ADDR {
            self.timer.write_tima(val);
        } else if addr == TMA_ADDR {
            self.timer.tma = val;
        } else if addr == TAC_ADDR {
            self.timer.write_tac(val);
        } else if addr == IF_ADDR {
            self.interrupt_handler.if_ = val;
        } else if addr == IE_ADDR {
            self.interrupt_handler.ie = val;
        } else if addr == LY_ADDR {
        } else {
            self.memory.write(addr, val);
        }
    }

    /// Runs the timer for `mcycles` machine cycles.
    pub fn tick(&mut self, mcycles: u8)
        requires
            old(self)@.wf(),
        ensures
            final(self)@ == bus_tick(old(self)@, mcycles),
            final(self)@.wf(),
    {
        self.timer.tick(mcycles, &mut self.interrupt_handler);
    }

    /// The interrupt controller.
    pub fn interrupts(&self) -> (r: &InterruptHandlerThing)
        ensures
            *r == self@.irq,
    {
        &self.interrupt_handler
    }

    /// The timer.
    pub fn timer(&self) -> (r: &Timer)
        ensures
            *r == self@.timer,
    {
        &self.timer
    }

    pub fn set_ime(&mut self, set_value: bool)
        ensures
            final(self)@ == (BusState {
                irq: InterruptHandlerThing { ime: set_value, ..old(self)@.irq },
                ..old(self)@
            }),
    {
        self.interrupt_handler.set_ime(set_value);
    }

    /// Polls the interrupt controller (see `polled`).
    pub fn check_interrupt(&mut self) -> (r: u16)
        ensures
            final(self)@ == (BusState { irq: crate::interrupt::polled(old(self)@.irq).0, ..old(self)@ }),
            r == crate::interrupt::polled(old(self)@.irq).1,
    {
        self.interrupt_handler.check_interrupt()
    }
}

/// DIV always shows the high byte of the divider, after any number of
/// machine cycles; and a write of any value to DIV makes it read 0.
pub proof fn lemma_div_register(b: BusState, mcycles: u8, v: u8)
    requires
        b.wf(),
    ensures
        bus_read(bus_tick(b, mcycles), DIV_ADDR as int) == (bus_tick(b, mcycles).timer.div_ctr >> 8)
            & 0xFF,
        bus_read(bus_write(b, DIV_ADDR as int, v), DIV_ADDR as int) == 0,
{
    let d = bus_tick(b, mcycles).timer.div_ctr;
    assert((d >> 8) & 0xFF < 256) by (bit_vector);
    assert(((0u16 >> 8) & 0xFF) as u8 == 0) by (bit_vector);
}

} // verus!
