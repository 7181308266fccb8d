use vstd::prelude::*;

verus! {

/// Bus address of the interrupt-enable register (IE).
pub const IE_ADDR: usize = 0xFFFF;
/// Bus address of the interrupt-request register (IF).
pub const IF_ADDR: usize = 0xFF0F;

pub const VBLANK_BIT: u8 = 0x01;
pub const LCD_BIT: u8 = 0x02;
pub const TIMER_BIT: u8 = 0x04;
pub const SERIAL_LINK_BIT: u8 = 0x08;
pub const JOYPAD_BIT: u8 = 0x10;

pub const ISR_VBLANK_ADDR: u16 = 0x0040;
pub const ISR_LCD_ADDR: u16 = 0x0048;
pub const ISR_TIMER_ADDR: u16 = 0x0050;
pub const ISR_SERIAL_LINK_ADDR: u16 = 0x0058;
pub const ISR_JOYPAD_ADDR: u16 = 0x0060;

/// The interrupt controller: master enable (IME), request flags (IF) and
/// enable mask (IE). Bit k of IF / IE stands for source k: V-Blank, LCD STAT,
/// Timer, Serial, Joypad, in order of priority.
#[derive(Debug, Clone, Copy, PartialEq, Eq, Structural)]
pub struct InterruptHandlerThing {
    pub ime: bool,
    pub if_: u8,
    pub ie: u8,
}

/// The sources that are both requested and enabled.
pub open spec fn pending_bits(i: InterruptHandlerThing) -> u8 {
    i.if_ & i.ie & 0x1F
}

/// The source of highest priority (lowest bit) among the set bits of `p`.
pub open spec fn priority_index(p: u8) -> u8 {
    if p & 0x01 != 0 {
        0
    } else if p & 0x02 != 0 {
        1
    } else if p & 0x04 != 0 {
        2
    } else if p & 0x08 != 0 {
        3
    } else {
        4
    }
}

/// The IF / IE bit of source `k`.
pub open spec fn source_bit(k: u8) -> u8 {
    if k == 0 {
        0x01
    } else if k == 1 {
        0x02
    } else if k == 2 {
        0x04
    } else if k == 3 {
        0x08
    } else {
        0x10
    }
}

/// The service routine address of source `k`: 0x40, 0x48, 0x50, 0x58, 0x60.
pub open spec fn isr_vector(k: u8) -> u16 {
    (0x40 + 8 * k) as u16
}

/// The controller after source bit `bit` is requested.
pub open spec fn requested(i: InterruptHandlerThing, bit: u8) -> InterruptHandlerThing {
    InterruptHandlerThing { if_: i.if_ | bit, ..i }
}

/// Polling: when IME is set and some enabled source is requested, the vector
/// of the highest-priority one, with its IF bit and IME cleared; otherwise
/// 0 and no change.
pub open spec fn polled(i: InterruptHandlerThing) -> (InterruptHandlerThing, u16) {
    if i.ime && pending_bits(i) != 0 {
        let k = priority_index(pending_bits(i));
        (InterruptHandlerThing { ime: false, if_: i.if_ & !source_bit(k), ie: i.ie }, isr_vector(k))
    } else {
        (i, 0)
    }
}

impl InterruptHandlerThing {
    pub fn new() -> (r: Self)
        ensures
            r == (InterruptHandlerThing { ime: false, if_: 0, ie: 0 }),
    {
        InterruptHandlerThing { ime: false, if_: 0x00, ie: 0x00 }
    }

    fn req_intrpt(&mut self, bit: u8)
        ensures
            *final(self) == requested(*old(self), bit),
    {
        self.if_ = self.if_ | bit;
    }

    pub fn req_vblank(&mut self)
        ensures
            *final(self) == requested(*old(self), VBLANK_BIT),
    {
        self.req_intrpt(VBLANK_BIT);
    }

    pub fn req_lcd(&mut self)
        ensures
            *final(self) == requested(*old(self), LCD_BIT),
    {
        self.req_intrpt(LCD_BIT);
    }

    pub fn req_timer(&mut self)
        ensures
            *final(self) == requested(*old(self), TIMER_BIT),
    {
        self.req_intrpt(TIMER_BIT);
    }

    pub fn req_serial_link(&mut self)
        ensures
            *final(self) == requested(*old(self), SERIAL_LINK_BIT),
    {
        self.req_intrpt(SERIAL_LINK_BIT);
    }

    pub fn req_joypad(&mut self)
        ensures
            *final(self) == requested(*old(self), JOYPAD_BIT),
    {
        self.req_intrpt(JOYPAD_BIT);
    }

    pub fn set_ime(&mut self, set_value: bool)
        ensures
            *final(self) == (InterruptHandlerThing { ime: set_value, ..*old(self) }),
    {
        self.ime = set_value;
    }

    /// Whether some enabled source is requested, whatever IME holds.
    pub fn interrupt_requested(&self) -> (r: bool)
        ensures
            r == (pending_bits(*self) != 0),
    {
        self.if_ & self.ie & 0x1F != 0
    }

    /// Polls for an interrupt to service: returns its vector, or 0 when there
    /// is none (see `polled`).
    pub fn check_interrupt(&mut self) -> (r: u16)
        ensures
            (*final(self), r) == polled(*old(self)),
    {
        if !self.ime {
            return 0;
        }
        let enabled = self.if_ & self.ie & 0x1F;
        if enabled == 0 {
            return 0;
        }
        let (bit, vector) = if enabled & VBLANK_BIT != 0 {
            (VBLANK_BIT, ISR_VBLANK_ADDR)
        } else if enabled & LCD_BIT != 0 {
            (LCD_BIT, ISR_LCD_ADDR)
        } else if enabled & TIMER_BIT != 0 {
            (TIMER_BIT, ISR_TIMER_ADDR)
        } else if enabled & SERIAL_LINK_BIT != 0 {
            (SERIAL_LINK_BIT, ISR_SERIAL_LINK_ADDR)
        } else {
            (JOYPAD_BIT, ISR_JOYPAD_ADDR)
        };
        self.if_ = self.if_ & !bit;
        self.ime = false;
        vector
    }
}

} // verus!
