pub mod alu;
pub mod cpu;
pub mod interrupt;
pub mod isa;
pub mod memory;
pub mod sastaboy;
pub mod timer;
