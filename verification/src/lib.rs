//! A verified interpreter for the classic 35-instruction 8-bit byte-code
//! machine: 4 KiB of memory, sixteen 8-bit registers, a 16-entry call stack,
//! two 60 Hz timers, a 16-key pad and a 64x32 monochrome display composed by
//! XOR sprite drawing.

mod rng;
pub mod laws;
pub mod machine;
pub mod model;

pub use machine::Emu;

pub use model::SCREEN_WIDTH;
pub use model::SCREEN_HEIGHT;
