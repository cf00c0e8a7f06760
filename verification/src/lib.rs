//! A verified interpreter core for a minimal 8-bit virtual machine with
//! 35 opcodes, 16 general registers, a flat 4096-byte memory, a 64x32
//! monochrome framebuffer, a decrementing timer pair, and a hexadecimal
//! keypad. The host (display, keyboard, audio, program loading) lives
//! outside; this crate holds the fetch-decode-execute cycle, the opcode
//! semantics, and the cycle scheduler, each with a proved contract.

pub mod bits;
pub mod decode;
pub mod exec;
pub mod keypad;
pub mod laws;
pub mod machine;
pub mod sched;
