//! A verified core for an 8-bit virtual machine with a 4KB address space,
//! sixteen 8-bit registers, a 64x32 monochrome frame buffer, a 64-entry call
//! stack, two countdown timers and a 16-key input device.
//!
//! The crate holds the machine state ([`chip8_core::State`]) and the
//! fetch-decode-execute engine ([`operations::operate`]): one call runs one
//! instruction. Presentation, key polling, program loading and pacing are the
//! caller's business; the engine sees input only as plain values
//! ([`chip8_core::InputState`]).

pub mod chip8_core;
pub mod draw;
pub mod laws;
pub mod operations;
