//! A static cross-compiler from CHIP-8 program ROMs to Z80 machine code.
//!
//! A ROM is scanned into its instruction stream ([`chip8`]), every
//! instruction is expanded into a fixed Z80 sequence ([`templates`]) behind
//! a label of its own, and the result is laid out between a small runtime
//! ([`runtime`]) and a copy of the ROM as a 32 KiB image that boots from
//! address 0 ([`program`], [`codegen`]).
//!
//! What is emitted is stated as a listing over the model in [`image`]; the
//! emitters are proved to emit exactly that listing, and [`program`] proves
//! of every image what a loader and the runtime rely on.

pub mod chip8;
pub mod codegen;
pub mod error;
pub mod image;
pub mod label;
pub mod layout;
pub mod program;
pub mod runtime;
pub mod templates;
pub mod z80;
