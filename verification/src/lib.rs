//! A verified CHIP-8 virtual machine core.
//!
//! The `chip8` module holds the machine state and its construction;
//! `decode` gives the instruction set its specification-level shape;
//! `effects` states what each operation does to the state; `draw` models
//! the XOR sprite raster; `ops` executes the instructions; `cycle`
//! composes fetch, decode/execute and the timer stage; `laws` proves the
//! interpreter's algebraic properties. `cpu`, `event_code` and `keycode`
//! are small side models used by the surrounding front end.
#![allow(non_snake_case)]

pub mod chip8;
pub mod cpu;
pub mod cycle;
pub mod decode;
pub mod draw;
pub mod effects;
pub mod event_code;
pub mod keycode;
pub mod laws;
pub mod ops;
pub mod rng;
