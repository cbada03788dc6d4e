//! A CHIP-8 virtual machine.
//!
//! `cpu` is the instruction engine: every opcode, the step and the timer
//! tick are specified against `CpuView`, a mathematical model of the
//! machine state. Around it sit the pieces of front-end logic that decide
//! things without doing I/O: palettes and settings (`config`), command-line
//! parsing (`cli`), the buzzer's state (`buzzer`), the message overlay
//! (`overlay`, `ui`) and the frame and key handling (`app`).

pub mod app;
pub mod buzzer;
pub mod cli;
pub mod config;
pub mod cpu;
pub mod font;
pub mod overlay;
pub mod text;
pub mod ui;
