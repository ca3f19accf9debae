//! A sandboxed execution engine for small guest programs ("bots").
//!
//! Each bot runs on its own [`cpu::Cpu`]: a register file and program counter
//! ([`hart::Hart`]) bound to a private, bounds-checked memory arena
//! ([`dram::Dram`]). A handful of fixed address ranges of the arena are
//! memory-mapped devices through which the bot logs text, reads the telemetry
//! of its vehicle and writes its driving commands.
//!
//! [`loader`] turns a program image into an arena and an entry point,
//! [`inst`] decodes instruction words, [`scheduler`] gives every guest of a
//! population its share of steps per tick, and [`laws`] states what holds of
//! all of them: register 0 is zero, faults are atomic and final, a guest
//! cannot touch what the host supplies, and what becomes of a guest depends
//! on that guest alone.
//!
//! Around the engine, [`sdk`] holds what guest programs and host agree on,
//! [`bot_runtime`] what is asked of the build tool, and [`bootstrap`] and
//! [`game_api`] the decisions of the client of the artifact server. None of
//! these performs input or output; the host does, and hands plain values in.

pub mod bootstrap;
pub mod bot_runtime;
pub mod controls;
pub mod cpu;
pub mod dram;
pub mod endian;
pub mod fault;
pub mod game_api;
pub mod hart;
pub mod inst;
pub mod laws;
pub mod layout;
pub mod loader;
pub mod scheduler;
pub mod sdk;
pub mod text;
