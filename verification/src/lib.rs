//! A Sega Genesis (Mega Drive) emulation core with machine-checked behaviour.
//!
//! Every device of the console is a plain Rust type whose executable methods
//! carry contracts over a mathematical model of the device. The modules are:
//!
//! - [`cpu`]: the Motorola 68000 (decoder, executor, interrupts);
//! - [`bus`]: the 68000 address map;
//! - [`vdp`]: the video display processor (ports, DMA, rendering);
//! - [`ym2612`] and [`psg`]: the sound chips;
//! - [`io`]: the controller ports;
//! - [`delay`]: delay lines for the output stage;
//! - [`z80`]: the sound CPU as the core sees it;
//! - [`scheduler`] and [`timing`]: clocks and cycle counters;
//! - [`rom`] and [`eeprom`]: cartridges;
//! - [`api`]: the core, its commands and its audio timeline;
//! - [`rewind`]: the compressed rewind timeline;
//! - [`config`]: settings.
//!
//! Frontends drive the core by [`Command`]s.
pub mod api;
pub mod bus;
pub mod config;
pub mod cpu;
pub mod delay;
pub mod eeprom;
pub mod io;
pub mod psg;
pub mod rewind;
pub mod rom;
pub mod scheduler;
pub mod timing;
pub mod vdp;
pub mod ym2612;
pub mod z80;

pub use api::{
    AudioEqKind, AudioOutputProfile, Button, Command, CoreQuery, GenesisCore, GenesisCoreSnapshot,
};
pub use api::{FRAME_HEIGHT, FRAME_PERIOD_NS, FRAME_RGBA_BYTES, FRAME_WIDTH};
pub use rewind::{
    ArrayDelta, CompressedTimeline, FrameDelta, FrameInput, KeyframePolicy, RewindBuffer,
    RewindConfig, RewindStatus,
};
