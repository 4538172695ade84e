//! The emulator core and its interface to frontends.
use vstd::prelude::*;

pub mod access;
pub mod audio;
pub mod board;
pub mod bus;
pub mod bus_laws;
pub mod console;
pub mod console_laws;
pub mod frame;
pub mod keeps;
pub mod laws;
pub mod machine_laws;
pub mod power;
pub mod replay;
pub mod state;
pub mod timeline_laws;

pub use crate::io::Button;
pub use audio::AudioEvent;
pub use bus::{CoreBus, Stamp};
pub use console::{GenesisCore, Z80Report, Z80Request};
pub use state::{
    AudioEqKind, AudioOutputProfile, CartSram, Command, CoreQuery, GenesisCoreSnapshot, Mapper,
    TimedPsgWrite, TimedYm2612Write,
};

verus! {

/// Frame width in pixels.
pub const FRAME_WIDTH: usize = 320;

/// Frame height in pixels.
pub const FRAME_HEIGHT: usize = 224;

/// Bytes of an RGBA frame.
pub const FRAME_RGBA_BYTES: usize = 286_720;

/// Frames per second in millihertz (NTSC).
pub const FPS_MILLI: u32 = 59_920;

/// Frame period in nanoseconds (NTSC).
pub const FRAME_PERIOD_NS: u64 = 16_688_155;

/// Scanlines per frame (NTSC).
pub const SCANLINES_PER_FRAME: u16 = 262;

/// Active scanlines per frame.
pub const ACTIVE_SCANLINES: u16 = 224;

} // verus!
