//! Time-travel debugging: snapshot rewind with anchor + delta compression.
//!
//! A rewind buffer records one snapshot per frame. Most frames are kept as
//! deltas from the frame before; the keyframe policy promotes some to full
//! snapshots. Any retained frame can be reconstructed exactly.
use vstd::prelude::*;

pub mod delta;
pub mod frame;
pub mod laws;
pub mod timeline;

pub use delta::{apply_deltas, diff_array, ArrayDelta};
pub use frame::{FieldDelta, FrameDelta, FrameInput, ScalarState, VdpMeta};
pub use timeline::{CompressedTimeline, Keyframe, KeyframePolicy};

use crate::api::state::{GenesisCoreSnapshot, SnapshotState};
use crate::rewind::frame::saturated;
use crate::rewind::timeline::{
    empty_timeline, fresh_policy, newest_of, oldest_of, pruned, recorded, reconstructed,
    slots, timeline_bytes, truncated, TimelineState,
};

verus! {

/// Frames per second of history.
pub const FRAMES_PER_SECOND: u64 = 60;

/// Runtime rewind configuration.
#[derive(Debug, Clone, Copy, PartialEq, Eq, Structural)]
pub struct RewindConfig {
    /// Whether rewind recording is active.
    pub enabled: bool,
    /// Fixed keyframe promotion interval, in frames.
    pub keyframe_base_interval: u64,
    /// How many seconds of history to retain.
    pub max_history_seconds: u32,
    /// Delta size (bytes) above which a spike keyframe may be promoted.
    pub delta_spike_threshold: u32,
}

/// Recording on, a keyframe each second, half a minute of history.
pub open spec fn default_rewind_config() -> RewindConfig {
    RewindConfig {
        enabled: true,
        keyframe_base_interval: 60,
        max_history_seconds: 30,
        delta_spike_threshold: 2048,
    }
}

/// The slot budget of a history window: its frames, at least one.
pub open spec fn slot_budget(config: RewindConfig) -> u64 {
    if config.max_history_seconds == 0 {
        1
    } else {
        (config.max_history_seconds * 60) as u64
    }
}

/// The policy of a configuration.
pub open spec fn config_policy(config: RewindConfig) -> KeyframePolicy {
    fresh_policy(config.keyframe_base_interval, config.delta_spike_threshold)
}

impl Default for RewindConfig {
    fn default() -> (r: Self)
        ensures
            r == default_rewind_config(),
    {
        RewindConfig {
            enabled: true,
            keyframe_base_interval: 60,
            max_history_seconds: 30,
            delta_spike_threshold: 2048,
        }
    }
}

impl RewindConfig {
    /// Frame-slot budget derived from the history window.
    #[must_use]
    pub fn max_frames(&self) -> (r: u64)
        ensures
            r == slot_budget(*self),
            r >= 1,
    {
        let frames: u64 = self.max_history_seconds as u64 * FRAMES_PER_SECOND;
        if frames == 0 {
            1
        } else {
            frames
        }
    }
}

/// A read-only view of the rewind buffer state, for UI/telemetry.
#[derive(Debug, Clone, Copy, PartialEq, Eq, Structural)]
pub struct RewindStatus {
    pub enabled: bool,
    /// Retained frame slots, keyframes and deltas together.
    pub frames_available: u64,
    pub memory_used_bytes: usize,
    pub oldest_frame: Option<u64>,
    pub newest_frame: Option<u64>,
}

/// The in-core rewind facade. Owns the compressed timeline and the active
/// configuration.
#[derive(Debug, Clone)]
pub struct RewindBuffer {
    pub config: RewindConfig,
    pub timeline: CompressedTimeline,
}

/// Mathematical model of a rewind buffer.
#[verifier::ext_equal]
pub ghost struct BufferState {
    pub config: RewindConfig,
    pub timeline: TimelineState,
}

impl View for RewindBuffer {
    type V = BufferState;

    open spec fn view(&self) -> BufferState {
        BufferState { config: self.config, timeline: self.timeline@ }
    }
}

/// The buffer of a configuration, with nothing recorded.
pub open spec fn empty_buffer(config: RewindConfig) -> BufferState {
    BufferState { config, timeline: empty_timeline(slot_budget(config), config_policy(config)) }
}

/// The buffer after a frame: unchanged while recording is off.
pub open spec fn buffer_recorded(
    b: BufferState,
    frame_id: u64,
    snapshot: SnapshotState,
    input: FrameInput,
) -> BufferState {
    if b.config.enabled {
        BufferState { timeline: recorded(b.timeline, frame_id, snapshot, input), ..b }
    } else {
        b
    }
}

/// The buffer under a new configuration: its history pruned to the new budget,
/// under a fresh policy; or emptied, when recording goes off.
pub open spec fn buffer_configured(b: BufferState, config: RewindConfig) -> BufferState {
    if config.enabled {
        BufferState {
            config,
            timeline: pruned(
                TimelineState {
                    max_frames: slot_budget(config),
                    policy: config_policy(config),
                    ..b.timeline
                },
            ),
        }
    } else {
        empty_buffer(config)
    }
}

/// The number of retained frame slots as a status reports it. Saturates.
pub open spec fn slots_available(t: TimelineState) -> u64 {
    if slots(t) > u64::MAX {
        u64::MAX
    } else {
        slots(t) as u64
    }
}

impl RewindBuffer {
    /// The timeline is well formed.
    pub open spec fn wf(self) -> bool {
        self.timeline.wf()
    }

    /// Creates an empty buffer.
    #[must_use]
    pub fn new(config: RewindConfig) -> (r: Self)
        ensures
            r@ == empty_buffer(config),
            r.wf(),
    {
        let policy = KeyframePolicy::new(
            config.keyframe_base_interval,
            config.delta_spike_threshold,
        );
        let timeline = CompressedTimeline::new(config.max_frames(), policy);
        RewindBuffer { config, timeline }
    }

    /// Records a frame snapshot with its input. No-op when disabled.
    pub fn record(&mut self, frame_id: u64, snapshot: GenesisCoreSnapshot, input: FrameInput)
        requires
            old(self).wf(),
        ensures
            final(self)@ == buffer_recorded(old(self)@, frame_id, snapshot@, input),
            final(self).wf(),
    {
        if self.config.enabled {
            self.timeline.push(frame_id, snapshot, input);
        }
    }

    /// Reconstructs the state at `frame_id`, if retained.
    #[must_use]
    pub fn reconstruct(&self, frame_id: u64) -> (r: Option<GenesisCoreSnapshot>)
        ensures
            match r {
                Some(s) => reconstructed(self@.timeline, frame_id) == Some(s@),
                None => reconstructed(self@.timeline, frame_id) is None,
            },
    {
        self.timeline.reconstruct(frame_id)
    }

    /// Truncates any recorded history newer than `frame_id`.
    pub fn truncate_after(&mut self, frame_id: u64)
        ensures
            final(self)@ == (BufferState {
                timeline: truncated(old(self)@.timeline, frame_id),
                ..old(self)@
            }),
            old(self).wf() ==> final(self).wf(),
    {
        self.timeline.truncate_after(frame_id);
    }

    /// Applies a new configuration. Reconfigures the timeline budget and
    /// policy; clears the buffer if rewind was disabled.
    pub fn set_config(&mut self, config: RewindConfig)
        ensures
            final(self)@ == buffer_configured(old(self)@, config),
            final(self).wf(),
    {
        let policy = KeyframePolicy::new(
            config.keyframe_base_interval,
            config.delta_spike_threshold,
        );
        if config.enabled {
            self.timeline.max_frames = config.max_frames();
            self.timeline.policy = policy;
            self.timeline.prune();
        } else {
            self.timeline = CompressedTimeline::new(config.max_frames(), policy);
        }
        self.config = config;
    }

    /// Current status snapshot.
    #[must_use]
    pub fn status(&self) -> (r: RewindStatus)
        ensures
            r == (RewindStatus {
                enabled: self@.config.enabled,
                frames_available: slots_available(self@.timeline),
                memory_used_bytes: saturated(timeline_bytes(self@.timeline)),
                oldest_frame: oldest_of(self@.timeline),
                newest_frame: newest_of(self@.timeline.keyframes, self@.timeline.deltas),
            }),
    {
        let oldest = self.timeline.oldest_frame();
        let newest = self.timeline.newest_frame();
        let keys: u64 = self.timeline.keyframes.len() as u64;
        let deltas: u64 = self.timeline.deltas.len() as u64;
        let frames_available: u64 = if keys > u64::MAX - deltas {
            u64::MAX
        } else {
            keys + deltas
        };
        RewindStatus {
            enabled: self.config.enabled,
            frames_available,
            memory_used_bytes: self.timeline.estimated_bytes(),
            oldest_frame: oldest,
            newest_frame: newest,
        }
    }

    /// Number of retained frame slots (keyframes + deltas). Saturates.
    #[must_use]
    pub fn frames_available(&self) -> (r: u64)
        ensures
            r == slots_available(self@.timeline),
    {
        self.status().frames_available
    }

    /// Estimated bytes of retained history.
    #[must_use]
    pub fn memory_used(&self) -> (r: usize)
        ensures
            r == saturated(timeline_bytes(self@.timeline)),
    {
        self.timeline.estimated_bytes()
    }
}

impl Default for RewindBuffer {
    fn default() -> (r: Self)
        ensures
            r@ == empty_buffer(default_rewind_config()),
            r.wf(),
    {
        RewindBuffer::new(RewindConfig::default())
    }
}

} // verus!
