//! The compressed timeline: keyframes, per-frame deltas, and the policy that
//! chooses between them.
use std::collections::VecDeque;

use vstd::prelude::*;

use crate::api::state::{GenesisCoreSnapshot, SnapshotState};
use crate::rewind::frame::{
    delta_applied, delta_between, delta_bytes, saturated, saturating_sum, DeltaState, FrameDelta,
    FrameInput,
};

verus! {

// ── Keyframe policy ──────────────────────────────────────────────────────

/// Decides when a frame should be promoted to a full keyframe instead of a
/// delta. Promotes on a fixed interval or when a delta is a large spike.
#[derive(Debug, Clone, Copy, PartialEq, Eq, Structural)]
pub struct KeyframePolicy {
    pub base_interval: u64,
    pub spike_threshold: u32,
    pub frames_since_keyframe: u64,
    pub rolling_avg: u32,
}

/// The policy of an interval (at least 1) and a threshold.
pub open spec fn fresh_policy(base_interval: u64, spike_threshold: u32) -> KeyframePolicy {
    KeyframePolicy {
        base_interval: if base_interval == 0 {
            1
        } else {
            base_interval
        },
        spike_threshold,
        frames_since_keyframe: 0,
        rolling_avg: 0,
    }
}

impl KeyframePolicy {
    /// The counter can count on.
    pub open spec fn wf(self) -> bool {
        self.frames_since_keyframe < u64::MAX
    }

    /// The rolling average with a new delta: one eighth new, seven eighths old.
    pub open spec fn next_average(self, delta_size: u32) -> u32 {
        (delta_size / 8 + (self.rolling_avg * 7) / 8) as u32
    }

    /// A frame with a delta of this size becomes a keyframe: the interval is
    /// over, or the delta exceeds the threshold and three times the average.
    pub open spec fn promotes(self, delta_size: u32) -> bool {
        self.frames_since_keyframe + 1 >= self.base_interval || (delta_size > self.spike_threshold
            && delta_size > self.next_average(delta_size) * 3)
    }

    /// The policy after a frame with a delta of this size.
    pub open spec fn stepped(self, delta_size: u32) -> KeyframePolicy {
        KeyframePolicy {
            rolling_avg: self.next_average(delta_size),
            frames_since_keyframe: if self.promotes(delta_size) {
                0
            } else {
                (self.frames_since_keyframe + 1) as u64
            },
            ..self
        }
    }

    /// Creates a policy.
    #[must_use]
    pub fn new(base_interval: u64, spike_threshold: u32) -> (r: Self)
        ensures
            r == fresh_policy(base_interval, spike_threshold),
            r.wf(),
    {
        KeyframePolicy {
            base_interval: if base_interval == 0 {
                1
            } else {
                base_interval
            },
            spike_threshold,
            frames_since_keyframe: 0,
            rolling_avg: 0,
        }
    }

    /// Records a delta of `delta_size` bytes and returns whether the current
    /// frame should be a keyframe.
    pub fn should_promote(&mut self, delta_size: u32) -> (r: bool)
        requires
            old(self).wf(),
        ensures
            r == old(self).promotes(delta_size),
            *final(self) == old(self).stepped(delta_size),
            final(self).wf(),
    {
        self.frames_since_keyframe = self.frames_since_keyframe + 1;
        self.rolling_avg = delta_size / 8 + ((self.rolling_avg as u64 * 7) / 8) as u32;
        let interval_hit = self.frames_since_keyframe >= self.base_interval;
        let spike = delta_size > self.spike_threshold && delta_size as u64 > self.rolling_avg as u64
            * 3;
        if interval_hit || spike {
            self.frames_since_keyframe = 0;
            true
        } else {
            false
        }
    }
}

// ── Timeline ─────────────────────────────────────────────────────────────

/// A full snapshot anchor stored at a frame boundary.
#[derive(Debug, Clone)]
pub struct Keyframe {
    pub frame_id: u64,
    pub snapshot: GenesisCoreSnapshot,
}

/// Mathematical model of a keyframe.
pub ghost struct KeyState {
    pub frame_id: u64,
    pub snapshot: SnapshotState,
}

impl View for Keyframe {
    type V = KeyState;

    open spec fn view(&self) -> KeyState {
        KeyState { frame_id: self.frame_id, snapshot: self.snapshot@ }
    }
}

/// The anchor + delta ring: a bounded window of keyframes and per-frame deltas.
#[derive(Debug, Clone)]
pub struct CompressedTimeline {
    pub keyframes: VecDeque<Keyframe>,
    pub deltas: VecDeque<FrameDelta>,
    /// Budget of frame slots, keyframes and deltas together.
    pub max_frames: u64,
    pub policy: KeyframePolicy,
    pub last_snapshot: Option<GenesisCoreSnapshot>,
    pub last_frame_id: Option<u64>,
}

/// Mathematical model of a timeline.
#[verifier::ext_equal]
pub ghost struct TimelineState {
    pub keyframes: Seq<KeyState>,
    pub deltas: Seq<DeltaState>,
    pub max_frames: u64,
    pub policy: KeyframePolicy,
    pub last_snapshot: Option<SnapshotState>,
    pub last_frame_id: Option<u64>,
}

/// The models of keyframes.
pub open spec fn keys_of(s: Seq<Keyframe>) -> Seq<KeyState> {
    Seq::new(s.len(), |i: int| s[i]@)
}

/// The models of deltas.
pub open spec fn deltas_of(s: Seq<FrameDelta>) -> Seq<DeltaState> {
    Seq::new(s.len(), |i: int| s[i]@)
}

impl View for CompressedTimeline {
    type V = TimelineState;

    open spec fn view(&self) -> TimelineState {
        TimelineState {
            keyframes: keys_of(self.keyframes@),
            deltas: deltas_of(self.deltas@),
            max_frames: self.max_frames,
            policy: self.policy,
            last_snapshot: match self.last_snapshot {
                Some(s) => Some(s@),
                None => None,
            },
            last_frame_id: self.last_frame_id,
        }
    }
}

/// An empty timeline with a budget of at least one slot.
pub open spec fn empty_timeline(max_frames: u64, policy: KeyframePolicy) -> TimelineState {
    TimelineState {
        keyframes: Seq::empty(),
        deltas: Seq::empty(),
        max_frames: if max_frames == 0 {
            1
        } else {
            max_frames
        },
        policy,
        last_snapshot: None,
        last_frame_id: None,
    }
}

/// The latest of the first `n` keyframes at or before a frame.
pub open spec fn best_key(keys: Seq<KeyState>, target: u64, n: nat) -> Option<int>
    decreases n,
{
    if n == 0 {
        None
    } else {
        let i = n - 1;
        let rest = best_key(keys, target, i as nat);
        if keys[i].frame_id <= target && match rest {
            Some(k) => keys[k].frame_id <= keys[i].frame_id,
            None => true,
        } {
            Some(i)
        } else {
            rest
        }
    }
}

/// A state after those of the first `n` deltas that lie after frame `from` and
/// not after frame `to`.
pub open spec fn replayed(
    state: SnapshotState,
    deltas: Seq<DeltaState>,
    from: u64,
    to: u64,
    n: nat,
) -> SnapshotState
    decreases n,
{
    if n == 0 {
        state
    } else {
        let prev = replayed(state, deltas, from, to, (n - 1) as nat);
        let d = deltas[n - 1];
        if from < d.frame_id && d.frame_id <= to {
            delta_applied(prev, d)
        } else {
            prev
        }
    }
}

/// The state at a frame: the latest keyframe at or before it, and the deltas up
/// to it. Frames after the last one, or before the first keyframe, have none.
pub open spec fn state_at(
    keys: Seq<KeyState>,
    deltas: Seq<DeltaState>,
    target: u64,
) -> Option<SnapshotState> {
    match best_key(keys, target, keys.len()) {
        Some(k) => Some(
            replayed(keys[k].snapshot, deltas, keys[k].frame_id, target, deltas.len()),
        ),
        None => None,
    }
}

/// The reconstructed state of a frame.
pub open spec fn reconstructed(t: TimelineState, target: u64) -> Option<SnapshotState> {
    match t.last_frame_id {
        Some(last) => if target <= last {
            state_at(t.keyframes, t.deltas, target)
        } else {
            None
        },
        None => None,
    }
}

/// The newest frame of the stored keyframes and deltas.
pub open spec fn newest_of(keys: Seq<KeyState>, deltas: Seq<DeltaState>) -> Option<u64> {
    if keys.len() > 0 && deltas.len() > 0 {
        Some(
            if keys.last().frame_id >= deltas.last().frame_id {
                keys.last().frame_id
            } else {
                deltas.last().frame_id
            },
        )
    } else if keys.len() > 0 {
        Some(keys.last().frame_id)
    } else if deltas.len() > 0 {
        Some(deltas.last().frame_id)
    } else {
        None
    }
}

/// Those of the first `n` keyframes that lie at or before a frame.
pub open spec fn keys_until(keys: Seq<KeyState>, target: u64, n: nat) -> Seq<KeyState>
    decreases n,
{
    if n == 0 {
        Seq::empty()
    } else {
        let rest = keys_until(keys, target, (n - 1) as nat);
        if keys[n - 1].frame_id <= target {
            rest.push(keys[n - 1])
        } else {
            rest
        }
    }
}

/// Those of the first `n` deltas that lie at or before a frame.
pub open spec fn deltas_until(deltas: Seq<DeltaState>, target: u64, n: nat) -> Seq<DeltaState>
    decreases n,
{
    if n == 0 {
        Seq::empty()
    } else {
        let rest = deltas_until(deltas, target, (n - 1) as nat);
        if deltas[n - 1].frame_id <= target {
            rest.push(deltas[n - 1])
        } else {
            rest
        }
    }
}

/// The timeline without everything after a frame. Its last state is the one
/// reconstructed there.
#[verifier::opaque]
pub open spec fn truncated(t: TimelineState, target: u64) -> TimelineState {
    let keys = keys_until(t.keyframes, target, t.keyframes.len());
    let deltas = deltas_until(t.deltas, target, t.deltas.len());
    let newest = newest_of(keys, deltas);
    let state = match newest {
        Some(f) => state_at(keys, deltas, f),
        None => None,
    };
    TimelineState {
        keyframes: keys,
        deltas,
        last_snapshot: state,
        last_frame_id: match state {
            Some(s) => newest,
            None => None,
        },
        ..t
    }
}

/// The deltas from the next keyframe on; none without one.
pub open spec fn deltas_from(deltas: Seq<DeltaState>, next: Option<u64>) -> Seq<DeltaState>
    decreases deltas.len(),
{
    if deltas.len() == 0 {
        deltas
    } else {
        match next {
            Some(id) => if deltas[0].frame_id >= id {
                deltas
            } else {
                deltas_from(deltas.drop_first(), next)
            },
            None => deltas_from(deltas.drop_first(), next),
        }
    }
}

/// The oldest delta belongs to the segment of the first keyframe.
pub open spec fn absorbs(t: TimelineState) -> bool {
    &&& t.keyframes.len() > 0
    &&& t.deltas.len() > 0
    &&& t.deltas[0].frame_id > t.keyframes[0].frame_id
    &&& t.keyframes.len() > 1 ==> t.deltas[0].frame_id < t.keyframes[1].frame_id
}

/// The timeline with its oldest slot gone: the oldest delta absorbed into the
/// first keyframe, or the first keyframe dropped with the deltas that only it
/// could reach.
pub open spec fn prune_step(t: TimelineState) -> TimelineState {
    if absorbs(t) {
        TimelineState {
            keyframes: t.keyframes.update(
                0,
                KeyState {
                    frame_id: t.deltas[0].frame_id,
                    snapshot: delta_applied(t.keyframes[0].snapshot, t.deltas[0]),
                },
            ),
            deltas: t.deltas.drop_first(),
            ..t
        }
    } else if t.keyframes.len() > 0 {
        let keys = t.keyframes.drop_first();
        TimelineState {
            keyframes: keys,
            deltas: deltas_from(
                t.deltas,
                if keys.len() > 0 {
                    Some(keys[0].frame_id)
                } else {
                    None
                },
            ),
            ..t
        }
    } else {
        TimelineState { deltas: t.deltas.drop_first(), ..t }
    }
}

/// The number of slots in use.
pub open spec fn slots(t: TimelineState) -> nat {
    t.keyframes.len() + t.deltas.len()
}

/// Dropping deltas leaves no more.
pub proof fn lemma_deltas_from_len(deltas: Seq<DeltaState>, next: Option<u64>)
    ensures
        deltas_from(deltas, next).len() <= deltas.len(),
    decreases deltas.len(),
{
    if deltas.len() > 0 {
        lemma_deltas_from_len(deltas.drop_first(), next);
    }
}

/// Pruning a timeline that holds a slot leaves one less or fewer.
proof fn lemma_prune_step_shrinks(t: TimelineState)
    requires
        slots(t) > 0,
    ensures
        slots(prune_step(t)) < slots(t),
{
    if !absorbs(t) && t.keyframes.len() > 0 {
        let keys = t.keyframes.drop_first();
        lemma_deltas_from_len(
            t.deltas,
            if keys.len() > 0 {
                Some(keys[0].frame_id)
            } else {
                None
            },
        );
    }
}

/// The timeline within its budget.
pub open spec fn pruned(t: TimelineState) -> TimelineState
    decreases slots(t),
    via pruned_decreases
{
    if slots(t) > t.max_frames && slots(t) > 0 {
        pruned(prune_step(t))
    } else {
        t
    }
}

#[via_fn]
proof fn pruned_decreases(t: TimelineState) {
    if slots(t) > 0 {
        lemma_prune_step_shrinks(t);
    }
}

/// The timeline with a frame added at its end, as a keyframe or as a delta from
/// the last state, before pruning.
pub open spec fn appended(
    t: TimelineState,
    frame_id: u64,
    snapshot: SnapshotState,
    input: FrameInput,
) -> TimelineState {
    let key = KeyState { frame_id, snapshot };
    let ended = TimelineState {
        last_snapshot: Some(snapshot),
        last_frame_id: Some(frame_id),
        ..t
    };
    match t.last_snapshot {
        Some(prev) => {
            let d = delta_between(prev, snapshot, input);
            let policy = t.policy.stepped(d.compressed_size);
            if t.policy.promotes(d.compressed_size) {
                TimelineState { keyframes: t.keyframes.push(key), policy, ..ended }
            } else {
                TimelineState { deltas: t.deltas.push(d), policy, ..ended }
            }
        },
        None => TimelineState { keyframes: t.keyframes.push(key), ..ended },
    }
}

/// The timeline that a new frame continues: without everything at or after the
/// frame, where it is not after the last one.
pub open spec fn continued(t: TimelineState, frame_id: u64) -> TimelineState {
    match t.last_frame_id {
        Some(last) => if frame_id > last {
            t
        } else if frame_id == 0 {
            cleared(t)
        } else {
            truncated(t, (frame_id - 1) as u64)
        },
        None => t,
    }
}

/// The timeline with nothing recorded, under its budget and its policy.
pub open spec fn cleared(t: TimelineState) -> TimelineState {
    TimelineState {
        keyframes: Seq::empty(),
        deltas: Seq::empty(),
        last_snapshot: None,
        last_frame_id: None,
        ..t
    }
}

/// The timeline after a frame is recorded.
pub open spec fn recorded(
    t: TimelineState,
    frame_id: u64,
    snapshot: SnapshotState,
    input: FrameInput,
) -> TimelineState {
    pruned(appended(continued(t, frame_id), frame_id, snapshot, input))
}

/// The frame id of the first keyframe.
pub open spec fn oldest_of(t: TimelineState) -> Option<u64> {
    if t.keyframes.len() > 0 {
        Some(t.keyframes[0].frame_id)
    } else {
        None
    }
}

/// The input of the first of the deltas from `i` on that belongs to a frame.
pub open spec fn input_from(deltas: Seq<DeltaState>, frame_id: u64, i: int) -> Option<FrameInput>
    decreases deltas.len() - i,
{
    if i < 0 || i >= deltas.len() {
        None
    } else if deltas[i].frame_id == frame_id {
        Some(deltas[i].input)
    } else {
        input_from(deltas, frame_id, i + 1)
    }
}

/// Bytes charged for a snapshot beyond its large buffers.
pub const SMALL_COMPONENT_BYTES: usize = 2048;

/// Bytes charged for a snapshot.
pub open spec fn snapshot_bytes(s: SnapshotState) -> int {
    s.work_ram.len() as int + s.z80_ram.len() as int + s.vdp.vram.len() as int + s.vdp.cram.len()
        as int * 2 + s.vdp.vsram.len() as int * 2 + s.vdp.registers.len() as int
        + SMALL_COMPONENT_BYTES
}

/// Bytes charged for the first `n` keyframes.
pub open spec fn key_bytes(keys: Seq<KeyState>, n: nat) -> int
    decreases n,
{
    if n == 0 {
        0
    } else {
        key_bytes(keys, (n - 1) as nat) + snapshot_bytes(keys[n - 1].snapshot)
    }
}

/// Bytes charged for the first `n` deltas.
pub open spec fn all_delta_bytes(deltas: Seq<DeltaState>, n: nat) -> int
    decreases n,
{
    if n == 0 {
        0
    } else {
        all_delta_bytes(deltas, (n - 1) as nat) + delta_bytes(deltas[n - 1])
    }
}

/// Bytes charged for a timeline.
pub open spec fn timeline_bytes(t: TimelineState) -> int {
    key_bytes(t.keyframes, t.keyframes.len()) + all_delta_bytes(t.deltas, t.deltas.len())
}

// ── Executable timeline ──────────────────────────────────────────────────

/// Estimates the bytes of a snapshot. Saturates.
fn snapshot_estimated_bytes(s: &GenesisCoreSnapshot) -> (r: usize)
    ensures
        r == saturated(snapshot_bytes(s@)),
{
    let a: usize = saturating_sum(s.work_ram.len(), s.z80_ram.len());
    let b: usize = saturating_sum(a, s.vdp.vram.len());
    let c: usize = saturating_sum(s.vdp.cram.len(), s.vdp.cram.len());
    let d: usize = saturating_sum(s.vdp.vsram.len(), s.vdp.vsram.len());
    let e: usize = saturating_sum(saturating_sum(b, c), d);
    saturating_sum(saturating_sum(e, s.vdp.registers.len()), SMALL_COMPONENT_BYTES)
}

impl CompressedTimeline {
    /// The policy counter can count on, and there is a slot to spend.
    pub open spec fn wf(self) -> bool {
        self.policy.wf() && self.max_frames >= 1
    }

    /// Creates an empty timeline.
    #[must_use]
    pub fn new(max_frames: u64, policy: KeyframePolicy) -> (r: Self)
        ensures
            r@ == empty_timeline(max_frames, policy),
            policy.wf() ==> r.wf(),
    {
        let r = CompressedTimeline {
            keyframes: VecDeque::new(),
            deltas: VecDeque::new(),
            max_frames: if max_frames == 0 {
                1
            } else {
                max_frames
            },
            policy,
            last_snapshot: None,
            last_frame_id: None,
        };
        assert(r@ =~= empty_timeline(max_frames, policy));
        r
    }

    /// Number of stored frame slots. Saturates.
    #[must_use]
    pub fn len(&self) -> (r: usize)
        ensures
            r == saturated(slots(self@) as int),
    {
        saturating_sum(self.keyframes.len(), self.deltas.len())
    }

    /// Whether no frame is stored.
    #[must_use]
    pub fn is_empty(&self) -> (r: bool)
        ensures
            r == (slots(self@) == 0),
    {
        self.len() == 0
    }

    /// Records `snapshot` (for `frame_id`) with the input that produced it.
    ///
    /// The first frame is always a keyframe; subsequent frames become deltas
    /// unless the policy promotes them. If `frame_id` is not after the last
    /// recorded frame, the forward history is truncated first: everything at or
    /// after the frame is dropped, so that the new state overwrites it.
    pub fn push(&mut self, frame_id: u64, snapshot: GenesisCoreSnapshot, input: FrameInput)
        requires
            old(self).wf(),
        ensures
            final(self)@ == recorded(old(self)@, frame_id, snapshot@, input),
            final(self).wf(),
    {
        if let Some(last) = self.last_frame_id {
            if frame_id <= last {
                if frame_id == 0 {
                    self.clear();
                } else {
                    self.truncate_after(frame_id - 1);
                }
            }
        }
        assert(self@ == continued(old(self)@, frame_id));
        self.append(frame_id, snapshot, input);
        self.prune();
    }

    /// Drops everything recorded.
    fn clear(&mut self)
        ensures
            final(self)@ == cleared(old(self)@),
            final(self).policy == old(self).policy,
            final(self).max_frames == old(self).max_frames,
    {
        self.keyframes = VecDeque::new();
        self.deltas = VecDeque::new();
        self.last_snapshot = None;
        self.last_frame_id = None;
        assert(self@ =~= cleared(old(self)@));
    }

    /// Adds a frame at the end.
    fn append(&mut self, frame_id: u64, snapshot: GenesisCoreSnapshot, input: FrameInput)
        requires
            old(self).wf(),
        ensures
            final(self)@ == appended(old(self)@, frame_id, snapshot@, input),
            final(self).wf(),
            final(self).max_frames == old(self).max_frames,
    {
        let copy = snapshot.clone();
        let delta = match &self.last_snapshot {
            Some(prev) => Some(FrameDelta::compute(prev, &snapshot, input)),
            None => None,
        };
        match delta {
            Some(d) => {
                if self.policy.should_promote(d.compressed_size) {
                    self.push_key(Keyframe { frame_id, snapshot: copy });
                } else {
                    self.push_delta(d);
                }
            },
            None => {
                self.push_key(Keyframe { frame_id, snapshot: copy });
            },
        }
        self.last_snapshot = Some(snapshot);
        self.last_frame_id = Some(frame_id);
    }

    /// Adds a keyframe at the end.
    fn push_key(&mut self, key: Keyframe)
        ensures
            final(self)@ == (TimelineState {
                keyframes: old(self)@.keyframes.push(key@),
                ..old(self)@
            }),
    {
        self.keyframes.push_back(key);
        assert(keys_of(self.keyframes@) =~= old(self)@.keyframes.push(key@));
    }

    /// Adds a delta at the end.
    fn push_delta(&mut self, delta: FrameDelta)
        ensures
            final(self)@ == (TimelineState {
                deltas: old(self)@.deltas.push(delta@),
                ..old(self)@
            }),
    {
        self.deltas.push_back(delta);
        assert(deltas_of(self.deltas@) =~= old(self)@.deltas.push(delta@));
    }

    /// The position of the latest keyframe at or before a frame.
    fn find_key(&self, target: u64) -> (r: Option<usize>)
        ensures
            match r {
                Some(k) => best_key(self@.keyframes, target, self@.keyframes.len()) == Some(
                    k as int,
                ) && k < self.keyframes@.len(),
                None => best_key(self@.keyframes, target, self@.keyframes.len()) is None,
            },
    {
        let mut best: Option<usize> = None;
        let mut i: usize = 0;
        while i < self.keyframes.len()
            invariant
                i <= self.keyframes@.len(),
                match best {
                    Some(k) => k < i && best_key(self@.keyframes, target, i as nat) == Some(
                        k as int,
                    ),
                    None => best_key(self@.keyframes, target, i as nat) is None,
                },
            decreases self.keyframes@.len() - i,
        {
            let id: u64 = self.keyframes[i].frame_id;
            assert(self@.keyframes[i as int].frame_id == id);
            if id <= target {
                match best {
                    Some(k) => {
                        assert(self@.keyframes[k as int].frame_id == self.keyframes@[k as int]
                            .frame_id);
                        if self.keyframes[k].frame_id <= id {
                            best = Some(i);
                        }
                    },
                    None => {
                        best = Some(i);
                    },
                }
            }
            i = i + 1;
        }
        best
    }

    /// The state at a frame, whatever the last frame is.
    fn state_of(&self, target: u64) -> (r: Option<GenesisCoreSnapshot>)
        ensures
            match r {
                Some(s) => state_at(self@.keyframes, self@.deltas, target) == Some(s@),
                None => state_at(self@.keyframes, self@.deltas, target) is None,
            },
    {
        match self.find_key(target) {
            Some(k) => {
                let from: u64 = self.keyframes[k].frame_id;
                let mut state = self.keyframes[k].snapshot.clone();
                let ghost base = self@.keyframes[k as int].snapshot;
                let mut i: usize = 0;
                while i < self.deltas.len()
                    invariant
                        i <= self.deltas@.len(),
                        state@ == replayed(base, self@.deltas, from, target, i as nat),
                    decreases self.deltas@.len() - i,
                {
                    let id: u64 = self.deltas[i].frame_id;
                    assert(self@.deltas[i as int] == self.deltas@[i as int]@);
                    if from < id && id <= target {
                        self.deltas[i].apply(&mut state);
                    }
                    i = i + 1;
                }
                Some(state)
            },
            None => None,
        }
    }

    /// Reconstructs the snapshot for `target_frame_id`, or `None` if it is
    /// outside the retained window.
    #[must_use]
    pub fn reconstruct(&self, target_frame_id: u64) -> (r: Option<GenesisCoreSnapshot>)
        ensures
            match r {
                Some(s) => reconstructed(self@, target_frame_id) == Some(s@),
                None => reconstructed(self@, target_frame_id) is None,
            },
    {
        match self.last_frame_id {
            Some(last) => {
                if target_frame_id <= last {
                    self.state_of(target_frame_id)
                } else {
                    None
                }
            },
            None => None,
        }
    }

    /// Keeps the keyframes at or before a frame.
    fn retain_keys(&mut self, target: u64)
        ensures
            final(self)@ == (TimelineState {
                keyframes: keys_until(
                    old(self)@.keyframes,
                    target,
                    old(self)@.keyframes.len(),
                ),
                ..old(self)@
            }),
    {
        let ghost all = self@.keyframes;
        let mut kept: VecDeque<Keyframe> = VecDeque::new();
        let mut n: Ghost<nat> = Ghost(0);
        assert(keys_of(kept@) =~= keys_until(all, target, 0));
        while self.keyframes.len() > 0
            invariant
                n@ + self.keyframes@.len() == all.len(),
                self@ == (TimelineState {
                    keyframes: all.subrange(n@ as int, all.len() as int),
                    ..old(self)@
                }),
                keys_of(kept@) == keys_until(all, target, n@),
            decreases self.keyframes@.len(),
        {
            let ghost before = self.keyframes@;
            if let Some(key) = self.keyframes.pop_front() {
                proof {
                    assert(key == before[0]);
                    assert(forall|i: int| 0 <= i < before.len() ==> #[trigger] before[i]@
                        == all.subrange(n@ as int, all.len() as int)[i]) by {
                        assert(keys_of(before) == all.subrange(n@ as int, all.len() as int));
                        assert(forall|i: int|
                            0 <= i < before.len() ==> #[trigger] before[i]@ == keys_of(before)[i]);
                    }
                    assert(all.subrange(n@ as int, all.len() as int)[0] == key@);
                    assert(all[n@ as int] == key@);
                }
                let ghost old_kept = keys_of(kept@);
                if key.frame_id <= target {
                    kept.push_back(key);
                    assert(keys_of(kept@) =~= old_kept.push(all[n@ as int]));
                }
                proof {
                    n@ = n@ + 1;
                    assert(keys_of(self.keyframes@) =~= all.subrange(
                        n@ as int,
                        all.len() as int,
                    ));
                }
            }
        }
        self.keyframes = kept;
    }

    /// Keeps the deltas at or before a frame.
    fn retain_deltas(&mut self, target: u64)
        ensures
            final(self)@ == (TimelineState {
                deltas: deltas_until(old(self)@.deltas, target, old(self)@.deltas.len()),
                ..old(self)@
            }),
    {
        let ghost all = self@.deltas;
        let mut kept: VecDeque<FrameDelta> = VecDeque::new();
        let mut n: Ghost<nat> = Ghost(0);
        assert(deltas_of(kept@) =~= deltas_until(all, target, 0));
        while self.deltas.len() > 0
            invariant
                n@ + self.deltas@.len() == all.len(),
                self@ == (TimelineState {
                    deltas: all.subrange(n@ as int, all.len() as int),
                    ..old(self)@
                }),
                deltas_of(kept@) == deltas_until(all, target, n@),
            decreases self.deltas@.len(),
        {
            let ghost before = self.deltas@;
            if let Some(delta) = self.deltas.pop_front() {
                proof {
                    assert(delta == before[0]);
                    assert(forall|i: int| 0 <= i < before.len() ==> #[trigger] before[i]@
                        == all.subrange(n@ as int, all.len() as int)[i]) by {
                        assert(deltas_of(before) == all.subrange(n@ as int, all.len() as int));
                        assert(forall|i: int|
                            0 <= i < before.len() ==> #[trigger] before[i]@ == deltas_of(before)[i]);
                    }
                    assert(all.subrange(n@ as int, all.len() as int)[0] == delta@);
                    assert(all[n@ as int] == delta@);
                }
                let ghost old_kept = deltas_of(kept@);
                if delta.frame_id <= target {
                    kept.push_back(delta);
                    assert(deltas_of(kept@) =~= old_kept.push(all[n@ as int]));
                }
                proof {
                    n@ = n@ + 1;
                    assert(deltas_of(self.deltas@) =~= all.subrange(n@ as int, all.len() as int));
                }
            }
        }
        self.deltas = kept;
    }

    /// Drops all keyframes and deltas after `target`, and resets the last state
    /// to the one reconstructed at the newest frame that is left.
    pub fn truncate_after(&mut self, target: u64)
        ensures
            final(self)@ == truncated(old(self)@, target),
            old(self).wf() ==> final(self).wf(),
    {
        reveal(truncated);
        self.retain_keys(target);
        self.retain_deltas(target);
        let newest: Option<u64> = self.newest_frame();
        match newest {
            Some(f) => {
                self.last_snapshot = self.state_of(f);
            },
            None => {
                self.last_snapshot = None;
            },
        }
        self.last_frame_id = if self.last_snapshot.is_some() {
            newest
        } else {
            None
        };
    }

    /// Removes the oldest slot.
    fn prune_once(&mut self)
        requires
            slots(old(self)@) > 0,
        ensures
            final(self)@ == prune_step(old(self)@),
            final(self).max_frames == old(self).max_frames,
            final(self).policy == old(self).policy,
    {
        let ghost t = self@;
        let ghost keys = self.keyframes@;
        let ghost ds = self.deltas@;
        if self.keyframes.len() > 0 && self.deltas.len() > 0 && self.deltas[0].frame_id
            > self.keyframes[0].frame_id && (self.keyframes.len() <= 1 || self.deltas[0].frame_id
            < self.keyframes[1].frame_id) {
            assert(absorbs(t));
            if let Some(delta) = self.deltas.pop_front() {
                if let Some(key) = self.keyframes.pop_front() {
                    let mut snapshot = key.snapshot;
                    delta.apply(&mut snapshot);
                    self.keyframes.push_front(Keyframe { frame_id: delta.frame_id, snapshot });
                }
            }
            assert(self@ =~= prune_step(t));
        } else if self.keyframes.len() > 0 {
            assert(!absorbs(t));
            let _ = self.keyframes.pop_front();
            assert(keys_of(self.keyframes@) =~= t.keyframes.drop_first());
            let next: Option<u64> = if self.keyframes.len() > 0 {
                Some(self.keyframes[0].frame_id)
            } else {
                None
            };
            self.drop_deltas_before(next);
            assert(self@ =~= prune_step(t));
        } else {
            let _ = self.deltas.pop_front();
            assert(deltas_of(self.deltas@) =~= t.deltas.drop_first());
        }
    }

    /// Drops the deltas before the next keyframe.
    fn drop_deltas_before(&mut self, next: Option<u64>)
        ensures
            final(self)@ == (TimelineState {
                deltas: deltas_from(old(self)@.deltas, next),
                ..old(self)@
            }),
    {
        let mut done = false;
        while !done && self.deltas.len() > 0
            invariant
                self@ == (TimelineState { deltas: self@.deltas, ..old(self)@ }),
                done ==> self@.deltas == deltas_from(old(self)@.deltas, next),
                !done ==> deltas_from(self@.deltas, next) == deltas_from(old(self)@.deltas, next),
            decreases
                    self.deltas@.len() + if done {
                        0int
                    } else {
                        1int
                    },
        {
            let keep = match next {
                Some(id) => self.deltas[0].frame_id >= id,
                None => false,
            };
            if keep {
                done = true;
            } else {
                let ghost before = self@.deltas;
                let _ = self.deltas.pop_front();
                assert(self@.deltas =~= before.drop_first());
            }
        }
    }

    /// Removes the oldest frame slots until within the budget.
    pub fn prune(&mut self)
        ensures
            final(self)@ == pruned(old(self)@),
            old(self).wf() ==> final(self).wf(),
    {
        while self.keyframes.len() as u128 + self.deltas.len() as u128 > self.max_frames as u128
            invariant
                pruned(self@) == pruned(old(self)@),
                self.max_frames == old(self).max_frames,
                self.policy == old(self).policy,
            decreases slots(self@),
        {
            proof {
                lemma_prune_step_shrinks(self@);
            }
            self.prune_once();
        }
    }

    /// Oldest reconstructable frame id.
    #[must_use]
    pub fn oldest_frame(&self) -> (r: Option<u64>)
        ensures
            r == oldest_of(self@),
    {
        if self.keyframes.len() > 0 {
            Some(self.keyframes[0].frame_id)
        } else {
            None
        }
    }

    /// Newest recorded frame id.
    #[must_use]
    pub fn newest_frame(&self) -> (r: Option<u64>)
        ensures
            r == newest_of(self@.keyframes, self@.deltas),
    {
        let nk: usize = self.keyframes.len();
        let nd: usize = self.deltas.len();
        if nk > 0 && nd > 0 {
            let a: u64 = self.keyframes[nk - 1].frame_id;
            let b: u64 = self.deltas[nd - 1].frame_id;
            Some(
                if a >= b {
                    a
                } else {
                    b
                },
            )
        } else if nk > 0 {
            Some(self.keyframes[nk - 1].frame_id)
        } else if nd > 0 {
            Some(self.deltas[nd - 1].frame_id)
        } else {
            None
        }
    }

    /// Estimated heap bytes used by the stored keyframes and deltas. Saturates.
    #[must_use]
    pub fn estimated_bytes(&self) -> (r: usize)
        ensures
            r == saturated(timeline_bytes(self@)),
    {
        let mut total: usize = 0;
        let mut i: usize = 0;
        while i < self.keyframes.len()
            invariant
                i <= self.keyframes@.len(),
                total == saturated(key_bytes(self@.keyframes, i as nat)),
                key_bytes(self@.keyframes, i as nat) >= 0,
            decreases self.keyframes@.len() - i,
        {
            assert(self@.keyframes[i as int] == self.keyframes@[i as int]@);
            total = saturating_sum(total, snapshot_estimated_bytes(&self.keyframes[i].snapshot));
            i = i + 1;
        }
        let ghost keys = key_bytes(self@.keyframes, self@.keyframes.len());
        let mut j: usize = 0;
        while j < self.deltas.len()
            invariant
                j <= self.deltas@.len(),
                keys >= 0,
                total == saturated(keys + all_delta_bytes(self@.deltas, j as nat)),
                all_delta_bytes(self@.deltas, j as nat) >= 0,
            decreases self.deltas@.len() - j,
        {
            assert(self@.deltas[j as int] == self.deltas@[j as int]@);
            proof {
                crate::rewind::frame::lemma_delta_bytes_nonnegative(self@.deltas[j as int]);
            }
            total = saturating_sum(total, self.deltas[j].estimated_bytes());
            j = j + 1;
        }
        total
    }

    /// Returns the input recorded for `frame_id`, if it was stored as a delta.
    #[must_use]
    pub fn input_at(&self, frame_id: u64) -> (r: Option<FrameInput>)
        ensures
            r == input_from(self@.deltas, frame_id, 0),
    {
        let mut i: usize = 0;
        while i < self.deltas.len()
            invariant
                i <= self.deltas@.len(),
                input_from(self@.deltas, frame_id, i as int) == input_from(
                    self@.deltas,
                    frame_id,
                    0,
                ),
            decreases self.deltas@.len() - i,
        {
            assert(self@.deltas[i as int] == self.deltas@[i as int]@);
            if self.deltas[i].frame_id == frame_id {
                return Some(self.deltas[i].input);
            }
            i = i + 1;
        }
        None
    }
}

} // verus!
