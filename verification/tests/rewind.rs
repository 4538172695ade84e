//! The rewind timeline.
use genesoxide::api::{Command, GenesisCore, GenesisCoreSnapshot, Mapper};
use genesoxide::rewind::{
    apply_deltas, diff_array, CompressedTimeline, FieldDelta, FrameDelta, FrameInput,
    KeyframePolicy, RewindBuffer, RewindConfig,
};
use genesoxide::scheduler::Region;

#[test]
fn diff_and_apply_roundtrip() {
    let before = vec![0u8; 256];
    let mut after = before.clone();
    after[10] = 1;
    after[11] = 2;
    after[100] = 9;
    after[200] = 7;
    after[201] = 8;

    let deltas = diff_array(&before, &after);
    // Three coalesced runs: [10..12], [100..101], [200..202].
    assert_eq!(deltas.len(), 3);
    assert_eq!(deltas[0].offset, 10);
    assert_eq!(deltas[0].data, vec![1, 2]);

    let mut target = before.clone();
    apply_deltas(&mut target, &deltas);
    assert_eq!(target, after);
}

#[test]
fn diff_identical_is_empty() {
    let a = vec![5u8; 64];
    assert!(diff_array(&a, &a).is_empty());
}

#[test]
fn policy_promotes_on_interval() {
    let mut policy = KeyframePolicy::new(4, 1_000_000);
    assert!(!policy.should_promote(10));
    assert!(!policy.should_promote(10));
    assert!(!policy.should_promote(10));
    assert!(policy.should_promote(10)); // 4th frame hits interval
    assert!(!policy.should_promote(10)); // counter reset
}

#[test]
fn policy_promotes_on_spike() {
    let mut policy = KeyframePolicy::new(1_000_000, 100);
    // Warm up a low rolling average.
    for _ in 0..10 {
        assert!(!policy.should_promote(10));
    }
    // A big spike, above threshold and > 3x the average, promotes.
    assert!(policy.should_promote(5_000));
}

/// Produces a sequence of per-frame snapshots from a fresh core.
fn snapshot_sequence(frames: usize) -> Vec<(u64, GenesisCoreSnapshot)> {
    let mut core = GenesisCore::new();
    core.execute(Command::LoadRom(vec![0u8; 0x8000]));
    let mut out = Vec::new();
    for _ in 0..frames {
        core.execute(Command::StepFrame);
        out.push((core.frame_count(), core.snapshot()));
    }
    out
}

#[test]
fn frame_delta_compute_apply_matches() {
    let seq = snapshot_sequence(4);
    let before = &seq[1].1;
    let after = &seq[3].1;
    let delta = FrameDelta::compute(before, after, FrameInput::default());
    let mut target = before.clone();
    delta.apply(&mut target);
    assert!(target == *after, "FrameDelta apply did not reproduce state");
}

/// A delta carries all persistent state: backup RAM, mapper banks, the pending
/// vertical interrupt, DMA time, and the region with its override.
#[test]
fn delta_carries_new_persistent_state() {
    // Start from a real, internally-consistent snapshot.
    let seq = snapshot_sequence(1);
    let keyframe = seq[0].1.clone();

    // Build a target frame in which every one of the new fields differs
    // from the keyframe.
    let mut target = keyframe.clone();
    target.vdp.vint_pending = true;
    target.vdp.dma_busy_cpu_cycles = 12_345;
    target.vdp.region = Region::Pal;
    target.region = Region::Pal;
    target.overseas = false;
    target.region_override = Some(Region::Pal);
    target.mapper = Mapper::Ssf2 {
        banks: [7, 6, 5, 4, 3, 2, 1, 0],
    };
    // SRAM: flip the scalar flags and mutate a backing byte.
    assert!(
        !target.sram.data.is_empty(),
        "test setup expects a non-empty SRAM buffer",
    );
    target.sram.enabled = true;
    target.sram.touched = true;
    target.sram.dirty = true;
    let sram_idx = target.sram.data.len() / 2;
    target.sram.data[sram_idx] ^= 0xAB;

    // Sanity: the keyframe really does differ (otherwise the test is vacuous).
    assert_ne!(keyframe.vdp.vint_pending, target.vdp.vint_pending);
    assert_ne!(keyframe.mapper, target.mapper);
    assert_ne!(keyframe.sram.data, target.sram.data);

    // Compute the delta and replay it exactly as `reconstruct` does.
    let delta = FrameDelta::compute(&keyframe, &target, FrameInput::default());
    let mut recon = keyframe.clone();
    delta.apply(&mut recon);

    // Every new field must reconstruct to the target value, not the stale
    // keyframe value.
    assert_eq!(recon.vdp.vint_pending, target.vdp.vint_pending);
    assert_eq!(recon.vdp.dma_busy_cpu_cycles, target.vdp.dma_busy_cpu_cycles);
    assert_eq!(recon.vdp.region, target.vdp.region);
    assert_eq!(recon.region, target.region);
    assert_eq!(recon.overseas, target.overseas);
    assert_eq!(recon.region_override, target.region_override);
    assert_eq!(recon.mapper, target.mapper);
    assert_eq!(recon.sram.enabled, target.sram.enabled);
    assert_eq!(recon.sram.touched, target.sram.touched);
    assert_eq!(recon.sram.dirty, target.sram.dirty);
    assert_eq!(recon.sram.data, target.sram.data);

    // And the whole snapshot round-trips, proving nothing else drifted.
    assert!(recon == target, "full snapshot mismatch after delta replay");
}

#[test]
fn timeline_reconstructs_every_retained_frame() {
    let seq = snapshot_sequence(40);
    let policy = KeyframePolicy::new(8, 1 << 30);
    let mut tl = CompressedTimeline::new(1000, policy);
    for (fid, snap) in &seq {
        tl.push(*fid, snap.clone(), FrameInput::default());
    }
    // Every recorded frame reconstructs exactly.
    for (fid, snap) in &seq {
        let recon = tl.reconstruct(*fid).expect("frame retained");
        assert!(recon == *snap, "frame {fid} reconstruct mismatch");
    }
    // Out-of-window frames yield None.
    assert!(tl.reconstruct(seq.last().unwrap().0 + 1).is_none());
}

#[test]
fn timeline_respects_capacity() {
    let seq = snapshot_sequence(60);
    let policy = KeyframePolicy::new(8, 1 << 30);
    let max_frames = 20;
    let mut tl = CompressedTimeline::new(max_frames, policy);
    for (fid, snap) in &seq {
        tl.push(*fid, snap.clone(), FrameInput::default());
        assert!(tl.len() as u64 <= max_frames, "exceeded frame budget");
    }
    // The most recent frames are still reconstructable.
    let newest = tl.newest_frame().unwrap();
    let recon = tl.reconstruct(newest).expect("newest retained");
    assert!(recon == seq.last().unwrap().1);
}

#[test]
fn timeline_truncate_after_drops_future() {
    let seq = snapshot_sequence(20);
    let policy = KeyframePolicy::new(4, 1 << 30);
    let mut tl = CompressedTimeline::new(1000, policy);
    for (fid, snap) in &seq {
        tl.push(*fid, snap.clone(), FrameInput::default());
    }
    let target = seq[9].0;
    tl.truncate_after(target);
    assert_eq!(tl.newest_frame(), Some(target));
    assert!(tl.reconstruct(target).is_some());
    assert!(tl.reconstruct(seq[10].0).is_none());
    // Reconstruct at target still matches.
    assert!(tl.reconstruct(target).unwrap() == seq[9].1);
}

/// Frames before the last one can be recorded again: the future is dropped.
#[test]
fn recording_an_earlier_frame_drops_the_future() {
    let seq = snapshot_sequence(10);
    let mut tl = CompressedTimeline::new(1000, KeyframePolicy::new(4, 1 << 30));
    for (fid, snap) in &seq {
        tl.push(*fid, snap.clone(), FrameInput::default());
    }
    tl.push(seq[4].0, seq[4].1.clone(), FrameInput::default());
    assert_eq!(tl.newest_frame(), Some(seq[4].0));
    assert!(tl.reconstruct(seq[5].0).is_none());
    assert!(tl.reconstruct(seq[3].0).unwrap() == seq[3].1);
}

/// Inputs are kept with deltas, not with keyframes.
#[test]
fn inputs_are_kept_with_deltas() {
    let seq = snapshot_sequence(3);
    let mut tl = CompressedTimeline::new(1000, KeyframePolicy::new(100, 1 << 30));
    let input = FrameInput { port1_buttons: 0x0011, port2_buttons: 0x0200 };
    for (fid, snap) in &seq {
        tl.push(*fid, snap.clone(), input);
    }
    assert_eq!(tl.input_at(seq[0].0), None);
    assert_eq!(tl.input_at(seq[1].0), Some(input));
    assert_eq!(tl.input_at(99), None);
}

/// A keyframe is charged for its buffers and a fixed amount for the rest.
#[test]
fn one_keyframe_is_charged_its_buffers() {
    let seq = snapshot_sequence(1);
    let mut tl = CompressedTimeline::new(10, KeyframePolicy::new(4, 1 << 30));
    tl.push(seq[0].0, seq[0].1.clone(), FrameInput::default());
    assert_eq!(tl.len(), 1);
    assert!(!tl.is_empty());
    assert_eq!(tl.estimated_bytes(), 0x1_0000 + 0x2000 + 0x1_0000 + 64 * 2 + 40 * 2 + 24 + 2048);
}

/// The budget of a configuration, and what switching recording off does.
#[test]
fn rewind_buffer_follows_its_configuration() {
    let config = RewindConfig::default();
    assert_eq!(config.max_frames(), 1800);
    let none = RewindConfig { max_history_seconds: 0, ..config };
    assert_eq!(none.max_frames(), 1);
    let seq = snapshot_sequence(5);
    let mut buffer = RewindBuffer::new(config);
    for (fid, snap) in &seq {
        buffer.record(*fid, snap.clone(), FrameInput::default());
    }
    assert_eq!(buffer.frames_available(), 5);
    buffer.set_config(none);
    assert_eq!(buffer.frames_available(), 1);
    assert!(buffer.reconstruct(seq[4].0).unwrap() == seq[4].1);
    buffer.set_config(RewindConfig { enabled: false, ..config });
    assert_eq!(buffer.status().newest_frame, None);
    assert_eq!(buffer.memory_used(), 0);
    buffer.record(seq[0].0, seq[0].1.clone(), FrameInput::default());
    assert_eq!(buffer.frames_available(), 0);
}

/// Any run of frames as long as the interval holds a keyframe.
#[test]
fn interval_bounds_the_gap_between_keyframes() {
    let mut policy = KeyframePolicy::new(3, 100);
    let sizes = [10u32, 9_000, 20, 30, 40, 50, 60, 8_000, 1];
    let mut since = 0;
    for size in sizes {
        if policy.should_promote(size) {
            since = 0;
        } else {
            since += 1;
        }
        assert!(since < 3);
    }
}

/// Recording frame 0 again starts the timeline over.
#[test]
fn recording_frame_0_again_replaces_it() {
    let seq = snapshot_sequence(3);
    let mut tl = CompressedTimeline::new(10, KeyframePolicy::new(8, 1 << 30));
    tl.push(0, seq[0].1.clone(), FrameInput::default());
    tl.push(0, seq[1].1.clone(), FrameInput::default());
    assert_eq!(tl.len(), 1);
    assert!(tl.reconstruct(0).unwrap() == seq[1].1);
    tl.push(1, seq[2].1.clone(), FrameInput::default());
    assert_eq!(tl.len(), 2);
    tl.push(0, seq[0].1.clone(), FrameInput::default());
    assert_eq!(tl.len(), 1);
    assert!(tl.reconstruct(0).unwrap() == seq[0].1);
    assert!(tl.reconstruct(1).is_none());
}

/// Only what was recorded counts: gaps in the frame numbers hold no frames.
#[test]
fn gaps_in_the_recording_hold_no_frames() {
    let seq = snapshot_sequence(5);
    let mut buffer = RewindBuffer::new(RewindConfig::default());
    buffer.record(seq[0].0, seq[0].1.clone(), FrameInput::default());
    buffer.record(seq[4].0, seq[4].1.clone(), FrameInput::default());
    assert_eq!(buffer.frames_available(), 2);
    assert_eq!(buffer.status().frames_available, 2);
    assert_eq!(buffer.status().oldest_frame, Some(1));
    assert_eq!(buffer.status().newest_frame, Some(5));
    assert!(buffer.reconstruct(5).unwrap() == seq[4].1);
}

/// A policy that is past its interval promotes at once.
#[test]
fn overdue_policy_promotes() {
    let mut policy = KeyframePolicy::new(4, 1_000_000);
    policy.frames_since_keyframe = 100;
    assert!(policy.should_promote(10));
    assert_eq!(policy.frames_since_keyframe, 0);
}

/// A copy of a buffer goes its own way.
#[test]
fn cloned_buffer_is_independent() {
    let seq = snapshot_sequence(2);
    let mut buffer = RewindBuffer::new(RewindConfig::default());
    buffer.record(1, seq[0].1.clone(), FrameInput::default());
    let copy = buffer.clone();
    buffer.record(2, seq[1].1.clone(), FrameInput::default());
    assert_eq!(copy.frames_available(), 1);
    assert_eq!(buffer.frames_available(), 2);
    assert!(copy.reconstruct(1).unwrap() == seq[0].1);
}

/// The empty delta equals that of two equal states.
#[test]
fn default_field_delta_changes_nothing() {
    let seq = snapshot_sequence(1);
    assert!(FieldDelta::compute(&seq[0].1, &seq[0].1) == FieldDelta::default());
}

/// Truncating leaves the greatest stored frame at or before the target, and
/// doing so again changes nothing.
#[test]
fn truncating_leaves_the_greatest_earlier_frame() {
    let seq = snapshot_sequence(9);
    let mut tl = CompressedTimeline::new(1000, KeyframePolicy::new(3, 1 << 30));
    for k in [1, 2, 4, 7, 8] {
        tl.push(seq[k].0, seq[k].1.clone(), FrameInput::default());
    }
    // Stored: frames 2, 3, 5, 8, 9.
    for _ in 0..2 {
        tl.truncate_after(7);
        assert_eq!(tl.newest_frame(), Some(5));
        assert_eq!(tl.len(), 3);
        assert!(tl.reconstruct(5).unwrap() == seq[4].1);
        assert!(tl.reconstruct(3).unwrap() == seq[2].1);
        assert!(tl.reconstruct(6).is_none());
    }
    for _ in 0..2 {
        tl.truncate_after(1);
        assert_eq!(tl.newest_frame(), None);
        assert!(tl.is_empty());
        assert!(tl.reconstruct(2).is_none());
    }
}

/// A delta leads between states of other buffer sizes too, as long as the fixed
/// buffers keep theirs.
#[test]
fn delta_roundtrip_with_other_sizes() {
    let mut before = snapshot_sequence(1).remove(0).1;
    before.work_ram.truncate(100);
    before.z80_ram.clear();
    before.sram.data = vec![1, 2, 3];
    let mut after = before.clone();
    after.work_ram[99] = 7;
    after.sram.data = vec![1, 9, 3, 4, 5];
    let delta = FrameDelta::compute(&before, &after, FrameInput::default());
    let mut target = before.clone();
    delta.apply(&mut target);
    assert!(target == after);
    let back = FrameDelta::compute(&after, &before, FrameInput::default());
    back.apply(&mut target);
    assert!(target == before);
}
