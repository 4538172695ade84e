//! What holds of a timeline as a whole.
use vstd::prelude::*;

use crate::api::state::SnapshotState;
use crate::cpu::engine::{is_snapshot_of, snapshot_state};
use crate::rewind::frame::{
    bridges, delta_applied, delta_between, law_delta_roundtrip, law_delta_tags, DeltaState, FrameInput,
};
use crate::rewind::timeline::{
    absorbs, appended, best_key, cleared, continued, deltas_until, empty_timeline, keys_until, newest_of,
    oldest_of, prune_step, pruned, recorded, reconstructed, replayed, slots, state_at, truncated,
    KeyState, KeyframePolicy, TimelineState,
};

verus! {

/// The keyframes come in the order of their frames.
pub open spec fn keys_ordered(keys: Seq<KeyState>) -> bool {
    forall|i: int, j: int|
        #![trigger keys[i], keys[j]]
        0 <= i < j < keys.len() ==> keys[i].frame_id < keys[j].frame_id
}

/// The deltas come in the order of their frames.
pub open spec fn deltas_ordered(deltas: Seq<DeltaState>) -> bool {
    forall|i: int, j: int|
        #![trigger deltas[i], deltas[j]]
        0 <= i < j < deltas.len() ==> deltas[i].frame_id < deltas[j].frame_id
}

/// No frame is stored twice.
pub open spec fn disjoint_frames(keys: Seq<KeyState>, deltas: Seq<DeltaState>) -> bool {
    forall|i: int, j: int|
        #![trigger keys[i], deltas[j]]
        0 <= i < keys.len() && 0 <= j < deltas.len() ==> keys[i].frame_id != deltas[j].frame_id
}

/// A keyframe opens the history.
pub open spec fn anchored(keys: Seq<KeyState>, deltas: Seq<DeltaState>) -> bool {
    deltas.len() > 0 ==> keys.len() > 0 && keys[0].frame_id < deltas[0].frame_id
}

/// A timeline of frames in order, each stored once, a keyframe first.
pub open spec fn frames_ordered(t: TimelineState) -> bool {
    &&& keys_ordered(t.keyframes)
    &&& deltas_ordered(t.deltas)
    &&& disjoint_frames(t.keyframes, t.deltas)
    &&& anchored(t.keyframes, t.deltas)
    &&& t.last_frame_id == newest_of(t.keyframes, t.deltas)
    &&& t.last_snapshot is Some <==> t.last_frame_id is Some
    &&& t.max_frames >= 1
}

/// A history that can be replayed: frames in order, and the last state the one
/// that replaying gives.
pub open spec fn history_ok(t: TimelineState) -> bool {
    &&& frames_ordered(t)
    &&& match t.last_frame_id {
        Some(last) => t.last_snapshot == state_at(t.keyframes, t.deltas, last),
        None => t.last_snapshot is None,
    }
    &&& all_bridged(t)
}

/// Deltas can lead between any two states that can be reconstructed.
pub open spec fn all_bridged(t: TimelineState) -> bool {
    forall|f: u64, g: u64|
        (#[trigger] reconstructed(t, f)) is Some && (#[trigger] reconstructed(t, g)) is Some
            ==> bridges(reconstructed(t, f)->0, reconstructed(t, g)->0)
}

/// A snapshot can join a history: deltas can lead to it from every state that can
/// be reconstructed, and back, and from it to itself.
pub open spec fn joins(t: TimelineState, s: SnapshotState) -> bool {
    &&& bridges(s, s)
    &&& forall|f: u64|
        (#[trigger] reconstructed(t, f)) is Some ==> bridges(reconstructed(t, f)->0, s) && bridges(
            s,
            reconstructed(t, f)->0,
        )
}

// ── Where a frame is replayed from ───────────────────────────────────────

/// The latest keyframe at or before a frame, where the keyframes are in order.
proof fn lemma_best_key(keys: Seq<KeyState>, target: u64, n: nat)
    requires
        keys_ordered(keys),
        n <= keys.len(),
    ensures
        match best_key(keys, target, n) {
            Some(k) => 0 <= k < n && keys[k].frame_id <= target && (forall|i: int|
                k < i < n ==> #[trigger] keys[i].frame_id > target),
            None => forall|i: int| 0 <= i < n ==> #[trigger] keys[i].frame_id > target,
        },
    decreases n,
{
    if n > 0 {
        lemma_best_key(keys, target, (n - 1) as nat);
    }
}

/// Whatever is the latest keyframe at or before a frame is found.
proof fn lemma_best_key_is(keys: Seq<KeyState>, target: u64, k: int)
    requires
        keys_ordered(keys),
        0 <= k < keys.len(),
        keys[k].frame_id <= target,
        k + 1 < keys.len() ==> keys[k + 1].frame_id > target,
    ensures
        best_key(keys, target, keys.len()) == Some(k),
{
    lemma_best_key(keys, target, keys.len());
    let b = best_key(keys, target, keys.len());
    assert(b is Some);
    let m = b->0;
    if m < k {
        assert(keys[k].frame_id > target);
    } else if m > k {
        assert(keys[k + 1].frame_id <= keys[m].frame_id);
    }
}

/// Deltas that agree with another list's on the frames that count replay alike.
proof fn lemma_replay_prefix(
    state: SnapshotState,
    a: Seq<DeltaState>,
    b: Seq<DeltaState>,
    from: u64,
    to: u64,
    n: nat,
)
    requires
        n <= a.len(),
        n <= b.len(),
        forall|i: int| 0 <= i < n ==> a[i] == b[i],
    ensures
        replayed(state, a, from, to, n) == replayed(state, b, from, to, n),
    decreases n,
{
    if n > 0 {
        lemma_replay_prefix(state, a, b, from, to, (n - 1) as nat);
    }
}

/// Deltas past the wanted frame change nothing.
proof fn lemma_replay_beyond(
    state: SnapshotState,
    deltas: Seq<DeltaState>,
    from: u64,
    to: u64,
    m: nat,
    n: nat,
)
    requires
        m <= n <= deltas.len(),
        forall|i: int| m <= i < n ==> (#[trigger] deltas[i]).frame_id > to,
    ensures
        replayed(state, deltas, from, to, n) == replayed(state, deltas, from, to, m),
    decreases n,
{
    if n > m {
        lemma_replay_beyond(state, deltas, from, to, m, (n - 1) as nat);
    }
}

/// Wanting a later frame changes nothing where no delta lies between.
proof fn lemma_replay_gap(
    state: SnapshotState,
    deltas: Seq<DeltaState>,
    from: u64,
    to: u64,
    later: u64,
    n: nat,
)
    requires
        n <= deltas.len(),
        to <= later,
        forall|i: int| 0 <= i < n ==> (#[trigger] deltas[i]).frame_id <= to,
    ensures
        replayed(state, deltas, from, to, n) == replayed(state, deltas, from, later, n),
    decreases n,
{
    if n > 0 {
        lemma_replay_gap(state, deltas, from, to, later, (n - 1) as nat);
    }
}

/// A first delta that is not replayed can go.
proof fn lemma_replay_drop(
    state: SnapshotState,
    deltas: Seq<DeltaState>,
    from: u64,
    to: u64,
    n: nat,
)
    requires
        1 <= n <= deltas.len(),
        deltas[0].frame_id <= from,
    ensures
        replayed(state, deltas, from, to, n) == replayed(
            state,
            deltas.drop_first(),
            from,
            to,
            (n - 1) as nat,
        ),
    decreases n,
{
    if n > 1 {
        lemma_replay_drop(state, deltas, from, to, (n - 1) as nat);
        assert(deltas.drop_first()[n - 2] == deltas[n - 1]);
    } else {
        reveal_with_fuel(replayed, 2);
    }
}

/// A first delta that is replayed can be applied beforehand.
proof fn lemma_replay_absorb(
    state: SnapshotState,
    deltas: Seq<DeltaState>,
    from: u64,
    to: u64,
    n: nat,
)
    requires
        1 <= n <= deltas.len(),
        deltas_ordered(deltas),
        from < deltas[0].frame_id <= to,
    ensures
        replayed(state, deltas, from, to, n) == replayed(
            delta_applied(state, deltas[0]),
            deltas.drop_first(),
            deltas[0].frame_id,
            to,
            (n - 1) as nat,
        ),
    decreases n,
{
    if n > 1 {
        lemma_replay_absorb(state, deltas, from, to, (n - 1) as nat);
        assert(deltas.drop_first()[n - 2] == deltas[n - 1]);
    } else {
        reveal_with_fuel(replayed, 2);
    }
}

// ── Appending ────────────────────────────────────────────────────────────

/// All stored frames come before a frame.
pub open spec fn all_before(keys: Seq<KeyState>, deltas: Seq<DeltaState>, frame_id: u64) -> bool {
    &&& forall|i: int| 0 <= i < keys.len() ==> (#[trigger] keys[i]).frame_id < frame_id
    &&& forall|i: int| 0 <= i < deltas.len() ==> (#[trigger] deltas[i]).frame_id < frame_id
}

/// What a history holds comes before anything after its newest frame.
proof fn lemma_all_before(t: TimelineState, frame_id: u64)
    requires
        frames_ordered(t),
        t.last_frame_id matches Some(last) ==> last < frame_id,
    ensures
        all_before(t.keyframes, t.deltas, frame_id),
{
    assert forall|i: int| 0 <= i < t.keyframes.len() implies (#[trigger] t.keyframes[i]).frame_id
        < frame_id by {
        assert(t.keyframes[i].frame_id <= t.keyframes.last().frame_id);
    }
    assert forall|i: int| 0 <= i < t.deltas.len() implies (#[trigger] t.deltas[i]).frame_id
        < frame_id by {
        assert(t.deltas[i].frame_id <= t.deltas.last().frame_id);
    }
}

/// A new keyframe at the end leaves the states of earlier frames.
proof fn lemma_push_key_keeps(
    keys: Seq<KeyState>,
    deltas: Seq<DeltaState>,
    key: KeyState,
    target: u64,
)
    requires
        keys_ordered(keys),
        all_before(keys, deltas, key.frame_id),
        target < key.frame_id,
    ensures
        state_at(keys.push(key), deltas, target) == state_at(keys, deltas, target),
{
    let more = keys.push(key);
    assert(keys_ordered(more));
    lemma_best_key(more, target, more.len());
    lemma_best_key(keys, target, keys.len());
    match best_key(keys, target, keys.len()) {
        Some(k) => {
            assert(more[k] == keys[k]);
            assert(k + 1 < more.len());
            assert(more[k + 1].frame_id > target) by {
                if k + 1 < keys.len() {
                    assert(more[k + 1] == keys[k + 1]);
                }
            }
            lemma_best_key_is(more, target, k);
        },
        None => {
            assert forall|i: int| 0 <= i < more.len() implies (#[trigger] more[i]).frame_id
                > target by {
                if i < keys.len() {
                    assert(more[i] == keys[i]);
                }
            }
            assert(best_key(more, target, more.len()) is None);
        },
    }
}

/// A new keyframe at the end gives the state of its frame.
proof fn lemma_push_key_state(keys: Seq<KeyState>, deltas: Seq<DeltaState>, key: KeyState)
    requires
        keys_ordered(keys),
        all_before(keys, deltas, key.frame_id),
    ensures
        state_at(keys.push(key), deltas, key.frame_id) == Some(key.snapshot),
{
    let more = keys.push(key);
    assert(keys_ordered(more));
    lemma_best_key_is(more, key.frame_id, keys.len() as int);
    lemma_replay_nothing(key.snapshot, deltas, key.frame_id, deltas.len());
}

/// No delta lies after a frame and not after it.
proof fn lemma_replay_nothing(state: SnapshotState, deltas: Seq<DeltaState>, at: u64, n: nat)
    requires
        n <= deltas.len(),
    ensures
        replayed(state, deltas, at, at, n) == state,
    decreases n,
{
    if n > 0 {
        lemma_replay_nothing(state, deltas, at, (n - 1) as nat);
    }
}

/// A new delta at the end leaves the states of earlier frames.
proof fn lemma_push_delta_keeps(
    keys: Seq<KeyState>,
    deltas: Seq<DeltaState>,
    delta: DeltaState,
    target: u64,
)
    requires
        target < delta.frame_id,
    ensures
        state_at(keys, deltas.push(delta), target) == state_at(keys, deltas, target),
{
    let more = deltas.push(delta);
    match best_key(keys, target, keys.len()) {
        Some(k) => {
            let s = keys[k].snapshot;
            let from = keys[k].frame_id;
            lemma_replay_beyond(s, more, from, target, deltas.len(), more.len());
            lemma_replay_prefix(s, more, deltas, from, target, deltas.len());
        },
        None => {},
    }
}

/// A new delta at the end gives the last state with the delta applied.
proof fn lemma_push_delta_state(
    keys: Seq<KeyState>,
    deltas: Seq<DeltaState>,
    delta: DeltaState,
    last: u64,
)
    requires
        keys_ordered(keys),
        keys.len() > 0,
        newest_of(keys, deltas) == Some(last),
        deltas_ordered(deltas),
        last < delta.frame_id,
        all_before(keys, deltas, delta.frame_id),
        state_at(keys, deltas, last) is Some,
    ensures
        state_at(keys, deltas.push(delta), delta.frame_id) == Some(
            delta_applied(state_at(keys, deltas, last)->0, delta),
        ),
{
    let more = deltas.push(delta);
    let k = keys.len() - 1;
    lemma_best_key_is(keys, delta.frame_id, k);
    lemma_replay_prefix(
        keys[k].snapshot,
        more,
        deltas,
        keys[k].frame_id,
        delta.frame_id,
        deltas.len(),
    );
    lemma_state_after_last(keys, deltas, last, delta.frame_id);
}

/// Past the newest frame the state stays.
proof fn lemma_state_after_last(
    keys: Seq<KeyState>,
    deltas: Seq<DeltaState>,
    last: u64,
    later: u64,
)
    requires
        keys_ordered(keys),
        keys.len() > 0,
        newest_of(keys, deltas) == Some(last),
        deltas_ordered(deltas),
        last <= later,
    ensures
        state_at(keys, deltas, later) == state_at(keys, deltas, last),
        state_at(keys, deltas, last) is Some,
{
    let k = keys.len() - 1;
    lemma_best_key_is(keys, later, k);
    lemma_best_key_is(keys, last, k);
    assert forall|i: int| 0 <= i < deltas.len() implies (#[trigger] deltas[i]).frame_id
        <= last by {
        assert(deltas[i].frame_id <= deltas.last().frame_id);
    }
    lemma_replay_gap(
        keys[k].snapshot,
        deltas,
        keys[k].frame_id,
        last,
        later,
        deltas.len(),
    );
}

/// Appending a frame after the newest one leaves the states of earlier frames,
/// gives the state of the new one, and keeps the history in order.
proof fn lemma_appended(
    t: TimelineState,
    frame_id: u64,
    snapshot: SnapshotState,
    input: FrameInput,
)
    requires
        history_ok(t),
        t.last_frame_id matches Some(last) ==> last < frame_id,
        joins(t, snapshot),
        snapshot.frame_count == frame_id,
    ensures
        ({
            let a = appended(t, frame_id, snapshot, input);
            &&& history_ok(a)
            &&& a.last_frame_id == Some(frame_id)
            &&& a.max_frames == t.max_frames
            &&& state_at(a.keyframes, a.deltas, frame_id) == Some(snapshot)
            &&& forall|f: u64|
                f < frame_id ==> #[trigger] state_at(a.keyframes, a.deltas, f) == state_at(
                    t.keyframes,
                    t.deltas,
                    f,
                )
        }),
{
    let a = appended(t, frame_id, snapshot, input);
    lemma_all_before(t, frame_id);
    let key = KeyState { frame_id, snapshot };
    match t.last_snapshot {
        Some(prev) => {
            let last = t.last_frame_id->0;
            let d = delta_between(prev, snapshot, input);
            law_delta_tags(prev, snapshot, input);
            assert(reconstructed(t, last) == Some(prev));
            if t.policy.promotes(d.compressed_size) {
                lemma_push_key_state(t.keyframes, t.deltas, key);
                assert forall|f: u64| f < frame_id implies #[trigger] state_at(
                    a.keyframes,
                    a.deltas,
                    f,
                ) == state_at(t.keyframes, t.deltas, f) by {
                    lemma_push_key_keeps(t.keyframes, t.deltas, key, f);
                }
            } else {
                lemma_state_after_last(t.keyframes, t.deltas, last, last);
                lemma_push_delta_state(t.keyframes, t.deltas, d, last);
                law_delta_roundtrip(prev, snapshot, input);
                assert forall|f: u64| f < frame_id implies #[trigger] state_at(
                    a.keyframes,
                    a.deltas,
                    f,
                ) == state_at(t.keyframes, t.deltas, f) by {
                    lemma_push_delta_keeps(t.keyframes, t.deltas, d, f);
                }
            }
        },
        None => {
            lemma_no_state(t);
            lemma_push_key_state(t.keyframes, t.deltas, key);
            assert forall|f: u64| f < frame_id implies #[trigger] state_at(
                a.keyframes,
                a.deltas,
                f,
            ) == state_at(t.keyframes, t.deltas, f) by {
                lemma_push_key_keeps(t.keyframes, t.deltas, key, f);
            }
        },
    }
    lemma_appended_bridged(t, a, frame_id, snapshot);
}

/// Appending a frame after the newest one keeps the frames in order.
proof fn lemma_appended_ordered(
    t: TimelineState,
    frame_id: u64,
    snapshot: SnapshotState,
    input: FrameInput,
)
    requires
        frames_ordered(t),
        t.last_frame_id matches Some(last) ==> last < frame_id,
        snapshot.frame_count == frame_id,
    ensures
        frames_ordered(appended(t, frame_id, snapshot, input)),
        appended(t, frame_id, snapshot, input).last_frame_id == Some(frame_id),
        appended(t, frame_id, snapshot, input).max_frames == t.max_frames,
{
    lemma_all_before(t, frame_id);
    match t.last_snapshot {
        Some(prev) => {
            law_delta_tags(prev, snapshot, input);
        },
        None => {
            lemma_no_state(t);
        },
    }
}

/// A history without a last state holds nothing.
proof fn lemma_no_state(t: TimelineState)
    requires
        frames_ordered(t),
        t.last_snapshot is None,
    ensures
        t.keyframes.len() == 0,
        t.deltas.len() == 0,
        t.last_frame_id is None,
{
}

/// A state before an appended frame is one of the history before.
proof fn lemma_state_before(t: TimelineState, f: u64)
    requires
        history_ok(t),
        state_at(t.keyframes, t.deltas, f) is Some,
    ensures
        t.last_frame_id is Some,
        ({
            let g = if f > t.last_frame_id->0 {
                t.last_frame_id->0
            } else {
                f
            };
            reconstructed(t, g) == state_at(t.keyframes, t.deltas, f)
        }),
{
    lemma_best_key(t.keyframes, f, t.keyframes.len());
    assert(t.keyframes.len() > 0);
    let last = t.last_frame_id->0;
    if f > last {
        lemma_state_after_last(t.keyframes, t.deltas, last, f);
    }
}

/// With a frame appended deltas can still lead between all states.
proof fn lemma_appended_bridged(
    t: TimelineState,
    a: TimelineState,
    frame_id: u64,
    snapshot: SnapshotState,
)
    requires
        history_ok(t),
        joins(t, snapshot),
        a.last_frame_id == Some(frame_id),
        state_at(a.keyframes, a.deltas, frame_id) == Some(snapshot),
        forall|f: u64|
            f < frame_id ==> #[trigger] state_at(a.keyframes, a.deltas, f) == state_at(
                t.keyframes,
                t.deltas,
                f,
            ),
    ensures
        all_bridged(a),
{
    assert forall|f: u64, g: u64|
        (#[trigger] reconstructed(a, f)) is Some && (#[trigger] reconstructed(a, g)) is Some
        implies bridges(reconstructed(a, f)->0, reconstructed(a, g)->0) by {
        if f < frame_id {
            assert(state_at(a.keyframes, a.deltas, f) == state_at(t.keyframes, t.deltas, f));
            lemma_state_before(t, f);
        }
        if g < frame_id {
            assert(state_at(a.keyframes, a.deltas, g) == state_at(t.keyframes, t.deltas, g));
            lemma_state_before(t, g);
        }
    }
}

// ── Pruning ──────────────────────────────────────────────────────────────

/// Absorbing the oldest delta leaves the states from its frame on.
proof fn lemma_absorb_keeps(t: TimelineState, f: u64)
    requires
        frames_ordered(t),
        absorbs(t),
        f >= t.deltas[0].frame_id,
    ensures
        ({
            let p = prune_step(t);
            state_at(p.keyframes, p.deltas, f) == state_at(t.keyframes, t.deltas, f)
        }),
{
    let p = prune_step(t);
    let d = t.deltas[0];
    lemma_best_key(t.keyframes, f, t.keyframes.len());
    assert(t.keyframes[0].frame_id <= f);
    let k = best_key(t.keyframes, f, t.keyframes.len())->0;
    lemma_absorb_ordered(t);
    assert(k > 0 ==> p.keyframes[k] == t.keyframes[k]);
    assert(k + 1 < p.keyframes.len() ==> p.keyframes[k + 1] == t.keyframes[k + 1]);
    lemma_best_key_is(p.keyframes, f, k);
    if k == 0 {
        lemma_replay_absorb(
            t.keyframes[0].snapshot,
            t.deltas,
            t.keyframes[0].frame_id,
            f,
            t.deltas.len(),
        );
    } else {
        assert(t.keyframes[1].frame_id <= t.keyframes[k].frame_id);
        lemma_replay_drop(
            t.keyframes[k].snapshot,
            t.deltas,
            t.keyframes[k].frame_id,
            f,
            t.deltas.len(),
        );
    }
}

/// Absorbing the oldest delta keeps everything in order.
proof fn lemma_absorb_ordered(t: TimelineState)
    requires
        frames_ordered(t),
        absorbs(t),
    ensures
        ({
            let p = prune_step(t);
            &&& keys_ordered(p.keyframes)
            &&& deltas_ordered(p.deltas)
            &&& disjoint_frames(p.keyframes, p.deltas)
            &&& anchored(p.keyframes, p.deltas)
            &&& newest_of(p.keyframes, p.deltas) == newest_of(t.keyframes, t.deltas)
            &&& p.keyframes.len() > 0
        }),
{
    let p = prune_step(t);
    assert forall|i: int, j: int|
        #![trigger p.keyframes[i], p.keyframes[j]]
        0 <= i < j < p.keyframes.len() implies p.keyframes[i].frame_id
        < p.keyframes[j].frame_id by {
        assert(t.keyframes[1].frame_id <= t.keyframes[j].frame_id);
        assert(p.keyframes[j] == t.keyframes[j]);
        if i > 0 {
            assert(p.keyframes[i] == t.keyframes[i]);
        }
    }
    assert forall|i: int, j: int|
        #![trigger p.keyframes[i], p.deltas[j]]
        0 <= i < p.keyframes.len() && 0 <= j < p.deltas.len() implies p.keyframes[i].frame_id
        != p.deltas[j].frame_id by {
        assert(p.deltas[j] == t.deltas[j + 1]);
        if i > 0 {
            assert(p.keyframes[i] == t.keyframes[i]);
        } else {
            assert(t.deltas[0].frame_id < t.deltas[j + 1].frame_id);
        }
    }
    assert forall|i: int, j: int|
        #![trigger p.deltas[i], p.deltas[j]]
        0 <= i < j < p.deltas.len() implies p.deltas[i].frame_id < p.deltas[j].frame_id by {
        assert(p.deltas[i] == t.deltas[i + 1]);
        assert(p.deltas[j] == t.deltas[j + 1]);
    }
    if p.deltas.len() > 0 {
        assert(p.deltas[0] == t.deltas[1]);
        assert(p.deltas.last() == t.deltas.last());
    }
    if p.keyframes.len() > 1 {
        assert(p.keyframes.last() == t.keyframes.last());
        assert(t.keyframes[1].frame_id <= t.keyframes.last().frame_id);
    }
}

/// Without a delta in the first segment, the first keyframe goes alone.
proof fn lemma_drop_shape(t: TimelineState)
    requires
        frames_ordered(t),
        !absorbs(t),
        slots(t) > 1,
    ensures
        t.keyframes.len() > 1,
        prune_step(t) == (TimelineState { keyframes: t.keyframes.drop_first(), ..t }),
        t.deltas.len() > 0 ==> t.keyframes[1].frame_id < t.deltas[0].frame_id,
{
    let keys = t.keyframes.drop_first();
    assert(keys[0] == t.keyframes[1]);
}

/// Dropping the first keyframe keeps everything in order.
proof fn lemma_drop_ordered(t: TimelineState)
    requires
        frames_ordered(t),
        !absorbs(t),
        slots(t) > 1,
    ensures
        ({
            let p = prune_step(t);
            &&& keys_ordered(p.keyframes)
            &&& deltas_ordered(p.deltas)
            &&& disjoint_frames(p.keyframes, p.deltas)
            &&& anchored(p.keyframes, p.deltas)
            &&& newest_of(p.keyframes, p.deltas) == newest_of(t.keyframes, t.deltas)
            &&& p.keyframes.len() > 0
        }),
{
    lemma_drop_shape(t);
    let p = prune_step(t);
    assert forall|i: int, j: int|
        #![trigger p.keyframes[i], p.keyframes[j]]
        0 <= i < j < p.keyframes.len() implies p.keyframes[i].frame_id
        < p.keyframes[j].frame_id by {
        assert(p.keyframes[i] == t.keyframes[i + 1]);
        assert(p.keyframes[j] == t.keyframes[j + 1]);
    }
    assert forall|i: int, j: int|
        #![trigger p.keyframes[i], p.deltas[j]]
        0 <= i < p.keyframes.len() && 0 <= j < p.deltas.len() implies p.keyframes[i].frame_id
        != p.deltas[j].frame_id by {
        assert(p.keyframes[i] == t.keyframes[i + 1]);
    }
    assert(p.keyframes.last() == t.keyframes.last());
}

/// Dropping the first keyframe leaves the states from the next one on.
proof fn lemma_drop_keeps(t: TimelineState, f: u64)
    requires
        frames_ordered(t),
        !absorbs(t),
        slots(t) > 1,
        f >= t.keyframes[1].frame_id,
    ensures
        ({
            let p = prune_step(t);
            state_at(p.keyframes, p.deltas, f) == state_at(t.keyframes, t.deltas, f)
        }),
{
    lemma_drop_shape(t);
    lemma_drop_ordered(t);
    let p = prune_step(t);
    lemma_best_key(t.keyframes, f, t.keyframes.len());
    let k = best_key(t.keyframes, f, t.keyframes.len())->0;
    assert(k >= 1);
    assert(p.keyframes[k - 1] == t.keyframes[k]);
    assert(k < p.keyframes.len() ==> p.keyframes[k] == t.keyframes[k + 1]);
    lemma_best_key_is(p.keyframes, f, k - 1);
}

/// Pruning one slot keeps the history, up to its newest frame, from its new
/// oldest frame on.
proof fn lemma_prune_step(t: TimelineState)
    requires
        frames_ordered(t),
        slots(t) > 1,
    ensures
        frames_ordered(prune_step(t)),
        history_ok(t) ==> history_ok(prune_step(t)),
        prune_step(t).last_frame_id == t.last_frame_id,
        slots(prune_step(t)) < slots(t),
        oldest_of(prune_step(t)) is Some,
        oldest_of(t) is Some,
        oldest_of(t)->0 <= oldest_of(prune_step(t))->0,
        forall|f: u64|
            f >= oldest_of(prune_step(t))->0 ==> #[trigger] state_at(
                prune_step(t).keyframes,
                prune_step(t).deltas,
                f,
            ) == state_at(t.keyframes, t.deltas, f),
{
    let p = prune_step(t);
    if absorbs(t) {
        lemma_absorb_ordered(t);
    } else {
        lemma_drop_shape(t);
        lemma_drop_ordered(t);
        assert(p.keyframes[0] == t.keyframes[1]);
    }
    let o = p.keyframes[0].frame_id;
    assert forall|f: u64| f >= o implies #[trigger] state_at(p.keyframes, p.deltas, f) == state_at(
        t.keyframes,
        t.deltas,
        f,
    ) by {
        if absorbs(t) {
            lemma_absorb_keeps(t, f);
        } else {
            lemma_drop_keeps(t, f);
        }
    }
    let last = t.last_frame_id->0;
    assert(p.keyframes[0].frame_id <= p.keyframes.last().frame_id);
    assert(state_at(p.keyframes, p.deltas, last) == state_at(t.keyframes, t.deltas, last));
    assert forall|f: u64| (#[trigger] reconstructed(p, f)) is Some implies reconstructed(p, f)
        == reconstructed(t, f) by {
        lemma_best_key(p.keyframes, f, p.keyframes.len());
        assert(p.keyframes[0].frame_id <= f);
        assert(state_at(p.keyframes, p.deltas, f) == state_at(t.keyframes, t.deltas, f));
    }
}

/// Pruning keeps a history within its budget and leaves the states of every
/// frame that it retains.
pub proof fn law_pruned(t: TimelineState)
    requires
        frames_ordered(t),
    ensures
        frames_ordered(pruned(t)),
        history_ok(t) ==> history_ok(pruned(t)),
        slots(pruned(t)) <= t.max_frames,
        pruned(t).max_frames == t.max_frames,
        pruned(t).last_frame_id == t.last_frame_id,
        oldest_of(pruned(t)) matches Some(o) ==> forall|f: u64|
            f >= o ==> #[trigger] reconstructed(pruned(t), f) == reconstructed(t, f),
    decreases slots(t),
{
    if slots(t) > t.max_frames {
        let p = prune_step(t);
        lemma_prune_step(t);
        law_pruned(p);
        let r = pruned(t);
        assert(r == pruned(p));
        if oldest_of(r) is Some {
            lemma_pruned_oldest(p);
            let o = oldest_of(r)->0;
            assert forall|f: u64| f >= o implies #[trigger] reconstructed(r, f) == reconstructed(
                t,
                f,
            ) by {
                assert(reconstructed(pruned(p), f) == reconstructed(p, f));
                assert(state_at(p.keyframes, p.deltas, f) == state_at(t.keyframes, t.deltas, f));
            }
        }
    }
}

/// Pruning moves the oldest frame forward only.
proof fn lemma_pruned_oldest(t: TimelineState)
    requires
        frames_ordered(t),
        oldest_of(t) is Some,
    ensures
        oldest_of(pruned(t)) is Some,
        oldest_of(pruned(t))->0 >= oldest_of(t)->0,
    decreases slots(t),
{
    if slots(t) > t.max_frames {
        lemma_prune_step(t);
        lemma_pruned_oldest(prune_step(t));
    }
}

// ── Truncating ───────────────────────────────────────────────────────────

/// Of keyframes in order a first part lies at or before a frame.
proof fn lemma_keys_until(keys: Seq<KeyState>, target: u64, n: nat)
    requires
        keys_ordered(keys),
        n <= keys.len(),
    ensures
        ({
            let r = keys_until(keys, target, n);
            &&& r.len() <= n
            &&& r =~= keys.take(r.len() as int)
            &&& forall|i: int| 0 <= i < r.len() ==> (#[trigger] keys[i]).frame_id <= target
            &&& forall|i: int| r.len() <= i < n ==> (#[trigger] keys[i]).frame_id > target
        }),
    decreases n,
{
    if n > 0 {
        lemma_keys_until(keys, target, (n - 1) as nat);
        let rest = keys_until(keys, target, (n - 1) as nat);
        if keys[n - 1].frame_id <= target && rest.len() < n - 1 {
            assert(keys[rest.len() as int].frame_id < keys[n - 1].frame_id);
        }
    }
}

/// Of deltas in order a first part lies at or before a frame.
proof fn lemma_deltas_until(deltas: Seq<DeltaState>, target: u64, n: nat)
    requires
        deltas_ordered(deltas),
        n <= deltas.len(),
    ensures
        ({
            let r = deltas_until(deltas, target, n);
            &&& r.len() <= n
            &&& r =~= deltas.take(r.len() as int)
            &&& forall|i: int| 0 <= i < r.len() ==> (#[trigger] deltas[i]).frame_id <= target
            &&& forall|i: int| r.len() <= i < n ==> (#[trigger] deltas[i]).frame_id > target
        }),
    decreases n,
{
    if n > 0 {
        lemma_deltas_until(deltas, target, (n - 1) as nat);
        let rest = deltas_until(deltas, target, (n - 1) as nat);
        if deltas[n - 1].frame_id <= target && rest.len() < n - 1 {
            assert(deltas[rest.len() as int].frame_id < deltas[n - 1].frame_id);
        }
    }
}

/// Cutting a history off after a frame leaves the states up to it.
proof fn lemma_cut_keeps(
    keys: Seq<KeyState>,
    deltas: Seq<DeltaState>,
    a: int,
    b: int,
    target: u64,
    f: u64,
)
    requires
        keys_ordered(keys),
        0 <= a <= keys.len(),
        0 <= b <= deltas.len(),
        forall|i: int| a <= i < keys.len() ==> (#[trigger] keys[i]).frame_id > target,
        forall|i: int| b <= i < deltas.len() ==> (#[trigger] deltas[i]).frame_id > target,
        f <= target,
    ensures
        state_at(keys.take(a), deltas.take(b), f) == state_at(keys, deltas, f),
{
    let ks = keys.take(a);
    let ds = deltas.take(b);
    assert(keys_ordered(ks));
    lemma_best_key(keys, f, keys.len());
    match best_key(keys, f, keys.len()) {
        Some(k) => {
            assert(k < a);
            assert(ks[k] == keys[k]);
            assert(k + 1 < ks.len() ==> ks[k + 1] == keys[k + 1]);
            lemma_best_key_is(ks, f, k);
            let s = keys[k].snapshot;
            let from = keys[k].frame_id;
            lemma_replay_beyond(s, deltas, from, f, b as nat, deltas.len());
            lemma_replay_prefix(s, ds, deltas, from, f, b as nat);
        },
        None => {
            lemma_best_key(ks, f, ks.len());
            if best_key(ks, f, ks.len()) is Some {
                let k = best_key(ks, f, ks.len())->0;
                assert(ks[k] == keys[k]);
            }
        },
    }
}

/// Truncating keeps a history in order, drops every frame after the given one,
/// and leaves the states of the frames that it retains.
pub proof fn law_truncated(t: TimelineState, target: u64)
    requires
        frames_ordered(t),
    ensures
        frames_ordered(truncated(t, target)),
        history_ok(t) ==> history_ok(truncated(t, target)),
        truncated(t, target).last_frame_id matches Some(last) ==> last <= target,
        forall|f: u64|
            f > target ==> #[trigger] reconstructed(truncated(t, target), f) is None,
        forall|f: u64|
            f <= target ==> #[trigger] state_at(
                truncated(t, target).keyframes,
                truncated(t, target).deltas,
                f,
            ) == state_at(t.keyframes, t.deltas, f),
        forall|f: u64|
            (truncated(t, target).last_frame_id matches Some(last) && f <= last)
                ==> #[trigger] reconstructed(truncated(t, target), f) == reconstructed(t, f),
        truncated(t, target).max_frames == t.max_frames,
{
    reveal(truncated);
    let c = truncated(t, target);
    lemma_keys_until(t.keyframes, target, t.keyframes.len());
    lemma_deltas_until(t.deltas, target, t.deltas.len());
    let a = c.keyframes.len() as int;
    let b = c.deltas.len() as int;
    assert(c.keyframes == t.keyframes.take(a));
    assert(c.deltas == t.deltas.take(b));
    assert forall|f: u64| f <= target implies #[trigger] state_at(c.keyframes, c.deltas, f)
        == state_at(t.keyframes, t.deltas, f) by {
        lemma_cut_keeps(t.keyframes, t.deltas, a, b, target, f);
    }
    assert(keys_ordered(c.keyframes));
    assert(deltas_ordered(c.deltas));
    assert(disjoint_frames(c.keyframes, c.deltas));
    if c.deltas.len() > 0 {
        assert(t.deltas[0].frame_id <= target);
        assert(t.keyframes[0].frame_id <= target);
        assert(c.keyframes.len() > 0);
        assert(t.deltas[b - 1].frame_id <= target);
    }
    if c.keyframes.len() > 0 {
        assert(t.keyframes[a - 1].frame_id <= target);
        let newest = newest_of(c.keyframes, c.deltas)->0;
        lemma_state_after_last(c.keyframes, c.deltas, newest, newest);
        assert(newest <= t.last_frame_id->0) by {
            assert(t.keyframes[a - 1].frame_id <= t.keyframes.last().frame_id);
            if b > 0 {
                assert(t.deltas[b - 1].frame_id <= t.deltas.last().frame_id);
            }
        }
        assert(c.last_frame_id == Some(newest));
    }
    assert forall|f: u64| (#[trigger] reconstructed(c, f)) is Some implies reconstructed(c, f)
        == reconstructed(t, f) by {
        assert(state_at(c.keyframes, c.deltas, f) == state_at(t.keyframes, t.deltas, f));
    }
    assert forall|f: u64|
        (c.last_frame_id matches Some(last) && f <= last) implies #[trigger] reconstructed(c, f)
        == reconstructed(t, f) by {
        assert(state_at(c.keyframes, c.deltas, f) == state_at(t.keyframes, t.deltas, f));
    }
}

/// A frame is stored, as a keyframe or as a delta.
pub open spec fn holds_frame(t: TimelineState, f: u64) -> bool {
    ||| exists|i: int| 0 <= i < t.keyframes.len() && (#[trigger] t.keyframes[i]).frame_id == f
    ||| exists|i: int| 0 <= i < t.deltas.len() && (#[trigger] t.deltas[i]).frame_id == f
}

/// Truncating leaves as the newest frame the greatest one that was stored at or
/// before the given frame. Nothing is left, and nothing can be reconstructed,
/// where every stored frame lies after it, as where it lies before the oldest.
pub proof fn law_truncated_newest(t: TimelineState, target: u64)
    requires
        frames_ordered(t),
    ensures
        ({
            let c = truncated(t, target);
            let newest = newest_of(c.keyframes, c.deltas);
            &&& c.last_frame_id == newest
            &&& newest matches Some(n) ==> {
                &&& n <= target
                &&& holds_frame(t, n)
                &&& forall|f: u64| #[trigger] holds_frame(t, f) && f <= target ==> f <= n
            }
            &&& newest is None ==> slots(c) == 0 && forall|f: u64| #[trigger]
                holds_frame(t, f) ==> f > target
            &&& (oldest_of(t) matches Some(o) && target < o) ==> newest is None && slots(c) == 0
            &&& forall|f: u64|
                !(newest matches Some(n) && f <= n) ==> #[trigger] reconstructed(c, f) is None
        }),
{
    law_truncated(t, target);
    reveal(truncated);
    let c = truncated(t, target);
    lemma_keys_until(t.keyframes, target, t.keyframes.len());
    lemma_deltas_until(t.deltas, target, t.deltas.len());
    let a = c.keyframes.len() as int;
    let b = c.deltas.len() as int;
    assert(c.keyframes == t.keyframes.take(a));
    assert(c.deltas == t.deltas.take(b));
    let newest = newest_of(c.keyframes, c.deltas);
    if a > 0 {
        assert(c.keyframes.last() == t.keyframes[a - 1]);
    }
    if b > 0 {
        assert(c.deltas.last() == t.deltas[b - 1]);
    }
    if newest is Some {
        let n = newest->0;
        assert(holds_frame(t, n)) by {
            if a > 0 && n == t.keyframes[a - 1].frame_id {
            } else {
                assert(n == t.deltas[b - 1].frame_id);
            }
        }
        assert forall|f: u64| #[trigger] holds_frame(t, f) && f <= target implies f <= n by {
            if exists|i: int|
                0 <= i < t.keyframes.len() && (#[trigger] t.keyframes[i]).frame_id == f {
                let i = choose|i: int|
                    0 <= i < t.keyframes.len() && (#[trigger] t.keyframes[i]).frame_id == f;
                assert(i < a);
                assert(t.keyframes[i].frame_id <= t.keyframes[a - 1].frame_id);
            } else {
                let i = choose|i: int|
                    0 <= i < t.deltas.len() && (#[trigger] t.deltas[i]).frame_id == f;
                assert(i < b);
                assert(t.deltas[i].frame_id <= t.deltas[b - 1].frame_id);
            }
        }
    } else {
        assert(a == 0 && b == 0);
    }
    if t.keyframes.len() > 0 && target < t.keyframes[0].frame_id {
        if a > 0 {
            assert(t.keyframes[0].frame_id <= target);
        }
        if b > 0 {
            assert(t.deltas[0].frame_id <= target);
        }
    }
}

/// Keyframes that lie at or before a frame are all left.
proof fn lemma_keys_until_all(keys: Seq<KeyState>, target: u64, n: nat)
    requires
        n <= keys.len(),
        forall|i: int| 0 <= i < n ==> (#[trigger] keys[i]).frame_id <= target,
    ensures
        keys_until(keys, target, n) == keys.take(n as int),
    decreases n,
{
    if n > 0 {
        lemma_keys_until_all(keys, target, (n - 1) as nat);
        assert(keys.take(n - 1).push(keys[n - 1]) =~= keys.take(n as int));
    } else {
        assert(keys.take(0) =~= Seq::empty());
    }
}

/// Deltas that lie at or before a frame are all left.
proof fn lemma_deltas_until_all(deltas: Seq<DeltaState>, target: u64, n: nat)
    requires
        n <= deltas.len(),
        forall|i: int| 0 <= i < n ==> (#[trigger] deltas[i]).frame_id <= target,
    ensures
        deltas_until(deltas, target, n) == deltas.take(n as int),
    decreases n,
{
    if n > 0 {
        lemma_deltas_until_all(deltas, target, (n - 1) as nat);
        assert(deltas.take(n - 1).push(deltas[n - 1]) =~= deltas.take(n as int));
    } else {
        assert(deltas.take(0) =~= Seq::empty());
    }
}

/// The keyframes that are left lie at or before the frame.
proof fn lemma_keys_until_before(keys: Seq<KeyState>, target: u64, n: nat)
    ensures
        forall|i: int|
            0 <= i < keys_until(keys, target, n).len() ==> (#[trigger] keys_until(
                keys,
                target,
                n,
            )[i]).frame_id <= target,
    decreases n,
{
    if n > 0 {
        lemma_keys_until_before(keys, target, (n - 1) as nat);
    }
}

/// The deltas that are left lie at or before the frame.
proof fn lemma_deltas_until_before(deltas: Seq<DeltaState>, target: u64, n: nat)
    ensures
        forall|i: int|
            0 <= i < deltas_until(deltas, target, n).len() ==> (#[trigger] deltas_until(
                deltas,
                target,
                n,
            )[i]).frame_id <= target,
    decreases n,
{
    if n > 0 {
        lemma_deltas_until_before(deltas, target, (n - 1) as nat);
    }
}

/// Truncating at the same frame again changes nothing, whatever the timeline
/// holds.
pub proof fn law_truncate_twice(t: TimelineState, target: u64)
    ensures
        truncated(truncated(t, target), target) == truncated(t, target),
{
    reveal(truncated);
    let c = truncated(t, target);
    lemma_keys_until_before(t.keyframes, target, t.keyframes.len());
    lemma_deltas_until_before(t.deltas, target, t.deltas.len());
    lemma_keys_until_all(c.keyframes, target, c.keyframes.len());
    lemma_deltas_until_all(c.deltas, target, c.deltas.len());
    assert(c.keyframes.take(c.keyframes.len() as int) =~= c.keyframes);
    assert(c.deltas.take(c.deltas.len() as int) =~= c.deltas);
}

// ── Recording ────────────────────────────────────────────────────────────

/// An empty timeline is a history, its frames in order.
pub proof fn law_empty_history(max_frames: u64, policy: KeyframePolicy)
    ensures
        history_ok(empty_timeline(max_frames, policy)),
{
}

/// Recording keeps the frames in order and within the budget, whatever the sizes
/// of the states, and makes the frame the newest.
pub proof fn law_record_ordered(
    t: TimelineState,
    frame_id: u64,
    snapshot: SnapshotState,
    input: FrameInput,
)
    requires
        frames_ordered(t),
        snapshot.frame_count == frame_id,
    ensures
        ({
            let r = recorded(t, frame_id, snapshot, input);
            &&& frames_ordered(r)
            &&& slots(r) <= t.max_frames
            &&& r.last_frame_id == Some(frame_id)
        }),
{
    lemma_continued(t, frame_id);
    let c = continued(t, frame_id);
    lemma_appended_ordered(c, frame_id, snapshot, input);
    law_pruned(appended(c, frame_id, snapshot, input));
}

/// A recorded frame is reconstructed exactly as it was recorded. The history
/// stays replayable and within its budget.
pub proof fn law_record_reconstruct(
    t: TimelineState,
    frame_id: u64,
    snapshot: SnapshotState,
    input: FrameInput,
)
    requires
        history_ok(t),
        joins(continued(t, frame_id), snapshot),
        snapshot.frame_count == frame_id,
    ensures
        ({
            let r = recorded(t, frame_id, snapshot, input);
            &&& history_ok(r)
            &&& slots(r) <= t.max_frames
            &&& r.max_frames == t.max_frames
            &&& r.last_frame_id == Some(frame_id)
            &&& reconstructed(r, frame_id) == Some(snapshot)
        }),
{
    lemma_continued(t, frame_id);
    let c = continued(t, frame_id);
    let a = appended(c, frame_id, snapshot, input);
    lemma_appended(c, frame_id, snapshot, input);
    law_pruned(a);
    lemma_retains_newest(pruned(a));
    assert(reconstructed(a, frame_id) == Some(snapshot));
}

/// The newest frame of a history is not before its oldest.
proof fn lemma_retains_newest(t: TimelineState)
    requires
        frames_ordered(t),
        t.last_frame_id is Some,
    ensures
        oldest_of(t) is Some,
        oldest_of(t)->0 <= t.last_frame_id->0,
{
    assert(t.keyframes[0].frame_id <= t.keyframes.last().frame_id);
}

/// A cleared timeline is a history.
proof fn lemma_cleared(t: TimelineState)
    requires
        frames_ordered(t),
    ensures
        history_ok(cleared(t)),
{
    let c = cleared(t);
    assert forall|f: u64| (#[trigger] reconstructed(c, f)) is None by {}
}

/// What a new frame continues is a history of earlier frames.
proof fn lemma_continued(t: TimelineState, frame_id: u64)
    requires
        frames_ordered(t),
    ensures
        ({
            let c = continued(t, frame_id);
            &&& frames_ordered(c)
            &&& history_ok(t) ==> history_ok(c)
            &&& c.max_frames == t.max_frames
            &&& c.last_frame_id matches Some(last) ==> last < frame_id
            &&& forall|f: u64|
                (#[trigger] reconstructed(c, f)) is Some ==> reconstructed(c, f) == reconstructed(
                    t,
                    f,
                )
            &&& forall|f: u64|
                f < frame_id ==> #[trigger] state_at(c.keyframes, c.deltas, f) == state_at(
                    t.keyframes,
                    t.deltas,
                    f,
                )
        }),
{
    if t.last_frame_id is Some && frame_id <= t.last_frame_id->0 {
        if frame_id == 0 {
            lemma_cleared(t);
        } else {
            law_truncated(t, (frame_id - 1) as u64);
        }
    }
}

/// Recording a frame leaves every earlier frame that the history retains as it
/// was.
pub proof fn law_record_keeps(
    t: TimelineState,
    frame_id: u64,
    snapshot: SnapshotState,
    input: FrameInput,
    f: u64,
)
    requires
        history_ok(t),
        joins(continued(t, frame_id), snapshot),
        snapshot.frame_count == frame_id,
        f < frame_id,
        reconstructed(t, f) is Some,
        oldest_of(recorded(t, frame_id, snapshot, input)) matches Some(o) && o <= f,
    ensures
        reconstructed(recorded(t, frame_id, snapshot, input), f) == reconstructed(t, f),
{
    lemma_continued(t, frame_id);
    let c = continued(t, frame_id);
    let a = appended(c, frame_id, snapshot, input);
    lemma_appended(c, frame_id, snapshot, input);
    law_pruned(a);
    assert(reconstructed(pruned(a), f) == reconstructed(a, f));
    assert(state_at(a.keyframes, a.deltas, f) == state_at(c.keyframes, c.deltas, f));
    assert(state_at(c.keyframes, c.deltas, f) == state_at(t.keyframes, t.deltas, f));
}

/// Every frame from the oldest to the newest of a history can be reconstructed;
/// none outside can.
pub proof fn law_retained_window(t: TimelineState, f: u64)
    requires
        frames_ordered(t),
    ensures
        reconstructed(t, f) is Some <==> (oldest_of(t) matches Some(o) && o <= f)
            && (t.last_frame_id matches Some(last) && f <= last),
{
    lemma_best_key(t.keyframes, f, t.keyframes.len());
    if t.keyframes.len() > 0 && best_key(t.keyframes, f, t.keyframes.len()) is Some {
        let k = best_key(t.keyframes, f, t.keyframes.len())->0;
        assert(t.keyframes[0].frame_id <= t.keyframes[k].frame_id);
    }
}

// ── Restorable histories ─────────────────────────────────────────────────

/// A state can be restored, and its snapshot taken again is the same.
pub open spec fn restorable(s: SnapshotState) -> bool {
    s.wf() && is_snapshot_of(s.cpu, snapshot_state(s.cpu))
}

/// Every state that can be reconstructed can be restored.
pub open spec fn all_restorable(t: TimelineState) -> bool {
    forall|f: u64| (#[trigger] reconstructed(t, f)) matches Some(s) ==> restorable(s)
}

/// A state with buffers of the machine's sizes can join a restorable history.
pub proof fn lemma_sized_joins(t: TimelineState, frame_id: u64, s: SnapshotState)
    requires
        history_ok(t),
        all_restorable(t),
        s.sized(),
    ensures
        joins(continued(t, frame_id), s),
{
    lemma_continued(t, frame_id);
    let c = continued(t, frame_id);
    assert forall|f: u64| (#[trigger] reconstructed(c, f)) is Some implies restorable(
        reconstructed(c, f)->0,
    ) by {
        assert(reconstructed(c, f) == reconstructed(t, f));
    }
}

/// Recording a restorable state keeps the history restorable.
pub proof fn law_record_restorable(
    t: TimelineState,
    frame_id: u64,
    snapshot: SnapshotState,
    input: FrameInput,
)
    requires
        history_ok(t),
        all_restorable(t),
        restorable(snapshot),
        snapshot.frame_count == frame_id,
    ensures
        all_restorable(recorded(t, frame_id, snapshot, input)),
{
    let r = recorded(t, frame_id, snapshot, input);
    lemma_sized_joins(t, frame_id, snapshot);
    law_record_reconstruct(t, frame_id, snapshot, input);
    assert forall|f: u64| (#[trigger] reconstructed(r, f)) is Some implies restorable(
        reconstructed(r, f)->0,
    ) by {
        law_retained_window(r, f);
        if f < frame_id {
            lemma_record_between(t, frame_id, snapshot, input, f);
        }
    }
}

/// What recording leaves of an earlier frame is a state of the history before.
proof fn lemma_record_between(
    t: TimelineState,
    frame_id: u64,
    snapshot: SnapshotState,
    input: FrameInput,
    f: u64,
)
    requires
        history_ok(t),
        all_restorable(t),
        joins(continued(t, frame_id), snapshot),
        snapshot.frame_count == frame_id,
        f < frame_id,
        reconstructed(recorded(t, frame_id, snapshot, input), f) is Some,
    ensures
        restorable(reconstructed(recorded(t, frame_id, snapshot, input), f)->0),
{
    lemma_continued(t, frame_id);
    let c = continued(t, frame_id);
    let a = appended(c, frame_id, snapshot, input);
    lemma_appended(c, frame_id, snapshot, input);
    law_pruned(a);
    law_retained_window(pruned(a), f);
    assert(reconstructed(pruned(a), f) == reconstructed(a, f));
    assert(state_at(a.keyframes, a.deltas, f) == state_at(c.keyframes, c.deltas, f));
    assert(state_at(c.keyframes, c.deltas, f) == state_at(t.keyframes, t.deltas, f));
    lemma_best_key(t.keyframes, f, t.keyframes.len());
    let last = t.last_frame_id->0;
    if f > last {
        lemma_state_after_last(t.keyframes, t.deltas, last, f);
        assert(reconstructed(t, last) is Some);
    } else {
        assert(reconstructed(t, f) is Some);
    }
}

/// Truncating keeps a history restorable.
pub proof fn law_truncate_restorable(t: TimelineState, target: u64)
    requires
        history_ok(t),
        all_restorable(t),
    ensures
        all_restorable(truncated(t, target)),
{
    law_truncated(t, target);
    let c = truncated(t, target);
    assert forall|f: u64| (#[trigger] reconstructed(c, f)) is Some implies restorable(
        reconstructed(c, f)->0,
    ) by {
        law_retained_window(c, f);
        assert(reconstructed(c, f) == reconstructed(t, f));
    }
}

/// Pruning to another budget, under another policy, keeps a history restorable.
pub proof fn law_reconfigure_restorable(t: TimelineState, max_frames: u64, policy: KeyframePolicy)
    requires
        history_ok(t),
        all_restorable(t),
        max_frames >= 1,
    ensures
        ({
            let r = pruned(TimelineState { max_frames, policy, ..t });
            &&& history_ok(r)
            &&& all_restorable(r)
        }),
{
    let u = TimelineState { max_frames, policy, ..t };
    assert forall|f: u64| #[trigger] reconstructed(u, f) == reconstructed(t, f) by {}
    assert(history_ok(u));
    law_pruned(u);
    let r = pruned(u);
    assert forall|f: u64| (#[trigger] reconstructed(r, f)) is Some implies restorable(
        reconstructed(r, f)->0,
    ) by {
        law_retained_window(r, f);
        assert(reconstructed(r, f) == reconstructed(u, f));
        assert(reconstructed(u, f) == reconstructed(t, f));
    }
}

// ── Keyframe policy ──────────────────────────────────────────────────────

/// The policy after the first `n` of some deltas.
pub open spec fn policy_after(p: KeyframePolicy, sizes: Seq<u32>, n: nat) -> KeyframePolicy
    decreases n,
{
    if n == 0 {
        p
    } else {
        policy_after(p, sizes, (n - 1) as nat).stepped(sizes[n - 1])
    }
}

/// Among as many frames in a row as the interval one becomes a keyframe.
pub proof fn law_keyframe_interval(p: KeyframePolicy, sizes: Seq<u32>)
    requires
        p.base_interval > 0,
        sizes.len() >= p.base_interval,
    ensures
        exists|i: int|
            0 <= i < p.base_interval && #[trigger] policy_after(p, sizes, i as nat).promotes(
                sizes[i],
            ),
{
    assert(policy_after(p, sizes, 0) == p);
    if forall|i: int|
        0 <= i < p.base_interval ==> !(#[trigger] policy_after(p, sizes, i as nat).promotes(
            sizes[i],
        )) {
        lemma_policy_counts(p, sizes, p.base_interval as nat);
    }
}

/// Without a promotion the counter counts.
proof fn lemma_policy_counts(p: KeyframePolicy, sizes: Seq<u32>, n: nat)
    requires
        n <= p.base_interval,
        n <= sizes.len(),
        forall|i: int|
            0 <= i < n ==> !(#[trigger] policy_after(p, sizes, i as nat).promotes(sizes[i])),
    ensures
        policy_after(p, sizes, n).frames_since_keyframe == p.frames_since_keyframe + n,
        policy_after(p, sizes, n).base_interval == p.base_interval,
        n > 0 ==> policy_after(p, sizes, n).frames_since_keyframe < p.base_interval,
    decreases n,
{
    if n > 0 {
        lemma_policy_counts(p, sizes, (n - 1) as nat);
        assert(!policy_after(p, sizes, (n - 1) as nat).promotes(sizes[n - 1]));
    }
}

} // verus!
