//! Deltas between snapshots: byte runs of the large buffers, and the small
//! components that changed.
use vstd::prelude::*;

verus! {

// ── Byte runs ────────────────────────────────────────────────────────────

/// A run of changed bytes in a large array: `data` should be written back
/// starting at `offset`.
#[derive(Debug, Clone, PartialEq, Eq)]
pub struct ArrayDelta {
    /// Byte offset into the target array where this run begins.
    pub offset: u32,
    /// The new bytes.
    pub data: Vec<u8>,
}

/// Mathematical model of a run.
#[verifier::ext_equal]
pub ghost struct Run {
    pub offset: u32,
    pub data: Seq<u8>,
}

impl View for ArrayDelta {
    type V = Run;

    open spec fn view(&self) -> Run {
        Run { offset: self.offset, data: self.data@ }
    }
}

/// The models of runs.
pub open spec fn runs_of(deltas: Seq<ArrayDelta>) -> Seq<Run> {
    Seq::new(deltas.len(), |i: int| deltas[i]@)
}

/// The smaller of two lengths.
pub open spec fn common_len(before: Seq<u8>, after: Seq<u8>) -> int {
    if before.len() < after.len() {
        before.len() as int
    } else {
        after.len() as int
    }
}

/// Where a run of changed bytes that reaches `i` ends.
pub open spec fn run_end(before: Seq<u8>, after: Seq<u8>, i: int) -> int
    decreases common_len(before, after) - i,
{
    if i >= common_len(before, after) || before[i] == after[i] {
        i
    } else {
        run_end(before, after, i + 1)
    }
}

/// The changed runs from position `i` on; bytes beyond the old length are a run
/// of their own.
pub open spec fn diff_from(before: Seq<u8>, after: Seq<u8>, i: int) -> Seq<Run>
    decreases common_len(before, after) - i,
    when 0 <= i
    via diff_from_decreases
{
    let common = common_len(before, after);
    if i >= common {
        if after.len() > common {
            seq![Run { offset: common as u32, data: after.subrange(common, after.len() as int) }]
        } else {
            Seq::empty()
        }
    } else if before[i] == after[i] {
        diff_from(before, after, i + 1)
    } else {
        let end = run_end(before, after, i);
        seq![Run { offset: i as u32, data: after.subrange(i, end) }] + diff_from(
            before,
            after,
            end,
        )
    }
}

#[via_fn]
proof fn diff_from_decreases(before: Seq<u8>, after: Seq<u8>, i: int) {
    lemma_run_end(before, after, i);
}

/// A run reaches as far as the bytes differ.
proof fn lemma_run_end(before: Seq<u8>, after: Seq<u8>, i: int)
    ensures
        run_end(before, after, i) >= i,
        i < common_len(before, after) ==> run_end(before, after, i) <= common_len(before, after),
        0 <= i < common_len(before, after) && before[i] != after[i] ==> run_end(before, after, i)
            > i,
        forall|k: int| i <= k < run_end(before, after, i) ==> before[k] != after[k],
    decreases common_len(before, after) - i,
{
    if i < common_len(before, after) && before[i] != after[i] {
        lemma_run_end(before, after, i + 1);
    }
}

/// The end of a run, known by its ends.
proof fn lemma_is_run_end(before: Seq<u8>, after: Seq<u8>, i: int, end: int)
    requires
        0 <= i <= end <= common_len(before, after),
        forall|k: int| i <= k < end ==> before[k] != after[k],
        end < common_len(before, after) ==> before[end] == after[end],
    ensures
        run_end(before, after, i) == end,
    decreases end - i,
{
    if i < end {
        lemma_is_run_end(before, after, i + 1, end);
    }
}

/// The runs of bytes that differ between two arrays.
pub open spec fn diff_runs(before: Seq<u8>, after: Seq<u8>) -> Seq<Run> {
    diff_from(before, after, 0)
}

/// An array after one run is written; a run that does not fit is left out.
pub open spec fn run_applied(target: Seq<u8>, run: Run) -> Seq<u8> {
    if run.offset + run.data.len() <= target.len() {
        Seq::new(
            target.len(),
            |k: int|
                if run.offset <= k < run.offset + run.data.len() {
                    run.data[k - run.offset]
                } else {
                    target[k]
                },
        )
    } else {
        target
    }
}

/// An array after the runs from `i` on are written in order.
pub open spec fn runs_applied(target: Seq<u8>, runs: Seq<Run>, i: int) -> Seq<u8>
    decreases runs.len() - i,
{
    if i < 0 || i >= runs.len() {
        target
    } else {
        runs_applied(run_applied(target, runs[i]), runs, i + 1)
    }
}

/// The bytes that runs hold.
pub open spec fn run_bytes(runs: Seq<Run>) -> int
    decreases runs.len(),
{
    if runs.len() == 0 {
        0
    } else {
        run_bytes(runs.drop_last()) + runs.last().data.len()
    }
}

/// Copies a part of a slice.
fn copy_range(data: &[u8], start: usize, end: usize) -> (r: Vec<u8>)
    requires
        start <= end <= data@.len(),
    ensures
        r@ == data@.subrange(start as int, end as int),
{
    vstd::slice::slice_to_vec(vstd::slice::slice_subrange(data, start, end))
}

/// Computes the runs of bytes that differ between `before` and `after`,
/// coalescing adjacent changed bytes into a single run. Trailing bytes of
/// `after` beyond `before` are a final run.
#[must_use]
pub fn diff_array(before: &[u8], after: &[u8]) -> (r: Vec<ArrayDelta>)
    ensures
        runs_of(r@) == diff_runs(before@, after@),
{
    let mut deltas: Vec<ArrayDelta> = Vec::new();
    let common: usize = if before.len() < after.len() {
        before.len()
    } else {
        after.len()
    };
    let mut i: usize = 0;
    assert(runs_of(deltas@) + diff_from(before@, after@, 0) =~= diff_runs(before@, after@));
    while i < common
        invariant
            i <= common,
            common == common_len(before@, after@),
            runs_of(deltas@) + diff_from(before@, after@, i as int) == diff_runs(before@, after@),
        decreases common - i,
    {
        if before[i] != after[i] {
            let start: usize = i;
            while i < common && before[i] != after[i]
                invariant
                    start <= i <= common,
                    common == common_len(before@, after@),
                    forall|k: int| start <= k < i ==> before@[k] != after@[k],
                decreases common - i,
            {
                i = i + 1;
            }
            let ghost old_runs = runs_of(deltas@);
            deltas.push(
                ArrayDelta { offset: start as u32, data: copy_range(after, start, i) },
            );
            proof {
                lemma_is_run_end(before@, after@, start as int, i as int);
                let run = Run {
                    offset: start as u32,
                    data: after@.subrange(start as int, i as int),
                };
                assert(runs_of(deltas@) =~= old_runs.push(run));
                let rest = diff_from(before@, after@, i as int);
                assert(diff_from(before@, after@, start as int) == seq![run] + rest);
                assert(old_runs.push(run) + rest =~= old_runs + (seq![run] + rest));
            }
        } else {
            i = i + 1;
        }
    }
    if after.len() > common {
        let ghost old_runs = runs_of(deltas@);
        deltas.push(
            ArrayDelta { offset: common as u32, data: copy_range(after, common, after.len()) },
        );
        proof {
            let run = Run {
                offset: common as u32,
                data: after@.subrange(common as int, after@.len() as int),
            };
            assert(runs_of(deltas@) =~= old_runs + seq![run]);
        }
    } else {
        assert(runs_of(deltas@) =~= runs_of(deltas@) + Seq::<Run>::empty());
    }
    deltas
}

/// Applies previously computed runs back onto `target`.
pub fn apply_deltas(target: &mut Vec<u8>, deltas: &[ArrayDelta])
    ensures
        final(target)@ == runs_applied(old(target)@, runs_of(deltas@), 0),
        final(target)@.len() == old(target)@.len(),
{
    let mut n: usize = 0;
    while n < deltas.len()
        invariant
            n <= deltas@.len(),
            target@.len() == old(target)@.len(),
            runs_applied(target@, runs_of(deltas@), n as int) == runs_applied(
                old(target)@,
                runs_of(deltas@),
                0,
            ),
        decreases deltas@.len() - n,
    {
        apply_delta(target, &deltas[n]);
        n = n + 1;
    }
}

/// Writes one run.
fn apply_delta(target: &mut Vec<u8>, delta: &ArrayDelta)
    ensures
        final(target)@ == run_applied(old(target)@, delta@),
{
    let start: usize = delta.offset as usize;
    let size: usize = target.len();
    if start <= size && delta.data.len() <= size - start {
        let len: usize = delta.data.len();
        let mut k: usize = 0;
        while k < len
            invariant
                k <= len,
                len == delta.data@.len(),
                start + len <= size,
                size == old(target)@.len(),
                target@.len() == size,
                forall|j: int|
                    0 <= j < size ==> target@[j] == if start <= j < start + k {
                        delta.data@[j - start]
                    } else {
                        old(target)@[j]
                    },
            decreases len - k,
        {
            target[start + k] = delta.data[k];
            k = k + 1;
        }
    }
    assert(target@ =~= run_applied(old(target)@, delta@));
}

/// Counts the bytes that runs hold.
pub fn count_run_bytes(deltas: &Vec<ArrayDelta>) -> (r: usize)
    requires
        run_bytes(runs_of(deltas@)) <= usize::MAX,
    ensures
        r == run_bytes(runs_of(deltas@)),
{
    let mut total: usize = 0;
    let mut n: usize = 0;
    assert(runs_of(deltas@).subrange(0, 0) =~= Seq::<Run>::empty());
    while n < deltas.len()
        invariant
            n <= deltas@.len(),
            run_bytes(runs_of(deltas@)) <= usize::MAX,
            total == run_bytes(runs_of(deltas@).subrange(0, n as int)),
        decreases deltas@.len() - n,
    {
        let ghost runs = runs_of(deltas@);
        proof {
            lemma_run_bytes_prefix(runs, n + 1);
            assert(runs.subrange(0, n + 1).drop_last() =~= runs.subrange(0, n as int));
            assert(runs.subrange(0, n + 1).last() == deltas@[n as int]@);
        }
        total = total + deltas[n].data.len();
        n = n + 1;
    }
    assert(runs_of(deltas@).subrange(0, n as int) =~= runs_of(deltas@));
    total
}

/// A prefix of runs holds no more bytes than all.
proof fn lemma_run_bytes_prefix(runs: Seq<Run>, n: int)
    requires
        0 <= n <= runs.len(),
    ensures
        run_bytes(runs.subrange(0, n)) <= run_bytes(runs),
    decreases runs.len(),
{
    if n < runs.len() {
        assert(runs.drop_last().subrange(0, n) =~= runs.subrange(0, n));
        lemma_run_bytes_prefix(runs.drop_last(), n);
    } else {
        assert(runs.subrange(0, n) =~= runs);
    }
}

/// Bytes of a concatenation of runs.
proof fn lemma_run_bytes_cons(run: Run, rest: Seq<Run>)
    ensures
        run_bytes(seq![run] + rest) == run.data.len() + run_bytes(rest),
    decreases rest.len(),
{
    let all = seq![run] + rest;
    if rest.len() == 0 {
        assert(all =~= seq![run]);
        assert(seq![run].drop_last() =~= Seq::<Run>::empty());
        assert(run_bytes(Seq::<Run>::empty()) == 0);
    } else {
        assert(all.drop_last() =~= seq![run] + rest.drop_last());
        lemma_run_bytes_cons(run, rest.drop_last());
    }
}

/// The runs of a diff hold no more bytes than the new array.
pub proof fn lemma_diff_bytes(before: Seq<u8>, after: Seq<u8>, i: int)
    requires
        0 <= i <= common_len(before, after),
    ensures
        run_bytes(diff_from(before, after, i)) <= after.len() - i,
    decreases common_len(before, after) - i,
{
    let common = common_len(before, after);
    if i >= common {
        if after.len() > common {
            let run = Run {
                offset: common as u32,
                data: after.subrange(common, after.len() as int),
            };
            lemma_run_bytes_cons(run, Seq::empty());
            assert(seq![run] + Seq::<Run>::empty() =~= seq![run]);
            assert(run_bytes(Seq::<Run>::empty()) == 0);
        } else {
            assert(run_bytes(Seq::<Run>::empty()) == 0);
        }
    } else if before[i] == after[i] {
        lemma_diff_bytes(before, after, i + 1);
    } else {
        lemma_run_end(before, after, i);
        let end = run_end(before, after, i);
        lemma_diff_bytes(before, after, end);
        lemma_run_bytes_cons(
            Run { offset: i as u32, data: after.subrange(i, end) },
            diff_from(before, after, end),
        );
    }
}

/// Writing a list of runs from one position on is writing its tail.
proof fn lemma_applied_shift(target: Seq<u8>, run: Run, rest: Seq<Run>, i: int)
    requires
        0 <= i <= rest.len(),
    ensures
        runs_applied(target, seq![run] + rest, i + 1) == runs_applied(target, rest, i),
    decreases rest.len() - i,
{
    if i < rest.len() {
        assert((seq![run] + rest)[i + 1] == rest[i]);
        lemma_applied_shift(run_applied(target, rest[i]), run, rest, i + 1);
    }
}

/// Applying the difference of two arrays of one length to the first gives the
/// second.
pub proof fn law_diff_apply_roundtrip(before: Seq<u8>, after: Seq<u8>)
    requires
        before.len() == after.len(),
        before.len() <= 0x1_0000_0000,
    ensures
        runs_applied(before, diff_runs(before, after), 0) == after,
{
    lemma_diff_apply_any(before, after, 0, before);
}

/// A byte sequence cut or filled with zeros to a length.
pub open spec fn zero_extended(s: Seq<u8>, len: nat) -> Seq<u8> {
    Seq::new(
        len,
        |i: int|
            if i < s.len() {
                s[i]
            } else {
                0u8
            },
    )
}

/// The runs of a diff from `i` on, applied to an array of the new length that is
/// `after` up to `i` and `before` from there to the end of the shorter one.
proof fn lemma_diff_apply_any(before: Seq<u8>, after: Seq<u8>, i: int, target: Seq<u8>)
    requires
        after.len() <= 0x1_0000_0000,
        0 <= i <= common_len(before, after),
        target.len() == after.len(),
        forall|k: int| 0 <= k < i ==> target[k] == after[k],
        forall|k: int| i <= k < common_len(before, after) ==> target[k] == before[k],
    ensures
        runs_applied(target, diff_from(before, after, i), 0) == after,
    decreases common_len(before, after) - i,
{
    let common = common_len(before, after);
    if i >= common {
        if after.len() > common {
            let run = Run {
                offset: common as u32,
                data: after.subrange(common, after.len() as int),
            };
            let next = run_applied(target, run);
            assert(diff_from(before, after, i) == seq![run]);
            assert(runs_applied(next, seq![run], 1) == next);
            assert(seq![run][0] == run);
            assert(next =~= after);
        } else {
            assert(target =~= after);
        }
    } else if before[i] == after[i] {
        lemma_diff_apply_any(before, after, i + 1, target);
    } else {
        lemma_run_end(before, after, i);
        let end = run_end(before, after, i);
        let run = Run { offset: i as u32, data: after.subrange(i, end) };
        let rest = diff_from(before, after, end);
        let next = run_applied(target, run);
        assert(diff_from(before, after, i) == seq![run] + rest);
        assert forall|k: int| 0 <= k < end implies next[k] == after[k] by {}
        lemma_diff_apply_any(before, after, end, next);
        lemma_applied_shift(next, run, rest, 0);
        assert((seq![run] + rest)[0] == run);
    }
}

/// The runs of a diff, applied to the old array at the new length, give the new
/// array.
pub proof fn lemma_diff_apply_resized(before: Seq<u8>, after: Seq<u8>)
    requires
        after.len() <= 0x1_0000_0000,
    ensures
        runs_applied(zero_extended(before, after.len()), diff_runs(before, after), 0) == after,
{
    lemma_diff_apply_any(before, after, 0, zero_extended(before, after.len()));
}

/// The difference of an array to itself is empty.
pub proof fn law_diff_identical_empty(a: Seq<u8>)
    ensures
        diff_runs(a, a) == Seq::<Run>::empty(),
{
    lemma_diff_same_from(a, 0);
}

proof fn lemma_diff_same_from(a: Seq<u8>, i: int)
    requires
        0 <= i <= a.len(),
    ensures
        diff_from(a, a, i) == Seq::<Run>::empty(),
    decreases a.len() - i,
{
    if i < a.len() {
        lemma_diff_same_from(a, i + 1);
    }
}

} // verus!
