//! The cross-process publication channel: one published value at a time,
//! written into a named shared-memory segment under a named semaphore.
//!
//! The OS resources are modeled as one value, [`SharedWorld`]: the counting
//! semaphore's value and the segment's raw content. [`ipc_set_string`] runs
//! the exact acquisition sequence against that model — which OS call fails,
//! if any, is an input — and its contract states what every outcome leaves
//! behind: the semaphore is restored on every path that acquired it, and the
//! segment holds the complete new value on success. The runner that performs
//! the real OS calls follows this sequence step for step.
//!
//! The semaphore is the sole serialization mechanism across processes; a
//! reader that does not acquire it may observe a mid-write state, and
//! waiting on it has no timeout, so a holder that never releases blocks
//! every future publisher.

use crate::json::append_literal;
use crate::state::WayiceState;
use crate::window_utils::{build_window_list, window_list_json};
use vstd::prelude::*;
use vstd::utf8::encode_utf8;

verus! {

/// The semaphore name derived from a segment name: a single leading
/// separator is stripped, and the fixed semaphore-namespace tag is prefixed.
pub open spec fn sem_name_spec(shm: Seq<u8>) -> Seq<u8> {
    encode_utf8("/semaphore_"@) + (if shm.len() > 0 && shm[0] == 0x2f {
        shm.drop_first()
    } else {
        shm
    })
}

/// Derive the semaphore name that guards the segment of the given name.
pub fn generate_sem_name(shm_name: &[u8]) -> (r: Vec<u8>)
    ensures
        r@ == sem_name_spec(shm_name@),
{
    let mut out: Vec<u8> = Vec::new();
    append_literal(&mut out, "/semaphore_");
    let start: usize = if shm_name.len() > 0 && shm_name[0] == 0x2f {
        1
    } else {
        0
    };
    let mut i: usize = start;
    while i < shm_name.len()
        invariant
            start <= i <= shm_name@.len(),
            start == if shm_name@.len() > 0 && shm_name@[0] == 0x2f { 1int } else { 0int },
            out@ == encode_utf8("/semaphore_"@) + shm_name@.subrange(start as int, i as int),
        decreases shm_name@.len() - i,
    {
        out.push(shm_name[i]);
        assert(out@ =~= encode_utf8("/semaphore_"@) + shm_name@.subrange(
            start as int,
            i as int + 1,
        ));
        i = i + 1;
    }
    proof {
        if shm_name@.len() > 0 && shm_name@[0] == 0x2f {
            assert(shm_name@.subrange(1, shm_name@.len() as int) =~= shm_name@.drop_first());
        } else {
            assert(shm_name@.subrange(0, shm_name@.len() as int) =~= shm_name@);
        }
    }
    assert(out@ =~= sem_name_spec(shm_name@));
    out
}

/// The shared resources as every process sees them: the named counting
/// semaphore's value and the segment's raw content. The semaphore is the
/// sole serialization mechanism; a reader that does not acquire it may
/// observe any intermediate content.
#[derive(Clone, PartialEq, Eq, Debug)]
pub struct SharedWorld {
    /// The semaphore's value: one when free, zero while held.
    pub sem: u32,
    /// The segment's raw content.
    pub segment: Vec<u8>,
}

/// Which step of the publish sequence the OS refuses, if any. The sequence
/// stops at the first refused step.
#[derive(Clone, Copy, PartialEq, Eq, Debug)]
pub struct PublishFaults {
    /// Opening or creating the semaphore fails.
    pub sem_open: bool,
    /// Waiting on the semaphore fails.
    pub sem_wait: bool,
    /// Opening or creating the segment fails.
    pub shm_open: bool,
    /// Truncating the segment to zero length fails.
    pub clear: bool,
    /// Resizing the segment to the value's length plus one fails.
    pub size: bool,
    /// Mapping the segment fails.
    pub map: bool,
}

impl PublishFaults {
    /// A run on which the OS refuses nothing.
    pub open spec fn none_spec() -> PublishFaults {
        PublishFaults {
            sem_open: false,
            sem_wait: false,
            shm_open: false,
            clear: false,
            size: false,
            map: false,
        }
    }

    /// A run on which the OS refuses nothing.
    pub fn none() -> (r: PublishFaults)
        ensures
            r == PublishFaults::none_spec(),
    {
        PublishFaults {
            sem_open: false,
            sem_wait: false,
            shm_open: false,
            clear: false,
            size: false,
            map: false,
        }
    }
}

/// How one publish attempt ended. Every failure is terminal for the attempt
/// and reported only here; callers must not assume the segment was updated.
#[derive(Clone, Copy, PartialEq, Eq, Debug)]
pub enum PublishOutcome {
    /// The complete value and its terminating zero byte stand in the segment.
    Published,
    /// The semaphore could not be opened; nothing was touched.
    SemOpenFailed,
    /// The semaphore could not be acquired; nothing was touched.
    WaitFailed,
    /// The segment could not be opened; its content is untouched.
    ShmOpenFailed,
    /// The segment could not be truncated; its content is untouched.
    ClearFailed,
    /// The segment could not be resized; it was left empty.
    SizeFailed,
    /// The segment could not be mapped; it was left zero-filled.
    MapFailed,
}

/// A zero-filled byte sequence.
pub open spec fn zeros(n: nat) -> Seq<u8> {
    Seq::new(n, |i: int| 0u8)
}

/// Publish one value into the segment, following the acquisition sequence
/// exactly: open the semaphore, wait on it, open the segment, truncate it,
/// resize it to the value's length plus one, map it, copy the value and a
/// single terminating zero byte, then release everything. Every path that
/// acquired the semaphore restores it to its prior value — released exactly
/// once — whether the attempt succeeded or was abandoned.
pub fn ipc_set_string(world: &mut SharedWorld, value: &[u8], faults: PublishFaults) -> (r:
    PublishOutcome)
    requires
        old(world).sem == 1,
        value@.len() < usize::MAX,
    ensures
        final(world).sem == 1,
        r == PublishOutcome::Published <==> faults == PublishFaults::none_spec(),
        r == (if faults.sem_open {
            PublishOutcome::SemOpenFailed
        } else if faults.sem_wait {
            PublishOutcome::WaitFailed
        } else if faults.shm_open {
            PublishOutcome::ShmOpenFailed
        } else if faults.clear {
            PublishOutcome::ClearFailed
        } else if faults.size {
            PublishOutcome::SizeFailed
        } else if faults.map {
            PublishOutcome::MapFailed
        } else {
            PublishOutcome::Published
        }),
        r == PublishOutcome::Published ==> final(world).segment@ == value@ + seq![0u8],
        (r == PublishOutcome::SemOpenFailed || r == PublishOutcome::WaitFailed || r
            == PublishOutcome::ShmOpenFailed || r == PublishOutcome::ClearFailed)
            ==> final(world).segment@ == old(world).segment@,
        r == PublishOutcome::SizeFailed ==> final(world).segment@ == Seq::<u8>::empty(),
        r == PublishOutcome::MapFailed ==> final(world).segment@ == zeros(value@.len() + 1),
{
    // Open or create the semaphore; failing this is a hard stop, nothing to
    // clean up.
    if faults.sem_open {
        return PublishOutcome::SemOpenFailed;
    }
    // Wait on the semaphore. A failed wait acquired nothing: the handle is
    // closed and the attempt abandoned without a release.
    if faults.sem_wait {
        return PublishOutcome::WaitFailed;
    }
    world.sem = 0;
    // Open or create the segment; on failure, release the semaphore and
    // close its handle.
    if faults.shm_open {
        world.sem = 1;
        return PublishOutcome::ShmOpenFailed;
    }
    // Truncate the segment to zero length to discard stale content; on
    // failure, close the descriptor, release the semaphore, close its
    // handle.
    if faults.clear {
        world.sem = 1;
        return PublishOutcome::ClearFailed;
    }
    world.segment = Vec::new();
    // Resize the segment to hold the value and its terminating zero byte;
    // the new bytes read as zeros. Same cleanup on failure.
    if faults.size {
        world.sem = 1;
        return PublishOutcome::SizeFailed;
    }
    let mut sized: Vec<u8> = Vec::new();
    let target: usize = value.len() + 1;
    while sized.len() < target
        invariant
            sized@ =~= zeros(sized@.len() as nat),
            sized@.len() <= target,
        decreases target - sized@.len(),
    {
        sized.push(0);
        assert(sized@ =~= zeros(sized@.len() as nat));
    }
    assert(sized@ =~= zeros(value@.len() + 1));
    world.segment = sized;
    // Map the segment; on failure, close the descriptor, release the
    // semaphore, close its handle.
    if faults.map {
        world.sem = 1;
        return PublishOutcome::MapFailed;
    }
    // Copy the value and append the single terminating zero byte.
    let mut written: Vec<u8> = Vec::new();
    crate::json::append_bytes(&mut written, value);
    written.push(0);
    assert(written@ =~= value@ + seq![0u8]);
    world.segment = written;
    // Unmap, close the descriptor, release the semaphore, close its handle —
    // in that order, unconditionally.
    world.sem = 1;
    PublishOutcome::Published
}

/// The bytes a reader sees: everything before the first zero byte, or the
/// whole content when none occurs.
pub open spec fn until_nul(s: Seq<u8>) -> Seq<u8>
    decreases s.len(),
{
    if s.len() == 0 {
        Seq::empty()
    } else if s[0] == 0 {
        Seq::empty()
    } else {
        seq![s[0]] + until_nul(s.drop_first())
    }
}

/// Read the segment as a reader that scans for the terminating zero byte.
pub fn read_segment(world: &SharedWorld) -> (r: Vec<u8>)
    ensures
        r@ == until_nul(world.segment@),
{
    let ghost s = world.segment@;
    let mut out: Vec<u8> = Vec::new();
    let mut i: usize = 0;
    let mut done = false;
    proof {
        assert(s.skip(0) =~= s);
    }
    while i < world.segment.len() && !done
        invariant
            i <= s.len(),
            s == world.segment@,
            done ==> until_nul(s) == out@,
            !done ==> until_nul(s) == out@ + until_nul(s.skip(i as int)),
        decreases s.len() - i, (if done { 0int } else { 1int }),
    {
        let b = world.segment[i];
        proof {
            assert(s.skip(i as int)[0] == s[i as int]);
            assert(s.skip(i as int).drop_first() =~= s.skip(i as int + 1));
        }
        if b == 0 {
            done = true;
            assert(until_nul(s) =~= out@);
        } else {
            out.push(b);
            i = i + 1;
            assert(until_nul(s) =~= out@ + until_nul(s.skip(i as int)));
        }
    }
    proof {
        if !done {
            assert(s.skip(s.len() as int) =~= Seq::<u8>::empty());
        }
    }
    assert(out@ =~= until_nul(s));
    out
}

/// Everything before a terminating zero byte comes back unchanged.
proof fn lemma_until_nul_terminated(v: Seq<u8>)
    requires
        forall|i: int| 0 <= i < v.len() ==> v[i] != 0,
    ensures
        until_nul(v + seq![0u8]) == v,
    decreases v.len(),
{
    let s = v + seq![0u8];
    if v.len() == 0 {
        assert(s[0] == 0);
        assert(until_nul(s) =~= v);
    } else {
        lemma_until_nul_terminated(v.drop_first());
        assert(s.drop_first() =~= v.drop_first() + seq![0u8]);
        assert(until_nul(s) =~= v);
    }
}

/// Round-trip publish: a successful publish leaves the segment at the value
/// followed by one zero byte, so for any value without embedded zero bytes a
/// reader that scans for the terminator recovers exactly the value, and the
/// segment's length is the value's length plus one.
pub proof fn lemma_publish_round_trip(w: SharedWorld, value: Seq<u8>)
    requires
        w.segment@ == value + seq![0u8],
        forall|i: int| 0 <= i < value.len() ==> value[i] != 0,
    ensures
        until_nul(w.segment@) == value,
        w.segment@.len() == value.len() + 1,
{
    lemma_until_nul_terminated(value);
}

/// The name of the segment this compositor publishes its window list into.
pub fn window_list_segment_name() -> (r: Vec<u8>)
    ensures
        r@ == encode_utf8("/wayice_list_windows"@),
{
    let mut out: Vec<u8> = Vec::new();
    append_literal(&mut out, "/wayice_list_windows");
    out
}

impl WayiceState {
    /// Snapshot the mapped windows and publish the serialized list, with the
    /// runner's report of which OS call failed, if any. Whatever the
    /// outcome, the semaphore comes back released; on success the segment
    /// holds the complete list and its terminating zero byte.
    pub fn ipc_shm_update_window_list(&self, world: &mut SharedWorld, faults: PublishFaults) -> (r:
        PublishOutcome)
        requires
            old(world).sem == 1,
            window_list_json(self.windows@).len() < usize::MAX,
        ensures
            final(world).sem == 1,
            r == PublishOutcome::Published <==> faults == PublishFaults::none_spec(),
            r == PublishOutcome::Published ==> final(world).segment@ == window_list_json(
                self.windows@,
            ) + seq![0u8],
            (r == PublishOutcome::SemOpenFailed || r == PublishOutcome::WaitFailed || r
                == PublishOutcome::ShmOpenFailed || r == PublishOutcome::ClearFailed)
                ==> final(world).segment@ == old(world).segment@,
    {
        let payload = build_window_list(&self.windows);
        ipc_set_string(world, payload.as_slice(), faults)
    }
}

/// The phases one publisher passes through on a fault-free run, in order:
/// semaphore opened, semaphore acquired, segment opened, segment truncated,
/// segment resized, segment mapped, value and terminator written, everything
/// released.
#[derive(Clone, Copy, PartialEq, Eq, Debug)]
pub enum PublishPhase {
    Start,
    SemOpened,
    Held,
    SegmentOpen,
    Cleared,
    Sized,
    Mapped,
    Written,
    Done,
}

/// One publisher of the concurrent protocol model: the value it publishes
/// and how far it has come.
pub struct Publisher {
    pub value: Seq<u8>,
    pub phase: PublishPhase,
}

/// The shared resources of the concurrent protocol model.
pub struct WorldModel {
    /// The semaphore's value.
    pub sem: nat,
    /// The segment's raw content.
    pub segment: Seq<u8>,
}

/// Whether a publisher in this phase holds the semaphore.
pub open spec fn holds_sem(p: Publisher) -> bool {
    match p.phase {
        PublishPhase::Held => true,
        PublishPhase::SegmentOpen => true,
        PublishPhase::Cleared => true,
        PublishPhase::Sized => true,
        PublishPhase::Mapped => true,
        PublishPhase::Written => true,
        _ => false,
    }
}

/// Whether a publisher in this phase has started rewriting the segment.
pub open spec fn touches_segment(p: Publisher) -> bool {
    match p.phase {
        PublishPhase::Cleared => true,
        PublishPhase::Sized => true,
        PublishPhase::Mapped => true,
        PublishPhase::Written => true,
        _ => false,
    }
}

/// The phase after one more successful step.
pub open spec fn next_phase(ph: PublishPhase) -> PublishPhase {
    match ph {
        PublishPhase::Start => PublishPhase::SemOpened,
        PublishPhase::SemOpened => PublishPhase::Held,
        PublishPhase::Held => PublishPhase::SegmentOpen,
        PublishPhase::SegmentOpen => PublishPhase::Cleared,
        PublishPhase::Cleared => PublishPhase::Sized,
        PublishPhase::Sized => PublishPhase::Mapped,
        PublishPhase::Mapped => PublishPhase::Written,
        PublishPhase::Written => PublishPhase::Done,
        PublishPhase::Done => PublishPhase::Done,
    }
}

/// Whether this publisher can take its next step: waiting blocks until the
/// semaphore is free, and a finished publisher stops.
pub open spec fn step_enabled(p: Publisher, w: WorldModel) -> bool {
    match p.phase {
        PublishPhase::SemOpened => w.sem >= 1,
        PublishPhase::Done => false,
        _ => true,
    }
}

/// The publisher after its next step.
pub open spec fn stepped_publisher(p: Publisher) -> Publisher {
    Publisher { phase: next_phase(p.phase), ..p }
}

/// The shared resources after this publisher's next step: acquiring takes
/// the semaphore, truncating empties the segment, resizing zero-fills it,
/// writing fills it with the value and its terminator, and finishing
/// releases the semaphore.
pub open spec fn stepped_world(p: Publisher, w: WorldModel) -> WorldModel {
    match p.phase {
        PublishPhase::SemOpened => WorldModel { sem: (w.sem - 1) as nat, ..w },
        PublishPhase::SegmentOpen => WorldModel { segment: Seq::empty(), ..w },
        PublishPhase::Cleared => WorldModel { segment: zeros(p.value.len() + 1), ..w },
        PublishPhase::Mapped => WorldModel { segment: p.value + seq![0u8], ..w },
        PublishPhase::Written => WorldModel { sem: w.sem + 1, ..w },
        _ => w,
    }
}

/// The segment holds one complete value: the initial content, or exactly one
/// publisher's value with its terminator — never a mixture.
pub open spec fn segment_complete(ps: Seq<Publisher>, seg: Seq<u8>, init: Seq<u8>) -> bool {
    seg == init || exists|i: int|
        0 <= i < ps.len() && seg == #[trigger] ps[i].value + seq![0u8]
}

/// The protocol invariant. Mutual exclusion: the semaphore never exceeds its
/// initial value, whoever holds it is alone in holding it, and it reads zero
/// while held. Segment integrity: a publisher that has started rewriting the
/// segment accounts exactly for its content, and while nobody rewrites it —
/// in particular whenever the semaphore is free — it holds one complete
/// value; once some publisher has finished, the initial content is gone for
/// good.
pub open spec fn publish_inv(ps: Seq<Publisher>, w: WorldModel, init: Seq<u8>) -> bool {
    &&& w.sem <= 1
    &&& forall|i: int| 0 <= i < ps.len() && holds_sem(#[trigger] ps[i]) ==> w.sem == 0
    &&& forall|i: int, j: int|
        0 <= i < ps.len() && 0 <= j < ps.len() && holds_sem(#[trigger] ps[i]) && holds_sem(
            #[trigger] ps[j],
        ) ==> i == j
    &&& forall|i: int|
        0 <= i < ps.len() && (#[trigger] ps[i]).phase == PublishPhase::Cleared ==> w.segment
            == Seq::<u8>::empty()
    &&& forall|i: int|
        0 <= i < ps.len() && ((#[trigger] ps[i]).phase == PublishPhase::Sized || ps[i].phase
            == PublishPhase::Mapped) ==> w.segment == zeros(ps[i].value.len() + 1)
    &&& forall|i: int|
        0 <= i < ps.len() && (#[trigger] ps[i]).phase == PublishPhase::Written ==> w.segment
            == ps[i].value + seq![0u8]
    &&& (forall|i: int| 0 <= i < ps.len() ==> !touches_segment(#[trigger] ps[i]))
        ==> segment_complete(ps, w.segment, init)
    &&& ((exists|i: int| 0 <= i < ps.len() && (#[trigger] ps[i]).phase == PublishPhase::Done)
        && (forall|i: int| 0 <= i < ps.len() ==> !touches_segment(#[trigger] ps[i])))
        ==> (exists|i: int| 0 <= i < ps.len() && w.segment == #[trigger] ps[i].value + seq![0u8])
}

/// Before anyone has moved — every publisher at the start, the semaphore
/// free, the segment at its initial content — the protocol invariant holds.
pub proof fn lemma_publish_inv_init(ps: Seq<Publisher>, w: WorldModel, init: Seq<u8>)
    requires
        w.sem == 1,
        w.segment == init,
        forall|i: int| 0 <= i < ps.len() ==> (#[trigger] ps[i]).phase == PublishPhase::Start,
    ensures
        publish_inv(ps, w, init),
{
}

/// Mutual exclusion is preserved: whichever enabled publisher takes its next
/// step, the protocol invariant carries over.
pub proof fn lemma_publish_inv_step(ps: Seq<Publisher>, w: WorldModel, init: Seq<u8>, i: int)
    requires
        publish_inv(ps, w, init),
        0 <= i < ps.len(),
        step_enabled(ps[i], w),
    ensures
        publish_inv(
            ps.update(i, stepped_publisher(ps[i])),
            stepped_world(ps[i], w),
            init,
        ),
{
    let ps2 = ps.update(i, stepped_publisher(ps[i]));
    let w2 = stepped_world(ps[i], w);
    assert(forall|j: int| 0 <= j < ps.len() && j != i ==> ps2[j] == ps[j]);
    assert(forall|j: int| 0 <= j < ps.len() ==> (#[trigger] ps2[j]).value == ps[j].value);
    match ps[i].phase {
        PublishPhase::SemOpened => {
            assert(forall|j: int| 0 <= j < ps.len() ==> !holds_sem(#[trigger] ps[j]));
        },
        PublishPhase::Written => {
            assert(w.sem == 0);
            assert(forall|j: int| 0 <= j < ps2.len() && holds_sem(#[trigger] ps2[j]) ==> j == i);
            assert(!holds_sem(ps2[i]));
            assert(w2.segment == ps2[i].value + seq![0u8]);
        },
        _ => {},
    }
    if forall|j: int| 0 <= j < ps2.len() ==> !touches_segment(#[trigger] ps2[j]) {
        if ps[i].phase == PublishPhase::Written {
            assert(w2.segment == ps2[i].value + seq![0u8]);
        } else {
            // The step neither was nor became a rewrite of the segment, so
            // nobody rewrites it before the step either, and the step left
            // the content alone: completeness carries over witness by
            // witness.
            assert(!touches_segment(ps2[i]));
            assert(forall|j: int| 0 <= j < ps.len() ==> !touches_segment(#[trigger] ps[j]));
            assert(segment_complete(ps, w.segment, init));
            assert(w2.segment == w.segment);
            if w.segment != init {
                let j = choose|j: int|
                    0 <= j < ps.len() && w.segment == #[trigger] ps[j].value + seq![0u8];
                assert(w2.segment == ps2[j].value + seq![0u8]);
            }
            if exists|j: int|
                0 <= j < ps2.len() && (#[trigger] ps2[j]).phase == PublishPhase::Done {
                let d = choose|j: int|
                    0 <= j < ps2.len() && (#[trigger] ps2[j]).phase == PublishPhase::Done;
                assert(ps[d].phase == PublishPhase::Done);
                let k = choose|k: int|
                    0 <= k < ps.len() && w.segment == #[trigger] ps[k].value + seq![0u8];
                assert(w2.segment == ps2[k].value + seq![0u8]);
            }
        }
    }
}

/// No partial write is observable under the protocol: whenever the semaphore
/// is free, the segment holds the initial content or exactly one complete
/// published value, never an interleaving.
pub proof fn lemma_no_partial_observation(ps: Seq<Publisher>, w: WorldModel, init: Seq<u8>)
    requires
        publish_inv(ps, w, init),
        w.sem >= 1,
    ensures
        segment_complete(ps, w.segment, init),
{
    assert(forall|j: int| 0 <= j < ps.len() ==> !holds_sem(#[trigger] ps[j]));
    assert(forall|j: int| 0 <= j < ps.len() ==> !touches_segment(#[trigger] ps[j]));
}

/// Once every publisher has finished, the segment holds exactly one of their
/// complete values.
pub proof fn lemma_all_done_one_value(ps: Seq<Publisher>, w: WorldModel, init: Seq<u8>)
    requires
        publish_inv(ps, w, init),
        ps.len() > 0,
        forall|i: int| 0 <= i < ps.len() ==> (#[trigger] ps[i]).phase == PublishPhase::Done,
    ensures
        exists|i: int| 0 <= i < ps.len() && w.segment == #[trigger] ps[i].value + seq![0u8],
{
    assert(ps[0].phase == PublishPhase::Done);
    assert(forall|j: int| 0 <= j < ps.len() ==> !touches_segment(#[trigger] ps[j]));
}

} // verus!
