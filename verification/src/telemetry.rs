//! The decisions of the telemetry loop.
//!
//! One loop runs at a time, guarded by the context's active mark. The host
//! runs it: each cycle it takes the time, asks every registered instance
//! for its state, and hands the batch to `conclude_cycle`, which says
//! whether to emit and sleep or to end. A loop ends by itself once more
//! empty cycles have followed one another than the limit allows; the next
//! registration starts a new one.

use crate::snapshot::{InstanceInstantData, SnapshotCycle};
use crate::supervisor::{Orchestrator, OrchestratorView};
use vstd::prelude::*;

verus! {

/// How many empty cycles in a row the loop emits before it ends.
pub const EMPTY_CYCLE_LIMIT: u64 = 5;

/// The state that one telemetry loop keeps for itself: how many empty
/// cycles have followed one another.
#[derive(Debug)]
pub struct TelemetryLoop {
    empty_cycles: u64,
}

/// What the host does at the end of a cycle.
#[derive(Debug)]
pub enum CycleAction {
    /// Hand the batch to the subscriber, then sleep for `delay` seconds and
    /// run the next cycle.
    Emit { batch: Vec<InstanceInstantData>, delay: u64 },
    /// End the loop. The context's active mark has been cleared.
    Terminate,
}

/// The count of empty cycles after a cycle whose batch held `batch_len`
/// snapshots: back to zero after a batch that held any, one more after an
/// empty one. A count beyond the limit stays where it is.
pub open spec fn idle_after(idle: u64, batch_len: nat) -> u64 {
    if batch_len > 0 {
        0
    } else if idle <= EMPTY_CYCLE_LIMIT {
        (idle + 1) as u64
    } else {
        idle
    }
}

/// Whether the loop ends with this cycle: its batch is empty and the count
/// of empty cycles goes beyond the limit.
pub open spec fn ends_loop(idle: u64, batch_len: nat) -> bool {
    batch_len == 0 && idle_after(idle, batch_len) > EMPTY_CYCLE_LIMIT
}

/// The context after a cycle: unchanged, but for the active mark, which a
/// cycle that ends the loop clears.
pub open spec fn concluded(s: OrchestratorView, idle: u64, batch_len: nat) -> OrchestratorView {
    if ends_loop(idle, batch_len) {
        OrchestratorView { emitting: false, ..s }
    } else {
        s
    }
}

impl TelemetryLoop {
    /// How many empty cycles have followed one another.
    pub closed spec fn idle(&self) -> u64 {
        self.empty_cycles
    }

    /// The state of a loop that starts.
    pub fn new() -> (lp: TelemetryLoop)
        ensures
            lp.idle() == 0,
    {
        TelemetryLoop { empty_cycles: 0 }
    }

    /// How many empty cycles have followed one another.
    pub fn empty_cycles(&self) -> (n: u64)
        ensures
            n == self.idle(),
    {
        self.empty_cycles
    }
}

/// Concludes a cycle. A batch that holds a snapshot resets the count of
/// empty cycles and is emitted. An empty batch counts; it is emitted too,
/// until the count goes beyond the limit: then the active mark is cleared
/// and the loop ends without emitting. The delay of an emission is the
/// context's interval as it stands now. The registry is not touched.
pub fn conclude_cycle(ctx: &mut Orchestrator, lp: &mut TelemetryLoop, cycle: SnapshotCycle) -> (action:
    CycleAction)
    ensures
        final(lp).idle() == idle_after(old(lp).idle(), cycle.batch@.len()),
        final(ctx)@ == concluded(old(ctx)@, old(lp).idle(), cycle.batch@.len()),
        action is Terminate <==> ends_loop(old(lp).idle(), cycle.batch@.len()),
        action matches CycleAction::Emit { batch, delay } ==> batch == cycle.batch && delay == old(
            ctx,
        )@.emit_delay,
{
    if cycle.batch.len() == 0 {
        if lp.empty_cycles <= EMPTY_CYCLE_LIMIT {
            lp.empty_cycles = lp.empty_cycles + 1;
        }
        if lp.empty_cycles > EMPTY_CYCLE_LIMIT {
            ctx.deactivate_telemetry();
            return CycleAction::Terminate;
        }
    } else {
        lp.empty_cycles = 0;
    }
    let delay = ctx.emit_delay();
    CycleAction::Emit { batch: cycle.batch, delay }
}

/// A telemetry loop between two cycles, as the laws below follow it: the
/// context, the loop's count of empty cycles, whether it has ended, and how
/// many batches it has emitted.
pub struct LoopTrace {
    pub ctx: OrchestratorView,
    pub idle: u64,
    pub ended: bool,
    pub emitted: nat,
}

/// The loop after one more cycle that finds no instance to report. A loop
/// that has ended runs no cycle.
pub open spec fn empty_cycle(t: LoopTrace) -> LoopTrace {
    if t.ended {
        t
    } else {
        LoopTrace {
            ctx: concluded(t.ctx, t.idle, 0),
            idle: idle_after(t.idle, 0),
            ended: ends_loop(t.idle, 0),
            emitted: if ends_loop(t.idle, 0) {
                t.emitted
            } else {
                t.emitted + 1
            },
        }
    }
}

/// The loop after `n` cycles in a row that find no instance to report.
pub open spec fn after_empty_cycles(t: LoopTrace, n: nat) -> LoopTrace
    decreases n,
{
    if n == 0 {
        t
    } else {
        empty_cycle(after_empty_cycles(t, (n - 1) as nat))
    }
}

/// A loop that has just started on the context `s`.
pub open spec fn started_loop(s: OrchestratorView) -> LoopTrace {
    LoopTrace {
        ctx: OrchestratorView { emitting: true, ..s },
        idle: 0,
        ended: false,
        emitted: 0,
    }
}

/// While no instance reports, a loop that has started emits one empty
/// batch in each of its first cycles up to the limit and ends in the cycle
/// after them.
pub proof fn lemma_idle_loop_progress(s: OrchestratorView, n: nat)
    ensures
        n <= EMPTY_CYCLE_LIMIT ==> {
            &&& !after_empty_cycles(started_loop(s), n).ended
            &&& after_empty_cycles(started_loop(s), n).idle == n
            &&& after_empty_cycles(started_loop(s), n).emitted == n
            &&& after_empty_cycles(started_loop(s), n).ctx == started_loop(s).ctx
        },
        n > EMPTY_CYCLE_LIMIT ==> {
            &&& after_empty_cycles(started_loop(s), n).ended
            &&& after_empty_cycles(started_loop(s), n).emitted == EMPTY_CYCLE_LIMIT
            &&& after_empty_cycles(started_loop(s), n).ctx == (OrchestratorView { emitting: false, ..s })
        },
    decreases n,
{
    if n > 0 {
        lemma_idle_loop_progress(s, (n - 1) as nat);
    }
}

/// The telemetry loop stops by itself: with no instance to report, it never
/// emits more empty batches than the limit, it has ended after one cycle
/// more than the limit, and the active mark is then clear.
pub proof fn lemma_idle_loop_stops(s: OrchestratorView)
    ensures
        forall|n: nat| #[trigger] after_empty_cycles(started_loop(s), n).emitted <= EMPTY_CYCLE_LIMIT,
        after_empty_cycles(started_loop(s), (EMPTY_CYCLE_LIMIT + 1) as nat).ended,
        !after_empty_cycles(started_loop(s), (EMPTY_CYCLE_LIMIT + 1) as nat).ctx.emitting,
{
    assert forall|n: nat| #[trigger] after_empty_cycles(started_loop(s), n).emitted <= EMPTY_CYCLE_LIMIT by {
        lemma_idle_loop_progress(s, n);
    }
    lemma_idle_loop_progress(s, (EMPTY_CYCLE_LIMIT + 1) as nat);
}

} // verus!
