//! The state that background operations share with a user interface: one
//! running flag and one progress value per operation, written by the
//! operation and read by the interface.

use crate::progress::{lemma_product_fits, Progress};
use vstd::prelude::*;

verus! {

/// Milliseconds that must pass between two stored progress updates of one
/// operation, unless the update completes it.
pub const PUBLISH_INTERVAL_MS: u64 = 16;

/// The categories of operations.
#[derive(Clone, Copy, Debug, PartialEq, Eq, Structural)]
pub enum OperationKind {
    Upload,
    Download,
    ListFiles,
    DeleteFile,
    FetchLists,
    CreateList,
    UpdateList,
    DeleteList,
    FetchUser,
}

/// The fraction shown for an operation. It is wide enough to hold the progress
/// of one transfer as well as that of several transfers taken together.
#[derive(Clone, Copy, Debug, PartialEq, Eq, Structural)]
pub struct TransferProgress {
    pub num: u128,
    pub den: u128,
}

impl TransferProgress {
    /// A well-formed fraction lies in the closed interval from zero to one.
    pub open spec fn wf(self) -> bool {
        0 < self.den && self.num <= self.den
    }

    /// The fraction is exactly one.
    pub open spec fn is_complete(self) -> bool {
        self.num == self.den
    }
}

/// The progress of one transfer as the fraction shown for its operation.
pub open spec fn shown(p: Progress) -> TransferProgress {
    TransferProgress { num: p.num as u128, den: p.den as u128 }
}

/// The fraction of `total` equal transfers that is done when `index` of them
/// are complete and the next one stands at `p`: `(index + p) / total`.
pub open spec fn overall(index: u64, total: u64, p: Progress) -> TransferProgress {
    TransferProgress {
        num: (index as int * p.den as int + p.num as int) as u128,
        den: (total as int * p.den as int) as u128,
    }
}

/// Flag and progress of one operation.
#[derive(Clone, Copy, Debug, PartialEq, Eq, Structural)]
pub struct Operation {
    /// The category of the operation.
    pub kind: OperationKind,
    /// Whether the operation is in flight.
    pub running: bool,
    /// The fraction last stored for it.
    pub progress: TransferProgress,
    /// Time of the last stored update, in milliseconds.
    pub last_update_ms: u64,
}

/// All operations that were ever started, each under the number that `begin`
/// gave it.
pub struct Coordinator {
    pub operations: Vec<Operation>,
}

/// Whether an update at `now_ms` is stored, given the time of the last stored
/// update: at most one update per interval, and always one that completes a
/// transfer. A clock that has gone back counts as no time passed.
pub open spec fn admits(last_update_ms: u64, now_ms: u64, completes: bool) -> bool {
    now_ms - last_update_ms >= PUBLISH_INTERVAL_MS || completes
}

/// The operation `op` after an update at `now_ms` that offers the fraction
/// `offered`: an operation that is not running is left as it is, and so is a
/// running one whose update is not admitted.
pub open spec fn after_update(
    op: Operation,
    now_ms: u64,
    completes: bool,
    offered: TransferProgress,
) -> Operation {
    if op.running && admits(op.last_update_ms, now_ms, completes) {
        Operation { kind: op.kind, running: true, progress: offered, last_update_ms: now_ms }
    } else {
        op
    }
}

/// The operation `op` after it has ended: no longer running, with its
/// progress set to one on success and left where it was on failure.
pub open spec fn after_end(op: Operation, success: bool) -> Operation {
    Operation {
        kind: op.kind,
        running: false,
        progress: if success {
            TransferProgress { num: 1, den: 1 }
        } else {
            op.progress
        },
        last_update_ms: op.last_update_ms,
    }
}

impl Coordinator {
    /// Every stored fraction lies between zero and one.
    pub open spec fn wf(&self) -> bool {
        forall|i: int| 0 <= i < self.operations@.len() ==> (#[trigger] self.operations@[i]).progress.wf()
    }

    /// Some operation of the category `kind` is in flight.
    pub open spec fn busy(&self, kind: OperationKind) -> bool {
        exists|i: int|
            0 <= i < self.operations@.len() && (#[trigger] self.operations@[i]).kind == kind
                && self.operations@[i].running
    }

    /// A coordinator without operations.
    pub fn new() -> (c: Coordinator)
        ensures
            c.wf(),
            c.operations@.len() == 0,
    {
        Coordinator { operations: Vec::new() }
    }

    /// Starts an operation of the category `kind`: it is running, its progress
    /// is zero, and its number is returned. No other operation is touched.
    pub fn begin(&mut self, kind: OperationKind) -> (id: usize)
        requires
            old(self).wf(),
        ensures
            final(self).wf(),
            id == old(self).operations@.len(),
            final(self).operations@ == old(self).operations@.push(
                Operation {
                    kind,
                    running: true,
                    progress: TransferProgress { num: 0, den: 1 },
                    last_update_ms: 0,
                },
            ),
    {
        let id: usize = self.operations.len();
        self.operations.push(
            Operation {
                kind,
                running: true,
                progress: TransferProgress { num: 0, den: 1 },
                last_update_ms: 0,
            },
        );
        id
    }

    fn offer(&mut self, id: usize, now_ms: u64, completes: bool, offered: TransferProgress) -> (stored:
        bool)
        requires
            old(self).wf(),
            id < old(self).operations@.len(),
            offered.wf(),
        ensures
            final(self).wf(),
            final(self).operations@ == old(self).operations@.update(
                id as int,
                after_update(old(self).operations@[id as int], now_ms, completes, offered),
            ),
            stored == (old(self).operations@[id as int].running && admits(
                old(self).operations@[id as int].last_update_ms,
                now_ms,
                completes,
            )),
    {
        let op: Operation = self.operations[id];
        let elapsed_enough: bool = now_ms >= op.last_update_ms && now_ms - op.last_update_ms
            >= PUBLISH_INTERVAL_MS;
        if op.running && (elapsed_enough || completes) {
            self.operations.set(
                id,
                Operation {
                    kind: op.kind,
                    running: true,
                    progress: offered,
                    last_update_ms: now_ms,
                },
            );
            true
        } else {
            false
        }
    }

    /// Starts an operation of the category `kind` unless one is in flight
    /// already: check and start are one step, so that of two submissions of
    /// the same kind at most one is accepted. A refused submission changes
    /// nothing.
    pub fn claim(&mut self, kind: OperationKind) -> (id: Option<usize>)
        requires
            old(self).wf(),
        ensures
            final(self).wf(),
            old(self).busy(kind) ==> id is None && final(self).operations@ == old(self).operations@,
            !old(self).busy(kind) ==> id == Some(old(self).operations@.len() as usize)
                && final(self).operations@ == old(self).operations@.push(
                Operation {
                    kind,
                    running: true,
                    progress: TransferProgress { num: 0, den: 1 },
                    last_update_ms: 0,
                },
            ),
    {
        if self.is_busy(kind) {
            None
        } else {
            Some(self.begin(kind))
        }
    }

    /// Offers the fraction `p` of a transfer, observed at `now_ms`, for the
    /// operation `id` and says whether it was stored, in which case the
    /// interface is to be redrawn. No other operation is touched.
    pub fn publish(&mut self, id: usize, now_ms: u64, p: Progress) -> (stored: bool)
        requires
            old(self).wf(),
            id < old(self).operations@.len(),
            p.wf(),
        ensures
            final(self).wf(),
            final(self).operations@ == old(self).operations@.update(
                id as int,
                after_update(old(self).operations@[id as int], now_ms, p.num >= p.den, shown(p)),
            ),
            stored == (old(self).operations@[id as int].running && admits(
                old(self).operations@[id as int].last_update_ms,
                now_ms,
                p.num >= p.den,
            )),
    {
        self.offer(
            id,
            now_ms,
            p.num >= p.den,
            TransferProgress { num: p.num as u128, den: p.den as u128 },
        )
    }

    /// Offers the fraction `p` of file number `index`, counted from zero, of
    /// an operation that transfers `total` files one after another. What is
    /// stored is the progress over all files; whether it is stored goes by
    /// the time passed and by whether `p` completes its file. No other
    /// operation is touched.
    pub fn publish_file(&mut self, id: usize, now_ms: u64, index: u64, total: u64, p: Progress) -> (stored:
        bool)
        requires
            old(self).wf(),
            id < old(self).operations@.len(),
            index < total,
            p.wf(),
        ensures
            final(self).wf(),
            final(self).operations@ == old(self).operations@.update(
                id as int,
                after_update(
                    old(self).operations@[id as int],
                    now_ms,
                    p.num >= p.den,
                    overall(index, total, p),
                ),
            ),
            stored == (old(self).operations@[id as int].running && admits(
                old(self).operations@[id as int].last_update_ms,
                now_ms,
                p.num >= p.den,
            )),
    {
        let offered: TransferProgress = overall_progress(index, total, p);
        self.offer(id, now_ms, p.num >= p.den, offered)
    }

    /// Ends the operation `id`: its flag is cleared as the last action, and
    /// its progress is set to one if it succeeded. No other operation is
    /// touched.
    pub fn finish(&mut self, id: usize, success: bool)
        requires
            old(self).wf(),
            id < old(self).operations@.len(),
        ensures
            final(self).wf(),
            final(self).operations@ == old(self).operations@.update(
                id as int,
                after_end(old(self).operations@[id as int], success),
            ),
    {
        let op: Operation = self.operations[id];
        let progress: TransferProgress = if success {
            TransferProgress { num: 1, den: 1 }
        } else {
            op.progress
        };
        self.operations.set(
            id,
            Operation {
                kind: op.kind,
                running: false,
                progress,
                last_update_ms: op.last_update_ms,
            },
        );
    }

    /// Whether the operation `id` is in flight.
    pub fn is_running(&self, id: usize) -> (b: bool)
        requires
            id < self.operations@.len(),
        ensures
            b == self.operations@[id as int].running,
    {
        self.operations[id].running
    }

    /// The fraction last stored for the operation `id`.
    pub fn progress(&self, id: usize) -> (p: TransferProgress)
        requires
            id < self.operations@.len(),
        ensures
            p == self.operations@[id as int].progress,
    {
        self.operations[id].progress
    }

    /// Whether some operation of the category `kind` is in flight, so that a
    /// second submission of the same kind can be turned away.
    pub fn is_busy(&self, kind: OperationKind) -> (b: bool)
        ensures
            b == self.busy(kind),
    {
        let mut i: usize = 0;
        while i < self.operations.len()
            invariant
                i <= self.operations@.len(),
                forall|j: int|
                    0 <= j < i ==> !((#[trigger] self.operations@[j]).kind == kind
                        && self.operations@[j].running),
            decreases self.operations.len() - i,
        {
            if self.operations[i].kind == kind && self.operations[i].running {
                return true;
            }
            i = i + 1;
        }
        false
    }
}

/// Operations do not interfere: whatever is published for one operation, the
/// flag and the progress of every other operation stay as they were.
pub proof fn lemma_updates_are_independent(
    operations: Seq<Operation>,
    id: int,
    other: int,
    changed: Operation,
)
    requires
        0 <= id < operations.len(),
        0 <= other < operations.len(),
        other != id,
    ensures
        operations.update(id, changed)[other] == operations[other],
{
}

/// Once the flag of an operation is cleared, its progress is frozen: no later
/// update changes it.
pub proof fn lemma_ended_operation_is_frozen(
    op: Operation,
    success: bool,
    now_ms: u64,
    completes: bool,
    offered: TransferProgress,
)
    ensures
        after_update(after_end(op, success), now_ms, completes, offered) == after_end(op, success),
{
}

/// Progress over all of `total` files while file number `index`, counted from
/// zero, stands at `p`.
pub fn overall_progress(index: u64, total: u64, p: Progress) -> (o: TransferProgress)
    requires
        index < total,
        p.wf(),
    ensures
        o == overall(index, total, p),
        o.wf(),
        o.num as int == index as int * p.den as int + p.num as int,
        o.den as int == total as int * p.den as int,
{
    proof {
        lemma_product_fits(index, p.den);
        lemma_product_fits(total, p.den);
        assert(index as int * p.den as int + p.num as int <= total as int * p.den as int
            && 0 < total as int * p.den as int) by (nonlinear_arith)
            requires
                0 <= index < total,
                0 < p.den,
                0 <= p.num <= p.den,
        ;
    }
    let done: u128 = (index as u128) * (p.den as u128);
    let den: u128 = (total as u128) * (p.den as u128);
    TransferProgress { num: done + (p.num as u128), den }
}

/// What an operation that transfers several files one after another does
/// next.
#[derive(Clone, Copy, Debug, PartialEq, Eq, Structural)]
pub enum BatchStep {
    /// Transfer the file with this number, counted from zero.
    Transfer { index: u64 },
    /// End the operation, as a success or as a failure.
    Finish { success: bool },
}

/// The step with which an operation on `total` files begins: the first file,
/// or the end at once where there is none.
pub open spec fn step_at_start(total: u64) -> BatchStep {
    if total > 0 {
        BatchStep::Transfer { index: 0 }
    } else {
        BatchStep::Finish { success: true }
    }
}

/// The step that follows the transfer of file `index` of `total`: the first
/// failure ends the operation as a failure, the success of the last file ends
/// it as a success, and any other success leads to the next file.
pub open spec fn step_after(index: u64, total: u64, succeeded: bool) -> BatchStep {
    if !succeeded {
        BatchStep::Finish { success: false }
    } else if index + 1 < total {
        BatchStep::Transfer { index: (index + 1) as u64 }
    } else {
        BatchStep::Finish { success: true }
    }
}

/// The first step of an operation on `total` files.
pub fn first_file(total: u64) -> (step: BatchStep)
    ensures
        step == step_at_start(total),
{
    if total > 0 {
        BatchStep::Transfer { index: 0 }
    } else {
        BatchStep::Finish { success: true }
    }
}

/// Decides what follows the transfer of file `index` of `total`.
pub fn after_file(index: u64, total: u64, succeeded: bool) -> (step: BatchStep)
    ensures
        step == step_after(index, total, succeeded),
{
    if !succeeded {
        BatchStep::Finish { success: false }
    } else if index < total && total - index > 1 {
        BatchStep::Transfer { index: index + 1 }
    } else {
        BatchStep::Finish { success: true }
    }
}

} // verus!
