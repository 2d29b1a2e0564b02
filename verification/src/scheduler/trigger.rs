//! The trigger envelope: a tagged union over the trigger variants, owning the
//! shared generation counter and the lifecycle flags.
//!
//! The runtime pairs an envelope with a bounded channel and a producer task;
//! the envelope itself records everything those tasks decide by: the variant,
//! the generation counter, whether the single receiver end was handed out,
//! and whether the trigger was started or aborted. The generation counter
//! never decreases: every operation below states so.

use vstd::prelude::*;

use crate::scheduler::counter::CounterTrigger;
use crate::scheduler::datetime::DatetimeTrigger;

verus! {

/// The closed set of trigger variants.
pub enum TriggerKind {
    Datetime(DatetimeTrigger),
    Counter(CounterTrigger),
}

/// The claim on an envelope's single receiver end; handed out once.
pub struct ReceiverToken {
}

/// A trigger envelope: variant, shared generation counter, lifecycle flags.
pub struct Trigger {
    pub kind: TriggerKind,
    pub generation: u64,
    pub receiver_taken: bool,
    pub started: bool,
    pub aborted: bool,
}

/// One observable operation on a generation counter.
pub enum GenerationOp {
    Forward(u64),
    Fire,
}

/// The counter after one operation.
pub open spec fn apply_generation_op(g: int, op: GenerationOp) -> int {
    match op {
        GenerationOp::Forward(n) => g + n,
        GenerationOp::Fire => g + 1,
    }
}

/// The counter after a sequence of operations.
pub open spec fn apply_generation_ops(g: int, ops: Seq<GenerationOp>) -> int
    decreases ops.len(),
{
    if ops.len() == 0 {
        g
    } else {
        apply_generation_ops(apply_generation_op(g, ops[0]), ops.drop_first())
    }
}

/// The sum of all forward offsets in a sequence of operations.
pub open spec fn sum_forwards(ops: Seq<GenerationOp>) -> int
    decreases ops.len(),
{
    if ops.len() == 0 {
        0
    } else {
        (match ops[0] {
            GenerationOp::Forward(n) => n as int,
            GenerationOp::Fire => 0,
        }) + sum_forwards(ops.drop_first())
    }
}

/// The number of fires in a sequence of operations.
pub open spec fn count_fires(ops: Seq<GenerationOp>) -> int
    decreases ops.len(),
{
    if ops.len() == 0 {
        0
    } else {
        (match ops[0] {
            GenerationOp::Fire => 1int,
            GenerationOp::Forward(_) => 0int,
        }) + count_fires(ops.drop_first())
    }
}

/// Applying operations composes over concatenation.
pub proof fn lemma_apply_ops_append(g: int, a: Seq<GenerationOp>, b: Seq<GenerationOp>)
    ensures
        apply_generation_ops(g, a + b) == apply_generation_ops(apply_generation_ops(g, a), b),
    decreases a.len(),
{
    if a.len() == 0 {
        assert(a + b =~= b);
    } else {
        assert((a + b).drop_first() =~= a.drop_first() + b);
        lemma_apply_ops_append(apply_generation_op(g, a[0]), a.drop_first(), b);
    }
}

/// The generation counter never decreases under any sequence of forwards and
/// fires.
pub proof fn lemma_generation_never_decreases(g: int, ops: Seq<GenerationOp>)
    ensures
        apply_generation_ops(g, ops) >= g,
    decreases ops.len(),
{
    if ops.len() > 0 {
        lemma_generation_never_decreases(apply_generation_op(g, ops[0]), ops.drop_first());
    }
}

/// An observer that reads the counter at successive points of one operation
/// sequence sees a non-decreasing sequence of values.
pub proof fn lemma_generation_monotone(g: int, ops: Seq<GenerationOp>, k1: int, k2: int)
    requires
        0 <= k1 <= k2 <= ops.len(),
    ensures
        apply_generation_ops(g, ops.take(k1)) <= apply_generation_ops(g, ops.take(k2)),
{
    assert(ops.take(k2) =~= ops.take(k1) + ops.take(k2).skip(k1));
    lemma_apply_ops_append(g, ops.take(k1), ops.take(k2).skip(k1));
    lemma_generation_never_decreases(
        apply_generation_ops(g, ops.take(k1)),
        ops.take(k2).skip(k1),
    );
}

/// Exact generation accounting: after any interleaving of forwards and fires,
/// the final count is the initial count, plus the sum of all forward offsets,
/// plus the number of fires.
pub proof fn lemma_generation_accounting(g: int, ops: Seq<GenerationOp>)
    ensures
        apply_generation_ops(g, ops) == g + sum_forwards(ops) + count_fires(ops),
    decreases ops.len(),
{
    if ops.len() > 0 {
        lemma_generation_accounting(apply_generation_op(g, ops[0]), ops.drop_first());
    }
}

impl Trigger {
    /// This envelope with another generation count, all else equal.
    pub open spec fn with_generation(self, g: u64) -> Trigger {
        Trigger {
            kind: self.kind,
            generation: g,
            receiver_taken: self.receiver_taken,
            started: self.started,
            aborted: self.aborted,
        }
    }

    /// This envelope with the abort flag set, all else equal.
    pub open spec fn with_aborted(self) -> Trigger {
        Trigger {
            kind: self.kind,
            generation: self.generation,
            receiver_taken: self.receiver_taken,
            started: self.started,
            aborted: true,
        }
    }

    /// A detached envelope around a variant: zero generation, receiver still
    /// held, not started, not aborted.
    pub open spec fn fresh_with_kind(kind: TriggerKind) -> Trigger {
        Trigger { kind, generation: 0, receiver_taken: false, started: false, aborted: false }
    }

    /// Whether `r` is a fresh deep copy of `t`: same variant and parameters
    /// down to every nested template, with a zero counter and cleared flags.
    pub open spec fn is_fresh_copy_of(r: Trigger, t: Trigger) -> bool
        decreases t,
    {
        &&& r.generation == 0
        &&& !r.receiver_taken
        &&& !r.started
        &&& !r.aborted
        &&& match (r.kind, t.kind) {
            (TriggerKind::Datetime(a), TriggerKind::Datetime(b)) => a == b,
            (TriggerKind::Counter(a), TriggerKind::Counter(b)) => {
                &&& a.counter == b.counter
                &&& Self::is_fresh_copy_of(*a.template, *b.template)
            },
            _ => false,
        }
    }

    /// Hand out the receiver end; `Some` exactly on the first call.
    pub fn receiver(&mut self) -> (r: Option<ReceiverToken>)
        ensures
            r is Some <==> !old(self).receiver_taken,
            final(self).receiver_taken,
            final(self).kind == old(self).kind,
            final(self).generation == old(self).generation,
            final(self).started == old(self).started,
            final(self).aborted == old(self).aborted,
    {
        if self.receiver_taken {
            None
        } else {
            self.receiver_taken = true;
            Some(ReceiverToken {  })
        }
    }

    /// Read the shared generation counter.
    pub fn generation(&self) -> (r: u64)
        ensures
            r == self.generation,
    {
        self.generation
    }

    /// Add `offset` to the shared counter; used to offset child triggers or
    /// to skip over completed runs. The counter never decreases.
    pub fn forward_generation(&mut self, offset: u64)
        requires
            old(self).generation + offset <= u64::MAX,
        ensures
            *final(self) == old(self).with_generation((old(self).generation + offset) as u64),
            final(self).generation as int == apply_generation_op(
                old(self).generation as int,
                GenerationOp::Forward(offset),
            ),
            final(self).generation >= old(self).generation,
    {
        self.generation = self.generation + offset;
    }

    /// Emit one fire: return the current generation and advance the counter
    /// by one. The counter never decreases.
    pub fn fire_generation(&mut self) -> (r: u64)
        requires
            old(self).generation < u64::MAX,
        ensures
            r == old(self).generation,
            *final(self) == old(self).with_generation((old(self).generation + 1) as u64),
            final(self).generation as int == apply_generation_op(
                old(self).generation as int,
                GenerationOp::Fire,
            ),
            final(self).generation >= old(self).generation,
    {
        let g = self.generation;
        self.generation = g + 1;
        g
    }

    /// Arm the envelope; starting twice is a no-op.
    pub fn start(&mut self)
        ensures
            final(self).started,
            final(self).kind == old(self).kind,
            final(self).generation == old(self).generation,
            final(self).receiver_taken == old(self).receiver_taken,
            final(self).aborted == old(self).aborted,
    {
        self.started = true;
    }

    /// Mark the envelope aborted; the runtime cancels its producer task.
    pub fn abort(&mut self)
        ensures
            *final(self) == old(self).with_aborted(),
    {
        self.aborted = true;
    }

    /// A fresh deep copy: the same variant and parameters, a zero generation
    /// counter, the receiver end held again, no task running. This is how a
    /// repetition trigger manufactures its children.
    pub fn fresh_copy(&self) -> (r: Trigger)
        ensures
            Self::is_fresh_copy_of(r, *self),
        decreases *self,
    {
        let kind = match &self.kind {
            TriggerKind::Datetime(d) => TriggerKind::Datetime(*d),
            TriggerKind::Counter(c) => {
                let inner = c.template.fresh_copy();
                TriggerKind::Counter(CounterTrigger { counter: c.counter, template: Box::new(inner) })
            },
        };
        Trigger { kind, generation: 0, receiver_taken: false, started: false, aborted: false }
    }
}

impl From<DatetimeTrigger> for Trigger {
    /// A detached envelope around a one-shot datetime trigger.
    fn from(t: DatetimeTrigger) -> (r: Trigger) {
        Trigger {
            kind: TriggerKind::Datetime(t),
            generation: 0,
            receiver_taken: false,
            started: false,
            aborted: false,
        }
    }
}

impl vstd::std_specs::convert::FromSpecImpl<DatetimeTrigger> for Trigger {
    open spec fn obeys_from_spec() -> bool {
        true
    }

    open spec fn from_spec(t: DatetimeTrigger) -> Trigger {
        Trigger::fresh_with_kind(TriggerKind::Datetime(t))
    }
}

impl From<CounterTrigger> for Trigger {
    /// A detached envelope around a repetition trigger.
    fn from(t: CounterTrigger) -> (r: Trigger) {
        Trigger {
            kind: TriggerKind::Counter(t),
            generation: 0,
            receiver_taken: false,
            started: false,
            aborted: false,
        }
    }
}

impl vstd::std_specs::convert::FromSpecImpl<CounterTrigger> for Trigger {
    open spec fn obeys_from_spec() -> bool {
        true
    }

    open spec fn from_spec(t: CounterTrigger) -> Trigger {
        Trigger::fresh_with_kind(TriggerKind::Counter(t))
    }
}

} // verus!
