//! The repetition trigger: runs an inner trigger template a number of times
//! (or forever), emitting one parent generation per inner fire.
//!
//! The runtime loop — clone the template, start the child, await one message
//! — lives with the application; the decisions it takes each round are the
//! verified `CounterRun` machine below: whether another round is owed, what
//! the parent emits, and how an abort reaches the active child.

use vstd::prelude::*;

use crate::scheduler::trigger::GenerationOp;
use crate::scheduler::trigger::Trigger;
use crate::scheduler::trigger::apply_generation_ops;
use crate::scheduler::trigger::count_fires;
use crate::scheduler::trigger::lemma_generation_accounting;
use crate::scheduler::trigger::sum_forwards;

verus! {

/// A repetition specifier: a finite number of rounds, or forever.
#[derive(Clone, Copy, Debug, PartialEq, Eq, Structural)]
pub enum Counter {
    Finit(u64),
    Infinite,
}

impl Counter {
    /// Whether no further round is owed.
    pub open spec fn exhausted(self) -> bool {
        self == Counter::Finit(0u64)
    }
}

/// The specifier after one completed round.
pub open spec fn counter_dec(c: Counter) -> Counter {
    match c {
        Counter::Finit(n) => Counter::Finit((n - 1) as u64),
        Counter::Infinite => Counter::Infinite,
    }
}

/// The specifier after `k` completed rounds.
pub open spec fn counter_after_fires(c: Counter, k: nat) -> Counter
    decreases k,
{
    if k == 0 {
        c
    } else {
        counter_after_fires(counter_dec(c), (k - 1) as nat)
    }
}

/// A repetition wrapper: a specifier and an inner trigger template, cloned
/// afresh for every round.
pub struct CounterTrigger {
    pub counter: Counter,
    pub template: Box<Trigger>,
}

impl CounterTrigger {
    /// A repetition wrapper around an unstarted inner trigger template.
    pub fn new(counter: Counter, template: Trigger) -> (r: CounterTrigger)
        ensures
            r.counter == counter,
            *r.template == template,
    {
        CounterTrigger { counter, template: Box::new(template) }
    }
}

/// The live state of one repetition run: the rounds still owed and the
/// currently active child envelope, held for abort propagation.
pub struct CounterRun {
    pub remaining: Counter,
    pub active_child: Option<Trigger>,
}

impl CounterRun {
    /// Begin a run of the given specifier; no child is active yet.
    pub fn begin(counter: Counter) -> (r: CounterRun)
        ensures
            r.remaining == counter,
            r.active_child is None,
    {
        CounterRun { remaining: counter, active_child: None }
    }

    /// Whether another round is owed; false exactly when exhausted.
    pub fn should_continue(&self) -> (r: bool)
        ensures
            r == !self.remaining.exhausted(),
    {
        match self.remaining {
            Counter::Finit(n) => n > 0,
            Counter::Infinite => true,
        }
    }

    /// Put a freshly started child into the active slot, replacing any
    /// previous one; the replaced child is returned to its caller.
    pub fn install_child(&mut self, child: Trigger) -> (prev: Option<Trigger>)
        ensures
            final(self).remaining == old(self).remaining,
            final(self).active_child == Some(child),
            prev == old(self).active_child,
    {
        let prev = self.active_child.take();
        self.active_child = Some(child);
        prev
    }

    /// The active child fired: emit the parent's current generation, advance
    /// the parent's counter by one, and count the round as done.
    pub fn child_fired(&mut self, parent: &mut Trigger) -> (emitted: u64)
        requires
            !old(self).remaining.exhausted(),
            old(parent).generation < u64::MAX,
        ensures
            emitted == old(parent).generation,
            *final(parent) == old(parent).with_generation((old(parent).generation + 1) as u64),
            final(self).remaining == counter_dec(old(self).remaining),
            final(self).active_child == old(self).active_child,
    {
        self.remaining = match self.remaining {
            Counter::Finit(n) => Counter::Finit(n - 1),
            Counter::Infinite => Counter::Infinite,
        };
        parent.fire_generation()
    }

    /// The active child closed without firing: the run ends here.
    pub fn child_closed(&mut self)
        ensures
            final(self).remaining.exhausted(),
            final(self).active_child == old(self).active_child,
    {
        self.remaining = Counter::Finit(0);
    }

    /// Abort the run: mark the parent aborted, take the active child out of
    /// its slot and mark it aborted too, handing it back so the runtime can
    /// cancel its task.
    pub fn abort(&mut self, parent: &mut Trigger) -> (child: Option<Trigger>)
        ensures
            *final(parent) == old(parent).with_aborted(),
            final(self).active_child is None,
            final(self).remaining == old(self).remaining,
            match old(self).active_child {
                Some(c) => child == Some(c.with_aborted()),
                None => child is None,
            },
    {
        parent.abort();
        match self.active_child.take() {
            Some(mut c) => {
                c.abort();
                Some(c)
            },
            None => None,
        }
    }
}

/// The generations a run that starts at `g0` emits over `k` rounds:
/// `g0, g0 + 1, …, g0 + k − 1`.
pub open spec fn emitted_generations(g0: int, k: nat) -> Seq<int> {
    Seq::new(k, |i: int| g0 + i)
}

/// The emission sequence of a finite run driven to completion: what repeated
/// `child_fired` rounds emit, one generation per round, until exhausted.
pub open spec fn finite_run_emissions(n: nat, g0: int) -> Seq<int>
    decreases n,
{
    if n == 0 {
        Seq::empty()
    } else {
        seq![g0] + finite_run_emissions((n - 1) as nat, g0 + 1)
    }
}

/// A finite counter of `n` rounds emits exactly the `n` generations
/// `g0, g0 + 1, …, g0 + n − 1`.
pub proof fn lemma_finite_counter_emissions(n: nat, g0: int)
    ensures
        finite_run_emissions(n, g0).len() == n,
        finite_run_emissions(n, g0) =~= emitted_generations(g0, n),
    decreases n,
{
    if n > 0 {
        lemma_finite_counter_emissions((n - 1) as nat, g0 + 1);
    }
}

/// A finite counter of `n` rounds allows exactly `n` fires: it is not
/// exhausted before the `n`-th round and is exhausted after it, whereupon
/// the run ends and the output channel closes.
pub proof fn lemma_finite_counter_exhausts(n: u64, k: u64)
    requires
        k <= n,
    ensures
        counter_after_fires(Counter::Finit(n), k as nat) == Counter::Finit((n - k) as u64),
        k < n ==> !counter_after_fires(Counter::Finit(n), k as nat).exhausted(),
        k == n ==> counter_after_fires(Counter::Finit(n), k as nat).exhausted(),
    decreases k,
{
    if k > 0 {
        assert(counter_dec(Counter::Finit(n)) == Counter::Finit((n - 1) as u64));
        lemma_finite_counter_exhausts((n - 1) as u64, (k - 1) as u64);
        assert(counter_after_fires(Counter::Finit(n), k as nat) == counter_after_fires(
            Counter::Finit((n - 1) as u64),
            (k - 1) as nat,
        ));
    }
}

/// An infinite counter is never exhausted, and after any finite prefix of
/// `k` fires the generation counter reads at least `k`.
pub proof fn lemma_infinite_counter_generation(g0: int, k: nat)
    requires
        g0 >= 0,
    ensures
        counter_after_fires(Counter::Infinite, k) == Counter::Infinite,
        apply_generation_ops(g0, Seq::new(k, |i: int| GenerationOp::Fire)) == g0 + k,
        apply_generation_ops(g0, Seq::new(k, |i: int| GenerationOp::Fire)) >= k,
    decreases k,
{
    let ops = Seq::new(k, |i: int| GenerationOp::Fire);
    lemma_generation_accounting(g0, ops);
    lemma_fire_seq_counts(k);
    if k > 0 {
        lemma_infinite_counter_generation(g0, (k - 1) as nat);
    }
}

/// A sequence of `k` fires sums to no forwards and `k` fires.
proof fn lemma_fire_seq_counts(k: nat)
    ensures
        sum_forwards(Seq::new(k, |i: int| GenerationOp::Fire)) == 0,
        count_fires(Seq::new(k, |i: int| GenerationOp::Fire)) == k,
    decreases k,
{
    let ops = Seq::new(k, |i: int| GenerationOp::Fire);
    if k > 0 {
        lemma_fire_seq_counts((k - 1) as nat);
        assert(ops.drop_first() =~= Seq::new((k - 1) as nat, |i: int| GenerationOp::Fire));
    }
}

} // verus!
