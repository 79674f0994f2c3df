//! Saving and restoring what is current on the calling thread.
//!
//! A guard records the state it found when it was made and names it again
//! when it is released; the caller hands that state back to the driver on
//! every path out of the guarded region.

use vstd::prelude::*;
use crate::device::Device;

verus! {

/// The drawable and the context that are current on a thread; both are null
/// while nothing is current.
#[derive(Clone, Copy, Debug, PartialEq, Eq, Structural)]
pub struct CurrentContextSnapshot {
    pub dc: usize,
    pub glrc: usize,
}

/// Remembers the pair that was current when the guard was made.
#[must_use]
#[derive(Debug, PartialEq, Eq)]
pub struct CurrentContextGuard {
    pub old_dc: usize,
    pub old_glrc: usize,
}

impl CurrentContextGuard {
    /// The guard made while `current` is current.
    pub open spec fn new_spec(current: CurrentContextSnapshot) -> CurrentContextGuard {
        CurrentContextGuard { old_dc: current.dc, old_glrc: current.glrc }
    }

    /// The pair that the guard makes current again.
    pub open spec fn restores(self) -> CurrentContextSnapshot {
        CurrentContextSnapshot { dc: self.old_dc, glrc: self.old_glrc }
    }

    /// Captures the pair that is current on the calling thread.
    pub fn new(current: CurrentContextSnapshot) -> (guard: CurrentContextGuard)
        ensures
            guard == CurrentContextGuard::new_spec(current),
            guard.restores() == current,
    {
        CurrentContextGuard { old_dc: current.dc, old_glrc: current.glrc }
    }

    /// Ends the guard and names the pair to make current. The caller does
    /// not act on a failure of that call.
    pub fn release(self) -> (restored: CurrentContextSnapshot)
        ensures
            restored == self.restores(),
    {
        CurrentContextSnapshot { dc: self.old_dc, glrc: self.old_glrc }
    }
}

/// The framebuffer objects that are bound for drawing and for reading; zero
/// stands for the default framebuffer.
#[derive(Clone, Copy, Debug, PartialEq, Eq, Structural)]
pub struct FramebufferBinding {
    pub draw: u32,
    pub read: u32,
}

/// Remembers the framebuffer objects that were bound when the guard was
/// made.
#[must_use]
#[derive(Debug, PartialEq, Eq)]
pub struct FramebufferGuard {
    pub old_draw: u32,
    pub old_read: u32,
}

/// A framebuffer object bound for a while.
#[derive(Debug, PartialEq, Eq)]
pub struct TemporaryBinding {
    /// Restores what was bound before.
    pub guard: FramebufferGuard,
    /// What to bind in the meantime.
    pub binding: FramebufferBinding,
}

impl FramebufferGuard {
    /// The binding that the guard puts back.
    pub open spec fn restores(self) -> FramebufferBinding {
        FramebufferBinding { draw: self.old_draw, read: self.old_read }
    }

    /// Ends the guard and names the binding to put back.
    pub fn release(self) -> (restored: FramebufferBinding)
        ensures
            restored == self.restores(),
    {
        FramebufferBinding { draw: self.old_draw, read: self.old_read }
    }
}

impl Device {
    /// Prepares to bind `framebuffer` for drawing and for reading for a
    /// while: the guard remembers `bound`, the binding that is in force
    /// now.
    pub fn temporarily_bind_framebuffer(&self, framebuffer: u32, bound: FramebufferBinding) -> (temporary:
        TemporaryBinding)
        ensures
            temporary.guard.restores() == bound,
            temporary.binding == (FramebufferBinding { draw: framebuffer, read: framebuffer }),
    {
        TemporaryBinding {
            guard: FramebufferGuard { old_draw: bound.draw, old_read: bound.read },
            binding: FramebufferBinding { draw: framebuffer, read: framebuffer },
        }
    }
}

/// What can happen on one thread between two observations of its current
/// pair.
pub enum GuardOp {
    /// A guard is made.
    Acquire,
    /// The driver makes another pair current.
    Activate(CurrentContextSnapshot),
    /// The innermost live guard is released and the driver makes its pair
    /// current.
    Release,
}

/// The current pair of a thread and its live guards, innermost last.
pub struct ThreadState {
    pub current: CurrentContextSnapshot,
    pub guards: Seq<CurrentContextGuard>,
}

impl ThreadState {
    /// The thread after one operation. A release without a live guard
    /// changes nothing.
    pub open spec fn step(self, op: GuardOp) -> ThreadState {
        match op {
            GuardOp::Acquire => ThreadState {
                guards: self.guards.push(CurrentContextGuard::new_spec(self.current)),
                ..self
            },
            GuardOp::Activate(pair) => ThreadState { current: pair, ..self },
            GuardOp::Release => if self.guards.len() > 0 {
                ThreadState {
                    current: self.guards.last().restores(),
                    guards: self.guards.drop_last(),
                }
            } else {
                self
            },
        }
    }

    /// The thread after a sequence of operations.
    pub open spec fn run(self, ops: Seq<GuardOp>) -> ThreadState
        decreases ops.len(),
    {
        if ops.len() == 0 {
            self
        } else {
            self.run(ops.drop_last()).step(ops.last())
        }
    }
}

/// How many more guards were made than released.
pub open spec fn depth(ops: Seq<GuardOp>) -> int
    decreases ops.len(),
{
    if ops.len() == 0 {
        0
    } else {
        depth(ops.drop_last()) + match ops.last() {
            GuardOp::Acquire => 1int,
            GuardOp::Activate(_) => 0int,
            GuardOp::Release => -1int,
        }
    }
}

/// The operations release only guards that they made themselves.
pub open spec fn nested(ops: Seq<GuardOp>) -> bool {
    forall|n: int| 0 <= n <= ops.len() ==> depth(#[trigger] ops.take(n)) >= 0
}

/// The operations release exactly the guards that they made.
pub open spec fn balanced(ops: Seq<GuardOp>) -> bool {
    nested(ops) && depth(ops) == 0
}

/// A guarded region: a guard is made, `body` runs, the guard is released.
pub open spec fn guarded(body: Seq<GuardOp>) -> Seq<GuardOp> {
    seq![GuardOp::Acquire] + body + seq![GuardOp::Release]
}

/// Operations that release only their own guards leave the guards that were
/// live before untouched, below the ones they still hold.
pub proof fn lemma_nested_keeps_outer_guards(state: ThreadState, ops: Seq<GuardOp>)
    requires
        nested(ops),
    ensures
        state.run(ops).guards.len() == state.guards.len() + depth(ops),
        state.run(ops).guards.take(state.guards.len() as int) == state.guards,
    decreases ops.len(),
{
    if ops.len() == 0 {
        assert(state.guards.take(state.guards.len() as int) =~= state.guards);
    } else {
        let before = ops.drop_last();
        assert forall|n: int| 0 <= n <= before.len() implies depth(#[trigger] before.take(n))
            >= 0 by {
            assert(before.take(n) =~= ops.take(n));
        }
        lemma_nested_keeps_outer_guards(state, before);
        assert(ops.take(ops.len() as int) =~= ops);
        let mid = state.run(before);
        let outer = state.guards.len() as int;
        match ops.last() {
            GuardOp::Acquire => {
                assert(mid.step(ops.last()).guards.take(outer) =~= mid.guards.take(outer));
            },
            GuardOp::Activate(_) => {},
            GuardOp::Release => {
                assert(depth(before) >= 1);
                assert(mid.step(ops.last()).guards.take(outer) =~= mid.guards.take(outer));
            },
        }
    }
}

/// Guard symmetry: whatever a guarded region does inside, further guarded
/// regions and activations included, the pair that is current after the
/// release of the outermost guard is the pair that was current before that
/// guard was made, and the guards that were live before are live still.
pub proof fn lemma_guard_symmetry(state: ThreadState, body: Seq<GuardOp>)
    requires
        balanced(body),
    ensures
        state.run(guarded(body)).current == state.current,
        state.run(guarded(body)).guards == state.guards,
        balanced(guarded(body)),
{
    let entered = state.step(GuardOp::Acquire);
    let ops = guarded(body);
    lemma_run_concat(state, seq![GuardOp::Acquire], body);
    lemma_run_concat(state, seq![GuardOp::Acquire] + body, seq![GuardOp::Release]);
    lemma_run_one(state, GuardOp::Acquire);
    lemma_nested_keeps_outer_guards(entered, body);
    let inside = entered.run(body);
    assert(inside.guards.take(entered.guards.len() as int) =~= inside.guards);
    lemma_run_one(inside, GuardOp::Release);
    assert(entered.guards.drop_last() =~= state.guards);
    lemma_guarded_is_balanced(body);
}

/// Running one operation is one step.
proof fn lemma_run_one(state: ThreadState, op: GuardOp)
    ensures
        state.run(seq![op]) == state.step(op),
{
    let ops = seq![op];
    assert(ops.drop_last() =~= Seq::<GuardOp>::empty());
    assert(state.run(ops.drop_last()) == state);
}

/// Running two sequences in a row is running their concatenation.
proof fn lemma_run_concat(state: ThreadState, first: Seq<GuardOp>, second: Seq<GuardOp>)
    ensures
        state.run(first + second) == state.run(first).run(second),
    decreases second.len(),
{
    if second.len() == 0 {
        assert(first + second =~= first);
    } else {
        lemma_run_concat(state, first, second.drop_last());
        assert((first + second).drop_last() =~= first + second.drop_last());
        assert((first + second).last() == second.last());
    }
}

/// The depth of a concatenation is the sum of the depths.
proof fn lemma_depth_concat(first: Seq<GuardOp>, second: Seq<GuardOp>)
    ensures
        depth(first + second) == depth(first) + depth(second),
    decreases second.len(),
{
    if second.len() == 0 {
        assert(first + second =~= first);
    } else {
        lemma_depth_concat(first, second.drop_last());
        assert((first + second).drop_last() =~= first + second.drop_last());
        assert((first + second).last() == second.last());
    }
}

/// A guarded region around balanced operations is balanced itself.
proof fn lemma_guarded_is_balanced(body: Seq<GuardOp>)
    requires
        balanced(body),
    ensures
        balanced(guarded(body)),
{
    let acquire = seq![GuardOp::Acquire];
    let release = seq![GuardOp::Release];
    let ops = guarded(body);
    assert(depth(Seq::<GuardOp>::empty()) == 0);
    assert(acquire.drop_last() =~= Seq::<GuardOp>::empty());
    assert(release.drop_last() =~= Seq::<GuardOp>::empty());
    assert(depth(acquire) == 1);
    assert(depth(release) == -1);
    lemma_depth_concat(acquire, body);
    lemma_depth_concat(acquire + body, release);
    assert forall|n: int| 0 <= n <= ops.len() implies depth(#[trigger] ops.take(n)) >= 0 by {
        if n == 0 {
            assert(ops.take(0) =~= Seq::<GuardOp>::empty());
        } else if n <= body.len() + 1 {
            assert(ops.take(n) =~= acquire + body.take(n - 1));
            lemma_depth_concat(acquire, body.take(n - 1));
        } else {
            assert(ops.take(n) =~= ops);
        }
    }
}

} // verus!
