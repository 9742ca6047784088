//! A context holding one `i32`, and commands that move and scale it with
//! saturating arithmetic.
use vstd::prelude::*;

use crate::{Command, Commander};

verus! {

/// `v` clamped to the range of `i32`.
pub open spec fn clamp(v: int) -> i32 {
    if v > i32::MAX {
        i32::MAX
    } else if v < i32::MIN {
        i32::MIN
    } else {
        v as i32
    }
}

/// Narrows `v` to `i32`, saturating at either end.
fn saturate(v: i64) -> (r: i32)
    ensures
        r == clamp(v as int),
{
    if v > i32::MAX as i64 {
        i32::MAX
    } else if v < i32::MIN as i64 {
        i32::MIN
    } else {
        v as i32
    }
}

/// A context holding a single value.
#[derive(Clone, Copy, Debug, PartialEq, Eq, Structural)]
pub struct State(pub i32);

impl State {
    /// The value held.
    pub fn value(&self) -> (r: i32)
        ensures
            r == self.0,
    {
        self.0
    }
}

impl Default for State {
    /// A state holding zero.
    fn default() -> (r: Self)
        ensures
            r.0 == 0,
    {
        State(0)
    }
}

impl<C: Command<State>> Commander<State, C> for State {
    open spec fn context(&self) -> State {
        *self
    }

    fn execute(&mut self, cmd: C)
        ensures
            *final(self) == cmd.executed(*old(self)).1,
    {
        let mut cmd = cmd;
        cmd.execute(self);
    }
}

/// Adds an amount to the value, saturating, and keeps the value it
/// replaced so that `undo` can put it back.
#[derive(Clone, Copy, Debug, PartialEq, Eq, Structural)]
pub struct Translate(pub i32, pub Option<i32>);

impl From<i32> for Translate {
    /// A move by `amount` that has not run yet.
    fn from(amount: i32) -> (r: Self)
        ensures
            r == Translate(amount, None),
    {
        Translate(amount, None)
    }
}

impl vstd::std_specs::convert::FromSpecImpl<i32> for Translate {
    open spec fn obeys_from_spec() -> bool {
        true
    }

    open spec fn from_spec(amount: i32) -> Translate {
        Translate(amount, None)
    }
}

impl Command<State> for Translate {
    open spec fn executed(&self, ctx: State) -> (Self, State) {
        (Translate(self.0, Some(ctx.0)), State(clamp(ctx.0 + self.0)))
    }

    /// Puts back the saved value and forgets it; with none saved, nothing
    /// changes.
    open spec fn undone(&self, ctx: State) -> (Self, State) {
        match self.1 {
            Some(prev) => (Translate(self.0, None), State(prev)),
            None => (*self, ctx),
        }
    }

    proof fn lemma_round_trip(&self, ctx: State) {
    }

    fn execute(&mut self, ctx: &mut State) {
        self.1 = Some(ctx.0);
        ctx.0 = saturate(ctx.0 as i64 + self.0 as i64);
    }

    fn undo(&mut self, ctx: &mut State) {
        if let Some(prev) = self.1.take() {
            ctx.0 = prev;
        }
    }
}

/// Multiplies the value by a factor, saturating, and keeps the value it
/// replaced so that `undo` can put it back.
#[derive(Clone, Copy, Debug, PartialEq, Eq, Structural)]
pub struct Scale(pub i32, pub Option<i32>);

impl From<i32> for Scale {
    /// A scale by `factor` that has not run yet.
    fn from(factor: i32) -> (r: Self)
        ensures
            r == Scale(factor, None),
    {
        Scale(factor, None)
    }
}

impl vstd::std_specs::convert::FromSpecImpl<i32> for Scale {
    open spec fn obeys_from_spec() -> bool {
        true
    }

    open spec fn from_spec(factor: i32) -> Scale {
        Scale(factor, None)
    }
}

impl Command<State> for Scale {
    open spec fn executed(&self, ctx: State) -> (Self, State) {
        (Scale(self.0, Some(ctx.0)), State(clamp(ctx.0 * self.0)))
    }

    /// Puts back the saved value and forgets it; with none saved, nothing
    /// changes.
    open spec fn undone(&self, ctx: State) -> (Self, State) {
        match self.1 {
            Some(prev) => (Scale(self.0, None), State(prev)),
            None => (*self, ctx),
        }
    }

    proof fn lemma_round_trip(&self, ctx: State) {
    }

    fn execute(&mut self, ctx: &mut State) {
        proof {
            let (a, b) = (ctx.0 as int, self.0 as int);
            assert(-0x4000_0000_0000_0000 <= a * b <= 0x4000_0000_0000_0000) by (nonlinear_arith)
                requires
                    i32::MIN <= a <= i32::MAX,
                    i32::MIN <= b <= i32::MAX,
            ;
        }
        self.1 = Some(ctx.0);
        ctx.0 = saturate(ctx.0 as i64 * self.0 as i64);
    }

    fn undo(&mut self, ctx: &mut State) {
        if let Some(prev) = self.1.take() {
            ctx.0 = prev;
        }
    }
}

/// One of the commands on `State`, so that commands of both kinds can be
/// recorded in one history.
#[derive(Clone, Copy, Debug, PartialEq, Eq, Structural)]
pub enum Step {
    Translate(Translate),
    Scale(Scale),
}

impl From<Translate> for Step {
    fn from(t: Translate) -> (r: Self)
        ensures
            r == Step::Translate(t),
    {
        Step::Translate(t)
    }
}

impl vstd::std_specs::convert::FromSpecImpl<Translate> for Step {
    open spec fn obeys_from_spec() -> bool {
        true
    }

    open spec fn from_spec(t: Translate) -> Step {
        Step::Translate(t)
    }
}

impl From<Scale> for Step {
    fn from(s: Scale) -> (r: Self)
        ensures
            r == Step::Scale(s),
    {
        Step::Scale(s)
    }
}

impl vstd::std_specs::convert::FromSpecImpl<Scale> for Step {
    open spec fn obeys_from_spec() -> bool {
        true
    }

    open spec fn from_spec(s: Scale) -> Step {
        Step::Scale(s)
    }
}

impl Command<State> for Step {
    open spec fn executed(&self, ctx: State) -> (Self, State) {
        match *self {
            Step::Translate(t) => (Step::Translate(t.executed(ctx).0), t.executed(ctx).1),
            Step::Scale(s) => (Step::Scale(s.executed(ctx).0), s.executed(ctx).1),
        }
    }

    open spec fn undone(&self, ctx: State) -> (Self, State) {
        match *self {
            Step::Translate(t) => (Step::Translate(t.undone(ctx).0), t.undone(ctx).1),
            Step::Scale(s) => (Step::Scale(s.undone(ctx).0), s.undone(ctx).1),
        }
    }

    proof fn lemma_round_trip(&self, ctx: State) {
        match *self {
            Step::Translate(t) => t.lemma_round_trip(ctx),
            Step::Scale(s) => s.lemma_round_trip(ctx),
        }
    }

    fn execute(&mut self, ctx: &mut State) {
        match self {
            Step::Translate(t) => t.execute(ctx),
            Step::Scale(s) => s.execute(ctx),
        }
    }

    fn undo(&mut self, ctx: &mut State) {
        match self {
            Step::Translate(t) => t.undo(ctx),
            Step::Scale(s) => s.undo(ctx),
        }
    }
}

} // verus!
