//! A commander that records every command it runs, so that the latest one
//! can be undone.
use vstd::prelude::*;

use crate::{Command, Commander};

verus! {

/// The context reached by running `cmds` in order from `ctx`.
pub open spec fn replay<T, C: Command<T>>(ctx: T, cmds: Seq<C>) -> T
    decreases cmds.len(),
{
    if cmds.len() == 0 {
        ctx
    } else {
        cmds.last().executed(replay(ctx, cmds.drop_last())).1
    }
}

/// What a `TimeMachine` holds, as Verus sees it: the context, the recorded
/// commands as they stand after running, and, beside them, the context the
/// machine was made with and the recorded commands as they were handed in.
pub struct Timeline<T, C> {
    pub machine: T,
    pub history: Seq<C>,
    pub initial: T,
    pub issued: Seq<C>,
}

impl<T, C: Command<T>> Timeline<T, C> {
    /// A machine made from `ctx`, with nothing recorded.
    pub open spec fn start(ctx: T) -> Self {
        Timeline { machine: ctx, history: Seq::empty(), initial: ctx, issued: Seq::empty() }
    }

    /// The machine after `execute(cmd)`: the command runs on the context and
    /// is pushed, as it stands after running, onto the history.
    pub open spec fn executed(self, cmd: C) -> Self {
        Timeline {
            machine: cmd.executed(self.machine).1,
            history: self.history.push(cmd.executed(self.machine).0),
            initial: self.initial,
            issued: self.issued.push(cmd),
        }
    }

    /// The machine after `undo()`: with an empty history nothing changes;
    /// else the latest command is popped and undone on the context.
    pub open spec fn undone(self) -> Self {
        if self.history.len() == 0 {
            self
        } else {
            Timeline {
                machine: self.history.last().undone(self.machine).1,
                history: self.history.drop_last(),
                initial: self.initial,
                issued: self.issued.drop_last(),
            }
        }
    }

    /// The context and each recorded command are what replaying the
    /// commands, as handed in, from the initial context gives.
    pub open spec fn reconstructs(self) -> bool {
        &&& self.history.len() == self.issued.len()
        &&& self.machine == replay(self.initial, self.issued)
        &&& forall|i: int|
            0 <= i < self.history.len() ==> #[trigger] self.history[i] == self.issued[i].executed(
                replay(self.initial, self.issued.take(i)),
            ).0
    }
}

/// One call on a `TimeMachine`.
pub enum Action<C> {
    Execute(C),
    Undo,
}

/// The number of `Execute` calls in `ops` minus the number of `Undo` calls.
pub open spec fn depth_change<C>(ops: Seq<Action<C>>) -> int
    decreases ops.len(),
{
    if ops.len() == 0 {
        0
    } else {
        depth_change(ops.drop_last()) + match ops.last() {
            Action::Execute(_) => 1int,
            Action::Undo => -1int,
        }
    }
}

impl<T, C: Command<T>> Timeline<T, C> {
    /// The machine after the calls `ops`, in order.
    pub open spec fn run(self, ops: Seq<Action<C>>) -> Self
        decreases ops.len(),
    {
        if ops.len() == 0 {
            self
        } else {
            match ops.last() {
                Action::Execute(cmd) => self.run(ops.drop_last()).executed(cmd),
                Action::Undo => self.run(ops.drop_last()).undone(),
            }
        }
    }
}

/// Executing a command and then undoing it pops exactly that command and
/// gives back the context.
pub proof fn lemma_execute_then_undo<T, C: Command<T>>(s: Timeline<T, C>, cmd: C)
    ensures
        s.executed(cmd).undone().history =~= s.history,
        s.executed(cmd).undone().issued =~= s.issued,
        s.executed(cmd).undone().initial == s.initial,
        s.executed(cmd).undone().machine == s.machine,
{
    cmd.lemma_round_trip(s.machine);
}

/// From an empty history, after calls in which no `Undo` comes when the
/// history is empty, the history holds as many commands as there were
/// `Execute` calls minus `Undo` calls.
pub proof fn lemma_history_depth<T, C: Command<T>>(s: Timeline<T, C>, ops: Seq<Action<C>>)
    requires
        s.history.len() == 0,
        forall|k: int| 0 <= k <= ops.len() ==> depth_change(#[trigger] ops.take(k)) >= 0,
    ensures
        s.run(ops).history.len() == depth_change(ops),
    decreases ops.len(),
{
    if ops.len() > 0 {
        let rest = ops.drop_last();
        assert forall|k: int| 0 <= k <= rest.len() implies depth_change(#[trigger] rest.take(k)) >= 0 by {
            assert(rest.take(k) =~= ops.take(k));
        }
        lemma_history_depth(s, rest);
        assert(ops.take(ops.len() as int) =~= ops);
    }
}

/// Undo on an empty history, any number of times, changes nothing.
pub proof fn lemma_empty_undo<T, C: Command<T>>(s: Timeline<T, C>, ops: Seq<Action<C>>)
    requires
        s.history.len() == 0,
        forall|i: int| 0 <= i < ops.len() ==> #[trigger] ops[i] is Undo,
    ensures
        s.run(ops) == s,
    decreases ops.len(),
{
    if ops.len() > 0 {
        lemma_empty_undo(s, ops.drop_last());
    }
}

proof fn lemma_executed_reconstructs<T, C: Command<T>>(s: Timeline<T, C>, cmd: C)
    requires
        s.reconstructs(),
    ensures
        s.executed(cmd).reconstructs(),
{
    let t = s.executed(cmd);
    assert(t.issued.drop_last() =~= s.issued);
    assert forall|i: int| 0 <= i < t.history.len() implies #[trigger] t.history[i]
        == t.issued[i].executed(replay(t.initial, t.issued.take(i))).0 by {
        if i < s.history.len() {
            assert(t.issued.take(i) =~= s.issued.take(i));
        } else {
            assert(t.issued.take(i) =~= s.issued);
        }
    }
}

proof fn lemma_undone_reconstructs<T, C: Command<T>>(s: Timeline<T, C>)
    requires
        s.reconstructs(),
    ensures
        s.undone().reconstructs(),
{
    if s.history.len() > 0 {
        let n = s.history.len() - 1;
        let before = replay(s.initial, s.issued.drop_last());
        assert(s.issued.take(n) =~= s.issued.drop_last());
        assert(s.history[n] == s.issued.last().executed(before).0);
        s.issued.last().lemma_round_trip(before);
        let t = s.undone();
        assert forall|i: int| 0 <= i < t.history.len() implies #[trigger] t.history[i]
            == t.issued[i].executed(replay(t.initial, t.issued.take(i))).0 by {
            assert(t.issued.take(i) =~= s.issued.take(i));
            assert(t.history[i] == s.history[i]);
        }
    }
}

/// Starting from a context, after any calls, replaying the recorded
/// commands from that context yields the current context, and each
/// recorded command is what that replay leaves it as.
pub proof fn lemma_reconstruction<T, C: Command<T>>(ctx: T, ops: Seq<Action<C>>)
    ensures
        Timeline::<T, C>::start(ctx).run(ops).reconstructs(),
        Timeline::<T, C>::start(ctx).run(ops).machine == replay(
            ctx,
            Timeline::<T, C>::start(ctx).run(ops).issued,
        ),
    decreases ops.len(),
{
    let s = Timeline::<T, C>::start(ctx);
    if ops.len() > 0 {
        lemma_reconstruction(ctx, ops.drop_last());
        lemma_run_keeps_initial(s, ops.drop_last());
        match ops.last() {
            Action::Execute(cmd) => lemma_executed_reconstructs(s.run(ops.drop_last()), cmd),
            Action::Undo => lemma_undone_reconstructs(s.run(ops.drop_last())),
        }
    }
    lemma_run_keeps_initial(s, ops);
}

proof fn lemma_run_keeps_initial<T, C: Command<T>>(s: Timeline<T, C>, ops: Seq<Action<C>>)
    ensures
        s.run(ops).initial == s.initial,
    decreases ops.len(),
{
    if ops.len() > 0 {
        lemma_run_keeps_initial(s, ops.drop_last());
    }
}

/// Owns a context and the ordered history of the commands run on it.
pub struct TimeMachine<T, C: Command<T>> {
    /// The context that commands run on.
    pub machine: T,
    history: Vec<C>,
    initial: Ghost<T>,
    issued: Ghost<Seq<C>>,
}

impl<T, C: Command<T>> View for TimeMachine<T, C> {
    type V = Timeline<T, C>;

    closed spec fn view(&self) -> Timeline<T, C> {
        Timeline {
            machine: self.machine,
            history: self.history@,
            initial: self.initial@,
            issued: self.issued@,
        }
    }
}

impl<T, C: Command<T>> TimeMachine<T, C> {
    /// A machine around `machine`, with an empty history.
    pub fn new(machine: T) -> (r: Self)
        ensures
            r@ == Timeline::<T, C>::start(machine),
    {
        TimeMachine {
            machine,
            history: Vec::new(),
            initial: Ghost(machine),
            issued: Ghost(Seq::empty()),
        }
    }

    /// The context that commands run on.
    pub fn machine(&self) -> (r: &T)
        ensures
            *r == self@.machine,
    {
        &self.machine
    }

    /// The recorded commands, oldest first.
    pub fn history(&self) -> (r: &[C])
        ensures
            r@ == self@.history,
    {
        self.history.as_slice()
    }
}

impl<T, C: Command<T>> From<T> for TimeMachine<T, C> {
    /// A machine around `machine`, with an empty history.
    fn from(machine: T) -> (r: Self)
        ensures
            r@ == Timeline::<T, C>::start(machine),
    {
        TimeMachine::new(machine)
    }
}

impl<T, C: Command<T>> vstd::std_specs::convert::FromSpecImpl<T> for TimeMachine<T, C> {
    open spec fn obeys_from_spec() -> bool {
        false
    }

    open spec fn from_spec(machine: T) -> Self {
        choose|r: Self| r@ == Timeline::<T, C>::start(machine)
    }
}

impl<T: Default, C: Command<T>> Default for TimeMachine<T, C> {
    /// A machine around the default context, with an empty history.
    fn default() -> (r: Self)
        ensures
            r@ == Timeline::<T, C>::start(r@.machine),
            call_ensures(T::default, (), r@.machine),
    {
        TimeMachine::new(T::default())
    }
}

impl<T, C: Command<T>> Commander<T, C> for TimeMachine<T, C> {
    closed spec fn context(&self) -> T {
        self.machine
    }

    /// Runs `cmd` on the context and records it.
    fn execute(&mut self, cmd: C)
        ensures
            final(self)@ == old(self)@.executed(cmd),
    {
        let ghost handed = cmd;
        let mut cmd = cmd;
        cmd.execute(&mut self.machine);
        self.history.push(cmd);
        self.issued = Ghost(self.issued@.push(handed));
    }

    /// Pops the latest recorded command and undoes it; with nothing
    /// recorded, does nothing.
    fn undo(&mut self)
        ensures
            final(self)@ == old(self)@.undone(),
    {
        if let Some(cmd) = self.history.pop() {
            let mut cmd = cmd;
            cmd.undo(&mut self.machine);
            self.issued = Ghost(self.issued@.drop_last());
        }
    }
}

} // verus!
