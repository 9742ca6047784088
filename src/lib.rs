//! Reversible commands over a context, and a recorder that undoes them in
//! last-in, first-out order.
use vstd::prelude::*;

pub mod counter;
pub mod time_machine;

verus! {

/// A reversible mutation of a context of type `T`.
///
/// What `execute` and `undo` do is stated by two spec functions, each giving
/// the command (with whatever scratch state it keeps) and the context after
/// the call.
pub trait Command<T>: Sized {
    /// The command and the context after `execute` runs on `ctx`.
    spec fn executed(&self, ctx: T) -> (Self, T);

    /// The command and the context after `undo` runs on `ctx`.
    spec fn undone(&self, ctx: T) -> (Self, T);

    /// Executing a command and then undoing it gives the context back
    /// exactly, on every context.
    proof fn lemma_round_trip(&self, ctx: T)
        ensures
            self.executed(ctx).0.undone(self.executed(ctx).1).1 == ctx,
    ;

    /// Applies the command to `ctx`.
    fn execute(&mut self, ctx: &mut T)
        ensures
            (*final(self), *final(ctx)) == old(self).executed(*old(ctx)),
    ;

    /// Reverses the effect of the latest `execute` of this command.
    fn undo(&mut self, ctx: &mut T)
        ensures
            (*final(self), *final(ctx)) == old(self).undone(*old(ctx)),
    ;
}

/// A holder of a context of type `T` that runs commands of type `C` on it.
pub trait Commander<T, C: Command<T>>: Sized {
    /// The context that commands run on.
    spec fn context(&self) -> T;

    /// Runs `cmd` on the context.
    fn execute(&mut self, cmd: C)
        ensures
            final(self).context() == cmd.executed(old(self).context()).1,
    ;

    /// Undoes what this commander recorded; a commander that records
    /// nothing leaves itself as it is.
    fn undo(&mut self)
        default_ensures
            *final(self) == *old(self),
    {
    }
}

} // verus!
