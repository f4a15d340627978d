//! The scoped sharing primitive: one slot through which the host lends its
//! command queue to whatever runs inside a window.

use crate::commands::{Commands, Mutation};
use crate::error::BridgeError;
use vstd::prelude::*;

verus! {

/// What an optional queue holds: the recorded mutations, or `None`.
pub open spec fn lent(slot: Option<Commands>) -> Option<Seq<Mutation>> {
    match slot {
        Some(commands) => Some(commands@),
        None => None,
    }
}

/// A single slot that holds the host's command queue while a window is open
/// and nothing otherwise.
///
/// The slot is reached by exclusive borrow, so at most one party works on it
/// at any instant. Its view is `Some` of the lent queue's mutations while a
/// window is open, and `None` while none is.
#[derive(Debug)]
pub struct RefMutMutex {
    inner: Option<Commands>,
}

/// Exclusive access to the slot of a [`RefMutMutex`], as [`RefMutMutex::lock`]
/// hands it out.
#[derive(Debug)]
pub struct RefMutMutexGuard<'a> {
    /// The slot itself: `Some` of the lent queue while a window is open.
    pub inner: &'a mut Option<Commands>,
}

impl View for RefMutMutex {
    type V = Option<Seq<Mutation>>;

    closed spec fn view(&self) -> Option<Seq<Mutation>> {
        lent(self.inner)
    }
}

impl RefMutMutex {
    /// A slot with no window open.
    pub fn new() -> (mutex: Self)
        ensures
            mutex@ is None,
    {
        RefMutMutex { inner: None }
    }

    /// Whether a window is open.
    pub fn is_open(&self) -> (open: bool)
        ensures
            open == (self@ is Some),
    {
        self.inner.is_some()
    }

    /// Hands out the slot. What the guard's holder leaves in it is what the
    /// slot holds afterwards.
    pub fn lock(&mut self) -> (guard: RefMutMutexGuard<'_>)
        ensures
            lent(*guard.inner) == old(self)@,
            final(self)@ == lent(*final(guard.inner)),
    {
        RefMutMutexGuard { inner: &mut self.inner }
    }

    /// Opens a window: moves `commands` into the slot.
    ///
    /// A window must not be opened inside another; the caller rules that out.
    pub fn open_window(&mut self, commands: Commands)
        requires
            old(self)@ is None,
        ensures
            final(self)@ == Some(commands@),
    {
        self.inner = Some(commands);
    }

    /// Closes the window: empties the slot and hands back the queue it held,
    /// or `None` where no window was open.
    pub fn close_window(&mut self) -> (commands: Option<Commands>)
        ensures
            final(self)@ is None,
            lent(commands) == old(self)@,
    {
        self.inner.take()
    }

    /// Runs `f` on the lent queue if a window is open, and reports
    /// [`BridgeError::NoActiveWindow`] without running it otherwise.
    pub fn try_use<R, F: FnOnce(&mut Commands) -> R>(&mut self, f: F) -> (result: Result<
        R,
        BridgeError,
    >)
        requires
            old(self)@ is Some ==> forall|commands: &mut Commands|
                commands@ == old(self)@->0 ==> call_requires(f, (commands,)),
        ensures
            old(self)@ is None ==> result == Err::<R, BridgeError>(BridgeError::NoActiveWindow)
                && final(self)@ is None,
            old(self)@ is Some ==> result is Ok && final(self)@ is Some && exists|
                commands: &mut Commands,
            |
                commands@ == old(self)@->0 && final(commands)@ == final(self)@->0 && call_ensures(
                    f,
                    (commands,),
                    result->Ok_0,
                ),
    {
        match self.inner.as_mut() {
            Some(commands) => Ok(f(commands)),
            None => Err(BridgeError::NoActiveWindow),
        }
    }

    /// Lends `commands` out for the length of `f`: opens a window on it, runs
    /// `f` with the slot, then closes the window whatever `f` returned, and
    /// gives `commands` back what the slot holds at that point.
    ///
    /// The queue is lent, not given: `f` works on it through the slot and
    /// leaves it there. A window must not be opened inside another. The
    /// caller rules out both a nested window and an `f` that empties the
    /// slot.
    pub fn share<R, F: FnOnce(&mut RefMutMutex) -> R>(
        &mut self,
        commands: &mut Commands,
        f: F,
    ) -> (result: R)
        requires
            old(self)@ is None,
            forall|slot: &mut RefMutMutex|
                slot@ == Some(old(commands)@) ==> call_requires(f, (slot,)),
            forall|slot: &mut RefMutMutex, result: R|
                slot@ == Some(old(commands)@) && call_ensures(f, (slot,), result)
                    ==> final(slot)@ is Some,
        ensures
            final(self)@ is None,
            exists|slot: &mut RefMutMutex|
                slot@ == Some(old(commands)@) && call_ensures(f, (slot,), result) && final(slot)@
                    == Some(final(commands)@),
    {
        let mut lent_out = Commands::new();
        core::mem::swap(commands, &mut lent_out);
        self.inner = Some(lent_out);
        let result = f(self);
        match self.inner.take() {
            Some(returned) => {
                *commands = returned;
            },
            None => unreached(),
        }
        result
    }
}

} // verus!
