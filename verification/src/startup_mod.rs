//! One extension instance as the bridge sees it, and the lifecycle of one
//! invocation of it: `Idle`, `HandleAllocated`, `WindowOpen`, `Completed`.

use crate::commands::{Commands, Mutation};
use crate::error::BridgeError;
use crate::handle_table::{
    after_spawn, handle_limit, lemma_valid_table_allocates_in_order, table_wf, Handle,
    HandleTable,
};
use crate::ref_mutex::{lent, RefMutMutex};
use vstd::prelude::*;

verus! {

/// How an invocation ended.
#[derive(Clone, Copy, Debug, PartialEq, Eq, Structural)]
pub enum Outcome {
    /// The entry point returned its message.
    Succeeded,
    /// The entry point trapped or returned an error.
    Failed,
    /// The entry point was not called: the extension's table had no number
    /// left for a handle.
    OutOfHandles,
}

/// Where an extension instance stands in the lifecycle of one invocation.
#[derive(Clone, Copy, Debug, PartialEq, Eq, Structural)]
pub enum Phase {
    /// No invocation is under way.
    Idle,
    /// The handle for the coming call is registered; no window is open yet.
    HandleAllocated(Handle),
    /// The window is open and the call into the extension is under way.
    WindowOpen(Handle),
    /// The invocation is over: the window is closed and no handle is live.
    Completed(Outcome),
}

/// The outcome that a call's result stands for.
pub open spec fn outcome_of(result: Result<String, String>) -> Outcome {
    if result is Ok {
        Outcome::Succeeded
    } else {
        Outcome::Failed
    }
}

/// What the lifecycle reports for a call's result: the extension's message,
/// or [`BridgeError::SandboxCallFailed`] for any failure of the call.
pub open spec fn report_of(result: Result<String, String>) -> Result<String, BridgeError> {
    match result {
        Ok(message) => Ok(message),
        Err(_) => Err(BridgeError::SandboxCallFailed),
    }
}

/// The mathematical state of one extension instance.
pub struct ModView {
    /// The numbers of the live handles.
    pub live: Set<u32>,
    /// How many numbers the table has taken out of use: no new handle has a
    /// number below it.
    pub issued: nat,
    /// The lifecycle phase.
    pub phase: Phase,
}

impl ModView {
    /// The handle that the invocation under way was given, if one is.
    pub open spec fn handle(self) -> Option<Handle> {
        match self.phase {
            Phase::HandleAllocated(handle) => Some(handle),
            Phase::WindowOpen(handle) => Some(handle),
            _ => None,
        }
    }

    /// Whether no invocation is under way.
    pub open spec fn at_rest(self) -> bool {
        self.phase is Idle || self.phase is Completed
    }

    /// The validity of an instance: its table is valid, and the only handle
    /// that can be live is the one of the invocation under way.
    pub open spec fn wf(self) -> bool {
        &&& table_wf(self.live, self.issued)
        &&& match self.handle() {
            Some(handle) => self.live.subset_of(set![handle.rep]) && handle.rep < self.issued,
            None => self.live == Set::<u32>::empty(),
        }
    }

    /// Whether no number is left for a new handle.
    pub open spec fn out_of_handles(self) -> bool {
        self.issued >= handle_limit()
    }

    /// What the host function `spawn-stuff` reports when it is called with
    /// `handle` while the slot holds `window`.
    pub open spec fn spawn_result(
        self,
        window: Option<Seq<Mutation>>,
        handle: Handle,
    ) -> Result<(), BridgeError> {
        if !self.live.contains(handle.rep) {
            Err(BridgeError::UnknownHandle)
        } else if window is None {
            Err(BridgeError::NoActiveWindow)
        } else {
            Ok(())
        }
    }

    /// What the slot holds after the host function `spawn-stuff` was called
    /// with `handle` while it held `window`.
    pub open spec fn spawn_window(
        self,
        window: Option<Seq<Mutation>>,
        handle: Handle,
    ) -> Option<Seq<Mutation>> {
        if self.live.contains(handle.rep) {
            after_spawn(window)
        } else {
            window
        }
    }

    /// What dropping `handle` reports.
    pub open spec fn drop_result(self, handle: Handle) -> Result<(), BridgeError> {
        if self.live.contains(handle.rep) {
            Ok(())
        } else {
            Err(BridgeError::UnknownHandle)
        }
    }

    /// The handle that the next invocation of this instance is given, where
    /// a number is left: handles are numbered in the order in which they are
    /// given out, and none is given out twice.
    pub open spec fn next_handle(self) -> Handle {
        Handle { rep: self.issued as u32 }
    }

    /// The instance after the allocation for its next invocation: a handle
    /// is allocated, or, where no number is left, the invocation is over
    /// before it began.
    pub open spec fn allocated(self) -> ModView {
        if self.out_of_handles() {
            ModView {
                live: self.live,
                issued: self.issued,
                phase: Phase::Completed(Outcome::OutOfHandles),
            }
        } else {
            ModView {
                live: self.live.insert(self.next_handle().rep),
                issued: self.issued + 1,
                phase: Phase::HandleAllocated(self.next_handle()),
            }
        }
    }

    /// The instance with the numbers below `rep` taken out of use.
    pub open spec fn retired(self, rep: u32) -> ModView {
        ModView {
            live: self.live,
            issued: if self.issued < rep {
                rep as nat
            } else {
                self.issued
            },
            phase: self.phase,
        }
    }

    /// The instance after the window was opened for the invocation whose
    /// handle is allocated.
    pub open spec fn opened(self) -> ModView {
        match self.phase {
            Phase::HandleAllocated(handle) => ModView {
                live: self.live,
                issued: self.issued,
                phase: Phase::WindowOpen(handle),
            },
            _ => self,
        }
    }

    /// The instance made ready for its next invocation.
    pub open spec fn rested(self) -> ModView {
        ModView { live: self.live, issued: self.issued, phase: Phase::Idle }
    }

    /// The instance after `handle` was dropped.
    pub open spec fn dropped(self, handle: Handle) -> ModView {
        ModView { live: self.live.remove(handle.rep), issued: self.issued, phase: self.phase }
    }

    /// The instance after the invocation under way ended with `outcome`.
    pub open spec fn completed(self, outcome: Outcome) -> ModView {
        ModView {
            live: match self.handle() {
                Some(handle) => self.live.remove(handle.rep),
                None => self.live,
            },
            issued: self.issued,
            phase: Phase::Completed(outcome),
        }
    }
}

/// A finite set is within `{rep}` exactly if it is empty or is `{rep}`.
proof fn lemma_at_most_one(live: Set<u32>, rep: u32)
    requires
        live.finite(),
    ensures
        live.subset_of(set![rep]) <==> live.len() == 0 || (live.len() == 1 && live.contains(rep)),
{
    if live.subset_of(set![rep]) {
        vstd::set_lib::lemma_len_subset(live, set![rep]);
        if live.len() == 1 {
            assert(live.contains(live.choose()));
        }
    }
    if live.len() == 1 && live.contains(rep) {
        assert forall|other: u32| live.contains(other) implies other == rep by {
            if other != rep {
                vstd::set_lib::lemma_len_subset(set![rep, other], live);
            }
        }
    }
}

/// The bridge's side of one loaded extension: its table of live handles and
/// the phase of its current invocation.
#[derive(Debug)]
pub struct StartupMod {
    commands_table: HandleTable,
    phase: Phase,
}

impl View for StartupMod {
    type V = ModView;

    closed spec fn view(&self) -> ModView {
        ModView {
            live: self.commands_table@,
            issued: self.commands_table.issued(),
            phase: self.phase,
        }
    }
}

impl StartupMod {
    /// A freshly loaded instance: idle, with no live handle and none given
    /// out.
    pub fn new() -> (startup_mod: Self)
        ensures
            startup_mod@ == (ModView { live: Set::<u32>::empty(), issued: 0, phase: Phase::Idle }),
            startup_mod@.wf(),
    {
        StartupMod { commands_table: HandleTable::new(), phase: Phase::Idle }
    }

    /// The lifecycle phase.
    pub fn phase(&self) -> (phase: Phase)
        ensures
            phase == self@.phase,
    {
        self.phase
    }

    /// Whether the instance is valid.
    pub fn is_valid(&self) -> (valid: bool)
        ensures
            valid == self@.wf(),
    {
        proof {
            self.commands_table.lemma_issued_is_bounded();
        }
        match self.phase {
            Phase::HandleAllocated(handle) | Phase::WindowOpen(handle) => {
                let live = self.commands_table.len();
                proof {
                    lemma_at_most_one(self.commands_table@, handle.rep);
                }
                self.commands_table.was_issued(handle) && (live == 0 || (live == 1
                    && self.commands_table.contains(handle)))
            },
            _ => self.commands_table.is_empty(),
        }
    }

    /// The table of live handles.
    pub fn commands_table(&self) -> (table: &HandleTable)
        ensures
            table@ == self@.live,
    {
        &self.commands_table
    }

    /// Makes the instance ready for its next invocation: `Completed` goes back
    /// to `Idle`.
    pub fn reset(&mut self)
        requires
            old(self)@.at_rest(),
        ensures
            final(self)@ == old(self)@.rested(),
    {
        self.phase = Phase::Idle;
    }

    /// `Idle` to `HandleAllocated`: registers a proxy under a handle that
    /// this instance was never given before, the one to pass to the
    /// extension's entry point.
    ///
    /// Where no number is left for a handle the answer is `None`, and the
    /// invocation is over before it began: the instance goes straight to
    /// `Completed` with [`Outcome::OutOfHandles`].
    pub fn allocate_handle(&mut self) -> (handle: Option<Handle>)
        requires
            old(self)@.wf(),
            old(self)@.phase is Idle,
        ensures
            handle == (if old(self)@.out_of_handles() {
                None
            } else {
                Some(old(self)@.next_handle())
            }),
            final(self)@ == old(self)@.allocated(),
            final(self)@.wf(),
    {
        proof {
            lemma_valid_table_allocates_in_order(old(self)@.live, old(self)@.issued);
        }
        let handle = self.commands_table.allocate();
        match handle {
            Some(allocated) => {
                self.phase = Phase::HandleAllocated(allocated);
            },
            None => {
                self.phase = Phase::Completed(Outcome::OutOfHandles);
            },
        }
        handle
    }

    /// Takes every number below `rep` out of use: no invocation of this
    /// instance is given a handle with one of them from now on.
    pub fn retire_handles_below(&mut self, rep: u32)
        ensures
            final(self)@ == old(self)@.retired(rep),
            old(self)@.wf() ==> final(self)@.wf(),
    {
        self.commands_table.retire_below(rep);
    }

    /// `HandleAllocated` to `WindowOpen`: lends `commands` out through
    /// `commands_mutex`. The call into the extension comes next.
    ///
    /// A window must not be opened inside another; the caller rules that out.
    pub fn open_window(&mut self, commands_mutex: &mut RefMutMutex, commands: Commands) -> (handle:
        Handle)
        requires
            old(self)@.phase is HandleAllocated,
            old(commands_mutex)@ is None,
        ensures
            old(self)@.phase == Phase::HandleAllocated(handle),
            final(self)@ == old(self)@.opened(),
            final(commands_mutex)@ == Some(commands@),
    {
        match self.phase {
            Phase::HandleAllocated(handle) => {
                commands_mutex.open_window(commands);
                self.phase = Phase::WindowOpen(handle);
                handle
            },
            _ => unreached(),
        }
    }

    /// `WindowOpen` to `Completed`: the call into the extension is over and
    /// `result` is what it gave, the message or the fault's description.
    ///
    /// Closes the window whatever `result` is, releases the invocation's
    /// handle, and returns the lifecycle's report with the queue that the
    /// slot held.
    pub fn complete(
        &mut self,
        commands_mutex: &mut RefMutMutex,
        result: Result<String, String>,
    ) -> (done: (Result<String, BridgeError>, Option<Commands>))
        requires
            old(self)@.phase is WindowOpen,
        ensures
            final(commands_mutex)@ is None,
            lent(done.1) == old(commands_mutex)@,
            done.0 == report_of(result),
            final(self)@ == old(self)@.completed(outcome_of(result)),
    {
        let commands = commands_mutex.close_window();
        match self.phase {
            Phase::WindowOpen(handle) => {
                let _ = self.commands_table.release(handle);
            },
            _ => {},
        }
        match result {
            Ok(message) => {
                self.phase = Phase::Completed(Outcome::Succeeded);
                (Ok(message), commands)
            },
            Err(_) => {
                self.phase = Phase::Completed(Outcome::Failed);
                (Err(BridgeError::SandboxCallFailed), commands)
            },
        }
    }

    /// The host function by which the extension asks for a spawn.
    ///
    /// Resolves `handle`, then records the request on the queue that
    /// `commands_mutex` lends out. A handle that is not live gives
    /// [`BridgeError::UnknownHandle`]; a live one with no window open gives
    /// [`BridgeError::NoActiveWindow`]. Either way nothing is recorded.
    pub fn spawn_stuff(&self, commands_mutex: &mut RefMutMutex, handle: Handle) -> (result: Result<
        (),
        BridgeError,
    >)
        ensures
            result == self@.spawn_result(old(commands_mutex)@, handle),
            final(commands_mutex)@ == self@.spawn_window(old(commands_mutex)@, handle),
    {
        match self.commands_table.resolve(handle) {
            Ok(proxy) => proxy.spawn_stuff(commands_mutex),
            Err(error) => Err(error),
        }
    }

    /// The host function by which the extension gives a handle up.
    ///
    /// Releases `handle`. A handle that is not live gives
    /// [`BridgeError::UnknownHandle`] and changes nothing.
    pub fn drop(&mut self, handle: Handle) -> (result: Result<(), BridgeError>)
        ensures
            result == old(self)@.drop_result(handle),
            final(self)@ == old(self)@.dropped(handle),
    {
        match self.commands_table.release(handle) {
            Some(_) => Ok(()),
            None => Err(BridgeError::UnknownHandle),
        }
    }
}

} // verus!
