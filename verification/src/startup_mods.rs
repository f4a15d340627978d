//! The registry of loaded extensions and the driver of a tick.
//!
//! A tick invokes each loaded extension once, in the order in which they
//! were loaded. The registry makes every decision of a tick but performs no
//! call: [`StartupMods::begin_tick`] and [`StartupMods::call_returned`] answer
//! with the [`Action`] that their caller is to take next.

use crate::commands::{Commands, Mutation};
use crate::error::BridgeError;
use crate::handle_table::Handle;
use crate::laws::{
    law_begin_tick_keeps_valid, law_call_returned_keeps_valid, law_drop_keeps_valid,
    law_retire_keeps_valid,
};
use crate::ref_mutex::RefMutMutex;
use crate::startup_mod::{outcome_of, report_of, ModView, Outcome, Phase, StartupMod};
use vstd::prelude::*;

verus! {

/// A request that an extension can make of the host while it is being
/// called. The set is closed.
#[derive(Clone, Copy, Debug, PartialEq, Eq, Structural)]
pub enum HostCall {
    /// Ask for a spawn through the handle.
    SpawnStuff(Handle),
    /// Give the handle up.
    Drop(Handle),
}

/// What the driver of a tick is to do next.
#[derive(Debug)]
pub enum Action {
    /// Call the entry point of the extension at `index` and pass it
    /// `handle`; then report the result with
    /// [`StartupMods::call_returned`]. The extensions between the one
    /// called before and this one were passed over.
    Call { index: usize, handle: Handle },
    /// The tick is over: every extension was invoked. `commands` is the
    /// host's queue with everything that the extensions requested.
    Done { commands: Commands },
}

/// The mathematical value of an [`Action`].
pub enum ActionView {
    /// Call the extension at `index` with `handle`.
    Call { index: int, handle: Handle },
    /// The tick is over, and `commands` is what the queue holds.
    Done { commands: Seq<Mutation> },
}

impl View for Action {
    type V = ActionView;

    open spec fn view(&self) -> ActionView {
        match *self {
            Action::Call { index, handle } => ActionView::Call { index: index as int, handle },
            Action::Done { commands } => ActionView::Done { commands: commands@ },
        }
    }
}

/// What [`StartupMods::call_returned`] answers.
#[derive(Debug)]
pub struct Completion {
    /// The report of the invocation that just ended: the extension's
    /// message, or [`BridgeError::SandboxCallFailed`].
    pub report: Result<String, BridgeError>,
    /// What to do next.
    pub next: Action,
}

/// Whether `startup_mod`, the extension at `index`, is valid and in the phase
/// that its place in the tick gives it, where `current` is the index of the
/// extension being called.
pub open spec fn in_place(startup_mod: ModView, index: int, current: Option<int>) -> bool {
    &&& startup_mod.wf()
    &&& match current {
        Some(current) => if index < current {
            startup_mod.phase is Completed
        } else if index == current {
            startup_mod.phase is WindowOpen
        } else {
            startup_mod.phase is Idle
        },
        None => startup_mod.at_rest(),
    }
}

/// The mathematical state of the registry.
pub struct ModsView {
    /// The loaded extensions, in the order in which they were loaded.
    pub mods: Seq<ModView>,
    /// What the shared slot holds.
    pub window: Option<Seq<Mutation>>,
    /// The index of the extension whose call is under way, if one is.
    pub current: Option<int>,
}

impl ModsView {
    /// The validity of the registry.
    ///
    /// The slot holds the queue exactly while a call is under way. The
    /// extension being called is in `WindowOpen`; within a tick those before
    /// it are `Completed` and those after it `Idle`; outside a tick all are
    /// at rest. Only the extension being called can have a live handle.
    pub open spec fn wf(self) -> bool {
        &&& self.window is Some <==> self.current is Some
        &&& self.current is Some ==> self.has(self.current->0)
        &&& forall|i: int|
            0 <= i < self.mods.len() ==> in_place(#[trigger] self.mods[i], i, self.current)
    }

    /// The registry with one more extension loaded.
    pub open spec fn loaded(self) -> ModsView {
        ModsView {
            mods: self.mods.push(
                ModView { live: Set::<u32>::empty(), issued: 0, phase: Phase::Idle },
            ),
            window: self.window,
            current: self.current,
        }
    }

    /// Whether `index` names a loaded extension.
    pub open spec fn has(self, index: int) -> bool {
        0 <= index < self.mods.len()
    }

    /// What the host function `spawn-stuff` reports to the extension at
    /// `index` for `handle`. An extension that is not loaded has no live
    /// handle.
    pub open spec fn spawn_stuff_result(self, index: int, handle: Handle) -> Result<
        (),
        BridgeError,
    > {
        if self.has(index) {
            self.mods[index].spawn_result(self.window, handle)
        } else {
            Err(BridgeError::UnknownHandle)
        }
    }

    /// The registry after that call.
    pub open spec fn after_spawn_stuff(self, index: int, handle: Handle) -> ModsView {
        if self.has(index) {
            ModsView {
                mods: self.mods,
                window: self.mods[index].spawn_window(self.window, handle),
                current: self.current,
            }
        } else {
            self
        }
    }

    /// What the host function that drops a handle reports to the extension
    /// at `index` for `handle`.
    pub open spec fn drop_result(self, index: int, handle: Handle) -> Result<(), BridgeError> {
        if self.has(index) {
            self.mods[index].drop_result(handle)
        } else {
            Err(BridgeError::UnknownHandle)
        }
    }

    /// The registry after that call.
    pub open spec fn after_drop(self, index: int, handle: Handle) -> ModsView {
        if self.has(index) {
            ModsView {
                mods: self.mods.update(index, self.mods[index].dropped(handle)),
                window: self.window,
                current: self.current,
            }
        } else {
            self
        }
    }

    /// What the host answers when the extension at `index` makes `call`.
    pub open spec fn call_result(self, index: int, call: HostCall) -> Result<(), BridgeError> {
        match call {
            HostCall::SpawnStuff(handle) => self.spawn_stuff_result(index, handle),
            HostCall::Drop(handle) => self.drop_result(index, handle),
        }
    }

    /// The registry after the extension at `index` made `call`.
    pub open spec fn after_call(self, index: int, call: HostCall) -> ModsView {
        match call {
            HostCall::SpawnStuff(handle) => self.after_spawn_stuff(index, handle),
            HostCall::Drop(handle) => self.after_drop(index, handle),
        }
    }

    /// The mutations that the host records when the extension at `index`
    /// makes `call`: one spawn for a spawn request that is granted, and
    /// nothing otherwise.
    pub open spec fn recorded_by(self, index: int, call: HostCall) -> Seq<Mutation> {
        match call {
            HostCall::SpawnStuff(handle) => if self.spawn_stuff_result(index, handle) is Ok {
                seq![Mutation::SpawnEmpty]
            } else {
                Seq::<Mutation>::empty()
            },
            HostCall::Drop(_) => Seq::<Mutation>::empty(),
        }
    }

    /// The registry after `calls` were made one after the other, each by the
    /// extension whose index goes with it.
    pub open spec fn after_calls(self, calls: Seq<(int, HostCall)>) -> ModsView
        decreases calls.len(),
    {
        if calls.len() == 0 {
            self
        } else {
            self.after_calls(calls.drop_last()).after_call(calls.last().0, calls.last().1)
        }
    }

    /// The mutations that the host records for `calls`, in the order of the
    /// calls.
    pub open spec fn recorded(self, calls: Seq<(int, HostCall)>) -> Seq<Mutation>
        decreases calls.len(),
    {
        if calls.len() == 0 {
            Seq::<Mutation>::empty()
        } else {
            self.recorded(calls.drop_last()) + self.after_calls(calls.drop_last()).recorded_by(
                calls.last().0,
                calls.last().1,
            )
        }
    }

    /// The registry with every extension made ready for a new tick.
    pub open spec fn rested(self) -> ModsView {
        ModsView {
            mods: Seq::new(self.mods.len(), |i: int| self.mods[i].rested()),
            window: self.window,
            current: self.current,
        }
    }

    /// The registry with the numbers below `rep` taken out of use for the
    /// extension at `index`.
    pub open spec fn retired(self, index: int, rep: u32) -> ModsView {
        if self.has(index) {
            ModsView {
                mods: self.mods.update(index, self.mods[index].retired(rep)),
                window: self.window,
                current: self.current,
            }
        } else {
            self
        }
    }

    /// The registry with the extension at `cursor` passed over because no
    /// number is left for its handle: it is `Completed` without a call.
    pub open spec fn passed_over(self, cursor: int) -> ModsView {
        ModsView {
            mods: self.mods.update(cursor, self.mods[cursor].allocated()),
            window: self.window,
            current: self.current,
        }
    }

    /// The registry after the tick went on from the extension at `cursor`
    /// with the queue `commands`: the first extension from there on that
    /// has a number left for a handle is invoked, those before it are
    /// passed over, and where none is left to invoke the tick ends.
    pub open spec fn invoked(self, cursor: int, commands: Seq<Mutation>) -> ModsView
        decreases self.mods.len() - cursor,
    {
        if !self.has(cursor) {
            ModsView { mods: self.mods, window: None, current: None }
        } else if self.mods[cursor].out_of_handles() {
            self.passed_over(cursor).invoked(cursor + 1, commands)
        } else {
            ModsView {
                mods: self.mods.update(cursor, self.mods[cursor].allocated().opened()),
                window: Some(commands),
                current: Some(cursor),
            }
        }
    }

    /// The action that goes with [`ModsView::invoked`].
    pub open spec fn invoke_action(self, cursor: int, commands: Seq<Mutation>) -> ActionView
        decreases self.mods.len() - cursor,
    {
        if !self.has(cursor) {
            ActionView::Done { commands }
        } else if self.mods[cursor].out_of_handles() {
            self.passed_over(cursor).invoke_action(cursor + 1, commands)
        } else {
            ActionView::Call { index: cursor, handle: self.mods[cursor].next_handle() }
        }
    }

    /// The registry after a tick began with the queue `commands`.
    pub open spec fn begun(self, commands: Seq<Mutation>) -> ModsView {
        self.rested().invoked(0, commands)
    }

    /// The action with which a tick begins.
    pub open spec fn begin_action(self, commands: Seq<Mutation>) -> ActionView {
        self.rested().invoke_action(0, commands)
    }

    /// The registry with the call under way ended and nothing started yet:
    /// the window closed, the handle released, the extension `Completed`.
    pub open spec fn closed(self, outcome: Outcome) -> ModsView {
        match self.current {
            Some(current) => ModsView {
                mods: self.mods.update(current, self.mods[current].completed(outcome)),
                window: None,
                current: None,
            },
            None => self,
        }
    }

    /// The registry after the call under way returned with `outcome`: that
    /// invocation is completed and the next one started, whatever the
    /// outcome was.
    pub open spec fn returned(self, outcome: Outcome) -> ModsView {
        match self.current {
            Some(current) => self.closed(outcome).invoked(current + 1, self.window->0),
            None => self,
        }
    }

    /// The action that goes with [`ModsView::returned`].
    pub open spec fn return_action(self, outcome: Outcome) -> ActionView {
        match self.current {
            Some(current) => self.closed(outcome).invoke_action(current + 1, self.window->0),
            None => ActionView::Done { commands: Seq::<Mutation>::empty() },
        }
    }
}

/// The loaded extensions, the slot they share, and the state of the tick.
#[derive(Debug)]
pub struct StartupMods {
    startup_mods: Vec<StartupMod>,
    commands_mutex: RefMutMutex,
    current: Option<usize>,
}

impl View for StartupMods {
    type V = ModsView;

    closed spec fn view(&self) -> ModsView {
        ModsView {
            mods: Seq::new(self.startup_mods@.len(), |i: int| self.startup_mods@[i]@),
            window: self.commands_mutex@,
            current: match self.current {
                Some(current) => Some(current as int),
                None => None,
            },
        }
    }
}

impl StartupMods {
    /// A registry with no extension loaded and no tick under way.
    pub fn new() -> (mods: Self)
        ensures
            mods@ == (ModsView { mods: Seq::<ModView>::empty(), window: None, current: None }),
            mods@.wf(),
    {
        let mods = StartupMods {
            startup_mods: Vec::new(),
            commands_mutex: RefMutMutex::new(),
            current: None,
        };
        assert(mods@.mods =~= Seq::<ModView>::empty());
        mods
    }

    /// Loads one more extension and returns its index. It is invoked from the
    /// next tick on, or in the tick under way where its turn is still to
    /// come.
    pub fn load(&mut self) -> (index: usize)
        requires
            old(self)@.wf(),
        ensures
            index == old(self)@.mods.len(),
            final(self)@ == old(self)@.loaded(),
            final(self)@.wf(),
    {
        let index = self.startup_mods.len();
        self.startup_mods.push(StartupMod::new());
        assert(self@.mods =~= old(self)@.loaded().mods);
        index
    }

    /// The number of loaded extensions.
    pub fn len(&self) -> (n: usize)
        ensures
            n == self@.mods.len(),
    {
        self.startup_mods.len()
    }

    /// The extension at `index`, or `None` where fewer are loaded.
    pub fn get(&self, index: usize) -> (startup_mod: Option<&StartupMod>)
        ensures
            startup_mod is Some <==> self@.has(index as int),
            startup_mod is Some ==> startup_mod->0@ == self@.mods[index as int],
    {
        if index < self.startup_mods.len() {
            Some(&self.startup_mods[index])
        } else {
            None
        }
    }

    /// The index of the extension whose call is under way, if one is.
    pub fn current(&self) -> (current: Option<usize>)
        ensures
            match current {
                Some(index) => self@.current == Some(index as int),
                None => self@.current is None,
            },
    {
        self.current
    }

    /// Whether the shared slot holds the queue.
    pub fn is_window_open(&self) -> (open: bool)
        ensures
            open == (self@.window is Some),
    {
        self.commands_mutex.is_open()
    }

    /// Whether the registry is valid. Every registry is that was made by
    /// [`StartupMods::new`] and used as the functions' conditions ask.
    pub fn is_valid(&self) -> (valid: bool)
        ensures
            valid == self@.wf(),
    {
        let n = self.startup_mods.len();
        let open = self.commands_mutex.is_open();
        match self.current {
            Some(current) => {
                if current >= n || !open {
                    return false;
                }
            },
            None => {
                if open {
                    return false;
                }
            },
        }
        let mut i: usize = 0;
        while i < n
            invariant
                i <= n,
                n == self.startup_mods@.len(),
                forall|j: int| 0 <= j < i ==> in_place(#[trigger] self@.mods[j], j, self@.current),
            decreases n - i,
        {
            let startup_mod = &self.startup_mods[i];
            let phase = startup_mod.phase();
            let in_turn = match self.current {
                Some(current) => if i < current {
                    matches!(phase, Phase::Completed(_))
                } else if i == current {
                    matches!(phase, Phase::WindowOpen(_))
                } else {
                    matches!(phase, Phase::Idle)
                },
                None => matches!(phase, Phase::Idle | Phase::Completed(_)),
            };
            if !startup_mod.is_valid() || !in_turn {
                assert(!in_place(self@.mods[i as int], i as int, self@.current));
                return false;
            }
            i = i + 1;
        }
        true
    }

    /// The host function by which the extension at `index` asks for a spawn
    /// through `handle`.
    ///
    /// Where `handle` is live the request is recorded on the lent queue,
    /// behind everything recorded before. Otherwise the answer is
    /// [`BridgeError::UnknownHandle`] and nothing changes. A handle is live
    /// only during the call that it was allocated for, and no later call is
    /// given its number: a handle that the extension kept is refused for
    /// good.
    pub fn spawn_stuff(&mut self, index: usize, handle: Handle) -> (result: Result<
        (),
        BridgeError,
    >)
        requires
            old(self)@.wf(),
        ensures
            result == old(self)@.spawn_stuff_result(index as int, handle),
            final(self)@ == old(self)@.after_spawn_stuff(index as int, handle),
            final(self)@.wf(),
    {
        if index < self.startup_mods.len() {
            let result = self.startup_mods[index].spawn_stuff(&mut self.commands_mutex, handle);
            result
        } else {
            Err(BridgeError::UnknownHandle)
        }
    }

    /// The host function by which the extension at `index` gives `handle`
    /// up.
    ///
    /// A live handle is released. Otherwise the answer is
    /// [`BridgeError::UnknownHandle`] and nothing changes.
    pub fn drop(&mut self, index: usize, handle: Handle) -> (result: Result<(), BridgeError>)
        requires
            old(self)@.wf(),
        ensures
            result == old(self)@.drop_result(index as int, handle),
            final(self)@ == old(self)@.after_drop(index as int, handle),
            final(self)@.wf(),
    {
        if index < self.startup_mods.len() {
            let startup_mod = &mut self.startup_mods[index];
            let result = startup_mod.drop(handle);
            proof {
                assert(self@.mods =~= old(self)@.after_drop(index as int, handle).mods);
                law_drop_keeps_valid(old(self)@, index as int, handle);
            }
            result
        } else {
            Err(BridgeError::UnknownHandle)
        }
    }

    /// Serves the request `call` of the extension at `index`.
    pub fn host_call(&mut self, index: usize, call: HostCall) -> (result: Result<(), BridgeError>)
        requires
            old(self)@.wf(),
        ensures
            result == old(self)@.call_result(index as int, call),
            final(self)@ == old(self)@.after_call(index as int, call),
            final(self)@.wf(),
    {
        match call {
            HostCall::SpawnStuff(handle) => self.spawn_stuff(index, handle),
            HostCall::Drop(handle) => self.drop(index, handle),
        }
    }

    /// Takes every number below `rep` out of use for the extension at
    /// `index`: none of its invocations is given a handle with one of them
    /// from now on. Without such an extension nothing changes.
    pub fn retire_handles_below(&mut self, index: usize, rep: u32)
        requires
            old(self)@.wf(),
        ensures
            final(self)@ == old(self)@.retired(index as int, rep),
            final(self)@.wf(),
    {
        if index < self.startup_mods.len() {
            let startup_mod = &mut self.startup_mods[index];
            startup_mod.retire_handles_below(rep);
            proof {
                assert(self@.mods =~= old(self)@.retired(index as int, rep).mods);
                law_retire_keeps_valid(old(self)@, index as int, rep);
            }
        }
    }

    /// Goes on with the tick from the extension at `cursor`: invokes the
    /// first one from there on that has a number left for a handle, or ends
    /// the tick.
    fn invoke_from(&mut self, cursor: usize, commands: Commands) -> (action: Action)
        requires
            old(self)@.window is None,
            old(self)@.current is None,
            forall|i: int|
                cursor <= i < old(self)@.mods.len() ==> (#[trigger] old(self)@.mods[i]).wf()
                    && old(self)@.mods[i].phase is Idle,
        ensures
            final(self)@ == old(self)@.invoked(cursor as int, commands@),
            action@ == old(self)@.invoke_action(cursor as int, commands@),
    {
        let n = self.startup_mods.len();
        let mut next = cursor;
        while next < n
            invariant
                n == self.startup_mods@.len(),
                self@.window is None,
                self@.current is None,
                forall|i: int|
                    next <= i < self@.mods.len() ==> (#[trigger] self@.mods[i]).wf()
                        && self@.mods[i].phase is Idle,
                self@.invoked(next as int, commands@) == old(self)@.invoked(
                    cursor as int,
                    commands@,
                ),
                self@.invoke_action(next as int, commands@) == old(self)@.invoke_action(
                    cursor as int,
                    commands@,
                ),
            decreases n - next,
        {
            let ghost before = self@;
            let startup_mod = &mut self.startup_mods[next];
            match startup_mod.allocate_handle() {
                Some(_) => {
                    let handle = startup_mod.open_window(&mut self.commands_mutex, commands);
                    self.current = Some(next);
                    assert(self@.mods =~= before.invoked(next as int, commands@).mods);
                    return Action::Call { index: next, handle };
                },
                None => {
                    assert(self@.mods =~= before.passed_over(next as int).mods);
                    next = next + 1;
                },
            }
        }
        Action::Done { commands }
    }

    /// Begins a tick with the host's queue `commands`.
    ///
    /// Every extension is made ready, and the first one's invocation is
    /// started: its handle allocated and the window opened on `commands`.
    /// An extension whose table has no number left for a handle is passed
    /// over: it is `Completed` with [`Outcome::OutOfHandles`] and the tick
    /// goes on with the one after it. With no extension to invoke the tick
    /// is over at once.
    ///
    /// A tick must not begin while a call is under way; the caller rules
    /// that out.
    pub fn begin_tick(&mut self, commands: Commands) -> (action: Action)
        requires
            old(self)@.wf(),
            old(self)@.current is None,
        ensures
            final(self)@ == old(self)@.begun(commands@),
            action@ == old(self)@.begin_action(commands@),
            final(self)@.wf(),
    {
        let n = self.startup_mods.len();
        let mut i: usize = 0;
        while i < n
            invariant
                i <= n,
                n == self.startup_mods@.len(),
                n == old(self).startup_mods@.len(),
                self.commands_mutex@ == old(self).commands_mutex@,
                self.current == old(self).current,
                old(self)@.wf(),
                old(self)@.current is None,
                forall|j: int|
                    0 <= j < i ==> (#[trigger] self.startup_mods@[j])@ == old(
                        self,
                    ).startup_mods@[j]@.rested(),
                forall|j: int|
                    i <= j < n ==> (#[trigger] self.startup_mods@[j])@ == old(
                        self,
                    ).startup_mods@[j]@,
            decreases n - i,
        {
            assert(old(self)@.mods[i as int].at_rest());
            let startup_mod = &mut self.startup_mods[i];
            startup_mod.reset();
            i = i + 1;
        }
        assert(self@ == old(self)@.rested()) by {
            assert(self@.mods =~= old(self)@.rested().mods);
        }
        proof {
            law_begin_tick_keeps_valid(old(self)@, commands@);
        }
        self.invoke_from(0, commands)
    }

    /// Takes note that the call under way is over, with `result` as the
    /// extension's message or the description of its fault.
    ///
    /// The window is closed and the handle released whatever `result` is;
    /// then the next extension's invocation is started, whether this one
    /// failed or not, or the tick ends. Extensions with no number left for
    /// a handle are passed over as in [`StartupMods::begin_tick`].
    ///
    /// There is a call under way; the caller sees to that.
    pub fn call_returned(&mut self, result: Result<String, String>) -> (completion: Completion)
        requires
            old(self)@.wf(),
            old(self)@.current is Some,
        ensures
            completion.report == report_of(result),
            completion.next@ == old(self)@.return_action(outcome_of(result)),
            final(self)@ == old(self)@.returned(outcome_of(result)),
            final(self)@.wf(),
    {
        let current = match self.current {
            Some(current) => current,
            None => unreached(),
        };
        proof {
            law_call_returned_keeps_valid(old(self)@, outcome_of(result));
        }
        let n = self.startup_mods.len();
        assert(current < n);
        let startup_mod = &mut self.startup_mods[current];
        let (report, commands) = startup_mod.complete(&mut self.commands_mutex, result);
        self.current = None;
        assert(self@ == old(self)@.closed(outcome_of(result))) by {
            assert(self@.mods =~= old(self)@.closed(outcome_of(result)).mods);
        }
        let commands = match commands {
            Some(commands) => commands,
            None => unreached(),
        };
        let next = self.invoke_from(current + 1, commands);
        Completion { report, next }
    }
}

} // verus!
