//! What holds of the bridge in every state, proved over its mathematical
//! model.

use crate::commands::Mutation;
use crate::error::BridgeError;
use crate::handle_table::{
    issued_after_allocate, lemma_valid_table_allocates_in_order, live_after_allocate, next_free,
    resolves, table_wf, Handle,
};
use crate::startup_mod::{ModView, Outcome, Phase};
use crate::startup_mods::{ActionView, HostCall, ModsView};
use vstd::prelude::*;

verus! {

/// A freshly allocated handle was not live before, and its number was never
/// given out before: no two proxies ever share a handle.
pub proof fn law_allocated_handle_is_fresh(live: Set<u32>, issued: nat, rep: u32)
    requires
        next_free(live, issued, rep),
    ensures
        !live.contains(rep),
        rep >= issued,
        resolves(live, rep) == Err::<(), BridgeError>(BridgeError::UnknownHandle),
        resolves(live.insert(rep), rep) == Ok::<(), BridgeError>(()),
{
}

/// Once released, a handle resolves no more, whatever else was live.
pub proof fn law_released_handle_is_unknown(live: Set<u32>, rep: u32)
    ensures
        resolves(live.remove(rep), rep) == Err::<(), BridgeError>(BridgeError::UnknownHandle),
{
}

/// One change to a table of handles.
pub enum TableOp {
    /// A handle is allocated.
    Allocate,
    /// The handle with this number is released.
    Release(u32),
    /// The numbers below this one are taken out of use.
    Retire(u32),
}

/// The live handles after `op`, in a table whose live handles were `live` and
/// that had given out the numbers below `issued`.
pub open spec fn live_after(live: Set<u32>, issued: nat, op: TableOp) -> Set<u32> {
    match op {
        TableOp::Allocate => live_after_allocate(live, issued),
        TableOp::Release(rep) => live.remove(rep),
        TableOp::Retire(_) => live,
    }
}

/// How many numbers are out of use after `op`.
pub open spec fn issued_after(live: Set<u32>, issued: nat, op: TableOp) -> nat {
    match op {
        TableOp::Allocate => issued_after_allocate(live, issued),
        TableOp::Release(_) => issued,
        TableOp::Retire(rep) => if issued < rep {
            rep as nat
        } else {
            issued
        },
    }
}

/// The live handles after `ops`, one after the other.
pub open spec fn live_after_all(live: Set<u32>, issued: nat, ops: Seq<TableOp>) -> Set<u32>
    decreases ops.len(),
{
    if ops.len() == 0 {
        live
    } else {
        live_after(
            live_after_all(live, issued, ops.drop_last()),
            issued_after_all(live, issued, ops.drop_last()),
            ops.last(),
        )
    }
}

/// How many numbers are out of use after `ops`, one after the other.
pub open spec fn issued_after_all(live: Set<u32>, issued: nat, ops: Seq<TableOp>) -> nat
    decreases ops.len(),
{
    if ops.len() == 0 {
        issued
    } else {
        issued_after(
            live_after_all(live, issued, ops.drop_last()),
            issued_after_all(live, issued, ops.drop_last()),
            ops.last(),
        )
    }
}

/// A handle that a valid table gave out and that is live no more stays
/// unknown for good: whatever is allocated, released and retired afterwards,
/// it never resolves again. So does every handle once it is released.
pub proof fn law_released_handle_stays_unknown(
    live: Set<u32>,
    issued: nat,
    rep: u32,
    ops: Seq<TableOp>,
)
    requires
        table_wf(live, issued),
        rep < issued,
    ensures
        table_wf(
            live_after_all(live.remove(rep), issued, ops),
            issued_after_all(live.remove(rep), issued, ops),
        ),
        rep < issued_after_all(live.remove(rep), issued, ops),
        resolves(live_after_all(live.remove(rep), issued, ops), rep) == Err::<(), BridgeError>(
            BridgeError::UnknownHandle,
        ),
    decreases ops.len(),
{
    if ops.len() > 0 {
        let earlier = ops.drop_last();
        law_released_handle_stays_unknown(live, issued, rep, earlier);
        lemma_valid_table_allocates_in_order(
            live_after_all(live.remove(rep), issued, earlier),
            issued_after_all(live.remove(rep), issued, earlier),
        );
    }
}

/// With no window open a spawn request never succeeds and records nothing.
pub proof fn law_no_window_no_spawn(startup_mod: ModView, handle: Handle)
    ensures
        startup_mod.spawn_result(None, handle) is Err,
        startup_mod.spawn_window(None, handle) is None,
{
}

/// Dropping a handle keeps an extension valid, and the handle is unknown
/// from then on.
pub proof fn law_dropped_handle_is_unknown(
    startup_mod: ModView,
    window: Option<Seq<Mutation>>,
    handle: Handle,
)
    requires
        startup_mod.wf(),
    ensures
        startup_mod.dropped(handle).wf(),
        startup_mod.dropped(handle).spawn_result(window, handle) == Err::<(), BridgeError>(
            BridgeError::UnknownHandle,
        ),
        startup_mod.dropped(handle).drop_result(handle) == Err::<(), BridgeError>(
            BridgeError::UnknownHandle,
        ),
{
    if startup_mod.handle() is None {
        assert(startup_mod.dropped(handle).live =~= Set::<u32>::empty());
    }
}

/// When an invocation is completed no handle of the extension is live any
/// more: whatever the extension kept resolves to nothing.
pub proof fn law_completed_leaves_no_handle(startup_mod: ModView, outcome: Outcome)
    requires
        startup_mod.wf(),
        startup_mod.phase is WindowOpen,
    ensures
        startup_mod.completed(outcome).wf(),
        startup_mod.completed(outcome).phase == Phase::Completed(outcome),
        startup_mod.completed(outcome).live == Set::<u32>::empty(),
        startup_mod.completed(outcome).issued == startup_mod.issued,
        forall|handle: Handle, window: Option<Seq<Mutation>>|
            #[trigger] startup_mod.completed(outcome).spawn_result(window, handle) == Err::<
                (),
                BridgeError,
            >(BridgeError::UnknownHandle),
{
    assert(startup_mod.completed(outcome).live =~= Set::<u32>::empty());
}

/// An idle, valid extension that has a number left is given a handle that
/// it was never given before, and is valid with its window open. One that
/// has no number left is `Completed` at once, with no handle.
pub proof fn law_invocation_starts_valid(startup_mod: ModView)
    requires
        startup_mod.wf(),
        startup_mod.phase is Idle,
    ensures
        startup_mod.allocated().wf(),
        startup_mod.allocated().opened().wf(),
        !startup_mod.out_of_handles() ==> {
            &&& startup_mod.next_handle().rep == startup_mod.issued
            &&& startup_mod.allocated().opened().phase == Phase::WindowOpen(
                startup_mod.next_handle(),
            )
            &&& startup_mod.allocated().opened().live == set![startup_mod.next_handle().rep]
            &&& startup_mod.allocated().opened().issued == startup_mod.issued + 1
        },
        startup_mod.out_of_handles() ==> {
            &&& startup_mod.allocated().phase == Phase::Completed(Outcome::OutOfHandles)
            &&& startup_mod.allocated().live == Set::<u32>::empty()
            &&& startup_mod.allocated().issued == startup_mod.issued
        },
{
}

/// Loading an extension keeps the registry valid.
pub proof fn law_load_keeps_valid(mods: ModsView)
    requires
        mods.wf(),
    ensures
        mods.loaded().wf(),
{
}

/// Taking numbers out of use keeps the registry valid.
pub proof fn law_retire_keeps_valid(mods: ModsView, index: int, rep: u32)
    requires
        mods.wf(),
    ensures
        mods.retired(index, rep).wf(),
{
}

/// A spawn request keeps the registry valid and touches nothing but the
/// lent queue.
pub proof fn law_spawn_stuff_keeps_valid(mods: ModsView, index: int, handle: Handle)
    requires
        mods.wf(),
    ensures
        mods.after_spawn_stuff(index, handle).wf(),
        mods.after_spawn_stuff(index, handle).mods == mods.mods,
        mods.after_spawn_stuff(index, handle).current == mods.current,
{
}

/// Dropping a handle keeps the registry valid and leaves the lent queue as
/// it is.
pub proof fn law_drop_keeps_valid(mods: ModsView, index: int, handle: Handle)
    requires
        mods.wf(),
    ensures
        mods.after_drop(index, handle).wf(),
        mods.after_drop(index, handle).window == mods.window,
        mods.after_drop(index, handle).current == mods.current,
{
    if mods.has(index) {
        law_dropped_handle_is_unknown(mods.mods[index], mods.window, handle);
    }
}

/// Only the extension being called can have a live handle: every request
/// of any other is refused, whatever handle it kept.
pub proof fn law_handles_end_with_the_call(mods: ModsView, index: int, handle: Handle)
    requires
        mods.wf(),
        mods.current != Some(index),
    ensures
        mods.spawn_stuff_result(index, handle) == Err::<(), BridgeError>(
            BridgeError::UnknownHandle,
        ),
        mods.drop_result(index, handle) == Err::<(), BridgeError>(BridgeError::UnknownHandle),
        mods.after_spawn_stuff(index, handle) == mods,
{
}

/// Whether the registry stands between two invocations of a tick, with the
/// extension at `cursor` next in turn: no call is under way, the extensions
/// before `cursor` are `Completed` and those from it on `Idle`.
pub open spec fn in_turn(mods: ModsView, cursor: int) -> bool {
    &&& mods.window is None
    &&& mods.current is None
    &&& 0 <= cursor <= mods.mods.len()
    &&& forall|i: int|
        0 <= i < mods.mods.len() ==> (#[trigger] mods.mods[i]).wf() && if i < cursor {
            mods.mods[i].phase is Completed
        } else {
            mods.mods[i].phase is Idle
        }
}

/// Whether the extension `after` is `before` with no number brought back
/// into use: nothing that was out of use is in use again, and whatever is
/// live now either was live before or was not out of use then.
pub open spec fn numbers_stay_out_of_use(before: ModView, after: ModView) -> bool {
    &&& before.issued <= after.issued
    &&& forall|rep: u32|
        after.live.contains(rep) ==> before.live.contains(rep) || rep >= before.issued
}

/// Going on with a tick keeps the registry valid. The extension invoked is
/// the first one in turn that has a number left; it is given a handle that
/// it was never given before, and the queue is lent to it. The extensions in
/// turn before it are passed over. Where none is left to invoke, the queue
/// goes back to the host, the slot is empty and every extension is
/// `Completed`.
pub proof fn law_invocation_keeps_valid(mods: ModsView, cursor: int, commands: Seq<Mutation>)
    requires
        in_turn(mods, cursor),
    ensures
        mods.invoked(cursor, commands).wf(),
        mods.invoked(cursor, commands).mods.len() == mods.mods.len(),
        forall|i: int|
            0 <= i < mods.mods.len() ==> numbers_stay_out_of_use(
                #[trigger] mods.mods[i],
                mods.invoked(cursor, commands).mods[i],
            ),
        forall|i: int|
            0 <= i < cursor ==> (#[trigger] mods.invoked(cursor, commands).mods[i])
                == mods.mods[i],
        match mods.invoke_action(cursor, commands) {
            ActionView::Call { index, handle } => {
                &&& cursor <= index < mods.mods.len()
                &&& mods.invoked(cursor, commands).current == Some(index)
                &&& mods.invoked(cursor, commands).window == Some(commands)
                &&& handle == mods.mods[index].next_handle()
                &&& handle.rep == mods.mods[index].issued
                &&& mods.invoked(cursor, commands).mods[index].phase == Phase::WindowOpen(handle)
                &&& forall|i: int|
                    cursor <= i < index ==> (#[trigger] mods.invoked(cursor, commands).mods[i])
                        == mods.mods[i].allocated() && mods.mods[i].out_of_handles()
            },
            ActionView::Done { commands: back } => {
                &&& back == commands
                &&& mods.invoked(cursor, commands).current is None
                &&& mods.invoked(cursor, commands).window is None
                &&& forall|i: int|
                    0 <= i < mods.mods.len() ==> (#[trigger] mods.invoked(
                        cursor,
                        commands,
                    ).mods[i]).phase is Completed
            },
        },
    decreases mods.mods.len() - cursor,
{
    if mods.has(cursor) {
        law_invocation_starts_valid(mods.mods[cursor]);
        if mods.mods[cursor].out_of_handles() {
            let passed = mods.passed_over(cursor);
            law_invocation_keeps_valid(passed, cursor + 1, commands);
            assert forall|i: int| 0 <= i < mods.mods.len() implies numbers_stay_out_of_use(
                #[trigger] mods.mods[i],
                mods.invoked(cursor, commands).mods[i],
            ) by {
                assert(numbers_stay_out_of_use(
                    passed.mods[i],
                    passed.invoked(cursor + 1, commands).mods[i],
                ));
            }
        }
    }
}

/// Beginning a tick keeps the registry valid, and goes on from the first
/// extension as [`law_invocation_keeps_valid`] says.
pub proof fn law_begin_tick_keeps_valid(mods: ModsView, commands: Seq<Mutation>)
    requires
        mods.wf(),
        mods.current is None,
    ensures
        in_turn(mods.rested(), 0),
        mods.begun(commands).wf(),
        mods.begun(commands).mods.len() == mods.mods.len(),
        forall|i: int|
            0 <= i < mods.mods.len() ==> numbers_stay_out_of_use(
                #[trigger] mods.mods[i],
                mods.begun(commands).mods[i],
            ),
        mods.mods.len() == 0 ==> {
            &&& mods.begun(commands) == mods
            &&& mods.begin_action(commands) == (ActionView::Done { commands })
        },
{
    let rested = mods.rested();
    law_invocation_keeps_valid(rested, 0, commands);
    if mods.mods.len() == 0 {
        assert(rested.mods =~= mods.mods);
    }
}

/// The end of a call keeps the registry valid, whatever its outcome: the
/// extension called is `Completed` with no handle left, and the tick goes
/// on from the one after it as [`law_invocation_keeps_valid`] says, with
/// the queue as the call left it.
pub proof fn law_call_returned_keeps_valid(mods: ModsView, outcome: Outcome)
    requires
        mods.wf(),
        mods.current is Some,
    ensures
        in_turn(mods.closed(outcome), mods.current->0 + 1),
        mods.returned(outcome).wf(),
        mods.returned(outcome).mods.len() == mods.mods.len(),
        mods.returned(outcome).mods[mods.current->0].phase == Phase::Completed(outcome),
        mods.returned(outcome).mods[mods.current->0].live == Set::<u32>::empty(),
        forall|i: int|
            0 <= i < mods.mods.len() ==> numbers_stay_out_of_use(
                #[trigger] mods.mods[i],
                mods.returned(outcome).mods[i],
            ),
        match mods.return_action(outcome) {
            ActionView::Call { index, handle } => {
                &&& mods.current->0 < index < mods.mods.len()
                &&& mods.returned(outcome).current == Some(index)
                &&& mods.returned(outcome).window == mods.window
                &&& handle.rep == mods.mods[index].issued
            },
            ActionView::Done { commands } => {
                &&& commands == mods.window->0
                &&& mods.returned(outcome).current is None
                &&& mods.returned(outcome).window is None
                &&& forall|i: int|
                    0 <= i < mods.mods.len() ==> (#[trigger] mods.returned(outcome).mods[i]).phase
                        is Completed
            },
        },
{
    let current = mods.current->0;
    let closed = mods.closed(outcome);
    law_completed_leaves_no_handle(mods.mods[current], outcome);
    law_invocation_keeps_valid(closed, current + 1, mods.window->0);
    assert forall|i: int| 0 <= i < mods.mods.len() implies numbers_stay_out_of_use(
        #[trigger] mods.mods[i],
        mods.returned(outcome).mods[i],
    ) by {
        assert(numbers_stay_out_of_use(
            closed.mods[i],
            closed.invoked(current + 1, mods.window->0).mods[i],
        ));
    }
}

/// Any request of any extension keeps the registry valid and leaves the tick
/// where it stands. It touches the lent queue only by appending what it
/// records, and with no window open it is refused.
pub proof fn law_host_call_appends(mods: ModsView, index: int, call: HostCall)
    requires
        mods.wf(),
    ensures
        mods.after_call(index, call).wf(),
        mods.after_call(index, call).current == mods.current,
        mods.after_call(index, call).mods.len() == mods.mods.len(),
        mods.after_call(index, call).window == (match mods.window {
            Some(queue) => Some(queue + mods.recorded_by(index, call)),
            None => None,
        }),
        mods.window is None ==> mods.call_result(index, call) is Err,
{
    match call {
        HostCall::SpawnStuff(handle) => law_spawn_stuff_keeps_valid(mods, index, handle),
        HostCall::Drop(handle) => law_drop_keeps_valid(mods, index, handle),
    }
}

/// Whatever requests the extensions make while a window is open, and in
/// whatever order, the lent queue afterwards is the queue as it was lent
/// followed by what the requests recorded, in the order of the requests.
/// While no window is open no request records anything.
pub proof fn law_requests_are_recorded_in_call_order(mods: ModsView, calls: Seq<(int, HostCall)>)
    requires
        mods.wf(),
    ensures
        mods.after_calls(calls).wf(),
        mods.after_calls(calls).current == mods.current,
        mods.after_calls(calls).mods.len() == mods.mods.len(),
        mods.after_calls(calls).window == (match mods.window {
            Some(queue) => Some(queue + mods.recorded(calls)),
            None => None,
        }),
        mods.window is None ==> mods.recorded(calls) == Seq::<Mutation>::empty(),
    decreases calls.len(),
{
    if calls.len() > 0 {
        let earlier = calls.drop_last();
        let before = mods.after_calls(earlier);
        law_requests_are_recorded_in_call_order(mods, earlier);
        law_host_call_appends(before, calls.last().0, calls.last().1);
        if mods.window is Some {
            let queue = mods.window->0;
            let last = before.recorded_by(calls.last().0, calls.last().1);
            assert((queue + mods.recorded(earlier)) + last =~= queue + (mods.recorded(earlier)
                + last));
        }
    }
}

/// When the call under way returns, the queue goes on exactly as the
/// extension's requests left it: to the next extension's window, or back to
/// the host where the tick ends.
pub proof fn law_window_closes_with_requests_applied(
    mods: ModsView,
    calls: Seq<(int, HostCall)>,
    outcome: Outcome,
)
    requires
        mods.wf(),
        mods.current is Some,
    ensures
        mods.after_calls(calls).returned(outcome).wf(),
        match mods.after_calls(calls).return_action(outcome) {
            ActionView::Call { index, handle } => mods.after_calls(calls).returned(
                outcome,
            ).window == Some(mods.window->0 + mods.recorded(calls)),
            ActionView::Done { commands } => {
                &&& commands == mods.window->0 + mods.recorded(calls)
                &&& mods.after_calls(calls).returned(outcome).window is None
            },
        },
{
    law_requests_are_recorded_in_call_order(mods, calls);
    law_call_returned_keeps_valid(mods.after_calls(calls), outcome);
}

/// A spawn request through the live handle of the extension being called is
/// granted every time: `count` of them in a row record `count` spawns.
pub proof fn law_each_spawn_is_recorded(mods: ModsView, handle: Handle, count: nat)
    requires
        mods.wf(),
        mods.current is Some,
        mods.mods[mods.current->0].live.contains(handle.rep),
    ensures
        mods.recorded(Seq::new(count, |i: int| (mods.current->0, HostCall::SpawnStuff(handle))))
            == Seq::new(count, |i: int| Mutation::SpawnEmpty),
        mods.after_calls(
            Seq::new(count, |i: int| (mods.current->0, HostCall::SpawnStuff(handle))),
        ).mods == mods.mods,
    decreases count,
{
    let calls = Seq::new(count, |i: int| (mods.current->0, HostCall::SpawnStuff(handle)));
    if count > 0 {
        let fewer = (count - 1) as nat;
        let earlier = Seq::new(fewer, |i: int| (mods.current->0, HostCall::SpawnStuff(handle)));
        assert(calls.drop_last() =~= earlier);
        law_each_spawn_is_recorded(mods, handle, fewer);
        law_requests_are_recorded_in_call_order(mods, earlier);
    }
}

/// One thing that can happen to the registry.
pub enum Op {
    /// An extension is loaded.
    Load,
    /// Numbers are taken out of use for the extension at the index.
    Retire(int, u32),
    /// A tick begins with the given queue.
    BeginTick(Seq<Mutation>),
    /// The extension at the index makes a request of the host.
    Request(int, HostCall),
    /// The call under way returns with the outcome.
    CallReturned(Outcome),
}

/// The registry with nothing loaded and no tick under way.
pub open spec fn initial() -> ModsView {
    ModsView { mods: Seq::<ModView>::empty(), window: None, current: None }
}

/// Whether `op` can happen in the state `mods`: a tick begins only while no
/// call is under way, and a call returns only while one is.
pub open spec fn admits(mods: ModsView, op: Op) -> bool {
    match op {
        Op::BeginTick(_) => mods.current is None,
        Op::CallReturned(_) => mods.current is Some,
        _ => true,
    }
}

/// The registry after `op`; one that cannot happen changes nothing.
pub open spec fn after_op(mods: ModsView, op: Op) -> ModsView {
    if !admits(mods, op) {
        mods
    } else {
        match op {
            Op::Load => mods.loaded(),
            Op::Retire(index, rep) => mods.retired(index, rep),
            Op::BeginTick(commands) => mods.begun(commands),
            Op::Request(index, call) => mods.after_call(index, call),
            Op::CallReturned(outcome) => mods.returned(outcome),
        }
    }
}

/// The registry after `ops`, one after the other.
pub open spec fn after_ops(mods: ModsView, ops: Seq<Op>) -> ModsView
    decreases ops.len(),
{
    if ops.len() == 0 {
        mods
    } else {
        after_op(after_ops(mods, ops.drop_last()), ops.last())
    }
}

/// Whatever happens to a valid registry it stays valid, no extension is
/// unloaded, and no extension's number that was out of use comes back into
/// use.
pub proof fn law_every_step_keeps_valid(mods: ModsView, op: Op)
    requires
        mods.wf(),
    ensures
        after_op(mods, op).wf(),
        after_op(mods, op).mods.len() >= mods.mods.len(),
        forall|i: int|
            0 <= i < mods.mods.len() ==> numbers_stay_out_of_use(
                #[trigger] mods.mods[i],
                after_op(mods, op).mods[i],
            ),
{
    if admits(mods, op) {
        match op {
            Op::Load => law_load_keeps_valid(mods),
            Op::Retire(index, rep) => law_retire_keeps_valid(mods, index, rep),
            Op::BeginTick(commands) => law_begin_tick_keeps_valid(mods, commands),
            Op::Request(index, call) => law_host_call_appends(mods, index, call),
            Op::CallReturned(outcome) => law_call_returned_keeps_valid(mods, outcome),
        }
    }
}

/// Whatever happens to a valid registry, in whatever order, it stays valid.
pub proof fn law_every_history_keeps_valid(mods: ModsView, ops: Seq<Op>)
    requires
        mods.wf(),
    ensures
        after_ops(mods, ops).wf(),
        after_ops(mods, ops).mods.len() >= mods.mods.len(),
    decreases ops.len(),
{
    if ops.len() > 0 {
        law_every_history_keeps_valid(mods, ops.drop_last());
        law_every_step_keeps_valid(after_ops(mods, ops.drop_last()), ops.last());
    }
}

/// Whether `handle` is spent for the extension at `index`: its number was
/// given out and it is live no more.
pub open spec fn spent(mods: ModsView, index: int, handle: Handle) -> bool {
    &&& mods.has(index)
    &&& handle.rep < mods.mods[index].issued
    &&& !mods.mods[index].live.contains(handle.rep)
}

/// A spent handle is refused for good. Whatever happens afterwards, in
/// whatever order and however many ticks later, every request through it is
/// answered with `UnknownHandle` and changes nothing: no later invocation of
/// the extension is given its number again.
pub proof fn law_spent_handle_is_refused_for_good(
    mods: ModsView,
    ops: Seq<Op>,
    index: int,
    handle: Handle,
)
    requires
        mods.wf(),
        spent(mods, index, handle),
    ensures
        after_ops(mods, ops).wf(),
        spent(after_ops(mods, ops), index, handle),
        after_ops(mods, ops).spawn_stuff_result(index, handle) == Err::<(), BridgeError>(
            BridgeError::UnknownHandle,
        ),
        after_ops(mods, ops).drop_result(index, handle) == Err::<(), BridgeError>(
            BridgeError::UnknownHandle,
        ),
        after_ops(mods, ops).after_spawn_stuff(index, handle) == after_ops(mods, ops),
    decreases ops.len(),
{
    if ops.len() > 0 {
        let before = after_ops(mods, ops.drop_last());
        law_spent_handle_is_refused_for_good(mods, ops.drop_last(), index, handle);
        law_every_step_keeps_valid(before, ops.last());
    }
}

/// The handle that an extension was called with is spent as soon as the call
/// returns, so it is refused from then on, in the rest of the tick and in
/// every later one.
pub proof fn law_kept_handle_is_refused_for_good(mods: ModsView, outcome: Outcome, ops: Seq<Op>)
    requires
        mods.wf(),
        mods.current is Some,
    ensures
        mods.mods[mods.current->0].handle() is Some,
        after_ops(mods.returned(outcome), ops).spawn_stuff_result(
            mods.current->0,
            mods.mods[mods.current->0].handle()->0,
        ) == Err::<(), BridgeError>(BridgeError::UnknownHandle),
        after_ops(mods.returned(outcome), ops).drop_result(
            mods.current->0,
            mods.mods[mods.current->0].handle()->0,
        ) == Err::<(), BridgeError>(BridgeError::UnknownHandle),
{
    let index = mods.current->0;
    let handle = mods.mods[index].handle()->0;
    law_call_returned_keeps_valid(mods, outcome);
    law_spent_handle_is_refused_for_good(mods.returned(outcome), ops, index, handle);
}

/// After any history, starting with nothing loaded: while no window is open,
/// every request of every extension is refused and changes nothing, and no
/// extension has a live handle.
pub proof fn law_outside_a_window_every_request_fails(ops: Seq<Op>, index: int, call: HostCall)
    requires
        after_ops(initial(), ops).window is None,
    ensures
        after_ops(initial(), ops).call_result(index, call) is Err,
        after_ops(initial(), ops).after_call(index, call) == after_ops(initial(), ops),
        forall|i: int|
            0 <= i < after_ops(initial(), ops).mods.len() ==> (#[trigger] after_ops(
                initial(),
                ops,
            ).mods[i]).live == Set::<u32>::empty(),
{
    let mods = after_ops(initial(), ops);
    law_every_history_keeps_valid(initial(), ops);
    law_host_call_appends(mods, index, call);
    if mods.has(index) {
        assert(mods.after_call(index, call).mods =~= mods.mods);
    }
}

/// After any history, starting with nothing loaded: the slot holds the
/// queue exactly while a call is under way.
pub proof fn law_window_is_open_exactly_during_a_call(ops: Seq<Op>)
    ensures
        after_ops(initial(), ops).window is Some <==> after_ops(initial(), ops).current is Some,
{
    law_every_history_keeps_valid(initial(), ops);
}

} // verus!
