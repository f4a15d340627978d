//! Handles, the proxies they name, and the table that maps one to the other.

use crate::commands::{with_spawn, Commands, Mutation};
use crate::error::BridgeError;
use crate::ref_mutex::RefMutMutex;
use std::collections::HashMap;
use vstd::prelude::*;

verus! {

broadcast use vstd::std_specs::hash::group_hash_axioms;

/// The integer by which an extension names a proxy.
///
/// A handle carries no authority of its own: it is a number that the
/// extension's [`HandleTable`] resolves, or refuses.
#[derive(Clone, Copy, Debug, PartialEq, Eq, Structural)]
pub struct Handle {
    /// The number that the extension sees.
    pub rep: u32,
}

impl Handle {
    /// The handle with representation `rep`.
    pub fn new_own(rep: u32) -> (handle: Handle)
        ensures
            handle.rep == rep,
    {
        Handle { rep }
    }

    /// The number that the extension sees.
    pub fn rep(&self) -> (rep: u32)
        ensures
            rep == self.rep,
    {
        self.rep
    }
}

/// The proxy registered under a handle. It owns no command queue; it only
/// knows how to reach the one that the shared slot currently holds.
#[derive(Debug)]
pub struct ImplCommands {}

impl ImplCommands {
    /// Records one spawn request on the queue that `commands_mutex` currently
    /// lends out, and reports [`BridgeError::NoActiveWindow`] where it lends
    /// none.
    pub fn spawn_stuff(&self, commands_mutex: &mut RefMutMutex) -> (result: Result<
        (),
        BridgeError,
    >)
        ensures
            final(commands_mutex)@ == after_spawn(old(commands_mutex)@),
            result == (if old(commands_mutex)@ is Some {
                Ok::<(), BridgeError>(())
            } else {
                Err::<(), BridgeError>(BridgeError::NoActiveWindow)
            }),
    {
        let spawn = |commands: &mut Commands|
            ensures
                final(commands)@ == with_spawn(old(commands)@),
            {
                commands.spawn_empty();
            };
        commands_mutex.try_use(spawn)
    }
}

/// What the slot holds after a spawn request reached it: the request is
/// appended to the lent queue, and an empty slot stays empty.
pub open spec fn after_spawn(window: Option<Seq<Mutation>>) -> Option<Seq<Mutation>> {
    match window {
        Some(recorded) => Some(with_spawn(recorded)),
        None => None,
    }
}

/// The number of numbers that a handle can take.
pub open spec fn handle_limit() -> nat {
    0x1_0000_0000
}

/// The validity of a table whose live handles are `live` and that gave out
/// the numbers below `issued`: every live handle was given out.
pub open spec fn table_wf(live: Set<u32>, issued: nat) -> bool {
    &&& issued <= handle_limit()
    &&& forall|rep: u32| live.contains(rep) ==> rep < issued
}

/// Whether `rep` is the number that the next allocation takes from a table
/// whose live handles are `live` and that gave out the numbers below
/// `issued`: the smallest one that was never given out and is not live.
pub open spec fn next_free(live: Set<u32>, issued: nat, rep: u32) -> bool {
    &&& issued <= rep
    &&& !live.contains(rep)
    &&& forall|between: u32| issued <= between < rep ==> live.contains(between)
}

/// The number that the next allocation takes, where one is left. In a valid
/// table it is `issued`: handles are numbered in the order in which they are
/// given out.
pub open spec fn smallest_free(live: Set<u32>, issued: nat) -> u32 {
    choose|rep: u32| next_free(live, issued, rep)
}

/// Whether no number is left for a new handle.
pub open spec fn exhausted(live: Set<u32>, issued: nat) -> bool {
    forall|rep: u32| issued <= rep ==> live.contains(rep)
}

/// The live handles after an allocation.
pub open spec fn live_after_allocate(live: Set<u32>, issued: nat) -> Set<u32> {
    if exhausted(live, issued) {
        live
    } else {
        live.insert(smallest_free(live, issued))
    }
}

/// How many numbers are out of use after an allocation.
pub open spec fn issued_after_allocate(live: Set<u32>, issued: nat) -> nat {
    if exhausted(live, issued) {
        issued
    } else {
        (smallest_free(live, issued) + 1) as nat
    }
}

/// The next allocation's number is determined: it is `smallest_free`.
pub proof fn lemma_next_free_is_smallest_free(live: Set<u32>, issued: nat, rep: u32)
    requires
        next_free(live, issued, rep),
    ensures
        rep == smallest_free(live, issued),
        !exhausted(live, issued),
{
}

/// A valid table numbers its handles in the order in which it gives them
/// out, until the numbers run out, and stays valid.
pub proof fn lemma_valid_table_allocates_in_order(live: Set<u32>, issued: nat)
    requires
        table_wf(live, issued),
    ensures
        exhausted(live, issued) <==> issued == handle_limit(),
        issued < handle_limit() ==> smallest_free(live, issued) == issued,
        table_wf(live_after_allocate(live, issued), issued_after_allocate(live, issued)),
{
    if issued < handle_limit() {
        lemma_next_free_is_smallest_free(live, issued, issued as u32);
    }
}

/// What resolving `rep` reports in a table whose live handles are `live`.
pub open spec fn resolves(live: Set<u32>, rep: u32) -> Result<(), BridgeError> {
    if live.contains(rep) {
        Ok(())
    } else {
        Err(BridgeError::UnknownHandle)
    }
}

/// One extension instance's table of live handles.
///
/// Its view is the set of the numbers of the live handles. Each of them names
/// exactly one proxy. The table also knows which numbers it gave out before:
/// it gives none of them out again, so a handle that was released stays
/// unknown for good.
#[derive(Debug)]
pub struct HandleTable {
    entries: HashMap<u32, ImplCommands>,
    /// The smallest number that was never given out; `None` once every
    /// number was.
    next: Option<u32>,
}

impl View for HandleTable {
    type V = Set<u32>;

    closed spec fn view(&self) -> Set<u32> {
        self.entries@.dom()
    }
}

impl HandleTable {
    /// How many numbers are out of use: the numbers below it were given out
    /// or retired, and are never given out again.
    pub closed spec fn issued(&self) -> nat {
        match self.next {
            Some(next) => next as nat,
            None => handle_limit(),
        }
    }

    /// The validity of the table: every live handle was given out by it.
    /// Every table is valid that was made by [`HandleTable::new`].
    pub open spec fn wf(&self) -> bool {
        table_wf(self@, self.issued())
    }

    /// No more numbers are out of use than there are.
    pub proof fn lemma_issued_is_bounded(&self)
        ensures
            self.issued() <= handle_limit(),
    {
    }

    /// A table with no live handle that never gave one out.
    pub fn new() -> (table: Self)
        ensures
            table@ == Set::<u32>::empty(),
            table.issued() == 0,
            table.wf(),
    {
        HandleTable { entries: HashMap::new(), next: Some(0) }
    }

    /// Whether the number of `handle` is out of use: it was given out or
    /// retired, and no new handle will have it.
    pub fn was_issued(&self, handle: Handle) -> (b: bool)
        ensures
            b == (handle.rep < self.issued()),
    {
        match self.next {
            Some(next) => handle.rep < next,
            None => true,
        }
    }

    /// Takes every number below `rep` out of use: none of them is given out
    /// from now on. The live handles stay as they are.
    pub fn retire_below(&mut self, rep: u32)
        ensures
            final(self)@ == old(self)@,
            final(self).issued() == (if old(self).issued() < rep {
                rep as nat
            } else {
                old(self).issued()
            }),
            old(self).wf() ==> final(self).wf(),
    {
        match self.next {
            Some(next) => {
                if next < rep {
                    self.next = Some(rep);
                }
            },
            None => {},
        }
    }

    /// The number of live handles.
    pub fn len(&self) -> (n: usize)
        ensures
            self@.finite(),
            n == self@.len(),
    {
        self.entries.len()
    }

    /// Whether no handle is live.
    pub fn is_empty(&self) -> (b: bool)
        ensures
            b == (self@ == Set::<u32>::empty()),
    {
        let n = self.entries.len();
        proof {
            if n == 0 {
                assert(self@ =~= Set::<u32>::empty());
            }
        }
        n == 0
    }

    /// Whether `handle` is live.
    pub fn contains(&self, handle: Handle) -> (b: bool)
        ensures
            b == self@.contains(handle.rep),
    {
        self.entries.contains_key(&handle.rep)
    }

    /// Registers a new proxy under a number that this table never gave out
    /// before, and returns the handle; `None`, with the table unchanged,
    /// where no number is left.
    ///
    /// The number is the smallest one that is neither out of use nor live.
    /// In a valid table that is simply the next one: the first handle is 0,
    /// the second 1, and so on, whatever was released in between.
    pub fn allocate(&mut self) -> (handle: Option<Handle>)
        ensures
            match handle {
                Some(h) => next_free(old(self)@, old(self).issued(), h.rep),
                None => exhausted(old(self)@, old(self).issued()),
            },
            final(self)@ == live_after_allocate(old(self)@, old(self).issued()),
            final(self).issued() == issued_after_allocate(old(self)@, old(self).issued()),
            old(self).wf() ==> final(self).wf(),
    {
        let mut rep: u32 = match self.next {
            Some(next) => next,
            None => {
                return None;
            },
        };
        loop
            invariant
                self@ == old(self)@,
                self.next == old(self).next,
                old(self).issued() <= rep,
                forall|between: u32| old(self).issued() <= between < rep ==> self@.contains(between),
            decreases u32::MAX - rep,
        {
            if !self.entries.contains_key(&rep) {
                proof {
                    lemma_next_free_is_smallest_free(self@, old(self).issued(), rep);
                }
                self.entries.insert(rep, ImplCommands {  });
                self.next = if rep == u32::MAX {
                    None
                } else {
                    Some(rep + 1)
                };
                return Some(Handle { rep });
            }
            if rep == u32::MAX {
                return None;
            }
            rep = rep + 1;
        }
    }

    /// Looks up the proxy that `handle` names. A handle that was never
    /// allocated, or was released, gives [`BridgeError::UnknownHandle`].
    pub fn resolve(&self, handle: Handle) -> (proxy: Result<&ImplCommands, BridgeError>)
        ensures
            proxy is Ok <==> resolves(self@, handle.rep) is Ok,
            proxy is Err ==> resolves(self@, handle.rep) == Err::<(), BridgeError>(proxy->Err_0),
    {
        match self.entries.get(&handle.rep) {
            Some(proxy) => Ok(proxy),
            None => Err(BridgeError::UnknownHandle),
        }
    }

    /// Removes `handle` from the table and returns the proxy it named, or
    /// `None` where it was not live. Releasing twice is harmless. The number
    /// stays out of use.
    pub fn release(&mut self, handle: Handle) -> (proxy: Option<ImplCommands>)
        ensures
            final(self)@ == old(self)@.remove(handle.rep),
            final(self).issued() == old(self).issued(),
            proxy is Some <==> old(self)@.contains(handle.rep),
            old(self).wf() ==> final(self).wf(),
    {
        self.entries.remove(&handle.rep)
    }
}

} // verus!
