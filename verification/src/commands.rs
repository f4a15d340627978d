//! The capability that extensions may affect: a queue of deferred mutations.

use vstd::prelude::*;

verus! {

/// One mutation that the host permits an extension to request.
///
/// The set is closed: an extension can ask for nothing that is not listed
/// here.
#[derive(Clone, Copy, Debug, PartialEq, Eq, Structural)]
pub enum Mutation {
    /// Spawn an entity with the default composition.
    SpawnEmpty,
}

/// The queue `recorded` with one more spawn request behind it.
pub open spec fn with_spawn(recorded: Seq<Mutation>) -> Seq<Mutation> {
    recorded.push(Mutation::SpawnEmpty)
}

/// The host's command queue.
///
/// It records mutations in the order in which they were requested. The host
/// owns it and applies what it holds once no extension can reach it any more.
/// Its view is the sequence of recorded mutations, oldest first.
#[derive(Debug)]
pub struct Commands {
    queue: Vec<Mutation>,
}

impl View for Commands {
    type V = Seq<Mutation>;

    closed spec fn view(&self) -> Seq<Mutation> {
        self.queue@
    }
}

impl Commands {
    /// An empty queue.
    pub fn new() -> (commands: Self)
        ensures
            commands@ == Seq::<Mutation>::empty(),
    {
        Commands { queue: Vec::new() }
    }

    /// Records a request to spawn an entity with the default composition,
    /// behind everything recorded so far.
    pub fn spawn_empty(&mut self)
        ensures
            final(self)@ == with_spawn(old(self)@),
    {
        self.queue.push(Mutation::SpawnEmpty);
    }

    /// The number of recorded mutations.
    pub fn len(&self) -> (n: usize)
        ensures
            n == self@.len(),
    {
        self.queue.len()
    }

    /// Whether nothing has been recorded.
    pub fn is_empty(&self) -> (b: bool)
        ensures
            b == (self@.len() == 0),
    {
        self.queue.len() == 0
    }

    /// The `i`-th recorded mutation, counting from the oldest, or `None`
    /// where fewer were recorded.
    pub fn get(&self, i: usize) -> (m: Option<Mutation>)
        ensures
            m == (if i < self@.len() {
                Some(self@[i as int])
            } else {
                None
            }),
    {
        if i < self.queue.len() {
            Some(self.queue[i])
        } else {
            None
        }
    }

    /// The recorded mutations, oldest first.
    pub fn mutations(&self) -> (recorded: &Vec<Mutation>)
        ensures
            recorded@ == self@,
    {
        &self.queue
    }
}

} // verus!
