//! An ordered cursor over the endpoints of a cluster.

use vstd::prelude::*;

verus! {

/// Hands out the endpoints of a cluster one at a time, in the order they were given.
///
/// The sequencer is viewed as the sequence of endpoints it has not handed out yet,
/// the next one first.
pub struct EndpointSequencer<M> {
    /// The endpoints still to hand out, the next one last.
    stack: Vec<M>,
}

impl<M> View for EndpointSequencer<M> {
    type V = Seq<M>;

    closed spec fn view(&self) -> Seq<M> {
        self.stack@.reverse()
    }
}

impl<M> EndpointSequencer<M> {
    /// Starts a cursor at the first of `endpoints`.
    pub fn new(endpoints: Vec<M>) -> (sequencer: Self)
        ensures
            sequencer@ == endpoints@,
    {
        let ghost given = endpoints@;
        let mut source = endpoints;
        let mut stack: Vec<M> = Vec::with_capacity(source.len());
        loop
            invariant
                source@ == given.take(source@.len() as int),
                source@.len() <= given.len(),
                stack@ == given.skip(source@.len() as int).reverse(),
            ensures
                source@.len() == 0,
            decreases source@.len(),
        {
            match source.pop() {
                Some(endpoint) => {
                    stack.push(endpoint);
                },
                None => {
                    break ;
                },
            }
        }
        EndpointSequencer { stack }
    }

    /// Hands out the next endpoint, or `None` once every endpoint has been handed out.
    pub fn next(&mut self) -> (endpoint: Option<M>)
        ensures
            old(self)@.len() > 0 ==> endpoint == Some(old(self)@.first()) && final(self)@
                == old(self)@.drop_first(),
            old(self)@.len() == 0 ==> endpoint is None && final(self)@ == old(self)@,
    {
        self.stack.pop()
    }

    /// The number of endpoints not handed out yet.
    pub fn remaining(&self) -> (count: usize)
        ensures
            count == self@.len(),
    {
        self.stack.len()
    }
}

} // verus!
