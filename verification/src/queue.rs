//! A queue of witness values: filled once, then consumed front to back.

use crate::error::GenerationError;
use crate::primitives::U256;
use vstd::prelude::*;

verus! {

/// The witness values that the interpreter has still to consume. They are
/// kept in reverse, so that the value needed next is the last one stored and
/// leaves in constant time.
#[derive(Debug)]
pub struct WitnessQueue {
    reversed: Vec<U256>,
}

/// What a pop gives on a queue with `pending` still to come: its first value,
/// or the report that the queue is exhausted.
pub open spec fn next_of(pending: Seq<U256>) -> Result<U256, GenerationError> {
    if pending.len() > 0 {
        Ok(pending[0])
    } else {
        Err(GenerationError::WitnessQueueExhausted)
    }
}

/// What a pop leaves of a queue with `pending` still to come: all but the
/// first value; an empty queue stays empty.
pub open spec fn rest_of(pending: Seq<U256>) -> Seq<U256> {
    if pending.len() > 0 {
        pending.drop_first()
    } else {
        pending
    }
}

impl View for WitnessQueue {
    type V = Seq<U256>;

    /// The values still to come, the one needed next in front.
    closed spec fn view(&self) -> Seq<U256> {
        self.reversed@.reverse()
    }
}

impl WitnessQueue {
    /// A queue that yields `values` in the order given.
    pub fn new(values: &Vec<U256>) -> (queue: WitnessQueue)
        ensures
            queue@ == values@,
    {
        let mut reversed: Vec<U256> = Vec::new();
        let mut left: usize = values.len();
        while left > 0
            invariant
                left <= values@.len(),
                reversed@.len() == values@.len() - left,
                forall|j: int|
                    0 <= j < reversed@.len() ==> reversed@[j] == values@[values@.len() - 1 - j],
            decreases left,
        {
            left -= 1;
            reversed.push(values[left]);
        }
        assert(reversed@.reverse() =~= values@);
        WitnessQueue { reversed }
    }

    /// The number of values still to come.
    pub fn len(&self) -> (len: usize)
        ensures
            len == self@.len(),
    {
        self.reversed.len()
    }

    /// Takes the next value out of the queue. A queue that holds none stays
    /// as it is and reports that it is exhausted.
    pub fn pop(&mut self) -> (next: Result<U256, GenerationError>)
        ensures
            next == next_of(old(self)@),
            final(self)@ == rest_of(old(self)@),
    {
        match self.reversed.pop() {
            Some(word) => {
                assert(self.reversed@.reverse() =~= old(self).reversed@.reverse().drop_first());
                Ok(word)
            },
            None => Err(GenerationError::WitnessQueueExhausted),
        }
    }
}

} // verus!
