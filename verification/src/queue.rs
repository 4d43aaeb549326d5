//! A bounded first-in first-out queue of 32-bit tokens.
//!
//! Call slots and idle-worker tokens are pooled in such queues. The storage is
//! crossbeam's `ArrayQueue`, reached through its exclusive-reference methods:
//! this crate never shares a queue, so what it holds is a plain sequence.

use crossbeam::queue::ArrayQueue;
use vstd::prelude::*;

verus! {

/// The largest capacity a queue may be created with.
pub const MAX_QUEUE_CAPACITY: usize = 0x7fff_ffff;

/// crossbeam's bounded queue, taken as it is: nothing of its inside is
/// known here.
#[verifier::external_type_specification]
#[verifier::external_body]
#[verifier::reject_recursive_types(T)]
pub struct ExArrayQueue<T>(ArrayQueue<T>);

/// The tokens that an `ArrayQueue<u32>` holds, oldest first.
pub uninterp spec fn queued(queue: ArrayQueue<u32>) -> Seq<u32>;

/// The capacity that an `ArrayQueue<u32>` was created with.
pub uninterp spec fn queue_limit(queue: ArrayQueue<u32>) -> nat;

/// Calls `ArrayQueue::new`. The new queue is empty and keeps the capacity it
/// was given. The outside function panics on a capacity of zero, and on one so
/// large that the next power of two does not fit in a `usize`.
#[verifier::external_body]
fn array_queue_new(capacity: usize) -> (queue: ArrayQueue<u32>)
    requires
        0 < capacity <= MAX_QUEUE_CAPACITY,
    ensures
        queued(queue) == Seq::<u32>::empty(),
        queue_limit(queue) == capacity,
{
    ArrayQueue::new(capacity)
}

/// Calls `ArrayQueue::push_mut`. A full queue hands the token back and stays
/// as it was; otherwise the token is appended behind those already queued.
#[verifier::external_body]
fn array_queue_push(queue: &mut ArrayQueue<u32>, token: u32) -> (result: Result<(), u32>)
    ensures
        result is Ok <==> queued(*old(queue)).len() < queue_limit(*old(queue)),
        result is Ok ==> queued(*final(queue)) == queued(*old(queue)).push(token),
        result matches Err(back) ==> back == token && queued(*final(queue)) == queued(*old(queue)),
        queue_limit(*final(queue)) == queue_limit(*old(queue)),
{
    queue.push_mut(token)
}

/// Calls `ArrayQueue::pop_mut`. An empty queue gives nothing; otherwise the
/// oldest token leaves the queue and is returned.
#[verifier::external_body]
fn array_queue_pop(queue: &mut ArrayQueue<u32>) -> (token: Option<u32>)
    ensures
        token is None <==> queued(*old(queue)).len() == 0,
        token is None ==> queued(*final(queue)) == queued(*old(queue)),
        token matches Some(t) ==> t == queued(*old(queue))[0] && queued(*final(queue)) == queued(
            *old(queue),
        ).skip(1),
        queue_limit(*final(queue)) == queue_limit(*old(queue)),
{
    queue.pop_mut()
}

/// Calls `ArrayQueue::len`, the number of tokens queued.
#[verifier::external_body]
fn array_queue_len(queue: &ArrayQueue<u32>) -> (len: usize)
    ensures
        len == queued(*queue).len(),
{
    queue.len()
}

/// Calls `ArrayQueue::capacity`, the capacity given at creation.
#[verifier::external_body]
fn array_queue_capacity(queue: &ArrayQueue<u32>) -> (capacity: usize)
    ensures
        capacity == queue_limit(*queue),
{
    queue.capacity()
}

/// Why a queue could not be created.
#[derive(PartialEq, Eq, Structural, Debug, Clone, Copy)]
pub enum QueueError {
    /// The requested capacity was zero or above `MAX_QUEUE_CAPACITY`.
    InvalidCapacity,
    /// The queue already holds as many tokens as its capacity allows.
    Full,
}

/// A bounded FIFO of tokens.
pub struct Queue {
    tokens: ArrayQueue<u32>,
}

impl View for Queue {
    type V = Seq<u32>;

    closed spec fn view(&self) -> Seq<u32> {
        queued(self.tokens)
    }
}

impl Queue {
    /// The capacity the queue was created with.
    pub closed spec fn spec_capacity(&self) -> nat {
        queue_limit(self.tokens)
    }

    /// A queue never holds more than its capacity, which is positive.
    pub closed spec fn wf(&self) -> bool {
        &&& 0 < queue_limit(self.tokens) <= MAX_QUEUE_CAPACITY
        &&& queued(self.tokens).len() <= queue_limit(self.tokens)
    }

    /// Creates an empty queue, or refuses a capacity that no queue can have.
    pub fn new(capacity: usize) -> (result: Result<Queue, QueueError>)
        ensures
            result is Ok <==> 0 < capacity <= MAX_QUEUE_CAPACITY,
            result matches Ok(queue) ==> queue.wf() && queue@ == Seq::<u32>::empty()
                && queue.spec_capacity() == capacity,
            result matches Err(e) ==> e == QueueError::InvalidCapacity,
    {
        if capacity == 0 || capacity > MAX_QUEUE_CAPACITY {
            Err(QueueError::InvalidCapacity)
        } else {
            Ok(Queue { tokens: array_queue_new(capacity) })
        }
    }

    /// Appends `token`, unless the queue is full.
    pub fn push(&mut self, token: u32) -> (result: Result<(), QueueError>)
        requires
            old(self).wf(),
        ensures
            final(self).wf(),
            final(self).spec_capacity() == old(self).spec_capacity(),
            result is Ok <==> old(self)@.len() < old(self).spec_capacity(),
            result is Ok ==> final(self)@ == old(self)@.push(token),
            result matches Err(e) ==> e == QueueError::Full && final(self)@ == old(self)@,
    {
        match array_queue_push(&mut self.tokens, token) {
            Ok(()) => Ok(()),
            Err(_) => Err(QueueError::Full),
        }
    }

    /// Removes and returns the oldest token, if there is one.
    pub fn pop(&mut self) -> (token: Option<u32>)
        requires
            old(self).wf(),
        ensures
            final(self).wf(),
            final(self).spec_capacity() == old(self).spec_capacity(),
            token is None <==> old(self)@.len() == 0,
            token is None ==> final(self)@ == old(self)@,
            token matches Some(t) ==> t == old(self)@[0] && final(self)@ == old(self)@.skip(1),
    {
        array_queue_pop(&mut self.tokens)
    }

    /// The number of tokens queued.
    pub fn len(&self) -> (len: usize)
        ensures
            len == self@.len(),
    {
        array_queue_len(&self.tokens)
    }

    /// The capacity the queue was created with.
    pub fn capacity(&self) -> (capacity: usize)
        requires
            self.wf(),
        ensures
            capacity == self.spec_capacity(),
            capacity > 0,
    {
        array_queue_capacity(&self.tokens)
    }

    /// Whether no token is queued.
    pub fn is_empty(&self) -> (empty: bool)
        ensures
            empty == (self@.len() == 0),
    {
        array_queue_len(&self.tokens) == 0
    }
}

} // verus!
