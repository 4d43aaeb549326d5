//! A pool of numbered tokens, handed out first come first served.
//!
//! A port has two such pools: the call slots of its client and the worker
//! tokens of its server. A token is either taken or waiting in the queue of
//! free tokens, never both and never twice.

use crate::count::{
    lemma_count_none, lemma_count_true_bound, lemma_count_true_update, spec_count_true,
};
use crate::queue::{Queue, QueueError, MAX_QUEUE_CAPACITY};
use vstd::prelude::*;

verus! {

/// The state of a pool, as its callers may reason about it.
pub struct PoolView {
    /// For each token, whether it is taken.
    pub taken: Seq<bool>,
    /// The free tokens, in the order in which they will be handed out.
    pub free: Seq<u32>,
}

impl PoolView {
    /// The number of tokens, taken or free.
    pub open spec fn size(self) -> nat {
        self.taken.len()
    }

    /// The number of tokens taken.
    pub open spec fn taken_count(self) -> nat {
        spec_count_true(self.taken)
    }

    /// Whether `token` is a token of this pool and is taken.
    pub open spec fn is_taken(self, token: u32) -> bool {
        token < self.taken.len() && self.taken[token as int]
    }

    /// What holds of every pool: the queue lists exactly the tokens that are
    /// not taken, each once.
    pub open spec fn valid(self) -> bool {
        &&& self.taken.len() <= MAX_QUEUE_CAPACITY
        &&& self.free.no_duplicates()
        &&& forall|j: int|
            0 <= j < self.free.len() ==> (#[trigger] self.free[j]) < self.taken.len()
                && !self.taken[self.free[j] as int]
        &&& forall|i: int|
            0 <= i < self.taken.len() && !(#[trigger] self.taken[i]) ==> self.free.contains(
                i as u32,
            )
        &&& self.taken_count() + self.free.len() == self.taken.len()
    }

    /// The pool of `size` tokens in which none is taken.
    pub open spec fn fresh(size: nat) -> PoolView {
        PoolView { taken: Seq::new(size, |i: int| false), free: Seq::new(size, |i: int| i as u32) }
    }

    /// The state after the first free token has been taken.
    pub open spec fn acquire(self) -> PoolView
        recommends
            self.free.len() > 0,
    {
        PoolView { taken: self.taken.update(self.free[0] as int, true), free: self.free.skip(1) }
    }

    /// The state after `token` has been given back.
    pub open spec fn release(self, token: u32) -> PoolView
        recommends
            self.is_taken(token),
    {
        PoolView { taken: self.taken.update(token as int, false), free: self.free.push(token) }
    }
}

/// In a fresh pool nothing is taken.
pub proof fn lemma_fresh_valid(size: nat)
    requires
        size <= MAX_QUEUE_CAPACITY,
    ensures
        PoolView::fresh(size).valid(),
        PoolView::fresh(size).taken_count() == 0,
{
    let p = PoolView::fresh(size);
    lemma_count_none(p.taken);
    assert forall|i: int| 0 <= i < p.taken.len() && !(#[trigger] p.taken[i]) implies p.free.contains(
        i as u32,
    ) by {
        assert(p.free[i] == i as u32);
    }
}

/// Taking a token keeps a pool valid and adds one to the tokens taken; it is
/// possible exactly when not all tokens are taken.
pub proof fn lemma_acquire_valid(p: PoolView)
    requires
        p.valid(),
    ensures
        p.free.len() > 0 <==> p.taken_count() < p.size(),
        p.free.len() > 0 ==> {
            &&& p.acquire().valid()
            &&& p.acquire().taken_count() == p.taken_count() + 1
            &&& p.acquire().size() == p.size()
            &&& !p.is_taken(p.free[0])
            &&& p.acquire().is_taken(p.free[0])
        },
{
    if p.free.len() > 0 {
        let k = p.free[0];
        let n = p.acquire();
        lemma_count_true_update(p.taken, k as int, true);
        assert forall|j: int| 0 <= j < n.free.len() implies (#[trigger] n.free[j]) < n.taken.len()
            && !n.taken[n.free[j] as int] by {
            assert(n.free[j] == p.free[j + 1]);
        }
        assert forall|i: int| 0 <= i < n.taken.len() && !(#[trigger] n.taken[i]) implies n.free.contains(
            i as u32,
        ) by {
            assert(!p.taken[i]);
            let j = choose|j: int| 0 <= j < p.free.len() && p.free[j] == i as u32;
            assert(j != 0);
            assert(n.free[j - 1] == i as u32);
        }
    }
}

/// Giving a taken token back keeps a pool valid and takes one from the
/// tokens taken; the token goes to the back of the queue.
pub proof fn lemma_release_valid(p: PoolView, token: u32)
    requires
        p.valid(),
        p.is_taken(token),
    ensures
        p.release(token).valid(),
        p.release(token).taken_count() + 1 == p.taken_count(),
        p.release(token).size() == p.size(),
        p.free.len() < p.size(),
{
    let n = p.release(token);
    lemma_count_true_update(p.taken, token as int, false);
    assert forall|i: int, j: int|
        0 <= i < n.free.len() && 0 <= j < n.free.len() && i != j implies n.free[i] != n.free[j] by {
        if i < p.free.len() && j < p.free.len() {
        } else if i < p.free.len() {
            assert(p.free[i] != token);
        } else {
            assert(p.free[j] != token);
        }
    }
    assert forall|i: int| 0 <= i < n.taken.len() && !(#[trigger] n.taken[i]) implies n.free.contains(
        i as u32,
    ) by {
        if i == token {
            assert(n.free[p.free.len() as int] == token);
        } else {
            assert(!p.taken[i]);
            let j = choose|j: int| 0 <= j < p.free.len() && p.free[j] == i as u32;
            assert(n.free[j] == i as u32);
        }
    }
}

/// A pool of tokens numbered from zero.
pub struct Pool {
    free: Queue,
    taken: Vec<bool>,
}

impl View for Pool {
    type V = PoolView;

    closed spec fn view(&self) -> PoolView {
        PoolView { taken: self.taken@, free: self.free@ }
    }
}

impl Pool {
    /// The invariant of a pool. `new` establishes it and every method keeps it.
    pub closed spec fn wf(&self) -> bool {
        &&& self.free.wf()
        &&& self.free.spec_capacity() >= self.taken.len()
        &&& self@.valid()
    }

    /// A well-formed pool has a valid view.
    pub proof fn lemma_wf_valid(&self)
        requires
            self.wf(),
        ensures
            self@.valid(),
            self@.taken_count() <= self@.size(),
    {
        lemma_count_true_bound(self@.taken);
    }

    /// Creates a pool of `size` tokens, all free, to be handed out in
    /// ascending order. A pool of no tokens has none to hand out.
    pub fn new(size: usize) -> (result: Result<Pool, QueueError>)
        ensures
            result is Ok <==> size <= MAX_QUEUE_CAPACITY,
            result matches Ok(pool) ==> pool.wf() && pool@ == PoolView::fresh(size as nat),
            result matches Err(e) ==> e == QueueError::InvalidCapacity,
    {
        let room: usize = if size == 0 {
            1
        } else {
            size
        };
        let mut free = match Queue::new(room) {
            Ok(queue) => queue,
            Err(e) => {
                return Err(e);
            },
        };
        let mut taken: Vec<bool> = Vec::new();
        let mut i: usize = 0;
        while i < size
            invariant
                i <= size <= MAX_QUEUE_CAPACITY,
                free.wf(),
                free.spec_capacity() >= size,
                free@ == Seq::new(i as nat, |k: int| k as u32),
                taken@ == Seq::new(i as nat, |k: int| false),
            decreases size - i,
        {
            let pushed = free.push(i as u32);
            assert(pushed is Ok);
            taken.push(false);
            proof {
                assert(free@ =~= Seq::new((i + 1) as nat, |k: int| k as u32));
                assert(taken@ =~= Seq::new((i + 1) as nat, |k: int| false));
            }
            i = i + 1;
        }
        proof {
            lemma_fresh_valid(size as nat);
        }
        Ok(Pool { free, taken })
    }

    /// The number of tokens, taken or free.
    pub fn size(&self) -> (n: usize)
        requires
            self.wf(),
        ensures
            n == self@.size(),
    {
        self.taken.len()
    }

    /// The number of tokens taken.
    pub fn taken_count(&self) -> (n: usize)
        requires
            self.wf(),
        ensures
            n == self@.taken_count(),
            n <= self@.size(),
    {
        self.taken.len() - self.free.len()
    }

    /// Whether `token` is a token of this pool and is taken.
    pub fn is_taken(&self, token: u32) -> (taken: bool)
        requires
            self.wf(),
        ensures
            taken == self@.is_taken(token),
    {
        (token as usize) < self.taken.len() && self.taken[token as usize]
    }

    /// Takes the token that has been free the longest, if any is free.
    pub fn acquire(&mut self) -> (token: Option<u32>)
        requires
            old(self).wf(),
        ensures
            final(self).wf(),
            token is Some <==> old(self)@.taken_count() < old(self)@.size(),
            token is Some <==> old(self)@.free.len() > 0,
            token matches Some(t) ==> t == old(self)@.free[0] && final(self)@ == old(
                self,
            )@.acquire(),
            token is None ==> final(self)@ == old(self)@,
    {
        proof {
            lemma_acquire_valid(self@);
        }
        match self.free.pop() {
            None => None,
            Some(token) => {
                self.taken[token as usize] = true;
                Some(token)
            },
        }
    }

    /// Gives `token` back. Refuses, and changes nothing, where `token` is not
    /// a token of this pool or is not taken.
    pub fn release(&mut self, token: u32) -> (released: bool)
        requires
            old(self).wf(),
        ensures
            final(self).wf(),
            released == old(self)@.is_taken(token),
            released ==> final(self)@ == old(self)@.release(token),
            !released ==> final(self)@ == old(self)@,
    {
        if (token as usize) < self.taken.len() && self.taken[token as usize] {
            proof {
                lemma_release_valid(self@, token);
            }
            self.taken[token as usize] = false;
            let pushed = self.free.push(token);
            assert(pushed is Ok);
            true
        } else {
            false
        }
    }
}

} // verus!
