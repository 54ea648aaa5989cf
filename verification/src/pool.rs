//! The identifier pool: mints unique, strictly increasing identifiers of one
//! kind.
//!
//! A pool holds the next unallocated integer for its kind and only ever moves
//! forward: it never reclaims or recycles a value, so retiring an entity can
//! never make its identifier alias a newly created one. A ghost record of
//! every identifier handed out, in call order, carries that invariant.

use vstd::prelude::*;

use crate::ids::PoolId;

verus! {

/// The pool's counter has reached the maximum representable value; allocation
/// cannot proceed without risking a collision with an earlier identifier.
#[derive(Copy, Clone, Eq, PartialEq, Structural, Debug)]
pub struct ExhaustedError;

/// Mints identifiers of kind `T`, each strictly greater than every identifier
/// this pool handed out before.
pub struct Pool<T: PoolId> {
    next_id: T,
    issued: Ghost<Seq<u64>>,
}

impl<T: PoolId> Pool<T> {
    /// The integer value the next successful allocation will return.
    pub closed spec fn counter(self) -> u64 {
        self.next_id.id_value()
    }

    /// The integers handed out by this pool so far, in call order.
    pub closed spec fn issued(self) -> Seq<u64> {
        self.issued@
    }

    /// The pool's invariant: the record of handed-out values is strictly
    /// increasing, and every recorded value lies below the counter.
    pub closed spec fn wf(self) -> bool {
        &&& forall|i: int, j: int|
            0 <= i < j < self.issued@.len() ==> self.issued@[i] < self.issued@[j]
        &&& forall|i: int| 0 <= i < self.issued@.len() ==> self.issued@[i] < self.counter()
    }

    /// A fresh pool, counting from zero (the kind's default value).
    pub fn new() -> (r: Pool<T>)
        ensures
            r.wf(),
            r.counter() == 0,
            r.issued() == Seq::<u64>::empty(),
    {
        Pool { next_id: T::from_u64(0), issued: Ghost(Seq::empty()) }
    }

    /// A pool that starts counting from `first` instead of zero.
    pub fn starting_at(first: T) -> (r: Pool<T>)
        ensures
            r.wf(),
            r.counter() == first.id_value(),
            r.issued() == Seq::<u64>::empty(),
    {
        Pool { next_id: first, issued: Ghost(Seq::empty()) }
    }

    /// Hands out the counter's current value and advances the counter by one.
    ///
    /// Succeeds exactly when the counter has not reached `u64::MAX`; at the
    /// maximum it fails with [`ExhaustedError`] and leaves the pool unchanged,
    /// rather than wrap around and alias an earlier identifier. The result is
    /// strictly greater than everything this pool handed out before, and on a
    /// pool whose counter has moved past zero it is never the kind's default
    /// (zero) identifier — only the very first allocation of a pool that
    /// starts at zero returns the default-valued identifier.
    pub fn allocate(&mut self) -> (r: Result<T, ExhaustedError>)
        requires
            old(self).wf(),
        ensures
            final(self).wf(),
            old(self).counter() < u64::MAX ==> {
                &&& r matches Ok(id) && id.id_value() == old(self).counter()
                &&& final(self).counter() == old(self).counter() + 1
                &&& final(self).issued() == old(self).issued().push(old(self).counter())
            },
            old(self).counter() == u64::MAX ==> {
                &&& r matches Err(e) && e == ExhaustedError
                &&& final(self).counter() == old(self).counter()
                &&& final(self).issued() == old(self).issued()
            },
            r matches Ok(id) ==> forall|k: int|
                0 <= k < old(self).issued().len() ==> old(self).issued()[k] < id.id_value(),
            old(self).counter() > 0 ==> (r matches Ok(id) ==> id.id_value() != 0),
    {
        let v = self.next_id.value();
        if v < u64::MAX {
            let id = self.next_id;
            self.next_id = id.next();
            proof {
                self.issued@ = self.issued@.push(v);
            }
            Ok(id)
        } else {
            Err(ExhaustedError)
        }
    }
}

/// Law: the identifiers a pool has handed out, taken in call order, are
/// strictly increasing as integers, and therefore pairwise distinct.
pub proof fn lemma_issued_strictly_increasing<T: PoolId>(p: &Pool<T>)
    requires
        p.wf(),
    ensures
        forall|i: int, j: int|
            0 <= i < j < p.issued().len() ==> p.issued()[i] < p.issued()[j],
        forall|i: int, j: int|
            0 <= i < p.issued().len() && 0 <= j < p.issued().len() && i != j
                ==> p.issued()[i] != p.issued()[j],
{
    assert forall|i: int, j: int|
        0 <= i < p.issued().len() && 0 <= j < p.issued().len() && i != j
            implies p.issued()[i] != p.issued()[j] by {
        if i < j {
            assert(p.issued()[i] < p.issued()[j]);
        } else {
            assert(p.issued()[j] < p.issued()[i]);
        }
    }
}

} // verus!
