//! What all CGNS nodes share, and the walk over the children of a node.
use vstd::prelude::*;

use crate::errors::CGNSError;

verus! {

/// A node of a CGNS file, identified by its index under its parent.
pub trait CGNSNode<'a>: Sized {
    type Parent;

    /// Index of the node under its parent (CGNS indices start at one).
    fn id(&self) -> i32;

    /// The node that holds this one.
    fn parent(&self) -> &Self::Parent;
}

/// A node whose data can be read as values of type `T`.
pub trait Read<'a, T>: CGNSNode<'a> {
    fn read(&self) -> Result<Vec<T>, CGNSError>;
}

/// The walk over the children of a node: children are numbered from one to
/// the number of children, and are visited in that order.
pub struct CGNSNodeIterator {
    current: i32,
    len: i32,
}

/// One step of the walk from `(current, len)`: the index of the child to
/// read next, if any, and the state after the step.
pub open spec fn walk_step(current: int, len: int) -> (Option<int>, int) {
    if current == len {
        (None, current)
    } else {
        (Some(current + 1), current + 1)
    }
}

/// The indices that the walk visits from `(current, len)` until it ends.
pub open spec fn walk_rest(current: int, len: int) -> Seq<int>
    decreases len - current,
{
    if current >= len {
        Seq::empty()
    } else {
        seq![current + 1] + walk_rest(current + 1, len)
    }
}

impl View for CGNSNodeIterator {
    type V = (int, int);

    /// The index of the last child visited, and the number of children.
    closed spec fn view(&self) -> (int, int) {
        (self.current as int, self.len as int)
    }
}

impl CGNSNodeIterator {
    #[verifier::type_invariant]
    spec fn inv(self) -> bool {
        0 <= self.current <= self.len
    }

    /// A walk over `len` children, none visited yet; a negative number of
    /// children counts as none.
    pub fn new(len: i32) -> (r: Self)
        ensures
            r@ == (0int, if len >= 0 {
                len as int
            } else {
                0int
            }),
    {
        let len = if len >= 0 {
            len
        } else {
            0
        };
        CGNSNodeIterator { current: 0, len }
    }

    /// The index of the next child to read, or `None` once all were visited.
    pub fn next_id(&mut self) -> (r: Option<i32>)
        ensures
            0 <= final(self)@.0 <= final(self)@.1,
            final(self)@.1 == old(self)@.1,
            (r matches Some(i) ==> walk_step(old(self)@.0, old(self)@.1).0 == Some(i as int)),
            (r is None ==> walk_step(old(self)@.0, old(self)@.1).0 is None),
            final(self)@.0 == walk_step(old(self)@.0, old(self)@.1).1,
    {
        proof {
            use_type_invariant(&*self);
        }
        if self.current == self.len {
            None
        } else {
            self.current = self.current + 1;
            Some(self.current)
        }
    }

    /// Reads the next child with `from_id`, which reads the child of a given
    /// index. Returns `None` once all children were visited, and also when
    /// the read of the next child fails; that child counts as visited either
    /// way, so the walk goes on with the child after it.
    pub fn next_node<C, E, F: Fn(i32) -> Result<C, E>>(&mut self, from_id: &F) -> (r: Option<C>)
        requires
            forall|i: i32| from_id.requires((i,)),
        ensures
            0 <= final(self)@.0 <= final(self)@.1,
            final(self)@.1 == old(self)@.1,
            final(self)@.0 == walk_step(old(self)@.0, old(self)@.1).1,
            walk_step(old(self)@.0, old(self)@.1).0 is None ==> r is None,
            old(self)@.0 < old(self)@.1 ==> exists|res: Result<C, E>|
                #[trigger] from_id.ensures(((old(self)@.0 + 1) as i32,), res) && match res {
                    Ok(c) => r == Some(c),
                    Err(_) => r is None,
                },
    {
        match self.next_id() {
            None => None,
            Some(id) => {
                let res = from_id(id);
                let ghost read = res;
                let r = match res {
                    Ok(c) => Some(c),
                    Err(_) => None,
                };
                assert(from_id.ensures(((old(self)@.0 + 1) as i32,), read));
                r
            },
        }
    }

    /// Number of children not visited yet.
    pub fn len(&self) -> (r: usize)
        ensures
            r == self@.1 - self@.0,
            0 <= self@.0 <= self@.1,
    {
        proof {
            use_type_invariant(self);
        }
        (self.len - self.current) as usize
    }
}

/// The index of the last child visited after `k` steps of the walk from
/// `(current, len)`.
pub open spec fn walk_after(current: int, len: int, k: nat) -> int
    decreases k,
{
    if k == 0 {
        current
    } else {
        walk_step(walk_after(current, len, (k - 1) as nat), len).1
    }
}

/// The `k`-th step of a walk over `len` children, from the start, reads the
/// child of index `k` while `k <= len`; after `j` steps, `len - j` children
/// are left, whatever the reads of the children gave.
pub proof fn law_walk_steps_read_in_order(len: int, k: nat)
    requires
        len >= 0,
        1 <= k <= len,
    ensures
        walk_step(walk_after(0, len, (k - 1) as nat), len).0 == Some(k as int),
        len - walk_after(0, len, k) == len - k,
{
    lemma_walk_after(len, k);
    lemma_walk_after(len, (k - 1) as nat);
}

proof fn lemma_walk_after(len: int, k: nat)
    requires
        len >= 0,
        k <= len,
    ensures
        walk_after(0, len, k) == k,
    decreases k,
{
    if k > 0 {
        lemma_walk_after(len, (k - 1) as nat);
    }
}

/// A walk over `len` children visits each index from one to `len` once, in
/// increasing order, and then ends.
pub proof fn law_walk_visits_each_child_once(len: int)
    requires
        len >= 0,
    ensures
        walk_rest(0, len) == Seq::new(len as nat, |i: int| i + 1),
{
    lemma_walk_rest(0, len);
}

proof fn lemma_walk_rest(current: int, len: int)
    requires
        0 <= current <= len,
    ensures
        walk_rest(current, len) == Seq::new((len - current) as nat, |i: int| current + 1 + i),
    decreases len - current,
{
    if current < len {
        lemma_walk_rest(current + 1, len);
        assert(walk_rest(current, len) =~= Seq::new(
            (len - current) as nat,
            |i: int| current + 1 + i,
        ));
    } else {
        assert(walk_rest(current, len) =~= Seq::new(0, |i: int| current + 1 + i));
    }
}

/// Each step of the walk visits the next index of `walk_rest` and leaves
/// the rest of it to visit.
pub proof fn law_walk_step_follows_rest(current: int, len: int)
    requires
        0 <= current <= len,
    ensures
        current < len ==> walk_step(current, len).0 == Some(walk_rest(current, len)[0])
            && walk_rest(walk_step(current, len).1, len) == walk_rest(current, len).drop_first(),
        current == len ==> walk_step(current, len).0 is None && walk_rest(current, len).len()
            == 0,
{
    if current < len {
        assert(walk_rest(current + 1, len) =~= walk_rest(current, len).drop_first());
    }
}

} // verus!
