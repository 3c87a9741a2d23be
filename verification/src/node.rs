//! The ids under which the solver knows the container and its children.
//!
//! The solver sees a flat graph: the container, and below it one node for each
//! child, in the order in which the children were appended. What lies below a
//! child is that child's own business and has no id here.

use vstd::prelude::*;

verus! {

/// The number that stands for the container itself where a node has to be
/// named by a number. No child has it: a child's number is its index.
pub const CONTAINER_RAW: u64 = u64::MAX;

/// A node of the graph that the solver sees.
#[derive(Clone, Copy, Debug, PartialEq, Eq, Structural)]
pub enum NodeId {
    /// The container itself.
    Container,
    /// The child at this index.
    Child(usize),
}

/// Walks the ids of the children of the container, in order.
#[derive(Debug)]
pub struct GridChildIter {
    next: usize,
    end: usize,
}

/// The ids of the first `count` children, in order.
pub open spec fn child_ids(count: nat) -> Seq<NodeId> {
    Seq::new(count, |i: int| NodeId::Child(i as usize))
}

impl NodeId {
    /// The number that names the node.
    pub open spec fn raw(self) -> u64 {
        match self {
            NodeId::Container => CONTAINER_RAW,
            NodeId::Child(index) => index as u64,
        }
    }

    /// The node that a number names: the container for the reserved number, a
    /// child for a number that can be an index, and none for any other number.
    pub open spec fn from_raw_spec(raw: u64) -> Option<NodeId> {
        if raw == CONTAINER_RAW {
            Some(NodeId::Container)
        } else if raw <= usize::MAX {
            Some(NodeId::Child(raw as usize))
        } else {
            None
        }
    }

    /// The number that names the node.
    pub fn to_raw(self) -> (out: u64)
        ensures
            out == self.raw(),
    {
        match self {
            NodeId::Container => CONTAINER_RAW,
            NodeId::Child(index) => index as u64,
        }
    }

    /// The node that a number names, if it names one.
    pub fn from_raw(raw: u64) -> (out: Option<NodeId>)
        ensures
            out == NodeId::from_raw_spec(raw),
    {
        if raw == CONTAINER_RAW {
            Some(NodeId::Container)
        } else if raw <= usize::MAX as u64 {
            Some(NodeId::Child(raw as usize))
        } else {
            None
        }
    }

    /// Whether the node is the container.
    pub fn is_container(self) -> (out: bool)
        ensures
            out == (self is Container),
    {
        match self {
            NodeId::Container => true,
            NodeId::Child(_) => false,
        }
    }

    /// The index of the child that the node is, if it is one.
    pub fn index(self) -> (out: Option<usize>)
        ensures
            out == (match self {
                NodeId::Container => None,
                NodeId::Child(index) => Some(index),
            }),
    {
        match self {
            NodeId::Container => None,
            NodeId::Child(index) => Some(index),
        }
    }
}

impl View for GridChildIter {
    type V = Seq<NodeId>;

    /// The ids that are still to come, in order.
    closed spec fn view(&self) -> Seq<NodeId> {
        if self.next <= self.end {
            Seq::new((self.end - self.next) as nat, |i: int| NodeId::Child((self.next + i) as usize))
        } else {
            Seq::empty()
        }
    }
}

impl GridChildIter {
    /// The walk over the ids of `count` children.
    pub fn new(count: usize) -> (out: GridChildIter)
        ensures
            out@ == child_ids(count as nat),
    {
        let out = GridChildIter { next: 0, end: count };
        assert(out@ =~= child_ids(count as nat));
        out
    }

    /// The next id, if one is left; the walk then stands behind it.
    pub fn next(&mut self) -> (out: Option<NodeId>)
        ensures
            old(self)@.len() == 0 ==> out.is_none() && final(self)@ == old(self)@,
            old(self)@.len() > 0 ==> out == Some(old(self)@[0]) && final(self)@ == old(self)@.skip(1),
    {
        if self.next < self.end {
            let index = self.next;
            self.next = index + 1;
            assert(self@ =~= old(self)@.skip(1));
            Some(NodeId::Child(index))
        } else {
            None
        }
    }
}

/// Among `count` children each index has an id of its own: the id of a child
/// names that child and no other, it is not the id of the container, and the
/// number that names it leads back to it.
pub proof fn lemma_child_ids_distinct(count: usize, i: usize, j: usize)
    requires
        i < count,
        j < count,
    ensures
        child_ids(count as nat).len() == count,
        child_ids(count as nat)[i as int] == NodeId::Child(i),
        NodeId::Child(i).raw() != NodeId::Container.raw(),
        NodeId::from_raw_spec(NodeId::Child(i).raw()) == Some(NodeId::Child(i)),
        NodeId::from_raw_spec(NodeId::Container.raw()) == Some(NodeId::Container),
        i != j ==> NodeId::Child(i) != NodeId::Child(j),
        i != j ==> NodeId::Child(i).raw() != NodeId::Child(j).raw(),
{
}

} // verus!
