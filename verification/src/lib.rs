//! A grid container for a retained-mode widget tree whose children are placed
//! by a constraint-based grid solver.
//!
//! The host toolkit asks a widget what size it takes under given limits, and
//! gets back a tree of positioned boxes. The solver instead walks a graph of
//! nodes, reads a style for each, and asks the nodes for their sizes again and
//! again under different hypotheses before it settles on a box for each. The
//! container stands between the two: it shows its children to the solver as
//! such a graph, remembers what each child answered, and puts the boxes that
//! the solver settled on together into the tree that the host expects.

pub mod cache;
pub mod child;
pub mod geometry;
pub mod grid;
pub mod laws;
pub mod node;
pub mod participant;
pub mod scalar;
pub mod sizing;
pub mod style;
pub mod tree;

pub use crate::child::GridChild;
pub use crate::grid::grid;
pub use crate::grid::Grid;
pub use crate::node::GridChildIter;
pub use crate::node::NodeId;
pub use crate::participant::Participant;
pub use crate::tree::GridLayoutTree;
