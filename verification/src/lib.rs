//! A general interval library over an ordered scalar domain.
//!
//! The crate offers a validated endpoint pair ([`bound_pair::BoundPair`]),
//! an eleven-shape interval taxonomy ([`interval::Interval`]) and a closed
//! algebra of set-like operations on it: containment, intersection,
//! complement, width and per-side bound comparison, along with rendering
//! in Wirth interval notation ([`display`]).
//!
//! Every operation carries a contract.  Contracts are stated over the
//! domain's own partial order, through `partial_cmp_spec`; whenever the
//! domain's comparison obeys that specification (all primitive integers do),
//! the stated results are proved.  The laws of the algebra — reflexivity and
//! transitivity of containment, commutativity of intersection, the pointwise
//! meaning of intersection and complement, and the double-complement round
//! trip — are proved in [`laws`] for every domain whose order is a lawful
//! total order.

pub mod bound_pair;
pub mod display;
pub mod interval;
pub mod laws;
pub mod order;
