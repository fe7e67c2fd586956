//! A hierarchical genetic encoding for collectible cards.
//!
//! A [`protein::Protein`] is one of four symbols. Four proteins form a
//! [`gene::Gene`], eight genes form a [`sequence::Sequence`], and five named
//! sequences form a [`card::Card`]. Every level can be created at random
//! ("genesis"), bred from two parents ("merge") and altered in one place
//! ("mutate"); genes and sequences also carry a numeric value.
//!
//! Every function states its behaviour in a contract that Verus proves. The
//! only code taken on trust are two thin layers over other crates:
//! `entropy`, which draws random numbers with `rand`, and `gene_buffer`,
//! which collects genes in an `ArrayVec`.

pub mod card;
pub mod gene;
pub mod protein;
pub mod sequence;
pub mod weight_rule;

mod entropy;
mod gene_buffer;
