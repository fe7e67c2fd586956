//! Cards: five named sequences.

use crate::sequence::Sequence;
use vstd::prelude::*;
use vstd::std_specs::cmp::PartialEqSpecImpl;

verus! {

/// Five sequences in the named slots alpha, beta, gamma, delta and epsilon.
///
/// The model of a card, `card@`, is the sequence of its five slots in that
/// order, so `card@[0]` is alpha and `card@[4]` is epsilon.
#[derive(Debug, Clone, Copy, Eq)]
pub struct Card {
    alpha: Sequence,
    beta: Sequence,
    gamma: Sequence,
    delta: Sequence,
    epsilon: Sequence,
}

impl View for Card {
    type V = Seq<Sequence>;

    closed spec fn view(&self) -> Seq<Sequence> {
        seq![self.alpha, self.beta, self.gamma, self.delta, self.epsilon]
    }
}

impl Card {
    /// `self` can come out of breeding `a` with `b`: each slot is offspring
    /// of the parents' sequences in the same slot, and of nothing else.
    pub open spec fn is_offspring(self, a: Card, b: Card) -> bool {
        forall|slot: int|
            0 <= slot < 5 ==> (#[trigger] self@[slot]).is_offspring(a@[slot], b@[slot])
    }

    /// A fresh card: five fresh sequences, one per slot.
    pub fn genesis() -> (card: Card)
        ensures
            forall|slot: int| 0 <= slot < 5 ==> (#[trigger] card@[slot]).has_default_tail(),
    {
        Card {
            alpha: Sequence::genesis(),
            beta: Sequence::genesis(),
            gamma: Sequence::genesis(),
            delta: Sequence::genesis(),
            epsilon: Sequence::genesis(),
        }
    }

    /// The card made of the given sequences.
    pub fn new(
        alpha: Sequence,
        beta: Sequence,
        gamma: Sequence,
        delta: Sequence,
        epsilon: Sequence,
    ) -> (card: Card)
        ensures
            card@ == seq![alpha, beta, gamma, delta, epsilon],
    {
        Card { alpha, beta, gamma, delta, epsilon }
    }

    /// Breeds `self` with `other`, slot by slot.
    pub fn merge(&self, other: &Card) -> (child: Card)
        ensures
            child.is_offspring(*self, *other),
    {
        Card {
            alpha: self.alpha.merge(&other.alpha),
            beta: self.beta.merge(&other.beta),
            gamma: self.gamma.merge(&other.gamma),
            delta: self.delta.merge(&other.delta),
            epsilon: self.epsilon.merge(&other.epsilon),
        }
    }

    /// The sequence in the first slot.
    pub fn alpha(&self) -> (sequence: &Sequence)
        ensures
            *sequence == self@[0],
    {
        &self.alpha
    }

    /// The sequence in the second slot.
    pub fn beta(&self) -> (sequence: &Sequence)
        ensures
            *sequence == self@[1],
    {
        &self.beta
    }

    /// The sequence in the third slot.
    pub fn gamma(&self) -> (sequence: &Sequence)
        ensures
            *sequence == self@[2],
    {
        &self.gamma
    }

    /// The sequence in the fourth slot.
    pub fn delta(&self) -> (sequence: &Sequence)
        ensures
            *sequence == self@[3],
    {
        &self.delta
    }

    /// The sequence in the fifth slot.
    pub fn epsilon(&self) -> (sequence: &Sequence)
        ensures
            *sequence == self@[4],
    {
        &self.epsilon
    }
}

impl PartialEq for Card {
    /// Cards are equal when they hold the same sequence in every slot.
    fn eq(&self, other: &Card) -> (equal: bool) {
        self.alpha == other.alpha && self.beta == other.beta && self.gamma == other.gamma
            && self.delta == other.delta && self.epsilon == other.epsilon
    }
}

impl PartialEqSpecImpl for Card {
    open spec fn obeys_eq_spec() -> bool {
        true
    }

    open spec fn eq_spec(&self, other: &Card) -> bool {
        *self == *other
    }
}

/// A card has exactly five slots.
pub proof fn lemma_view_len_five(card: Card)
    ensures
        card@.len() == 5,
{
}

/// Cards with the same sequences in the same slots are equal.
pub proof fn lemma_slots_determine_card(a: Card, b: Card)
    requires
        a@ == b@,
    ensures
        a == b,
{
    assert(a@[0] == b@[0]);
    assert(a@[1] == b@[1]);
    assert(a@[2] == b@[2]);
    assert(a@[3] == b@[3]);
    assert(a@[4] == b@[4]);
}

/// Breeding a card with itself keeps the head of every slot: the first
/// four genes of each sequence of the child are those of the parent. The
/// tail genes are mutated, so each differs from the parent's in exactly one
/// protein.
pub proof fn lemma_merge_with_self(child: Card, parent: Card, slot: int)
    requires
        child.is_offspring(parent, parent),
        0 <= slot < 5,
    ensures
        forall|i: int| 0 <= i < 4 ==> #[trigger] child@[slot]@[i] == parent@[slot]@[i],
        forall|i: int|
            4 <= i < 8 ==> (#[trigger] parent@[slot]@[i]).is_point_mutation(child@[slot]@[i]),
        forall|i: int| 4 <= i < 8 ==> #[trigger] child@[slot]@[i] != parent@[slot]@[i],
{
    crate::sequence::lemma_merge_with_self(child@[slot], parent@[slot]);
}

} // verus!
