//! Sequences: eight genes in a fixed order.

use crate::entropy::random_below;
use crate::gene::{
    lemma_merge_idempotent, lemma_merge_inherits_parent, lemma_point_mutation_differs,
    lemma_point_mutation_symmetric, lemma_view_injective, lemma_view_len, Gene,
};
use crate::gene_buffer::{buffer_into_inner, buffer_new, buffer_push, buffered};
use crate::protein::{lemma_symbol_identifies_protein, Protein};
use crate::weight_rule::{calculate_sequence_weight, sequence_rules_spec, weighted};
use vstd::prelude::*;
use vstd::std_specs::cmp::PartialEqSpecImpl;

verus! {

/// An ordered tuple of exactly eight genes.
///
/// The first four genes are the head, the last four the tail. The model of
/// a sequence is the sequence of its genes, `sequence@`, which always has
/// length eight (see [`lemma_view_len_eight`]).
#[derive(Debug, Clone, Copy, Eq)]
pub struct Sequence([Gene; 8]);

impl View for Sequence {
    type V = Seq<Gene>;

    closed spec fn view(&self) -> Seq<Gene> {
        self.0@
    }
}

/// The sum of the genes' values.
pub open spec fn total_value(genes: Seq<Gene>) -> int
    decreases genes.len(),
{
    if genes.len() == 0 {
        0
    } else {
        total_value(genes.drop_last()) + genes.last().value_spec()
    }
}

impl Sequence {
    /// The 32 proteins of the sequence: those of the first gene, then those
    /// of the second, and so on.
    pub open spec fn flattened(self) -> Seq<Protein> {
        Seq::new(32, |k: int| self@[k / 4]@[k % 4])
    }

    /// The value of the sequence: the sum of its genes' values, weighted by
    /// the rules for sequences.
    pub open spec fn value_spec(self) -> int {
        weighted(total_value(self@), sequence_rules_spec(), self.flattened())
    }

    /// The text form of the sequence: the text forms of its eight genes with
    /// a `-` between neighbours, 39 characters in all.
    pub open spec fn rendering(self) -> Seq<char> {
        Seq::new(
            39,
            |k: int|
                if k % 5 == 4 {
                    '-'
                } else {
                    self@[k / 5]@[k % 5].symbol_spec()
                },
        )
    }

    /// `self` can come out of breeding `a` with `b`: each head gene is the
    /// merge of the parents' genes at that position, the greater rank
    /// winning, and each tail gene is that merge with exactly one protein
    /// changed.
    pub open spec fn is_offspring(self, a: Sequence, b: Sequence) -> bool {
        &&& forall|i: int| 0 <= i < 4 ==> #[trigger] self@[i] == a@[i].merged(b@[i], true)
        &&& forall|i: int|
            4 <= i < 8 ==> a@[i].merged(b@[i], true).is_point_mutation(#[trigger] self@[i])
    }

    /// The four tail genes are all the default gene.
    pub open spec fn has_default_tail(self) -> bool {
        forall|i: int| 4 <= i < 8 ==> (#[trigger] self@[i])@ == Gene::default_proteins()
    }

    /// `self` can come out of one mutation of `before`: one gene of the
    /// positions 5 to 7 has exactly one protein changed, and every other
    /// gene is as it was.
    pub open spec fn is_mutation_of(self, before: Sequence) -> bool {
        exists|g: int|
            {
                &&& 5 <= g < 8
                &&& (#[trigger] before@[g]).is_point_mutation(self@[g])
                &&& forall|i: int| 0 <= i < 8 && i != g ==> self@[i] == before@[i]
            }
    }

    /// The sequence made of the given genes.
    pub fn new(genes: [Gene; 8]) -> (sequence: Sequence)
        ensures
            sequence@ == genes@,
    {
        Sequence(genes)
    }

    /// The sequence with the given four genes as its head and the default
    /// gene at each of the four tail positions.
    pub fn with_head(head: [Gene; 4]) -> (sequence: Sequence)
        ensures
            sequence@.len() == 8,
            forall|i: int| 0 <= i < 4 ==> #[trigger] sequence@[i] == head@[i],
            sequence.has_default_tail(),
    {
        let mut buffer = buffer_new();
        let mut i: usize = 0;
        while i < 4
            invariant
                i <= 4,
                buffered(buffer).len() == i,
                forall|j: int| 0 <= j < i ==> #[trigger] buffered(buffer)[j] == head@[j],
            decreases 4 - i,
        {
            buffer_push(&mut buffer, head[i]);
            i += 1;
        }
        while i < 8
            invariant
                4 <= i <= 8,
                buffered(buffer).len() == i,
                forall|j: int| 0 <= j < 4 ==> #[trigger] buffered(buffer)[j] == head@[j],
                forall|j: int|
                    4 <= j < i ==> (#[trigger] buffered(buffer)[j])@ == Gene::default_proteins(),
            decreases 8 - i,
        {
            buffer_push(&mut buffer, Gene::default());
            i += 1;
        }
        Sequence(buffer_into_inner(buffer).unwrap())
    }

    /// A fresh sequence: four genes drawn at random, then four times the
    /// default gene.
    ///
    /// The four genes of the head are drawn one after the other and handed
    /// to [`Sequence::with_head`]; what they are is the only thing left
    /// open. The tail is fixed.
    pub fn genesis() -> (sequence: Sequence)
        ensures
            sequence@.len() == 8,
            sequence.has_default_tail(),
    {
        let head = [Gene::genesis(), Gene::genesis(), Gene::genesis(), Gene::genesis()];
        Sequence::with_head(head)
    }

    /// The genes of the sequence, borrowed.
    pub fn genes(&self) -> (genes: &[Gene; 8])
        ensures
            genes@ == self@,
    {
        &self.0
    }

    /// The 32 proteins of the sequence in order, copied into a vector.
    pub fn proteins(&self) -> (proteins: Vec<Protein>)
        ensures
            proteins@ == self.flattened(),
    {
        let mut proteins: Vec<Protein> = Vec::new();
        let mut k: usize = 0;
        while k < 32
            invariant
                k <= 32,
                proteins@ == self.flattened().take(k as int),
            decreases 32 - k,
        {
            let gene = &self.0[k / 4];
            proteins.push(gene.as_ref()[k % 4]);
            assert(proteins@ == self.flattened().take(k + 1));
            k += 1;
        }
        proteins
    }

    /// The 32 proteins of the sequence in order, as an array.
    pub fn protein_array(&self) -> (proteins: [Protein; 32])
        ensures
            proteins@ == self.flattened(),
    {
        let mut proteins: [Protein; 32] = [Protein::A; 32];
        let mut k: usize = 0;
        while k < 32
            invariant
                k <= 32,
                forall|j: int| 0 <= j < k ==> proteins@[j] == self.flattened()[j],
            decreases 32 - k,
        {
            let gene = &self.0[k / 4];
            proteins[k] = gene.as_ref()[k % 4];
            k += 1;
        }
        assert(proteins@ =~= self.flattened());
        proteins
    }

    /// The value of the sequence: the sum of its genes' values, weighted by
    /// the rules for sequences and rounded down. Every gene counts
    /// positively, whatever its position.
    ///
    /// No rule is set for sequences, so the value is the sum itself, which
    /// is at most 240.
    pub fn value(&self) -> (value: u64)
        ensures
            value == self.value_spec(),
            value == total_value(self@),
            value <= 240,
    {
        let mut sum: u64 = 0;
        let mut i: usize = 0;
        while i < 8
            invariant
                i <= 8,
                sum == total_value(self.0@.take(i as int)),
                sum <= 30 * i,
            decreases 8 - i,
        {
            assert(self.0@.take(i + 1).drop_last() == self.0@.take(i as int));
            sum = sum + self.0[i].value();
            i += 1;
        }
        assert(self.0@.take(8) == self.0@);
        let proteins = self.proteins();
        let weight = calculate_sequence_weight(proteins.as_slice());
        weight.scale(sum)
    }

    /// Breeds `self` with `other`.
    ///
    /// Position by position the parents' genes are merged, the greater rank
    /// winning. The four head genes of the child are those merges. Each of
    /// the four tail genes is mutated once after merging, so it differs from
    /// the merge in exactly one protein. Nothing else is mutated.
    pub fn merge(&self, other: &Sequence) -> (child: Sequence)
        ensures
            child.is_offspring(*self, *other),
    {
        let filler = Gene::default();
        let mut genes: [Gene; 8] = [filler; 8];
        let mut index: usize = 0;
        while index < 8
            invariant
                index <= 8,
                forall|i: int|
                    0 <= i < index && i < 4 ==> #[trigger] genes@[i] == self@[i].merged(
                        other@[i],
                        true,
                    ),
                forall|i: int|
                    4 <= i < index ==> self@[i].merged(other@[i], true).is_point_mutation(
                        #[trigger] genes@[i],
                    ),
            decreases 8 - index,
        {
            let mut gene = self.0[index].merge(&other.0[index], true);
            if index > 3 {
                gene.mutate();
            }
            genes[index] = gene;
            index += 1;
        }
        Sequence(genes)
    }

    /// Mutates one gene, drawn at random among the positions 5 to 7.
    pub fn mutate(&mut self)
        ensures
            final(self).is_mutation_of(*old(self)),
    {
        let index: usize = 5 + random_below(3);
        let mut gene = self.0[index];
        gene.mutate();
        self.0[index] = gene;
        assert(old(self)@[index as int].is_point_mutation(self@[index as int]));
    }

    /// The text form of the sequence: the text forms of its eight genes with
    /// a `-` between neighbours.
    pub fn to_string(&self) -> (text: String)
        ensures
            text@ == self.rendering(),
    {
        let mut text = String::new();
        let mut i: usize = 0;
        while i < 8
            invariant
                i <= 8,
                text@ == self.rendering().take(
                    if i == 0 {
                        0
                    } else {
                        5 * i - 1
                    },
                ),
            decreases 8 - i,
        {
            if i > 0 {
                proof {
                    reveal_strlit("-");
                }
                text.append("-");
                assert(text@ == self.rendering().take(5 * i));
            }
            let gene = self.0[i].to_string();
            text.append(gene.as_str());
            assert(text@ == self.rendering().take(5 * i + 4));
            i += 1;
        }
        text
    }
}

impl PartialEq for Sequence {
    /// Sequences are equal when they hold the same gene at every position.
    fn eq(&self, other: &Sequence) -> (equal: bool) {
        let mut i: usize = 0;
        while i < 8
            invariant
                i <= 8,
                forall|j: int| 0 <= j < i ==> self.0@[j] == other.0@[j],
            decreases 8 - i,
        {
            if self.0[i] != other.0[i] {
                return false;
            }
            i += 1;
        }
        assert(self.0 =~= other.0);
        true
    }
}

impl PartialEqSpecImpl for Sequence {
    open spec fn obeys_eq_spec() -> bool {
        true
    }

    open spec fn eq_spec(&self, other: &Sequence) -> bool {
        *self == *other
    }
}

/// A sequence has exactly eight genes.
pub proof fn lemma_view_len_eight(sequence: Sequence)
    ensures
        sequence@.len() == 8,
{
}

/// Breeding a sequence with itself keeps its head: the first four genes of
/// the child are those of the parent. The tail genes are mutated, so each
/// differs from the parent's in exactly one protein.
pub proof fn lemma_merge_with_self(child: Sequence, parent: Sequence)
    requires
        child.is_offspring(parent, parent),
    ensures
        forall|i: int| 0 <= i < 4 ==> #[trigger] child@[i] == parent@[i],
        forall|i: int| 4 <= i < 8 ==> (#[trigger] parent@[i]).is_point_mutation(child@[i]),
        forall|i: int| 4 <= i < 8 ==> #[trigger] child@[i] != parent@[i],
{
    assert forall|i: int| 0 <= i < 8 implies (#[trigger] parent@[i]).merged(parent@[i], true)
        == parent@[i] by {
        lemma_merge_idempotent(parent@[i], true);
    }
    assert forall|i: int| 4 <= i < 8 implies (#[trigger] parent@[i]).is_point_mutation(
        child@[i],
    ) by {
        assert(parent@[i].merged(parent@[i], true).is_point_mutation(child@[i]));
    }
    assert forall|i: int| 4 <= i < 8 implies #[trigger] child@[i] != parent@[i] by {
        assert(parent@[i].is_point_mutation(child@[i]));
        lemma_point_mutation_differs(parent@[i], child@[i]);
    }
}

/// Every tail gene of a child differs from the gene that won the merge at
/// its position. It also differs from both parents' genes there, unless
/// those two differ from each other in exactly one protein, in which case
/// the mutation can turn the winner into the loser.
pub proof fn lemma_offspring_tail_is_mutated(child: Sequence, a: Sequence, b: Sequence, i: int)
    requires
        child.is_offspring(a, b),
        4 <= i < 8,
    ensures
        child@[i] != a@[i].merged(b@[i], true),
        a@[i] == b@[i] ==> child@[i] != a@[i],
        !a@[i].is_point_mutation(b@[i]) ==> child@[i] != a@[i] && child@[i] != b@[i],
{
    let winner = a@[i].merged(b@[i], true);
    assert(winner.is_point_mutation(child@[i]));
    lemma_point_mutation_differs(winner, child@[i]);
    lemma_merge_inherits_parent(a@[i], b@[i], true);
    lemma_merge_idempotent(a@[i], true);
    if child@[i] == a@[i] {
        lemma_point_mutation_symmetric(b@[i], a@[i]);
    }
}

/// The text form depends on nothing but the sequence, and tells sequences
/// apart: two sequences have the same text form exactly when they are the
/// same sequence.
pub proof fn lemma_rendering_identifies_sequence(a: Sequence, b: Sequence)
    ensures
        a == b ==> a.rendering() == b.rendering(),
        a.rendering() == b.rendering() ==> a == b,
{
    if a.rendering() == b.rendering() {
        assert forall|g: int| 0 <= g < 8 implies a@[g] == b@[g] by {
            assert forall|i: int| 0 <= i < 4 implies a@[g]@[i] == b@[g]@[i] by {
                let k = 5 * g + i;
                assert(k / 5 == g && k % 5 == i);
                assert(a.rendering()[k] == b.rendering()[k]);
                lemma_symbol_identifies_protein(a@[g]@[i], b@[g]@[i]);
            }
            lemma_view_len(a@[g]);
            lemma_view_len(b@[g]);
            assert(a@[g]@ =~= b@[g]@);
            lemma_view_injective(a@[g], b@[g]);
        }
        assert(a@ =~= b@);
        lemma_genes_determine_sequence(a, b);
    }
}

/// Sequences with the same genes are equal.
pub proof fn lemma_genes_determine_sequence(a: Sequence, b: Sequence)
    requires
        a@ == b@,
    ensures
        a == b,
{
    assert(a.0 =~= b.0);
}

} // verus!
