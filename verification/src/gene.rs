//! Genes: four proteins in a fixed order.

use crate::entropy::random_below;
use crate::protein::{lemma_symbol_identifies_protein, Protein};
use crate::weight_rule::{calculate_gene_weight, gene_rules_spec, weighted};
use vstd::prelude::*;
use vstd::std_specs::cmp::PartialEqSpecImpl;

verus! {

/// An ordered tuple of exactly four proteins.
///
/// The model of a gene is the sequence of its proteins, `gene@`, which
/// always has length four (see [`lemma_view_len`]). Two genes with the same
/// proteins are the same gene (see [`lemma_view_injective`]).
#[derive(Debug, Clone, Copy, Eq)]
pub struct Gene([Protein; 4]);

/// What one mutation did to a gene: the position that changed, the protein
/// that stood there before, and the protein that stands there now.
#[derive(Debug, Clone, Copy, PartialEq, Eq, Structural)]
pub struct Mutation {
    pub index: usize,
    pub previous: Protein,
    pub replacement: Protein,
}

impl View for Gene {
    type V = Seq<Protein>;

    closed spec fn view(&self) -> Seq<Protein> {
        self.0@
    }
}

/// Position `i` is where `a` and `b` first differ: they hold different
/// proteins at `i` and the same protein at every earlier position.
pub open spec fn is_first_difference(a: Seq<Protein>, b: Seq<Protein>, i: int) -> bool {
    &&& 0 <= i < a.len()
    &&& i < b.len()
    &&& a[i] != b[i]
    &&& forall|j: int| 0 <= j < i ==> a[j] == b[j]
}

/// `a` and `b` have the same length and differ at position `i` and nowhere
/// else.
pub open spec fn differs_only_at(a: Seq<Protein>, b: Seq<Protein>, i: int) -> bool {
    &&& a.len() == b.len()
    &&& 0 <= i < a.len()
    &&& a[i] != b[i]
    &&& forall|j: int| 0 <= j < a.len() && j != i ==> a[j] == b[j]
}

/// The sum of the proteins' scores, each multiplied by its position counted
/// from one: the first protein counts once, the second twice, and so on.
pub open spec fn weighted_sum(proteins: Seq<Protein>) -> int
    decreases proteins.len(),
{
    if proteins.len() == 0 {
        0
    } else {
        weighted_sum(proteins.drop_last()) + proteins.len() * proteins.last().value_spec()
    }
}

impl Gene {
    /// The gene that every tail position of a fresh sequence holds: `AAAA`.
    pub open spec fn default_proteins() -> Seq<Protein> {
        seq![Protein::A, Protein::A, Protein::A, Protein::A]
    }

    /// The child of `self` and `other`.
    ///
    /// Where the parents are equal the child is that gene. Otherwise the
    /// parents are compared at the first position where they differ: with
    /// `asc` the parent holding the protein of greater rank is inherited
    /// whole, without `asc` the parent holding the protein of lesser rank.
    pub open spec fn merged(self, other: Gene, asc: bool) -> Gene {
        if exists|i: int| is_first_difference(self@, other@, i) {
            let i = choose|i: int| is_first_difference(self@, other@, i);
            if (self@[i].rank_spec() > other@[i].rank_spec()) == asc {
                self
            } else {
                other
            }
        } else {
            self
        }
    }

    /// `other` is `self` with exactly one protein replaced by a different
    /// one.
    pub open spec fn is_point_mutation(self, other: Gene) -> bool {
        exists|i: int| differs_only_at(self@, other@, i)
    }

    /// The value of the gene: the position-weighted sum of its proteins'
    /// scores, weighted by the rules for genes.
    pub open spec fn value_spec(self) -> int {
        weighted(weighted_sum(self@), gene_rules_spec(), self@)
    }

    /// The text form of the gene: the four symbol characters in order.
    pub open spec fn rendering(self) -> Seq<char> {
        Seq::new(4, |i: int| self@[i].symbol_spec())
    }

    /// The gene made of the given proteins.
    pub fn new(proteins: [Protein; 4]) -> (gene: Gene)
        ensures
            gene@ == proteins@,
    {
        Gene(proteins)
    }

    /// A gene of four proteins, each drawn at random.
    ///
    /// Every gene of four proteins can come back: the draws are the only
    /// thing left open.
    pub fn genesis() -> (gene: Gene)
        ensures
            gene@.len() == 4,
    {
        Gene::new([Protein::random(), Protein::random(), Protein::random(), Protein::random()])
    }

    /// The proteins of the gene, borrowed.
    pub fn as_ref(&self) -> (proteins: &[Protein; 4])
        ensures
            proteins@ == self@,
    {
        &self.0
    }

    /// The proteins of the gene, copied into a vector.
    pub fn proteins(&self) -> (proteins: Vec<Protein>)
        ensures
            proteins@ == self@,
    {
        let mut proteins: Vec<Protein> = Vec::new();
        let mut i: usize = 0;
        while i < 4
            invariant
                i <= 4,
                proteins@ == self.0@.take(i as int),
            decreases 4 - i,
        {
            proteins.push(self.0[i]);
            i += 1;
        }
        proteins
    }

    /// The value of the gene: the position-weighted sum of its proteins'
    /// scores, weighted by the rules for genes and rounded down.
    ///
    /// No rule is set for genes, so the value is the weighted sum itself,
    /// which is at most 30.
    pub fn value(&self) -> (value: u64)
        ensures
            value == self.value_spec(),
            value == weighted_sum(self@),
            value <= 30,
    {
        let mut sum: u64 = 0;
        let mut i: usize = 0;
        while i < 4
            invariant
                i <= 4,
                sum == weighted_sum(self.0@.take(i as int)),
            decreases 4 - i,
        {
            proof {
                assert(self.0@.take(i + 1).drop_last() == self.0@.take(i as int));
                lemma_weighted_sum_bounds(self.0@.take(i + 1));
            }
            let score: u64 = self.0[i].value() as u64;
            assert((i + 1) * score == self.0@.take(i + 1).len() * self.0@[i as int].value_spec());
            sum = sum + (i as u64 + 1) * score;
            i += 1;
        }
        proof {
            assert(self.0@.take(4) == self.0@);
            lemma_weighted_sum_bounds(self.0@);
        }
        let weight = calculate_gene_weight(self.0.as_slice());
        weight.scale(sum)
    }

    /// Puts `replacement` at position `index` and reports what changed.
    ///
    /// This is the part of a mutation that is left once the position and the
    /// new protein have been chosen.
    pub fn replace(&mut self, index: usize, replacement: Protein) -> (mutation: Mutation)
        requires
            index < 4,
        ensures
            final(self)@ == old(self)@.update(index as int, replacement),
            mutation.index == index,
            mutation.previous == old(self)@[index as int],
            mutation.replacement == replacement,
    {
        let previous = self.0[index];
        self.0[index] = replacement;
        Mutation { index, previous, replacement }
    }

    /// Changes the gene at one position drawn at random, to a protein drawn
    /// at random among the three that differ from the one that stood there.
    ///
    /// The gene afterwards differs from the gene before at the reported
    /// position and nowhere else.
    pub fn mutate(&mut self) -> (mutation: Mutation)
        ensures
            mutation.index < 4,
            mutation.previous == old(self)@[mutation.index as int],
            mutation.replacement != mutation.previous,
            final(self)@ == old(self)@.update(mutation.index as int, mutation.replacement),
            differs_only_at(old(self)@, final(self)@, mutation.index as int),
            old(self).is_point_mutation(*final(self)),
    {
        let index: usize = random_below(4);
        let replacement = Protein::random_except(self.0[index]);
        let mutation = self.replace(index, replacement);
        assert(differs_only_at(old(self)@, self@, index as int));
        mutation
    }

    /// Breeds `self` with `other`.
    ///
    /// The child is one of the two parents, whole: the one that wins at the
    /// first position where they differ. With `asc` the protein of greater
    /// rank wins, without it the protein of lesser rank. Equal parents give
    /// that same gene.
    pub fn merge(&self, other: &Gene, asc: bool) -> (child: Gene)
        ensures
            child == self.merged(*other, asc),
    {
        let mut i: usize = 0;
        while i < 4
            invariant
                i <= 4,
                forall|j: int| 0 <= j < i ==> self@[j] == other@[j],
            decreases 4 - i,
        {
            let mine = self.0[i];
            let theirs = other.0[i];
            if mine != theirs {
                assert(is_first_difference(self@, other@, i as int));
                proof {
                    lemma_first_difference_unique(self@, other@, i as int);
                }
                return if (mine.rank() > theirs.rank()) == asc {
                    *self
                } else {
                    *other
                };
            }
            i += 1;
        }
        assert(forall|k: int| !is_first_difference(self@, other@, k));
        *self
    }

    /// The text form of the gene: its four symbol characters in order.
    pub fn to_string(&self) -> (text: String)
        ensures
            text@ == self.rendering(),
    {
        let mut text = String::new();
        let mut i: usize = 0;
        while i < 4
            invariant
                i <= 4,
                text@ == self.rendering().take(i as int),
            decreases 4 - i,
        {
            text.append(self.0[i].as_str());
            assert(text@ == self.rendering().take(i + 1));
            i += 1;
        }
        text
    }
}

impl PartialEq for Gene {
    /// Genes are equal when they hold the same protein at every position.
    fn eq(&self, other: &Gene) -> (equal: bool) {
        let mut i: usize = 0;
        while i < 4
            invariant
                i <= 4,
                forall|j: int| 0 <= j < i ==> self.0@[j] == other.0@[j],
            decreases 4 - i,
        {
            if self.0[i] != other.0[i] {
                return false;
            }
            i += 1;
        }
        assert(self.0 =~= other.0);
        true
    }
}

impl PartialEqSpecImpl for Gene {
    open spec fn obeys_eq_spec() -> bool {
        true
    }

    open spec fn eq_spec(&self, other: &Gene) -> bool {
        *self == *other
    }
}

impl Default for Gene {
    /// The fixed gene `AAAA`.
    fn default() -> (gene: Gene)
        ensures
            gene@ == Gene::default_proteins(),
    {
        Gene([Protein::A, Protein::A, Protein::A, Protein::A])
    }
}

/// A gene has exactly four proteins.
pub proof fn lemma_view_len(gene: Gene)
    ensures
        gene@.len() == 4,
{
}

/// Genes with the same proteins are equal.
pub proof fn lemma_view_injective(a: Gene, b: Gene)
    requires
        a@ == b@,
    ensures
        a == b,
{
    assert(a.0 =~= b.0);
}

/// A weighted sum is not negative, and is largest where every protein has
/// the top score of three: for four proteins, 30.
pub proof fn lemma_weighted_sum_bounds(proteins: Seq<Protein>)
    ensures
        0 <= weighted_sum(proteins),
        2 * weighted_sum(proteins) <= 3 * proteins.len() * (proteins.len() + 1),
        proteins.len() <= 4 ==> weighted_sum(proteins) <= 30,
    decreases proteins.len(),
{
    let total = weighted_sum(proteins);
    if proteins.len() > 0 {
        lemma_weighted_sum_bounds(proteins.drop_last());
        let len = proteins.len() as int;
        let score = proteins.last().value_spec();
        let rest = weighted_sum(proteins.drop_last());
        assert(0 <= len * score && 2 * (rest + len * score) <= 3 * len * (len + 1))
            by (nonlinear_arith)
            requires
                len >= 1,
                0 <= score <= 3,
                0 <= rest,
                2 * rest <= 3 * (len - 1) * (len - 1 + 1),
        ;
        if len <= 4 {
            assert(total <= 30) by (nonlinear_arith)
                requires
                    1 <= len <= 4,
                    2 * total <= 3 * len * (len + 1),
            ;
        }
    }
}

/// Two sequences have at most one first difference.
pub proof fn lemma_first_difference_unique(a: Seq<Protein>, b: Seq<Protein>, i: int)
    requires
        is_first_difference(a, b, i),
    ensures
        forall|k: int| is_first_difference(a, b, k) ==> k == i,
{
    assert forall|k: int| is_first_difference(a, b, k) implies k == i by {
        if k < i {
            assert(a[k] == b[k]);
        } else if i < k {
            assert(a[i] == b[i]);
        }
    }
}

/// Merging a gene with itself gives that gene, in either direction.
pub proof fn lemma_merge_idempotent(gene: Gene, asc: bool)
    ensures
        gene.merged(gene, asc) == gene,
{
}

/// The child of a merge is one of its two parents.
pub proof fn lemma_merge_inherits_parent(a: Gene, b: Gene, asc: bool)
    ensures
        a.merged(b, asc) == a || a.merged(b, asc) == b,
{
}

/// Where two genes first differ at position `i`, the merge returns the
/// parent that holds the protein of greater rank at `i` when `asc` is set,
/// and the parent that holds the protein of lesser rank when it is not.
pub proof fn lemma_merge_first_difference_wins(a: Gene, b: Gene, i: int, asc: bool)
    requires
        is_first_difference(a@, b@, i),
    ensures
        a@[i].rank_spec() != b@[i].rank_spec(),
        asc ==> a.merged(b, asc) == (if a@[i].rank_spec() > b@[i].rank_spec() {
            a
        } else {
            b
        }),
        !asc ==> a.merged(b, asc) == (if a@[i].rank_spec() < b@[i].rank_spec() {
            a
        } else {
            b
        }),
{
    lemma_first_difference_unique(a@, b@, i);
}

/// The text form depends on nothing but the gene, and tells genes apart:
/// two genes have the same text form exactly when they are the same gene.
pub proof fn lemma_rendering_identifies_gene(a: Gene, b: Gene)
    ensures
        a == b ==> a.rendering() == b.rendering(),
        a.rendering() == b.rendering() ==> a == b,
{
    if a.rendering() == b.rendering() {
        assert forall|i: int| 0 <= i < 4 implies a@[i] == b@[i] by {
            assert(a.rendering()[i] == b.rendering()[i]);
            lemma_symbol_identifies_protein(a@[i], b@[i]);
        }
        assert(a@ =~= b@);
        lemma_view_injective(a, b);
    }
}

/// Where one gene is a point mutation of another, the other is a point
/// mutation of the one.
pub proof fn lemma_point_mutation_symmetric(a: Gene, b: Gene)
    ensures
        a.is_point_mutation(b) == b.is_point_mutation(a),
{
    if a.is_point_mutation(b) {
        let i = choose|i: int| differs_only_at(a@, b@, i);
        assert(differs_only_at(b@, a@, i));
    }
    if b.is_point_mutation(a) {
        let i = choose|i: int| differs_only_at(b@, a@, i);
        assert(differs_only_at(a@, b@, i));
    }
}

/// A mutation always changes the gene: a gene is no point mutation of
/// itself, and a point mutation of a gene differs from it.
pub proof fn lemma_point_mutation_differs(a: Gene, b: Gene)
    requires
        a.is_point_mutation(b),
    ensures
        a != b,
{
}

} // verus!
