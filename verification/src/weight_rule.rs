//! The weight rule engine: scoring modifiers computed from a run of proteins.
//!
//! A rule looks at a run of proteins and either awards a bonus, the factor
//! 11/10, or leaves the score alone, the factor 1/1. The weight of a list of
//! rules is the product of their factors, kept as an exact fraction. A value
//! is weighted by multiplying it with that fraction and dropping what
//! follows the decimal point.
//!
//! The lists that genes and sequences are scored with are empty, so both
//! are weighted by exactly one.

use crate::protein::Protein;
use std::collections::HashSet;
use vstd::arithmetic::power::{lemma_pow_increases, pow};
use vstd::prelude::*;

verus! {

/// The most rules that one list may hold: with more, a numerator of
/// `11^19` or above would no longer fit in 64 bits.
pub const MAX_RULES: usize = 18;

/// A scoring modifier: the exact fraction `num() / den()`, whose
/// denominator is never zero.
#[derive(Debug, Clone, Copy, PartialEq, Eq, Structural)]
pub struct Weight {
    numerator: u64,
    denominator: u64,
}

/// The kinds of rule that the engine knows.
#[derive(Debug, Clone, Copy, PartialEq, Eq, Structural)]
pub enum Rule {
    /// Awards a run whose first and last protein are equal.
    PalindromeEdges,
    /// Awards a run that is a tile of two or more proteins laid end to end
    /// at least twice.
    UniformRun,
    /// Awards a run in which every protein equals the first.
    AllIdentical,
    /// Awards a run in which all four symbols occur.
    FullCoverage,
}

/// The run is not empty and begins and ends with the same protein.
pub open spec fn edges_match(proteins: Seq<Protein>) -> bool {
    proteins.len() > 0 && proteins.first() == proteins.last()
}

/// Every protein of the run equals the first. An empty run qualifies.
pub open spec fn all_identical(proteins: Seq<Protein>) -> bool {
    forall|i: int| 0 <= i < proteins.len() ==> #[trigger] proteins[i] == proteins[0]
}

/// The run repeats with the given period: every protein equals the one
/// at the same offset within the first `period` proteins.
pub open spec fn repeats_every(proteins: Seq<Protein>, period: int) -> bool {
    forall|i: int| 0 <= i < proteins.len() ==> #[trigger] proteins[i] == proteins[i % period]
}

/// The first `period` proteins, laid end to end a whole number of times,
/// give the run.
pub open spec fn tiled_by(proteins: Seq<Protein>, period: int) -> bool {
    &&& 0 < period
    &&& proteins.len() % (period as nat) == 0
    &&& repeats_every(proteins, period)
}

/// Some tile of at least two proteins, laid end to end at least twice,
/// gives the run.
pub open spec fn has_repeating_tile(proteins: Seq<Protein>) -> bool {
    exists|period: int| 2 <= period <= proteins.len() / 2 && tiled_by(proteins, period)
}

/// The run holds four distinct symbols.
pub open spec fn covers_all_symbols(proteins: Seq<Protein>) -> bool {
    proteins.to_set().len() == 4
}

/// The index of the symbol, as the key under which it is collected.
pub open spec fn index_key(protein: Protein) -> u8 {
    protein.index_spec() as u8
}

/// The number of rules in the list that award the run.
pub open spec fn bonus_count(rules: Seq<Rule>, proteins: Seq<Protein>) -> nat
    decreases rules.len(),
{
    if rules.len() == 0 {
        0
    } else {
        bonus_count(rules.drop_last(), proteins) + if rules.last().awards(proteins) {
            1nat
        } else {
            0nat
        }
    }
}

/// `value` multiplied by `numerator / denominator`, rounded down and capped
/// at the largest 64-bit number.
pub open spec fn scaled(value: int, numerator: int, denominator: int) -> int {
    let exact = value * numerator / denominator;
    if exact > u64::MAX {
        u64::MAX as int
    } else {
        exact
    }
}

/// `value` weighted by the rules of the list, each rule that awards the run
/// contributing the factor 11/10.
pub open spec fn weighted(value: int, rules: Seq<Rule>, proteins: Seq<Protein>) -> int {
    scaled(value, pow(11, bonus_count(rules, proteins)), pow(10, bonus_count(rules, proteins)))
}

/// The rules that genes are scored with: none.
pub open spec fn gene_rules_spec() -> Seq<Rule> {
    Seq::empty()
}

/// The rules that sequences are scored with: none.
pub open spec fn sequence_rules_spec() -> Seq<Rule> {
    Seq::empty()
}

impl Weight {
    #[verifier::type_invariant]
    spec fn well_formed(self) -> bool {
        self.denominator > 0
    }

    /// The numerator of the fraction.
    pub closed spec fn num(self) -> int {
        self.numerator as int
    }

    /// The denominator of the fraction.
    pub closed spec fn den(self) -> int {
        self.denominator as int
    }

    /// The weight is the factor of a rule that awarded (`granted`), 11/10,
    /// or of one that did not, 1/1.
    pub open spec fn is_award(self, granted: bool) -> bool {
        if granted {
            self.num() == 11 && self.den() == 10
        } else {
            self.num() == 1 && self.den() == 1
        }
    }

    /// The weight that changes nothing: 1/1.
    pub fn neutral() -> (weight: Weight)
        ensures
            weight.is_award(false),
    {
        Weight { numerator: 1, denominator: 1 }
    }

    /// The weight of one bonus: 11/10.
    pub fn bonus() -> (weight: Weight)
        ensures
            weight.is_award(true),
    {
        Weight { numerator: 11, denominator: 10 }
    }

    /// The bonus if `granted`, else the neutral weight.
    pub fn award(granted: bool) -> (weight: Weight)
        ensures
            weight.is_award(granted),
    {
        if granted {
            Weight::bonus()
        } else {
            Weight::neutral()
        }
    }

    /// The numerator of the fraction.
    pub fn numerator(&self) -> (numerator: u64)
        ensures
            numerator == self.num(),
    {
        self.numerator
    }

    /// The denominator of the fraction, which is never zero.
    pub fn denominator(&self) -> (denominator: u64)
        ensures
            denominator == self.den(),
            denominator > 0,
    {
        proof {
            use_type_invariant(self);
        }
        self.denominator
    }

    /// The product of two weights, numerator by numerator and denominator
    /// by denominator. Both products have to fit in 64 bits.
    pub fn times(&self, other: &Weight) -> (product: Weight)
        requires
            self.num() * other.num() <= u64::MAX,
            self.den() * other.den() <= u64::MAX,
        ensures
            product.num() == self.num() * other.num(),
            product.den() == self.den() * other.den(),
    {
        proof {
            use_type_invariant(self);
            use_type_invariant(other);
            assert(self.den() * other.den() > 0) by (nonlinear_arith)
                requires
                    self.den() > 0,
                    other.den() > 0,
            ;
        }
        Weight {
            numerator: self.numerator * other.numerator,
            denominator: self.denominator * other.denominator,
        }
    }

    /// `value` multiplied by the weight, rounded down, and capped at the
    /// largest 64-bit number.
    pub fn scale(&self, value: u64) -> (result: u64)
        ensures
            result == scaled(value as int, self.num(), self.den()),
    {
        proof {
            use_type_invariant(self);
            assert(value * self.numerator <= u64::MAX * u64::MAX) by (nonlinear_arith)
                requires
                    value <= u64::MAX,
                    self.numerator <= u64::MAX,
            ;
        }
        let product: u128 = (value as u128) * (self.numerator as u128);
        let exact: u128 = product / (self.denominator as u128);
        if exact > u64::MAX as u128 {
            u64::MAX
        } else {
            exact as u64
        }
    }
}

impl Rule {
    /// Whether the rule awards the run.
    pub open spec fn awards(self, proteins: Seq<Protein>) -> bool {
        match self {
            Rule::PalindromeEdges => edges_match(proteins),
            Rule::UniformRun => has_repeating_tile(proteins),
            Rule::AllIdentical => all_identical(proteins),
            Rule::FullCoverage => covers_all_symbols(proteins),
        }
    }

    /// The factor that the rule contributes for the run: the bonus where it
    /// awards, the neutral weight where it does not.
    pub fn score(&self, proteins: &[Protein]) -> (weight: Weight)
        ensures
            weight.is_award(self.awards(proteins@)),
    {
        match self {
            Rule::PalindromeEdges => start_end_same_protein(proteins),
            Rule::UniformRun => proteins_in_sequence(proteins),
            Rule::AllIdentical => same_proteins(proteins),
            Rule::FullCoverage => contain_all_proteins(proteins),
        }
    }
}

/// Whether every protein of the run equals the one at the same offset
/// within the first `period` proteins.
fn repeats_with_period(proteins: &[Protein], period: usize) -> (repeats: bool)
    requires
        period > 0,
    ensures
        repeats == repeats_every(proteins@, period as int),
{
    let mut i: usize = 0;
    while i < proteins.len()
        invariant
            period > 0,
            i <= proteins.len(),
            forall|j: int| 0 <= j < i ==> #[trigger] proteins@[j] == proteins@[j % (period as int)],
        decreases proteins.len() - i,
    {
        assert(0 <= i % period <= i) by (nonlinear_arith)
            requires
                period > 0,
        ;
        if proteins[i] != proteins[i % period] {
            return false;
        }
        i += 1;
    }
    true
}

/// The uniform-run rule: the bonus for a run that is a tile of two or more
/// proteins laid end to end at least twice, else the neutral weight.
pub fn proteins_in_sequence(proteins: &[Protein]) -> (weight: Weight)
    ensures
        weight.is_award(has_repeating_tile(proteins@)),
{
    let len = proteins.len();
    let mut period: usize = 2;
    while period <= len / 2
        invariant
            len == proteins@.len(),
            2 <= period,
            forall|p: int| 2 <= p < period ==> !tiled_by(proteins@, p),
        decreases len - period,
    {
        if len % period == 0 && repeats_with_period(proteins, period) {
            assert(tiled_by(proteins@, period as int));
            return Weight::bonus();
        }
        period += 1;
    }
    Weight::neutral()
}

/// The all-identical rule: the bonus for a run in which every protein
/// equals the first, else the neutral weight.
pub fn same_proteins(proteins: &[Protein]) -> (weight: Weight)
    ensures
        weight.is_award(all_identical(proteins@)),
{
    let mut i: usize = 0;
    while i < proteins.len()
        invariant
            i <= proteins.len(),
            forall|j: int| 0 <= j < i ==> #[trigger] proteins@[j] == proteins@[0],
        decreases proteins.len() - i,
    {
        if proteins[i] != proteins[0] {
            return Weight::neutral();
        }
        i += 1;
    }
    Weight::bonus()
}

/// The palindrome-edges rule: the bonus for a run that is not empty and
/// begins and ends with the same protein, else the neutral weight.
pub fn start_end_same_protein(proteins: &[Protein]) -> (weight: Weight)
    ensures
        weight.is_award(edges_match(proteins@)),
{
    let len = proteins.len();
    Weight::award(len > 0 && proteins[0] == proteins[len - 1])
}

/// The full-coverage rule: the bonus for a run that holds four distinct
/// symbols, else the neutral weight.
///
/// The indices of the symbols are collected in a hash set, and the bonus
/// is awarded where the set ends up with four members.
pub fn contain_all_proteins(proteins: &[Protein]) -> (weight: Weight)
    ensures
        weight.is_award(covers_all_symbols(proteins@)),
{
    broadcast use vstd::std_specs::hash::group_hash_axioms;

    let mut seen: HashSet<u8> = HashSet::new();
    let mut i: usize = 0;
    while i < proteins.len()
        invariant
            i <= proteins.len(),
            seen@.finite(),
            forall|k: u8| seen@.contains(k) ==> k < 4,
            forall|p: Protein|
                seen@.contains(#[trigger] index_key(p)) == proteins@.take(i as int).contains(p),
        decreases proteins.len() - i,
    {
        let ghost before = proteins@.take(i as int);
        let ghost after = proteins@.take(i + 1);
        let ghost current = proteins@[i as int];
        assert(after == before.push(current));
        assert forall|p: Protein| after.contains(p) == (before.contains(p) || p == current) by {
            if before.contains(p) {
                let k = choose|k: int| 0 <= k < before.len() && before[k] == p;
                assert(after[k] == p);
            }
            if p == current {
                assert(after[i as int] == p);
            }
        }
        seen.insert(proteins[i].index());
        i += 1;
    }
    proof {
        assert(proteins@.take(i as int) == proteins@);
        lemma_full_coverage(proteins@);
        lemma_four_indices(seen@);
        assert(index_key(Protein::A) == 0 && index_key(Protein::C) == 1 && index_key(Protein::G)
            == 2 && index_key(Protein::T) == 3);
    }
    Weight::award(seen.len() == 4)
}

/// The weight that the list of rules gives the run: the product of the
/// rules' factors, which is `11^k / 10^k` for the `k` rules that award.
pub fn calculate_weight(rules: &[Rule], proteins: &[Protein]) -> (weight: Weight)
    requires
        rules@.len() <= MAX_RULES,
    ensures
        weight.num() == pow(11, bonus_count(rules@, proteins@)),
        weight.den() == pow(10, bonus_count(rules@, proteins@)),
        rules@.len() == 0 ==> weight.is_award(false),
{
    let mut weight = Weight::neutral();
    let mut i: usize = 0;
    proof {
        lemma_pow_step(11, 0);
        lemma_pow_step(10, 0);
        assert(rules@.take(0).len() == 0);
    }
    while i < rules.len()
        invariant
            i <= rules.len() <= MAX_RULES,
            bonus_count(rules@.take(i as int), proteins@) <= i,
            weight.num() == pow(11, bonus_count(rules@.take(i as int), proteins@)),
            weight.den() == pow(10, bonus_count(rules@.take(i as int), proteins@)),
        decreases rules.len() - i,
    {
        let factor = rules[i].score(proteins);
        proof {
            let sofar = bonus_count(rules@.take(i as int), proteins@);
            assert(rules@.take(i + 1).drop_last() == rules@.take(i as int));
            assert(rules@.take(i + 1).last() == rules@[i as int]);
            lemma_pow_step(11, sofar);
            lemma_pow_step(10, sofar);
            lemma_power_fits(sofar + 1);
        }
        weight = weight.times(&factor);
        i += 1;
    }
    proof {
        assert(rules@.take(i as int) == rules@);
        lemma_pow_step(11, 0);
    }
    weight
}

/// The rules that genes are scored with: none.
pub fn gene_rules() -> (rules: Vec<Rule>)
    ensures
        rules@ == gene_rules_spec(),
{
    Vec::new()
}

/// The rules that sequences are scored with: none.
pub fn sequence_rules() -> (rules: Vec<Rule>)
    ensures
        rules@ == sequence_rules_spec(),
{
    Vec::new()
}

/// The weight of a gene's proteins under the rules for genes.
pub fn calculate_gene_weight(proteins: &[Protein]) -> (weight: Weight)
    ensures
        weight.num() == pow(11, bonus_count(gene_rules_spec(), proteins@)),
        weight.den() == pow(10, bonus_count(gene_rules_spec(), proteins@)),
        weight.is_award(false),
{
    let rules = gene_rules();
    calculate_weight(rules.as_slice(), proteins)
}

/// The weight of a sequence's proteins under the rules for sequences.
pub fn calculate_sequence_weight(proteins: &[Protein]) -> (weight: Weight)
    ensures
        weight.num() == pow(11, bonus_count(sequence_rules_spec(), proteins@)),
        weight.den() == pow(10, bonus_count(sequence_rules_spec(), proteins@)),
        weight.is_award(false),
{
    let rules = sequence_rules();
    calculate_weight(rules.as_slice(), proteins)
}

/// Weights with the same numerator and the same denominator are equal.
pub proof fn lemma_fraction_determines_weight(a: Weight, b: Weight)
    requires
        a.num() == b.num(),
        a.den() == b.den(),
    ensures
        a == b,
{
}

/// One more factor: `base^(exponent + 1)` is `base^exponent * base`, and
/// `base^0` is one.
pub proof fn lemma_pow_step(base: int, exponent: nat)
    ensures
        pow(base, 0) == 1,
        pow(base, exponent + 1) == pow(base, exponent) * base,
        pow(base, exponent) * 1 == pow(base, exponent),
{
    reveal(pow);
    assert(pow(base, exponent + 1) == base * pow(base, exponent));
    assert(base * pow(base, exponent) == pow(base, exponent) * base) by (nonlinear_arith);
}

/// Numerator and denominator of up to [`MAX_RULES`] bonuses fit in 64 bits.
pub proof fn lemma_power_fits(exponent: nat)
    requires
        exponent <= MAX_RULES,
    ensures
        0 < pow(10, exponent) <= pow(11, exponent) <= u64::MAX,
{
    assert(pow(11, 18) == 5559917313492231481) by {
        reveal_with_fuel(pow, 19);
    }
    lemma_pow_increases(11, exponent, 18);
    lemma_tens_below_elevens(exponent);
}

/// A power of ten is positive and no greater than the same power of
/// eleven.
pub proof fn lemma_tens_below_elevens(exponent: nat)
    ensures
        0 < pow(10, exponent) <= pow(11, exponent),
    decreases exponent,
{
    reveal(pow);
    if exponent > 0 {
        lemma_tens_below_elevens((exponent - 1) as nat);
        let tens = pow(10, (exponent - 1) as nat);
        let elevens = pow(11, (exponent - 1) as nat);
        assert(0 < 10 * tens <= 11 * elevens) by (nonlinear_arith)
            requires
                0 < tens <= elevens,
        ;
    }
}

/// A set of indices below four has four members exactly when it holds each
/// of the four indices.
pub proof fn lemma_four_indices(indices: Set<u8>)
    requires
        indices.finite(),
        forall|k: u8| indices.contains(k) ==> k < 4,
    ensures
        indices.len() == 4 <==> (indices.contains(0) && indices.contains(1) && indices.contains(2)
            && indices.contains(3)),
{
    let all: Set<u8> = set![0u8, 1u8, 2u8, 3u8];
    assert(all.len() == 4);
    assert(indices.subset_of(all));
    if indices.contains(0) && indices.contains(1) && indices.contains(2) && indices.contains(3) {
        assert(indices =~= all);
    } else {
        let missing: u8 = if !indices.contains(0) {
            0
        } else if !indices.contains(1) {
            1
        } else if !indices.contains(2) {
            2
        } else {
            3
        };
        assert(indices.subset_of(all.remove(missing)));
        vstd::set_lib::lemma_len_subset(indices, all.remove(missing));
        assert(all.remove(missing).len() == 3);
    }
}

/// A run holds four distinct symbols exactly when each of the four symbols
/// occurs in it.
pub proof fn lemma_full_coverage(proteins: Seq<Protein>)
    ensures
        covers_all_symbols(proteins) <==> (proteins.contains(Protein::A) && proteins.contains(
            Protein::C,
        ) && proteins.contains(Protein::G) && proteins.contains(Protein::T)),
{
    let found = proteins.to_set();
    let all = set![Protein::A, Protein::C, Protein::G, Protein::T];
    vstd::seq_lib::seq_to_set_is_finite(proteins);
    assert(all.len() == 4);
    assert(found.subset_of(all)) by {
        assert forall|p: Protein| found.contains(p) implies all.contains(p) by {
            match p {
                Protein::A => {},
                Protein::C => {},
                Protein::G => {},
                Protein::T => {},
            }
        }
    }
    if proteins.contains(Protein::A) && proteins.contains(Protein::C) && proteins.contains(
        Protein::G,
    ) && proteins.contains(Protein::T) {
        assert(found =~= all);
    } else {
        let missing = if !proteins.contains(Protein::A) {
            Protein::A
        } else if !proteins.contains(Protein::C) {
            Protein::C
        } else if !proteins.contains(Protein::G) {
            Protein::G
        } else {
            Protein::T
        };
        assert(!found.contains(missing));
        assert(found.subset_of(all.remove(missing)));
        vstd::set_lib::lemma_len_subset(found, all.remove(missing));
        assert(all.remove(missing).len() == 3);
    }
}

/// With no rules the weight is neutral, whatever the run and however long
/// it is; and so is the weight of any list whose rules all withhold their
/// bonus.
pub proof fn lemma_neutral_configuration(rules: Seq<Rule>, proteins: Seq<Protein>, value: int)
    requires
        forall|i: int| 0 <= i < rules.len() ==> !(#[trigger] rules[i]).awards(proteins),
        0 <= value <= u64::MAX,
    ensures
        bonus_count(rules, proteins) == 0,
        pow(11, bonus_count(rules, proteins)) == 1,
        pow(10, bonus_count(rules, proteins)) == 1,
        weighted(value, rules, proteins) == value,
    decreases rules.len(),
{
    if rules.len() > 0 {
        lemma_neutral_configuration(rules.drop_last(), proteins, value);
    }
    lemma_pow_step(11, 0);
    lemma_pow_step(10, 0);
}

} // verus!
