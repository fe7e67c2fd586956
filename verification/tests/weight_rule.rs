use card_genome::protein::Protein;
use card_genome::weight_rule::{
    calculate_gene_weight, calculate_sequence_weight, calculate_weight, contain_all_proteins,
    gene_rules, proteins_in_sequence, same_proteins, sequence_rules, start_end_same_protein, Rule,
    Weight, MAX_RULES,
};

fn scalar(weight: Weight) -> f32 {
    weight.numerator() as f32 / weight.denominator() as f32
}

fn run(text: &str) -> Vec<Protein> {
    text.chars()
        .map(|symbol| match symbol {
            'A' => Protein::A,
            'C' => Protein::C,
            'G' => Protein::G,
            'T' => Protein::T,
            other => panic!("no such symbol: {}", other),
        })
        .collect()
}

#[test]
fn proteins_in_sequence_test() {
    let proteins = vec![Protein::A, Protein::A, Protein::A, Protein::A];
    assert_eq!(scalar(proteins_in_sequence(&proteins)), 1.1);
}

#[test]
fn uniform_run_needs_a_tile_of_two_or_more_laid_twice() {
    assert_eq!(proteins_in_sequence(&run("ATAT")), Weight::bonus());
    assert_eq!(proteins_in_sequence(&run("ACGACG")), Weight::bonus());
    assert_eq!(proteins_in_sequence(&run("ACGTACGTACGTACGTACGTACGTACGTACGT")), Weight::bonus());
    assert_eq!(proteins_in_sequence(&run("AAAAAA")), Weight::bonus());
    assert_eq!(proteins_in_sequence(&run("ATAA")), Weight::neutral());
    assert_eq!(proteins_in_sequence(&run("ATATA")), Weight::neutral());
    assert_eq!(proteins_in_sequence(&run("ACGACT")), Weight::neutral());
    assert_eq!(proteins_in_sequence(&run("AAA")), Weight::neutral());
    assert_eq!(proteins_in_sequence(&run("AA")), Weight::neutral());
    assert_eq!(proteins_in_sequence(&run("A")), Weight::neutral());
    assert_eq!(proteins_in_sequence(&run("")), Weight::neutral());
}

#[test]
fn all_identical_compares_with_the_first() {
    assert_eq!(same_proteins(&run("GGGG")), Weight::bonus());
    assert_eq!(same_proteins(&run("G")), Weight::bonus());
    assert_eq!(same_proteins(&run("")), Weight::bonus());
    assert_eq!(same_proteins(&run("GGGT")), Weight::neutral());
    assert_eq!(same_proteins(&run("TGGG")), Weight::neutral());
}

#[test]
fn palindrome_edges_compares_first_and_last() {
    assert_eq!(start_end_same_protein(&run("ACGA")), Weight::bonus());
    assert_eq!(start_end_same_protein(&run("T")), Weight::bonus());
    assert_eq!(start_end_same_protein(&run("ACGT")), Weight::neutral());
    assert_eq!(start_end_same_protein(&run("")), Weight::neutral());
}

#[test]
fn full_coverage_needs_all_four_symbols() {
    assert_eq!(contain_all_proteins(&run("ACGT")), Weight::bonus());
    assert_eq!(contain_all_proteins(&run("TTGACAAA")), Weight::bonus());
    assert_eq!(contain_all_proteins(&run("ACGA")), Weight::neutral());
    assert_eq!(contain_all_proteins(&run("CGTT")), Weight::neutral());
    assert_eq!(contain_all_proteins(&run("")), Weight::neutral());
}

#[test]
fn rules_dispatch_to_their_functions() {
    let proteins = run("ATAT");
    assert_eq!(Rule::UniformRun.score(&proteins), Weight::bonus());
    assert_eq!(Rule::PalindromeEdges.score(&proteins), Weight::neutral());
    assert_eq!(Rule::AllIdentical.score(&proteins), Weight::neutral());
    assert_eq!(Rule::FullCoverage.score(&proteins), Weight::neutral());
    let proteins = run("ACGTA");
    assert_eq!(Rule::UniformRun.score(&proteins), Weight::neutral());
    assert_eq!(Rule::PalindromeEdges.score(&proteins), Weight::bonus());
    assert_eq!(Rule::AllIdentical.score(&proteins), Weight::neutral());
    assert_eq!(Rule::FullCoverage.score(&proteins), Weight::bonus());
}

#[test]
fn empty_configuration_is_neutral_for_any_length() {
    let mut proteins = Vec::new();
    for length in 0..40 {
        let weight = calculate_weight(&[], &proteins);
        assert_eq!(weight, Weight::neutral());
        assert_eq!(scalar(weight), 1.0);
        assert_eq!(calculate_gene_weight(&proteins), Weight::neutral());
        assert_eq!(calculate_sequence_weight(&proteins), Weight::neutral());
        proteins.push(Protein::from_index(length % 4));
    }
    assert!(gene_rules().is_empty());
    assert!(sequence_rules().is_empty());
}

#[test]
fn configuration_that_awards_nothing_is_neutral() {
    let rules = [Rule::AllIdentical, Rule::PalindromeEdges, Rule::UniformRun, Rule::FullCoverage];
    assert_eq!(calculate_weight(&rules, &run("ACG")), Weight::neutral());
}

#[test]
fn weights_multiply() {
    let rules = [Rule::AllIdentical, Rule::FullCoverage, Rule::PalindromeEdges, Rule::UniformRun];
    let weight = calculate_weight(&rules, &run("AAAA"));
    assert_eq!(weight.numerator(), 11 * 11 * 11);
    assert_eq!(weight.denominator(), 10 * 10 * 10);
    let weight = calculate_weight(&rules, &run("ACGT"));
    assert_eq!(weight.numerator(), 11);
    assert_eq!(weight.denominator(), 10);
    let weight = calculate_weight(&rules, &run("ACGTACGT"));
    assert_eq!(weight.numerator(), 121);
    assert_eq!(weight.denominator(), 100);
}

#[test]
fn the_longest_list_still_fits() {
    let rules = [Rule::AllIdentical; MAX_RULES];
    let weight = calculate_weight(&rules, &run("CCCC"));
    assert_eq!(weight.numerator(), 5559917313492231481);
    assert_eq!(weight.denominator(), 1000000000000000000);
    assert_eq!(weight.scale(100), 555);
}

#[test]
fn times_multiplies_numerators_and_denominators() {
    let product = Weight::bonus().times(&Weight::bonus());
    assert_eq!(product.numerator(), 121);
    assert_eq!(product.denominator(), 100);
    assert_eq!(Weight::bonus().times(&Weight::neutral()), Weight::bonus());
    assert_eq!(Weight::award(true), Weight::bonus());
    assert_eq!(Weight::award(false), Weight::neutral());
}

#[test]
fn scale_rounds_down_and_saturates() {
    assert_eq!(Weight::neutral().scale(17), 17);
    assert_eq!(Weight::bonus().scale(20), 22);
    assert_eq!(Weight::bonus().scale(19), 20);
    assert_eq!(Weight::bonus().scale(9), 9);
    assert_eq!(Weight::bonus().scale(0), 0);
    assert_eq!(Weight::bonus().scale(u64::MAX), u64::MAX);
    assert_eq!(Weight::neutral().scale(u64::MAX), u64::MAX);
    assert_eq!(Weight::bonus().times(&Weight::bonus()).scale(1000), 1210);
}
