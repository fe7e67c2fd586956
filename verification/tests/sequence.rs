use card_genome::gene::Gene;
use card_genome::protein::Protein;
use card_genome::sequence::Sequence;

fn gene(text: &str) -> Gene {
    let mut proteins = [Protein::A; 4];
    for (i, symbol) in text.chars().enumerate() {
        proteins[i] = match symbol {
            'A' => Protein::A,
            'C' => Protein::C,
            'G' => Protein::G,
            'T' => Protein::T,
            other => panic!("no such symbol: {}", other),
        };
    }
    Gene::new(proteins)
}

fn sequence_of(genes: [&str; 8]) -> Sequence {
    Sequence::new(genes.map(gene))
}

fn distance(a: &Gene, b: &Gene) -> usize {
    (0..4).filter(|&i| a.as_ref()[i] != b.as_ref()[i]).count()
}

#[test]
fn sequence_test_display() {
    for i in 0..10 {
        let sequence = Sequence::genesis();
        println!("sequence-{} {}: {}", i, sequence.to_string(), sequence.value());
    }
}

#[test]
fn display_joins_the_genes_with_dashes() {
    let sequence = Sequence::new([Gene::new([Protein::A; 4]); 8]);
    assert_eq!(
        sequence.to_string(),
        "AAAA-AAAA-AAAA-AAAA-AAAA-AAAA-AAAA-AAAA"
    );
    let sequence = sequence_of(["ACGT", "TGCA", "AAAA", "CCCC", "GGGG", "TTTT", "ATAT", "CGCG"]);
    assert_eq!(
        sequence.to_string(),
        "ACGT-TGCA-AAAA-CCCC-GGGG-TTTT-ATAT-CGCG"
    );
    assert_eq!(sequence.to_string(), sequence.to_string());
}

#[test]
fn genesis_has_the_default_gene_in_its_tail() {
    for _ in 0..50 {
        let sequence = Sequence::genesis();
        for i in 4..8 {
            assert_eq!(sequence.genes()[i], Gene::default());
        }
        assert!(sequence.to_string().ends_with("-AAAA-AAAA-AAAA-AAAA"));
    }
}

#[test]
fn genesis_has_a_random_head() {
    let mut heads = Vec::new();
    for _ in 0..50 {
        let sequence = Sequence::genesis();
        heads.push(sequence.to_string()[..19].to_string());
    }
    heads.sort();
    heads.dedup();
    assert!(heads.len() > 1);
}

#[test]
fn new_keeps_the_genes() {
    let genes = ["ACGT", "TGCA", "AAAA", "CCCC", "GGGG", "TTTT", "ATAT", "CGCG"].map(gene);
    assert_eq!(Sequence::new(genes).genes(), &genes);
}

#[test]
fn proteins_flattens_in_gene_order() {
    let sequence = sequence_of(["ACGT", "TGCA", "AAAA", "CCCC", "GGGG", "TTTT", "ATAT", "CGCG"]);
    let proteins = sequence.proteins();
    assert_eq!(proteins.len(), 32);
    let text: String = proteins.iter().map(|p| p.symbol()).collect();
    assert_eq!(text, "ACGTTGCAAAAACCCCGGGGTTTTATATCGCG");
    assert_eq!(sequence.protein_array().to_vec(), proteins);
}

#[test]
fn value_sums_the_gene_values() {
    // ACGT = 0 + 6 + 6 + 4, TGCA = 1 + 4 + 9 + 0, CCCC = 30, GGGG = 20, TTTT = 10,
    // ATAT = 2 + 4, CGCG = 3 + 4 + 9 + 8.
    let sequence = sequence_of(["ACGT", "TGCA", "AAAA", "CCCC", "GGGG", "TTTT", "ATAT", "CGCG"]);
    assert_eq!(sequence.value(), 16 + 14 + 0 + 30 + 20 + 10 + 6 + 24);
    assert_eq!(Sequence::new([gene("CCCC"); 8]).value(), 240);
    assert_eq!(Sequence::new([gene("AAAA"); 8]).value(), 0);
}

#[test]
fn merge_keeps_merged_heads_and_mutates_tails() {
    let a = sequence_of(["ACGT", "TGCA", "AAAA", "CCCC", "GGGG", "TTTT", "ATAT", "CGCG"]);
    let b = sequence_of(["AGGT", "TGCA", "AAAC", "CCCA", "GTGG", "TTTT", "CTAT", "CGCA"]);
    for _ in 0..100 {
        let child = a.merge(&b);
        // Head: the greater rank wins at the first difference (A < C < G < T).
        assert_eq!(child.genes()[0], gene("AGGT"));
        assert_eq!(child.genes()[1], gene("TGCA"));
        assert_eq!(child.genes()[2], gene("AAAC"));
        assert_eq!(child.genes()[3], gene("CCCC"));
        // Tail: the merge, with exactly one protein changed.
        assert_eq!(distance(&child.genes()[4], &gene("GTGG")), 1);
        assert_eq!(distance(&child.genes()[5], &gene("TTTT")), 1);
        assert_eq!(distance(&child.genes()[6], &gene("CTAT")), 1);
        assert_eq!(distance(&child.genes()[7], &gene("CGCG")), 1);
    }
}

#[test]
fn merge_tail_never_equals_the_parents_tail() {
    // The parents' tail genes differ in no or in several places, so no single
    // mutation can turn one into the other.
    let a = sequence_of(["ACGT", "TGCA", "AAAA", "CCCC", "GGGG", "TTTT", "ATAT", "CGCG"]);
    let b = sequence_of(["ACGT", "TGCA", "AAAA", "CCCC", "GGGG", "TAAT", "TAAT", "AAAA"]);
    for _ in 0..200 {
        let child = a.merge(&b);
        for i in 4..8 {
            assert_ne!(child.genes()[i], a.genes()[i]);
            assert_ne!(child.genes()[i], b.genes()[i]);
        }
    }
}

#[test]
fn merge_with_itself_keeps_the_head() {
    for _ in 0..20 {
        let parent = Sequence::genesis();
        let child = parent.merge(&parent);
        for i in 0..4 {
            assert_eq!(child.genes()[i], parent.genes()[i]);
        }
        for i in 4..8 {
            assert_eq!(distance(&child.genes()[i], &parent.genes()[i]), 1);
        }
    }
}

#[test]
fn mutate_changes_one_protein_of_the_last_three_genes() {
    let mut seen = [false; 8];
    for _ in 0..300 {
        let before = Sequence::genesis();
        let mut after = before;
        after.mutate();
        let changed: Vec<usize> = (0..8)
            .filter(|&i| before.genes()[i] != after.genes()[i])
            .collect();
        assert_eq!(changed.len(), 1);
        let index = changed[0];
        assert!(index >= 5);
        assert_eq!(distance(&before.genes()[index], &after.genes()[index]), 1);
        seen[index] = true;
    }
    assert_eq!(seen, [false, false, false, false, false, true, true, true]);
}

#[test]
fn merge_tail_can_turn_the_winner_into_the_loser() {
    // In the tail the parents differ in one protein only. The child is the
    // winner with one protein changed, which now and then is the loser.
    let a = Sequence::new([gene("AAAA"); 8]);
    let b = Sequence::new([gene("AAAC"); 8]);
    let mut equals_loser = false;
    for _ in 0..500 {
        let child = a.merge(&b);
        for i in 4..8 {
            assert_ne!(child.genes()[i], gene("AAAC"));
            assert_eq!(distance(&child.genes()[i], &gene("AAAC")), 1);
            if child.genes()[i] == gene("AAAA") {
                equals_loser = true;
            }
        }
    }
    assert!(equals_loser);
}

#[test]
fn with_head_keeps_the_head_and_fills_the_tail() {
    let head = ["ACGT", "TGCA", "GGGG", "CTCT"].map(gene);
    let sequence = Sequence::with_head(head);
    for i in 0..4 {
        assert_eq!(sequence.genes()[i], head[i]);
    }
    for i in 4..8 {
        assert_eq!(sequence.genes()[i], Gene::default());
    }
    assert_eq!(
        sequence.to_string(),
        "ACGT-TGCA-GGGG-CTCT-AAAA-AAAA-AAAA-AAAA"
    );
}
