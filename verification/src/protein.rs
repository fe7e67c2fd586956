//! The smallest unit of the encoding: one of four symbols.

use crate::entropy::random_below;
use std::cmp::Ordering;
use vstd::prelude::*;
use vstd::std_specs::cmp::PartialOrdSpecImpl;

verus! {

/// One of the four symbols `A`, `C`, `G` and `T`.
///
/// A protein carries three numberings, each a bijection onto `0..4`:
///
/// | symbol | [`index`](Protein::index) | [`value`](Protein::value) | [`rank`](Protein::rank) |
/// |--------|---|---|---|
/// | `A`    | 0 | 0 | 0 |
/// | `C`    | 1 | 3 | 1 |
/// | `G`    | 2 | 2 | 2 |
/// | `T`    | 3 | 1 | 3 |
///
/// The index numbers the symbols in the order they are declared and is what
/// a random draw is turned into. The value is what a protein contributes to
/// a score. The rank is the total order that decides which parent wins a
/// merge, and the order that `<` compares by: `A < C < G < T`, the order
/// of declaration.
#[derive(Debug, Clone, Copy, PartialEq, Eq, Ord, Hash, Structural)]
pub enum Protein {
    A,
    C,
    G,
    T,
}

impl Protein {
    /// The position of the symbol in the declaration order `A, C, G, T`.
    pub open spec fn index_spec(self) -> int {
        match self {
            Protein::A => 0,
            Protein::C => 1,
            Protein::G => 2,
            Protein::T => 3,
        }
    }

    /// The symbol at position `index` of the declaration order; `A` for an
    /// index outside `0..4`.
    pub open spec fn at_index(index: int) -> Protein {
        if index == 1 {
            Protein::C
        } else if index == 2 {
            Protein::G
        } else if index == 3 {
            Protein::T
        } else {
            Protein::A
        }
    }

    /// The score that the symbol contributes to a gene's value.
    pub open spec fn value_spec(self) -> int {
        match self {
            Protein::A => 0,
            Protein::T => 1,
            Protein::G => 2,
            Protein::C => 3,
        }
    }

    /// The place of the symbol in the merge order `A < C < G < T`.
    pub open spec fn rank_spec(self) -> int {
        match self {
            Protein::A => 0,
            Protein::C => 1,
            Protein::G => 2,
            Protein::T => 3,
        }
    }

    /// The character that stands for the symbol in text.
    pub open spec fn symbol_spec(self) -> char {
        match self {
            Protein::A => 'A',
            Protein::C => 'C',
            Protein::G => 'G',
            Protein::T => 'T',
        }
    }

    /// The symbol `steps` places after `self` in the declaration order,
    /// wrapping round from `T` to `A`.
    pub open spec fn shifted_spec(self, steps: int) -> Protein {
        Protein::at_index((self.index_spec() + steps) % 4)
    }

    /// The position of the symbol in the declaration order.
    pub fn index(&self) -> (index: u8)
        ensures
            index == self.index_spec(),
    {
        match self {
            Protein::A => 0,
            Protein::C => 1,
            Protein::G => 2,
            Protein::T => 3,
        }
    }

    /// The symbol at position `index` of the declaration order. A greater
    /// index gives a symbol of greater rank.
    pub fn from_index(index: u8) -> (protein: Protein)
        requires
            index < 4,
        ensures
            protein == Protein::at_index(index as int),
            protein.index_spec() == index,
            protein.rank_spec() == index,
    {
        if index == 0 {
            Protein::A
        } else if index == 1 {
            Protein::C
        } else if index == 2 {
            Protein::G
        } else {
            Protein::T
        }
    }

    /// The score that the symbol contributes to a gene's value.
    pub fn value(&self) -> (value: u8)
        ensures
            value == self.value_spec(),
    {
        match self {
            Protein::A => 0,
            Protein::T => 1,
            Protein::G => 2,
            Protein::C => 3,
        }
    }

    /// The place of the symbol in the merge order.
    pub fn rank(&self) -> (rank: u8)
        ensures
            rank == self.rank_spec(),
    {
        match self {
            Protein::A => 0,
            Protein::C => 1,
            Protein::G => 2,
            Protein::T => 3,
        }
    }

    /// The character that stands for the symbol in text.
    pub fn symbol(&self) -> (symbol: char)
        ensures
            symbol == self.symbol_spec(),
    {
        match self {
            Protein::A => 'A',
            Protein::C => 'C',
            Protein::G => 'G',
            Protein::T => 'T',
        }
    }

    /// The one-character text of the symbol.
    pub fn as_str(&self) -> (text: &'static str)
        ensures
            text@ == seq![self.symbol_spec()],
    {
        proof {
            reveal_strlit("A");
            reveal_strlit("C");
            reveal_strlit("G");
            reveal_strlit("T");
        }
        let text = match self {
            Protein::A => "A",
            Protein::C => "C",
            Protein::G => "G",
            Protein::T => "T",
        };
        assert(text@ =~= seq![self.symbol_spec()]);
        text
    }

    /// The text form of the symbol: its one character.
    pub fn to_string(&self) -> (text: String)
        ensures
            text@ == seq![self.symbol_spec()],
    {
        String::from_str(self.as_str())
    }

    /// The symbol `steps` places after `self`, wrapping round from `T` to
    /// `A`. The result differs from `self` unless `steps` is a multiple of
    /// four.
    pub fn shifted(&self, steps: u8) -> (protein: Protein)
        ensures
            protein == self.shifted_spec(steps as int),
            (protein == *self) == (steps % 4 == 0),
    {
        let target: u8 = (self.index() + steps % 4) % 4;
        Protein::from_index(target)
    }

    /// A symbol drawn at random.
    ///
    /// One number below four is drawn, and the result is the symbol with
    /// that index. The draw is the only thing left open.
    pub fn random() -> (protein: Protein)
        ensures
            exists|draw: int| 0 <= draw < 4 && protein == #[trigger] Protein::at_index(draw),
    {
        let drawn: usize = random_below(4);
        let protein = Protein::from_index(drawn as u8);
        assert(protein == Protein::at_index(drawn as int));
        protein
    }

    /// A symbol drawn at random among the three that differ from `except`.
    ///
    /// One number below three is drawn, and the result is that many places,
    /// plus one, after `except`. The draw is the only thing left open.
    pub fn random_except(except: Protein) -> (protein: Protein)
        ensures
            protein != except,
            exists|steps: int| 1 <= steps <= 3 && protein == #[trigger] except.shifted_spec(steps),
    {
        let drawn: usize = random_below(3);
        except.shifted(drawn as u8 + 1)
    }
}

impl PartialOrd for Protein {
    /// Compares two symbols by rank, so that `A < C < G < T`.
    fn partial_cmp(&self, other: &Protein) -> (order: Option<Ordering>) {
        let mine: u8 = self.rank();
        let theirs: u8 = other.rank();
        if mine < theirs {
            Some(Ordering::Less)
        } else if mine > theirs {
            Some(Ordering::Greater)
        } else {
            Some(Ordering::Equal)
        }
    }
}

impl PartialOrdSpecImpl for Protein {
    open spec fn obeys_partial_cmp_spec() -> bool {
        true
    }

    open spec fn partial_cmp_spec(&self, other: &Protein) -> Option<Ordering> {
        if self.rank_spec() < other.rank_spec() {
            Some(Ordering::Less)
        } else if self.rank_spec() > other.rank_spec() {
            Some(Ordering::Greater)
        } else {
            Some(Ordering::Equal)
        }
    }
}

impl Default for Protein {
    /// The first symbol, `A`.
    fn default() -> (protein: Protein)
        ensures
            protein == Protein::A,
    {
        Protein::A
    }
}

/// Each of the three numberings tells the proteins apart, and each stays
/// within `0..4`. The rank of a symbol is its index.
pub proof fn lemma_numberings_identify_protein(a: Protein, b: Protein)
    ensures
        0 <= a.index_spec() < 4,
        0 <= a.value_spec() < 4,
        0 <= a.rank_spec() < 4,
        a.rank_spec() == a.index_spec(),
        Protein::at_index(a.index_spec()) == a,
        a.index_spec() == b.index_spec() ==> a == b,
        a.value_spec() == b.value_spec() ==> a == b,
        a.rank_spec() == b.rank_spec() ==> a == b,
{
}

/// A draw decides the symbol and nothing else does: the four indices give
/// the four symbols, one each, and the shifts by one, two and three places
/// give the three symbols other than the one shifted, one each.
pub proof fn lemma_draws_reach_each_symbol_once(from: Protein, to: Protein)
    ensures
        Protein::at_index(to.index_spec()) == to,
        forall|i: int| 0 <= i < 4 ==> (#[trigger] Protein::at_index(i)).index_spec() == i,
        from != to ==> exists|steps: int|
            1 <= steps <= 3 && #[trigger] from.shifted_spec(steps) == to,
        forall|steps: int| 1 <= steps <= 3 ==> #[trigger] from.shifted_spec(steps) != from,
        forall|s: int, t: int|
            1 <= s <= 3 && 1 <= t <= 3 && #[trigger] from.shifted_spec(s)
                == #[trigger] from.shifted_spec(t) ==> s == t,
{
    if from != to {
        let steps = (to.index_spec() - from.index_spec() + 4) % 4;
        assert(1 <= steps <= 3);
        assert(from.shifted_spec(steps) == to);
    }
}

/// Proteins with the same symbol character are the same protein.
pub proof fn lemma_symbol_identifies_protein(a: Protein, b: Protein)
    ensures
        a.symbol_spec() == b.symbol_spec() ==> a == b,
{
}

/// The rank orders the proteins totally: of two different proteins exactly
/// one ranks below the other, and ranking below carries over from one pair
/// to the next. The order is that of declaration, and the map from indices
/// to symbols keeps it: the symbol of a lesser index ranks below the symbol
/// of a greater one.
pub proof fn lemma_rank_is_total_order(a: Protein, b: Protein, c: Protein)
    ensures
        a != b ==> (a.rank_spec() < b.rank_spec()) != (b.rank_spec() < a.rank_spec()),
        a.rank_spec() < b.rank_spec() && b.rank_spec() < c.rank_spec() ==> a.rank_spec()
            < c.rank_spec(),
        Protein::A.rank_spec() < Protein::C.rank_spec() < Protein::G.rank_spec()
            < Protein::T.rank_spec(),
        forall|i: int, j: int|
            0 <= i < j < 4 ==> (#[trigger] Protein::at_index(i)).rank_spec() < (
            #[trigger] Protein::at_index(j)).rank_spec(),
{
}

} // verus!
