//! Transition rules: which neighbour counts give birth and which let a cell
//! survive.

use vstd::prelude::*;
use vstd::string::*;

verus! {

/// A cell has eight neighbours, so a neighbour count is one of 0..=8.
pub const NEIGHBOUR_COUNTS: u32 = 9;

/// A transition rule. Bit `i` of `born` is set when a dead cell with exactly
/// `i` live neighbours comes alive; bit `i` of `survives` is set when a live
/// cell with exactly `i` live neighbours stays alive.
#[derive(Clone, Copy, Debug)]
pub struct Rule {
    pub born: u16,
    pub survives: u16,
    /// Recommended share of live cells in a first generation, in percent.
    pub initial_density: u8,
    /// The rule's name, without its counts.
    pub name: &'static str,
}

/// Whether `mask` lists the neighbour count `count`.
pub open spec fn mask_has(mask: u16, count: u32) -> bool {
    count < 16 && mask & (1u16 << count) != 0
}

/// The decimal digit that stands for a neighbour count.
pub open spec fn count_digit(count: u32) -> char {
    if count == 0 {
        '0'
    } else if count == 1 {
        '1'
    } else if count == 2 {
        '2'
    } else if count == 3 {
        '3'
    } else if count == 4 {
        '4'
    } else if count == 5 {
        '5'
    } else if count == 6 {
        '6'
    } else if count == 7 {
        '7'
    } else {
        '8'
    }
}

/// The digits of the neighbour counts below `upto` that `mask` lists, in
/// ascending order.
pub open spec fn mask_digits(mask: u16, upto: u32) -> Seq<char>
    decreases upto,
{
    if upto == 0 {
        Seq::empty()
    } else {
        let lower = mask_digits(mask, (upto - 1) as u32);
        if mask_has(mask, (upto - 1) as u32) {
            lower.push(count_digit((upto - 1) as u32))
        } else {
            lower
        }
    }
}

/// A rule as a reader sees it: its name, then the birth counts behind a `B`
/// and the survival counts behind an `S`, as in `Conway's Life B3/S23`.
pub open spec fn display_name(name: Seq<char>, born: u16, survives: u16) -> Seq<char> {
    name + seq![' ', 'B'] + mask_digits(born, NEIGHBOUR_COUNTS) + seq!['/', 'S'] + mask_digits(
        survives,
        NEIGHBOUR_COUNTS,
    )
}

/// Whether `mask` lists the neighbour count `count`.
pub fn mask_lists(mask: u16, count: u32) -> (listed: bool)
    requires
        count < NEIGHBOUR_COUNTS,
    ensures
        listed == mask_has(mask, count),
{
    mask & (1u16 << count) != 0
}

/// The digit of a neighbour count, as text.
fn digit_text(count: u32) -> (text: &'static str)
    requires
        count < NEIGHBOUR_COUNTS,
    ensures
        text@ == seq![count_digit(count)],
{
    proof {
        reveal_strlit("0");
        reveal_strlit("1");
        reveal_strlit("2");
        reveal_strlit("3");
        reveal_strlit("4");
        reveal_strlit("5");
        reveal_strlit("6");
        reveal_strlit("7");
        reveal_strlit("8");
    }
    let text = if count == 0 {
        "0"
    } else if count == 1 {
        "1"
    } else if count == 2 {
        "2"
    } else if count == 3 {
        "3"
    } else if count == 4 {
        "4"
    } else if count == 5 {
        "5"
    } else if count == 6 {
        "6"
    } else if count == 7 {
        "7"
    } else {
        "8"
    };
    assert(text@ =~= seq![count_digit(count)]);
    text
}

impl Rule {
    /// A rule is well formed when both masks list only the nine possible
    /// neighbour counts and the recommended density is a percentage.
    pub open spec fn is_valid(self) -> bool {
        &&& self.born < 512
        &&& self.survives < 512
        &&& self.initial_density <= 100
    }

    /// Makes a rule, or `None` when a mask lists a count above eight or the
    /// density is above one hundred percent.
    pub fn new(name: &'static str, born: u16, survives: u16, initial_density: u8) -> (made: Option<
        Rule,
    >)
        ensures
            made.is_some() <==> born < 512 && survives < 512 && initial_density <= 100,
            made matches Some(rule) ==> rule.born == born && rule.survives == survives
                && rule.initial_density == initial_density && rule.name@ == name@
                && rule.is_valid(),
    {
        if born < 512 && survives < 512 && initial_density <= 100 {
            Some(Rule { born, survives, initial_density, name })
        } else {
            None
        }
    }

    /// The two masks widened to the 32-bit words of the kernel's rule
    /// parameter: the birth mask first, the survival mask second.
    pub fn rule_array(&self) -> (words: [u32; 2])
        ensures
            words@ == seq![self.born as u32, self.survives as u32],
    {
        let words = [self.born as u32, self.survives as u32];
        assert(words@ =~= seq![self.born as u32, self.survives as u32]);
        words
    }

    /// The rule's name followed by its counts, as in `Gems B3457/S4568`.
    pub fn name(&self) -> (text: String)
        ensures
            text@ == display_name(self.name@, self.born, self.survives),
    {
        let mut born = String::from_str("B");
        let mut survives = String::from_str("S");
        proof {
            reveal_strlit("B");
            reveal_strlit("S");
            reveal_strlit(" ");
            reveal_strlit("/");
        }
        let mut count: u32 = 0;
        while count < NEIGHBOUR_COUNTS
            invariant
                count <= NEIGHBOUR_COUNTS,
                born@ == seq!['B'] + mask_digits(self.born, count),
                survives@ == seq!['S'] + mask_digits(self.survives, count),
            decreases NEIGHBOUR_COUNTS - count,
        {
            if mask_lists(self.born, count) {
                born.append(digit_text(count));
            }
            if mask_lists(self.survives, count) {
                survives.append(digit_text(count));
            }
            count = count + 1;
        }
        let mut text = String::from_str(self.name);
        text.append(" ");
        text.append(born.as_str());
        text.append("/");
        text.append(survives.as_str());
        assert(text@ =~= display_name(self.name@, self.born, self.survives));
        text
    }

    /// The classic rule: birth on three neighbours, survival on two or three.
    pub fn conways_life() -> (rule: Rule)
        ensures
            rule.born == 0b1000,
            rule.survives == 0b1100,
            rule.initial_density == 12,
            rule.name@ == "Conway's Life"@,
            rule.is_valid(),
    {
        Rule { born: 0b1000, survives: 0b1100, name: "Conway's Life", initial_density: 12 }
    }

    /// A denser rule: birth on 3, 4, 5 or 7 neighbours, survival on 4, 5, 6
    /// or 8.
    pub fn gems() -> (rule: Rule)
        ensures
            rule.born == 0b0_1011_1000,
            rule.survives == 0b1_0111_0000,
            rule.initial_density == 15,
            rule.name@ == "Gems"@,
            rule.is_valid(),
    {
        Rule { born: 0b0_1011_1000, survives: 0b1_0111_0000, name: "Gems", initial_density: 15 }
    }
}

/// What the masks of the classic rule list: birth on exactly three live
/// neighbours, survival on exactly two or three. A cell without live
/// neighbours is neither born nor kept.
pub proof fn lemma_classic_counts(count: u32)
    requires
        count < NEIGHBOUR_COUNTS,
    ensures
        mask_has(0b1000, count) <==> count == 3,
        mask_has(0b1100, count) <==> count == 2 || count == 3,
{
    assert(0b1000u16 & (1u16 << count) != 0 <==> count == 3) by (bit_vector)
        requires
            count < 9,
    ;
    assert(0b1100u16 & (1u16 << count) != 0 <==> count == 2 || count == 3) by (bit_vector)
        requires
            count < 9,
    ;
}

/// A mask lists a count exactly when the count's binary digit of the mask
/// is one.
pub proof fn lemma_mask_has_is_digit(mask: u16, count: u32)
    requires
        count < NEIGHBOUR_COUNTS,
    ensures
        mask_has(mask, count) <==> (mask >> count) % 2 == 1,
{
    assert(mask & (1u16 << count) != 0 <==> (mask >> count) % 2 == 1) by (bit_vector)
        requires
            count < 9,
    ;
}

/// The built-in rules, the classic one first.
pub fn rules() -> (catalog: Vec<Rule>)
    ensures
        catalog@.len() == 2,
        catalog@[0].born == 0b1000 && catalog@[0].survives == 0b1100,
        catalog@[0].initial_density == 12 && catalog@[0].name@ == "Conway's Life"@,
        catalog@[1].born == 0b0_1011_1000 && catalog@[1].survives == 0b1_0111_0000,
        catalog@[1].initial_density == 15 && catalog@[1].name@ == "Gems"@,
        forall|i: int| 0 <= i < 2 ==> (#[trigger] catalog@[i]).is_valid(),
{
    let mut catalog: Vec<Rule> = Vec::new();
    catalog.push(Rule::conways_life());
    catalog.push(Rule::gems());
    catalog
}

} // verus!
