//! Interrupt numbers with a range check built into the type.

use vstd::prelude::*;
use vstd::string::StringExecFns;
use vstd::std_specs::cmp::{PartialEqSpecImpl, PartialOrdSpecImpl};
use core::cmp::Ordering;

verus! {

/// The character that is written for a decimal digit.
pub open spec fn digit_char(digit: nat) -> char {
    if digit == 0 {
        '0'
    } else if digit == 1 {
        '1'
    } else if digit == 2 {
        '2'
    } else if digit == 3 {
        '3'
    } else if digit == 4 {
        '4'
    } else if digit == 5 {
        '5'
    } else if digit == 6 {
        '6'
    } else if digit == 7 {
        '7'
    } else if digit == 8 {
        '8'
    } else {
        '9'
    }
}

/// A number written in decimal: no sign, no leading zero, `0` for zero.
pub open spec fn decimal_digits(value: nat) -> Seq<char>
    decreases value,
{
    if value < 10 {
        seq![digit_char(value)]
    } else {
        decimal_digits(value / 10).push(digit_char(value % 10))
    }
}

fn digit_str(digit: usize) -> (text: &'static str)
    requires
        digit < 10,
    ensures
        text@ == seq![digit_char(digit as nat)],
{
    proof {
        reveal_strlit("0");
        reveal_strlit("1");
        reveal_strlit("2");
        reveal_strlit("3");
        reveal_strlit("4");
        reveal_strlit("5");
        reveal_strlit("6");
        reveal_strlit("7");
        reveal_strlit("8");
        reveal_strlit("9");
    }
    let text = if digit == 0 {
        "0"
    } else if digit == 1 {
        "1"
    } else if digit == 2 {
        "2"
    } else if digit == 3 {
        "3"
    } else if digit == 4 {
        "4"
    } else if digit == 5 {
        "5"
    } else if digit == 6 {
        "6"
    } else if digit == 7 {
        "7"
    } else if digit == 8 {
        "8"
    } else {
        "9"
    };
    assert(text@ =~= seq![digit_char(digit as nat)]);
    text
}

/// An interrupt number that is known to lie in `0..=MAX_INCLUSIVE`.
///
/// Two numbers are equal when they name the same line, and they are ordered
/// as their lines are.
#[derive(Clone, Copy, Debug, Eq, Ord, Hash)]
pub struct IRQNumber<const MAX_INCLUSIVE: usize>(usize);

impl<const MAX_INCLUSIVE: usize> IRQNumber<MAX_INCLUSIVE> {
    /// The interrupt line that this value names.
    pub closed spec fn view(&self) -> nat {
        self.0 as nat
    }

    /// How many lines the type can name: `0`, `1`, ..., `MAX_INCLUSIVE`.
    pub open spec fn spec_num_total() -> nat {
        (MAX_INCLUSIVE + 1) as nat
    }

    #[verifier::type_invariant]
    spec fn in_range(self) -> bool {
        self.0 <= MAX_INCLUSIVE
    }

    /// A number is its line and nothing else: numbers of the same line are
    /// the same number.
    pub proof fn lemma_same_line_same_number(self, other: Self)
        ensures
            self@ == other@ <==> self == other,
    {
    }

    /// The number of lines that the type can name, for sizing lookup tables.
    pub fn num_total() -> (total: usize)
        requires
            MAX_INCLUSIVE < usize::MAX,
        ensures
            total == Self::spec_num_total(),
            total == MAX_INCLUSIVE + 1,
    {
        MAX_INCLUSIVE + 1
    }

    /// Wraps `number`, which must not exceed `MAX_INCLUSIVE`.
    pub fn new(number: usize) -> (irq: Self)
        requires
            number <= MAX_INCLUSIVE,
        ensures
            irq@ == number,
    {
        Self(number)
    }

    /// Returns the wrapped number.
    pub fn get(self) -> (number: usize)
        ensures
            number == self@,
            number <= MAX_INCLUSIVE,
    {
        proof {
            use_type_invariant(&self);
        }
        self.0
    }
}

impl<const MAX_INCLUSIVE: usize> IRQNumber<MAX_INCLUSIVE> {
    /// Renders the number as text, in decimal.
    pub fn to_string(&self) -> (text: String)
        ensures
            text@ == decimal_digits(self@),
    {
        let value = self.0;
        let mut text = String::from_str(digit_str(value % 10));
        let mut rest = value / 10;
        while rest > 0
            invariant
                decimal_digits(value as nat) == if rest > 0 {
                    decimal_digits(rest as nat) + text@
                } else {
                    text@
                },
            decreases rest,
        {
            let ghost shorter = text@;
            text = String::from_str(digit_str(rest % 10)).concat(text.as_str());
            proof {
                let digit = seq![digit_char((rest % 10) as nat)];
                assert(text@ == digit + shorter);
                if rest >= 10 {
                    assert(decimal_digits(rest as nat) == decimal_digits((rest / 10) as nat).push(
                        digit_char((rest % 10) as nat),
                    ));
                    assert(decimal_digits(rest as nat) + shorter =~= decimal_digits(
                        (rest / 10) as nat,
                    ) + text@);
                } else {
                    assert(decimal_digits(rest as nat) + shorter =~= text@);
                }
            }
            rest = rest / 10;
        }
        text
    }
}

impl<const MAX_INCLUSIVE: usize> PartialEq for IRQNumber<MAX_INCLUSIVE> {
    fn eq(&self, other: &Self) -> (equal: bool) {
        self.0 == other.0
    }
}

impl<const MAX_INCLUSIVE: usize> PartialEqSpecImpl for IRQNumber<MAX_INCLUSIVE> {
    open spec fn obeys_eq_spec() -> bool {
        true
    }

    open spec fn eq_spec(&self, other: &Self) -> bool {
        self@ == other@
    }
}

impl<const MAX_INCLUSIVE: usize> PartialOrd for IRQNumber<MAX_INCLUSIVE> {
    fn partial_cmp(&self, other: &Self) -> (order: Option<Ordering>) {
        if self.0 < other.0 {
            Some(Ordering::Less)
        } else if self.0 == other.0 {
            Some(Ordering::Equal)
        } else {
            Some(Ordering::Greater)
        }
    }
}

impl<const MAX_INCLUSIVE: usize> PartialOrdSpecImpl for IRQNumber<MAX_INCLUSIVE> {
    open spec fn obeys_partial_cmp_spec() -> bool {
        true
    }

    open spec fn partial_cmp_spec(&self, other: &Self) -> Option<Ordering> {
        if self@ < other@ {
            Some(Ordering::Less)
        } else if self@ == other@ {
            Some(Ordering::Equal)
        } else {
            Some(Ordering::Greater)
        }
    }
}

} // verus!
