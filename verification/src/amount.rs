//! The amount of a conversion: a non-negative decimal numeral.

use vstd::prelude::*;
use crate::text::characters;

verus! {

/// Whether `c` is one of the ten decimal digits.
pub open spec fn is_digit(c: char) -> bool {
    '0' <= c <= '9'
}

/// Whether `text` is a decimal numeral without a sign: digits, with at most
/// one point, which stands between two digits.
pub open spec fn is_decimal(text: Seq<char>) -> bool {
    &&& text.len() > 0
    &&& forall|i: int| 0 <= i < text.len() ==> is_digit(#[trigger] text[i]) || text[i] == '.'
    &&& forall|i: int, j: int|
        0 <= i < j < text.len() && #[trigger] text[i] == '.' ==> #[trigger] text[j] != '.'
    &&& is_digit(text[0])
    &&& is_digit(text[text.len() - 1])
}

/// Whether `c` is one of the ten decimal digits.
pub fn digit(c: char) -> (yes: bool)
    ensures
        yes == is_digit(c),
{
    '0' <= c && c <= '9'
}

/// Decides whether `text` is a decimal numeral without a sign.
pub fn decimal(text: &str) -> (yes: bool)
    ensures
        yes == is_decimal(text@),
{
    let list = characters(text);
    let length: usize = list.len();
    if length == 0 {
        return false;
    }
    let mut seen_point = false;
    let ghost mut point: int = 0;
    let mut at: usize = 0;
    while at < length
        invariant
            at <= length,
            length == list@.len(),
            list@ == text@,
            forall|i: int| 0 <= i < at ==> is_digit(#[trigger] list@[i]) || list@[i] == '.',
            forall|i: int, j: int|
                0 <= i < j < at && #[trigger] list@[i] == '.' ==> #[trigger] list@[j] != '.',
            seen_point ==> 0 <= point < at && list@[point] == '.',
            !seen_point ==> forall|i: int| 0 <= i < at ==> #[trigger] list@[i] != '.',
        decreases length - at,
    {
        let c = list[at];
        if c == '.' {
            if seen_point {
                return false;
            }
            seen_point = true;
            proof {
                point = at as int;
            }
        } else if !digit(c) {
            return false;
        }
        at = at + 1;
    }
    digit(list[0]) && digit(list[length - 1])
}

/// A non-negative decimal amount, kept as the numeral that is sent to the
/// service.
#[derive(Debug, PartialEq, Eq)]
pub struct Amount {
    numeral: String,
}

impl View for Amount {
    type V = Seq<char>;

    closed spec fn view(&self) -> Seq<char> {
        self.numeral@
    }
}

impl Clone for Amount {
    fn clone(&self) -> (copy: Amount)
        ensures
            copy@ == self@,
    {
        proof {
            use_type_invariant(self);
        }
        Amount { numeral: self.numeral.clone() }
    }
}

impl Amount {
    #[verifier::type_invariant]
    spec fn well_formed(self) -> bool {
        is_decimal(self.numeral@)
    }

    /// Accepts `text` as an amount where it is a decimal numeral without a
    /// sign, and refuses it otherwise.
    pub fn from_text(text: &str) -> (amount: Option<Amount>)
        ensures
            amount is Some <==> is_decimal(text@),
            amount matches Some(accepted) ==> accepted@ == text@,
    {
        if decimal(text) {
            Some(Amount { numeral: String::from_str(text) })
        } else {
            None
        }
    }

    /// The numeral of this amount.
    pub fn as_str(&self) -> (numeral: &str)
        ensures
            numeral@ == self@,
            is_decimal(numeral@),
    {
        proof {
            use_type_invariant(self);
        }
        self.numeral.as_str()
    }
}

} // verus!
