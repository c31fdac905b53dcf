//! The body of a successful response: a JSON object of the three averages.

use vstd::prelude::*;
use vstd::string::StringExecFns;

verus! {

/// The three averages of one snapshot as they are to appear in the body: each
/// field is the text of a JSON number, written out by the caller.
#[derive(Debug)]
pub struct Rendered {
    /// The 1-minute average.
    pub last: String,
    /// The 5-minute average.
    pub last5: String,
    /// The 15-minute average.
    pub last15: String,
}

/// The object with the keys `last`, `last5` and `last15`, in that order and
/// without white space, each followed by the text given for it.
pub open spec fn json_object(last: Seq<char>, last5: Seq<char>, last15: Seq<char>) -> Seq<char> {
    "{\"last\":"@ + last + ",\"last5\":"@ + last5 + ",\"last15\":"@ + last15 + "}"@
}

/// One of the digits `0` to `9`.
pub open spec fn is_digit(c: char) -> bool {
    '0' <= c && c <= '9'
}

/// One digit or more, and nothing else.
pub open spec fn is_digits(text: Seq<char>) -> bool {
    text.len() > 0 && forall|i: int| 0 <= i < text.len() ==> is_digit(#[trigger] text[i])
}

/// The integer part of a number: a single zero, or digits that do not start
/// with a zero.
pub open spec fn is_integer_part(text: Seq<char>) -> bool {
    is_digits(text) && (text.len() == 1 || text[0] != '0')
}

/// The fraction part of a number: nothing, or a point and digits.
pub open spec fn is_fraction_part(text: Seq<char>) -> bool {
    text.len() == 0 || (text[0] == '.' && is_digits(text.skip(1)))
}

/// The exponent part of a number: nothing, or `e` or `E`, then digits, with
/// or without a sign before them.
pub open spec fn is_exponent_part(text: Seq<char>) -> bool {
    text.len() == 0 || ((text[0] == 'e' || text[0] == 'E') && (is_digits(text.skip(1)) || ((text[1]
        == '+' || text[1] == '-') && is_digits(text.skip(2)))))
}

/// `text` is a JSON number without a sign whose integer part ends before
/// `fraction` and whose exponent part starts at `exponent`.
pub open spec fn is_unsigned_number_split(text: Seq<char>, fraction: int, exponent: int) -> bool {
    &&& 0 <= fraction <= exponent <= text.len()
    &&& is_integer_part(text.subrange(0, fraction))
    &&& is_fraction_part(text.subrange(fraction, exponent))
    &&& is_exponent_part(text.subrange(exponent, text.len() as int))
}

/// A JSON number without a sign: an integer part, then a fraction part, then
/// an exponent part.
pub open spec fn is_unsigned_number(text: Seq<char>) -> bool {
    exists|fraction: int, exponent: int| is_unsigned_number_split(text, fraction, exponent)
}

/// A JSON number without a sign that is zero: none of the digits before its
/// exponent part is other than `0`.
pub open spec fn is_unsigned_zero(text: Seq<char>) -> bool {
    exists|fraction: int, exponent: int|
        is_unsigned_number_split(text, fraction, exponent) && forall|i: int|
            0 <= i < exponent ==> #[trigger] text[i] == '0' || text[i] == '.'
}

/// A JSON number that is not below zero: a number without a sign, or a zero
/// with a minus sign before it. Every JSON number is finite.
pub open spec fn is_non_negative_number(text: Seq<char>) -> bool {
    is_unsigned_number(text) || (text.len() > 0 && text[0] == '-' && is_unsigned_zero(
        text.skip(1),
    ))
}

/// A body is a load object when it is the object with exactly the keys
/// `last`, `last5` and `last15`, each with a finite number that is not below
/// zero.
pub open spec fn is_load_object(body: Seq<char>) -> bool {
    exists|last: Seq<char>, last5: Seq<char>, last15: Seq<char>|
        {
            &&& is_non_negative_number(last)
            &&& is_non_negative_number(last5)
            &&& is_non_negative_number(last15)
            &&& body == #[trigger] json_object(last, last5, last15)
        }
}

impl Rendered {
    /// Each of the three texts is a JSON number that is not below zero.
    pub open spec fn numeric(self) -> bool {
        &&& is_non_negative_number(self.last@)
        &&& is_non_negative_number(self.last5@)
        &&& is_non_negative_number(self.last15@)
    }

    /// The body that carries these texts.
    pub open spec fn body(self) -> Seq<char> {
        json_object(self.last@, self.last5@, self.last15@)
    }

    /// Writes the body that carries these texts.
    pub fn to_json(&self) -> (body: String)
        ensures
            body@ == self.body(),
            self.numeric() ==> is_load_object(body@),
    {
        let mut body = String::from_str("{\"last\":");
        body.append(self.last.as_str());
        body.append(",\"last5\":");
        body.append(self.last5.as_str());
        body.append(",\"last15\":");
        body.append(self.last15.as_str());
        body.append("}");
        assert(body@ == json_object(self.last@, self.last5@, self.last15@));
        body
    }
}

} // verus!
