//! The single kind of parse failure: one diagnostic message, which names
//! the place in the text that it speaks of.
use vstd::prelude::*;
use crate::parser::input::{IResult, Input};

verus! {

/// `nom::error::ErrorKind`, the tag that names the primitive parser that
/// failed. It is carried through and never inspected.
#[verifier::external_type_specification]
#[verifier::external_body]
pub struct ExErrorKind(nom::error::ErrorKind);

/// The character of the decimal digit `d`.
pub open spec fn digit_char(d: nat) -> char {
    if d == 0 {
        '0'
    } else if d == 1 {
        '1'
    } else if d == 2 {
        '2'
    } else if d == 3 {
        '3'
    } else if d == 4 {
        '4'
    } else if d == 5 {
        '5'
    } else if d == 6 {
        '6'
    } else if d == 7 {
        '7'
    } else if d == 8 {
        '8'
    } else {
        '9'
    }
}

/// The decimal numeral of `n`, without leading zeros.
pub open spec fn decimal(n: nat) -> Seq<char>
    decreases n,
{
    if n < 10 {
        seq![digit_char(n)]
    } else {
        decimal(n / 10).push(digit_char(n % 10))
    }
}

/// A message with the place it speaks of: the number of characters in
/// front of that place.
pub open spec fn located(message: Seq<char>, offset: int) -> Seq<char> {
    message + " at offset "@ + decimal(offset as nat)
}

/// The character of the decimal digit `d`.
fn digit(d: usize) -> (c: char)
    requires
        d < 10,
    ensures
        c == digit_char(d as nat),
{
    if d == 0 {
        '0'
    } else if d == 1 {
        '1'
    } else if d == 2 {
        '2'
    } else if d == 3 {
        '3'
    } else if d == 4 {
        '4'
    } else if d == 5 {
        '5'
    } else if d == 6 {
        '6'
    } else if d == 7 {
        '7'
    } else if d == 8 {
        '8'
    } else {
        '9'
    }
}

/// Appends the decimal numeral of `n` to `out`.
fn push_decimal(out: &mut String, n: usize)
    ensures
        final(out)@ == old(out)@ + decimal(n as nat),
    decreases n,
{
    if n >= 10 {
        push_decimal(out, n / 10);
    }
    out.push(digit(n % 10));
    proof {
        assert(final(out)@ =~= old(out)@ + decimal(n as nat));
    }
}

/// A parse failure and its message.
#[derive(Debug)]
pub struct PError(pub String);

impl View for PError {
    type V = Seq<char>;

    open spec fn view(&self) -> Seq<char> {
        self.0@
    }
}

impl PError {
    /// A failed parse that carries `message`.
    pub fn from<'a, O>(message: &str) -> (r: IResult<'a, O>)
        ensures
            r matches Err(e) && e@ == message@,
    {
        Err(PError(message.to_string()))
    }

    /// The failure that carries `message` and the place of the cursor.
    pub fn at(message: &str, input: Input<'_>) -> (e: PError)
        ensures
            e@ == located(message@, input.pos()),
    {
        let mut text = message.to_string();
        text.append(" at offset ");
        push_decimal(&mut text, input.offset());
        PError(text)
    }

    /// The failure of a primitive that has no message of its own: whatever
    /// the position and the primitive, the message is `parse error`.
    pub fn from_error_kind(input: Input<'_>, kind: nom::error::ErrorKind) -> (r: PError)
        ensures
            r@ == "parse error"@,
    {
        PError("parse error".to_string())
    }

    /// Wraps an inner failure in an outer context: the inner failure is
    /// kept as it is and the context is discarded.
    pub fn append(input: Input<'_>, kind: nom::error::ErrorKind, other: PError) -> (r: PError)
        ensures
            r == other,
    {
        other
    }
}

} // verus!
