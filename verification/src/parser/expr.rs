//! The expression sub-parser: scalar expressions and window bodies.
use vstd::prelude::*;
use crate::ast::expr::{Expr, ExprModel, WindowSpec, WindowSpecModel};
use crate::parser::combinator::{separated_list, spec_separated_list, Rule};
use crate::parser::error::{located, PError};
use crate::parser::input::{skip_trivia, IResult, Input};
use crate::parser::token::{
    agrees, all_digits, identifier, is_digit, keyword, spec_identifier, spec_keyword, word_end,
    word_len, Parsed,
};

verus! {

/// An expression: a number, which is a word made of digits only, or an
/// identifier.
pub open spec fn spec_expr(s: Seq<char>, i: int) -> Parsed<ExprModel> {
    let start = skip_trivia(s, i);
    let end = word_end(s, start);
    if 0 <= start < s.len() && is_digit(s[start]) {
        if all_digits(s.subrange(start, end)) {
            Ok((ExprModel::Number(s.subrange(start, end)), end))
        } else {
            Err(located("invalid number"@, start))
        }
    } else {
        match spec_identifier(s, i) {
            Ok((name, k)) => Ok((ExprModel::Identifier(name), k)),
            Err(_) => Err(located("expected expression"@, start)),
        }
    }
}

/// [`spec_expr`] as a rule.
pub open spec fn expr_rule() -> Rule<ExprModel> {
    |s: Seq<char>, i: int| spec_expr(s, i)
}

/// One or more expressions separated by commas.
pub open spec fn spec_expr_list(s: Seq<char>, i: int) -> Parsed<Seq<ExprModel>> {
    spec_separated_list(expr_rule(), ',', s, i)
}

/// A list clause: `kw`, then `BY`, then expressions. Without `kw` the
/// list is empty and nothing is consumed.
pub open spec fn spec_by_list(kw: Seq<char>, s: Seq<char>, i: int) -> Parsed<Seq<ExprModel>> {
    match spec_keyword(s, i, kw) {
        None => Ok((Seq::empty(), i)),
        Some(j) => match spec_keyword(s, j, "BY"@) {
            None => Err(located("expected BY"@, skip_trivia(s, j))),
            Some(k) => spec_expr_list(s, k),
        },
    }
}

/// The body of a window definition: an optional `PARTITION BY` list, then
/// an optional `ORDER BY` list.
pub open spec fn spec_window_spec(s: Seq<char>, i: int) -> Parsed<WindowSpecModel> {
    match spec_by_list("PARTITION"@, s, i) {
        Err(e) => Err(e),
        Ok((partition_by, j)) => match spec_by_list("ORDER"@, s, j) {
            Err(e) => Err(e),
            Ok((order_by, k)) => Ok((WindowSpecModel { partition_by, order_by }, k)),
        },
    }
}

/// Whether the next `n` characters are all digits.
fn digits_only(input: Input<'_>, n: usize) -> (r: bool)
    requires
        input.pos() + n <= input.text().len(),
    ensures
        r == all_digits(input.text().subrange(input.pos(), input.pos() + n)),
{
    let ghost word = input.text().subrange(input.pos(), input.pos() + n);
    let mut k: usize = 0;
    while k < n
        invariant
            k <= n,
            input.pos() + n <= input.text().len(),
            word == input.text().subrange(input.pos(), input.pos() + n),
            forall|j: int| 0 <= j < k ==> is_digit(#[trigger] word[j]),
        decreases n - k,
    {
        let c = input.peek_at(k).unwrap();
        if !(c >= '0' && c <= '9') {
            proof {
                assert(!is_digit(word[k as int]));
            }
            return false;
        }
        k += 1;
    }
    true
}

/// Parses an expression.
pub fn parse_expr<'a>(input: Input<'a>) -> (r: IResult<'a, Expr>)
    ensures
        agrees(r, input, spec_expr(input.text(), input.pos())),
{
    let start = input.skip_trivia();
    let numeric = match start.peek() {
        Some(c) => c >= '0' && c <= '9',
        None => false,
    };
    if numeric {
        let n = word_len(start);
        if !digits_only(start, n) {
            return Err(PError::at("invalid number", start));
        }
        let digits = start.take_text(n);
        Ok((start.advance(n), Expr::Number(digits)))
    } else {
        match identifier(input) {
            Ok((rest, name)) => Ok((rest, Expr::Identifier(name))),
            Err(_) => Err(PError::at("expected expression", start)),
        }
    }
}

/// Parses one or more expressions separated by commas.
pub fn parse_expr_list<'a>(input: Input<'a>) -> (r: IResult<'a, Vec<Expr>>)
    ensures
        agrees(r, input, spec_expr_list(input.text(), input.pos())),
{
    separated_list(parse_expr, ',', input, Ghost(expr_rule()))
}

/// Parses a list clause: `kw`, then `BY`, then expressions.
pub fn parse_by_list<'a>(kw: &str, input: Input<'a>) -> (r: IResult<'a, Vec<Expr>>)
    ensures
        agrees(r, input, spec_by_list(kw@, input.text(), input.pos())),
{
    proof {
        use_type_invariant(&input);
        input.lemma_in_bounds();
    }
    match keyword(input, kw) {
        None => {
            let none: Vec<Expr> = Vec::new();
            proof {
                assert(none.deep_view() =~= Seq::<ExprModel>::empty());
            }
            Ok((input, none))
        },
        Some(after) => match keyword(after, "BY") {
            None => Err(PError::at("expected BY", after.skip_trivia())),
            Some(inside) => parse_expr_list(inside),
        },
    }
}

/// Parses the body of a window definition.
pub fn parse_window_spec<'a>(input: Input<'a>) -> (r: IResult<'a, WindowSpec>)
    ensures
        agrees(r, input, spec_window_spec(input.text(), input.pos())),
{
    let (rest, partition_by) = parse_by_list("PARTITION", input)?;
    let (rest, order_by) = parse_by_list("ORDER", rest)?;
    Ok((rest, WindowSpec { partition_by, order_by }))
}

} // verus!
