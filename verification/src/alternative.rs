//! The alternation combinator, and the boolean literal parser built in its shape.

use crate::error::ParseError;
use crate::parser::Parser;
use crate::tag::Tag;
use vstd::prelude::*;

verus! {

/// Applies `first` to the input; on success its result is the whole result
/// and `second` is never applied. On failure of `first`, applies `second` to
/// the original, untouched input: trying an alternative consumes nothing.
/// When both fail, the combined failure [`ParseError::CombinedMismatch`]
/// records that both alternatives were attempted.
///
/// Every failure of this library is recoverable: there is no failure kind
/// that would forbid trying the second alternative.
pub struct Either<A, B> {
    /// The alternative tried first.
    pub first: A,
    /// The alternative tried on the original input when the first fails.
    pub second: B,
}

impl<A: Parser, B: Parser<Value = A::Value>> Parser for Either<A, B> {
    type Value = A::Value;

    open spec fn spec_parse(&self, input: Seq<u8>) -> Result<
        (int, <A::Value as View>::V),
        ParseError,
    > {
        match self.first.spec_parse(input) {
            Ok(ok) => Ok(ok),
            Err(_first_failure) => match self.second.spec_parse(input) {
                Ok(ok) => Ok(ok),
                Err(_second_failure) => Err(ParseError::CombinedMismatch),
            },
        }
    }

    proof fn lemma_consumes_at_most_input(&self, input: Seq<u8>) {
        self.first.lemma_consumes_at_most_input(input);
        self.second.lemma_consumes_at_most_input(input);
    }

    fn parse(&self, input: &[u8]) -> (r: Result<(usize, A::Value), ParseError>) {
        match self.first.parse(input) {
            Ok(ok) => Ok(ok),
            Err(_first_failure) => match self.second.parse(input) {
                Ok(ok) => Ok(ok),
                Err(_second_failure) => Err(ParseError::CombinedMismatch),
            },
        }
    }
}

/// Builds the alternation parser of the two given parsers.
pub fn parse_either<A: Parser, B: Parser<Value = A::Value>>(first: A, second: B) -> (r: Either<
    A,
    B,
>)
    ensures
        r.first == first,
        r.second == second,
{
    Either { first, second }
}

/// The literal `"true"`.
pub open spec fn spec_true_literal() -> Seq<u8> {
    seq!['t' as u8, 'r' as u8, 'u' as u8, 'e' as u8]
}

/// The literal `"false"`.
pub open spec fn spec_false_literal() -> Seq<u8> {
    seq!['f' as u8, 'a' as u8, 'l' as u8, 's' as u8, 'e' as u8]
}

/// What parsing a boolean literal yields: an input starting with `"true"`
/// gives `true` with those four bytes consumed; otherwise an input starting
/// with `"false"` gives `false` with those five bytes consumed; any other
/// input is a mismatch. Trailing bytes are never consumed.
pub open spec fn spec_parse_bool(input: Seq<u8>) -> Result<(int, bool), ParseError> {
    if crate::tag::starts_with(input, spec_true_literal()) {
        Ok((spec_true_literal().len() as int, true))
    } else if crate::tag::starts_with(input, spec_false_literal()) {
        Ok((spec_false_literal().len() as int, false))
    } else {
        Err(ParseError::Mismatch)
    }
}

/// Builds the byte literal `"true"`.
fn true_literal() -> (v: Vec<u8>)
    ensures
        v@ == spec_true_literal(),
{
    let mut v: Vec<u8> = Vec::new();
    v.push('t' as u8);
    v.push('r' as u8);
    v.push('u' as u8);
    v.push('e' as u8);
    proof {
        assert(v@ =~= spec_true_literal());
    }
    v
}

/// Builds the byte literal `"false"`.
fn false_literal() -> (v: Vec<u8>)
    ensures
        v@ == spec_false_literal(),
{
    let mut v: Vec<u8> = Vec::new();
    v.push('f' as u8);
    v.push('a' as u8);
    v.push('l' as u8);
    v.push('s' as u8);
    v.push('e' as u8);
    proof {
        assert(v@ =~= spec_false_literal());
    }
    v
}

/// Parses a boolean literal at the start of `input`: tries the literal
/// `"true"` first and, on its recoverable failure, the literal `"false"` on
/// the original input; the decoded boolean is the value. When neither literal
/// matches, the failure of the `"false"` attempt is returned.
pub fn parse_bool(input: &[u8]) -> (r: Result<(usize, bool), ParseError>)
    ensures
        (r matches Ok((consumed, value)) ==> (spec_parse_bool(input@) matches Ok((sc, sv)) && sc
            == consumed as int && sv == value)),
        (r matches Err(e) ==> (spec_parse_bool(input@) matches Err(se) && se == e)),
{
    let true_tag = Tag { literal: true_literal() };
    match true_tag.parse(input) {
        Ok((consumed, _matched)) => Ok((consumed, true)),
        Err(_first_failure) => {
            let false_tag = Tag { literal: false_literal() };
            match false_tag.parse(input) {
                Ok((consumed, _matched)) => Ok((consumed, false)),
                Err(second_failure) => Err(second_failure),
            }
        },
    }
}

/// The alternation law: whenever the first alternative succeeds on the input,
/// the combined parser returns exactly the first's result, whatever the second
/// would do; otherwise, whenever the second succeeds on the original input,
/// the combined parser returns exactly the second's result; and when both
/// fail, the combined parser fails with [`ParseError::CombinedMismatch`].
pub proof fn lemma_either_alternation<A: Parser, B: Parser<Value = A::Value>>(
    p: &Either<A, B>,
    input: Seq<u8>,
)
    ensures
        p.first.spec_parse(input) is Ok ==> p.spec_parse(input) == p.first.spec_parse(input),
        p.first.spec_parse(input) is Err && p.second.spec_parse(input) is Ok ==> p.spec_parse(
            input,
        ) == p.second.spec_parse(input),
        p.first.spec_parse(input) is Err && p.second.spec_parse(input) is Err ==> p.spec_parse(
            input,
        ) == Err::<(int, <A::Value as View>::V), ParseError>(ParseError::CombinedMismatch),
{
}

} // verus!
