//! The parser abstraction: a stateless map from an input to a result.

use crate::error::ParseError;
use vstd::prelude::*;

verus! {

/// A parser: a pure, stateless function from a byte input to either a success
/// (how many bytes of the input were consumed, plus a parsed value) or a
/// [`ParseError`].
///
/// `spec_parse` is the mathematical description of the parser; `parse` is the
/// executable parser, whose result is pinned, case by case, to `spec_parse`
/// applied to the input's view. Because `spec_parse` is a function of the
/// parser and the input alone, two applications of `parse` to the same parser
/// and the same input always yield the same result: parsers are deterministic
/// and hold no hidden state.
pub trait Parser where Self: Sized {
    /// The type of the parsed value; its view is what `spec_parse` speaks of.
    type Value: View;

    /// What this parser returns on `input`: `Ok((consumed, value))` where
    /// `0 <= consumed <= input.len()`, or the error it fails with.
    spec fn spec_parse(&self, input: Seq<u8>) -> Result<
        (int, <Self::Value as View>::V),
        ParseError,
    >;

    /// A successful parse never consumes more than the whole input: the
    /// unconsumed remainder is always a suffix of the input, and its length
    /// never exceeds the input's.
    proof fn lemma_consumes_at_most_input(&self, input: Seq<u8>)
        ensures
            self.spec_parse(input) matches Ok((consumed, value)) ==> 0 <= consumed
                <= input.len(),
    ;

    /// Runs the parser on `input`. On success, returns how many leading bytes
    /// were consumed and the parsed value; the remainder of the parse is
    /// `input[consumed..]`. On failure, returns the error; the input is left
    /// untouched, so no partial consumption is ever observable.
    fn parse(&self, input: &[u8]) -> (r: Result<(usize, Self::Value), ParseError>)
        ensures
            (r matches Ok((consumed, value)) ==> (self.spec_parse(input@) matches Ok(
                (sc, sv),
            ) && sc == consumed as int && sv == value@)),
            (r matches Err(e) ==> (self.spec_parse(input@) matches Err(se) && se == e)),
    ;
}

/// Determinism: the contract of [`Parser::parse`] pins its result, at the view
/// level, to `spec_parse`, a mathematical function of the parser and the input
/// alone. So any two results that the contract permits for the same parser on
/// the same input are identical: applying a parser twice to the same input
/// yields the same result, and no parser holds hidden state between
/// applications.
pub proof fn lemma_parse_deterministic<P: Parser>(
    p: &P,
    input: Seq<u8>,
    r1: Result<(int, <P::Value as View>::V), ParseError>,
    r2: Result<(int, <P::Value as View>::V), ParseError>,
)
    requires
        r1 == p.spec_parse(input),
        r2 == p.spec_parse(input),
    ensures
        r1 == r2,
{
}

} // verus!
