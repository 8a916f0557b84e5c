//! The primitive parser: matching a fixed literal prefix.

use crate::error::ParseError;
use crate::parser::Parser;
use vstd::prelude::*;
use vstd::slice::slice_index_get;
use vstd::slice::slice_to_vec;

verus! {

/// True when `input` begins with `prefix`, byte for byte.
pub open spec fn starts_with(input: Seq<u8>, prefix: Seq<u8>) -> bool {
    prefix.len() <= input.len() && input.subrange(0, prefix.len() as int) == prefix
}

/// What matching the literal `literal` against `input` yields: on a match, the
/// literal's length is consumed and the matched bytes (the literal itself) are
/// the value; otherwise the parse fails with [`ParseError::Mismatch`].
pub open spec fn spec_parse_tag(literal: Seq<u8>, input: Seq<u8>) -> Result<
    (int, Seq<u8>),
    ParseError,
> {
    if starts_with(input, literal) {
        Ok((literal.len() as int, literal))
    } else {
        Err(ParseError::Mismatch)
    }
}

/// A parser that matches a fixed literal at the start of the input,
/// case-sensitively and without any normalization.
///
/// An empty literal matches trivially, consuming nothing; an input shorter
/// than the literal makes the parser fail, never panic.
pub struct Tag {
    /// The literal this parser expects at the start of its input.
    pub literal: Vec<u8>,
}

impl Tag {
    /// The literal, as the sequence of bytes contracts speak of.
    pub open spec fn lit(&self) -> Seq<u8> {
        self.literal@
    }
}

impl Parser for Tag {
    type Value = Vec<u8>;

    open spec fn spec_parse(&self, input: Seq<u8>) -> Result<(int, Seq<u8>), ParseError> {
        spec_parse_tag(self.literal@, input)
    }

    proof fn lemma_consumes_at_most_input(&self, input: Seq<u8>) {
    }

    fn parse(&self, input: &[u8]) -> (r: Result<(usize, Vec<u8>), ParseError>) {
        let n = self.literal.len();
        if n > input.len() {
            return Err(ParseError::Mismatch);
        }
        let mut i: usize = 0;
        while i < n
            invariant
                0 <= i <= n,
                n == self.literal@.len(),
                n <= input@.len(),
                forall|k: int| 0 <= k < i ==> input@[k] == self.literal@[k],
            decreases n - i,
        {
            let expected = self.literal[i];
            let got = *slice_index_get(input, i);
            if got != expected {
                proof {
                    assert(input@.subrange(0, n as int)[i as int] != self.literal@[i as int]);
                }
                return Err(ParseError::Mismatch);
            }
            i += 1;
        }
        proof {
            assert(input@.subrange(0, n as int) =~= self.literal@);
        }
        let value = slice_to_vec(self.literal.as_slice());
        Ok((n, value))
    }
}

/// Builds a [`Tag`] parser for the given literal.
pub fn parse_tag(tag: &[u8]) -> (t: Tag)
    ensures
        t.lit() == tag@,
{
    Tag { literal: slice_to_vec(tag) }
}

/// The literal `"Hello"`.
pub open spec fn spec_hello() -> Seq<u8> {
    seq!['H' as u8, 'e' as u8, 'l' as u8, 'l' as u8, 'o' as u8]
}

/// Builds the byte literal `"Hello"`.
fn hello_literal() -> (v: Vec<u8>)
    ensures
        v@ == spec_hello(),
{
    let mut v: Vec<u8> = Vec::new();
    v.push('H' as u8);
    v.push('e' as u8);
    v.push('l' as u8);
    v.push('l' as u8);
    v.push('o' as u8);
    proof {
        assert(v@ =~= spec_hello());
    }
    v
}

/// Matches the literal `"Hello"` at the start of `input`.
pub fn parse_hello(input: &[u8]) -> (r: Result<(usize, Vec<u8>), ParseError>)
    ensures
        (r matches Ok((consumed, value)) ==> (spec_parse_tag(spec_hello(), input@) matches Ok(
            (sc, sv),
        ) && sc == consumed as int && sv == value@)),
        (r matches Err(e) ==> (spec_parse_tag(spec_hello(), input@) matches Err(se) && se == e)),
{
    let t = Tag { literal: hello_literal() };
    t.parse(input)
}

/// When the input starts with the literal, matching the literal succeeds,
/// consumes exactly the literal, and returns the literal as the value, so the
/// unconsumed remainder is the input with the literal's prefix removed.
pub proof fn lemma_tag_succeeds_on_prefix(literal: Seq<u8>, input: Seq<u8>)
    requires
        starts_with(input, literal),
    ensures
        spec_parse_tag(literal, input) == Ok::<(int, Seq<u8>), ParseError>(
            (literal.len() as int, literal),
        ),
        input == literal + input.skip(literal.len() as int),
{
    assert(input =~= literal + input.skip(literal.len() as int));
}

/// When the input does not start with the literal, matching the literal fails
/// with [`ParseError::Mismatch`]; nothing of the input is consumed.
pub proof fn lemma_tag_fails_without_prefix(literal: Seq<u8>, input: Seq<u8>)
    requires
        !starts_with(input, literal),
    ensures
        spec_parse_tag(literal, input) == Err::<(int, Seq<u8>), ParseError>(ParseError::Mismatch),
{
}

} // verus!
