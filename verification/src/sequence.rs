//! The sequencing combinator: two parsers joined by a separator.

use crate::error::ParseError;
use crate::parser::Parser;
use crate::tag::Tag;
use crate::tag::parse_tag;
use vstd::prelude::*;
use vstd::slice::slice_subrange;

verus! {

/// Applies `first`, then `separator` on the remainder, then `second` on the
/// remainder of that, strictly left to right and without backtracking: the
/// first failure is propagated at once and the later parsers are never
/// applied. On full success the value is the pair of `first`'s and `second`'s
/// values; the separator's value is discarded.
pub struct Separated<A, S, B> {
    /// The parser for the left value.
    pub first: A,
    /// The parser for the separator, whose value is discarded.
    pub separator: S,
    /// The parser for the right value.
    pub second: B,
}

impl<A: Parser, S: Parser, B: Parser> Parser for Separated<A, S, B> {
    type Value = (A::Value, B::Value);

    open spec fn spec_parse(&self, input: Seq<u8>) -> Result<
        (int, (<A::Value as View>::V, <B::Value as View>::V)),
        ParseError,
    > {
        match self.first.spec_parse(input) {
            Err(e) => Err(e),
            Ok((n1, v1)) => match self.separator.spec_parse(input.skip(n1)) {
                Err(e) => Err(e),
                Ok((n2, _sep)) => match self.second.spec_parse(input.skip(n1).skip(n2)) {
                    Err(e) => Err(e),
                    Ok((n3, v2)) => Ok((n1 + n2 + n3, (v1, v2))),
                },
            },
        }
    }

    proof fn lemma_consumes_at_most_input(&self, input: Seq<u8>) {
        self.first.lemma_consumes_at_most_input(input);
        if let Ok((n1, _v1)) = self.first.spec_parse(input) {
            self.separator.lemma_consumes_at_most_input(input.skip(n1));
            if let Ok((n2, _sep)) = self.separator.spec_parse(input.skip(n1)) {
                self.second.lemma_consumes_at_most_input(input.skip(n1).skip(n2));
            }
        }
    }

    fn parse(&self, input: &[u8]) -> (r: Result<(usize, (A::Value, B::Value)), ParseError>) {
        let (n1, v1) = match self.first.parse(input) {
            Ok(ok) => ok,
            Err(e) => {
                return Err(e);
            },
        };
        proof {
            self.first.lemma_consumes_at_most_input(input@);
        }
        let rest1 = slice_subrange(input, n1, input.len());
        proof {
            assert(rest1@ =~= input@.skip(n1 as int));
        }
        let (n2, _sep) = match self.separator.parse(rest1) {
            Ok(ok) => ok,
            Err(e) => {
                return Err(e);
            },
        };
        proof {
            self.separator.lemma_consumes_at_most_input(rest1@);
        }
        let rest2 = slice_subrange(rest1, n2, rest1.len());
        proof {
            assert(rest2@ =~= input@.skip(n1 as int).skip(n2 as int));
        }
        let (n3, v2) = match self.second.parse(rest2) {
            Ok(ok) => ok,
            Err(e) => {
                return Err(e);
            },
        };
        proof {
            self.second.lemma_consumes_at_most_input(rest2@);
        }
        Ok((n1 + n2 + n3, (v1, v2)))
    }
}

/// Builds the sequencing parser of the three given parsers.
pub fn parse_separated<A: Parser, S: Parser, B: Parser>(first: A, separator: S, second: B) -> (r:
    Separated<A, S, B>)
    ensures
        r.first == first,
        r.separator == separator,
        r.second == second,
{
    Separated { first, separator, second }
}

/// The literal `", "`.
pub open spec fn spec_comma_space() -> Seq<u8> {
    seq![',' as u8, ' ' as u8]
}

/// Builds the byte literal `", "`.
fn comma_space_literal() -> (v: Vec<u8>)
    ensures
        v@ == spec_comma_space(),
{
    let mut v: Vec<u8> = Vec::new();
    v.push(',' as u8);
    v.push(' ' as u8);
    proof {
        assert(v@ =~= spec_comma_space());
    }
    v
}

/// Builds a parser for the two given literals separated by the fixed
/// separator `", "`: a sequencing of three tag parsers.
pub fn parse_comma_tags(tag1: &[u8], tag2: &[u8]) -> (r: Separated<Tag, Tag, Tag>)
    ensures
        r.first.lit() == tag1@,
        r.separator.lit() == spec_comma_space(),
        r.second.lit() == tag2@,
{
    Separated {
        first: parse_tag(tag1),
        separator: Tag { literal: comma_space_literal() },
        second: parse_tag(tag2),
    }
}

/// The sequencing law: the combined parser succeeds exactly when the first
/// parser succeeds on the input, the separator succeeds on the first's
/// remainder, and the second succeeds on the separator's remainder, in that
/// order. The combined value is exactly the pair of the first's and the
/// second's values, and the combined parse consumes exactly as much as the
/// three parses together, so the final remainder is the second's remainder.
pub proof fn lemma_separated_sequencing<A: Parser, S: Parser, B: Parser>(
    p: &Separated<A, S, B>,
    input: Seq<u8>,
)
    ensures
        p.spec_parse(input) is Ok <==> (p.first.spec_parse(input) matches Ok((n1, _v1))
            && (p.separator.spec_parse(input.skip(n1)) matches Ok((n2, _sep))
            && p.second.spec_parse(input.skip(n1).skip(n2)) is Ok)),
        p.spec_parse(input) matches Ok((n, v)) ==> (p.first.spec_parse(input) matches Ok((n1, v1))
            && (p.separator.spec_parse(input.skip(n1)) matches Ok((n2, _sep))
            && (p.second.spec_parse(input.skip(n1).skip(n2)) matches Ok((n3, v2)) && n == n1 + n2
            + n3 && v == (v1, v2)))),
{
}

} // verus!
