//! A small parser-combinator library, verified with Verus.
//!
//! A parser consumes a prefix of a byte slice and yields the number of bytes
//! consumed together with a parsed value, or fails with a [`error::ParseError`].
//! Primitive parsers match fixed literals; combinators build sequencing and
//! alternation on top of them.

pub mod alternative;
pub mod error;
pub mod parser;
pub mod sequence;
pub mod tag;
