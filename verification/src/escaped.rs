//! Backslash escapes.

use vstd::prelude::*;
use crate::combinator::{mismatch, next, ok};
use crate::errors::{Kind, MarkDownError};
use crate::input::{Cursor, TokenStream};
use crate::s::{at_line_ending, consumed, line_ending_len, LineEnding};
use crate::span::{ControlFlow, Span};

verus! {

/// The byte that starts an escape.
pub const BACKSLASH: u8 = 0x5c;

/// A backslash escape: a backslash and the character it escapes, or a
/// backslash at the end of a line.
#[derive(Clone, Copy, Debug, PartialEq, Eq)]
pub enum Escaped<'a> {
    /// Escaped `*`.
    Star(TokenStream<'a>),
    /// Escaped `<`.
    Lt(TokenStream<'a>),
    /// Escaped `[`.
    Square(TokenStream<'a>),
    /// Escaped backtick.
    Backtick(TokenStream<'a>),
    /// Escaped `.`.
    Dot(TokenStream<'a>),
    /// Escaped `#`.
    Pound(TokenStream<'a>),
    /// Escaped `&`.
    And(TokenStream<'a>),
    /// Escaped `\`.
    Backslash(TokenStream<'a>),
    /// A backslash followed by a line ending.
    HardlineBreak(TokenStream<'a>),
}

/// The input holds a backslash and then a character that can be escaped or
/// a line ending.
pub open spec fn at_escape(input: Cursor) -> bool {
    &&& input.text.len() > 0
    &&& input.text[0] == BACKSLASH
    &&& {
        ||| input.text.len() > 1 && Escaped::is_target(input.text[1])
        ||| line_ending_len(input.text.skip(1)) > 0
    }
}

/// The failure of an escape on `input`: without a backslash it points to the
/// byte at the cursor, with one it points to all that is left.
pub open spec fn escape_failure(input: Cursor) -> MarkDownError {
    if input.text.len() > 0 && input.text[0] == BACKSLASH {
        MarkDownError::Kind(Kind::Escaped, ControlFlow::Recoverable, input.span())
    } else {
        MarkDownError::Kind(Kind::Escaped, ControlFlow::Recoverable, mismatch(input, 1).region())
    }
}

impl<'a> Escaped<'a> {
    /// `b` is one of the characters a backslash escapes.
    pub open spec fn is_target(b: u8) -> bool {
        b == 0x2a || b == 0x3c || b == 0x5b || b == 0x60 || b == 0x2e || b == 0x23 || b == 0x26
            || b == 0x5c
    }

    /// The slice that holds the escape, backslash included.
    pub open spec fn slice(self) -> TokenStream<'a> {
        match self {
            Escaped::Star(input) => input,
            Escaped::Lt(input) => input,
            Escaped::Square(input) => input,
            Escaped::Backtick(input) => input,
            Escaped::Dot(input) => input,
            Escaped::Pound(input) => input,
            Escaped::And(input) => input,
            Escaped::Backslash(input) => input,
            Escaped::HardlineBreak(input) => input,
        }
    }

    /// The region the escape covers.
    pub open spec fn region(self) -> Span {
        self.slice()@.span()
    }

    /// The bytes of the escape.
    pub open spec fn text(self) -> Seq<u8> {
        self.slice().value@
    }

    /// What follows the backslash in an escape of this variant.
    pub open spec fn tail_matches(self, tail: Seq<u8>) -> bool {
        match self {
            Escaped::Star(_) => tail == seq![0x2au8],
            Escaped::Lt(_) => tail == seq![0x3cu8],
            Escaped::Square(_) => tail == seq![0x5bu8],
            Escaped::Backtick(_) => tail == seq![0x60u8],
            Escaped::Dot(_) => tail == seq![0x2eu8],
            Escaped::Pound(_) => tail == seq![0x23u8],
            Escaped::And(_) => tail == seq![0x26u8],
            Escaped::Backslash(_) => tail == seq![0x5cu8],
            Escaped::HardlineBreak(_) => tail.len() > 0 && tail.len() == line_ending_len(tail),
        }
    }

    /// The escape is the first thing in `before`: a backslash and what the
    /// variant stands for; `after` is what follows it.
    pub open spec fn parsed(self, before: Cursor, after: Cursor) -> bool {
        &&& before.splits_into(self.slice()@, after)
        &&& self.slice().value@.len() >= 2
        &&& self.slice().value@[0] == BACKSLASH
        &&& self.tail_matches(self.slice().value@.skip(1))
    }

    /// Takes a backslash escape at the cursor.
    pub fn parse(input: &mut TokenStream<'a>) -> (r: Result<Escaped<'a>, MarkDownError>)
        requires
            old(input).wf(),
        ensures
            r is Ok <==> at_escape(old(input)@),
            match r {
                Ok(node) => {
                    &&& node.parsed(old(input)@, final(input)@)
                    &&& node.region() == consumed(old(input)@, final(input)@)
                    &&& node.text() + final(input).value@ == old(input).value@
                },
                Err(e) => e == escape_failure(old(input)@) && *final(input) == *old(input),
            },
            final(input).wf(),
    {
        let mut cursor = *input;
        match next(&mut cursor, BACKSLASH) {
            Ok(_) => {},
            Err(e) => {
                return Err(Kind::Escaped.map(e));
            },
        }
        let target = cursor.first();
        assert(cursor.value@ =~= old(input).value@.skip(1));
        assert(cursor.value@.len() > 0 ==> cursor.value@[0] == old(input).value@[1]);
        match target {
            Some(0x2a) => {
                Ok(Escaped::Star(Self::take_pair(input)))
            },
            Some(0x3c) => {
                Ok(Escaped::Lt(Self::take_pair(input)))
            },
            Some(0x5b) => {
                Ok(Escaped::Square(Self::take_pair(input)))
            },
            Some(0x60) => {
                Ok(Escaped::Backtick(Self::take_pair(input)))
            },
            Some(0x2e) => {
                Ok(Escaped::Dot(Self::take_pair(input)))
            },
            Some(0x23) => {
                Ok(Escaped::Pound(Self::take_pair(input)))
            },
            Some(0x26) => {
                Ok(Escaped::And(Self::take_pair(input)))
            },
            Some(0x5c) => {
                Ok(Escaped::Backslash(Self::take_pair(input)))
            },
            _ => {
                let ghost before = cursor;
                match ok(&mut cursor, LineEnding::parse) {
                    Ok(Some(line_ending)) => {
                        let len: usize = match line_ending {
                            LineEnding::LF(_) => 1,
                            LineEnding::CrLf(_) => 2,
                        };
                        assert(line_ending.parsed(before@, cursor@));
                        let taken = input.split_to(len + 1);
                        assert(taken.value@.skip(1) =~= line_ending.slice().value@);
                        Ok(Escaped::HardlineBreak(taken))
                    },
                    _ => {
                        assert(!at_line_ending(before@));
                        Err(
                            MarkDownError::Kind(
                                Kind::Escaped,
                                ControlFlow::Recoverable,
                                input.to_span(),
                            ),
                        )
                    },
                }
            },
        }
    }

    /// Takes the backslash and the byte after it.
    fn take_pair(input: &mut TokenStream<'a>) -> (r: TokenStream<'a>)
        requires
            old(input).wf(),
            old(input).value@.len() >= 2,
        ensures
            old(input)@.splits_into(r@, final(input)@),
            r.value@.len() == 2,
            r.value@[0] == old(input).value@[0],
            r.value@.skip(1) == seq![old(input).value@[1]],
            r.wf(),
            final(input).wf(),
    {
        let r = input.split_to(2);
        assert(r.value@.skip(1) =~= seq![old(input).value@[1]]);
        r
    }

    /// The region the escape covers.
    pub fn to_span(&self) -> (r: Span)
        requires
            self.slice().wf(),
        ensures
            r == self.region(),
    {
        match self {
            Escaped::Star(input) => input.to_span(),
            Escaped::Lt(input) => input.to_span(),
            Escaped::Square(input) => input.to_span(),
            Escaped::Backtick(input) => input.to_span(),
            Escaped::Dot(input) => input.to_span(),
            Escaped::Pound(input) => input.to_span(),
            Escaped::And(input) => input.to_span(),
            Escaped::Backslash(input) => input.to_span(),
            Escaped::HardlineBreak(input) => input.to_span(),
        }
    }
}

} // verus!
