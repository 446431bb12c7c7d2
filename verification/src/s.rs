//! Whitespace, indentation and line endings.

use vstd::prelude::*;
use crate::combinator::{keyword, mismatch, occurs_at, ok, or};
use crate::errors::{Kind, MarkDownError};
use crate::input::{lemma_space_len_start, space_len, space_width, Cursor, TokenStream};
use crate::span::{ControlFlow, Span};

verus! {

/// The region between two positions of the cursor.
pub open spec fn consumed(before: Cursor, after: Cursor) -> Span {
    Span::Range(before.offset as usize, after.offset as usize)
}

/// The bytes of a carriage return followed by a line feed.
pub open spec fn crlf_bytes() -> Seq<u8> {
    seq![0x0du8, 0x0au8]
}

/// The byte of a line feed.
pub open spec fn lf_bytes() -> Seq<u8> {
    seq![0x0au8]
}

/// Where the whitespace at the start of `before` ends.
pub open spec fn after_space(before: Cursor) -> Cursor {
    before.advance(space_len(before.text))
}

/// Where the line ending at the start of `before` ends.
pub open spec fn after_line_ending(before: Cursor) -> Cursor {
    before.advance(line_ending_len(before.text))
}

/// A run of whitespace that does not break the line. It may be empty.
///
/// Whitespace is made of the characters that `space_width` knows.
#[derive(Clone, Copy, Debug, PartialEq, Eq)]
pub struct S<'a>(pub TokenStream<'a>);

impl<'a> S<'a> {
    /// The region the run covers.
    pub open spec fn region(self) -> Span {
        self.0@.span()
    }

    /// The bytes of the run.
    pub open spec fn text(self) -> Seq<u8> {
        self.0.value@
    }

    /// The run is the longest whitespace prefix of `before`, and `after` is
    /// what follows it.
    pub open spec fn parsed(self, before: Cursor, after: Cursor) -> bool {
        &&& before.splits_into(self.0@, after)
        &&& self.0.value@.len() == space_len(before.text)
    }

    /// Takes the longest run of whitespace at the cursor. Never fails.
    pub fn parse(input: &mut TokenStream<'a>) -> (r: Result<S<'a>, MarkDownError>)
        requires
            old(input).wf(),
        ensures
            r matches Ok(node) && node.parsed(old(input)@, final(input)@),
            r matches Ok(node) && node.region() == consumed(old(input)@, final(input)@),
            r matches Ok(node) && node.text() + final(input).value@ == old(input).value@,
            r matches Ok(node) && node.0.wf(),
            final(input)@ == after_space(old(input)@),
            final(input).wf(),
    {
        let run = input.take_space();
        Ok(S(run))
    }

    /// The region the run covers.
    pub fn to_span(&self) -> (r: Span)
        requires
            self.0.wf(),
        ensures
            r == self.region(),
    {
        self.0.to_span()
    }
}

/// A run of whitespace that does not break the line, at least one byte long.
#[derive(Clone, Copy, Debug, PartialEq, Eq)]
pub struct S1<'a>(pub TokenStream<'a>);

impl<'a> S1<'a> {
    /// The region the run covers.
    pub open spec fn region(self) -> Span {
        self.0@.span()
    }

    /// The bytes of the run.
    pub open spec fn text(self) -> Seq<u8> {
        self.0.value@
    }

    /// The run is the longest whitespace prefix of `before`, it is not
    /// empty, and `after` is what follows it.
    pub open spec fn parsed(self, before: Cursor, after: Cursor) -> bool {
        &&& before.splits_into(self.0@, after)
        &&& self.0.value@.len() == space_len(before.text)
        &&& self.0.value@.len() > 0
    }

    /// The input starts with whitespace.
    pub open spec fn matches(input: Cursor) -> bool {
        space_width(input.text, 0) > 0
    }

    /// Takes the longest run of whitespace at the cursor, and fails under
    /// its own kind, `Kind::S1`, if the run is empty.
    pub fn parse(input: &mut TokenStream<'a>) -> (r: Result<S1<'a>, MarkDownError>)
        requires
            old(input).wf(),
        ensures
            r is Ok <==> Self::matches(old(input)@),
            match r {
                Ok(node) => {
                    &&& node.parsed(old(input)@, final(input)@)
                    &&& node.0.wf()
                    &&& final(input)@ == after_space(old(input)@)
                    &&& node.region() == consumed(old(input)@, final(input)@)
                    &&& node.text() + final(input).value@ == old(input).value@
                },
                Err(e) => {
                    &&& e == MarkDownError::Kind(
                        Kind::S1,
                        ControlFlow::Recoverable,
                        Span::Range(old(input).offset, old(input).offset),
                    )
                    &&& *final(input) == *old(input)
                },
            },
            final(input).wf(),
    {
        let mut cursor = *input;
        let run = cursor.take_space();
        proof {
            lemma_space_len_start(input.value@);
        }
        if run.is_empty() {
            return Err(MarkDownError::Kind(Kind::S1, ControlFlow::Recoverable, run.to_span()));
        }
        *input = cursor;
        Ok(S1(run))
    }

    /// Takes a run of whitespace at the cursor if there is one.
    pub fn parse_optional(input: &mut TokenStream<'a>) -> (r: Option<S1<'a>>)
        requires
            old(input).wf(),
        ensures
            match r {
                Some(node) => node.parsed(old(input)@, final(input)@) && node.0.wf(),
                None => !Self::matches(old(input)@) && *final(input) == *old(input),
            },
            final(input).wf(),
    {
        match ok(input, Self::parse) {
            Ok(found) => found,
            Err(_) => None,
        }
    }

    /// The region the run covers.
    pub fn to_span(&self) -> (r: Span)
        requires
            self.0.wf(),
        ensures
            r == self.region(),
    {
        self.0.to_span()
    }
}

/// The failure of an indentation that is too long or too short: it points
/// to everything that was left when the indentation was tried.
pub open spec fn indentation_failure(input: Cursor) -> MarkDownError {
    MarkDownError::Kind(Kind::LeadingWhiteSpace, ControlFlow::Recoverable, input.span())
}

/// Indentation of at most `N` bytes.
#[derive(Clone, Copy, Debug, PartialEq, Eq)]
pub struct IndentationTo<'a, const N: usize>(pub TokenStream<'a>);

impl<'a, const N: usize> IndentationTo<'a, N> {
    /// The region the indentation covers.
    pub open spec fn region(self) -> Span {
        self.0@.span()
    }

    /// The bytes of the indentation.
    pub open spec fn text(self) -> Seq<u8> {
        self.0.value@
    }

    /// The indentation is the whole whitespace run at the start of `before`,
    /// it is at most `N` bytes long, and `after` is what follows it.
    pub open spec fn parsed(self, before: Cursor, after: Cursor) -> bool {
        &&& before.splits_into(self.0@, after)
        &&& self.0.value@.len() == space_len(before.text)
        &&& self.0.value@.len() <= N
    }

    /// Takes the whitespace run at the cursor, and fails if it is longer
    /// than `N` bytes.
    pub fn parse(input: &mut TokenStream<'a>) -> (r: Result<IndentationTo<'a, N>, MarkDownError>)
        requires
            old(input).wf(),
        ensures
            r is Ok <==> space_len(old(input).value@) <= N,
            match r {
                Ok(node) => {
                    &&& node.parsed(old(input)@, final(input)@)
                    &&& node.0.wf()
                    &&& final(input)@ == after_space(old(input)@)
                    &&& node.region() == consumed(old(input)@, final(input)@)
                    &&& node.text() + final(input).value@ == old(input).value@
                },
                Err(e) => e == indentation_failure(old(input)@) && *final(input) == *old(input),
            },
            final(input).wf(),
    {
        let mut cursor = *input;
        let run = cursor.take_space();
        if run.len() > N {
            return Err(
                MarkDownError::Kind(
                    Kind::LeadingWhiteSpace,
                    ControlFlow::Recoverable,
                    input.to_span(),
                ),
            );
        }
        *input = cursor;
        Ok(IndentationTo(run))
    }

    /// The region the indentation covers.
    pub fn to_span(&self) -> (r: Span)
        requires
            self.0.wf(),
        ensures
            r == self.region(),
    {
        self.0.to_span()
    }
}

/// The whitespace that may lead a block: at most `N` bytes of it.
pub type LeadingWhiteSpace<'a, const N: usize> = IndentationTo<'a, N>;

/// The whitespace that may lead a line: at most `N` bytes of it.
pub type IdentWhiteSpaces<'a, const N: usize> = IndentationTo<'a, N>;

/// Indentation of at least `N` bytes.
#[derive(Clone, Copy, Debug, PartialEq, Eq)]
pub struct IndentationFrom<'a, const N: usize>(pub TokenStream<'a>);

impl<'a, const N: usize> IndentationFrom<'a, N> {
    /// The region the indentation covers.
    pub open spec fn region(self) -> Span {
        self.0@.span()
    }

    /// The bytes of the indentation.
    pub open spec fn text(self) -> Seq<u8> {
        self.0.value@
    }

    /// The indentation is the whole whitespace run at the start of `before`,
    /// it is at least `N` bytes long, and `after` is what follows it.
    pub open spec fn parsed(self, before: Cursor, after: Cursor) -> bool {
        &&& before.splits_into(self.0@, after)
        &&& self.0.value@.len() == space_len(before.text)
        &&& self.0.value@.len() >= N
    }

    /// Takes the whitespace run at the cursor, and fails if it is shorter
    /// than `N` bytes.
    pub fn parse(input: &mut TokenStream<'a>) -> (r: Result<
        IndentationFrom<'a, N>,
        MarkDownError,
    >)
        requires
            old(input).wf(),
        ensures
            r is Ok <==> space_len(old(input).value@) >= N,
            match r {
                Ok(node) => {
                    &&& node.parsed(old(input)@, final(input)@)
                    &&& node.0.wf()
                    &&& final(input)@ == after_space(old(input)@)
                    &&& node.region() == consumed(old(input)@, final(input)@)
                    &&& node.text() + final(input).value@ == old(input).value@
                },
                Err(e) => e == indentation_failure(old(input)@) && *final(input) == *old(input),
            },
            final(input).wf(),
    {
        let mut cursor = *input;
        let run = cursor.take_space();
        if run.len() < N {
            return Err(
                MarkDownError::Kind(
                    Kind::LeadingWhiteSpace,
                    ControlFlow::Recoverable,
                    input.to_span(),
                ),
            );
        }
        *input = cursor;
        Ok(IndentationFrom(run))
    }

    /// The region the indentation covers.
    pub fn to_span(&self) -> (r: Span)
        requires
            self.0.wf(),
        ensures
            r == self.region(),
    {
        self.0.to_span()
    }
}

/// The characters that end a line.
#[derive(Clone, Copy, Debug, PartialEq, Eq)]
pub enum LineEnding<'a> {
    /// A line feed.
    LF(TokenStream<'a>),
    /// A carriage return followed by a line feed.
    CrLf(TokenStream<'a>),
}

/// The failure of a line ending: it points to the byte at the cursor.
pub open spec fn line_ending_failure(input: Cursor) -> MarkDownError {
    MarkDownError::Kind(Kind::LineEnding, mismatch(input, 1).flow(), mismatch(input, 1).region())
}

/// The length of the line ending that `s` starts with, or 0 if it starts
/// with none.
pub open spec fn line_ending_len(s: Seq<u8>) -> int {
    if s.len() >= 2 && s[0] == 0x0d && s[1] == 0x0a {
        2
    } else if s.len() >= 1 && s[0] == 0x0a {
        1
    } else {
        0
    }
}

/// The input starts with a line ending.
pub open spec fn at_line_ending(input: Cursor) -> bool {
    line_ending_len(input.text) > 0
}

/// A sequence starts with a word exactly when its first bytes are those of
/// the word.
proof fn lemma_starts_with_line_ending(s: Seq<u8>)
    ensures
        occurs_at(s, crlf_bytes(), 0) <==> s.len() >= 2 && s[0] == 0x0d && s[1] == 0x0a,
        occurs_at(s, lf_bytes(), 0) <==> s.len() >= 1 && s[0] == 0x0a,
{
    if s.len() >= 2 {
        assert(s.subrange(0, 2)[0] == s[0]);
        assert(s.subrange(0, 2)[1] == s[1]);
        if s[0] == 0x0d && s[1] == 0x0a {
            assert(s.subrange(0, 2) =~= crlf_bytes());
        }
    }
    if s.len() >= 1 {
        assert(s.subrange(0, 1)[0] == s[0]);
        if s[0] == 0x0a {
            assert(s.subrange(0, 1) =~= lf_bytes());
        }
    }
}

impl<'a> LineEnding<'a> {
    /// The slice that holds the line ending.
    pub open spec fn slice(self) -> TokenStream<'a> {
        match self {
            LineEnding::LF(input) => input,
            LineEnding::CrLf(input) => input,
        }
    }

    /// The region the line ending covers.
    pub open spec fn region(self) -> Span {
        self.slice()@.span()
    }

    /// The bytes of the line ending.
    pub open spec fn text(self) -> Seq<u8> {
        self.slice().value@
    }

    /// The line ending is the first thing in `before`, its variant says
    /// which of the two forms was found, and `after` is what follows it.
    pub open spec fn parsed(self, before: Cursor, after: Cursor) -> bool {
        &&& before.splits_into(self.slice()@, after)
        &&& self.slice().value@.len() == line_ending_len(before.text)
        &&& match self {
            LineEnding::LF(input) => input.value@ == lf_bytes(),
            LineEnding::CrLf(input) => input.value@ == crlf_bytes(),
        }
    }

    fn crlf(input: &mut TokenStream<'a>) -> (r: Result<LineEnding<'a>, MarkDownError>)
        requires
            old(input).wf(),
        ensures
            r is Ok <==> line_ending_len(old(input).value@) == 2,
            match r {
                Ok(node) => node is CrLf && node.parsed(old(input)@, final(input)@),
                Err(e) => e == mismatch(old(input)@, 2) && *final(input) == *old(input),
            },
            final(input).wf(),
    {
        let word: [u8; 2] = [0x0d, 0x0a];
        assert(word@ =~= crlf_bytes());
        proof {
            lemma_starts_with_line_ending(input.value@);
        }
        match keyword(input, word.as_slice()) {
            Ok(taken) => Ok(LineEnding::CrLf(taken)),
            Err(e) => Err(e),
        }
    }

    fn lf(input: &mut TokenStream<'a>) -> (r: Result<LineEnding<'a>, MarkDownError>)
        requires
            old(input).wf(),
        ensures
            r is Ok <==> old(input).value@.len() >= 1 && old(input).value@[0] == 0x0a,
            match r {
                Ok(node) => node is LF && node.parsed(old(input)@, final(input)@),
                Err(e) => e == mismatch(old(input)@, 1) && *final(input) == *old(input),
            },
            final(input).wf(),
    {
        let word: [u8; 1] = [0x0a];
        assert(word@ =~= lf_bytes());
        proof {
            lemma_starts_with_line_ending(input.value@);
        }
        match keyword(input, word.as_slice()) {
            Ok(taken) => Ok(LineEnding::LF(taken)),
            Err(e) => Err(e),
        }
    }

    /// Takes a line ending at the cursor: a carriage return with a line
    /// feed, or else a line feed alone.
    pub fn parse(input: &mut TokenStream<'a>) -> (r: Result<LineEnding<'a>, MarkDownError>)
        requires
            old(input).wf(),
        ensures
            r is Ok <==> at_line_ending(old(input)@),
            match r {
                Ok(node) => {
                    &&& node.parsed(old(input)@, final(input)@)
                    &&& node.slice().wf()
                    &&& final(input)@ == after_line_ending(old(input)@)
                    &&& node.region() == consumed(old(input)@, final(input)@)
                    &&& node.text() + final(input).value@ == old(input).value@
                },
                Err(e) => e == line_ending_failure(old(input)@) && *final(input) == *old(input),
            },
            final(input).wf(),
    {
        match or(input, Self::crlf, Self::lf) {
            Ok(node) => {
                proof {
                    old(input)@.lemma_split(node.slice()@, input@);
                }
                Ok(node)
            },
            Err(e) => Err(Kind::LineEnding.map(e)),
        }
    }

    /// What an optional line ending is: the line ending at `before` if there
    /// is one, and nothing, with the cursor left alone, if there is none.
    pub open spec fn optional(node: Option<LineEnding<'a>>, before: Cursor, after: Cursor) -> bool {
        match node {
            Some(line_ending) => line_ending.parsed(before, after),
            None => !at_line_ending(before) && after == before,
        }
    }

    /// An optional line ending stands between the offsets `from` and `to`:
    /// it starts at the one and ends at the other, or the two are the same
    /// and there is none.
    pub open spec fn optional_between(node: Option<LineEnding<'a>>, from: int, to: int) -> bool {
        match node {
            Some(line_ending) => line_ending.slice().offset == from && line_ending.slice()@.end()
                == to,
            None => to == from,
        }
    }

    /// A range joined with the optional line ending that follows it goes on
    /// to where the line ending ends.
    pub proof fn lemma_union_optional(start: usize, middle: usize, node: Option<LineEnding<'a>>)
        requires
            start <= middle,
            match node {
                Some(line_ending) => line_ending.slice().offset == middle
                    && line_ending.slice().wf(),
                None => true,
            },
        ensures
            Span::Range(start, middle).union_spec(Self::optional_region(node)) == Span::Range(
                start,
                (middle + Self::optional_text(node).len()) as usize,
            ),
    {
        match node {
            Some(line_ending) => {
                Span::lemma_union_adjacent(start, middle, line_ending.slice()@.end() as usize);
            },
            None => {
                Span::lemma_union_unknown(Span::Range(start, middle));
            },
        }
    }

    /// The region of an optional line ending.
    pub open spec fn optional_region(node: Option<LineEnding<'a>>) -> Span {
        match node {
            Some(line_ending) => line_ending.region(),
            None => Span::Unknown,
        }
    }

    /// The bytes of an optional line ending.
    pub open spec fn optional_text(node: Option<LineEnding<'a>>) -> Seq<u8> {
        match node {
            Some(line_ending) => line_ending.text(),
            None => Seq::empty(),
        }
    }

    /// Takes a line ending at the cursor if there is one.
    pub fn parse_optional(input: &mut TokenStream<'a>) -> (r: Option<LineEnding<'a>>)
        requires
            old(input).wf(),
        ensures
            Self::optional(r, old(input)@, final(input)@),
            r is None ==> *final(input) == *old(input),
            r matches Some(line_ending) ==> line_ending.slice().wf(),
            final(input)@ == after_line_ending(old(input)@),
            final(input).offset - old(input).offset == Self::optional_text(r).len(),
            Self::optional_text(r) + final(input).value@ == old(input).value@,
            old(input).offset <= final(input).offset,
            final(input).wf(),
    {
        let found = match ok(input, Self::parse) {
            Ok(found) => found,
            Err(_) => None,
        };
        proof {
            if found is None {
                old(input)@.lemma_seek_start();
            }
            assert(Self::optional_text(found) + input.value@ =~= old(input).value@);
        }
        found
    }

    /// The region of an optional line ending.
    pub fn optional_span(node: &Option<LineEnding<'a>>) -> (r: Span)
        requires
            node matches Some(line_ending) ==> line_ending.slice().wf(),
        ensures
            r == Self::optional_region(*node),
    {
        match node {
            Some(line_ending) => line_ending.to_span(),
            None => Span::Unknown,
        }
    }

    /// Gives up the node for the slice it holds.
    pub fn into_input(self) -> (r: TokenStream<'a>)
        ensures
            r == self.slice(),
    {
        match self {
            LineEnding::LF(input) => input,
            LineEnding::CrLf(input) => input,
        }
    }

    /// The region the line ending covers.
    pub fn to_span(&self) -> (r: Span)
        requires
            self.slice().wf(),
        ensures
            r == self.region(),
    {
        match self {
            LineEnding::LF(input) => input.to_span(),
            LineEnding::CrLf(input) => input.to_span(),
        }
    }
}

/// A line that holds nothing but its line ending.
#[derive(Clone, Copy, Debug, PartialEq, Eq)]
pub struct BlankLine<'a>(pub TokenStream<'a>);

impl<'a> BlankLine<'a> {
    /// The region the line covers.
    pub open spec fn region(self) -> Span {
        self.0@.span()
    }

    /// The bytes of the line.
    pub open spec fn text(self) -> Seq<u8> {
        self.0.value@
    }

    /// The line is the line ending at the start of `before`, and `after` is
    /// what follows it.
    pub open spec fn parsed(self, before: Cursor, after: Cursor) -> bool {
        &&& before.splits_into(self.0@, after)
        &&& self.0.value@.len() == line_ending_len(before.text)
        &&& self.0.value@.len() > 0
    }

    /// Takes a blank line at the cursor.
    pub fn parse(input: &mut TokenStream<'a>) -> (r: Result<BlankLine<'a>, MarkDownError>)
        requires
            old(input).wf(),
        ensures
            r is Ok <==> at_line_ending(old(input)@),
            match r {
                Ok(node) => {
                    &&& node.parsed(old(input)@, final(input)@)
                    &&& node.region() == consumed(old(input)@, final(input)@)
                    &&& node.text() + final(input).value@ == old(input).value@
                },
                Err(e) => {
                    &&& e == MarkDownError::Kind(
                        Kind::BlankLine,
                        line_ending_failure(old(input)@).flow(),
                        line_ending_failure(old(input)@).region(),
                    )
                    &&& *final(input) == *old(input)
                },
            },
            final(input).wf(),
    {
        match LineEnding::parse(input) {
            Ok(content) => Ok(BlankLine(content.into_input())),
            Err(e) => Err(Kind::BlankLine.map(e)),
        }
    }

    /// The region the line covers.
    pub fn to_span(&self) -> (r: Span)
        requires
            self.0.wf(),
        ensures
            r == self.region(),
    {
        self.0.to_span()
    }
}

} // verus!
