//! Indented and fenced code blocks.

use vstd::prelude::*;
use crate::combinator::{mismatch, occurs_at, or, take_until};
use crate::errors::{Kind, MarkDownError};
use crate::input::{space_len, ByteClass, Cursor, TokenStream};
use crate::s::{
    after_space, at_line_ending, consumed, line_ending_failure, IndentationFrom, LineEnding, S,
};
use crate::span::{ControlFlow, Span};

verus! {

/// A recoverable failure of a line of an indented code block that points to
/// `region`.
pub open spec fn chunk_error(region: Span) -> MarkDownError {
    MarkDownError::Kind(Kind::IdentationNonblankChunk, ControlFlow::Recoverable, region)
}

/// Where the line at `before` ends, not counting its line ending: at the
/// first line feed or carriage return, or at the end of the input.
pub open spec fn end_of_line(before: Cursor) -> Cursor {
    before.advance(ByteClass::LineBreak.run_len_till(before.text))
}

/// A non-blank indented line stands at `before`: four bytes of whitespace
/// or more, and then something other than a line break.
pub open spec fn at_nonblank(before: Cursor) -> bool {
    &&& space_len(before.text) >= 4
    &&& ByteClass::LineBreak.run_len_till(after_space(before).text) > 0
}

/// The failure of a non-blank indented line on `before`: too little
/// indentation fails at all that is left, and indentation with nothing
/// after it on the line fails at the two bytes after it, or at what there
/// is of them.
pub open spec fn nonblank_failure(before: Cursor) -> MarkDownError {
    if space_len(before.text) < 4 {
        chunk_error(before.span())
    } else {
        chunk_error(mismatch(after_space(before), 2).region())
    }
}

/// A line of an indented code block that holds more than whitespace.
#[derive(Clone, Copy, Debug, PartialEq, Eq)]
pub struct IndentedNonblankLine<'a> {
    /// Four bytes of indentation or more.
    pub identation: IndentationFrom<'a, 4>,
    /// The rest of the line, without its line ending.
    pub content: TokenStream<'a>,
    /// The line ending, absent on the last line of the input.
    pub line_ending: Option<LineEnding<'a>>,
}

impl<'a> IndentedNonblankLine<'a> {
    /// The offset at which the node starts.
    pub open spec fn start(self) -> int {
        self.identation.0.offset as int
    }

    /// The offset at which the node ends.
    pub open spec fn end(self) -> int {
        self.content@.end() + LineEnding::optional_text(self.line_ending).len()
    }

    /// The union of the regions of all parts of the node.
    pub open spec fn region(self) -> Span {
        self.identation.region().union_spec(self.content@.span()).union_spec(
            LineEnding::optional_region(self.line_ending),
        )
    }

    /// The bytes of all parts of the node, in order.
    pub open spec fn text(self) -> Seq<u8> {
        self.identation.text() + self.content.value@ + LineEnding::optional_text(self.line_ending)
    }

    /// The end offset of every slice in the node is representable.
    pub open spec fn wf(self) -> bool {
        &&& self.identation.0.wf()
        &&& self.content.wf()
        &&& self.line_ending matches Some(line_ending) ==> line_ending.slice().wf()
    }

    /// The node is the line at `before`: the indentation, the content up to
    /// the end of the line, which is not empty, and the line ending if
    /// there is one; `after` is what follows.
    pub open spec fn parsed(self, before: Cursor, after: Cursor) -> bool {
        &&& self.identation.parsed(before, after_space(before))
        &&& after_space(before).splits_into(self.content@, end_of_line(after_space(before)))
        &&& self.content.value@.len() > 0
        &&& LineEnding::optional(self.line_ending, end_of_line(after_space(before)), after)
    }

    /// Takes a non-blank indented line at the cursor.
    pub fn parse(input: &mut TokenStream<'a>) -> (r: Result<
        IndentedNonblankLine<'a>,
        MarkDownError,
    >)
        requires
            old(input).wf(),
        ensures
            r is Ok <==> at_nonblank(old(input)@),
            match r {
                Ok(node) => {
                    &&& node.parsed(old(input)@, final(input)@)
                    &&& node.wf()
                    &&& node.start() == old(input).offset
                    &&& node.end() == final(input).offset
                    &&& node.region() == consumed(old(input)@, final(input)@)
                    &&& node.text() + final(input).value@ == old(input).value@
                },
                Err(e) => e == nonblank_failure(old(input)@) && *final(input) == *old(input),
            },
            final(input).wf(),
    {
        let ghost origin = input@;
        let mut cursor = *input;
        let identation = match IndentationFrom::<4>::parse(&mut cursor) {
            Ok(identation) => identation,
            Err(e) => {
                return Err(Kind::IdentationNonblankChunk.map(e));
            },
        };
        let after_identation = cursor;
        let content = cursor.take_till(ByteClass::LineBreak);
        if content.is_empty() {
            return Err(
                MarkDownError::Kind(
                    Kind::IdentationNonblankChunk,
                    ControlFlow::Recoverable,
                    after_identation.to_span_at(2),
                ),
            );
        }
        let line_ending = LineEnding::parse_optional(&mut cursor);
        *input = cursor;
        let node = IndentedNonblankLine { identation, content, line_ending };
        proof {
            Span::lemma_union_adjacent(
                identation.0.offset,
                content.offset,
                content@.end() as usize,
            );
            LineEnding::lemma_union_optional(
                identation.0.offset,
                content@.end() as usize,
                line_ending,
            );
            assert(node.text() + cursor.value@ =~= identation.text() + (content.value@ + (
            LineEnding::optional_text(line_ending) + cursor.value@)));
        }
        Ok(node)
    }

    /// The parts of the line stand one right after the other, from where
    /// the cursor was to where it is: there is no gap between them and they
    /// do not overlap.
    pub proof fn lemma_adjacent(self, before: Cursor, after: Cursor)
        requires
            self.parsed(before, after),
        ensures
            self.identation.0.offset == before.offset,
            self.content.offset == self.identation.0@.end(),
            LineEnding::optional_between(self.line_ending, self.content@.end(), after.offset),
            self.start() == before.offset,
            self.end() == after.offset,
    {
        if self.line_ending is Some {
            end_of_line(after_space(before)).lemma_split(self.line_ending->0.slice()@, after);
        }
    }

    /// The region the node covers.
    pub fn to_span(&self) -> (r: Span)
        requires
            self.wf(),
        ensures
            r == self.region(),
    {
        self.identation.to_span().union(&self.content.to_span()).union(
            &LineEnding::optional_span(&self.line_ending),
        )
    }
}

/// A blank indented line stands at `before`: whitespace, if any, and then a
/// line ending.
pub open spec fn at_blank(before: Cursor) -> bool {
    at_line_ending(after_space(before))
}

/// The failure of a blank indented line on `before`: it points to the byte
/// after the whitespace.
pub open spec fn blank_failure(before: Cursor) -> MarkDownError {
    chunk_error(line_ending_failure(after_space(before)).region())
}

/// A line of an indented code block that holds nothing but whitespace.
#[derive(Clone, Copy, Debug, PartialEq, Eq)]
pub struct IndentedBlankLine<'a> {
    /// The whitespace of the line. It may be empty.
    pub leading_whitespaces: S<'a>,
    /// The line ending.
    pub line_ending: LineEnding<'a>,
}

impl<'a> IndentedBlankLine<'a> {
    /// The offset at which the node starts.
    pub open spec fn start(self) -> int {
        self.leading_whitespaces.0.offset as int
    }

    /// The offset at which the node ends.
    pub open spec fn end(self) -> int {
        self.line_ending.slice()@.end()
    }

    /// The union of the regions of all parts of the node.
    pub open spec fn region(self) -> Span {
        self.leading_whitespaces.region().union_spec(self.line_ending.region())
    }

    /// The bytes of all parts of the node, in order.
    pub open spec fn text(self) -> Seq<u8> {
        self.leading_whitespaces.text() + self.line_ending.text()
    }

    /// The end offset of every slice in the node is representable.
    pub open spec fn wf(self) -> bool {
        &&& self.leading_whitespaces.0.wf()
        &&& self.line_ending.slice().wf()
    }

    /// The node is the line at `before`: the whitespace and the line ending
    /// after it; `after` is what follows.
    pub open spec fn parsed(self, before: Cursor, after: Cursor) -> bool {
        &&& self.leading_whitespaces.parsed(before, after_space(before))
        &&& self.line_ending.parsed(after_space(before), after)
    }

    /// Takes a blank indented line at the cursor.
    pub fn parse(input: &mut TokenStream<'a>) -> (r: Result<IndentedBlankLine<'a>, MarkDownError>)
        requires
            old(input).wf(),
        ensures
            r is Ok <==> at_blank(old(input)@),
            match r {
                Ok(node) => {
                    &&& node.parsed(old(input)@, final(input)@)
                    &&& node.wf()
                    &&& node.start() == old(input).offset
                    &&& node.end() == final(input).offset
                    &&& node.region() == consumed(old(input)@, final(input)@)
                    &&& node.text() + final(input).value@ == old(input).value@
                },
                Err(e) => e == blank_failure(old(input)@) && *final(input) == *old(input),
            },
            final(input).wf(),
    {
        let ghost origin = input@;
        let mut cursor = *input;
        let leading_whitespaces = match S::parse(&mut cursor) {
            Ok(space) => space,
            Err(e) => {
                return Err(Kind::IdentationNonblankChunk.map(e));
            },
        };
        let line_ending = match LineEnding::parse(&mut cursor) {
            Ok(line_ending) => line_ending,
            Err(e) => {
                return Err(Kind::IdentationNonblankChunk.map(e));
            },
        };
        *input = cursor;
        let node = IndentedBlankLine { leading_whitespaces, line_ending };
        proof {
            Span::lemma_union_adjacent(
                leading_whitespaces.0.offset,
                line_ending.slice().offset,
                line_ending.slice()@.end() as usize,
            );
            assert(node.text() + cursor.value@ =~= leading_whitespaces.text() + (
            line_ending.text() + cursor.value@));
        }
        Ok(node)
    }

    /// The parts of the line stand one right after the other, from where
    /// the cursor was to where it is: there is no gap between them and they
    /// do not overlap.
    pub proof fn lemma_adjacent(self, before: Cursor, after: Cursor)
        requires
            self.parsed(before, after),
        ensures
            self.leading_whitespaces.0.offset == before.offset,
            self.line_ending.slice().offset == self.leading_whitespaces.0@.end(),
            after.offset == self.line_ending.slice()@.end(),
            self.start() == before.offset,
            self.end() == after.offset,
    {
    }

    /// The region the node covers.
    pub fn to_span(&self) -> (r: Span)
        requires
            self.wf(),
        ensures
            r == self.region(),
    {
        self.leading_whitespaces.to_span().union(&self.line_ending.to_span())
    }
}

/// A line of an indented code block.
#[derive(Clone, Copy, Debug, PartialEq, Eq)]
pub enum IdentedChunk<'a> {
    /// A line that holds more than whitespace.
    NonBlank(IndentedNonblankLine<'a>),
    /// A line that holds nothing but whitespace.
    Blank(IndentedBlankLine<'a>),
}

impl<'a> IdentedChunk<'a> {
    /// The offset at which the line starts.
    pub open spec fn start(self) -> int {
        match self {
            IdentedChunk::NonBlank(line) => line.start(),
            IdentedChunk::Blank(line) => line.start(),
        }
    }

    /// The offset at which the line ends.
    pub open spec fn end(self) -> int {
        match self {
            IdentedChunk::NonBlank(line) => line.end(),
            IdentedChunk::Blank(line) => line.end(),
        }
    }

    /// The union of the regions of all parts of the line.
    pub open spec fn region(self) -> Span {
        match self {
            IdentedChunk::NonBlank(line) => line.region(),
            IdentedChunk::Blank(line) => line.region(),
        }
    }

    /// The bytes of all parts of the line, in order.
    pub open spec fn text(self) -> Seq<u8> {
        match self {
            IdentedChunk::NonBlank(line) => line.text(),
            IdentedChunk::Blank(line) => line.text(),
        }
    }

    /// The end offset of every slice in the line is representable.
    pub open spec fn wf(self) -> bool {
        match self {
            IdentedChunk::NonBlank(line) => line.wf(),
            IdentedChunk::Blank(line) => line.wf(),
        }
    }

    /// A line of an indented code block stands at `before`.
    pub open spec fn matches(before: Cursor) -> bool {
        at_nonblank(before) || at_blank(before)
    }

    /// The node is the line at `before`: a non-blank line if one stands
    /// there, a blank line otherwise; `after` is what follows.
    pub open spec fn parsed(self, before: Cursor, after: Cursor) -> bool {
        match self {
            IdentedChunk::NonBlank(line) => line.parsed(before, after),
            IdentedChunk::Blank(line) => !at_nonblank(before) && line.parsed(before, after),
        }
    }

    fn nonblank(input: &mut TokenStream<'a>) -> (r: Result<IdentedChunk<'a>, MarkDownError>)
        requires
            old(input).wf(),
        ensures
            r is Ok <==> at_nonblank(old(input)@),
            match r {
                Ok(node) => {
                    &&& node is NonBlank
                    &&& node.parsed(old(input)@, final(input)@)
                    &&& node.wf()
                    &&& node.start() == old(input).offset
                    &&& node.end() == final(input).offset
                    &&& node.region() == consumed(old(input)@, final(input)@)
                    &&& node.text() + final(input).value@ == old(input).value@
                },
                Err(e) => e == nonblank_failure(old(input)@) && *final(input) == *old(input),
            },
            final(input).wf(),
    {
        match IndentedNonblankLine::parse(input) {
            Ok(line) => Ok(IdentedChunk::NonBlank(line)),
            Err(e) => Err(e),
        }
    }

    fn blank(input: &mut TokenStream<'a>) -> (r: Result<IdentedChunk<'a>, MarkDownError>)
        requires
            old(input).wf(),
        ensures
            r is Ok <==> at_blank(old(input)@),
            match r {
                Ok(node) => {
                    &&& node matches IdentedChunk::Blank(line)
                    &&& line.parsed(old(input)@, final(input)@)
                    &&& node.wf()
                    &&& node.start() == old(input).offset
                    &&& node.end() == final(input).offset
                    &&& node.region() == consumed(old(input)@, final(input)@)
                    &&& node.text() + final(input).value@ == old(input).value@
                },
                Err(e) => e == blank_failure(old(input)@) && *final(input) == *old(input),
            },
            final(input).wf(),
    {
        match IndentedBlankLine::parse(input) {
            Ok(line) => Ok(IdentedChunk::Blank(line)),
            Err(e) => Err(e),
        }
    }

    /// Takes a line of an indented code block at the cursor: a non-blank
    /// line, or else a blank one.
    pub fn parse(input: &mut TokenStream<'a>) -> (r: Result<IdentedChunk<'a>, MarkDownError>)
        requires
            old(input).wf(),
        ensures
            r is Ok <==> Self::matches(old(input)@),
            match r {
                Ok(node) => {
                    &&& node.parsed(old(input)@, final(input)@)
                    &&& node.wf()
                    &&& node.start() == old(input).offset
                    &&& node.end() == final(input).offset
                    &&& node.region() == consumed(old(input)@, final(input)@)
                    &&& node.text() + final(input).value@ == old(input).value@
                },
                Err(e) => e == blank_failure(old(input)@) && *final(input) == *old(input),
            },
            final(input).wf(),
    {
        or(input, Self::nonblank, Self::blank)
    }

    /// A line starts where the cursor was and ends where it is.
    pub proof fn lemma_adjacent(self, before: Cursor, after: Cursor)
        requires
            self.parsed(before, after),
        ensures
            self.start() == before.offset,
            self.end() == after.offset,
    {
        match self {
            IdentedChunk::NonBlank(line) => line.lemma_adjacent(before, after),
            IdentedChunk::Blank(line) => line.lemma_adjacent(before, after),
        }
    }

    /// The region the line covers.
    pub fn to_span(&self) -> (r: Span)
        requires
            self.wf(),
        ensures
            r == self.region(),
    {
        match self {
            IdentedChunk::NonBlank(line) => line.to_span(),
            IdentedChunk::Blank(line) => line.to_span(),
        }
    }
}

/// `chunk` is the line that stands in `origin` at the offset of `chunk`.
pub open spec fn chunk_at<'a>(chunk: IdentedChunk<'a>, origin: Cursor) -> bool {
    chunk.parsed(origin.seek(chunk.start()), origin.seek(chunk.end()))
}

/// Every line of `chunks` stands in `origin`, the first at the start and
/// each of the others where the one before it ends.
#[verifier::opaque]
pub open spec fn chunks_at<'a>(chunks: Seq<IdentedChunk<'a>>, origin: Cursor) -> bool {
    &&& forall|i: int| 0 <= i < chunks.len() ==> chunk_at(#[trigger] chunks[i], origin)
    &&& chunks.len() > 0 ==> chunks[0].start() == origin.offset
    &&& forall|i: int, j: int|
        0 <= i && j == i + 1 && j < chunks.len() ==> (#[trigger] chunks[j]).start() == (
        #[trigger] chunks[i]).end()
}

/// The offset at which the lines end: the origin for no lines, the end of
/// the last line otherwise.
pub open spec fn chunks_end<'a>(chunks: Seq<IdentedChunk<'a>>, origin: int) -> int {
    if chunks.len() == 0 {
        origin
    } else {
        chunks.last().end()
    }
}

/// The union of the regions of all lines.
pub open spec fn chunks_region<'a>(chunks: Seq<IdentedChunk<'a>>) -> Span
    decreases chunks.len(),
{
    if chunks.len() == 0 {
        Span::Unknown
    } else {
        chunks_region(chunks.drop_last()).union_spec(chunks.last().region())
    }
}

/// The bytes of all lines, in order.
pub open spec fn chunks_text<'a>(chunks: Seq<IdentedChunk<'a>>) -> Seq<u8>
    decreases chunks.len(),
{
    if chunks.len() == 0 {
        Seq::empty()
    } else {
        chunks_text(chunks.drop_last()) + chunks.last().text()
    }
}

/// An indented code block: one or more indented lines, blank ones included.
#[derive(Clone, Debug, PartialEq, Eq)]
pub struct IndentedCodeBlock<'a>(pub Vec<IdentedChunk<'a>>);

impl<'a> IndentedCodeBlock<'a> {
    /// The union of the regions of all lines of the block.
    pub open spec fn region(self) -> Span {
        chunks_region(self.0@)
    }

    /// The bytes of all lines of the block, in order.
    pub open spec fn text(self) -> Seq<u8> {
        chunks_text(self.0@)
    }

    /// The end offset of every slice in the block is representable.
    pub open spec fn wf(self) -> bool {
        forall|i: int| 0 <= i < self.0@.len() ==> (#[trigger] self.0@[i]).wf()
    }

    /// The block is what stands at `before`: its lines, one after the
    /// other, as many as there are and at least one; `after` is what
    /// follows, and no indented line stands there.
    pub open spec fn parsed(self, before: Cursor, after: Cursor) -> bool {
        Self::chunks_parsed(self.0@, before, after)
    }

    /// `chunks` are the lines of the block that stands at `before`.
    pub open spec fn chunks_parsed(
        chunks: Seq<IdentedChunk<'a>>,
        before: Cursor,
        after: Cursor,
    ) -> bool {
        &&& chunks.len() > 0
        &&& chunks_at(chunks, before)
        &&& after == before.seek(chunks_end(chunks, before.offset))
        &&& !IdentedChunk::matches(after)
    }

    /// Takes an indented code block at the cursor.
    pub fn parse(input: &mut TokenStream<'a>) -> (r: Result<IndentedCodeBlock<'a>, MarkDownError>)
        requires
            old(input).wf(),
        ensures
            r is Ok <==> IdentedChunk::matches(old(input)@),
            match r {
                Ok(node) => {
                    &&& node.parsed(old(input)@, final(input)@)
                    &&& node.wf()
                    &&& node.region() == consumed(old(input)@, final(input)@)
                    &&& node.text() + final(input).value@ == old(input).value@
                },
                Err(e) => e == blank_failure(old(input)@) && *final(input) == *old(input),
            },
            final(input).wf(),
    {
        let mut chunks: Vec<IdentedChunk<'a>> = Vec::new();
        let ghost origin = input@;
        proof {
            reveal(chunks_at);
            origin.lemma_seek_start();
            assert(chunks_text(chunks@) + input.value@ =~= origin.text);
        }
        loop
            invariant
                input.wf(),
                origin == old(input)@,
                stacking(chunks@, origin, input@),
                chunks@.len() == 0 ==> *input == *old(input),
                chunks@.len() > 0 ==> IdentedChunk::matches(origin),
            ensures
                chunks@.len() > 0,
                !IdentedChunk::matches(input@),
            decreases input.value@.len(),
        {
            let ghost here = input@;
            match IdentedChunk::parse(input) {
                Ok(chunk) => {
                    proof {
                        lemma_stacking_step(chunks@, chunk, origin, here, input@);
                    }
                    chunks.push(chunk);
                },
                Err(e) => {
                    if chunks.len() == 0 {
                        return Err(e);
                    }
                    break ;
                },
            }
        }
        let node = IndentedCodeBlock(chunks);
        proof {
            lemma_stacking_done(node.0@, origin, input@);
        }
        Ok(node)
    }

    /// The lines of a block stand one right after the other, from where the
    /// cursor was to where it is: there is no gap between them and they do
    /// not overlap.
    pub proof fn lemma_adjacent(self, before: Cursor, after: Cursor)
        requires
            self.parsed(before, after),
        ensures
            self.0@[0].start() == before.offset,
            forall|i: int, j: int|
                0 <= i && j == i + 1 && j < self.0@.len() ==> (#[trigger] self.0@[j]).start() == (
                #[trigger] self.0@[i]).end(),
            self.0@.last().end() == after.offset,
    {
        reveal(chunks_at);
        before.lemma_seek_offset(self.0@.last().end());
    }

    /// The region the block covers.
    pub fn to_span(&self) -> (r: Span)
        requires
            self.wf(),
        ensures
            r == self.region(),
    {
        let n = self.0.len();
        let mut region = Span::Unknown;
        let mut i: usize = 0;
        assert(self.0@.take(0) =~= Seq::empty());
        while i < n
            invariant
                n == self.0@.len(),
                0 <= i <= n,
                self.wf(),
                region == chunks_region(self.0@.take(i as int)),
            decreases n - i,
        {
            proof {
                let longer = self.0@.take(i + 1);
                assert(longer.drop_last() =~= self.0@.take(i as int));
                assert(longer.last() == self.0@[i as int]);
            }
            region = region.union(&self.0[i].to_span());
            i = i + 1;
        }
        assert(self.0@.take(n as int) =~= self.0@);
        region
    }
}

/// What holds of the lines taken so far while a block is being taken from
/// `origin`, with the cursor at `here`.
pub closed spec fn stacking<'a>(
    chunks: Seq<IdentedChunk<'a>>,
    origin: Cursor,
    here: Cursor,
) -> bool {
    &&& origin.offset <= here.offset
    &&& here.end() <= usize::MAX
    &&& here == origin.seek(here.offset)
    &&& here.offset - origin.offset <= origin.text.len()
    &&& here.offset == chunks_end(chunks, origin.offset)
    &&& chunks_at(chunks, origin)
    &&& forall|i: int| 0 <= i < chunks.len() ==> (#[trigger] chunks[i]).wf()
    &&& chunks.len() > 0 ==> chunks_region(chunks) == Span::Range(
        origin.offset as usize,
        here.offset as usize,
    )
    &&& chunks_text(chunks) + here.text == origin.text
}

/// Taking one more line keeps what holds of the lines taken so far, and
/// leaves less to take.
proof fn lemma_stacking_step<'a>(
    chunks: Seq<IdentedChunk<'a>>,
    chunk: IdentedChunk<'a>,
    origin: Cursor,
    here: Cursor,
    next: Cursor,
)
    requires
        stacking(chunks, origin, here),
        next.end() <= usize::MAX,
        chunk.parsed(here, next),
        chunk.wf(),
        chunk.start() == here.offset,
        chunk.end() == next.offset,
        chunk.region() == consumed(here, next),
        chunk.text() + next.text == here.text,
    ensures
        stacking(chunks.push(chunk), origin, next),
        next.text.len() < here.text.len(),
{
    reveal(chunks_at);
    let head = Cursor { offset: here.offset, text: chunk.text() };
    lemma_chunk_length(chunk, here, next);
    assert(here.splits_into(head, next));
    origin.lemma_split_within(here, head, next);
    assert(chunk_at(chunk, origin));
    let grown = chunks.push(chunk);
    assert(grown.drop_last() =~= chunks);
    assert(grown.last() == chunk);
    assert forall|i: int| 0 <= i < grown.len() implies chunk_at(#[trigger] grown[i], origin)
        && grown[i].wf() by {
        if i < chunks.len() {
            assert(grown[i] == chunks[i]);
        }
    }
    assert forall|i: int, j: int| 0 <= i && j == i + 1 && j < grown.len() implies (
    #[trigger] grown[j]).start() == (#[trigger] grown[i]).end() by {
        if j < chunks.len() {
            assert(grown[i] == chunks[i]);
            assert(grown[j] == chunks[j]);
        } else {
            assert(grown[i] == chunks[i]);
            assert(chunks[i] == chunks.last());
        }
    }
    if chunks.len() > 0 {
        assert(grown[0] == chunks[0]);
        Span::lemma_union_adjacent(
            origin.offset as usize,
            here.offset as usize,
            next.offset as usize,
        );
    } else {
        Span::lemma_union_unknown(chunk.region());
    }
    assert(chunks_text(grown) + next.text =~= chunks_text(chunks) + (chunk.text() + next.text));
}

/// A line is as long as the distance between the cursor before it and the
/// cursor after it, and it is not empty.
proof fn lemma_chunk_length<'a>(chunk: IdentedChunk<'a>, here: Cursor, next: Cursor)
    requires
        chunk.parsed(here, next),
        chunk.start() == here.offset,
        chunk.end() == next.offset,
        chunk.text() + next.text == here.text,
    ensures
        chunk.text().len() == next.offset - here.offset,
        chunk.text().len() > 0,
{
    match chunk {
        IdentedChunk::NonBlank(line) => {
            here.lemma_split(line.identation.0@, after_space(here));
            after_space(here).lemma_split(line.content@, end_of_line(after_space(here)));
            if line.line_ending is Some {
                end_of_line(after_space(here)).lemma_split(
                    line.line_ending->0.slice()@,
                    next,
                );
            }
        },
        IdentedChunk::Blank(line) => {
            here.lemma_split(line.leading_whitespaces.0@, after_space(here));
            after_space(here).lemma_split(line.line_ending.slice()@, next);
        },
    }
}

/// When no further line can be taken, the lines taken so far are the block.
proof fn lemma_stacking_done<'a>(chunks: Seq<IdentedChunk<'a>>, origin: Cursor, after: Cursor)
    requires
        stacking(chunks, origin, after),
        chunks.len() > 0,
        !IdentedChunk::matches(after),
        0 <= origin.offset,
    ensures
        IndentedCodeBlock::chunks_parsed(chunks, origin, after),
        forall|i: int| 0 <= i < chunks.len() ==> (#[trigger] chunks[i]).wf(),
        chunks_region(chunks) == consumed(origin, after),
        chunks_text(chunks) + after.text == origin.text,
{
}

/// The byte of a backtick.
pub const BACKTICK: u8 = 0x60;

/// The byte `~`.
pub const TILDE: u8 = 0x7e;

/// The shortest run that makes a code fence.
pub const FENCE_MIN: usize = 3;

/// `b` is a character that code fences are made of.
pub open spec fn is_fence_byte(b: u8) -> bool {
    b == BACKTICK || b == TILDE
}

/// The input starts with a character that code fences are made of.
pub open spec fn starts_fence(before: Cursor) -> bool {
    before.text.len() > 0 && is_fence_byte(before.text[0])
}

/// The length of the run of the first byte of `before`.
pub open spec fn fence_len(before: Cursor) -> int {
    ByteClass::Byte(before.text[0]).run_len(before.text)
}

/// A code fence stands at `before`: three or more of the same fence
/// character.
pub open spec fn at_fence(before: Cursor) -> bool {
    starts_fence(before) && fence_len(before) >= FENCE_MIN
}

/// A failure of a code fence that points to `region`.
pub open spec fn fence_error(flow: ControlFlow, region: Span) -> MarkDownError {
    MarkDownError::Kind(Kind::FencedCodeBlock, flow, region)
}

/// The region of the run of fence characters at `before`.
pub open spec fn fence_region(before: Cursor) -> Span {
    Span::Range(before.offset as usize, (before.offset + fence_len(before)) as usize)
}

/// The failure of a code fence on `before`: without a fence character it
/// points to the byte at the cursor, and a run of fewer than three points to
/// the run.
pub open spec fn fence_failure(before: Cursor) -> MarkDownError {
    if starts_fence(before) {
        fence_error(ControlFlow::Recoverable, fence_region(before))
    } else {
        fence_error(ControlFlow::Recoverable, mismatch(before, 1).region())
    }
}

/// A code fence: three or more backticks, or three or more `~`.
#[derive(Clone, Copy, Debug, PartialEq, Eq)]
pub struct Fenced<'a>(pub TokenStream<'a>);

impl<'a> Fenced<'a> {
    /// The region the fence covers.
    pub open spec fn region(self) -> Span {
        self.0@.span()
    }

    /// The bytes of the fence.
    pub open spec fn text(self) -> Seq<u8> {
        self.0.value@
    }

    /// The fence is the whole run of the fence character that `before`
    /// starts with, it is three bytes long or more, and `after` is what
    /// follows it.
    pub open spec fn parsed(self, before: Cursor, after: Cursor) -> bool {
        &&& before.splits_into(self.0@, after)
        &&& starts_fence(before)
        &&& self.0.value@.len() == fence_len(before)
        &&& self.0.value@.len() >= FENCE_MIN
    }

    /// Takes a code fence at the cursor.
    pub fn parse(input: &mut TokenStream<'a>) -> (r: Result<Fenced<'a>, MarkDownError>)
        requires
            old(input).wf(),
        ensures
            r is Ok <==> at_fence(old(input)@),
            match r {
                Ok(node) => {
                    &&& node.parsed(old(input)@, final(input)@)
                    &&& node.0.wf()
                    &&& node.region() == consumed(old(input)@, final(input)@)
                    &&& node.text() + final(input).value@ == old(input).value@
                },
                Err(e) => e == fence_failure(old(input)@) && *final(input) == *old(input),
            },
            final(input).wf(),
    {
        let byte = match input.first() {
            Some(b) => b,
            None => {
                return Err(
                    MarkDownError::Kind(
                        Kind::FencedCodeBlock,
                        ControlFlow::Recoverable,
                        input.to_span_at(1),
                    ),
                );
            },
        };
        if byte != BACKTICK && byte != TILDE {
            return Err(
                MarkDownError::Kind(
                    Kind::FencedCodeBlock,
                    ControlFlow::Recoverable,
                    input.to_span_at(1),
                ),
            );
        }
        let mut cursor = *input;
        let content = cursor.take_while(ByteClass::Byte(byte));
        proof {
            ByteClass::Byte(byte).lemma_run_len(input.value@, content.value@.len() as int);
        }
        if content.len() < FENCE_MIN {
            return Err(
                MarkDownError::Kind(
                    Kind::FencedCodeBlock,
                    ControlFlow::Recoverable,
                    content.to_span(),
                ),
            );
        }
        *input = cursor;
        Ok(Fenced(content))
    }

    /// The region the fence covers.
    pub fn to_span(&self) -> (r: Span)
        requires
            self.0.wf(),
        ensures
            r == self.region(),
    {
        self.0.to_span()
    }
}

/// Where the body of the fenced code block at `before` starts: after the
/// opening fence.
pub open spec fn body_start(before: Cursor) -> Cursor {
    before.advance(fence_len(before))
}

/// The bytes of the opening fence of the block at `before`.
pub open spec fn opening(before: Cursor) -> Seq<u8> {
    before.text.take(fence_len(before))
}

/// `at` is the index in the body at which the opening fence first occurs
/// again.
pub open spec fn closes_at(before: Cursor, at: int) -> bool {
    &&& occurs_at(body_start(before).text, opening(before), at)
    &&& forall|k: int| 0 <= k < at ==> !occurs_at(body_start(before).text, opening(before), k)
}

/// The opening fence occurs again in the body of the block at `before`.
pub open spec fn closes(before: Cursor) -> bool {
    exists|at: int| occurs_at(body_start(before).text, opening(before), at)
}

/// Where the body of the block at `before` ends if the opening fence occurs
/// again: at its first occurrence.
pub open spec fn body_end(before: Cursor) -> Cursor {
    body_start(before).advance(choose|at: int| closes_at(before, at))
}

/// The fence that closes the block at `before` is not as long as the one
/// that opens it.
pub open spec fn mismatched(before: Cursor) -> bool {
    closes(before) && fence_len(body_end(before)) != fence_len(before)
}

/// The failure of a fenced code block on `before`: that of its opening
/// fence, or else a fatal failure that points to a closing fence of another
/// length than the opening one.
pub open spec fn block_failure(before: Cursor) -> MarkDownError {
    if at_fence(before) {
        fence_error(ControlFlow::Fatal, fence_region(body_end(before)))
    } else {
        fence_failure(before)
    }
}

/// A fenced code block: an opening fence, the body, and a closing fence as
/// long as the opening one. Without a closing fence the body goes on to the
/// end of the input.
#[derive(Clone, Copy, Debug, PartialEq, Eq)]
pub struct FencedCodeBlock<'a> {
    /// The opening fence.
    pub start: Fenced<'a>,
    /// The body: everything up to the closing fence.
    pub body: TokenStream<'a>,
    /// The closing fence, absent if the block is not closed.
    pub end: Option<Fenced<'a>>,
}

impl<'a> FencedCodeBlock<'a> {
    /// The region of an optional closing fence.
    pub open spec fn end_region(end: Option<Fenced<'a>>) -> Span {
        match end {
            Some(fence) => fence.region(),
            None => Span::Unknown,
        }
    }

    /// The bytes of an optional closing fence.
    pub open spec fn end_text(end: Option<Fenced<'a>>) -> Seq<u8> {
        match end {
            Some(fence) => fence.text(),
            None => Seq::empty(),
        }
    }

    /// The union of the regions of all parts of the block.
    pub open spec fn region(self) -> Span {
        self.start.region().union_spec(self.body@.span()).union_spec(Self::end_region(self.end))
    }

    /// The bytes of all parts of the block, in order.
    pub open spec fn text(self) -> Seq<u8> {
        self.start.text() + self.body.value@ + Self::end_text(self.end)
    }

    /// The end offset of every slice in the block is representable.
    pub open spec fn wf(self) -> bool {
        &&& self.start.0.wf()
        &&& self.body.wf()
        &&& self.end matches Some(fence) ==> fence.0.wf()
    }

    /// The block is what stands at `before`: the opening fence, the body up
    /// to where the opening fence first occurs again, and the closing fence
    /// there, as long as the opening one; or, if the opening fence does not
    /// occur again, the opening fence and all the rest as the body. `after`
    /// is what follows.
    pub open spec fn parsed(self, before: Cursor, after: Cursor) -> bool {
        &&& self.start.parsed(before, body_start(before))
        &&& match self.end {
            Some(fence) => {
                &&& closes(before)
                &&& body_start(before).splits_into(self.body@, body_end(before))
                &&& fence.parsed(body_end(before), after)
                &&& fence.text().len() == self.start.text().len()
            },
            None => {
                &&& !closes(before)
                &&& body_start(before).splits_into(self.body@, after)
                &&& after.text.len() == 0
            },
        }
    }

    /// Takes a fenced code block at the cursor.
    pub fn parse(input: &mut TokenStream<'a>) -> (r: Result<FencedCodeBlock<'a>, MarkDownError>)
        requires
            old(input).wf(),
        ensures
            r is Ok <==> at_fence(old(input)@) && !mismatched(old(input)@),
            match r {
                Ok(node) => {
                    &&& node.parsed(old(input)@, final(input)@)
                    &&& node.wf()
                    &&& node.region() == consumed(old(input)@, final(input)@)
                    &&& node.text() + final(input).value@ == old(input).value@
                },
                Err(e) => e == block_failure(old(input)@) && *final(input) == *old(input),
            },
            final(input).wf(),
    {
        let ghost origin = input@;
        let mut cursor = *input;
        let start = match Fenced::parse(&mut cursor) {
            Ok(start) => start,
            Err(e) => {
                return Err(e);
            },
        };
        let ghost open = cursor@;
        match take_until(&mut cursor, start.0.value) {
            Ok(body) => {
                let ghost close = cursor@;
                proof {
                    lemma_close_found(origin, start, body@, open, close);
                }
                let end = match Fenced::parse(&mut cursor) {
                    Ok(end) => end,
                    Err(e) => {
                        return Err(e);
                    },
                };
                if end.0.len() != start.0.len() {
                    return Err(
                        MarkDownError::Kind(
                            Kind::FencedCodeBlock,
                            ControlFlow::Fatal,
                            end.to_span(),
                        ),
                    );
                }
                *input = cursor;
                let node = FencedCodeBlock { start, body, end: Some(end) };
                proof {
                    lemma_block_covers(node, origin, cursor@);
                }
                Ok(node)
            },
            Err(_) => {
                let len = cursor.len();
                let body = cursor.split_to(len);
                *input = cursor;
                let node = FencedCodeBlock { start, body, end: None };
                proof {
                    origin.lemma_split(start.0@, open);
                    lemma_block_covers(node, origin, cursor@);
                }
                Ok(node)
            },
        }
    }

    /// The parts of a block stand one right after the other, from where the
    /// cursor was to where it is: there is no gap between them and they do
    /// not overlap.
    pub proof fn lemma_adjacent(self, before: Cursor, after: Cursor)
        requires
            self.parsed(before, after),
        ensures
            self.start.0.offset == before.offset,
            self.body.offset == self.start.0@.end(),
            match self.end {
                Some(fence) => fence.0.offset == self.body@.end() && after.offset
                    == fence.0@.end(),
                None => after.offset == self.body@.end(),
            },
    {
    }

    /// The region the block covers.
    pub fn to_span(&self) -> (r: Span)
        requires
            self.wf(),
        ensures
            r == self.region(),
    {
        let end = match &self.end {
            Some(fence) => fence.to_span(),
            None => Span::Unknown,
        };
        self.start.to_span().union(&self.body.to_span()).union(&end)
    }
}

/// The parts of a block, each of which starts where the one before it ends,
/// cover what lies between the start of the first and the end of the last.
proof fn lemma_block_covers<'a>(node: FencedCodeBlock<'a>, before: Cursor, after: Cursor)
    requires
        node.wf(),
        node.start.0.offset == before.offset,
        node.body.offset == node.start.0@.end(),
        match node.end {
            Some(fence) => fence.0.offset == node.body@.end() && after.offset == fence.0@.end(),
            None => after.offset == node.body@.end(),
        },
        before.text == node.start.text() + (node.body.value@ + (FencedCodeBlock::end_text(
            node.end,
        ) + after.text)),
    ensures
        node.region() == consumed(before, after),
        node.text() + after.text == before.text,
{
    Span::lemma_union_adjacent(
        node.start.0.offset,
        node.body.offset,
        node.body@.end() as usize,
    );
    match node.end {
        Some(fence) => {
            Span::lemma_union_adjacent(
                node.start.0.offset,
                fence.0.offset,
                fence.0@.end() as usize,
            );
        },
        None => {
            Span::lemma_union_unknown(
                Span::Range(node.start.0.offset, node.body@.end() as usize),
            );
        },
    }
    assert(node.text() + after.text =~= node.start.text() + (node.body.value@ + (
    FencedCodeBlock::end_text(node.end) + after.text)));
}

/// Where the opening fence was found again, the body of the block ends and
/// a fence stands.
proof fn lemma_close_found<'a>(
    before: Cursor,
    start: Fenced<'a>,
    body: Cursor,
    open: Cursor,
    close: Cursor,
)
    requires
        start.parsed(before, open),
        open.splits_into(body, close),
        occurs_at(open.text, start.text(), body.text.len() as int),
        forall|k: int| 0 <= k < body.text.len() ==> !occurs_at(open.text, start.text(), k),
    ensures
        open == body_start(before),
        close == body_end(before),
        closes(before),
        at_fence(close),
        start.text() == opening(before),
{
    before.lemma_split(start.0@, open);
    open.lemma_split(body, close);
    open.lemma_advance(body.text.len() as int);
    assert(close.text.subrange(0, start.text().len() as int) =~= open.text.subrange(
        body.text.len() as int,
        (body.text.len() + start.text().len()) as int,
    ));
    lemma_first_close(before, body.text.len() as int);
    lemma_closing_run(before, start, close);
}

/// The index of the first occurrence of the opening fence in the body is
/// the one index that `closes_at` holds of.
proof fn lemma_first_close(before: Cursor, at: int)
    requires
        closes_at(before, at),
    ensures
        closes(before),
        (choose|k: int| closes_at(before, k)) == at,
{
    let k = choose|k: int| closes_at(before, k);
    if k < at {
        assert(!occurs_at(body_start(before).text, opening(before), k));
    } else if at < k {
        assert(!occurs_at(body_start(before).text, opening(before), at));
    }
}

/// Where the opening fence occurs again, a fence stands.
proof fn lemma_closing_run<'a>(before: Cursor, start: Fenced<'a>, close: Cursor)
    requires
        start.parsed(before, body_start(before)),
        close.text.len() >= start.text().len(),
        close.text.subrange(0, start.text().len() as int) == start.text(),
    ensures
        at_fence(close),
        close.text[0] == before.text[0],
{
    reveal(ByteClass::run);
    let byte = before.text[0];
    let n = start.text().len() as int;
    ByteClass::Byte(byte).lemma_run_exists(before.text);
    let whole = choose|m: int| ByteClass::Byte(byte).run(before.text, m);
    ByteClass::Byte(byte).lemma_run_len(before.text, whole);
    before.lemma_split(start.0@, body_start(before));
    assert forall|i: int| 0 <= i < n implies close.text[i] == byte by {
        assert(close.text.subrange(0, n)[i] == start.text()[i]);
        assert(start.text()[i] == before.text.take(n)[i]);
        assert(before.text[i] == byte);
    }
    assert(close.text[0] == byte);
    ByteClass::Byte(byte).lemma_run_exists(close.text);
    let m = choose|m: int| ByteClass::Byte(byte).run(close.text, m);
    ByteClass::Byte(byte).lemma_run_len(close.text, m);
    if m < n {
        assert(close.text[m] == byte);
    }
}

} // verus!
