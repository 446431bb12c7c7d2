//! ATX headings.

use vstd::prelude::*;
use crate::combinator::mismatch;
use crate::errors::{Kind, MarkDownError};
use crate::input::{
    lemma_space_before_break, lemma_space_len_start, space_len, space_width, ByteClass, Cursor,
    TokenStream,
};
use crate::s::{after_space, at_line_ending, consumed, IndentationTo, LineEnding};
use crate::span::{ControlFlow, Span};

verus! {

/// The byte `#`.
pub const POUND: u8 = 0x23;

/// One more than the longest run of `#` that opens a heading.
pub const POUNDS_LIMIT: usize = 7;

/// A recoverable failure of a heading that points to `region`.
pub open spec fn heading_error(region: Span) -> MarkDownError {
    MarkDownError::Kind(Kind::ATXHeading, ControlFlow::Recoverable, region)
}

/// Where the run of `#` of a heading at `before` starts: after the
/// indentation.
pub open spec fn pounds_start(before: Cursor) -> Cursor {
    after_space(before)
}

/// The length of the run of `#` of a heading at `before`.
pub open spec fn pounds_count(before: Cursor) -> int {
    ByteClass::Byte(POUND).run_len(pounds_start(before).text)
}

/// Where the run of `#` of a heading at `before` ends.
pub open spec fn pounds_end(before: Cursor) -> Cursor {
    pounds_start(before).advance(pounds_count(before))
}

/// Where the line of a heading at `before` ends: at the first line feed or
/// carriage return after the run of `#`, or at the end of the input.
pub open spec fn line_end(before: Cursor) -> Cursor {
    pounds_end(before).advance(ByteClass::LineBreak.run_len_till(pounds_end(before).text))
}

/// A heading stands at `before`: at most three bytes of indentation, one to
/// six `#`, and right after them the separator: whitespace, or the line
/// ending of a heading without content.
pub open spec fn at_heading(before: Cursor) -> bool {
    &&& space_len(before.text) <= 3
    &&& 1 <= pounds_count(before) < POUNDS_LIMIT
    &&& (space_width(pounds_end(before).text, 0) > 0 || at_line_ending(pounds_end(before)))
}

/// The failure of a heading on `before`.
///
/// Indentation of more than three bytes fails at all that is left. No `#`
/// fails at the byte after the indentation, seven or more fail at all that
/// is left after the indentation. A run of `#` that neither whitespace nor
/// a line ending follows at once fails at the end of the run: content needs
/// a separator before it, and so does the end of the input.
pub open spec fn heading_failure(before: Cursor) -> MarkDownError {
    if space_len(before.text) > 3 {
        heading_error(before.span())
    } else if pounds_count(before) == 0 {
        heading_error(mismatch(pounds_start(before), 1).region())
    } else if pounds_count(before) >= POUNDS_LIMIT {
        heading_error(pounds_start(before).span())
    } else {
        heading_error(
            Span::Range(pounds_end(before).offset as usize, pounds_end(before).offset as usize),
        )
    }
}

/// An ATX heading: a line that starts with one to six `#`.
#[derive(Clone, Copy, Debug, PartialEq, Eq)]
pub struct ATXHeading<'a> {
    /// Up to three bytes of indentation.
    pub ident_whitespaces: IndentationTo<'a, 3>,
    /// The run of `#`.
    pub leading_pounds: TokenStream<'a>,
    /// The whitespace between the run of `#` and the content. It is empty
    /// only where the line ends right after the run.
    pub seperate: TokenStream<'a>,
    /// The content: the rest of the line, without its line ending.
    pub content: TokenStream<'a>,
    /// The line ending, absent on the last line of the input.
    pub line_ending: Option<LineEnding<'a>>,
}

impl<'a> ATXHeading<'a> {
    /// The union of the regions of all parts of the node.
    pub open spec fn region(self) -> Span {
        self.ident_whitespaces.region().union_spec(self.leading_pounds@.span()).union_spec(
            self.seperate@.span(),
        ).union_spec(self.content@.span()).union_spec(
            LineEnding::optional_region(self.line_ending),
        )
    }

    /// The bytes of all parts of the node, in order.
    pub open spec fn text(self) -> Seq<u8> {
        self.ident_whitespaces.text() + self.leading_pounds.value@ + self.seperate.value@
            + self.content.value@ + LineEnding::optional_text(self.line_ending)
    }

    /// The end offset of every slice in the node is representable.
    pub open spec fn wf(self) -> bool {
        &&& self.ident_whitespaces.0.wf()
        &&& self.leading_pounds.wf()
        &&& self.seperate.wf()
        &&& self.content.wf()
        &&& self.line_ending matches Some(line_ending) ==> line_ending.slice().wf()
    }

    /// The node is the heading at `before`: its parts stand one after the
    /// other from `before` to `after`, the indentation is the whitespace
    /// before the run of `#`, the separator is the whitespace after it, and
    /// the content goes on to the end of the line. The separator is empty
    /// only where there is no content and the line ending follows the run.
    pub open spec fn parsed(self, before: Cursor, after: Cursor) -> bool {
        let line = self.seperate.value@ + self.content.value@;
        &&& self.ident_whitespaces.parsed(before, pounds_start(before))
        &&& pounds_start(before).splits_into(self.leading_pounds@, pounds_end(before))
        &&& 1 <= self.leading_pounds.value@.len() < POUNDS_LIMIT
        &&& self.seperate.offset == pounds_end(before).offset
        &&& self.content.offset == self.seperate@.end()
        &&& line_end(before).offset == self.content@.end()
        &&& pounds_end(before).text == line + line_end(before).text
        &&& self.seperate.value@.len() == space_len(line)
        &&& LineEnding::optional(self.line_ending, line_end(before), after)
        &&& self.seperate.value@.len() > 0 || (self.content.value@.len() == 0
            && self.line_ending is Some)
    }

    /// Takes an ATX heading at the cursor.
    pub fn parse(input: &mut TokenStream<'a>) -> (r: Result<ATXHeading<'a>, MarkDownError>)
        requires
            old(input).wf(),
        ensures
            r is Ok <==> at_heading(old(input)@),
            match r {
                Ok(node) => {
                    &&& node.parsed(old(input)@, final(input)@)
                    &&& node.wf()
                    &&& node.region() == consumed(old(input)@, final(input)@)
                    &&& node.text() + final(input).value@ == old(input).value@
                },
                Err(e) => e == heading_failure(old(input)@) && *final(input) == *old(input),
            },
            final(input).wf(),
    {
        let mut cursor = *input;
        let (ident_whitespaces, leading_pounds) = match Self::opening(&mut cursor) {
            Ok(opening) => opening,
            Err(e) => {
                return Err(e);
            },
        };
        let (seperate, content) = Self::line(&mut cursor);
        let line_ending = LineEnding::parse_optional(&mut cursor);
        if seperate.is_empty() && !(content.is_empty() && line_ending.is_some()) {
            return Err(
                MarkDownError::Kind(Kind::ATXHeading, ControlFlow::Recoverable, seperate.to_span()),
            );
        }
        *input = cursor;
        let node = ATXHeading { ident_whitespaces, leading_pounds, seperate, content, line_ending };
        proof {
            lemma_heading_parsed(node, old(input)@, cursor@);
        }
        Ok(node)
    }

    /// Takes the indentation and the run of `#` that open a heading.
    fn opening(input: &mut TokenStream<'a>) -> (r: Result<
        (IndentationTo<'a, 3>, TokenStream<'a>),
        MarkDownError,
    >)
        requires
            old(input).wf(),
        ensures
            r is Ok <==> space_len(old(input).value@) <= 3 && 1 <= pounds_count(old(input)@)
                < POUNDS_LIMIT,
            match r {
                Ok((ident, pounds)) => {
                    &&& ident.parsed(old(input)@, pounds_start(old(input)@))
                    &&& ident.0.wf()
                    &&& pounds_start(old(input)@).splits_into(pounds@, pounds_end(old(input)@))
                    &&& pounds.wf()
                    &&& pounds.value@.len() == pounds_count(old(input)@)
                    &&& ident.0.offset == old(input).offset
                    &&& pounds.offset == ident.0@.end()
                    &&& final(input).offset == pounds@.end()
                    &&& final(input)@ == pounds_end(old(input)@)
                    &&& ident.text() + (pounds.value@ + final(input).value@) == old(input).value@
                },
                Err(e) => e == heading_failure(old(input)@) && *final(input) == *old(input),
            },
            final(input).wf(),
    {
        let mut cursor = *input;
        let ident = match IndentationTo::<3>::parse(&mut cursor) {
            Ok(ident) => ident,
            Err(e) => {
                return Err(Kind::ATXHeading.map(e));
            },
        };
        let after_ident = cursor;
        let pounds = cursor.take_while(ByteClass::Byte(POUND));
        if pounds.is_empty() {
            return Err(
                MarkDownError::Kind(
                    Kind::ATXHeading,
                    ControlFlow::Recoverable,
                    after_ident.to_span_at(1),
                ),
            );
        }
        if pounds.len() >= POUNDS_LIMIT {
            return Err(
                MarkDownError::Kind(
                    Kind::ATXHeading,
                    ControlFlow::Recoverable,
                    after_ident.to_span(),
                ),
            );
        }
        *input = cursor;
        Ok((ident, pounds))
    }

    /// Takes the rest of the line, up to its line ending, and splits it into
    /// the whitespace it starts with and what follows that.
    fn line(input: &mut TokenStream<'a>) -> (r: (TokenStream<'a>, TokenStream<'a>))
        requires
            old(input).wf(),
        ensures
            r.0.offset == old(input).offset,
            r.1.offset == r.0@.end(),
            final(input).offset == r.1@.end(),
            final(input)@ == old(input)@.advance(
                ByteClass::LineBreak.run_len_till(old(input).value@),
            ),
            old(input).value@ == (r.0.value@ + r.1.value@) + final(input).value@,
            r.0.value@.len() == space_len(r.0.value@ + r.1.value@),
            r.0.value@.len() > 0 <==> space_width(old(input).value@, 0) > 0,
            r.0.value@.len() + r.1.value@.len() == 0 <==> old(input).value@.len() == 0
                || ByteClass::LineBreak.accepts(old(input).value@[0]),
            r.0.value@.len() + r.1.value@.len() == 0 ==> final(input)@ == old(input)@,
            r.0.wf(),
            r.1.wf(),
            final(input).wf(),
    {
        let mut content = input.take_till(ByteClass::LineBreak);
        let ghost line = content@;
        let seperate = content.take_space();
        proof {
            lemma_space_len_start(line.text);
            lemma_space_before_break(old(input).value@, line.text.len() as int);
            ByteClass::LineBreak.lemma_run_till_start(old(input).value@, line.text.len() as int);
            old(input)@.lemma_split(line, input@);
            old(input)@.lemma_seek_start();
        }
        (seperate, content)
    }

    /// The parts of a heading stand one right after the other, from where
    /// the cursor was to where it is: there is no gap between them and they
    /// do not overlap.
    pub proof fn lemma_adjacent(self, before: Cursor, after: Cursor)
        requires
            self.parsed(before, after),
        ensures
            self.ident_whitespaces.0.offset == before.offset,
            self.leading_pounds.offset == self.ident_whitespaces.0@.end(),
            self.seperate.offset == self.leading_pounds@.end(),
            self.content.offset == self.seperate@.end(),
            LineEnding::optional_between(self.line_ending, self.content@.end(), after.offset),
    {
    }

    /// The region the node covers.
    pub fn to_span(&self) -> (r: Span)
        requires
            self.wf(),
        ensures
            r == self.region(),
    {
        self.ident_whitespaces.to_span().union(&self.leading_pounds.to_span()).union(
            &self.seperate.to_span(),
        ).union(&self.content.to_span()).union(&LineEnding::optional_span(&self.line_ending))
    }
}

/// The parts of a heading that were taken one after the other make the
/// heading that stands at `before`, and they cover what was taken.
proof fn lemma_heading_parsed<'a>(node: ATXHeading<'a>, before: Cursor, after: Cursor)
    requires
        0 <= before.offset,
        after.end() <= usize::MAX,
        node.wf(),
        node.ident_whitespaces.parsed(before, pounds_start(before)),
        pounds_start(before).splits_into(node.leading_pounds@, pounds_end(before)),
        1 <= node.leading_pounds.value@.len() < POUNDS_LIMIT,
        node.ident_whitespaces.0.offset == before.offset,
        node.leading_pounds.offset == node.ident_whitespaces.0@.end(),
        node.seperate.offset == node.leading_pounds@.end(),
        node.content.offset == node.seperate@.end(),
        line_end(before).offset == node.content@.end(),
        node.ident_whitespaces.text() + (node.leading_pounds.value@ + pounds_end(before).text)
            == before.text,
        pounds_end(before).text == (node.seperate.value@ + node.content.value@) + line_end(
            before,
        ).text,
        node.seperate.value@.len() == space_len(node.seperate.value@ + node.content.value@),
        LineEnding::optional(node.line_ending, line_end(before), after),
        LineEnding::optional_text(node.line_ending) + after.text == line_end(before).text,
        after.offset == line_end(before).offset + LineEnding::optional_text(
            node.line_ending,
        ).len(),
        node.seperate.value@.len() > 0 || (node.content.value@.len() == 0
            && node.line_ending is Some),
    ensures
        node.parsed(before, after),
        node.region() == consumed(before, after),
        node.text() + after.text == before.text,
{
    Span::lemma_union_adjacent(
        node.ident_whitespaces.0.offset,
        node.leading_pounds.offset,
        node.leading_pounds@.end() as usize,
    );
    Span::lemma_union_adjacent(
        node.ident_whitespaces.0.offset,
        node.seperate.offset,
        node.seperate@.end() as usize,
    );
    Span::lemma_union_adjacent(
        node.ident_whitespaces.0.offset,
        node.content.offset,
        node.content@.end() as usize,
    );
    LineEnding::lemma_union_optional(
        node.ident_whitespaces.0.offset,
        node.content@.end() as usize,
        node.line_ending,
    );
    assert(node.text() + after.text =~= node.ident_whitespaces.text() + (
    node.leading_pounds.value@ + ((node.seperate.value@ + node.content.value@) + (
    LineEnding::optional_text(node.line_ending) + after.text))));
}

} // verus!
