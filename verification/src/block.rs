//! Whole lines: a thematic break line and a heading line.

use vstd::prelude::*;
use crate::errors::MarkDownError;
use crate::input::{space_len, ByteClass, Cursor, TokenStream};
use crate::s::{after_space, consumed, indentation_failure, IndentationTo, LineEnding, S};
use crate::span::Span;
use crate::thematic::{at_horizon, horizon_failure, horizon_len, ThematicChars};
use crate::tokens::{at_pounds, pounds_failure, pounds_len, LeadingPounds};

verus! {

/// A line that is a thematic break: one run of three or more of `*`, `_` or
/// `-`.
#[derive(Clone, Copy, Debug, PartialEq, Eq)]
pub struct ThematicBreaksLine<'a> {
    /// Up to three bytes of indentation.
    pub leading_whitespaces: IndentationTo<'a, 3>,
    /// The run of thematic characters.
    pub horizon: ThematicChars<'a>,
    /// The whitespace after the run. It may be empty.
    pub trailing_whitespaces: S<'a>,
    /// The line ending, absent on the last line of the input.
    pub new_line: Option<LineEnding<'a>>,
}

/// A thematic break line stands at `before`: at most three bytes of
/// indentation and then a run of three or more of one thematic character.
pub open spec fn at_break_line(before: Cursor) -> bool {
    space_len(before.text) <= 3 && at_horizon(after_space(before))
}

/// The failure of a thematic break line on `before`: that of its
/// indentation, or else that of its run.
pub open spec fn break_line_failure(before: Cursor) -> MarkDownError {
    if space_len(before.text) <= 3 {
        horizon_failure(after_space(before))
    } else {
        indentation_failure(before)
    }
}

impl<'a> ThematicBreaksLine<'a> {
    /// The union of the regions of all parts of the line.
    pub open spec fn region(self) -> Span {
        self.leading_whitespaces.region().union_spec(self.horizon.region()).union_spec(
            self.trailing_whitespaces.region(),
        ).union_spec(LineEnding::optional_region(self.new_line))
    }

    /// The bytes of all parts of the line, in order.
    pub open spec fn text(self) -> Seq<u8> {
        self.leading_whitespaces.text() + self.horizon.text() + self.trailing_whitespaces.text()
            + LineEnding::optional_text(self.new_line)
    }

    /// The end offset of every slice in the line is representable.
    pub open spec fn wf(self) -> bool {
        &&& self.leading_whitespaces.0.wf()
        &&& self.horizon.slice().wf()
        &&& self.trailing_whitespaces.0.wf()
        &&& self.new_line matches Some(line_ending) ==> line_ending.slice().wf()
    }

    /// The node is the line at `before`: the indentation, the run, the
    /// whitespace after it and the line ending if there is one, each where
    /// the one before it ends; `after` is what follows.
    pub open spec fn parsed(self, before: Cursor, after: Cursor) -> bool {
        let run_end = after_space(before).advance(horizon_len(after_space(before)));
        &&& self.leading_whitespaces.parsed(before, after_space(before))
        &&& self.horizon.parsed(after_space(before), run_end)
        &&& self.horizon.text().len() >= 3
        &&& self.trailing_whitespaces.parsed(run_end, after_space(run_end))
        &&& LineEnding::optional(self.new_line, after_space(run_end), after)
    }

    /// Takes a thematic break line at the cursor.
    pub fn parse(input: &mut TokenStream<'a>) -> (r: Result<ThematicBreaksLine<'a>, MarkDownError>)
        requires
            old(input).wf(),
        ensures
            r is Ok <==> at_break_line(old(input)@),
            match r {
                Ok(node) => {
                    &&& node.parsed(old(input)@, final(input)@)
                    &&& node.wf()
                    &&& node.region() == consumed(old(input)@, final(input)@)
                    &&& node.text() + final(input).value@ == old(input).value@
                },
                Err(e) => e == break_line_failure(old(input)@) && *final(input) == *old(input),
            },
            final(input).wf(),
    {
        let ghost origin = input@;
        let mut cursor = *input;
        let leading_whitespaces = match IndentationTo::<3>::parse(&mut cursor) {
            Ok(leading) => leading,
            Err(e) => {
                return Err(e);
            },
        };
        let ghost start = cursor@;
        let horizon = match ThematicChars::horizon(&mut cursor) {
            Ok(horizon) => horizon,
            Err(e) => {
                return Err(e);
            },
        };
        let ghost run_end = cursor@;
        proof {
            ByteClass::Byte(horizon.byte()).lemma_run_len(start.text, horizon.text().len() as int);
            ByteClass::Byte(horizon.byte()).lemma_run_start(
                start.text,
                horizon.text().len() as int,
            );
            start.lemma_split(horizon.slice()@, run_end);
        }
        let trailing_whitespaces = cursor.take_space();
        let new_line = LineEnding::parse_optional(&mut cursor);
        *input = cursor;
        let node = ThematicBreaksLine {
            leading_whitespaces,
            horizon,
            trailing_whitespaces: S(trailing_whitespaces),
            new_line,
        };
        proof {
            Span::lemma_union_adjacent(
                leading_whitespaces.0.offset,
                horizon.slice().offset,
                horizon.slice()@.end() as usize,
            );
            Span::lemma_union_adjacent(
                leading_whitespaces.0.offset,
                trailing_whitespaces.offset,
                trailing_whitespaces@.end() as usize,
            );
            LineEnding::lemma_union_optional(
                leading_whitespaces.0.offset,
                trailing_whitespaces@.end() as usize,
                new_line,
            );
            assert(node.text() + cursor.value@ =~= leading_whitespaces.text() + (horizon.text() + (
            trailing_whitespaces.value@ + (LineEnding::optional_text(new_line)
                + cursor.value@))));
        }
        Ok(node)
    }

    /// The parts of the line stand one right after the other, from where
    /// the cursor was to where it is: there is no gap between them and they
    /// do not overlap.
    pub proof fn lemma_adjacent(self, before: Cursor, after: Cursor)
        requires
            self.parsed(before, after),
        ensures
            self.leading_whitespaces.0.offset == before.offset,
            self.horizon.slice().offset == self.leading_whitespaces.0@.end(),
            self.trailing_whitespaces.0.offset == self.horizon.slice()@.end(),
            LineEnding::optional_between(
                self.new_line,
                self.trailing_whitespaces.0@.end(),
                after.offset,
            ),
    {
    }

    /// The region the line covers.
    pub fn to_span(&self) -> (r: Span)
        requires
            self.wf(),
        ensures
            r == self.region(),
    {
        self.leading_whitespaces.to_span().union(&self.horizon.to_span()).union(
            &self.trailing_whitespaces.to_span(),
        ).union(&LineEnding::optional_span(&self.new_line))
    }
}

/// A line that opens a heading: a run of one to five `#`.
#[derive(Clone, Copy, Debug, PartialEq, Eq)]
pub struct HeadingLine<'a> {
    /// Up to five bytes of indentation.
    pub leading_whitespaces: IndentationTo<'a, 5>,
    /// The run of `#`.
    pub leading_pounds: LeadingPounds<'a>,
    /// The whitespace after the run. It may be empty.
    pub trailing_whitespaces: S<'a>,
    /// The line ending, absent on the last line of the input.
    pub new_line: Option<LineEnding<'a>>,
}

/// A heading line stands at `before`: at most five bytes of indentation and
/// then one to five `#`.
pub open spec fn at_heading_line(before: Cursor) -> bool {
    space_len(before.text) <= 5 && at_pounds(after_space(before))
}

/// The failure of a heading line on `before`: that of its indentation, or
/// else that of its run of `#`.
pub open spec fn heading_line_failure(before: Cursor) -> MarkDownError {
    if space_len(before.text) <= 5 {
        pounds_failure(after_space(before))
    } else {
        indentation_failure(before)
    }
}

impl<'a> HeadingLine<'a> {
    /// The union of the regions of all parts of the line.
    pub open spec fn region(self) -> Span {
        self.leading_whitespaces.region().union_spec(self.leading_pounds.region()).union_spec(
            self.trailing_whitespaces.region(),
        ).union_spec(LineEnding::optional_region(self.new_line))
    }

    /// The bytes of all parts of the line, in order.
    pub open spec fn text(self) -> Seq<u8> {
        self.leading_whitespaces.text() + self.leading_pounds.text()
            + self.trailing_whitespaces.text() + LineEnding::optional_text(self.new_line)
    }

    /// The end offset of every slice in the line is representable.
    pub open spec fn wf(self) -> bool {
        &&& self.leading_whitespaces.0.wf()
        &&& self.leading_pounds.0.wf()
        &&& self.trailing_whitespaces.0.wf()
        &&& self.new_line matches Some(line_ending) ==> line_ending.slice().wf()
    }

    /// The node is the line at `before`: the indentation, the run of `#`,
    /// the whitespace after it and the line ending if there is one, each
    /// where the one before it ends; `after` is what follows.
    pub open spec fn parsed(self, before: Cursor, after: Cursor) -> bool {
        let run_end = after_space(before).advance(pounds_len(after_space(before)));
        &&& self.leading_whitespaces.parsed(before, after_space(before))
        &&& self.leading_pounds.parsed(after_space(before), run_end)
        &&& self.trailing_whitespaces.parsed(run_end, after_space(run_end))
        &&& LineEnding::optional(self.new_line, after_space(run_end), after)
    }

    /// Takes a heading line at the cursor.
    pub fn parse(input: &mut TokenStream<'a>) -> (r: Result<HeadingLine<'a>, MarkDownError>)
        requires
            old(input).wf(),
        ensures
            r is Ok <==> at_heading_line(old(input)@),
            match r {
                Ok(node) => {
                    &&& node.parsed(old(input)@, final(input)@)
                    &&& node.wf()
                    &&& node.region() == consumed(old(input)@, final(input)@)
                    &&& node.text() + final(input).value@ == old(input).value@
                },
                Err(e) => e == heading_line_failure(old(input)@) && *final(input) == *old(input),
            },
            final(input).wf(),
    {
        let ghost origin = input@;
        let mut cursor = *input;
        let leading_whitespaces = match IndentationTo::<5>::parse(&mut cursor) {
            Ok(leading) => leading,
            Err(e) => {
                return Err(e);
            },
        };
        let ghost start = cursor@;
        let leading_pounds = match LeadingPounds::parse(&mut cursor) {
            Ok(pounds) => pounds,
            Err(e) => {
                return Err(e);
            },
        };
        let ghost run_end = cursor@;
        proof {
            start.lemma_split(leading_pounds.0@, run_end);
        }
        let trailing_whitespaces = cursor.take_space();
        let new_line = LineEnding::parse_optional(&mut cursor);
        *input = cursor;
        let node = HeadingLine {
            leading_whitespaces,
            leading_pounds,
            trailing_whitespaces: S(trailing_whitespaces),
            new_line,
        };
        proof {
            Span::lemma_union_adjacent(
                leading_whitespaces.0.offset,
                leading_pounds.0.offset,
                leading_pounds.0@.end() as usize,
            );
            Span::lemma_union_adjacent(
                leading_whitespaces.0.offset,
                trailing_whitespaces.offset,
                trailing_whitespaces@.end() as usize,
            );
            LineEnding::lemma_union_optional(
                leading_whitespaces.0.offset,
                trailing_whitespaces@.end() as usize,
                new_line,
            );
            assert(node.text() + cursor.value@ =~= leading_whitespaces.text() + (
            leading_pounds.text() + (trailing_whitespaces.value@ + (LineEnding::optional_text(
                new_line,
            ) + cursor.value@))));
        }
        Ok(node)
    }

    /// The parts of the line stand one right after the other, from where
    /// the cursor was to where it is: there is no gap between them and they
    /// do not overlap.
    pub proof fn lemma_adjacent(self, before: Cursor, after: Cursor)
        requires
            self.parsed(before, after),
        ensures
            self.leading_whitespaces.0.offset == before.offset,
            self.leading_pounds.0.offset == self.leading_whitespaces.0@.end(),
            self.trailing_whitespaces.0.offset == self.leading_pounds.0@.end(),
            LineEnding::optional_between(
                self.new_line,
                self.trailing_whitespaces.0@.end(),
                after.offset,
            ),
    {
    }

    /// The region the line covers.
    pub fn to_span(&self) -> (r: Span)
        requires
            self.wf(),
        ensures
            r == self.region(),
    {
        self.leading_whitespaces.to_span().union(&self.leading_pounds.to_span()).union(
            &self.trailing_whitespaces.to_span(),
        ).union(&LineEnding::optional_span(&self.new_line))
    }
}

} // verus!
