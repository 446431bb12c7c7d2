//! Thematic breaks.

use vstd::prelude::*;
use crate::combinator::{mismatch, ok, or, Punctuated};
use crate::errors::{Kind, MarkDownError};
use crate::input::{lemma_space_len_start, space_len, ByteClass, Cursor, TokenStream};
use crate::s::{
    after_space, at_line_ending, consumed, indentation_failure, IndentationTo, LineEnding, S1,
};
use crate::span::{ControlFlow, Span};

verus! {

/// The byte `*`.
pub const STAR: u8 = 0x2a;

/// The byte `_`.
pub const UNDERSCORE: u8 = 0x5f;

/// The byte `-`.
pub const MINUS: u8 = 0x2d;

/// A run of one of the characters a thematic break is made of.
#[derive(Clone, Copy, Debug, PartialEq, Eq)]
pub enum ThematicChars<'a> {
    /// A run of `*`.
    Stars(TokenStream<'a>),
    /// A run of `_`.
    Underscores(TokenStream<'a>),
    /// A run of `-`.
    Minus(TokenStream<'a>),
}

/// The shortest run that makes a thematic break by itself.
pub const HORIZON_MIN: usize = 3;

/// The length of the run of the first byte of `before`.
pub open spec fn horizon_len(before: Cursor) -> int {
    ByteClass::Byte(before.text[0]).run_len(before.text)
}

/// A run of three or more of one thematic character stands at `before`.
pub open spec fn at_horizon(before: Cursor) -> bool {
    ThematicChars::matches(before) && horizon_len(before) >= HORIZON_MIN
}

/// The failure of a run of three or more thematic characters on `before`:
/// without a thematic character it points to the byte at the cursor, and a
/// run of fewer than three points to the run.
pub open spec fn horizon_failure(before: Cursor) -> MarkDownError {
    if ThematicChars::matches(before) {
        MarkDownError::Kind(
            Kind::Thematic,
            ControlFlow::Recoverable,
            Span::Range(before.offset as usize, (before.offset + horizon_len(before)) as usize),
        )
    } else {
        thematic_failure(before)
    }
}

/// The failure of a run of thematic characters: it is recoverable and points
/// to the byte at the cursor.
pub open spec fn thematic_failure(input: Cursor) -> MarkDownError {
    MarkDownError::Kind(Kind::Thematic, mismatch(input, 1).flow(), mismatch(input, 1).region())
}

impl<'a> ThematicChars<'a> {
    /// The slice that holds the run.
    pub open spec fn slice(self) -> TokenStream<'a> {
        match self {
            ThematicChars::Stars(content) => content,
            ThematicChars::Underscores(content) => content,
            ThematicChars::Minus(content) => content,
        }
    }

    /// The byte the run is made of.
    pub open spec fn byte(self) -> u8 {
        match self {
            ThematicChars::Stars(_) => STAR,
            ThematicChars::Underscores(_) => UNDERSCORE,
            ThematicChars::Minus(_) => MINUS,
        }
    }

    /// The number that stands for the character of the run.
    pub open spec fn class(self) -> int {
        match self {
            ThematicChars::Stars(_) => 1,
            ThematicChars::Underscores(_) => 2,
            ThematicChars::Minus(_) => 3,
        }
    }

    /// The region the run covers.
    pub open spec fn region(self) -> Span {
        self.slice()@.span()
    }

    /// The bytes of the run.
    pub open spec fn text(self) -> Seq<u8> {
        self.slice().value@
    }

    /// The run is the longest prefix of `before` made of its character, it
    /// is not empty, and `after` is what follows it.
    pub open spec fn parsed(self, before: Cursor, after: Cursor) -> bool {
        &&& before.splits_into(self.slice()@, after)
        &&& self.text().len() > 0
        &&& ByteClass::Byte(self.byte()).run(before.text, self.text().len() as int)
    }

    /// The input starts with a thematic character.
    pub open spec fn matches(input: Cursor) -> bool {
        input.text.len() > 0 && (input.text[0] == STAR || input.text[0] == UNDERSCORE
            || input.text[0] == MINUS)
    }

    /// Takes the longest run of `byte`, and fails if it is empty.
    fn run(input: &mut TokenStream<'a>, byte: u8) -> (r: Result<TokenStream<'a>, MarkDownError>)
        requires
            old(input).wf(),
        ensures
            r is Ok <==> old(input).value@.len() > 0 && old(input).value@[0] == byte,
            match r {
                Ok(taken) => {
                    &&& old(input)@.splits_into(taken@, final(input)@)
                    &&& taken.value@.len() > 0
                    &&& ByteClass::Byte(byte).run(old(input).value@, taken.value@.len() as int)
                },
                Err(e) => e == mismatch(old(input)@, 1) && *final(input) == *old(input),
            },
            final(input).wf(),
    {
        let mut cursor = *input;
        let taken = cursor.take_while(ByteClass::Byte(byte));
        proof {
            ByteClass::Byte(byte).lemma_run_start(input.value@, taken.value@.len() as int);
        }
        if taken.is_empty() {
            return Err(MarkDownError::Other(ControlFlow::Recoverable, input.to_span_at(1)));
        }
        *input = cursor;
        Ok(taken)
    }

    fn stars(input: &mut TokenStream<'a>) -> (r: Result<ThematicChars<'a>, MarkDownError>)
        requires
            old(input).wf(),
        ensures
            r is Ok <==> old(input).value@.len() > 0 && old(input).value@[0] == STAR,
            match r {
                Ok(node) => node is Stars && node.parsed(old(input)@, final(input)@),
                Err(e) => e == mismatch(old(input)@, 1) && *final(input) == *old(input),
            },
            final(input).wf(),
    {
        match Self::run(input, STAR) {
            Ok(taken) => Ok(ThematicChars::Stars(taken)),
            Err(e) => Err(e),
        }
    }

    fn underscores(input: &mut TokenStream<'a>) -> (r: Result<ThematicChars<'a>, MarkDownError>)
        requires
            old(input).wf(),
        ensures
            r is Ok <==> old(input).value@.len() > 0 && old(input).value@[0] == UNDERSCORE,
            match r {
                Ok(node) => node is Underscores && node.parsed(old(input)@, final(input)@),
                Err(e) => e == mismatch(old(input)@, 1) && *final(input) == *old(input),
            },
            final(input).wf(),
    {
        match Self::run(input, UNDERSCORE) {
            Ok(taken) => Ok(ThematicChars::Underscores(taken)),
            Err(e) => Err(e),
        }
    }

    fn minus(input: &mut TokenStream<'a>) -> (r: Result<ThematicChars<'a>, MarkDownError>)
        requires
            old(input).wf(),
        ensures
            r is Ok <==> old(input).value@.len() > 0 && old(input).value@[0] == MINUS,
            match r {
                Ok(node) => node is Minus && node.parsed(old(input)@, final(input)@),
                Err(e) => e == mismatch(old(input)@, 1) && *final(input) == *old(input),
            },
            final(input).wf(),
    {
        match Self::run(input, MINUS) {
            Ok(taken) => Ok(ThematicChars::Minus(taken)),
            Err(e) => Err(e),
        }
    }

    fn underscores_or_minus(input: &mut TokenStream<'a>) -> (r: Result<
        ThematicChars<'a>,
        MarkDownError,
    >)
        requires
            old(input).wf(),
        ensures
            r is Ok <==> old(input).value@.len() > 0 && (old(input).value@[0] == UNDERSCORE
                || old(input).value@[0] == MINUS),
            match r {
                Ok(node) => node.parsed(old(input)@, final(input)@),
                Err(e) => e == mismatch(old(input)@, 1) && *final(input) == *old(input),
            },
            final(input).wf(),
    {
        or(input, Self::underscores, Self::minus)
    }

    /// Takes a run of `*`, of `_` or of `-` at the cursor.
    pub fn parse(input: &mut TokenStream<'a>) -> (r: Result<ThematicChars<'a>, MarkDownError>)
        requires
            old(input).wf(),
        ensures
            r is Ok <==> Self::matches(old(input)@),
            match r {
                Ok(node) => {
                    &&& node.parsed(old(input)@, final(input)@)
                    &&& node.region() == consumed(old(input)@, final(input)@)
                    &&& node.text() + final(input).value@ == old(input).value@
                },
                Err(e) => e == thematic_failure(old(input)@) && *final(input) == *old(input),
            },
            final(input).wf(),
    {
        match or(input, Self::stars, Self::underscores_or_minus) {
            Ok(node) => Ok(node),
            Err(e) => Err(Kind::Thematic.map(e)),
        }
    }

    /// Takes a run of three or more of one thematic character at the cursor.
    pub fn horizon(input: &mut TokenStream<'a>) -> (r: Result<ThematicChars<'a>, MarkDownError>)
        requires
            old(input).wf(),
        ensures
            r is Ok <==> at_horizon(old(input)@),
            match r {
                Ok(node) => {
                    &&& node.parsed(old(input)@, final(input)@)
                    &&& node.text().len() >= HORIZON_MIN
                    &&& node.slice().wf()
                    &&& node.region() == consumed(old(input)@, final(input)@)
                    &&& node.text() + final(input).value@ == old(input).value@
                },
                Err(e) => e == horizon_failure(old(input)@) && *final(input) == *old(input),
            },
            final(input).wf(),
    {
        let mut cursor = *input;
        let node = match Self::parse(&mut cursor) {
            Ok(node) => node,
            Err(e) => {
                return Err(e);
            },
        };
        proof {
            ByteClass::Byte(node.byte()).lemma_run_len(input.value@, node.text().len() as int);
            ByteClass::Byte(node.byte()).lemma_run_start(input.value@, node.text().len() as int);
        }
        if node.len() < HORIZON_MIN {
            return Err(
                MarkDownError::Kind(Kind::Thematic, ControlFlow::Recoverable, node.to_span()),
            );
        }
        *input = cursor;
        Ok(node)
    }

    /// Takes a run of thematic characters at the cursor if there is one.
    pub fn parse_optional(input: &mut TokenStream<'a>) -> (r: Option<ThematicChars<'a>>)
        requires
            old(input).wf(),
        ensures
            match r {
                Some(node) => node.parsed(old(input)@, final(input)@),
                None => !Self::matches(old(input)@) && *final(input) == *old(input),
            },
            final(input).wf(),
    {
        match ok(input, Self::parse) {
            Ok(found) => found,
            Err(_) => None,
        }
    }

    /// The number that stands for the character of the run: 1 for `*`, 2 for
    /// `_`, 3 for `-`.
    pub fn value(&self) -> (r: usize)
        ensures
            r == self.class(),
    {
        match self {
            ThematicChars::Stars(_) => 1,
            ThematicChars::Underscores(_) => 2,
            ThematicChars::Minus(_) => 3,
        }
    }

    /// The number of bytes in the run.
    pub fn len(&self) -> (r: usize)
        ensures
            r == self.text().len(),
    {
        match self {
            ThematicChars::Stars(content) => content.len(),
            ThematicChars::Underscores(content) => content.len(),
            ThematicChars::Minus(content) => content.len(),
        }
    }

    /// The region the run covers.
    pub fn to_span(&self) -> (r: Span)
        requires
            self.slice().wf(),
        ensures
            r == self.region(),
    {
        match self {
            ThematicChars::Stars(content) => content.to_span(),
            ThematicChars::Underscores(content) => content.to_span(),
            ThematicChars::Minus(content) => content.to_span(),
        }
    }
}

/// The offset at which the pairs of a list end: the origin for no pairs, the
/// end of the last delimiter otherwise.
pub open spec fn pairs_end<'a>(pairs: Seq<(ThematicChars<'a>, S1<'a>)>, origin: int) -> int {
    if pairs.len() == 0 {
        origin
    } else {
        pairs.last().1.0@.end()
    }
}

/// The offset at which a list that starts at `origin` ends: the end of its
/// last item if no whitespace follows it, the end of its pairs otherwise.
pub open spec fn list_end<'a>(breaks: Punctuated<ThematicChars<'a>, S1<'a>>, origin: int) -> int {
    match breaks.tail {
        Some(item) => item.slice()@.end(),
        None => pairs_end(breaks.pairs@, origin),
    }
}

/// `item` is the run of thematic characters that stands in `origin` at the
/// offset of `item`.
pub open spec fn item_at<'a>(item: ThematicChars<'a>, origin: Cursor) -> bool {
    item.parsed(origin.seek(item.slice().offset as int), origin.seek(item.slice()@.end()))
}

/// `space` is the whitespace that stands in `origin` at the offset of
/// `space`.
pub open spec fn space_at<'a>(space: S1<'a>, origin: Cursor) -> bool {
    space.parsed(origin.seek(space.0.offset as int), origin.seek(space.0@.end()))
}

/// Every pair of `pairs` stands in `origin`, the first at the start, each
/// item right before its whitespace and each whitespace right before the
/// next item.
#[verifier::opaque]
pub open spec fn pairs_at<'a>(pairs: Seq<(ThematicChars<'a>, S1<'a>)>, origin: Cursor) -> bool {
    &&& forall|i: int|
        0 <= i < pairs.len() ==> {
            &&& item_at((#[trigger] pairs[i]).0, origin)
            &&& space_at(pairs[i].1, origin)
            &&& pairs[i].1.0.offset == pairs[i].0.slice()@.end()
        }
    &&& pairs.len() > 0 ==> pairs[0].0.slice().offset == origin.offset
    &&& forall|i: int, j: int|
        0 <= i && j == i + 1 && j < pairs.len() ==> (#[trigger] pairs[j]).0.slice().offset == (
        #[trigger] pairs[i]).1.0@.end()
}

/// The union of the regions of all items and delimiters of `pairs`.
pub open spec fn pairs_region<'a>(pairs: Seq<(ThematicChars<'a>, S1<'a>)>) -> Span
    decreases pairs.len(),
{
    if pairs.len() == 0 {
        Span::Unknown
    } else {
        pairs_region(pairs.drop_last()).union_spec(pairs.last().0.region()).union_spec(
            pairs.last().1.region(),
        )
    }
}

/// The bytes of all items and delimiters of `pairs`, in order.
pub open spec fn pairs_text<'a>(pairs: Seq<(ThematicChars<'a>, S1<'a>)>) -> Seq<u8>
    decreases pairs.len(),
{
    if pairs.len() == 0 {
        Seq::empty()
    } else {
        pairs_text(pairs.drop_last()) + pairs.last().0.text() + pairs.last().1.text()
    }
}

/// The number of thematic characters in the items of `pairs`.
pub open spec fn pairs_total<'a>(pairs: Seq<(ThematicChars<'a>, S1<'a>)>) -> int
    decreases pairs.len(),
{
    if pairs.len() == 0 {
        0
    } else {
        pairs_total(pairs.drop_last()) + pairs.last().0.text().len()
    }
}

/// The region of an optional last item.
pub open spec fn tail_region<'a>(tail: Option<Box<ThematicChars<'a>>>) -> Span {
    match tail {
        Some(item) => item.region(),
        None => Span::Unknown,
    }
}

/// The bytes of an optional last item.
pub open spec fn tail_text<'a>(tail: Option<Box<ThematicChars<'a>>>) -> Seq<u8> {
    match tail {
        Some(item) => item.text(),
        None => Seq::empty(),
    }
}

/// The union of the regions of everything in the list.
pub open spec fn list_region<'a>(breaks: Punctuated<ThematicChars<'a>, S1<'a>>) -> Span {
    pairs_region(breaks.pairs@).union_spec(tail_region(breaks.tail))
}

/// The bytes of everything in the list, in order.
pub open spec fn list_text<'a>(breaks: Punctuated<ThematicChars<'a>, S1<'a>>) -> Seq<u8> {
    pairs_text(breaks.pairs@) + tail_text(breaks.tail)
}

/// The number of thematic characters in the list, whitespace not counted.
pub open spec fn list_total<'a>(breaks: Punctuated<ThematicChars<'a>, S1<'a>>) -> int {
    pairs_total(breaks.pairs@) + tail_text(breaks.tail).len()
}

/// The end offset of every slice in the list is representable.
pub open spec fn list_wf<'a>(breaks: Punctuated<ThematicChars<'a>, S1<'a>>) -> bool {
    &&& forall|i: int|
        0 <= i < breaks.pairs@.len() ==> (#[trigger] breaks.pairs@[i]).0.slice().wf()
            && breaks.pairs@[i].1.0.wf()
    &&& breaks.tail matches Some(item) ==> item.slice().wf()
}

/// The list is what stands at `before`: runs of thematic characters and the
/// whitespace between them, as many as there are, each run and each stretch
/// of whitespace as long as it can be; `after` is what follows the list.
pub open spec fn listed<'a>(
    breaks: Punctuated<ThematicChars<'a>, S1<'a>>,
    before: Cursor,
    after: Cursor,
) -> bool {
    let end = pairs_end(breaks.pairs@, before.offset);
    &&& pairs_at(breaks.pairs@, before)
    &&& match breaks.tail {
        Some(item) => {
            &&& item.slice().offset == end
            &&& item_at(*item, before)
            &&& after == before.seek(item.slice()@.end())
            &&& !S1::matches(after)
        },
        None => after == before.seek(end) && !ThematicChars::matches(after),
    }
}

/// The class of the first item of the list, or 0 for an empty list.
pub open spec fn first_class<'a>(breaks: Punctuated<ThematicChars<'a>, S1<'a>>) -> int {
    if breaks.pairs@.len() > 0 {
        breaks.pairs@[0].0.class()
    } else {
        match breaks.tail {
            Some(item) => item.class(),
            None => 0,
        }
    }
}

/// Every item of the list is made of the same character.
pub open spec fn uniform<'a>(breaks: Punctuated<ThematicChars<'a>, S1<'a>>) -> bool {
    &&& forall|i: int|
        0 <= i < breaks.pairs@.len() ==> (#[trigger] breaks.pairs@[i]).0.class() == first_class(
            breaks,
        )
    &&& breaks.tail matches Some(item) ==> item.class() == first_class(breaks)
}

/// The list makes a thematic break: it is not empty, every item is made of
/// the same character, and there are three characters or more.
pub open spec fn breaks_valid<'a>(breaks: Punctuated<ThematicChars<'a>, S1<'a>>) -> bool {
    &&& breaks.count() > 0
    &&& uniform(breaks)
    &&& list_total(breaks) >= 3
}

/// A recoverable failure of a thematic break that points to `region`.
pub open spec fn break_failure(region: Span) -> MarkDownError {
    MarkDownError::Kind(Kind::Thematic, ControlFlow::Recoverable, region)
}

/// `e` is the failure of a list that makes no thematic break.
///
/// An empty list fails at the indentation. A list of one item without
/// whitespace fails at that item if it is shorter than three characters.
/// Otherwise the first item made of another character than the first item
/// fails, and if there is none, the whole list fails for having fewer than
/// three characters.
#[verifier::opaque]
pub open spec fn rejected<'a>(
    indentation: Span,
    breaks: Punctuated<ThematicChars<'a>, S1<'a>>,
    e: MarkDownError,
) -> bool {
    let pairs = breaks.pairs@;
    if pairs.len() == 0 {
        match breaks.tail {
            None => e == break_failure(indentation),
            Some(item) => item.text().len() < 3 && e == break_failure(item.region()),
        }
    } else if exists|i: int| 0 <= i < pairs.len() && (#[trigger] pairs[i]).0.class() != pairs[0].0.class() {
        exists|i: int|
            {
                &&& 0 <= i < pairs.len()
                &&& (#[trigger] pairs[i]).0.class() != pairs[0].0.class()
                &&& forall|j: int| 0 <= j < i ==> (#[trigger] pairs[j]).0.class() == pairs[0].0.class()
                &&& e == break_failure(pairs[i].0.region())
            }
    } else if breaks.tail matches Some(item) && item.class() != pairs[0].0.class() {
        e == break_failure(breaks.tail->0.region())
    } else {
        list_total(breaks) < 3 && e == break_failure(list_region(breaks))
    }
}

/// What may follow a thematic break on its line: a line ending, or the end
/// of the input.
pub open spec fn line_ends(rest: Cursor) -> bool {
    at_line_ending(rest) || rest.text.len() == 0
}

/// A thematic break: a line of three or more `*`, `_` or `-`, all the same,
/// with optional whitespace between them and up to three bytes of
/// indentation before them.
#[derive(Clone, Debug, PartialEq, Eq)]
pub struct ThematicBreaks<'a> {
    /// Up to three bytes of indentation.
    pub ident_whitespaces: IndentationTo<'a, 3>,
    /// The runs of thematic characters and the whitespace between them.
    pub breaks: Punctuated<ThematicChars<'a>, S1<'a>>,
    /// The line ending, absent on the last line of the input.
    pub line_ending: Option<LineEnding<'a>>,
}

impl<'a> ThematicBreaks<'a> {
    /// The union of the regions of all parts of the node.
    pub open spec fn region(self) -> Span {
        self.ident_whitespaces.region().union_spec(list_region(self.breaks)).union_spec(
            LineEnding::optional_region(self.line_ending),
        )
    }

    /// The bytes of all parts of the node, in order.
    pub open spec fn text(self) -> Seq<u8> {
        self.ident_whitespaces.text() + list_text(self.breaks) + LineEnding::optional_text(
            self.line_ending,
        )
    }

    /// The end offset of every slice in the node is representable.
    pub open spec fn wf(self) -> bool {
        &&& self.ident_whitespaces.0.wf()
        &&& list_wf(self.breaks)
        &&& self.line_ending matches Some(line_ending) ==> line_ending.slice().wf()
    }

    /// The node is the thematic break at `before`: the indentation, then the
    /// list, which makes a break, then the line ending if there is one, and
    /// the end of the input if there is none; `after` is what follows.
    pub open spec fn parsed(self, before: Cursor, after: Cursor) -> bool {
        let start = before.seek(self.ident_whitespaces.0@.end());
        let rest = after.offset - LineEnding::optional_text(self.line_ending).len();
        &&& self.ident_whitespaces.parsed(before, start)
        &&& listed(self.breaks, start, before.seek(rest))
        &&& breaks_valid(self.breaks)
        &&& LineEnding::optional(self.line_ending, before.seek(rest), after)
        &&& self.line_ending is None ==> after.text.len() == 0
    }

    /// A thematic break stands at `before`: at most three bytes of
    /// indentation, then a list that makes a break, then a line ending or
    /// the end of the input.
    pub open spec fn at_break(before: Cursor) -> bool {
        &&& space_len(before.text) <= 3
        &&& exists|breaks: Punctuated<ThematicChars<'a>, S1<'a>>, rest: Cursor|
            {
                &&& #[trigger] listed(breaks, after_space(before), rest)
                &&& breaks_valid(breaks)
                &&& line_ends(rest)
            }
    }

    /// `e` is the failure of a thematic break on `before`.
    ///
    /// Indentation of more than three bytes fails as indentation does.
    /// Otherwise there is a list after the indentation; if it makes no
    /// break it fails as `rejected` says, and if it does but something
    /// other than a line ending follows, the failure points to the list.
    pub open spec fn fails_with(before: Cursor, e: MarkDownError) -> bool {
        ||| {
            &&& e == indentation_failure(before)
            &&& space_len(before.text) > 3
        }
        ||| exists|
            ident: IndentationTo<'a, 3>,
            breaks: Punctuated<ThematicChars<'a>, S1<'a>>,
            start: Cursor,
            rest: Cursor,
        |
            {
                &&& #[trigger] ident.parsed(before, start)
                &&& #[trigger] listed(breaks, start, rest)
                &&& if breaks_valid(breaks) {
                    !line_ends(rest) && e == break_failure(list_region(breaks))
                } else {
                    rejected(ident.region(), breaks, e)
                }
            }
    }

    /// Tells whether the list makes a thematic break, and how it fails if it
    /// does not.
    pub fn validate(
        ident: &IndentationTo<'a, 3>,
        breaks: &Punctuated<ThematicChars<'a>, S1<'a>>,
    ) -> (r: Result<(), MarkDownError>)
        requires
            ident.0.wf(),
            list_wf(*breaks),
        ensures
            match r {
                Ok(_) => breaks_valid(*breaks),
                Err(e) => !breaks_valid(*breaks) && rejected(ident.region(), *breaks, e),
            },
    {
        reveal(rejected);
        let n = breaks.pairs.len();
        if n == 0 {
            match &breaks.tail {
                Some(tail) => {
                    if tail.len() < 3 {
                        return Err(
                            MarkDownError::Kind(
                                Kind::Thematic,
                                ControlFlow::Recoverable,
                                tail.to_span(),
                            ),
                        );
                    }
                    return Ok(());
                },
                None => {
                    return Err(
                        MarkDownError::Kind(
                            Kind::Thematic,
                            ControlFlow::Recoverable,
                            ident.to_span(),
                        ),
                    );
                },
            }
        }
        let id = breaks.pairs[0].0.value();
        let mut total: usize = 0;
        let mut i: usize = 0;
        assert(breaks.pairs@.take(0) =~= Seq::empty());
        while i < n
            invariant
                n == breaks.pairs@.len(),
                n > 0,
                0 <= i <= n,
                id == breaks.pairs@[0].0.class(),
                list_wf(*breaks),
                forall|j: int| 0 <= j < i ==> (#[trigger] breaks.pairs@[j]).0.class() == id,
                total == vstd::math::min(3, pairs_total(breaks.pairs@.take(i as int))),
                pairs_total(breaks.pairs@.take(i as int)) >= 0,
            decreases n - i,
        {
            let item = &breaks.pairs[i].0;
            if item.value() != id {
                proof {
                    reveal(rejected);
                }
                return Err(
                    MarkDownError::Kind(Kind::Thematic, ControlFlow::Recoverable, item.to_span()),
                );
            }
            proof {
                let longer = breaks.pairs@.take(i + 1);
                assert(longer.drop_last() =~= breaks.pairs@.take(i as int));
                assert(longer.last() == breaks.pairs@[i as int]);
            }
            total = Self::count_up(total, item.len());
            i = i + 1;
        }
        assert(breaks.pairs@.take(n as int) =~= breaks.pairs@);
        match &breaks.tail {
            Some(tail) => {
                if tail.value() != id {
                    return Err(
                        MarkDownError::Kind(
                            Kind::Thematic,
                            ControlFlow::Recoverable,
                            tail.to_span(),
                        ),
                    );
                }
                total = Self::count_up(total, tail.len());
            },
            None => {},
        }
        if total < 3 {
            return Err(
                MarkDownError::Kind(
                    Kind::Thematic,
                    ControlFlow::Recoverable,
                    Self::list_span(breaks),
                ),
            );
        }
        Ok(())
    }

    /// Adds `more` to a count that stops at three.
    fn count_up(total: usize, more: usize) -> (r: usize)
        requires
            total <= 3,
        ensures
            r == vstd::math::min(3, total + more),
    {
        if more >= 3 - total {
            3
        } else {
            total + more
        }
    }

    /// The union of the regions of everything in the list.
    pub fn list_span(breaks: &Punctuated<ThematicChars<'a>, S1<'a>>) -> (r: Span)
        requires
            list_wf(*breaks),
        ensures
            r == list_region(*breaks),
    {
        let n = breaks.pairs.len();
        let mut region = Span::Unknown;
        let mut i: usize = 0;
        assert(breaks.pairs@.take(0) =~= Seq::empty());
        while i < n
            invariant
                n == breaks.pairs@.len(),
                0 <= i <= n,
                list_wf(*breaks),
                region == pairs_region(breaks.pairs@.take(i as int)),
            decreases n - i,
        {
            proof {
                let longer = breaks.pairs@.take(i + 1);
                assert(longer.drop_last() =~= breaks.pairs@.take(i as int));
                assert(longer.last() == breaks.pairs@[i as int]);
            }
            region = region.union(&breaks.pairs[i].0.to_span()).union(
                &breaks.pairs[i].1.to_span(),
            );
            i = i + 1;
        }
        assert(breaks.pairs@.take(n as int) =~= breaks.pairs@);
        proof {
            Span::lemma_union_unknown(region);
        }
        match &breaks.tail {
            Some(tail) => region.union(&tail.to_span()),
            None => region,
        }
    }

    /// Takes a thematic break at the cursor.
    pub fn parse(input: &mut TokenStream<'a>) -> (r: Result<ThematicBreaks<'a>, MarkDownError>)
        requires
            old(input).wf(),
        ensures
            r is Ok <==> Self::at_break(old(input)@),
            match r {
                Ok(node) => {
                    &&& node.parsed(old(input)@, final(input)@)
                    &&& node.wf()
                    &&& node.region() == consumed(old(input)@, final(input)@)
                    &&& node.text() + final(input).value@ == old(input).value@
                },
                Err(e) => Self::fails_with(old(input)@, e) && *final(input) == *old(input),
            },
            final(input).wf(),
    {
        let ghost origin = input@;
        let mut cursor = *input;
        let ident_whitespaces = match IndentationTo::<3>::parse(&mut cursor) {
            Ok(ident) => ident,
            Err(e) => {
                return Err(e);
            },
        };
        let ghost start = cursor@;
        let breaks = Self::list(&mut cursor);
        let ghost rest = cursor@;
        match Self::validate(&ident_whitespaces, &breaks) {
            Ok(_) => {},
            Err(e) => {
                proof {
                    assert(ident_whitespaces.parsed(origin, start) && listed(breaks, start, rest));
                    lemma_only_list(breaks, start, rest);
                }
                return Err(e);
            },
        }
        let line_ending = LineEnding::parse_optional(&mut cursor);
        if line_ending.is_none() && !cursor.is_empty() {
            proof {
                assert(ident_whitespaces.parsed(origin, start) && listed(breaks, start, rest));
                lemma_only_list(breaks, start, rest);
            }
            return Err(
                MarkDownError::Kind(
                    Kind::Thematic,
                    ControlFlow::Recoverable,
                    Self::list_span(&breaks),
                ),
            );
        }
        *input = cursor;
        let node = ThematicBreaks { ident_whitespaces, breaks, line_ending };
        proof {
            lemma_break_parsed(node, origin, start, rest, cursor@);
        }
        Ok(node)
    }

    /// The parts of a thematic break stand one right after the other, from
    /// where the cursor was to where it is: there is no gap between them and
    /// they do not overlap.
    pub proof fn lemma_adjacent(self, before: Cursor, after: Cursor)
        requires
            self.parsed(before, after),
        ensures
            self.ident_whitespaces.0.offset == before.offset,
            self.breaks.pairs@.len() > 0 ==> self.breaks.pairs@[0].0.slice().offset
                == self.ident_whitespaces.0@.end(),
            forall|i: int|
                0 <= i < self.breaks.pairs@.len() ==> (#[trigger] self.breaks.pairs@[i]).1.0.offset
                    == self.breaks.pairs@[i].0.slice()@.end(),
            forall|i: int, j: int|
                0 <= i && j == i + 1 && j < self.breaks.pairs@.len() ==> (
                #[trigger] self.breaks.pairs@[j]).0.slice().offset == (
                #[trigger] self.breaks.pairs@[i]).1.0@.end(),
            self.breaks.tail matches Some(item) ==> item.slice().offset == pairs_end(
                self.breaks.pairs@,
                self.ident_whitespaces.0@.end(),
            ),
            LineEnding::optional_between(
                self.line_ending,
                list_end(self.breaks, self.ident_whitespaces.0@.end()),
                after.offset,
            ),
    {
        reveal(pairs_at);
        let start = before.seek(self.ident_whitespaces.0@.end());
        before.lemma_seek_offset(self.ident_whitespaces.0@.end());
        before.lemma_seek_offset(
            after.offset - LineEnding::optional_text(self.line_ending).len(),
        );
        start.lemma_seek_offset(list_end(self.breaks, start.offset));
    }

    /// The region the node covers.
    pub fn to_span(&self) -> (r: Span)
        requires
            self.wf(),
        ensures
            r == self.region(),
    {
        self.ident_whitespaces.to_span().union(&Self::list_span(&self.breaks)).union(
            &LineEnding::optional_span(&self.line_ending),
        )
    }

    /// Takes the list of thematic runs at the cursor. The list may be empty;
    /// taking it never fails.
    pub fn list(input: &mut TokenStream<'a>) -> (r: Punctuated<ThematicChars<'a>, S1<'a>>)
        requires
            old(input).wf(),
        ensures
            listed(r, old(input)@, final(input)@),
            list_wf(r),
            old(input).offset <= final(input).offset,
            final(input)@ == old(input)@.seek(final(input).offset as int),
            final(input).offset - old(input).offset == list_text(r).len(),
            r.count() > 0 ==> list_region(r) == consumed(old(input)@, final(input)@),
            r.count() == 0 ==> *final(input) == *old(input),
            list_text(r) + final(input).value@ == old(input).value@,
            list_total(r) <= list_text(r).len(),
            final(input).wf(),
    {
        let mut pairs: Vec<(ThematicChars<'a>, S1<'a>)> = Vec::new();
        let mut tail: Option<Box<ThematicChars<'a>>> = None;
        let ghost origin = input@;
        proof {
            reveal(pairs_at);
            origin.lemma_seek_start();
            assert(pairs_text(pairs@) + input.value@ =~= origin.text);
        }
        loop
            invariant_except_break
                tail is None,
                growing(pairs@, origin, input@),
            invariant
                input.wf(),
                origin == old(input)@,
                pairs@.len() == 0 && tail is None ==> *input == *old(input),
            ensures
                growing(pairs@, origin, origin.seek(pairs_end(pairs@, origin.offset))),
                match tail {
                    Some(item) => {
                        &&& item.parsed(
                            origin.seek(pairs_end(pairs@, origin.offset)),
                            input@,
                        )
                        &&& item.slice().wf()
                        &&& !S1::matches(input@)
                    },
                    None => input@ == origin.seek(pairs_end(pairs@, origin.offset))
                        && !ThematicChars::matches(input@),
                },
            decreases input.value@.len(),
        {
            let ghost here = input@;
            let item = match ThematicChars::parse_optional(input) {
                Some(item) => item,
                None => {
                    break ;
                },
            };
            let ghost middle = input@;
            let delimiter = match S1::parse_optional(input) {
                Some(delimiter) => delimiter,
                None => {
                    tail = Some(Box::new(item));
                    break ;
                },
            };
            proof {
                lemma_growing_step(pairs@, item, delimiter, origin, here, middle, input@);
            }
            pairs.push((item, delimiter));
        }
        let r = Punctuated { pairs, tail };
        proof {
            lemma_growing_done(r, origin, input@);
        }
        r
    }
}

/// The parts taken one after the other, each where the last one ended, make
/// the node that stands at `origin`, and they cover what was taken.
proof fn lemma_break_parsed<'a>(
    node: ThematicBreaks<'a>,
    origin: Cursor,
    start: Cursor,
    rest: Cursor,
    after: Cursor,
)
    requires
        0 <= origin.offset,
        after.end() <= usize::MAX,
        node.ident_whitespaces.parsed(origin, start),
        listed(node.breaks, start, rest),
        start.offset <= rest.offset,
        rest == start.seek(rest.offset),
        rest.offset - start.offset == list_text(node.breaks).len(),
        list_text(node.breaks) + rest.text == start.text,
        node.breaks.count() > 0 ==> list_region(node.breaks) == consumed(start, rest),
        breaks_valid(node.breaks),
        LineEnding::optional(node.line_ending, rest, after),
        node.line_ending is None ==> after.text.len() == 0,
    ensures
        node.parsed(origin, after),
        node.region() == consumed(origin, after),
        node.text() + after.text == origin.text,
{
    origin.lemma_seek_start();
    origin.lemma_split_within(origin, node.ident_whitespaces.0@, start);
    origin.lemma_seek_within(start, rest);
    if node.line_ending is Some {
        rest.lemma_split(node.line_ending->0.slice()@, after);
    }
    Span::lemma_union_adjacent(
        origin.offset as usize,
        start.offset as usize,
        rest.offset as usize,
    );
    LineEnding::lemma_union_optional(
        origin.offset as usize,
        rest.offset as usize,
        node.line_ending,
    );
    assert(node.text() + after.text =~= node.ident_whitespaces.text() + (list_text(node.breaks)
        + (LineEnding::optional_text(node.line_ending) + after.text)));
}

/// What holds of the pairs taken so far while a list is being taken from
/// `origin`, with the cursor at `here`.
pub closed spec fn growing<'a>(
    pairs: Seq<(ThematicChars<'a>, S1<'a>)>,
    origin: Cursor,
    here: Cursor,
) -> bool {
    &&& 0 <= origin.offset <= here.offset
    &&& here.offset <= usize::MAX
    &&& here == origin.seek(here.offset)
    &&& here.offset - origin.offset <= origin.text.len()
    &&& here.offset == pairs_end(pairs, origin.offset)
    &&& pairs_at(pairs, origin)
    &&& forall|i: int|
        0 <= i < pairs.len() ==> (#[trigger] pairs[i]).0.slice().wf() && pairs[i].1.0.wf()
    &&& pairs.len() > 0 ==> pairs_region(pairs) == Span::Range(
        origin.offset as usize,
        here.offset as usize,
    )
    &&& pairs_text(pairs) + here.text == origin.text
    &&& pairs_text(pairs).len() == here.offset - origin.offset
    &&& pairs_total(pairs) <= pairs_text(pairs).len()
}

/// Taking one more pair keeps what holds of the pairs taken so far.
proof fn lemma_growing_step<'a>(
    pairs: Seq<(ThematicChars<'a>, S1<'a>)>,
    item: ThematicChars<'a>,
    space: S1<'a>,
    origin: Cursor,
    here: Cursor,
    middle: Cursor,
    next: Cursor,
)
    requires
        growing(pairs, origin, here),
        item.parsed(here, middle),
        space.parsed(middle, next),
        item.slice().wf(),
        space.0.wf(),
    ensures
        growing(pairs.push((item, space)), origin, next),
{
    origin.lemma_split_within(here, item.slice()@, middle);
    assert(item_at(item, origin));
    origin.lemma_split_within(middle, space.0@, next);
    assert(space_at(space, origin));
    lemma_pairs_grow(pairs, item, space, origin);
    let grown = pairs.push((item, space));
    if pairs.len() > 0 {
        Span::lemma_union_adjacent(
            origin.offset as usize,
            here.offset as usize,
            middle.offset as usize,
        );
    } else {
        Span::lemma_union_unknown(item.region());
    }
    Span::lemma_union_adjacent(
        origin.offset as usize,
        middle.offset as usize,
        next.offset as usize,
    );
    assert(pairs_text(grown) + next.text == origin.text) by {
        assert(pairs_text(grown) + next.text =~= pairs_text(pairs) + (item.text() + (
        space.text() + next.text)));
    }
    assert forall|i: int| 0 <= i < grown.len() implies (#[trigger] grown[i]).0.slice().wf()
        && grown[i].1.0.wf() by {
        if i < pairs.len() {
            assert(grown[i] == pairs[i]);
        }
    }
}

/// When no further pair can be taken, the pairs taken so far and the last
/// item, if one was taken, are the list.
proof fn lemma_growing_done<'a>(
    r: Punctuated<ThematicChars<'a>, S1<'a>>,
    origin: Cursor,
    after: Cursor,
)
    requires
        growing(r.pairs@, origin, origin.seek(pairs_end(r.pairs@, origin.offset))),
        match r.tail {
            Some(item) => {
                &&& item.parsed(origin.seek(pairs_end(r.pairs@, origin.offset)), after)
                &&& item.slice().wf()
                &&& !S1::matches(after)
            },
            None => after == origin.seek(pairs_end(r.pairs@, origin.offset))
                && !ThematicChars::matches(after),
        },
    ensures
        listed(r, origin, after),
        list_wf(r),
        origin.offset <= after.offset,
        after == origin.seek(after.offset),
        after.offset - origin.offset == list_text(r).len(),
        r.count() > 0 ==> list_region(r) == consumed(origin, after),
        list_text(r) + after.text == origin.text,
        list_total(r) <= list_text(r).len(),
{
    let here = origin.seek(pairs_end(r.pairs@, origin.offset));
    Span::lemma_union_unknown(pairs_region(r.pairs@));
    match r.tail {
        Some(item) => {
            origin.lemma_split_within(here, item.slice()@, after);
            assert(item_at(*item, origin));
            Span::lemma_union_unknown(item.region());
            Span::lemma_union_adjacent(
                origin.offset as usize,
                here.offset as usize,
                after.offset as usize,
            );
            assert(list_text(r) + after.text =~= pairs_text(r.pairs@) + (item.text()
                + after.text));
        },
        None => {
            assert(list_text(r) =~= pairs_text(r.pairs@));
        },
    }
}

/// A list that stands in `origin` still does when the pair that stands at
/// its end is added to it, and its region, text and count grow by that pair.
proof fn lemma_pairs_grow<'a>(
    pairs: Seq<(ThematicChars<'a>, S1<'a>)>,
    item: ThematicChars<'a>,
    space: S1<'a>,
    origin: Cursor,
)
    requires
        pairs_at(pairs, origin),
        item_at(item, origin),
        space_at(space, origin),
        item.slice().offset == pairs_end(pairs, origin.offset),
        space.0.offset == item.slice()@.end(),
    ensures
        pairs_at(pairs.push((item, space)), origin),
        pairs_end(pairs.push((item, space)), origin.offset) == space.0@.end(),
        pairs_region(pairs.push((item, space))) == pairs_region(pairs).union_spec(
            item.region(),
        ).union_spec(space.region()),
        pairs_text(pairs.push((item, space))) == pairs_text(pairs) + item.text() + space.text(),
        pairs_total(pairs.push((item, space))) == pairs_total(pairs) + item.text().len(),
{
    reveal(pairs_at);
    let grown = pairs.push((item, space));
    assert(grown.drop_last() =~= pairs);
    assert(grown.last() == (item, space));
    assert forall|i: int| 0 <= i < grown.len() implies {
        &&& item_at((#[trigger] grown[i]).0, origin)
        &&& space_at(grown[i].1, origin)
        &&& grown[i].1.0.offset == grown[i].0.slice()@.end()
    } by {
        if i < pairs.len() {
            assert(grown[i] == pairs[i]);
        }
    }
    assert forall|i: int, j: int| 0 <= i && j == i + 1 && j < grown.len() implies (
    #[trigger] grown[j]).0.slice().offset == (#[trigger] grown[i]).1.0@.end() by {
        if j < pairs.len() {
            assert(grown[i] == pairs[i]);
            assert(grown[j] == pairs[j]);
        } else {
            assert(grown[i] == pairs[i]);
            assert(pairs[i] == pairs.last());
        }
    }
    if pairs.len() > 0 {
        assert(grown[0] == pairs[0]);
    }
}

/// Whether a break stands at a position is decided by the list that was
/// taken there: any other list that stands there is the same list.
proof fn lemma_only_list<'a>(
    breaks: Punctuated<ThematicChars<'a>, S1<'a>>,
    before: Cursor,
    after: Cursor,
)
    requires
        listed(breaks, before, after),
    ensures
        forall|other: Punctuated<ThematicChars<'a>, S1<'a>>, rest: Cursor| #[trigger]
            listed(other, before, rest) ==> rest == after && breaks_valid(other) == breaks_valid(
                breaks,
            ),
{
    assert forall|other: Punctuated<ThematicChars<'a>, S1<'a>>, rest: Cursor| #[trigger]
        listed(other, before, rest) implies rest == after && breaks_valid(other) == breaks_valid(
        breaks,
    ) by {
        lemma_same_list(other, breaks, before, rest, after);
    }
}

/// Two streams over the same bytes at the same offset are the same stream.
pub proof fn lemma_same_stream<'a>(a: TokenStream<'a>, b: TokenStream<'a>)
    requires
        a@ == b@,
    ensures
        a == b,
{
    assert(a.value@ == b.value@);
    assert(a.value =~= b.value);
}

/// One run of thematic characters stands at a position.
pub proof fn lemma_same_item<'a>(
    a: ThematicChars<'a>,
    b: ThematicChars<'a>,
    before: Cursor,
    after_a: Cursor,
    after_b: Cursor,
)
    requires
        a.parsed(before, after_a),
        b.parsed(before, after_b),
    ensures
        a == b,
        after_a == after_b,
        ThematicChars::matches(before),
{
    reveal(ByteClass::run);
    before.lemma_split(a.slice()@, after_a);
    before.lemma_split(b.slice()@, after_b);
    assert(before.text[0] == a.byte());
    assert(before.text[0] == b.byte());
    ByteClass::Byte(a.byte()).lemma_run_unique(
        before.text,
        a.text().len() as int,
        b.text().len() as int,
    );
    lemma_same_stream(a.slice(), b.slice());
}

/// One stretch of whitespace stands at a position.
pub proof fn lemma_same_space<'a>(
    a: S1<'a>,
    b: S1<'a>,
    before: Cursor,
    after_a: Cursor,
    after_b: Cursor,
)
    requires
        a.parsed(before, after_a),
        b.parsed(before, after_b),
    ensures
        a == b,
        after_a == after_b,
        S1::matches(before),
{
    before.lemma_split(a.0@, after_a);
    before.lemma_split(b.0@, after_b);
    lemma_same_stream(a.0, b.0);
    lemma_space_len_start(before.text);
}

/// Two lists of pairs that stand in the same place agree as far as both go.
proof fn lemma_same_pairs<'a>(
    first: Seq<(ThematicChars<'a>, S1<'a>)>,
    second: Seq<(ThematicChars<'a>, S1<'a>)>,
    origin: Cursor,
    k: int,
)
    requires
        pairs_at(first, origin),
        pairs_at(second, origin),
        0 <= k <= first.len(),
        k <= second.len(),
    ensures
        forall|i: int| 0 <= i < k ==> first[i] == second[i],
    decreases k,
{
    if k > 0 {
        lemma_same_pairs(first, second, origin, k - 1);
        reveal(pairs_at);
        let a = first[k - 1];
        let b = second[k - 1];
        if k > 1 {
            assert(first[k - 2] == second[k - 2]);
            assert(a.0.slice().offset == first[k - 2].1.0@.end());
            assert(b.0.slice().offset == second[k - 2].1.0@.end());
        }
        assert(item_at(a.0, origin) && item_at(b.0, origin));
        lemma_same_item(
            a.0,
            b.0,
            origin.seek(a.0.slice().offset as int),
            origin.seek(a.0.slice()@.end()),
            origin.seek(b.0.slice()@.end()),
        );
        assert(space_at(a.1, origin) && space_at(b.1, origin));
        lemma_same_space(
            a.1,
            b.1,
            origin.seek(a.1.0.offset as int),
            origin.seek(a.1.0@.end()),
            origin.seek(b.1.0@.end()),
        );
    }
}

/// A list that has come to its end cannot be the start of a longer list
/// that stands in the same place.
proof fn lemma_no_longer_list<'a>(
    short: Punctuated<ThematicChars<'a>, S1<'a>>,
    long: Punctuated<ThematicChars<'a>, S1<'a>>,
    before: Cursor,
    after_short: Cursor,
    after_long: Cursor,
)
    requires
        listed(short, before, after_short),
        listed(long, before, after_long),
    ensures
        short.pairs@.len() >= long.pairs@.len(),
{
    let n = short.pairs@.len() as int;
    if n < long.pairs@.len() {
        lemma_same_pairs(short.pairs@, long.pairs@, before, n);
        reveal(pairs_at);
        let next = long.pairs@[n];
        let here = pairs_end(short.pairs@, before.offset);
        if n > 0 {
            assert(short.pairs@[n - 1] == long.pairs@[n - 1]);
            assert(next.0.slice().offset == long.pairs@[n - 1].1.0@.end());
        }
        assert(next.0.slice().offset == here);
        assert(item_at(next.0, before) && space_at(next.1, before));
        lemma_same_item(
            next.0,
            next.0,
            before.seek(here),
            before.seek(next.0.slice()@.end()),
            before.seek(next.0.slice()@.end()),
        );
        match short.tail {
            Some(item) => {
                lemma_same_item(
                    *item,
                    next.0,
                    before.seek(here),
                    before.seek(item.slice()@.end()),
                    before.seek(next.0.slice()@.end()),
                );
                lemma_same_space(
                    next.1,
                    next.1,
                    before.seek(next.1.0.offset as int),
                    before.seek(next.1.0@.end()),
                    before.seek(next.1.0@.end()),
                );
            },
            None => {},
        }
    }
}

/// One list stands at a position: a list is determined by the text it was
/// taken from.
pub proof fn lemma_same_list<'a>(
    first: Punctuated<ThematicChars<'a>, S1<'a>>,
    second: Punctuated<ThematicChars<'a>, S1<'a>>,
    before: Cursor,
    after_first: Cursor,
    after_second: Cursor,
)
    requires
        listed(first, before, after_first),
        listed(second, before, after_second),
    ensures
        first.pairs@ == second.pairs@,
        first.tail == second.tail,
        after_first == after_second,
{
    lemma_no_longer_list(first, second, before, after_first, after_second);
    lemma_no_longer_list(second, first, before, after_second, after_first);
    let n = first.pairs@.len() as int;
    lemma_same_pairs(first.pairs@, second.pairs@, before, n);
    assert(first.pairs@ =~= second.pairs@);
    let here = pairs_end(first.pairs@, before.offset);
    match (first.tail, second.tail) {
        (Some(a), Some(b)) => {
            lemma_same_item(
                *a,
                *b,
                before.seek(here),
                before.seek(a.slice()@.end()),
                before.seek(b.slice()@.end()),
            );
        },
        (Some(a), None) => {
            lemma_same_item(
                *a,
                *a,
                before.seek(here),
                before.seek(a.slice()@.end()),
                before.seek(a.slice()@.end()),
            );
        },
        (None, Some(b)) => {
            lemma_same_item(
                *b,
                *b,
                before.seek(here),
                before.seek(b.slice()@.end()),
                before.seek(b.slice()@.end()),
            );
        },
        (None, None) => {},
    }
}

} // verus!
