//! The run of `#` that opens a heading line.

use vstd::prelude::*;
use crate::errors::{Kind, MarkDownError};
use crate::header::POUND;
use crate::input::{ByteClass, Cursor, TokenStream};
use crate::s::consumed;
use crate::span::{ControlFlow, Span};

verus! {

/// One more than the longest run of `#` that leads a heading line.
pub const LEADING_POUNDS_LIMIT: usize = 6;

/// The length of the run of `#` at `before`.
pub open spec fn pounds_len(before: Cursor) -> int {
    ByteClass::Byte(POUND).run_len(before.text)
}

/// One to five `#` stand at `before`.
pub open spec fn at_pounds(before: Cursor) -> bool {
    1 <= pounds_len(before) < LEADING_POUNDS_LIMIT
}

/// The failure of leading pounds on `before`: it points to the run of `#`,
/// which is empty or too long.
pub open spec fn pounds_failure(before: Cursor) -> MarkDownError {
    MarkDownError::Kind(
        Kind::LeadingPounds,
        ControlFlow::Recoverable,
        Span::Range(before.offset as usize, (before.offset + pounds_len(before)) as usize),
    )
}

/// The `#` characters that lead a heading line: one to five of them.
#[derive(Clone, Copy, Debug, PartialEq, Eq)]
pub struct LeadingPounds<'a>(pub TokenStream<'a>);

impl<'a> LeadingPounds<'a> {
    /// The region the run covers.
    pub open spec fn region(self) -> Span {
        self.0@.span()
    }

    /// The bytes of the run.
    pub open spec fn text(self) -> Seq<u8> {
        self.0.value@
    }

    /// The run is all the `#` that `before` starts with, one to five of
    /// them, and `after` is what follows.
    pub open spec fn parsed(self, before: Cursor, after: Cursor) -> bool {
        &&& before.splits_into(self.0@, after)
        &&& self.0.value@.len() == pounds_len(before)
        &&& 1 <= self.0.value@.len() < LEADING_POUNDS_LIMIT
    }

    /// Takes the leading pounds at the cursor.
    pub fn parse(input: &mut TokenStream<'a>) -> (r: Result<LeadingPounds<'a>, MarkDownError>)
        requires
            old(input).wf(),
        ensures
            r is Ok <==> at_pounds(old(input)@),
            match r {
                Ok(node) => {
                    &&& node.parsed(old(input)@, final(input)@)
                    &&& node.0.wf()
                    &&& node.region() == consumed(old(input)@, final(input)@)
                    &&& node.text() + final(input).value@ == old(input).value@
                },
                Err(e) => e == pounds_failure(old(input)@) && *final(input) == *old(input),
            },
            final(input).wf(),
    {
        let mut cursor = *input;
        let content = cursor.take_while(ByteClass::Byte(POUND));
        proof {
            ByteClass::Byte(POUND).lemma_run_len(input.value@, content.value@.len() as int);
        }
        let len = content.len();
        if len < 1 || !(len < LEADING_POUNDS_LIMIT) {
            return Err(
                MarkDownError::Kind(
                    Kind::LeadingPounds,
                    ControlFlow::Recoverable,
                    content.to_span(),
                ),
            );
        }
        *input = cursor;
        Ok(LeadingPounds(content))
    }

    /// The region the run covers.
    pub fn to_span(&self) -> (r: Span)
        requires
            self.0.wf(),
        ensures
            r == self.region(),
    {
        self.0.to_span()
    }
}

} // verus!
