//! The failures a parse can report.

use vstd::prelude::*;
use crate::span::{ControlFlow, Span};

verus! {

/// The grammar rule a failure belongs to.
#[derive(Clone, Copy, Debug, PartialEq, Eq, Structural)]
pub enum Kind {
    /// Line ending characters.
    LineEnding,
    /// Leading whitespace of a block.
    LeadingWhiteSpace,
    /// Leading `#` run of a heading.
    LeadingPounds,
    /// Backslash escape.
    Escaped,
    /// Named character reference.
    Entity,
    /// Thematic break.
    Thematic,
    /// Whitespace run.
    S,
    /// Non-empty whitespace run.
    S1,
    /// ATX heading.
    ATXHeading,
    /// Blank line.
    BlankLine,
    /// Non-blank line of an indented code block.
    IdentationNonblankChunk,
    /// Blank line of an indented code block.
    IdentationBlankChunk,
    /// Code fence.
    FencedCodeBlock,
}

/// A parse failure: where it happened and whether alternatives may still be
/// tried.
#[derive(Clone, Copy, Debug, PartialEq, Eq, Structural)]
pub enum MarkDownError {
    /// A failure that belongs to no rule of this grammar.
    Other(ControlFlow, Span),
    /// A failure of the given rule.
    Kind(Kind, ControlFlow, Span),
}

impl Kind {
    /// Files `err` under this rule, keeping its control flow and its span.
    pub fn map(self, err: MarkDownError) -> (r: MarkDownError)
        ensures
            r == MarkDownError::Kind(self, err.flow(), err.region()),
    {
        MarkDownError::Kind(self, err.control_flow(), err.span())
    }
}

impl MarkDownError {
    /// The control flow of the failure.
    pub open spec fn flow(self) -> ControlFlow {
        match self {
            MarkDownError::Other(flow, _) => flow,
            MarkDownError::Kind(_, flow, _) => flow,
        }
    }

    /// The region the failure points to.
    pub open spec fn region(self) -> Span {
        match self {
            MarkDownError::Other(_, span) => span,
            MarkDownError::Kind(_, _, span) => span,
        }
    }

    /// Returns the control flow of the failure.
    pub fn control_flow(&self) -> (r: ControlFlow)
        ensures
            r == self.flow(),
    {
        match self {
            MarkDownError::Other(flow, _) => *flow,
            MarkDownError::Kind(_, flow, _) => *flow,
        }
    }

    /// The same failure with its control flow raised to `Fatal`.
    pub open spec fn fatal(self) -> MarkDownError {
        match self {
            MarkDownError::Other(_, span) => MarkDownError::Other(ControlFlow::Fatal, span),
            MarkDownError::Kind(kind, _, span) => MarkDownError::Kind(
                kind,
                ControlFlow::Fatal,
                span,
            ),
        }
    }

    /// Returns the same failure with its control flow raised to `Fatal`.
    pub fn into_fatal(self) -> (r: MarkDownError)
        ensures
            r == self.fatal(),
    {
        match self {
            MarkDownError::Other(_, span) => MarkDownError::Other(ControlFlow::Fatal, span),
            MarkDownError::Kind(kind, _, span) => MarkDownError::Kind(
                kind,
                ControlFlow::Fatal,
                span,
            ),
        }
    }

    /// Returns the region the failure points to.
    pub fn span(&self) -> (r: Span)
        ensures
            r == self.region(),
    {
        match self {
            MarkDownError::Other(_, span) => *span,
            MarkDownError::Kind(_, _, span) => *span,
        }
    }

    /// Tells whether no alternative may be tried after this failure.
    pub fn is_fatal(&self) -> (r: bool)
        ensures
            r == (self.flow() == ControlFlow::Fatal),
    {
        match self.control_flow() {
            ControlFlow::Fatal => true,
            ControlFlow::Recoverable => false,
        }
    }
}

} // verus!
