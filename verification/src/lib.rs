//! Structural parser for a CommonMark-flavoured markdown dialect.
//!
//! The parser turns source text into typed leaf nodes. Every node keeps the
//! slices of the source it was built from, so the byte range of each fragment
//! can be reported and the source can be reassembled from the tree.
//!
//! # Layout
//!
//! - [`span`]: regions of the source and the control flow of a failure.
//! - [`errors`]: the failures a parse reports.
//! - [`input`]: the cursor, [`TokenStream`], and what it stands for in
//!   contracts, [`Cursor`].
//! - [`combinator`]: the primitives: single bytes, keywords, searches,
//!   optional parsers and ordered choice.
//! - [`s`]: whitespace, indentation and line endings.
//! - [`escaped`] and [`entity`]: backslash escapes and named character
//!   references.
//! - [`thematic`], [`header`], [`tokens`] and [`block`]: thematic breaks and
//!   headings.
//! - [`code`]: indented and fenced code blocks.
//!
//! # Parsing
//!
//! Every node has a `parse` function that takes the cursor by mutable
//! reference. On success the cursor stands after the node. On failure the
//! cursor is where it was, and the failure says which rule failed, where,
//! and whether another rule may be tried at the same position.
//!
//! # What is proved
//!
//! Every node has three spec functions: `parsed`, which says what
//! it is for the node to stand between two positions of the cursor;
//! `region`, the union of the regions of its parts; and `text`, the bytes of
//! its parts put together. Every `parse` function states when it succeeds,
//! and then that the node is `parsed` between the old cursor and the new
//! one, that its `region` is the region between the two, and that its `text`
//! followed by what is left is what was there. When it fails it states the
//! failure. The `lemma_adjacent` functions state that the parts of a node
//! stand one right after the other.

pub mod block;
pub mod code;
pub mod combinator;
pub mod entity;
pub mod errors;
pub mod escaped;
pub mod header;
pub mod input;
pub mod s;
pub mod span;
pub mod thematic;
pub mod tokens;

pub use entity::Entity;
pub use errors::{Kind, MarkDownError};
pub use escaped::Escaped;
pub use header::ATXHeading;
pub use block::{HeadingLine, ThematicBreaksLine};
pub use code::{
    Fenced, FencedCodeBlock, IdentedChunk, IndentedBlankLine, IndentedCodeBlock,
    IndentedNonblankLine,
};
pub use combinator::Punctuated;
pub use input::{ByteClass, Cursor, TokenStream};
pub use s::{
    BlankLine, IdentWhiteSpaces, IndentationFrom, IndentationTo, LeadingWhiteSpace, LineEnding, S,
    S1,
};
pub use span::{ControlFlow, Span};
pub use thematic::{ThematicBreaks, ThematicChars};
pub use tokens::LeadingPounds;
