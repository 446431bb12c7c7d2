//! The primitives every grammar rule is built from.
//!
//! A parser takes the cursor by mutable reference and returns a node or a
//! failure. The primitives here advance the cursor on success and leave it
//! where it was on failure. Their failures belong to no rule
//! ([`MarkDownError::Other`]); a rule files them under its own kind.

use vstd::prelude::*;
use crate::errors::MarkDownError;
use crate::input::{ByteClass, Cursor, TokenStream};
use crate::span::{ControlFlow, Span};

verus! {

/// `needle` stands in `s` at index `at`.
pub open spec fn occurs_at(s: Seq<u8>, needle: Seq<u8>, at: int) -> bool {
    &&& 0 <= at
    &&& at + needle.len() <= s.len()
    &&& s.subrange(at, at + needle.len()) == needle
}

/// The failure of a primitive that wanted `width` bytes at the cursor.
pub open spec fn mismatch(input: Cursor, width: int) -> MarkDownError {
    MarkDownError::Other(
        ControlFlow::Recoverable,
        Span::Range(
            input.offset as usize,
            vstd::math::min(input.offset + width, input.end()) as usize,
        ),
    )
}

/// Takes the next byte if it is `byte`.
pub fn next<'a>(input: &mut TokenStream<'a>, byte: u8) -> (r: Result<TokenStream<'a>, MarkDownError>)
    requires
        old(input).wf(),
    ensures
        r is Ok <==> old(input).value@.len() > 0 && old(input).value@[0] == byte,
        match r {
            Ok(taken) => old(input)@.splits_into(taken@, final(input)@) && taken.value@ == seq![byte],
            Err(e) => e == mismatch(old(input)@, 1) && *final(input) == *old(input),
        },
        final(input).wf(),
{
    next_if(input, ByteClass::Byte(byte))
}

/// Takes the next byte if it belongs to `class`.
pub fn next_if<'a>(input: &mut TokenStream<'a>, class: ByteClass) -> (r: Result<
    TokenStream<'a>,
    MarkDownError,
>)
    requires
        old(input).wf(),
    ensures
        r is Ok <==> old(input).value@.len() > 0 && class.accepts(old(input).value@[0]),
        match r {
            Ok(taken) => old(input)@.splits_into(taken@, final(input)@) && taken.value@
                == seq![old(input).value@[0]],
            Err(e) => e == mismatch(old(input)@, 1) && *final(input) == *old(input),
        },
        final(input).wf(),
{
    if input.value.len() > 0 && class.contains(input.value[0]) {
        let taken = input.split_to(1);
        assert(taken.value@ =~= seq![old(input).value@[0]]);
        Ok(taken)
    } else {
        Err(MarkDownError::Other(ControlFlow::Recoverable, input.to_span_at(1)))
    }
}

/// Tells whether the input starts with `keyword`.
pub fn starts_with(input: &TokenStream, keyword: &[u8]) -> (r: bool)
    ensures
        r == occurs_at(input.value@, keyword@, 0),
{
    starts_with_at(input, keyword, 0)
}

/// Tells whether `keyword` stands in the input at index `at`.
fn starts_with_at(input: &TokenStream, keyword: &[u8], at: usize) -> (r: bool)
    requires
        at <= input.value@.len(),
    ensures
        r == occurs_at(input.value@, keyword@, at as int),
{
    let n = keyword.len();
    let len = input.value.len();
    if n > len - at {
        return false;
    }
    let mut i: usize = 0;
    while i < n
        invariant
            n == keyword@.len(),
            len == input.value@.len(),
            at + n <= len,
            0 <= i <= n,
            forall|j: int| 0 <= j < i ==> input.value@[at + j] == keyword@[j],
        decreases n - i,
    {
        if input.value[at + i] != keyword[i] {
            assert(input.value@.subrange(at as int, at + n)[i as int] != keyword@[i as int]);
            return false;
        }
        i = i + 1;
    }
    assert(input.value@.subrange(at as int, at + n) =~= keyword@);
    true
}

/// Takes `word` if the input starts with it.
pub fn keyword<'a>(input: &mut TokenStream<'a>, word: &[u8]) -> (r: Result<
    TokenStream<'a>,
    MarkDownError,
>)
    requires
        old(input).wf(),
    ensures
        r is Ok <==> occurs_at(old(input).value@, word@, 0),
        match r {
            Ok(taken) => old(input)@.splits_into(taken@, final(input)@) && taken.value@ == word@,
            Err(e) => e == mismatch(old(input)@, word@.len() as int) && *final(input) == *old(input),
        },
        final(input).wf(),
{
    if starts_with(input, word) {
        let taken = input.split_to(word.len());
        assert(taken.value@ =~= word@);
        Ok(taken)
    } else {
        Err(MarkDownError::Other(ControlFlow::Recoverable, input.to_span_at(word.len())))
    }
}

/// Takes everything before the first occurrence of `needle`, and leaves the
/// needle in the input. Fails when the needle does not occur.
pub fn take_until<'a>(input: &mut TokenStream<'a>, needle: &[u8]) -> (r: Result<
    TokenStream<'a>,
    MarkDownError,
>)
    requires
        old(input).wf(),
    ensures
        r is Ok <==> exists|k: int| occurs_at(old(input).value@, needle@, k),
        match r {
            Ok(taken) => {
                &&& old(input)@.splits_into(taken@, final(input)@)
                &&& occurs_at(old(input).value@, needle@, taken.value@.len() as int)
                &&& forall|k: int|
                    0 <= k < taken.value@.len() ==> !occurs_at(old(input).value@, needle@, k)
            },
            Err(e) => e == mismatch(old(input)@, 0) && *final(input) == *old(input),
        },
        final(input).wf(),
{
    let len = input.value.len();
    let mut at: usize = 0;
    loop
        invariant
            len == input.value@.len(),
            0 <= at <= len,
            *input == *old(input),
            input.wf(),
            forall|k: int| 0 <= k < at ==> !occurs_at(input.value@, needle@, k),
        decreases len - at,
    {
        if starts_with_at(input, needle, at) {
            let taken = input.split_to(at);
            return Ok(taken);
        }
        if at == len {
            return Err(MarkDownError::Other(ControlFlow::Recoverable, input.to_span_at(0)));
        }
        at = at + 1;
    }
}

/// A list of items separated by delimiters: the pairs of an item and the
/// delimiter after it, and the last item where no delimiter follows it.
#[derive(Clone, Debug, PartialEq, Eq)]
pub struct Punctuated<T, P> {
    /// The items that a delimiter follows, each with that delimiter.
    pub pairs: Vec<(T, P)>,
    /// The last item, where no delimiter follows it.
    pub tail: Option<Box<T>>,
}

impl<T, P> Punctuated<T, P> {
    /// The number of items.
    pub open spec fn count(self) -> int {
        self.pairs@.len() + if self.tail is Some {
            1int
        } else {
            0int
        }
    }

    /// Returns the number of items.
    pub fn len(&self) -> (r: usize)
        requires
            self.count() <= usize::MAX,
        ensures
            r == self.count(),
    {
        match &self.tail {
            Some(_) => self.pairs.len() + 1,
            None => self.pairs.len(),
        }
    }

    /// Tells whether the list holds no item.
    pub fn is_empty(&self) -> (r: bool)
        ensures
            r == (self.count() == 0),
    {
        self.pairs.len() == 0 && self.tail.is_none()
    }
}

/// What a caller gets from a parser that was run on a copy of the cursor:
/// the parser's result, and its cursor only if it succeeded.
pub open spec fn committed<'a, T>(
    start: TokenStream<'a>,
    outcome: Result<T, MarkDownError>,
    after: TokenStream<'a>,
    r: Result<T, MarkDownError>,
    rest: TokenStream<'a>,
) -> bool {
    r == outcome && rest == if outcome is Ok {
        after
    } else {
        start
    }
}

/// Runs `parser` and turns a recoverable failure into `None`.
///
/// On success the cursor is where the parser left it. A recoverable failure
/// gives `Ok(None)`, a fatal one is handed on; either way the cursor goes
/// back to where it was, whatever the parser consumed before it failed.
pub fn ok<'a, T, P>(input: &mut TokenStream<'a>, parser: P) -> (r: Result<
    Option<T>,
    MarkDownError,
>) where P: FnOnce(&mut TokenStream<'a>) -> Result<T, MarkDownError>
    requires
        forall|i: &mut TokenStream<'a>| *i == *old(input) ==> call_requires(parser, (i,)),
    ensures
        exists|i: &mut TokenStream<'a>, a: Result<T, MarkDownError>|
            *i == *old(input) && #[trigger] call_ensures(parser, (i,), a) && match a {
                Ok(v) => r == Ok::<Option<T>, MarkDownError>(Some(v)) && *final(input) == *final(i),
                Err(e) => *final(input) == *old(input) && if e.flow() == ControlFlow::Fatal {
                    r == Err::<Option<T>, MarkDownError>(e)
                } else {
                    r == Ok::<Option<T>, MarkDownError>(None)
                },
            },
{
    let mut attempt = *input;
    match parser(&mut attempt) {
        Ok(v) => {
            *input = attempt;
            Ok(Some(v))
        },
        Err(e) => {
            if e.is_fatal() {
                Err(e)
            } else {
                Ok(None)
            }
        },
    }
}

/// Ordered choice: runs `first`, and `second` only if `first` failed
/// recoverably.
///
/// Both run from the same position. The first success wins and moves the
/// cursor. A fatal failure of `first` is the result, and `second` is not
/// run. When the choice fails the cursor is where it was.
pub fn or<'a, T, A, B>(input: &mut TokenStream<'a>, first: A, second: B) -> (r: Result<
    T,
    MarkDownError,
>) where
    A: FnOnce(&mut TokenStream<'a>) -> Result<T, MarkDownError>,
    B: FnOnce(&mut TokenStream<'a>) -> Result<T, MarkDownError>,

    requires
        forall|i: &mut TokenStream<'a>| *i == *old(input) ==> call_requires(first, (i,)),
        forall|i: &mut TokenStream<'a>| *i == *old(input) ==> call_requires(second, (i,)),
    ensures
        exists|i: &mut TokenStream<'a>, a: Result<T, MarkDownError>|
            *i == *old(input) && #[trigger] call_ensures(first, (i,), a) && (if a matches Err(e)
                && e.flow() == ControlFlow::Recoverable {
                exists|j: &mut TokenStream<'a>, b: Result<T, MarkDownError>|
                    *j == *old(input) && #[trigger] call_ensures(second, (j,), b) && committed(
                        *old(input),
                        b,
                        *final(j),
                        r,
                        *final(input),
                    )
            } else {
                committed(*old(input), a, *final(i), r, *final(input))
            }),
{
    let start = *input;
    let mut attempt = start;
    match first(&mut attempt) {
        Ok(v) => {
            *input = attempt;
            Ok(v)
        },
        Err(e) => {
            if e.is_fatal() {
                Err(e)
            } else {
                let mut attempt = start;
                match second(&mut attempt) {
                    Ok(v) => {
                        *input = attempt;
                        Ok(v)
                    },
                    Err(e) => Err(e),
                }
            }
        },
    }
}

} // verus!
