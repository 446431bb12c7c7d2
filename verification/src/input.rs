//! The cursor over the source text.
//!
//! A [`TokenStream`] is a slice of the source together with the absolute
//! offset of its first byte. Splitting never copies: both halves borrow the
//! same buffer, the second starts where the first ends, and together they
//! cover what was split.

use vstd::prelude::*;
use vstd::string::StringSliceAdditionalSpecFns;
use crate::span::Span;

verus! {

/// A set of bytes that a run may be made of.
#[derive(Clone, Copy, Debug, PartialEq, Eq, Structural)]
pub enum ByteClass {
    /// Line feed and carriage return.
    LineBreak,
    /// The given byte and no other.
    Byte(u8),
}

/// The three bytes are the UTF-8 encoding of a whitespace character that
/// takes three bytes: U+1680, U+2000 to U+200A, U+2028, U+2029, U+202F,
/// U+205F or U+3000.
pub open spec fn is_wide_space(a: u8, b: u8, c: u8) -> bool {
    ||| a == 0xe1 && b == 0x9a && c == 0x80
    ||| a == 0xe2 && b == 0x80 && ((0x80 <= c && c <= 0x8a) || c == 0xa8 || c == 0xa9 || c == 0xaf)
    ||| a == 0xe2 && b == 0x81 && c == 0x9f
    ||| a == 0xe3 && b == 0x80 && c == 0x80
}

/// The number of bytes of the whitespace character that stands in `s` at
/// index `i`, or 0 if none stands there.
///
/// Whitespace is what Unicode calls so, in UTF-8, without line feed and
/// carriage return: space, tab, vertical tab and form feed in one byte,
/// U+0085 and U+00A0 in two, and the characters of `is_wide_space` in three.
pub open spec fn space_width(s: Seq<u8>, i: int) -> int {
    if i < 0 || i >= s.len() {
        0
    } else if s[i] == 0x20 || s[i] == 0x09 || s[i] == 0x0b || s[i] == 0x0c {
        1
    } else if i + 1 < s.len() && s[i] == 0xc2 && (s[i + 1] == 0x85 || s[i + 1] == 0xa0) {
        2
    } else if i + 2 < s.len() && is_wide_space(s[i], s[i + 1], s[i + 2]) {
        3
    } else {
        0
    }
}

/// The index at which the whitespace that starts in `s` at index `i` ends.
pub open spec fn space_end(s: Seq<u8>, i: int) -> int
    decreases s.len() - i,
{
    if 0 <= i < s.len() && space_width(s, i) > 0 {
        space_end(s, i + space_width(s, i))
    } else {
        i
    }
}

/// The length of the whitespace that `s` starts with.
pub open spec fn space_len(s: Seq<u8>) -> int {
    space_end(s, 0)
}

/// Whitespace ends in the sequence, at or after the index where it starts.
pub proof fn lemma_space_end_bounds(s: Seq<u8>, i: int)
    requires
        0 <= i <= s.len(),
    ensures
        i <= space_end(s, i) <= s.len(),
        space_end(s, i) > i <==> space_width(s, i) > 0,
    decreases s.len() - i,
{
    if i < s.len() && space_width(s, i) > 0 {
        lemma_space_end_bounds(s, i + space_width(s, i));
    }
}

/// A sequence starts with whitespace exactly when a whitespace character
/// stands at its start.
pub proof fn lemma_space_len_start(s: Seq<u8>)
    ensures
        0 <= space_len(s) <= s.len(),
        space_len(s) > 0 <==> space_width(s, 0) > 0,
{
    lemma_space_end_bounds(s, 0);
}

/// A whitespace character holds no line break, so cutting a sequence at its
/// first line break cuts no whitespace character at the start in two.
pub proof fn lemma_space_before_break(s: Seq<u8>, k: int)
    requires
        ByteClass::LineBreak.run_till(s, k),
    ensures
        space_width(s.take(k), 0) == space_width(s, 0),
{
    reveal(ByteClass::run_till);
    let w = space_width(s, 0);
    if w > 0 {
        if k < w {
            assert(ByteClass::LineBreak.accepts(s[k]));
        }
    }
}

impl ByteClass {
    /// Membership of `b` in the class.
    pub open spec fn accepts(self, b: u8) -> bool {
        match self {
            ByteClass::LineBreak => b == 0x0a || b == 0x0d,
            ByteClass::Byte(c) => b == c,
        }
    }

    /// Tells whether `b` belongs to the class.
    pub fn contains(self, b: u8) -> (r: bool)
        ensures
            r == self.accepts(b),
    {
        match self {
            ByteClass::LineBreak => b == 0x0a || b == 0x0d,
            ByteClass::Byte(c) => b == c,
        }
    }

    /// `n` is the length of the longest prefix of `s` made of bytes of the
    /// class.
    #[verifier::opaque]
    pub open spec fn run(self, s: Seq<u8>, n: int) -> bool {
        &&& 0 <= n <= s.len()
        &&& forall|i: int| 0 <= i < n ==> self.accepts(#[trigger] s[i])
        &&& n < s.len() ==> !self.accepts(s[n])
    }

    /// The length of the longest prefix of `s` made of bytes of the class.
    pub open spec fn run_len(self, s: Seq<u8>) -> int {
        choose|n: int| self.run(s, n)
    }

    /// `n` is the length of the longest prefix of `s` that holds no byte of
    /// the class.
    #[verifier::opaque]
    pub open spec fn run_till(self, s: Seq<u8>, n: int) -> bool {
        &&& 0 <= n <= s.len()
        &&& forall|i: int| 0 <= i < n ==> !self.accepts(#[trigger] s[i])
        &&& n < s.len() ==> self.accepts(s[n])
    }

    /// The length of the longest prefix of `s` that holds no byte of the
    /// class.
    pub open spec fn run_len_till(self, s: Seq<u8>) -> int {
        choose|n: int| self.run_till(s, n)
    }

    /// A sequence has one longest prefix in the class.
    pub proof fn lemma_run_unique(self, s: Seq<u8>, n: int, m: int)
        requires
            self.run(s, n),
            self.run(s, m),
        ensures
            n == m,
    {
        reveal(ByteClass::run);
        if n < m {
            assert(self.accepts(s[n]));
        } else if m < n {
            assert(self.accepts(s[m]));
        }
    }

    /// Every sequence has a longest prefix in the class.
    pub proof fn lemma_run_exists(self, s: Seq<u8>)
        ensures
            exists|n: int| self.run(s, n),
        decreases s.len(),
    {
        reveal(ByteClass::run);
        if s.len() == 0 || !self.accepts(s[0]) {
            assert(self.run(s, 0));
        } else {
            self.lemma_run_exists(s.drop_first());
            let m = choose|m: int| self.run(s.drop_first(), m);
            assert forall|i: int| 0 <= i < m + 1 implies self.accepts(#[trigger] s[i]) by {
                if i > 0 {
                    assert(s[i] == s.drop_first()[i - 1]);
                }
            }
            if m + 1 < s.len() {
                assert(s[m + 1] == s.drop_first()[m]);
            }
            assert(self.run(s, m + 1));
        }
    }

    /// The length of the longest prefix is the one length that `run` holds
    /// of.
    pub proof fn lemma_run_len(self, s: Seq<u8>, n: int)
        requires
            self.run(s, n),
        ensures
            self.run_len(s) == n,
    {
        self.lemma_run_unique(s, n, self.run_len(s));
    }

    /// A run is empty exactly when the sequence does not start with a byte
    /// of the class, and no longer than the sequence.
    pub proof fn lemma_run_start(self, s: Seq<u8>, n: int)
        requires
            self.run(s, n),
        ensures
            0 <= n <= s.len(),
            n > 0 <==> s.len() > 0 && self.accepts(s[0]),
    {
        reveal(ByteClass::run);
        if n > 0 {
            assert(self.accepts(s[0]));
        }
    }

    /// The length of the longest prefix outside the class is the one length
    /// that `run_till` holds of.
    pub proof fn lemma_run_len_till(self, s: Seq<u8>, n: int)
        requires
            self.run_till(s, n),
        ensures
            self.run_len_till(s) == n,
    {
        reveal(ByteClass::run_till);
        let m = self.run_len_till(s);
        if n < m {
            assert(!self.accepts(s[n]));
        } else if m < n {
            assert(!self.accepts(s[m]));
        }
    }

    /// A run outside the class is empty exactly when the sequence is empty
    /// or starts with a byte of the class, and no longer than the sequence.
    pub proof fn lemma_run_till_start(self, s: Seq<u8>, n: int)
        requires
            self.run_till(s, n),
        ensures
            0 <= n <= s.len(),
            n > 0 <==> s.len() > 0 && !self.accepts(s[0]),
    {
        reveal(ByteClass::run_till);
        if n > 0 {
            assert(!self.accepts(s[0]));
        }
    }
}

/// A position in the source: an absolute offset and the bytes from there on.
/// It is what a [`TokenStream`] stands for in contracts.
pub struct Cursor {
    /// Absolute offset of the first byte.
    pub offset: int,
    /// The bytes at the position.
    pub text: Seq<u8>,
}

impl Cursor {
    /// The absolute offset one past the last byte.
    pub open spec fn end(self) -> int {
        self.offset + self.text.len()
    }

    /// The region the bytes cover.
    pub open spec fn span(self) -> Span {
        Span::Range(self.offset as usize, self.end() as usize)
    }

    /// `head` and `tail` are the two halves of `self`: `head` starts where
    /// `self` starts, `tail` starts where `head` ends, and together they hold
    /// the bytes of `self`.
    pub open spec fn splits_into(self, head: Cursor, tail: Cursor) -> bool {
        &&& head.offset == self.offset
        &&& tail.offset == head.end()
        &&& self.text == head.text + tail.text
    }

    /// The position `n` bytes further on.
    #[verifier::opaque]
    pub open spec fn advance(self, n: int) -> Cursor {
        Cursor { offset: self.offset + n, text: self.text.skip(n) }
    }

    /// The position at the absolute offset `offset`, which lies in `self`.
    pub open spec fn seek(self, offset: int) -> Cursor {
        self.advance(offset - self.offset)
    }

    /// The two halves of a split meet, and their regions together are the
    /// region of the whole.
    pub proof fn lemma_split_covers(self, head: Cursor, tail: Cursor)
        requires
            self.splits_into(head, tail),
            0 <= self.offset,
            self.end() <= usize::MAX,
        ensures
            head.end() == tail.offset,
            head.span().union_spec(tail.span()) == self.span(),
            head.text + tail.text == self.text,
    {
        Span::lemma_union_adjacent(
            head.offset as usize,
            tail.offset as usize,
            tail.end() as usize,
        );
    }

    /// What is left after the head of a split is the position one head
    /// further on, and the head is the text up to there.
    pub proof fn lemma_split(self, head: Cursor, tail: Cursor)
        requires
            self.splits_into(head, tail),
        ensures
            tail == self.advance(head.text.len() as int),
            tail == self.seek(tail.offset),
            head.text == self.text.take(head.text.len() as int),
            head.text.len() <= self.text.len(),
    {
        reveal(Cursor::advance);
        assert(self.text.skip(head.text.len() as int) =~= tail.text);
        assert(self.text.take(head.text.len() as int) =~= head.text);
    }

    /// What advancing gives: the offset moves on by `n`, and the first `n`
    /// bytes are gone.
    pub proof fn lemma_advance(self, n: int)
        requires
            0 <= n <= self.text.len(),
        ensures
            self.advance(n).offset == self.offset + n,
            self.advance(n).text == self.text.skip(n),
            self.advance(n).text.len() == self.text.len() - n,
            self.advance(n).end() == self.end(),
            forall|i: int|
                0 <= i < self.text.len() - n ==> #[trigger] self.advance(n).text[i] == self.text[n
                    + i],
    {
        reveal(Cursor::advance);
    }

    /// Advancing twice is advancing once by the sum.
    pub proof fn lemma_advance_twice(self, n: int, m: int)
        requires
            0 <= n,
            0 <= m,
            n + m <= self.text.len(),
        ensures
            self.advance(n).advance(m) == self.advance(n + m),
    {
        reveal(Cursor::advance);
        assert(self.text.skip(n).skip(m) =~= self.text.skip(n + m));
    }

    /// Seeking an offset gives a position at that offset.
    pub proof fn lemma_seek_offset(self, offset: int)
        ensures
            self.seek(offset).offset == offset,
            self.advance(offset).offset == self.offset + offset,
    {
        reveal(Cursor::advance);
    }

    /// A position lies in itself.
    pub proof fn lemma_seek_start(self)
        ensures
            self == self.seek(self.offset),
    {
        reveal(Cursor::advance);
        assert(self.text.skip(0) =~= self.text);
    }

    /// A position that lies in a position that lies in `self` lies in
    /// `self`.
    pub proof fn lemma_seek_within(self, here: Cursor, there: Cursor)
        requires
            here == self.seek(here.offset),
            self.offset <= here.offset,
            there == here.seek(there.offset),
            here.offset <= there.offset,
            there.offset - self.offset <= self.text.len(),
        ensures
            there == self.seek(there.offset),
    {
        self.lemma_advance_twice(here.offset - self.offset, there.offset - here.offset);
    }

    /// A split of a position that lies in `self` ends at a position that
    /// lies in `self`.
    pub proof fn lemma_split_within(self, here: Cursor, head: Cursor, tail: Cursor)
        requires
            here == self.seek(here.offset),
            self.offset <= here.offset,
            here.offset - self.offset <= self.text.len(),
            here.splits_into(head, tail),
        ensures
            here == self.seek(head.offset),
            tail == self.seek(head.end()),
            tail.offset == head.end(),
            tail.offset - self.offset <= self.text.len(),
            here.text == head.text + tail.text,
    {
        here.lemma_split(head, tail);
        self.lemma_advance(here.offset - self.offset);
        self.lemma_advance_twice(here.offset - self.offset, head.text.len() as int);
    }
}

/// A slice of the source and the absolute offset of its first byte.
#[derive(Clone, Copy, Debug, PartialEq, Eq)]
pub struct TokenStream<'a> {
    /// Absolute offset of the slice in the whole source.
    pub offset: usize,
    /// The bytes of the slice.
    pub value: &'a [u8],
}

impl<'a> View for TokenStream<'a> {
    type V = Cursor;

    open spec fn view(&self) -> Cursor {
        Cursor { offset: self.offset as int, text: self.value@ }
    }
}

impl<'a> TokenStream<'a> {
    /// The end offset is representable.
    pub open spec fn wf(self) -> bool {
        self@.end() <= usize::MAX
    }

    /// A stream over `value` that starts at the absolute offset `offset`.
    pub fn new(offset: usize, value: &'a str) -> (r: TokenStream<'a>)
        requires
            offset + value.spec_bytes().len() <= usize::MAX,
        ensures
            r.offset == offset,
            r.value@ == value.spec_bytes(),
            r.wf(),
    {
        TokenStream { offset, value: value.as_bytes() }
    }

    /// A stream over the whole of `value`, which starts at offset 0.
    pub fn whole(value: &'a str) -> (r: TokenStream<'a>)
        ensures
            r.offset == 0,
            r.value@ == value.spec_bytes(),
            r.wf(),
    {
        let bytes = value.as_bytes();
        let len = bytes.len();
        assert(len == bytes@.len());
        TokenStream { offset: 0, value: bytes }
    }

    /// A stream over the bytes `value` that starts at the absolute offset
    /// `offset`.
    pub fn from_bytes(offset: usize, value: &'a [u8]) -> (r: TokenStream<'a>)
        requires
            offset + value@.len() <= usize::MAX,
        ensures
            r.offset == offset,
            r.value@ == value@,
            r.wf(),
    {
        TokenStream { offset, value }
    }

    /// The number of bytes left.
    pub fn len(&self) -> (r: usize)
        ensures
            r == self.value@.len(),
    {
        self.value.len()
    }

    /// Tells whether no byte is left.
    pub fn is_empty(&self) -> (r: bool)
        ensures
            r == (self.value@.len() == 0),
    {
        self.value.len() == 0
    }

    /// The absolute offset of the first byte.
    pub fn start(&self) -> (r: usize)
        ensures
            r == self.offset,
    {
        self.offset
    }

    /// The absolute offset one past the last byte.
    pub fn end(&self) -> (r: usize)
        requires
            self.wf(),
        ensures
            r == self@.end(),
    {
        self.offset + self.value.len()
    }

    /// The region the slice covers.
    pub fn to_span(&self) -> (r: Span)
        requires
            self.wf(),
        ensures
            r == self@.span(),
    {
        Span::Range(self.offset, self.offset + self.value.len())
    }

    /// The region of the first `at` bytes, cut at the end of the slice.
    pub fn to_span_at(&self, at: usize) -> (r: Span)
        requires
            self.wf(),
        ensures
            r == Span::Range(
                self.offset,
                vstd::math::min(self.offset + at, self@.end()) as usize,
            ),
    {
        let len = self.value.len();
        if at <= len {
            Span::Range(self.offset, self.offset + at)
        } else {
            Span::Range(self.offset, self.offset + len)
        }
    }

    /// The first byte, if there is one.
    pub fn first(&self) -> (r: Option<u8>)
        ensures
            r == if self.value@.len() > 0 {
                Some(self.value@[0])
            } else {
                None
            },
    {
        if self.value.len() > 0 {
            Some(self.value[0])
        } else {
            None
        }
    }

    /// Splits off and returns the first `at` bytes; `self` keeps the rest.
    pub fn split_to(&mut self, at: usize) -> (r: TokenStream<'a>)
        requires
            old(self).wf(),
            at <= old(self).value@.len(),
        ensures
            old(self)@.splits_into(r@, final(self)@),
            r.value@ == old(self).value@.take(at as int),
            final(self)@ == old(self)@.advance(at as int),
            r@.end() == final(self).offset,
            r@.span().union_spec(final(self)@.span()) == old(self)@.span(),
            r.wf(),
            final(self).wf(),
    {
        let (head, tail) = self.value.split_at(at);
        assert(self.value@ =~= head@ + tail@);
        proof {
            reveal(Cursor::advance);
            Span::lemma_union_adjacent(
                self.offset,
                (self.offset + at) as usize,
                (self.offset + self.value@.len()) as usize,
            );
        }
        let r = TokenStream { offset: self.offset, value: head };
        self.offset = self.offset + at;
        self.value = tail;
        r
    }

    /// Splits off and returns everything after the first `at` bytes; `self`
    /// keeps the first `at` bytes.
    pub fn split_off(&mut self, at: usize) -> (r: TokenStream<'a>)
        requires
            old(self).wf(),
            at <= old(self).value@.len(),
        ensures
            old(self)@.splits_into(final(self)@, r@),
            final(self).value@ == old(self).value@.take(at as int),
            r.value@ == old(self).value@.skip(at as int),
            final(self)@.end() == r.offset,
            final(self)@.span().union_spec(r@.span()) == old(self)@.span(),
            r.wf(),
            final(self).wf(),
    {
        let (head, tail) = self.value.split_at(at);
        assert(self.value@ =~= head@ + tail@);
        proof {
            Span::lemma_union_adjacent(
                self.offset,
                (self.offset + at) as usize,
                (self.offset + self.value@.len()) as usize,
            );
        }
        let r = TokenStream { offset: self.offset + at, value: tail };
        self.value = head;
        r
    }

    /// Splits off and returns the longest prefix made of bytes of `class`.
    /// The run may be empty.
    pub fn take_while(&mut self, class: ByteClass) -> (r: TokenStream<'a>)
        requires
            old(self).wf(),
        ensures
            old(self)@.splits_into(r@, final(self)@),
            class.run(old(self).value@, r.value@.len() as int),
            r.value@.len() == class.run_len(old(self).value@),
            final(self)@ == old(self)@.advance(class.run_len(old(self).value@)),
            r.wf(),
            final(self).wf(),
    {
        let len = self.value.len();
        let mut n: usize = 0;
        while n < len && class.contains(self.value[n])
            invariant
                len == self.value@.len(),
                0 <= n <= len,
                forall|i: int| 0 <= i < n ==> class.accepts(#[trigger] self.value@[i]),
                *self == *old(self),
            decreases len - n,
        {
            n = n + 1;
        }
        proof {
            reveal(ByteClass::run);
            class.lemma_run_len(self.value@, n as int);
        }
        self.split_to(n)
    }

    /// The number of bytes of the whitespace character at index `i`, or 0
    /// if none stands there.
    pub fn space_width_at(&self, i: usize) -> (r: usize)
        requires
            i <= self.value@.len(),
        ensures
            r == space_width(self.value@, i as int),
            i + r <= self.value@.len(),
    {
        let len = self.value.len();
        if i >= len {
            return 0;
        }
        let a = self.value[i];
        if a == 0x20 || a == 0x09 || a == 0x0b || a == 0x0c {
            return 1;
        }
        if len - i < 2 {
            return 0;
        }
        let b = self.value[i + 1];
        if a == 0xc2 && (b == 0x85 || b == 0xa0) {
            return 2;
        }
        if len - i < 3 {
            return 0;
        }
        let c = self.value[i + 2];
        if a == 0xe1 && b == 0x9a && c == 0x80 {
            return 3;
        }
        if a == 0xe2 && b == 0x80 && ((0x80 <= c && c <= 0x8a) || c == 0xa8 || c == 0xa9
            || c == 0xaf) {
            return 3;
        }
        if a == 0xe2 && b == 0x81 && c == 0x9f {
            return 3;
        }
        if a == 0xe3 && b == 0x80 && c == 0x80 {
            return 3;
        }
        0
    }

    /// Splits off and returns the whitespace that the input starts with.
    /// It may be empty.
    pub fn take_space(&mut self) -> (r: TokenStream<'a>)
        requires
            old(self).wf(),
        ensures
            old(self)@.splits_into(r@, final(self)@),
            r.value@.len() == space_len(old(self).value@),
            final(self)@ == old(self)@.advance(space_len(old(self).value@)),
            r.wf(),
            final(self).wf(),
    {
        let len = self.value.len();
        let mut n: usize = 0;
        loop
            invariant
                len == self.value@.len(),
                0 <= n <= len,
                space_end(self.value@, n as int) == space_len(self.value@),
                *self == *old(self),
            ensures
                n == space_len(self.value@),
            decreases len - n,
        {
            let width = self.space_width_at(n);
            if width == 0 {
                break ;
            }
            n = n + width;
        }
        self.split_to(n)
    }

    /// Splits off and returns the longest prefix that holds no byte of
    /// `class`. The run may be empty.
    pub fn take_till(&mut self, class: ByteClass) -> (r: TokenStream<'a>)
        requires
            old(self).wf(),
        ensures
            old(self)@.splits_into(r@, final(self)@),
            class.run_till(old(self).value@, r.value@.len() as int),
            r.value@.len() == class.run_len_till(old(self).value@),
            final(self)@ == old(self)@.advance(class.run_len_till(old(self).value@)),
            r.wf(),
            final(self).wf(),
    {
        let len = self.value.len();
        let mut n: usize = 0;
        while n < len && !class.contains(self.value[n])
            invariant
                len == self.value@.len(),
                0 <= n <= len,
                forall|i: int| 0 <= i < n ==> !class.accepts(#[trigger] self.value@[i]),
                *self == *old(self),
            decreases len - n,
        {
            n = n + 1;
        }
        proof {
            reveal(ByteClass::run_till);
            class.lemma_run_len_till(self.value@, n as int);
        }
        self.split_to(n)
    }
}

} // verus!
