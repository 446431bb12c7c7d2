use markdown_parser::combinator::{keyword, next, next_if, ok, or, starts_with, take_until};
use markdown_parser::{ByteClass, ControlFlow, Kind, MarkDownError, Span, TokenStream, S1};

fn recoverable(start: usize, end: usize) -> MarkDownError {
    MarkDownError::Other(ControlFlow::Recoverable, Span::Range(start, end))
}

fn take_a<'a>(input: &mut TokenStream<'a>) -> Result<TokenStream<'a>, MarkDownError> {
    next(input, b'a')
}

fn take_b<'a>(input: &mut TokenStream<'a>) -> Result<TokenStream<'a>, MarkDownError> {
    next(input, b'b')
}

/// Consumes one byte and then fails recoverably.
fn eat_then_fail<'a>(input: &mut TokenStream<'a>) -> Result<TokenStream<'a>, MarkDownError> {
    input.split_to(1);
    Err(MarkDownError::Kind(
        Kind::S,
        ControlFlow::Recoverable,
        input.to_span(),
    ))
}

/// Consumes one byte and then fails fatally.
fn eat_then_abort<'a>(input: &mut TokenStream<'a>) -> Result<TokenStream<'a>, MarkDownError> {
    input.split_to(1);
    Err(MarkDownError::Kind(
        Kind::Entity,
        ControlFlow::Fatal,
        input.to_span(),
    ))
}

#[test]
fn span_union_covers_both() {
    assert_eq!(
        Span::Range(1, 14).union(&Span::Range(13, 18)),
        Span::Range(1, 18)
    );
    assert_eq!(
        Span::Range(4, 14).union(&Span::Range(3, 4)),
        Span::Range(3, 14)
    );
    assert_eq!(Span::Unknown.union(&Span::Range(3, 4)), Span::Range(3, 4));
    assert_eq!(Span::Range(3, 4).union(&Span::Unknown), Span::Range(3, 4));
    assert_eq!(Span::Unknown.union(&Span::Unknown), Span::Unknown);
    assert_eq!(
        Span::Range(3, 9).union(&Span::RangeFrom(5)),
        Span::RangeFrom(3)
    );
    assert_eq!(Span::RangeTo(18).union(&Span::RangeTo(14)), Span::RangeTo(18));
    assert_eq!(Span::RangeTo(8).union(&Span::Range(2, 14)), Span::RangeTo(14));
    assert_eq!(Span::RangeTo(8).union(&Span::RangeFrom(2)), Span::RangeFull);
    assert_eq!(Span::RangeFull.union(&Span::Range(2, 3)), Span::RangeFull);
}

#[test]
fn span_union_is_associative_on_a_sample() {
    let spans = [
        Span::Unknown,
        Span::Range(2, 5),
        Span::Range(4, 9),
        Span::Range(7, 7),
        Span::RangeFrom(3),
        Span::RangeTo(6),
        Span::RangeFull,
    ];
    for a in spans {
        for b in spans {
            assert_eq!(a.union(&b), b.union(&a));
            for c in spans {
                assert_eq!(a.union(&b).union(&c), a.union(&b.union(&c)));
            }
        }
    }
}

#[test]
fn split_to_returns_the_prefix_and_moves_the_rest() {
    let mut input = TokenStream::new(5, "abcd");
    let prefix = input.split_to(2);

    assert_eq!(prefix, TokenStream::new(5, "ab"));
    assert_eq!(prefix.start(), 5);
    assert_eq!(prefix.end(), 7);
    assert_eq!(input, TokenStream::new(7, "cd"));
    assert_eq!(input.end(), 9);
    assert_eq!(
        prefix.to_span().union(&input.to_span()),
        TokenStream::new(5, "abcd").to_span()
    );
}

#[test]
fn split_off_keeps_the_prefix() {
    let mut input = TokenStream::new(5, "abcd");
    let suffix = input.split_off(2);

    assert_eq!(input, TokenStream::new(5, "ab"));
    assert_eq!(suffix, TokenStream::new(7, "cd"));
    assert_eq!(input.end(), suffix.start());

    let mut input = TokenStream::new(5, "abcd");
    assert_eq!(input.split_off(0), TokenStream::new(5, "abcd"));
    assert_eq!(input, TokenStream::new(5, ""));
    assert!(input.is_empty());
}

#[test]
fn streams_report_their_place() {
    let input = TokenStream::from_bytes(5, b"abc");
    assert_eq!(input.len(), 3);
    assert_eq!(input.first(), Some(b'a'));
    assert_eq!(input.to_span(), Span::Range(5, 8));
    assert_eq!(input.to_span_at(0), Span::Range(5, 5));
    assert_eq!(input.to_span_at(2), Span::Range(5, 7));
    assert_eq!(input.to_span_at(9), Span::Range(5, 8));
    assert_eq!(TokenStream::new(1, "").first(), None);
    assert_eq!(TokenStream::new(0, "é"), TokenStream::from_bytes(0, &[0xc3, 0xa9]));
}

#[test]
fn take_while_takes_the_longest_run() {
    let mut input = TokenStream::new(0, "aaab");
    assert_eq!(
        input.take_while(ByteClass::Byte(b'a')),
        TokenStream::new(0, "aaa")
    );
    assert_eq!(input, TokenStream::new(3, "b"));

    let mut input = TokenStream::new(0, "abc");
    assert_eq!(
        input.take_while(ByteClass::Byte(b'x')),
        TokenStream::new(0, "")
    );
    assert_eq!(input, TokenStream::new(0, "abc"));

    let mut input = TokenStream::new(0, "hello\r\nworld");
    assert_eq!(
        input.take_till(ByteClass::LineBreak),
        TokenStream::new(0, "hello")
    );
    assert_eq!(input, TokenStream::new(5, "\r\nworld"));

    let mut input = TokenStream::new(0, "abc");
    assert_eq!(
        input.take_till(ByteClass::LineBreak),
        TokenStream::new(0, "abc")
    );
    assert!(input.is_empty());
}

#[test]
fn byte_classes() {
    for b in [b'\n', b'\r'] {
        assert!(ByteClass::LineBreak.contains(b));
    }
    for b in [b' ', b'\t', 0x0b, 0x0c, b'a', b'#', 0x00, 0x1f, 0x85, 0xa0, 0xff] {
        assert!(!ByteClass::LineBreak.contains(b));
    }
    assert!(ByteClass::Byte(b'#').contains(b'#'));
    assert!(!ByteClass::Byte(b'#').contains(b'*'));
}

#[test]
fn whitespace_is_what_char_calls_whitespace() {
    // Every character but the two line breaks is whitespace to the parser
    // exactly when it is whitespace to `char`, whatever follows it.
    let mut buffer = [0u8; 5];
    for code in 0u32..=0x10ffff {
        let Some(c) = char::from_u32(code) else {
            continue;
        };
        let expected = if c.is_whitespace() && c != '\n' && c != '\r' {
            c.len_utf8()
        } else {
            0
        };
        let len = c.encode_utf8(&mut buffer).len();
        let input = TokenStream::from_bytes(0, &buffer[..len]);
        assert_eq!(input.space_width_at(0), expected, "U+{:04X}", code);

        buffer[len] = b'x';
        let mut input = TokenStream::from_bytes(0, &buffer[..len + 1]);
        assert_eq!(input.take_space().len(), expected, "U+{:04X}", code);
    }
}

#[test]
fn whitespace_runs_may_mix_widths() {
    let text = " \u{a0}\t\u{3000}\u{2003}x";
    let mut input = TokenStream::new(2, text);
    let run = input.take_space();
    assert_eq!(run, TokenStream::new(2, " \u{a0}\t\u{3000}\u{2003}"));
    assert_eq!(run.len(), 10);
    assert_eq!(input, TokenStream::new(12, "x"));

    // A character cut short is no whitespace.
    let mut input = TokenStream::from_bytes(0, &[0xe2, 0x80]);
    assert_eq!(input.take_space().len(), 0);
    let mut input = TokenStream::from_bytes(0, &[0x20, 0xc2]);
    assert_eq!(input.take_space().len(), 1);
    assert_eq!(input.space_width_at(1), 0);
}

#[test]
fn next_matches_one_byte() {
    let mut input = TokenStream::new(0, "abc");
    assert_eq!(next(&mut input, b'a'), Ok(TokenStream::new(0, "a")));
    assert_eq!(input, TokenStream::new(1, "bc"));

    assert_eq!(next(&mut input, b'x'), Err(recoverable(1, 2)));
    assert_eq!(input, TokenStream::new(1, "bc"));

    let mut input = TokenStream::new(4, "");
    assert_eq!(next(&mut input, b'a'), Err(recoverable(4, 4)));

    let mut input = TokenStream::new(0, "\rx");
    assert_eq!(
        next_if(&mut input, ByteClass::LineBreak),
        Ok(TokenStream::new(0, "\r"))
    );
    assert_eq!(
        next_if(&mut input, ByteClass::LineBreak),
        Err(recoverable(1, 2))
    );
}

#[test]
fn keyword_matches_a_prefix() {
    let mut input = TokenStream::new(0, "if x");
    assert!(starts_with(&input, b"if"));
    assert!(!starts_with(&input, b"iff"));
    assert!(starts_with(&input, b""));
    assert_eq!(keyword(&mut input, b"if"), Ok(TokenStream::new(0, "if")));
    assert_eq!(input, TokenStream::new(2, " x"));

    let mut input = TokenStream::new(0, "let");
    assert_eq!(keyword(&mut input, b"if"), Err(recoverable(0, 2)));
    assert_eq!(input, TokenStream::new(0, "let"));

    let mut input = TokenStream::new(0, "i");
    assert_eq!(keyword(&mut input, b"if"), Err(recoverable(0, 1)));
}

#[test]
fn take_until_stops_before_the_needle() {
    let mut input = TokenStream::new(0, "hello world");
    assert_eq!(
        take_until(&mut input, b"world"),
        Ok(TokenStream::new(0, "hello "))
    );
    assert_eq!(input, TokenStream::new(6, "world"));

    let mut input = TokenStream::new(3, "abcabc");
    assert_eq!(take_until(&mut input, b"bc"), Ok(TokenStream::new(3, "a")));

    let mut input = TokenStream::new(0, "abc");
    assert_eq!(take_until(&mut input, b"abc"), Ok(TokenStream::new(0, "")));
    assert_eq!(input, TokenStream::new(0, "abc"));

    let mut input = TokenStream::new(2, "hello");
    assert_eq!(take_until(&mut input, b"world"), Err(recoverable(2, 2)));
    assert_eq!(input, TokenStream::new(2, "hello"));

    let mut input = TokenStream::new(2, "ab");
    assert_eq!(take_until(&mut input, b"abc"), Err(recoverable(2, 2)));
}

#[test]
fn or_prefers_the_first_branch() {
    let mut input = TokenStream::new(0, "ab");
    assert_eq!(
        or(&mut input, take_a, eat_then_fail),
        Ok(TokenStream::new(0, "a"))
    );
    assert_eq!(input, TokenStream::new(1, "b"));
}

#[test]
fn or_leaves_no_trace_of_a_failed_branch() {
    // The first branch consumes `a` before it fails; the second still sees it.
    let mut input = TokenStream::new(0, "ab");
    assert_eq!(
        or(&mut input, eat_then_fail, take_a),
        Ok(TokenStream::new(0, "a"))
    );
    assert_eq!(input, TokenStream::new(1, "b"));

    let mut input = TokenStream::new(0, "ba");
    assert_eq!(
        or(&mut input, take_a, take_b),
        Ok(TokenStream::new(0, "b"))
    );
    assert_eq!(input, TokenStream::new(1, "a"));
}

#[test]
fn or_stops_at_a_fatal_failure() {
    let mut input = TokenStream::new(0, "ab");
    assert_eq!(
        or(&mut input, eat_then_abort, take_a),
        Err(MarkDownError::Kind(
            Kind::Entity,
            ControlFlow::Fatal,
            Span::Range(1, 2)
        ))
    );
    assert_eq!(input, TokenStream::new(0, "ab"));
}

#[test]
fn or_fails_with_the_last_branch() {
    let mut input = TokenStream::new(0, "xy");
    assert_eq!(
        or(&mut input, eat_then_fail, take_b),
        Err(recoverable(0, 1))
    );
    assert_eq!(input, TokenStream::new(0, "xy"));

    let mut input = TokenStream::new(0, "xy");
    assert_eq!(
        or(&mut input, take_a, eat_then_abort),
        Err(MarkDownError::Kind(
            Kind::Entity,
            ControlFlow::Fatal,
            Span::Range(1, 2)
        ))
    );
    assert_eq!(input, TokenStream::new(0, "xy"));
}

#[test]
fn ok_turns_a_recoverable_failure_into_none() {
    let mut input = TokenStream::new(0, "ab");
    assert_eq!(ok(&mut input, take_a), Ok(Some(TokenStream::new(0, "a"))));
    assert_eq!(input, TokenStream::new(1, "b"));

    assert_eq!(ok(&mut input, eat_then_fail), Ok(None));
    assert_eq!(input, TokenStream::new(1, "b"));

    assert_eq!(
        ok(&mut input, eat_then_abort),
        Err(MarkDownError::Kind(
            Kind::Entity,
            ControlFlow::Fatal,
            Span::Range(2, 2)
        ))
    );
    assert_eq!(input, TokenStream::new(1, "b"));

    let mut input = TokenStream::new(0, "x");
    assert_eq!(S1::parse_optional(&mut input), None);
    assert_eq!(input, TokenStream::new(0, "x"));
}

#[test]
fn errors_keep_their_place() {
    let inner = MarkDownError::Other(ControlFlow::Recoverable, Span::Range(3, 4));
    assert_eq!(inner.control_flow(), ControlFlow::Recoverable);
    assert_eq!(inner.span(), Span::Range(3, 4));
    assert!(!inner.is_fatal());

    let filed = Kind::BlankLine.map(inner);
    assert_eq!(
        filed,
        MarkDownError::Kind(
            Kind::BlankLine,
            ControlFlow::Recoverable,
            Span::Range(3, 4)
        )
    );
    assert_eq!(
        filed.into_fatal(),
        MarkDownError::Kind(Kind::BlankLine, ControlFlow::Fatal, Span::Range(3, 4))
    );
    assert!(filed.into_fatal().is_fatal());
    assert_eq!(
        inner.into_fatal(),
        MarkDownError::Other(ControlFlow::Fatal, Span::Range(3, 4))
    );
    assert_eq!(
        Kind::Entity.map(filed.into_fatal()),
        MarkDownError::Kind(Kind::Entity, ControlFlow::Fatal, Span::Range(3, 4))
    );
}
