use markdown_parser::{
    BlankLine, ControlFlow, IndentationFrom, IndentationTo, Kind, LineEnding, MarkDownError, Span,
    TokenStream, S, S1,
};

#[test]
fn test_s() {
    let mut input = TokenStream::new(0, "     \t");

    assert_eq!(S::parse(&mut input), Ok(S(TokenStream::new(0, "     \t"))));
}

#[test]
fn whitespace_run_stops_at_line_break() {
    let mut input = TokenStream::new(7, " \t \r\n");

    assert_eq!(S::parse(&mut input), Ok(S(TokenStream::new(7, " \t "))));
    assert_eq!(input, TokenStream::new(10, "\r\n"));
}

#[test]
fn whitespace_run_may_be_empty() {
    let mut input = TokenStream::new(2, "abc");

    assert_eq!(S::parse(&mut input), Ok(S(TokenStream::new(2, ""))));
    assert_eq!(input, TokenStream::new(2, "abc"));
}

#[test]
fn non_empty_whitespace_rejects_empty_run() {
    let mut input = TokenStream::new(2, "abc");

    assert_eq!(
        S1::parse(&mut input),
        Err(MarkDownError::Kind(Kind::S1, ControlFlow::Recoverable, Span::Range(2, 2)))
    );
    assert_eq!(input, TokenStream::new(2, "abc"));

    let mut input = TokenStream::new(0, "  abc");
    assert_eq!(S1::parse(&mut input), Ok(S1(TokenStream::new(0, "  "))));
    assert_eq!(input, TokenStream::new(2, "abc"));
}

#[test]
fn indentation_to_bounds_the_run() {
    let mut input = TokenStream::new(0, "   x");
    assert_eq!(
        IndentationTo::<3>::parse(&mut input),
        Ok(IndentationTo(TokenStream::new(0, "   ")))
    );

    let mut input = TokenStream::new(0, "    x");
    assert_eq!(
        IndentationTo::<3>::parse(&mut input),
        Err(MarkDownError::Kind(
            Kind::LeadingWhiteSpace,
            ControlFlow::Recoverable,
            Span::Range(0, 5)
        ))
    );
    assert_eq!(input, TokenStream::new(0, "    x"));
}

#[test]
fn indentation_from_wants_a_minimum() {
    let mut input = TokenStream::new(0, "    x");
    assert_eq!(
        IndentationFrom::<4>::parse(&mut input),
        Ok(IndentationFrom(TokenStream::new(0, "    ")))
    );

    let mut input = TokenStream::new(1, "   x");
    assert_eq!(
        IndentationFrom::<4>::parse(&mut input),
        Err(MarkDownError::Kind(
            Kind::LeadingWhiteSpace,
            ControlFlow::Recoverable,
            Span::Range(1, 5)
        ))
    );
}

#[test]
fn test_newline() {
    let mut input = TokenStream::new(0, "\n");

    assert_eq!(
        LineEnding::parse(&mut input),
        Ok(LineEnding::LF(TokenStream::new(0, "\n")))
    );

    let mut input = TokenStream::new(0, "\r\n");

    assert_eq!(
        LineEnding::parse(&mut input),
        Ok(LineEnding::CrLf(TokenStream::new(0, "\r\n")))
    );

    let mut input = TokenStream::new(0, "\r \n");

    assert_eq!(
        LineEnding::parse(&mut input),
        Err(MarkDownError::Kind(
            Kind::LineEnding,
            ControlFlow::Recoverable,
            Span::Range(0, 1)
        ))
    );
}

#[test]
fn blank_line_is_a_line_ending() {
    let mut input = TokenStream::new(4, "\r\nrest");
    assert_eq!(
        BlankLine::parse(&mut input),
        Ok(BlankLine(TokenStream::new(4, "\r\n")))
    );
    assert_eq!(input, TokenStream::new(6, "rest"));

    let mut input = TokenStream::new(4, "rest");
    assert_eq!(
        BlankLine::parse(&mut input),
        Err(MarkDownError::Kind(
            Kind::BlankLine,
            ControlFlow::Recoverable,
            Span::Range(4, 5)
        ))
    );
}

#[test]
fn indentation_counts_bytes() {
    // One character of three bytes fills an indentation of three.
    let mut input = TokenStream::new(0, "\u{2003}# x");
    assert_eq!(
        IndentationTo::<3>::parse(&mut input),
        Ok(IndentationTo(TokenStream::new(0, "\u{2003}")))
    );
    assert_eq!(input, TokenStream::new(3, "# x"));

    let mut input = TokenStream::new(0, " \u{2003}# x");
    assert_eq!(
        IndentationTo::<3>::parse(&mut input),
        Err(MarkDownError::Kind(
            Kind::LeadingWhiteSpace,
            ControlFlow::Recoverable,
            Span::Range(0, 7)
        ))
    );
    let mut input = TokenStream::new(0, " \u{2003}# x");
    assert_eq!(
        IndentationFrom::<4>::parse(&mut input),
        Ok(IndentationFrom(TokenStream::new(0, " \u{2003}")))
    );
}

#[test]
fn whole_starts_at_zero() {
    let mut input = TokenStream::whole("  x");
    assert_eq!(input, TokenStream::new(0, "  x"));
    assert_eq!(S::parse(&mut input), Ok(S(TokenStream::new(0, "  "))));
    assert_eq!(input, TokenStream::new(2, "x"));
}

#[test]
fn non_empty_whitespace_fails_under_its_own_kind() {
    let mut input = TokenStream::new(0, "a");
    assert_eq!(
        S1::parse(&mut input),
        Err(MarkDownError::Kind(Kind::S1, ControlFlow::Recoverable, Span::Range(0, 0)))
    );
    let mut input = TokenStream::new(3, "");
    assert_eq!(
        S1::parse(&mut input),
        Err(MarkDownError::Kind(Kind::S1, ControlFlow::Recoverable, Span::Range(3, 3)))
    );
    let mut input = TokenStream::new(3, "\n");
    assert_eq!(
        S1::parse(&mut input),
        Err(MarkDownError::Kind(Kind::S1, ControlFlow::Recoverable, Span::Range(3, 3)))
    );
}
