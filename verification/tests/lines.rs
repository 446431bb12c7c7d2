use markdown_parser::{
    ControlFlow, HeadingLine, IdentWhiteSpaces, IndentationTo, Kind, LeadingPounds,
    LeadingWhiteSpace, LineEnding, MarkDownError, Span, ThematicBreaksLine, ThematicChars,
    TokenStream, S,
};

#[test]
fn test_thematic_breaks_line() {
    let mut input = TokenStream::new(0, "   ******   \r\n");

    assert_eq!(
        ThematicBreaksLine::parse(&mut input),
        Ok(ThematicBreaksLine {
            leading_whitespaces: IndentationTo(TokenStream::new(0, "   ")),
            horizon: ThematicChars::Stars(TokenStream::new(3, "******")),
            trailing_whitespaces: S(TokenStream::new(9, "   ")),
            new_line: Some(LineEnding::CrLf(TokenStream::new(12, "\r\n")))
        })
    );

    let mut input = TokenStream::new(0, "    ******   \r\n");

    assert_eq!(
        ThematicBreaksLine::parse(&mut input),
        Err(MarkDownError::Kind(
            Kind::LeadingWhiteSpace,
            ControlFlow::Recoverable,
            Span::Range(0, 15),
        ))
    );
}

#[test]
fn thematic_breaks_line_covers_what_it_takes() {
    let mut input = TokenStream::new(0, "___\nabc");
    let line = ThematicBreaksLine::parse(&mut input).unwrap();
    assert_eq!(line.to_span(), Span::Range(0, 4));
    assert_eq!(input, TokenStream::new(4, "abc"));

    let mut input = TokenStream::new(0, " --");
    assert_eq!(
        ThematicBreaksLine::parse(&mut input),
        Err(MarkDownError::Kind(
            Kind::Thematic,
            ControlFlow::Recoverable,
            Span::Range(1, 3),
        ))
    );
    assert_eq!(input, TokenStream::new(0, " --"));
}

#[test]
fn test_horizon() {
    let mut input = TokenStream::new(0, "***");

    assert_eq!(
        ThematicChars::horizon(&mut input),
        Ok(ThematicChars::Stars(TokenStream::new(0, "***")))
    );

    let mut input = TokenStream::new(0, "**");

    assert_eq!(
        ThematicChars::horizon(&mut input),
        Err(MarkDownError::Kind(
            Kind::Thematic,
            ControlFlow::Recoverable,
            Span::Range(0, 2)
        ))
    );
}

#[test]
fn horizon_wants_a_thematic_character() {
    let mut input = TokenStream::new(3, "abc");
    assert_eq!(
        ThematicChars::horizon(&mut input),
        Err(MarkDownError::Kind(
            Kind::Thematic,
            ControlFlow::Recoverable,
            Span::Range(3, 4)
        ))
    );
    let mut input = TokenStream::new(3, "---***");
    assert_eq!(
        ThematicChars::horizon(&mut input),
        Ok(ThematicChars::Minus(TokenStream::new(3, "---")))
    );
    assert_eq!(input, TokenStream::new(6, "***"));
}

#[test]
fn test_leading_pounds() {
    for i in 1..6 {
        let code = "#".repeat(i);

        assert_eq!(
            LeadingPounds::parse(&mut TokenStream::new(0, code.as_str())),
            Ok(LeadingPounds(TokenStream::new(0, code.as_str())))
        );
    }

    assert_eq!(
        LeadingPounds::parse(&mut TokenStream::new(0, "  ")),
        Err(MarkDownError::Kind(
            Kind::LeadingPounds,
            ControlFlow::Recoverable,
            Span::Range(0, 0),
        ))
    );

    assert_eq!(
        LeadingPounds::parse(&mut TokenStream::new(0, "#######")),
        Err(MarkDownError::Kind(
            Kind::LeadingPounds,
            ControlFlow::Recoverable,
            Span::Range(0, 7),
        ))
    );
}

#[test]
fn six_leading_pounds_are_too_many() {
    let mut input = TokenStream::new(2, "###### x");
    assert_eq!(
        LeadingPounds::parse(&mut input),
        Err(MarkDownError::Kind(
            Kind::LeadingPounds,
            ControlFlow::Recoverable,
            Span::Range(2, 8),
        ))
    );
    assert_eq!(input, TokenStream::new(2, "###### x"));
}

#[test]
fn heading_line_takes_its_parts_in_order() {
    let mut input = TokenStream::new(0, "     ##  \nrest");
    assert_eq!(
        HeadingLine::parse(&mut input),
        Ok(HeadingLine {
            leading_whitespaces: IndentationTo(TokenStream::new(0, "     ")),
            leading_pounds: LeadingPounds(TokenStream::new(5, "##")),
            trailing_whitespaces: S(TokenStream::new(7, "  ")),
            new_line: Some(LineEnding::LF(TokenStream::new(9, "\n")))
        })
    );
    assert_eq!(input, TokenStream::new(10, "rest"));

    let mut input = TokenStream::new(0, "# title");
    let line = HeadingLine::parse(&mut input).unwrap();
    assert_eq!(line.new_line, None);
    assert_eq!(line.to_span(), Span::Range(0, 2));
    assert_eq!(input, TokenStream::new(2, "title"));

    assert_eq!(
        HeadingLine::parse(&mut TokenStream::new(0, "      #")),
        Err(MarkDownError::Kind(
            Kind::LeadingWhiteSpace,
            ControlFlow::Recoverable,
            Span::Range(0, 7),
        ))
    );
    assert_eq!(
        HeadingLine::parse(&mut TokenStream::new(0, " x")),
        Err(MarkDownError::Kind(
            Kind::LeadingPounds,
            ControlFlow::Recoverable,
            Span::Range(1, 1),
        ))
    );
}

#[test]
fn leading_whitespace_names_the_same_indentation() {
    let mut input = TokenStream::new(0, "  x");
    assert_eq!(
        IdentWhiteSpaces::<3>::parse(&mut input),
        Ok(IndentationTo(TokenStream::new(0, "  ")))
    );
    let mut input = TokenStream::new(0, "  x");
    assert_eq!(
        LeadingWhiteSpace::<1>::parse(&mut input),
        Err(MarkDownError::Kind(
            Kind::LeadingWhiteSpace,
            ControlFlow::Recoverable,
            Span::Range(0, 3),
        ))
    );
}
