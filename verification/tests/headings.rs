use markdown_parser::{
    ATXHeading, ControlFlow, IndentationTo, Kind, LineEnding, MarkDownError, Span, TokenStream,
};

#[test]
fn test_atx_heading() {
    assert_eq!(
        ATXHeading::parse(&mut TokenStream::new(0, " ###### hello world\r\n")),
        Ok(ATXHeading {
            ident_whitespaces: IndentationTo(TokenStream::new(0, " ")),
            leading_pounds: TokenStream::new(1, "######"),
            seperate: TokenStream::new(7, " "),
            content: TokenStream::new(8, "hello world"),
            line_ending: Some(LineEnding::CrLf(TokenStream::new(19, "\r\n")))
        })
    );

    assert_eq!(
        ATXHeading::parse(&mut TokenStream::new(0, "###### hello world ")),
        Ok(ATXHeading {
            ident_whitespaces: IndentationTo(TokenStream::new(0, "")),
            leading_pounds: TokenStream::new(0, "######"),
            seperate: TokenStream::new(6, " "),
            content: TokenStream::new(7, "hello world "),
            line_ending: None
        })
    );

    assert_eq!(
        ATXHeading::parse(&mut TokenStream::new(0, "   # ")),
        Ok(ATXHeading {
            ident_whitespaces: IndentationTo(TokenStream::new(0, "   ")),
            leading_pounds: TokenStream::new(3, "#"),
            seperate: TokenStream::new(4, " "),
            content: TokenStream::new(5, ""),
            line_ending: None
        })
    );

    assert_eq!(
        ATXHeading::parse(&mut TokenStream::new(0, "   #")),
        Err(MarkDownError::Kind(
            Kind::ATXHeading,
            ControlFlow::Recoverable,
            Span::Range(4, 4)
        ))
    );
}

fn heading_error(start: usize, end: usize) -> Result<ATXHeading<'static>, MarkDownError> {
    Err(MarkDownError::Kind(
        Kind::ATXHeading,
        ControlFlow::Recoverable,
        Span::Range(start, end),
    ))
}

#[test]
fn atx_heading_bounds() {
    for pounds in ["#", "##", "###", "####", "#####", "######"] {
        let text = format!("{} x", pounds);
        let mut input = TokenStream::new(0, text.as_str());
        let node = ATXHeading::parse(&mut input).unwrap();
        assert_eq!(node.leading_pounds, TokenStream::new(0, pounds));
        assert_eq!(node.seperate, TokenStream::new(pounds.len(), " "));
        assert_eq!(node.content, TokenStream::new(pounds.len() + 1, "x"));
        assert_eq!(node.to_span(), Span::Range(0, text.len()));
        assert_eq!(input, TokenStream::new(text.len(), ""));
    }

    assert_eq!(
        ATXHeading::parse(&mut TokenStream::new(0, "#######")),
        heading_error(0, 7)
    );
    assert_eq!(
        ATXHeading::parse(&mut TokenStream::new(0, " ####### x")),
        heading_error(1, 10)
    );
    assert_eq!(
        ATXHeading::parse(&mut TokenStream::new(0, "#foo")),
        heading_error(1, 1)
    );
}

#[test]
fn atx_heading_failures() {
    // No `#` at all.
    assert_eq!(
        ATXHeading::parse(&mut TokenStream::new(0, "  foo")),
        heading_error(2, 3)
    );
    assert_eq!(
        ATXHeading::parse(&mut TokenStream::new(0, "  ")),
        heading_error(2, 2)
    );
    // Too much indentation.
    let mut input = TokenStream::new(0, "    # foo");
    assert_eq!(ATXHeading::parse(&mut input), heading_error(0, 9));
    assert_eq!(input, TokenStream::new(0, "    # foo"));
}

#[test]
fn atx_heading_content_needs_a_separator() {
    // A line ending further on does not stand in for the separator.
    let mut input = TokenStream::new(0, "#foo\nbar");
    assert_eq!(ATXHeading::parse(&mut input), heading_error(1, 1));
    assert_eq!(input, TokenStream::new(0, "#foo\nbar"));
    assert_eq!(
        ATXHeading::parse(&mut TokenStream::new(0, "#foo\n"))
            .unwrap_err()
            .control_flow(),
        ControlFlow::Recoverable
    );
    assert_eq!(
        ATXHeading::parse(&mut TokenStream::new(0, "  ###x \r\n")),
        heading_error(5, 5)
    );
    assert_eq!(
        ATXHeading::parse(&mut TokenStream::new(0, "#\rfoo\n")),
        heading_error(1, 1)
    );
}

#[test]
fn atx_heading_may_end_right_after_the_pounds() {
    let mut input = TokenStream::new(0, "##\nbar");
    assert_eq!(
        ATXHeading::parse(&mut input),
        Ok(ATXHeading {
            ident_whitespaces: IndentationTo(TokenStream::new(0, "")),
            leading_pounds: TokenStream::new(0, "##"),
            seperate: TokenStream::new(2, ""),
            content: TokenStream::new(2, ""),
            line_ending: Some(LineEnding::LF(TokenStream::new(2, "\n")))
        })
    );
    assert_eq!(input, TokenStream::new(3, "bar"));

    let mut input = TokenStream::new(0, " #\r\n");
    let node = ATXHeading::parse(&mut input).unwrap();
    assert_eq!(node.content, TokenStream::new(2, ""));
    assert_eq!(
        node.line_ending,
        Some(LineEnding::CrLf(TokenStream::new(2, "\r\n")))
    );
    assert_eq!(node.to_span(), Span::Range(0, 4));

    // With a separator the content may be empty at the end of the input
    // and before a line ending alike.
    let mut input = TokenStream::new(0, "# \n");
    let node = ATXHeading::parse(&mut input).unwrap();
    assert_eq!(node.seperate, TokenStream::new(1, " "));
    assert_eq!(node.content, TokenStream::new(2, ""));
    assert_eq!(node.to_span(), Span::Range(0, 3));
}

#[test]
fn atx_heading_separator_may_be_wide() {
    let mut input = TokenStream::new(0, "#\u{a0}title\n");
    let node = ATXHeading::parse(&mut input).unwrap();
    assert_eq!(node.seperate, TokenStream::new(1, "\u{a0}"));
    assert_eq!(node.content, TokenStream::new(3, "title"));
    assert_eq!(node.to_span(), Span::Range(0, 9));

    // Without a line ending the separator is needed, and a letter is none.
    assert_eq!(
        ATXHeading::parse(&mut TokenStream::new(0, "#\u{e9}")),
        heading_error(1, 1)
    );
}
