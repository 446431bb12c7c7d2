use markdown_parser::{
    ControlFlow, Fenced, FencedCodeBlock, IdentedChunk, IndentationFrom, IndentedBlankLine,
    IndentedCodeBlock, IndentedNonblankLine, Kind, LineEnding, MarkDownError, Span, TokenStream, S,
};

#[test]
fn test_blank_line() {
    assert_eq!(
        IndentedBlankLine::parse(&mut TokenStream::new(0, "\r\n")),
        Ok(IndentedBlankLine {
            leading_whitespaces: S(TokenStream::new(0, "")),
            line_ending: LineEnding::CrLf(TokenStream::new(0, "\r\n"))
        })
    );

    assert_eq!(
        IndentedBlankLine::parse(&mut TokenStream::new(0, " \r\n")),
        Ok(IndentedBlankLine {
            leading_whitespaces: S(TokenStream::new(0, " ")),
            line_ending: LineEnding::CrLf(TokenStream::new(1, "\r\n"))
        })
    );

    assert_eq!(
        IndentedBlankLine::parse(&mut TokenStream::new(0, "hello\r\n")),
        Err(MarkDownError::Kind(
            Kind::IdentationNonblankChunk,
            ControlFlow::Recoverable,
            Span::Range(0, 1)
        ))
    );
}

#[test]
fn test_nonblank_line() {
    assert_eq!(
        IndentedNonblankLine::parse(&mut TokenStream::new(0, "      helle world")),
        Ok(IndentedNonblankLine {
            identation: IndentationFrom(TokenStream::new(0, "      ")),
            content: TokenStream::new(6, "helle world"),
            line_ending: None,
        })
    );

    assert_eq!(
        IndentedNonblankLine::parse(&mut TokenStream::new(0, "    helle world\n")),
        Ok(IndentedNonblankLine {
            identation: IndentationFrom(TokenStream::new(0, "    ")),
            content: TokenStream::new(4, "helle world"),
            line_ending: Some(LineEnding::LF(TokenStream::new(15, "\n"))),
        })
    );

    assert_eq!(
        IndentedNonblankLine::parse(&mut TokenStream::new(0, "      \r\n")),
        Err(MarkDownError::Kind(
            Kind::IdentationNonblankChunk,
            ControlFlow::Recoverable,
            Span::Range(6, 8)
        ))
    );
}

#[test]
fn nonblank_line_failures() {
    assert_eq!(
        IndentedNonblankLine::parse(&mut TokenStream::new(0, "   x")),
        Err(MarkDownError::Kind(
            Kind::IdentationNonblankChunk,
            ControlFlow::Recoverable,
            Span::Range(0, 4)
        ))
    );
    assert_eq!(
        IndentedNonblankLine::parse(&mut TokenStream::new(0, "     ")),
        Err(MarkDownError::Kind(
            Kind::IdentationNonblankChunk,
            ControlFlow::Recoverable,
            Span::Range(5, 5)
        ))
    );
    assert_eq!(
        IndentedNonblankLine::parse(&mut TokenStream::new(0, "     \n")),
        Err(MarkDownError::Kind(
            Kind::IdentationNonblankChunk,
            ControlFlow::Recoverable,
            Span::Range(5, 6)
        ))
    );
}

#[test]
fn test_code_block() {
    assert_eq!(
        IndentedCodeBlock::parse(&mut TokenStream::new(0, "     helle world\n")),
        Ok(IndentedCodeBlock(vec![IdentedChunk::NonBlank(
            IndentedNonblankLine {
                identation: IndentationFrom(TokenStream::new(0, "     ")),
                content: TokenStream::new(5, "helle world"),
                line_ending: Some(LineEnding::LF(TokenStream::new(16, "\n")))
            }
        )]))
    );

    assert_eq!(
        IndentedCodeBlock::parse(&mut TokenStream::new(0, "     helle\n\n   \n    world")),
        Ok(IndentedCodeBlock(vec![
            IdentedChunk::NonBlank(IndentedNonblankLine {
                identation: IndentationFrom(TokenStream::new(0, "     ")),
                content: TokenStream::new(5, "helle"),
                line_ending: Some(LineEnding::LF(TokenStream::new(10, "\n")))
            }),
            IdentedChunk::Blank(IndentedBlankLine {
                leading_whitespaces: S(TokenStream::new(11, "")),
                line_ending: LineEnding::LF(TokenStream::new(11, "\n"))
            }),
            IdentedChunk::Blank(IndentedBlankLine {
                leading_whitespaces: S(TokenStream::new(12, "   ")),
                line_ending: LineEnding::LF(TokenStream::new(15, "\n"))
            }),
            IdentedChunk::NonBlank(IndentedNonblankLine {
                identation: IndentationFrom(TokenStream::new(16, "    ")),
                content: TokenStream::new(20, "world"),
                line_ending: None
            }),
        ])),
    );

    assert_eq!(
        IndentedCodeBlock::parse(&mut TokenStream::new(
            0,
            "     helle\n\n   \n    world\nworld"
        )),
        Ok(IndentedCodeBlock(vec![
            IdentedChunk::NonBlank(IndentedNonblankLine {
                identation: IndentationFrom(TokenStream::new(0, "     ")),
                content: TokenStream::new(5, "helle"),
                line_ending: Some(LineEnding::LF(TokenStream::new(10, "\n")))
            }),
            IdentedChunk::Blank(IndentedBlankLine {
                leading_whitespaces: S(TokenStream::new(11, "")),
                line_ending: LineEnding::LF(TokenStream::new(11, "\n"))
            }),
            IdentedChunk::Blank(IndentedBlankLine {
                leading_whitespaces: S(TokenStream::new(12, "   ")),
                line_ending: LineEnding::LF(TokenStream::new(15, "\n"))
            }),
            IdentedChunk::NonBlank(IndentedNonblankLine {
                identation: IndentationFrom(TokenStream::new(16, "    ")),
                content: TokenStream::new(20, "world"),
                line_ending: Some(LineEnding::LF(TokenStream::new(25, "\n")))
            }),
        ])),
    );
}

#[test]
fn indented_code_block_interleaving() {
    let source = "     hello\n\n   \n    world";
    let mut input = TokenStream::new(0, source);
    let block = IndentedCodeBlock::parse(&mut input).unwrap();

    assert_eq!(block.0.len(), 4);
    assert!(matches!(block.0[0], IdentedChunk::NonBlank(_)));
    assert!(matches!(block.0[1], IdentedChunk::Blank(_)));
    assert!(matches!(block.0[2], IdentedChunk::Blank(_)));
    assert!(matches!(block.0[3], IdentedChunk::NonBlank(_)));
    assert_eq!(block.0[0].to_span(), Span::Range(0, 11));
    assert_eq!(block.0[1].to_span(), Span::Range(11, 12));
    assert_eq!(block.0[2].to_span(), Span::Range(12, 16));
    assert_eq!(block.0[3].to_span(), Span::Range(16, 25));
    assert_eq!(block.to_span(), Span::Range(0, source.len()));
    assert_eq!(input, TokenStream::new(source.len(), ""));
}

#[test]
fn indented_code_block_wants_a_line() {
    let mut input = TokenStream::new(0, "  world\n");
    assert_eq!(
        IndentedCodeBlock::parse(&mut input),
        Err(MarkDownError::Kind(
            Kind::IdentationNonblankChunk,
            ControlFlow::Recoverable,
            Span::Range(2, 3)
        ))
    );
    assert_eq!(input, TokenStream::new(0, "  world\n"));

    // The block stops where a line is no indented line, and leaves it.
    let mut input = TokenStream::new(0, "    a\nb");
    let block = IndentedCodeBlock::parse(&mut input).unwrap();
    assert_eq!(block.0.len(), 1);
    assert_eq!(input, TokenStream::new(6, "b"));
}

#[test]
fn test_fenced_code_block() {
    assert_eq!(
        FencedCodeBlock::parse(&mut TokenStream::new(0, "~~~~\naaa\n~~~\n~~~~")),
        Ok(FencedCodeBlock {
            start: Fenced(TokenStream::new(0, "~~~~")),
            body: TokenStream::new(4, "\naaa\n~~~\n"),
            end: Some(Fenced(TokenStream::new(13, "~~~~")))
        })
    );

    assert_eq!(
        FencedCodeBlock::parse(&mut TokenStream::new(0, "~~~~\naaa\n~~~\n")),
        Ok(FencedCodeBlock {
            start: Fenced(TokenStream::new(0, "~~~~")),
            body: TokenStream::new(4, "\naaa\n~~~\n"),
            end: None
        })
    );
}

#[test]
fn fenced_code_unterminated_takes_the_rest() {
    let source = "~~~~\naaa\n~~~\n";
    let mut input = TokenStream::new(0, source);
    let block = FencedCodeBlock::parse(&mut input).unwrap();

    assert_eq!(block.body, TokenStream::new(4, "\naaa\n~~~\n"));
    assert_eq!(block.end, None);
    assert_eq!(block.to_span(), Span::Range(0, source.len()));
    assert_eq!(input, TokenStream::new(source.len(), ""));
}

#[test]
fn fence_wants_three() {
    assert_eq!(
        Fenced::parse(&mut TokenStream::new(0, "```rust")),
        Ok(Fenced(TokenStream::new(0, "```")))
    );
    assert_eq!(
        Fenced::parse(&mut TokenStream::new(2, "~~ ~")),
        Err(MarkDownError::Kind(
            Kind::FencedCodeBlock,
            ControlFlow::Recoverable,
            Span::Range(2, 4)
        ))
    );
    assert_eq!(
        Fenced::parse(&mut TokenStream::new(2, "``~")),
        Err(MarkDownError::Kind(
            Kind::FencedCodeBlock,
            ControlFlow::Recoverable,
            Span::Range(2, 4)
        ))
    );
    assert_eq!(
        Fenced::parse(&mut TokenStream::new(2, "abc")),
        Err(MarkDownError::Kind(
            Kind::FencedCodeBlock,
            ControlFlow::Recoverable,
            Span::Range(2, 3)
        ))
    );
    assert_eq!(
        Fenced::parse(&mut TokenStream::new(2, "")),
        Err(MarkDownError::Kind(
            Kind::FencedCodeBlock,
            ControlFlow::Recoverable,
            Span::Range(2, 2)
        ))
    );
}

#[test]
fn fence_of_another_length_is_fatal() {
    let mut input = TokenStream::new(0, "```\ncode\n`````\n");
    assert_eq!(
        FencedCodeBlock::parse(&mut input),
        Err(MarkDownError::Kind(
            Kind::FencedCodeBlock,
            ControlFlow::Fatal,
            Span::Range(9, 14)
        ))
    );
    assert_eq!(input, TokenStream::new(0, "```\ncode\n`````\n"));

    // A fence of the other character does not close the block.
    let mut input = TokenStream::new(0, "```\ncode\n~~~\n");
    let block = FencedCodeBlock::parse(&mut input).unwrap();
    assert_eq!(block.end, None);

    let mut input = TokenStream::new(0, "```\ncode\n```tail");
    let block = FencedCodeBlock::parse(&mut input).unwrap();
    assert_eq!(block.body, TokenStream::new(3, "\ncode\n"));
    assert_eq!(block.end, Some(Fenced(TokenStream::new(9, "```"))));
    assert_eq!(input, TokenStream::new(12, "tail"));
}
