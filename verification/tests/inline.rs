use markdown_parser::entity::{is_known, MAX_ENTITY_LEN};
use markdown_parser::{ControlFlow, Entity, Escaped, Kind, MarkDownError, Span, TokenStream};

#[test]
fn test_escaped() {
    assert_eq!(
        Escaped::parse(&mut TokenStream::new(0, r#"\["#)),
        Ok(Escaped::Square(TokenStream::new(0, r#"\["#)))
    );

    assert_eq!(
        Escaped::parse(&mut TokenStream::new(0, r#"\*"#)),
        Ok(Escaped::Star(TokenStream::new(0, r#"\*"#)))
    );

    assert_eq!(
        Escaped::parse(&mut TokenStream::new(0, r#"\<"#)),
        Ok(Escaped::Lt(TokenStream::new(0, r#"\<"#)))
    );

    assert_eq!(
        Escaped::parse(&mut TokenStream::new(0, r#"\`"#)),
        Ok(Escaped::Backtick(TokenStream::new(0, r#"\`"#)))
    );

    assert_eq!(
        Escaped::parse(&mut TokenStream::new(0, r#"\\"#)),
        Ok(Escaped::Backslash(TokenStream::new(0, r#"\\"#)))
    );

    assert_eq!(
        Escaped::parse(&mut TokenStream::new(0, r#"\#"#)),
        Ok(Escaped::Pound(TokenStream::new(0, r#"\#"#)))
    );

    assert_eq!(
        Escaped::parse(&mut TokenStream::new(0, r#"\."#)),
        Ok(Escaped::Dot(TokenStream::new(0, r#"\."#)))
    );

    assert_eq!(
        Escaped::parse(&mut TokenStream::new(0, r#"\&"#)),
        Ok(Escaped::And(TokenStream::new(0, r#"\&"#)))
    );

    assert_eq!(
        Escaped::parse(&mut TokenStream::new(0, "\\\n")),
        Ok(Escaped::HardlineBreak(TokenStream::new(0, "\\\n")))
    );

    assert_eq!(
        Escaped::parse(&mut TokenStream::new(0, "\\\r\n")),
        Ok(Escaped::HardlineBreak(TokenStream::new(0, "\\\r\n")))
    );
}

#[test]
fn escape_leaves_the_rest() {
    let mut input = TokenStream::new(3, "\\*abc");
    let node = Escaped::parse(&mut input).unwrap();

    assert_eq!(node, Escaped::Star(TokenStream::new(3, "\\*")));
    assert_eq!(node.to_span(), Span::Range(3, 5));
    assert_eq!(input, TokenStream::new(5, "abc"));
}

#[test]
fn lone_backslash_is_recoverable() {
    let mut input = TokenStream::new(2, "\\a");
    assert_eq!(
        Escaped::parse(&mut input),
        Err(MarkDownError::Kind(
            Kind::Escaped,
            ControlFlow::Recoverable,
            Span::Range(2, 4)
        ))
    );
    assert_eq!(input, TokenStream::new(2, "\\a"));

    let mut input = TokenStream::new(2, "\\");
    assert_eq!(
        Escaped::parse(&mut input),
        Err(MarkDownError::Kind(
            Kind::Escaped,
            ControlFlow::Recoverable,
            Span::Range(2, 3)
        ))
    );

    let mut input = TokenStream::new(2, "\\\r");
    assert_eq!(
        Escaped::parse(&mut input),
        Err(MarkDownError::Kind(
            Kind::Escaped,
            ControlFlow::Recoverable,
            Span::Range(2, 4)
        ))
    );
}

#[test]
fn escape_wants_a_backslash() {
    let mut input = TokenStream::new(0, "*");
    assert_eq!(
        Escaped::parse(&mut input),
        Err(MarkDownError::Kind(
            Kind::Escaped,
            ControlFlow::Recoverable,
            Span::Range(0, 1)
        ))
    );

    let mut input = TokenStream::new(5, "");
    assert_eq!(
        Escaped::parse(&mut input),
        Err(MarkDownError::Kind(
            Kind::Escaped,
            ControlFlow::Recoverable,
            Span::Range(5, 5)
        ))
    );
}

#[test]
fn test_entities() {
    assert_eq!(
        Entity::parse(&mut TokenStream::new(0, "&amp;")),
        Ok(Entity(TokenStream::new(0, "&amp;")))
    );

    let input = format!("&{};", "a".repeat(MAX_ENTITY_LEN));

    assert_eq!(
        Entity::parse(&mut TokenStream::new(0, input.as_str())),
        Err(MarkDownError::Kind(
            Kind::Entity,
            ControlFlow::Fatal,
            Span::Range(0, 100)
        ))
    );

    assert_eq!(
        Entity::parse(&mut TokenStream::new(0, "&amp")),
        Err(MarkDownError::Kind(
            Kind::Entity,
            ControlFlow::Fatal,
            Span::Range(0, 4)
        ))
    );

    assert_eq!(
        Entity::parse(&mut TokenStream::new(0, "amp")),
        Err(MarkDownError::Kind(
            Kind::Entity,
            ControlFlow::Recoverable,
            Span::Range(0, 1)
        ))
    );

    assert_eq!(
        Entity::parse(&mut TokenStream::new(0, "&abc;")),
        Err(MarkDownError::Kind(
            Kind::Entity,
            ControlFlow::Fatal,
            Span::Range(0, 5)
        ))
    );
}

#[test]
fn entity_takes_up_to_the_first_semicolon() {
    let mut input = TokenStream::new(10, "&lt;&gt;tail");
    assert_eq!(
        Entity::parse(&mut input),
        Ok(Entity(TokenStream::new(10, "&lt;")))
    );
    assert_eq!(input, TokenStream::new(14, "&gt;tail"));
}

#[test]
fn entity_semicolon_at_the_cap() {
    // The `;` stands at index 100: still looked at, and the name is unknown.
    let input = format!("&{};", "a".repeat(99));
    assert_eq!(
        Entity::parse(&mut TokenStream::new(0, input.as_str())),
        Err(MarkDownError::Kind(
            Kind::Entity,
            ControlFlow::Fatal,
            Span::Range(0, 101)
        ))
    );
}

#[test]
fn entity_on_empty_input() {
    let mut input = TokenStream::new(4, "");
    assert_eq!(
        Entity::parse(&mut input),
        Err(MarkDownError::Kind(
            Kind::Entity,
            ControlFlow::Recoverable,
            Span::Range(4, 4)
        ))
    );
}

#[test]
fn entity_names_come_from_the_table() {
    assert!(is_known("&amp;".as_bytes()));
    assert!(is_known("&CounterClockwiseContourIntegral;".as_bytes()));
    assert!(is_known("&amp".as_bytes()));
    assert!(!is_known("&abc;".as_bytes()));
    assert!(!is_known("amp;".as_bytes()));
    assert!(!is_known("".as_bytes()));
    assert!(!is_known("&AMP ;".as_bytes()));
}

#[test]
fn entity_accept_follows_the_lookup() {
    let mut input = TokenStream::new(0, "&xy;z");
    assert_eq!(
        Entity::accept(&mut input, 4, true),
        Ok(Entity(TokenStream::new(0, "&xy;")))
    );
    assert_eq!(input, TokenStream::new(4, "z"));

    let mut input = TokenStream::new(0, "&xy;z");
    assert_eq!(
        Entity::accept(&mut input, 4, false),
        Err(MarkDownError::Kind(
            Kind::Entity,
            ControlFlow::Fatal,
            Span::Range(0, 4)
        ))
    );
    assert_eq!(input, TokenStream::new(0, "&xy;z"));

    assert_eq!(Entity::delimit(&TokenStream::new(0, "&xy;z")), Ok(4));
}
