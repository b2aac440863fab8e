use fajt::ast::{Ident, SourceType};
use fajt::error::{Error, ErrorKind};
use fajt::parser::binding::{ArrayBinding, BindingElement, BindingPattern, ObjectBinding, ObjectBindingProp};
use fajt::parser::module::NamedImport;
use fajt::parser::{is_identifier, Parser};
use fajt::span::Span;
use fajt::token::{Keyword, Literal, Punct, Token, TokenValue};
use fajt::token_reader::TokenReader;
use fajt::Context;

fn token(value: TokenValue, start: usize, end: usize) -> Token {
    Token::new(value, false, Span::new(start, end))
}

fn punct(p: Punct, start: usize, end: usize) -> Token {
    token(TokenValue::Punct(p), start, end)
}

fn ident(name: &str, start: usize, end: usize) -> Token {
    token(TokenValue::Identifier(name.to_string()), start, end)
}

fn keyword(k: Keyword, start: usize, end: usize) -> Token {
    token(TokenValue::Keyword(k), start, end)
}

fn string(s: &str, start: usize, end: usize) -> Token {
    token(TokenValue::Literal(Literal::String(s.to_string(), '"')), start, end)
}

fn name(n: &str, start: usize, end: usize) -> Ident {
    Ident::new(n.to_string(), Span::new(start, end))
}

fn parser(reader: &mut TokenReader) -> Parser<'_> {
    Parser::new(reader, SourceType::Script).ok().unwrap()
}

#[test]
fn parse_identifier_accepts_names_and_contextual_keywords() {
    let mut p_tokens = TokenReader::new(vec![ident("a", 0, 1), keyword(Keyword::Of, 2, 4), keyword(Keyword::Class, 5, 10)]);
    let mut p = parser(&mut p_tokens);
    assert_eq!(p.parse_identifier().ok().unwrap(), name("a", 0, 1));
    assert_eq!(p.parse_identifier().ok().unwrap(), name("of", 2, 4));
    let error = p.parse_identifier().err().unwrap();
    assert_eq!(*error.kind(), ErrorKind::ForbiddenIdentifier("class".to_string()));
    assert_eq!(error.message(), "Syntax error: Forbidden identifier `class`");
    assert!(p.is_end());
    let end = p.parse_identifier().err().unwrap();
    assert_eq!(*end.kind(), ErrorKind::EndOfStream);
    assert_eq!(end.message(), "Syntax error: Unexpected end of input");
}

#[test]
fn is_identifier_follows_the_context() {
    let yield_token = keyword(Keyword::Yield, 0, 5);
    assert!(is_identifier(Some(&yield_token), &Context::default()));
    assert!(!is_identifier(Some(&yield_token), &Context::default().with_yield(true)));
    assert!(!is_identifier(Some(&yield_token), &Context::default().with_strict(true)));
    assert!(!is_identifier(Some(&punct(Punct::Dot, 0, 1)), &Context::default()));
    assert!(!is_identifier(None, &Context::default()));
}

#[test]
fn positions_and_spans() {
    let mut p_tokens = TokenReader::new(vec![ident("a", 2, 3), punct(Punct::Dot, 3, 4), ident("b", 5, 6)]);
    let mut p = parser(&mut p_tokens);
    assert_eq!(p.position(), 2);
    assert!(p.current_matches(&TokenValue::Identifier("a".to_string())));
    assert!(p.peek_matches(&TokenValue::Punct(Punct::Dot)));
    p.consume().ok().unwrap();
    assert_eq!(p.position(), 3);
    assert_eq!(p.span_from(2), Span::new(2, 3));
    assert_eq!(p.maybe_consume(&TokenValue::Punct(Punct::Comma)).ok(), Some(false));
    assert_eq!(p.maybe_consume(&TokenValue::Punct(Punct::Dot)).ok(), Some(true));
    let error = p.consume_assert(&TokenValue::Punct(Punct::Comma)).err().unwrap();
    assert_eq!(*error.kind(), ErrorKind::UnexpectedToken(ident("b", 5, 6)));
    assert_eq!(p.position(), 6);
    assert!(p.is_end());
}

#[test]
fn skip_until_closing_parenthesis_skips_nested_pairs() {
    // ( a ( b ) ) =>
    let mut p_tokens = TokenReader::new(vec![
        punct(Punct::ParenOpen, 0, 1),
        ident("a", 1, 2),
        punct(Punct::ParenOpen, 3, 4),
        ident("b", 4, 5),
        punct(Punct::ParenClose, 5, 6),
        punct(Punct::ParenClose, 6, 7),
        punct(Punct::EqualGreater, 8, 10),
    ]);
    let mut p = parser(&mut p_tokens);
    let after = p.token_after_parenthesis().ok().unwrap();
    assert_eq!(after, Some(punct(Punct::EqualGreater, 8, 10)));
    // The parser is back where it was.
    assert_eq!(p.position(), 0);
    assert!(p.skip_until_closing_parenthesis().is_ok());
    assert_eq!(p.position(), 8);
}

#[test]
fn token_after_parenthesis_at_the_end() {
    let mut p_tokens = TokenReader::new(vec![punct(Punct::ParenOpen, 0, 1), punct(Punct::ParenClose, 1, 2)]);
    let mut p = parser(&mut p_tokens);
    assert_eq!(p.token_after_parenthesis().ok().unwrap(), None);
    assert_eq!(p.position(), 0);

    let mut unclosed_tokens = TokenReader::new(vec![punct(Punct::ParenOpen, 0, 1), ident("a", 1, 2)]);
    let mut unclosed = parser(&mut unclosed_tokens);
    let error = unclosed.token_after_parenthesis().err().unwrap();
    assert_eq!(*error.kind(), ErrorKind::EndOfStream);
    assert!(unclosed.is_end());
}

#[test]
fn parse_object_binding_pattern() {
    // { a, b, ...rest };
    let mut p_tokens = TokenReader::new(vec![
        punct(Punct::BracketOpen, 4, 5),
        ident("a", 6, 7),
        punct(Punct::Comma, 7, 8),
        ident("b", 9, 10),
        punct(Punct::Comma, 10, 11),
        punct(Punct::TripleDot, 12, 15),
        ident("rest", 15, 19),
        punct(Punct::BracketClose, 19, 20),
        punct(Punct::Equal, 21, 22),
    ]);
    let mut p = parser(&mut p_tokens);
    let pattern = p.parse_binding_pattern().ok().unwrap();
    assert_eq!(
        pattern,
        BindingPattern::Object(ObjectBinding {
            span: Span::new(4, 20),
            props: vec![
                ObjectBindingProp::Assign(name("a", 6, 7)),
                ObjectBindingProp::Assign(name("b", 9, 10)),
            ],
            rest: Some(name("rest", 15, 19)),
        })
    );
    assert!(p.current_matches(&TokenValue::Punct(Punct::Equal)));
}

#[test]
fn parse_array_binding_pattern_with_holes_and_nesting() {
    // [ a, , [b], ...c ]
    let mut p_tokens = TokenReader::new(vec![
        punct(Punct::BraceOpen, 0, 1),
        ident("a", 2, 3),
        punct(Punct::Comma, 3, 4),
        punct(Punct::Comma, 5, 6),
        punct(Punct::BraceOpen, 7, 8),
        ident("b", 8, 9),
        punct(Punct::BraceClose, 9, 10),
        punct(Punct::Comma, 10, 11),
        punct(Punct::TripleDot, 12, 15),
        ident("c", 15, 16),
        punct(Punct::BraceClose, 17, 18),
        punct(Punct::Equal, 19, 20),
    ]);
    let mut p = parser(&mut p_tokens);
    let pattern = p.parse_binding_pattern().ok().unwrap();
    assert_eq!(
        pattern,
        BindingPattern::Array(ArrayBinding {
            span: Span::new(0, 18),
            elements: vec![
                Some(BindingElement { span: Span::new(2, 3), pattern: BindingPattern::Ident(name("a", 2, 3)) }),
                None,
                Some(BindingElement {
                    span: Span::new(7, 10),
                    pattern: BindingPattern::Array(ArrayBinding {
                        span: Span::new(7, 10),
                        elements: vec![Some(BindingElement {
                            span: Span::new(8, 9),
                            pattern: BindingPattern::Ident(name("b", 8, 9)),
                        })],
                        rest: None,
                    }),
                }),
            ],
            rest: Some(name("c", 15, 16)),
        })
    );
}

#[test]
fn rest_element_must_be_last() {
    // [ ...a, b ]
    let mut p_tokens = TokenReader::new(vec![
        punct(Punct::BraceOpen, 0, 1),
        punct(Punct::TripleDot, 2, 5),
        ident("a", 5, 6),
        punct(Punct::Comma, 6, 7),
        ident("b", 8, 9),
        punct(Punct::BraceClose, 10, 11),
    ]);
    let mut p = parser(&mut p_tokens);
    let error = p.parse_binding_pattern().err().unwrap();
    assert_eq!(
        *error.kind(),
        ErrorKind::SyntaxError("Rest element must be last element".to_string(), Span::new(5, 6))
    );
    assert_eq!(error.message(), "Syntax error: Rest element must be last element");
}

#[test]
fn binding_pattern_rejects_other_tokens() {
    let mut p_tokens = TokenReader::new(vec![punct(Punct::Dot, 0, 1)]);
    let mut p = parser(&mut p_tokens);
    let error = p.parse_binding_pattern().err().unwrap();
    assert_eq!(error, Error::of(ErrorKind::UnexpectedToken(punct(Punct::Dot, 0, 1))));
    assert_eq!(error.kind().get_description(), Some("Unexpected token".to_string()));

    let mut missing_tokens = TokenReader::new(vec![punct(Punct::BracketOpen, 0, 1), ident("a", 2, 3), ident("b", 4, 5)]);
    let mut missing = parser(&mut missing_tokens);
    let error = missing.parse_binding_pattern().err().unwrap();
    assert_eq!(*error.kind(), ErrorKind::UnexpectedToken(ident("b", 4, 5)));
}

#[test]
fn parse_import_declarations() {
    // import a, { b as c, d } from "m";
    let mut p_tokens = TokenReader::new(vec![
        keyword(Keyword::Import, 0, 6),
        ident("a", 7, 8),
        punct(Punct::Comma, 8, 9),
        punct(Punct::BracketOpen, 10, 11),
        ident("b", 12, 13),
        keyword(Keyword::As, 14, 16),
        ident("c", 17, 18),
        punct(Punct::Comma, 18, 19),
        ident("d", 20, 21),
        punct(Punct::BracketClose, 22, 23),
        keyword(Keyword::From, 24, 28),
        string("m", 29, 32),
        punct(Punct::SemiColon, 32, 33),
    ]);
    let mut p = parser(&mut p_tokens);
    let decl = p.parse_import_declaration().ok().unwrap();
    assert_eq!(decl.span, Span::new(0, 32));
    assert_eq!(decl.default_binding, Some(name("a", 7, 8)));
    assert_eq!(decl.namespace_binding, None);
    assert_eq!(
        decl.named_imports,
        Some(vec![
            NamedImport { span: Span::new(12, 18), name: name("b", 12, 13), alias: Some(name("c", 17, 18)) },
            NamedImport { span: Span::new(20, 21), name: name("d", 20, 21), alias: None },
        ])
    );
    assert_eq!(decl.source, "m");

    // import * as ns from "m"
    let mut q_tokens = TokenReader::new(vec![
        keyword(Keyword::Import, 0, 6),
        punct(Punct::Star, 7, 8),
        keyword(Keyword::As, 9, 11),
        ident("ns", 12, 14),
        keyword(Keyword::From, 15, 19),
        string("m", 20, 23),
    ]);
    let mut q = parser(&mut q_tokens);
    let decl = q.parse_import_declaration().ok().unwrap();
    assert_eq!(decl.namespace_binding, Some(name("ns", 12, 14)));
    assert_eq!(decl.named_imports, None);
    assert_eq!(decl.default_binding, None);

    // import "m"
    let mut r_tokens = TokenReader::new(vec![keyword(Keyword::Import, 0, 6), string("m", 7, 10)]);
    let mut r = parser(&mut r_tokens);
    let decl = r.parse_import_declaration().ok().unwrap();
    assert_eq!(decl.span, Span::new(0, 10));
    assert_eq!(decl.source, "m");
}

#[test]
fn import_needs_bindings_or_a_source() {
    // import ;
    let mut p_tokens = TokenReader::new(vec![keyword(Keyword::Import, 0, 6), punct(Punct::SemiColon, 6, 7)]);
    let mut p = parser(&mut p_tokens);
    let error = p.parse_import_declaration().err().unwrap();
    assert_eq!(error, Error::of(ErrorKind::UnexpectedToken(punct(Punct::SemiColon, 6, 7))));
}
