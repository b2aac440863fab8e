use fajt::ast::{Ident, SourceType};
use fajt::error::ErrorKind;
use fajt::parser::binding::BindingPattern;
use fajt::parser::iteration::VariableKind;
use fajt::parser::property::PropertyName;
use fajt::parser::Parser;
use fajt::span::Span;
use fajt::token::{Base, Keyword, Literal, Number, Punct, Token, TokenValue};
use fajt::token_reader::{ReadError, TokenReader};

fn token(value: TokenValue, first_on_line: bool, start: usize, end: usize) -> Token {
    Token::new(value, first_on_line, Span::new(start, end))
}

fn parser(reader: &mut TokenReader) -> Parser<'_> {
    Parser::new(reader, SourceType::Module).ok().unwrap()
}

#[test]
fn token_reader_marks_and_rewinds() {
    let mut reader = TokenReader::new(vec![
        token(TokenValue::Identifier("a".to_string()), false, 0, 1),
        token(TokenValue::Punct(Punct::Dot), false, 1, 2),
    ]);
    assert_eq!(reader.position(), 0);
    let mark = reader.mark();
    assert_eq!(reader.peek().unwrap().value, TokenValue::Punct(Punct::Dot));
    reader.consume().ok().unwrap();
    reader.consume().ok().unwrap();
    assert!(reader.is_end());
    assert_eq!(reader.position(), 2);
    assert_eq!(reader.consume().err(), Some(ReadError::EndOfStream(2)));
    reader.rewind_to(mark);
    assert_eq!(reader.position(), 0);
    assert_eq!(reader.current().ok().unwrap().value, TokenValue::Identifier("a".to_string()));
}

#[test]
fn lookahead_helpers() {
    let mut p_tokens = TokenReader::new(vec![
        token(TokenValue::Literal(Literal::String("use strict".to_string(), '"')), false, 0, 12),
        token(TokenValue::Keyword(Keyword::Let), true, 13, 16),
    ]);
    let mut p = parser(&mut p_tokens);
    assert_eq!(p.source_type(), SourceType::Module);
    p.set_source_type(SourceType::Script);
    assert_eq!(p.source_type(), SourceType::Script);
    assert!(p.current_matches_string_literal());
    assert!(p.followed_by_new_lined());
    assert!(p.peek_is_identifier());
    assert!(!p.is_identifier());
    assert_eq!(p.parse_optional_identifier().ok().unwrap(), None);
    p.consume().ok().unwrap();
    assert!(!p.followed_by_new_lined());
    assert_eq!(
        p.parse_optional_identifier().ok().unwrap(),
        Some(Ident::new("let".to_string(), Span::new(13, 16)))
    );
}

#[test]
fn list_delimiters() {
    let mut p_tokens = TokenReader::new(vec![
        token(TokenValue::Punct(Punct::Comma), false, 0, 1),
        token(TokenValue::Punct(Punct::BraceClose), false, 1, 2),
        token(TokenValue::Punct(Punct::Dot), false, 2, 3),
    ]);
    let mut p = parser(&mut p_tokens);
    assert!(p.consume_array_delimiter().is_ok());
    assert_eq!(p.position(), 1);
    // The end of the list is left for the caller.
    assert!(p.consume_array_delimiter().is_ok());
    assert_eq!(p.position(), 1);
    p.consume().ok().unwrap();
    let error = p.consume_object_delimiter().err().unwrap();
    assert_eq!(
        *error.kind(),
        ErrorKind::UnexpectedToken(token(TokenValue::Punct(Punct::Dot), false, 2, 3))
    );
    let end = p.consume_parameter_delimiter().err().unwrap();
    assert_eq!(*end.kind(), ErrorKind::EndOfStream);
}

#[test]
fn property_names() {
    let mut p_tokens = TokenReader::new(vec![
        token(TokenValue::Literal(Literal::String("k".to_string(), '\'')), false, 0, 3),
        token(TokenValue::Literal(Literal::Number(Number::Integer(7, Base::Decimal))), false, 4, 5),
        token(TokenValue::Keyword(Keyword::Get), false, 6, 9),
        token(TokenValue::Punct(Punct::Colon), false, 9, 10),
    ]);
    let mut p = parser(&mut p_tokens);
    assert_eq!(p.parse_property_name().ok().unwrap(), PropertyName::String("k".to_string(), '\''));
    assert_eq!(
        p.parse_property_name().ok().unwrap(),
        PropertyName::Number(Number::Integer(7, Base::Decimal))
    );
    assert_eq!(
        p.parse_property_name().ok().unwrap(),
        PropertyName::Ident(Ident::new("get".to_string(), Span::new(6, 9)))
    );
    let error = p.parse_property_name().err().unwrap();
    assert_eq!(
        *error.kind(),
        ErrorKind::UnexpectedToken(token(TokenValue::Punct(Punct::Colon), false, 9, 10))
    );
}

#[test]
fn optional_variable_kind() {
    let mut p_tokens = TokenReader::new(vec![
        token(TokenValue::Keyword(Keyword::Const), false, 0, 5),
        token(TokenValue::Identifier("x".to_string()), false, 6, 7),
    ]);
    let mut p = parser(&mut p_tokens);
    assert_eq!(p.parse_optional_variable_kind().ok().unwrap(), Some(VariableKind::Const));
    assert_eq!(p.parse_optional_variable_kind().ok().unwrap(), None);
    assert_eq!(p.position(), 6);
    let mut v_tokens = TokenReader::new(vec![token(TokenValue::Keyword(Keyword::Var), false, 0, 3)]);
    let mut v = parser(&mut v_tokens);
    assert_eq!(v.parse_optional_variable_kind().ok().unwrap(), Some(VariableKind::Var));
    assert_eq!(*v.parse_optional_variable_kind().err().unwrap().kind(), ErrorKind::EndOfStream);
}

#[test]
fn rest_element_pattern() {
    // ...{a}
    let mut p_tokens = TokenReader::new(vec![
        token(TokenValue::Punct(Punct::TripleDot), false, 0, 3),
        token(TokenValue::Punct(Punct::BracketOpen), false, 3, 4),
        token(TokenValue::Identifier("a".to_string()), false, 4, 5),
        token(TokenValue::Punct(Punct::BracketClose), false, 5, 6),
        token(TokenValue::Punct(Punct::BraceClose), false, 6, 7),
    ]);
    let mut p = parser(&mut p_tokens);
    let pattern = p.parse_binding_rest_element().ok().unwrap();
    assert!(matches!(pattern, BindingPattern::Object(_)));
    assert_eq!(p.position(), 6);
}

#[test]
fn reserved_keyword_is_no_binding_pattern() {
    let mut p_tokens = TokenReader::new(vec![token(TokenValue::Keyword(Keyword::Delete), false, 0, 6)]);
    let mut p = parser(&mut p_tokens);
    let error = p.parse_binding_pattern().err().unwrap();
    assert_eq!(
        *error.kind(),
        ErrorKind::UnexpectedToken(token(TokenValue::Keyword(Keyword::Delete), false, 0, 6))
    );
}

#[test]
fn with_context_reads_on_through_the_same_reader() {
    let mut p_tokens = TokenReader::new(vec![
        token(TokenValue::Identifier("a".to_string()), false, 0, 1),
        token(TokenValue::Keyword(Keyword::Yield), false, 2, 7),
        token(TokenValue::Keyword(Keyword::Yield), false, 8, 13),
    ]);
    let mut p = parser(&mut p_tokens);
    assert_eq!(p.consume().ok().unwrap().span, Span::new(0, 1));
    {
        let mut child = p.with_context(fajt::Context::default().with_yield(true));
        assert_eq!(child.position(), 2);
        assert!(!child.is_identifier());
        let error = child.parse_identifier().err().unwrap();
        assert_eq!(*error.kind(), ErrorKind::ForbiddenIdentifier("yield".to_string()));
        assert_eq!(child.position(), 8);
    }
    assert_eq!(p.position(), 8);
    assert!(p.is_identifier());
    assert_eq!(p.parse_identifier().ok().unwrap(), Ident::new("yield".to_string(), Span::new(8, 13)));
    assert!(p.is_end());
}
