use fajt::lexer_error::{Error, ErrorKind};
use fajt::token::{Keyword, KeywordContext, Literal, Punct, TokenValue};

#[test]
fn keyword_into_identifier() {
    let identifier = Keyword::Async
        .into_identifier_string(KeywordContext::empty())
        .unwrap();
    assert_eq!(identifier, "async");
}

#[test]
fn keyword_into_identifier_context() {
    let identifier = Keyword::Yield
        .into_identifier_string(KeywordContext::empty())
        .unwrap();
    assert_eq!(identifier, "yield");

    let error = Keyword::Yield
        .into_identifier_string(KeywordContext::yield_flag())
        .unwrap_err();
    assert_eq!(
        error,
        Error::of(ErrorKind::ForbiddenIdentifier(Keyword::Yield))
    );
}

#[test]
fn reserved_word_into_identifier() {
    let error = Keyword::Function
        .into_identifier_string(KeywordContext::empty())
        .unwrap_err();
    assert_eq!(
        error,
        Error::of(ErrorKind::ForbiddenIdentifier(Keyword::Function))
    );
}

#[test]
fn strict_mode_reserves_let_and_yield() {
    let strict = KeywordContext::strict_flag();
    assert!(!Keyword::Let.is_allows_as_identifier(strict));
    assert!(!Keyword::Yield.is_allows_as_identifier(strict));
    assert!(!Keyword::Static.is_allows_as_identifier(strict));
    assert!(Keyword::Await.is_allows_as_identifier(strict));
    assert!(Keyword::Let.is_allows_as_identifier(KeywordContext::empty()));
}

#[test]
fn await_reserved_only_in_async_context() {
    assert!(!Keyword::Await.is_allows_as_identifier(KeywordContext::await_flag()));
    assert!(Keyword::Await.is_allows_as_identifier(KeywordContext::yield_flag()));
    let both = KeywordContext::await_flag().union(KeywordContext::yield_flag());
    assert!(!Keyword::Await.is_allows_as_identifier(both));
    assert!(!Keyword::Yield.is_allows_as_identifier(both));
}

#[test]
fn contextual_words_allowed_everywhere() {
    let all = KeywordContext::await_flag()
        .union(KeywordContext::yield_flag())
        .union(KeywordContext::strict_flag());
    for keyword in [
        Keyword::As,
        Keyword::Async,
        Keyword::From,
        Keyword::Get,
        Keyword::Of,
        Keyword::SetKeyword,
        Keyword::Target,
    ] {
        assert!(keyword.is_allows_as_identifier(all));
        assert!(keyword.into_identifier_string(all).is_ok());
    }
}

#[test]
fn keyword_context_flags() {
    let all = KeywordContext::await_flag()
        .union(KeywordContext::yield_flag())
        .union(KeywordContext::strict_flag());
    assert_eq!(all.bits(), 0b1000_0011);
    assert_eq!(KeywordContext::empty().bits(), 0);
    assert!(all.contains(KeywordContext::yield_flag()));
    assert!(!KeywordContext::yield_flag().contains(all));
    assert!(all.intersects(KeywordContext::strict_flag()));
    assert!(!KeywordContext::await_flag().intersects(KeywordContext::yield_flag()));
}

#[test]
fn keyword_and_punct_text() {
    assert_eq!(Keyword::Instanceof.to_string(), "instanceof");
    assert_eq!(Keyword::SetKeyword.to_string(), "set");
    assert_eq!(Keyword::Typeof.to_string(), "typeof");
    assert_eq!(Punct::BraceOpen.to_string(), "[");
    assert_eq!(Punct::BracketClose.to_string(), "}");
    assert_eq!(Punct::TripleGreaterEqual.to_string(), ">>>=");
    assert_eq!(Punct::QuestionMarkDot.to_string(), "?.");
}

#[test]
fn token_value_text() {
    assert_eq!(TokenValue::Keyword(Keyword::Yield).to_string(), "yield");
    assert_eq!(TokenValue::Punct(Punct::TripleDot).to_string(), "...");
    assert_eq!(TokenValue::Identifier("abc".to_string()).to_string(), "abc");
    let literal = TokenValue::Literal(Literal::String("s".to_string(), '"'));
    assert_eq!(literal.to_string(), format!("{:?}", literal));
    assert_eq!(literal.to_string(), "Literal(String(\"s\", '\"'))");
}

#[test]
fn forbidden_keyword_error_names_the_keyword() {
    let error = Keyword::Class
        .into_identifier_string(KeywordContext::empty())
        .unwrap_err();
    assert_eq!(*error.kind(), ErrorKind::ForbiddenIdentifier(Keyword::Class));
    assert_eq!(error.span().start, 0);
    assert_eq!(error.span().end, 0);
}
