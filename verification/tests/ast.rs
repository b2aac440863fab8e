use fajt::ast::{Base, Ident, Literal, ModuleItem, Number, Program};
use fajt::error::{Error, ErrorKind};
use fajt::span::Span;
use fajt::token::{self, Keyword, Punct, Token, TokenValue};
use fajt::{Context, ThenTry};

#[test]
fn ident_from_identifier_await_and_yield_tokens() {
    let token = Token::new(TokenValue::Identifier("x".to_string()), false, Span::new(1, 2));
    assert_eq!(Ident::try_from(token).ok().unwrap(), Ident::new("x".to_string(), Span::new(1, 2)));
    let token = Token::new(TokenValue::Keyword(Keyword::Await), true, Span::new(0, 5));
    assert_eq!(Ident::try_from(token).ok().unwrap(), Ident::new("await".to_string(), Span::new(0, 5)));
    let token = Token::new(TokenValue::Keyword(Keyword::Yield), true, Span::new(0, 5));
    assert_eq!(Ident::try_from(token).ok().unwrap().name, "yield");
}

#[test]
fn ident_from_other_token_is_a_syntax_error() {
    let token = Token::new(TokenValue::Punct(Punct::Dot), false, Span::new(3, 4));
    let error = Ident::try_from(token).err().unwrap();
    assert_eq!(
        *error.kind(),
        ErrorKind::SyntaxError("Tried to use 'Punct(Dot)' as an identifier.".to_string(), Span::new(3, 4))
    );
}

#[test]
fn ident_from_set_keyword_names_it_set() {
    let token = Token::new(TokenValue::Keyword(Keyword::SetKeyword), false, Span::new(0, 3));
    let error = Ident::try_from(token).err().unwrap();
    assert_eq!(
        *error.kind(),
        ErrorKind::SyntaxError("Tried to use 'Keyword(Set)' as an identifier.".to_string(), Span::new(0, 3))
    );
    let token = Token::new(TokenValue::Keyword(Keyword::Class), false, Span::new(0, 5));
    let error = Ident::try_from(token).err().unwrap();
    assert_eq!(
        *error.kind(),
        ErrorKind::SyntaxError("Tried to use 'Keyword(Class)' as an identifier.".to_string(), Span::new(0, 5))
    );
}

#[test]
fn literal_from_lexer_literal() {
    assert_eq!(
        Literal::from(token::Literal::Number(token::Number::Integer(255, token::Base::Hex))),
        Literal::Number(Number::Integer(255, Base::Hex))
    );
    assert_eq!(
        Literal::from(token::Literal::String("s".to_string(), '\'')),
        Literal::String("s".to_string(), '\'')
    );
    assert_eq!(Base::from(token::Base::Octal), Base::Octal);
    assert_eq!(
        Literal::from(token::Literal::Number(token::Number::Decimal(1.5f64.to_bits()))),
        Literal::Number(Number::Decimal(1.5f64.to_bits()))
    );
}

#[test]
fn error_descriptions_and_messages() {
    let forbidden = Error::forbidden_identifier("yield".to_string(), Span::new(0, 5));
    assert_eq!(
        forbidden.kind().get_description(),
        Some("`yield` is not allowed as an identifier in this context".to_string())
    );
    assert_eq!(forbidden.message(), "Syntax error: Forbidden identifier `yield`");
    let eos = Error::end_of_stream(7);
    assert_eq!(eos.kind().get_description(), None);
    let syntax = Error::syntax_error("oops".to_string(), Span::new(1, 2));
    assert_eq!(*syntax.kind(), ErrorKind::SyntaxError("oops".to_string(), Span::empty()));
    assert_eq!(syntax.message(), "Syntax error: oops");
    let ident = Error::unexpected_identifier(Ident::new("q".to_string(), Span::new(2, 3)));
    assert_eq!(ident.message(), "Syntax Error: Unexpected identifier `q`");
    let token = Error::unexpected_token(Token::new(TokenValue::Punct(Punct::Comma), false, Span::new(4, 5)));
    assert_eq!(token.message(), "Syntax error: Unexpected token `,`");
    let keyword = Error::unexpected_token(Token::new(TokenValue::Keyword(Keyword::Async), false, Span::new(0, 5)));
    assert_eq!(keyword.message(), "Syntax error: Unexpected token `async`");
    let name = Error::unexpected_token(Token::new(TokenValue::Identifier("foo".to_string()), false, Span::new(0, 3)));
    assert_eq!(name.message(), "Syntax error: Unexpected token `foo`");
    let lexer = Error::from(fajt::lexer_error::Error::of(fajt::lexer_error::ErrorKind::EndOfFile));
    assert_eq!(*lexer.kind(), ErrorKind::LexerError(fajt::lexer_error::Error::of(fajt::lexer_error::ErrorKind::EndOfFile)));
    assert!(lexer.message().starts_with("Lexer error '"));
}

#[test]
fn context_keyword_context() {
    let ctx = Context::default().with_await(true).with_strict(true).with_in(true);
    let keywords = ctx.keyword_context();
    assert!(!Keyword::Await.is_allows_as_identifier(keywords));
    assert!(!Keyword::Let.is_allows_as_identifier(keywords));
    assert!(Keyword::Of.is_allows_as_identifier(keywords));
    assert_eq!(keywords.bits(), 0b1000_0001);
    assert_eq!(Context::default().with_yield(true).keyword_context().bits(), 0b10);
}

#[test]
fn then_try_runs_the_closure_only_when_true() {
    let ok: Result<Option<u8>, Error> = true.then_try(|| Ok(3));
    assert_eq!(ok.ok(), Some(Some(3)));
    let skipped: Result<Option<u8>, Error> = false.then_try(|| Err(Error::end_of_stream(0)));
    assert_eq!(skipped.ok(), Some(None));
    let failed: Result<Option<u8>, Error> = true.then_try(|| Err(Error::end_of_stream(0)));
    assert!(failed.is_err());
}

#[test]
fn program_from_body_is_a_script_at_the_empty_span() {
    let program = Program::from_body(vec![]);
    assert!(matches!(program, Program::Script(_)));
    let item = ModuleItem::ImportDeclaration();
    assert_eq!(item, ModuleItem::ImportDeclaration());
    let span: Span = (0, 1).into();
    assert_eq!(span, Span::new(0, 1));
}
