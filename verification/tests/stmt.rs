use fajt::ast::{Ident, SourceType};
use fajt::parser::statement::{
    BindingIdentifier, BindingPattern, BindingProperty, Stmt, VariableDeclaration, VariableStmt,
    VariableType::Var,
};
use fajt::parser::Parser;
use fajt::span::Span;
use fajt::token::{Base, Keyword, Literal, Number, Punct, Token, TokenValue};
use fajt::token_reader::TokenReader;

fn token(value: TokenValue, start: usize, end: usize) -> Token {
    Token::new(value, false, Span::new(start, end))
}

fn punct(p: Punct, start: usize, end: usize) -> Token {
    token(TokenValue::Punct(p), start, end)
}

fn ident(name: &str, start: usize, end: usize) -> Token {
    token(TokenValue::Identifier(name.to_string()), start, end)
}

fn number(value: i64, start: usize, end: usize) -> Token {
    token(TokenValue::Literal(Literal::Number(Number::Integer(value, Base::Decimal))), start, end)
}

/// Parses the variable statement that the tokens hold, after its `var`.
fn parse_after_var(tokens: Vec<Token>) -> Stmt {
    let mut reader = TokenReader::new(tokens);
    let mut parser = Parser::new(&mut reader, SourceType::Script).ok().unwrap();
    let var = parser.consume().ok().unwrap();
    assert_eq!(var.value, TokenValue::Keyword(Keyword::Var));
    parser.parse_variable_statement(Var)
}

#[test]
fn parse_var_statement() {
    // var foo = 1;
    let tokens = vec![
        token(TokenValue::Keyword(Keyword::Var), 0, 3),
        ident("foo", 4, 7),
        punct(Punct::Equal, 8, 9),
        number(1, 10, 11),
        punct(Punct::SemiColon, 11, 12),
    ];
    assert_eq!(
        parse_after_var(tokens),
        Stmt::VariableStmt(VariableStmt {
            variable_type: Var,
            declarations: vec![VariableDeclaration {
                identifier: BindingPattern::Ident(BindingIdentifier::Ident(Ident {
                    span: Span::new(4, 7),
                    name: "foo".to_string()
                })),
            }]
        })
    );
}

#[test]
fn parse_var_stmt_empty_obj_binding() {
    // var {} = 1;
    let tokens = vec![
        token(TokenValue::Keyword(Keyword::Var), 0, 3),
        punct(Punct::BracketOpen, 4, 5),
        punct(Punct::BracketClose, 5, 6),
        punct(Punct::Equal, 7, 8),
        number(1, 9, 10),
        punct(Punct::SemiColon, 10, 11),
    ];
    assert_eq!(
        parse_after_var(tokens),
        Stmt::VariableStmt(VariableStmt {
            variable_type: Var,
            declarations: vec![VariableDeclaration {
                identifier: BindingPattern::Object(vec![]),
            }]
        })
    );
}

#[test]
fn parse_var_stmt_empty_single_binding() {
    // var { a } = b;
    let tokens = vec![
        token(TokenValue::Keyword(Keyword::Var), 0, 3),
        punct(Punct::BracketOpen, 4, 5),
        ident("a", 6, 7),
        punct(Punct::BracketClose, 8, 9),
        punct(Punct::Equal, 10, 11),
        ident("b", 12, 13),
        punct(Punct::SemiColon, 13, 14),
    ];
    assert_eq!(
        parse_after_var(tokens),
        Stmt::VariableStmt(VariableStmt {
            variable_type: Var,
            declarations: vec![VariableDeclaration {
                identifier: BindingPattern::Object(vec![BindingProperty::Single(
                    BindingIdentifier::Ident(Ident {
                        name: "a".to_string(),
                        span: Span::new(6, 7)
                    })
                )]),
            }]
        })
    );
}

#[test]
fn parse_var_stmt_object_binding_of_several_names() {
    // var { a b } = c;
    let tokens = vec![
        token(TokenValue::Keyword(Keyword::Var), 0, 3),
        punct(Punct::BracketOpen, 4, 5),
        ident("a", 6, 7),
        ident("b", 8, 9),
        punct(Punct::BracketClose, 10, 11),
    ];
    let stmt = parse_after_var(tokens);
    let Stmt::VariableStmt(var) = stmt;
    assert_eq!(
        var.declarations[0].identifier,
        BindingPattern::Object(vec![
            BindingProperty::Single(BindingIdentifier::Ident(Ident { name: "a".to_string(), span: Span::new(6, 7) })),
            BindingProperty::Single(BindingIdentifier::Ident(Ident { name: "b".to_string(), span: Span::new(8, 9) })),
        ])
    );
}

#[test]
fn dummy() {
    // This is just so IDE recognize this is a runnable file.
}
