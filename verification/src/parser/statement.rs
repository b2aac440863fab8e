use crate::ast::{Ident, IdentView};
use crate::parser::{is_punct_at, Parser};
use crate::token::{Punct, Token, TokenValue};
use vstd::prelude::*;

verus! {

/// The statements that this parser reads.
#[derive(Debug, PartialEq)]
pub enum Stmt {
    VariableStmt(VariableStmt),
}

/// The keyword a variable statement starts with.
#[derive(Debug, Clone, Copy, PartialEq, Eq, Structural)]
pub enum VariableType {
    Const,
    Let,
    Var,
}

/// A variable statement: its keyword and its declarations.
#[derive(Debug, PartialEq)]
pub struct VariableStmt {
    pub variable_type: VariableType,
    pub declarations: Vec<VariableDeclaration>,
}

/// One declaration of a variable statement.
#[derive(Debug, PartialEq)]
pub struct VariableDeclaration {
    pub identifier: BindingPattern,
}

/// What a declaration binds: a name, or the names of an object pattern.
#[derive(Debug, PartialEq)]
pub enum BindingPattern {
    Ident(BindingIdentifier),
    Object(Vec<BindingProperty>),
}

#[derive(Debug, PartialEq)]
pub enum BindingIdentifier {
    Ident(Ident),
}

#[derive(Debug, PartialEq)]
pub enum BindingProperty {
    Single(BindingIdentifier),
}

/// A declaration's binding as a value: a name, or the names of an object
/// pattern in order.
pub enum DeclarationView {
    Ident(IdentView),
    Object(Seq<IdentView>),
}

pub open spec fn binding_identifier_view(b: BindingIdentifier) -> IdentView {
    match b {
        BindingIdentifier::Ident(i) => i@,
    }
}

pub open spec fn property_view(p: BindingProperty) -> IdentView {
    match p {
        BindingProperty::Single(b) => binding_identifier_view(b),
    }
}

pub open spec fn declaration_view(d: VariableDeclaration) -> DeclarationView {
    match d.identifier {
        BindingPattern::Ident(b) => DeclarationView::Ident(binding_identifier_view(b)),
        BindingPattern::Object(props) => DeclarationView::Object(
            props@.map_values(|p: BindingProperty| property_view(p)),
        ),
    }
}

/// The name of an identifier token.
pub open spec fn name_of(token: Token) -> IdentView {
    IdentView { span: token.span, name: token.value->Identifier_0@ }
}

/// Reading the names of an object pattern from index `j` on, after its `{`:
/// identifier tokens up to `}`. `None` for input that is not supported: any
/// other token, or no `}` before the end.
pub open spec fn spec_object_names(tokens: Seq<Token>, j: int) -> Option<(Seq<IdentView>, int)>
    decreases tokens.len() - j,
{
    if !(0 <= j < tokens.len()) {
        None
    } else if is_punct_at(tokens, j, Punct::BracketClose) {
        Some((Seq::empty(), j + 1))
    } else if tokens[j].value is Identifier {
        match spec_object_names(tokens, j + 1) {
            Some((names, k)) => Some((seq![name_of(tokens[j])] + names, k)),
            None => None,
        }
    } else {
        None
    }
}

/// Reading one declaration at index `i`: a name, or an object pattern of
/// names. `None` for input that is not supported.
pub open spec fn spec_declaration(tokens: Seq<Token>, i: int) -> Option<(DeclarationView, int)> {
    if !(0 <= i < tokens.len()) {
        None
    } else if tokens[i].value is Identifier {
        Some((DeclarationView::Ident(name_of(tokens[i])), i + 1))
    } else if is_punct_at(tokens, i, Punct::BracketOpen) {
        match spec_object_names(tokens, i + 1) {
            Some((names, k)) => Some((DeclarationView::Object(names), k)),
            None => None,
        }
    } else {
        None
    }
}

impl<'a> Parser<'a> {
    /// Parses a variable statement whose keyword `variable_type` has been
    /// read: one declaration.
    pub fn parse_variable_statement(&mut self, variable_type: VariableType) -> (stmt: Stmt)
        requires
            old(self).wf(),
            spec_declaration(old(self).tokens(), old(self).index()) is Some,
        ensures
            Parser::same_input(*old(self), *final(self)),
            *final(final(self).reader_ref()) == *final(old(self).reader_ref()),
            ({
                let (d, k) = spec_declaration(old(self).tokens(), old(self).index())->Some_0;
                &&& stmt->VariableStmt_0.variable_type == variable_type
                &&& stmt->VariableStmt_0.declarations@.len() == 1
                &&& declaration_view(stmt->VariableStmt_0.declarations@[0]) == d
                &&& final(self).index() == k
            }),
    {
        let declaration = self.parse_variable_declaration();
        let mut declarations = Vec::new();
        declarations.push(declaration);
        Stmt::VariableStmt(VariableStmt { variable_type, declarations })
    }

    /// Parses one declaration (see `spec_declaration`).
    fn parse_variable_declaration(&mut self) -> (declaration: VariableDeclaration)
        requires
            old(self).wf(),
            spec_declaration(old(self).tokens(), old(self).index()) is Some,
        ensures
            Parser::same_input(*old(self), *final(self)),
            *final(final(self).reader_ref()) == *final(old(self).reader_ref()),
            ({
                let (d, k) = spec_declaration(old(self).tokens(), old(self).index())->Some_0;
                &&& declaration_view(declaration) == d
                &&& final(self).index() == k
            }),
    {
        let token = match self.consume() {
            Ok(t) => t,
            Err(_) => {
                assert(false);
                return VariableDeclaration { identifier: BindingPattern::Object(Vec::new()) };
            },
        };
        let is_open = match &token.value {
            TokenValue::Punct(Punct::BracketOpen) => true,
            _ => false,
        };
        let identifier = match token.value {
            TokenValue::Identifier(name) => BindingPattern::Ident(
                BindingIdentifier::Ident(Ident::new(name, token.span)),
            ),
            _ => {
                assert(is_open);
                self.parse_object_property_binding()
            },
        };
        VariableDeclaration { identifier }
    }

    /// Reads the names of an object pattern after its `{` (see
    /// `spec_object_names`).
    fn parse_object_property_binding(&mut self) -> (pattern: BindingPattern)
        requires
            old(self).wf(),
            spec_object_names(old(self).tokens(), old(self).index()) is Some,
        ensures
            Parser::same_input(*old(self), *final(self)),
            *final(final(self).reader_ref()) == *final(old(self).reader_ref()),
            ({
                let (names, k) = spec_object_names(old(self).tokens(), old(self).index())->Some_0;
                &&& pattern is Object
                &&& pattern->Object_0@.map_values(|p: BindingProperty| property_view(p)) == names
                &&& final(self).index() == k
            }),
    {
        let ghost before = *self;
        let ghost toks = self.tokens();
        let mut bindings: Vec<BindingProperty> = Vec::new();
        loop
            invariant_except_break
                before == *old(self),
                toks == before.tokens(),
                Parser::same_input(before, *self),
                *final(self.reader_ref()) == *final(old(self).reader_ref()),
                before.index() <= self.index() <= toks.len(),
                spec_object_names(toks, self.index()) is Some,
                spec_object_names(toks, before.index())->Some_0.0 == bindings@.map_values(
                    |p: BindingProperty| property_view(p),
                ) + spec_object_names(toks, self.index())->Some_0.0,
                spec_object_names(toks, before.index())->Some_0.1 == spec_object_names(
                    toks,
                    self.index(),
                )->Some_0.1,
            ensures
                Parser::same_input(before, *self),
                *final(self.reader_ref()) == *final(old(self).reader_ref()),
                spec_object_names(toks, before.index())->Some_0.0 == bindings@.map_values(
                    |p: BindingProperty| property_view(p),
                ),
                spec_object_names(toks, before.index())->Some_0.1 == self.index(),
            decreases toks.len() - self.index(),
        {
            let ghost j = self.index();
            let ghost before_push = bindings@;
            let token = match self.consume() {
                Ok(t) => t,
                Err(_) => {
                    assert(false);
                    break;
                },
            };
            let is_close = match &token.value {
                TokenValue::Punct(Punct::BracketClose) => true,
                _ => false,
            };
            if is_close {
                assert(bindings@.map_values(|p: BindingProperty| property_view(p))
                    + Seq::<IdentView>::empty() =~= bindings@.map_values(|p: BindingProperty| property_view(p)));
                break;
            }
            match token.value {
                TokenValue::Identifier(name) => {
                    bindings.push(BindingProperty::Single(BindingIdentifier::Ident(Ident::new(name, token.span))));
                    assert(bindings@.map_values(|p: BindingProperty| property_view(p)) =~= before_push.map_values(
                        |p: BindingProperty| property_view(p),
                    ).push(name_of(toks[j])));
                    assert(seq![name_of(toks[j])] + spec_object_names(toks, j + 1)->Some_0.0 =~= seq![name_of(toks[j])].add(spec_object_names(toks, j + 1)->Some_0.0));
                    assert(before_push.map_values(|p: BindingProperty| property_view(p)) + (seq![name_of(toks[j])] + spec_object_names(toks, j + 1)->Some_0.0)
                        =~= bindings@.map_values(|p: BindingProperty| property_view(p)) + spec_object_names(toks, j + 1)->Some_0.0);
                },
                _ => {
                    assert(false);
                },
            }
        }
        BindingPattern::Object(bindings)
    }
}

} // verus!
