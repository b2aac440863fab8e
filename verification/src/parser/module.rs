use crate::ast::{Ident, IdentView};
use crate::error::{Error, ErrorKind};
use crate::parser::binding::{bound_name, misplaced_token_error, opt_ident_view};
use crate::parser::{
    end_error, is_name_list, is_punct_at, list_close, name_index, spec_expect, spec_identifier,
    spec_list_delimiter, start_position, outcome_is, token_at, token_is_identifier, Parsed, Parser,
};
use crate::span::Span;
use crate::token::{Keyword, Literal, Punct, Token, TokenValue};
use crate::token_reader::position_after;
use vstd::prelude::*;

verus! {

/// An import declaration: `import a, { b as c } from "m";`.
#[derive(Debug, PartialEq)]
pub struct DeclImport {
    pub span: Span,
    pub default_binding: Option<Ident>,
    pub namespace_binding: Option<Ident>,
    pub named_imports: Option<Vec<NamedImport>>,
    pub source: String,
}

/// One name in the braces of an import declaration, with its alias.
#[derive(Debug, PartialEq)]
pub struct NamedImport {
    pub span: Span,
    pub name: Ident,
    pub alias: Option<Ident>,
}

/// A named import as a value.
pub struct NamedImportView {
    pub span: Span,
    pub name: IdentView,
    pub alias: Option<IdentView>,
}

/// An import declaration as a value.
pub struct ImportView {
    pub span: Span,
    pub default_binding: Option<IdentView>,
    pub namespace_binding: Option<IdentView>,
    pub named_imports: Option<Seq<NamedImportView>>,
    pub source: Seq<char>,
}

pub open spec fn named_import_view(n: NamedImport) -> NamedImportView {
    NamedImportView { span: n.span, name: n.name@, alias: opt_ident_view(n.alias) }
}

pub open spec fn named_imports_view(ns: Seq<NamedImport>) -> Seq<NamedImportView> {
    ns.map_values(|n: NamedImport| named_import_view(n))
}

pub open spec fn import_view(d: DeclImport) -> ImportView {
    ImportView {
        span: d.span,
        default_binding: opt_ident_view(d.default_binding),
        namespace_binding: opt_ident_view(d.namespace_binding),
        named_imports: match d.named_imports {
            Some(ns) => Some(named_imports_view(ns@)),
            None => None,
        },
        source: d.source@,
    }
}

/// Reading a module specifier at index `i`: a string literal token. On any
/// other token the parser reads a literal expression, which this crate does
/// not hold; such inputs are `Stuck`.
pub open spec fn spec_module_specifier(tokens: Seq<Token>, i: int) -> Parsed<Seq<char>> {
    if 0 <= i < tokens.len() && tokens[i].value is Literal && tokens[i].value->Literal_0 is String {
        Parsed::Done(tokens[i].value->Literal_0->String_0@, i + 1)
    } else {
        Parsed::Stuck
    }
}

/// Reading `* as name` at index `i`.
pub open spec fn spec_namespace_import(tokens: Seq<Token>, i: int, ctx: crate::context::Context) -> Parsed<IdentView> {
    match spec_expect(tokens, i, TokenValue::Punct(Punct::Star)) {
        Parsed::Done(_, k) => match spec_expect(tokens, k, TokenValue::Keyword(Keyword::As)) {
            Parsed::Done(_, k2) => spec_identifier(tokens, k2, ctx),
            Parsed::Failed(e, k2) => Parsed::Failed(e, k2),
            Parsed::Stuck => Parsed::Stuck,
        },
        Parsed::Failed(e, k) => Parsed::Failed(e, k),
        Parsed::Stuck => Parsed::Stuck,
    }
}

/// Reading `name` or `name as alias` at index `i`.
pub open spec fn spec_import_specifier(tokens: Seq<Token>, i: int, ctx: crate::context::Context) -> Parsed<NamedImportView> {
    let start = start_position(tokens, i);
    match spec_identifier(tokens, i, ctx) {
        Parsed::Done(name, k) => if 0 <= k < tokens.len() && tokens[k].value == TokenValue::Keyword(
            Keyword::As,
        ) {
            match spec_identifier(tokens, k + 1, ctx) {
                Parsed::Done(alias, k2) => Parsed::Done(
                    NamedImportView {
                        span: Span { start, end: position_after(tokens, k2) },
                        name,
                        alias: Some(alias),
                    },
                    k2,
                ),
                Parsed::Failed(e, k2) => Parsed::Failed(e, k2),
                Parsed::Stuck => Parsed::Stuck,
            }
        } else {
            Parsed::Done(
                NamedImportView { span: Span { start, end: position_after(tokens, k) }, name, alias: None },
                k,
            )
        },
        Parsed::Failed(e, k) => Parsed::Failed(e, k),
        Parsed::Stuck => Parsed::Stuck,
    }
}

/// Reading the specifiers of named imports from index `j` on, with `named`
/// read so far: specifiers separated by commas, up to `}`.
pub open spec fn spec_named_imports_from(
    tokens: Seq<Token>,
    j: int,
    ctx: crate::context::Context,
    named: Seq<NamedImportView>,
) -> Parsed<Seq<NamedImportView>>
    decreases tokens.len() - j,
{
    if is_punct_at(tokens, j, Punct::BracketClose) {
        Parsed::Done(named, j + 1)
    } else {
        match spec_import_specifier(tokens, j, ctx) {
            Parsed::Done(s, k) => match spec_list_delimiter(tokens, k, TokenValue::Punct(Punct::BracketClose)) {
                Parsed::Done(_, k2) => spec_named_imports_from(tokens, k2, ctx, named.push(s)),
                Parsed::Failed(e, k2) => Parsed::Failed(e, k2),
                Parsed::Stuck => Parsed::Stuck,
            },
            Parsed::Failed(e, k) => Parsed::Failed(e, k),
            Parsed::Stuck => Parsed::Stuck,
        }
    }
}

/// Reading `{ specifiers }` at index `i`.
pub open spec fn spec_named_imports(tokens: Seq<Token>, i: int, ctx: crate::context::Context) -> Parsed<Seq<NamedImportView>> {
    match spec_expect(tokens, i, TokenValue::Punct(Punct::BracketOpen)) {
        Parsed::Done(_, k) => spec_named_imports_from(tokens, k, ctx, Seq::empty()),
        Parsed::Failed(e, k) => Parsed::Failed(e, k),
        Parsed::Stuck => Parsed::Stuck,
    }
}

/// Reading what follows the default binding (if any) of an import, from
/// index `k`: after a default binding, a comma before more bindings (else
/// none); then `* as name` or `{ specifiers }`. Gives the named imports and
/// the namespace binding.
pub open spec fn spec_import_bindings(
    tokens: Seq<Token>,
    k: int,
    ctx: crate::context::Context,
    default_binding: Option<IdentView>,
) -> Parsed<(Option<Seq<NamedImportView>>, Option<IdentView>)> {
    if default_binding is Some && !is_punct_at(tokens, k, Punct::Comma) {
        Parsed::Done((None, None), k)
    } else {
        let k2 = if default_binding is Some {
            k + 1
        } else {
            k
        };
        if is_punct_at(tokens, k2, Punct::Star) {
            match spec_namespace_import(tokens, k2, ctx) {
                Parsed::Done(n, k3) => Parsed::Done((None, Some(n)), k3),
                Parsed::Failed(e, k3) => Parsed::Failed(e, k3),
                Parsed::Stuck => Parsed::Stuck,
            }
        } else if is_punct_at(tokens, k2, Punct::BracketOpen) {
            match spec_named_imports(tokens, k2, ctx) {
                Parsed::Done(ns, k3) => Parsed::Done((Some(ns), None), k3),
                Parsed::Failed(e, k3) => Parsed::Failed(e, k3),
                Parsed::Stuck => Parsed::Stuck,
            }
        } else if 0 <= k2 < tokens.len() {
            Parsed::Failed(misplaced_token_error(tokens[k2]), k2 + 1)
        } else {
            Parsed::Failed(end_error(tokens, k2), k2)
        }
    }
}

/// Reading `from "module"` at index `k` and ending an import declaration
/// that started at `start`.
pub open spec fn spec_import_source(
    tokens: Seq<Token>,
    k: int,
    start: usize,
    default_binding: Option<IdentView>,
    named_imports: Option<Seq<NamedImportView>>,
    namespace_binding: Option<IdentView>,
) -> Parsed<ImportView> {
    match spec_expect(tokens, k, TokenValue::Keyword(Keyword::From)) {
        Parsed::Done(_, k2) => match spec_module_specifier(tokens, k2) {
            Parsed::Done(source, k3) => Parsed::Done(
                ImportView {
                    span: Span { start, end: position_after(tokens, k3) },
                    default_binding,
                    namespace_binding,
                    named_imports,
                    source,
                },
                k3,
            ),
            Parsed::Failed(e, k3) => Parsed::Failed(e, k3),
            Parsed::Stuck => Parsed::Stuck,
        },
        Parsed::Failed(e, k2) => Parsed::Failed(e, k2),
        Parsed::Stuck => Parsed::Stuck,
    }
}

/// Reading an import declaration at index `i`: `import "module"`, or
/// `import` with a default binding and/or namespace or named imports, then
/// `from "module"`.
pub open spec fn spec_import_declaration(tokens: Seq<Token>, i: int, ctx: crate::context::Context) -> Parsed<ImportView> {
    let start = start_position(tokens, i);
    match spec_expect(tokens, i, TokenValue::Keyword(Keyword::Import)) {
        Parsed::Done(_, k) => if 0 <= k < tokens.len() && tokens[k].value is Literal
            && tokens[k].value->Literal_0 is String {
            match spec_module_specifier(tokens, k) {
                Parsed::Done(source, k2) => Parsed::Done(
                    ImportView {
                        span: Span { start, end: position_after(tokens, k2) },
                        default_binding: None,
                        namespace_binding: None,
                        named_imports: None,
                        source,
                    },
                    k2,
                ),
                Parsed::Failed(e, k2) => Parsed::Failed(e, k2),
                Parsed::Stuck => Parsed::Stuck,
            }
        } else {
            let default_step: Parsed<Option<IdentView>> = if token_is_identifier(token_at(tokens, k), ctx) {
                match spec_identifier(tokens, k, ctx) {
                    Parsed::Done(v, k1) => Parsed::Done(Some(v), k1),
                    Parsed::Failed(e, k1) => Parsed::Failed(e, k1),
                    Parsed::Stuck => Parsed::Stuck,
                }
            } else {
                Parsed::Done(None, k)
            };
            match default_step {
                Parsed::Done(default_binding, k1) => match spec_import_bindings(tokens, k1, ctx, default_binding) {
                    Parsed::Done((named_imports, namespace_binding), k3) => spec_import_source(
                        tokens,
                        k3,
                        start,
                        default_binding,
                        named_imports,
                        namespace_binding,
                    ),
                    Parsed::Failed(e, k3) => Parsed::Failed(e, k3),
                    Parsed::Stuck => Parsed::Stuck,
                },
                Parsed::Failed(e, k1) => Parsed::Failed(e, k1),
                Parsed::Stuck => Parsed::Stuck,
            }
        },
        Parsed::Failed(e, k) => Parsed::Failed(e, k),
        Parsed::Stuck => Parsed::Stuck,
    }
}

/// An import whose token after `import` can be an identifier takes it as
/// its default binding, with its text and span: whatever follows it, a
/// declaration that parses has that default binding.
pub proof fn lemma_import_default_binding(tokens: Seq<Token>, i: int, ctx: crate::context::Context)
    requires
        0 <= i,
        i + 1 < tokens.len(),
        tokens[i].value == TokenValue::Keyword(Keyword::Import),
        token_is_identifier(Some(tokens[i + 1]), ctx),
    ensures
        spec_import_declaration(tokens, i, ctx) matches Parsed::Done(d, _) ==> d.default_binding
            == Some(bound_name(tokens, i + 1)),
{
    assert(token_at(tokens, i + 1) == Some(tokens[i + 1]));
    assert(spec_identifier(tokens, i + 1, ctx) == Parsed::Done(bound_name(tokens, i + 1), i + 2));
}

/// `import x from "m"` imports `x` as the default binding from `m`, with no
/// namespace or named imports, and reads those four tokens.
pub proof fn lemma_import_default_only(tokens: Seq<Token>, i: int, ctx: crate::context::Context)
    requires
        0 <= i,
        i + 3 < tokens.len(),
        tokens[i].value == TokenValue::Keyword(Keyword::Import),
        token_is_identifier(Some(tokens[i + 1]), ctx),
        tokens[i + 2].value == TokenValue::Keyword(Keyword::From),
        tokens[i + 3].value is Literal,
        tokens[i + 3].value->Literal_0 is String,
    ensures
        spec_import_declaration(tokens, i, ctx) == Parsed::Done(
            ImportView {
                span: Span { start: tokens[i].span.start, end: tokens[i + 3].span.end },
                default_binding: Some(bound_name(tokens, i + 1)),
                namespace_binding: None,
                named_imports: None,
                source: tokens[i + 3].value->Literal_0->String_0@,
            },
            i + 4,
        ),
{
    assert(token_at(tokens, i + 1) == Some(tokens[i + 1]));
    assert(spec_identifier(tokens, i + 1, ctx) == Parsed::Done(bound_name(tokens, i + 1), i + 2));
    assert(!is_punct_at(tokens, i + 2, Punct::Comma));
}

/// `import "m"` imports nothing by name from `m` and reads those two tokens.
pub proof fn lemma_import_source_only(tokens: Seq<Token>, i: int, ctx: crate::context::Context)
    requires
        0 <= i,
        i + 1 < tokens.len(),
        tokens[i].value == TokenValue::Keyword(Keyword::Import),
        tokens[i + 1].value is Literal,
        tokens[i + 1].value->Literal_0 is String,
    ensures
        spec_import_declaration(tokens, i, ctx) == Parsed::Done(
            ImportView {
                span: Span { start: tokens[i].span.start, end: tokens[i + 1].span.end },
                default_binding: None,
                namespace_binding: None,
                named_imports: None,
                source: tokens[i + 1].value->Literal_0->String_0@,
            },
            i + 2,
        ),
{
}

/// `import * as x from "m"` binds the namespace of `m` to `x`, with no
/// default binding or named imports, and reads those six tokens.
pub proof fn lemma_import_namespace(tokens: Seq<Token>, i: int, ctx: crate::context::Context)
    requires
        0 <= i,
        i + 5 < tokens.len(),
        tokens[i].value == TokenValue::Keyword(Keyword::Import),
        is_punct_at(tokens, i + 1, Punct::Star),
        tokens[i + 2].value == TokenValue::Keyword(Keyword::As),
        tokens[i + 3].value is Identifier,
        tokens[i + 4].value == TokenValue::Keyword(Keyword::From),
        tokens[i + 5].value is Literal,
        tokens[i + 5].value->Literal_0 is String,
    ensures
        spec_import_declaration(tokens, i, ctx) == Parsed::Done(
            ImportView {
                span: Span { start: tokens[i].span.start, end: tokens[i + 5].span.end },
                default_binding: None,
                namespace_binding: Some(bound_name(tokens, i + 3)),
                named_imports: None,
                source: tokens[i + 5].value->Literal_0->String_0@,
            },
            i + 6,
        ),
{
    assert(token_at(tokens, i + 1) == Some(tokens[i + 1]));
    assert(spec_identifier(tokens, i + 3, ctx) == Parsed::Done(bound_name(tokens, i + 3), i + 4));
}

/// A specifier `x as y` imports `x` under the alias `y`, spans those three
/// tokens and reads them.
pub proof fn lemma_import_specifier_alias(tokens: Seq<Token>, i: int, ctx: crate::context::Context)
    requires
        0 <= i,
        i + 2 < tokens.len(),
        tokens[i].value is Identifier,
        tokens[i + 1].value == TokenValue::Keyword(Keyword::As),
        tokens[i + 2].value is Identifier,
    ensures
        spec_import_specifier(tokens, i, ctx) == Parsed::Done(
            NamedImportView {
                span: Span { start: tokens[i].span.start, end: tokens[i + 2].span.end },
                name: bound_name(tokens, i),
                alias: Some(bound_name(tokens, i + 2)),
            },
            i + 3,
        ),
{
    assert(spec_identifier(tokens, i, ctx) == Parsed::Done(bound_name(tokens, i), i + 1));
    assert(spec_identifier(tokens, i + 2, ctx) == Parsed::Done(bound_name(tokens, i + 2), i + 3));
}

/// Reading on the specifiers of named imports never loses one that was
/// read: the specifiers it gives start with those read before.
pub proof fn lemma_named_imports_kept(
    tokens: Seq<Token>,
    j: int,
    ctx: crate::context::Context,
    named: Seq<NamedImportView>,
)
    ensures
        spec_named_imports_from(tokens, j, ctx, named) matches Parsed::Done(all, _) ==> named.len()
            <= all.len() && all.subrange(0, named.len() as int) == named,
    decreases tokens.len() - j,
{
    if is_punct_at(tokens, j, Punct::BracketClose) {
        assert(named.subrange(0, named.len() as int) =~= named);
    } else if let Parsed::Done(sp, k) = spec_import_specifier(tokens, j, ctx) {
        if let Parsed::Done(_, k2) = spec_list_delimiter(tokens, k, TokenValue::Punct(Punct::BracketClose)) {
            lemma_specifier_advances(tokens, j, ctx);
            let more = named.push(sp);
            lemma_named_imports_kept(tokens, k2, ctx, more);
            if let Parsed::Done(all, _) = spec_named_imports_from(tokens, k2, ctx, more) {
                assert(all.subrange(0, named.len() as int) =~= all.subrange(0, more.len() as int).subrange(0, named.len() as int));
                assert(more.subrange(0, named.len() as int) =~= named);
            }
        }
    }
}

/// A specifier that is read reads at least one token.
proof fn lemma_specifier_advances(tokens: Seq<Token>, j: int, ctx: crate::context::Context)
    ensures
        spec_import_specifier(tokens, j, ctx) matches Parsed::Done(_, k) ==> j < k,
{
}

/// The specifiers read on from the `m`-th name of a list of `n` names in
/// braces: each name gives one specifier, that name without an alias.
proof fn lemma_named_names_from(
    tokens: Seq<Token>,
    i: int,
    n: nat,
    ctx: crate::context::Context,
    m: nat,
    acc: Seq<NamedImportView>,
)
    requires
        is_name_list(tokens, i, n, Punct::BracketOpen, Punct::BracketClose),
        m < n,
        acc.len() == m,
    ensures
        spec_named_imports_from(tokens, name_index(i, m as int), ctx, acc) matches Parsed::Done(ns, k)
            && k == list_close(i, n) + 1 && ns.len() == n && ns.subrange(0, m as int) == acc
            && forall|t: int|
            m <= t < n ==> (#[trigger] ns[t]).name == bound_name(tokens, name_index(i, t))
                && ns[t].alias is None,
    decreases n - m,
{
    let j = name_index(i, m as int);
    assert(tokens[name_index(i, m as int)].value is Identifier);
    if m + 1 < n {
        assert(is_punct_at(tokens, name_index(i, m as int) + 1, Punct::Comma));
    } else {
        assert(list_close(i, n) == j + 1);
        assert(is_punct_at(tokens, j + 1, Punct::BracketClose));
    }
    let v = bound_name(tokens, j);
    assert(spec_identifier(tokens, j, ctx) == Parsed::Done(v, j + 1));
    let s = NamedImportView {
        span: Span { start: start_position(tokens, j), end: position_after(tokens, j + 1) },
        name: v,
        alias: None,
    };
    assert(spec_import_specifier(tokens, j, ctx) == Parsed::Done(s, j + 1));
    let acc2 = acc.push(s);
    let r = spec_named_imports_from(tokens, j, ctx, acc);
    if m + 1 < n {
        assert(name_index(i, m + 1int) == j + 2);
        assert(spec_list_delimiter(tokens, j + 1, TokenValue::Punct(Punct::BracketClose)) == Parsed::<()>::Done((), j + 2));
        lemma_named_names_from(tokens, i, n, ctx, (m + 1) as nat, acc2);
        assert(r == spec_named_imports_from(tokens, name_index(i, m + 1int), ctx, acc2));
        if let Parsed::Done(ns, _) = r {
            assert(ns.subrange(0, m as int) =~= ns.subrange(0, m + 1int).subrange(0, m as int));
            assert(ns[m as int] == ns.subrange(0, m + 1int)[m as int]);
        }
    } else {
        assert(spec_list_delimiter(tokens, j + 1, TokenValue::Punct(Punct::BracketClose)) == Parsed::<()>::Done((), j + 1));
        assert(acc2.subrange(0, m as int) =~= acc);
        assert(r == spec_named_imports_from(tokens, j + 1, ctx, acc2));
    }
}

/// Named imports of names, `{x1, ..., xn}`, give exactly `n` specifiers in
/// order, the `t`-th of which imports `xt` without an alias, and read up to
/// and including the `}`.
pub proof fn lemma_named_imports_of_names(tokens: Seq<Token>, i: int, n: nat, ctx: crate::context::Context)
    requires
        is_name_list(tokens, i, n, Punct::BracketOpen, Punct::BracketClose),
    ensures
        spec_named_imports(tokens, i, ctx) matches Parsed::Done(ns, k) && k == list_close(i, n) + 1
            && ns.len() == n && forall|t: int|
            0 <= t < n ==> (#[trigger] ns[t]).name == bound_name(tokens, name_index(i, t))
                && ns[t].alias is None,
{
    if n > 0 {
        lemma_named_names_from(tokens, i, n, ctx, 0, Seq::empty());
    }
}

/// An import whose bindings hold `{ specifiers }` (right after `import`, or
/// after a default binding and a comma) that parses has as its named imports
/// exactly the specifiers read in the braces, and no namespace binding.
pub proof fn lemma_import_named_imports(tokens: Seq<Token>, i: int, j: int, ctx: crate::context::Context)
    requires
        0 <= i,
        i + 1 < tokens.len(),
        tokens[i].value == TokenValue::Keyword(Keyword::Import),
        is_punct_at(tokens, j, Punct::BracketOpen),
        j == i + 1 || (j == i + 3 && token_is_identifier(Some(tokens[i + 1]), ctx) && is_punct_at(
            tokens,
            i + 2,
            Punct::Comma,
        )),
    ensures
        spec_import_declaration(tokens, i, ctx) matches Parsed::Done(d, _) ==> (spec_named_imports(
            tokens,
            j,
            ctx,
        ) matches Parsed::Done(ns, _) && d.named_imports == Some(ns) && d.namespace_binding is None),
{
    assert(token_at(tokens, i + 1) == Some(tokens[i + 1]));
    if j == i + 3 {
        assert(spec_identifier(tokens, i + 1, ctx) == Parsed::Done(bound_name(tokens, i + 1), i + 2));
    }
}

impl<'a> Parser<'a> {
    /// Parses an import declaration (see `spec_import_declaration`). Where a
    /// module specifier is not a string literal, the parser reads a literal
    /// expression, which this crate does not hold; such inputs are left out.
    pub fn parse_import_declaration(&mut self) -> (result: Result<DeclImport, Error>)
        requires
            old(self).wf(),
            !(spec_import_declaration(old(self).tokens(), old(self).index(), old(self).context()) is Stuck),
        ensures
            Parser::same_input(*old(self), *final(self)),
            *final(final(self).reader_ref()) == *final(old(self).reader_ref()),
            outcome_is(
                spec_import_declaration(old(self).tokens(), old(self).index(), old(self).context()),
                result,
                final(self).index(),
                |d: DeclImport| import_view(d),
            ),
    {
        let span_start = self.position();
        self.consume_assert(&TokenValue::Keyword(Keyword::Import))?;

        // `import "./module.js"`;
        if self.current_matches_string_literal() {
            let source = self.parse_module_specifier()?;
            let span = self.span_from(span_start);
            return Ok(
                DeclImport {
                    span,
                    default_binding: None,
                    namespace_binding: None,
                    named_imports: None,
                    source,
                },
            );
        }
        let default_binding = if self.is_identifier() {
            Some(self.parse_identifier()?)
        } else {
            None
        };
        let more = match default_binding {
            None => true,
            Some(_) => self.maybe_consume(&TokenValue::Punct(Punct::Comma))?,
        };
        let (named_imports, namespace_binding) = if more {
            let (is_star, is_brace) = match self.current() {
                Ok(Token { value: TokenValue::Punct(Punct::Star), .. }) => (true, false),
                Ok(Token { value: TokenValue::Punct(Punct::BracketOpen), .. }) => (false, true),
                _ => (false, false),
            };
            if is_star {
                (None, Some(self.parse_namespace_import()?))
            } else if is_brace {
                (Some(self.parse_named_imports()?), None)
            } else {
                let token = self.consume()?;
                return Err(Error::of(ErrorKind::UnexpectedToken(token)));
            }
        } else {
            (None, None)
        };
        self.consume_assert(&TokenValue::Keyword(Keyword::From))?;
        let source = self.parse_module_specifier()?;
        let span = self.span_from(span_start);
        Ok(DeclImport { span, default_binding, namespace_binding, named_imports, source })
    }

    /// Reads the module specifier, the string literal at the current token.
    pub fn parse_module_specifier(&mut self) -> (result: Result<String, Error>)
        requires
            old(self).wf(),
            !(spec_module_specifier(old(self).tokens(), old(self).index()) is Stuck),
        ensures
            Parser::same_input(*old(self), *final(self)),
            *final(final(self).reader_ref()) == *final(old(self).reader_ref()),
            outcome_is(
                spec_module_specifier(old(self).tokens(), old(self).index()),
                result,
                final(self).index(),
                |s: String| s@,
            ),
    {
        let token = self.consume()?;
        match token.value {
            TokenValue::Literal(Literal::String(module_name, _)) => Ok(module_name),
            _ => {
                assert(false);
                Err(Error::unexpected_token(token))
            },
        }
    }

    /// Parses `* as name` (see `spec_namespace_import`).
    pub fn parse_namespace_import(&mut self) -> (result: Result<Ident, Error>)
        requires
            old(self).wf(),
        ensures
            Parser::same_input(*old(self), *final(self)),
            *final(final(self).reader_ref()) == *final(old(self).reader_ref()),
            outcome_is(
                spec_namespace_import(old(self).tokens(), old(self).index(), old(self).context()),
                result,
                final(self).index(),
                |i: Ident| i@,
            ),
    {
        self.consume_assert(&TokenValue::Punct(Punct::Star))?;
        self.consume_assert(&TokenValue::Keyword(Keyword::As))?;
        self.parse_identifier()
    }

    /// Parses `{ specifiers }` (see `spec_named_imports`).
    pub fn parse_named_imports(&mut self) -> (result: Result<Vec<NamedImport>, Error>)
        requires
            old(self).wf(),
        ensures
            Parser::same_input(*old(self), *final(self)),
            *final(final(self).reader_ref()) == *final(old(self).reader_ref()),
            outcome_is(
                spec_named_imports(old(self).tokens(), old(self).index(), old(self).context()),
                result,
                final(self).index(),
                |ns: Vec<NamedImport>| named_imports_view(ns@),
            ),
    {
        let ghost before = *self;
        let ghost toks = self.tokens();
        let ghost ctx = self.context();
        self.consume_assert(&TokenValue::Punct(Punct::BracketOpen))?;
        let ghost first = self.index();
        let mut named_imports: Vec<NamedImport> = Vec::new();
        assert(named_imports_view(named_imports@) =~= Seq::<NamedImportView>::empty());
        loop
            invariant
                before == *old(self),
                toks == before.tokens(),
                ctx == before.context(),
                first == before.index() + 1,
                Parser::same_input(before, *self),
                *final(self.reader_ref()) == *final(old(self).reader_ref()),
                first <= self.index() <= toks.len(),
                spec_named_imports_from(toks, self.index(), ctx, named_imports_view(named_imports@))
                    == spec_named_imports_from(toks, first, ctx, Seq::empty()),
                spec_named_imports(toks, before.index(), ctx) == spec_named_imports_from(
                    toks,
                    first,
                    ctx,
                    Seq::empty(),
                ),
            decreases toks.len() - self.index(),
        {
            if self.current_matches(&TokenValue::Punct(Punct::BracketClose)) {
                self.consume()?;
                return Ok(named_imports);
            }
            let specifier = self.parse_import_specifier()?;
            let ghost before_push = named_imports@;
            named_imports.push(specifier);
            assert(named_imports_view(named_imports@) =~= named_imports_view(before_push).push(
                named_import_view(specifier),
            ));
            self.consume_object_delimiter()?;
        }
    }

    /// Parses `name` or `name as alias` (see `spec_import_specifier`).
    pub fn parse_import_specifier(&mut self) -> (result: Result<NamedImport, Error>)
        requires
            old(self).wf(),
        ensures
            Parser::same_input(*old(self), *final(self)),
            *final(final(self).reader_ref()) == *final(old(self).reader_ref()),
            outcome_is(
                spec_import_specifier(old(self).tokens(), old(self).index(), old(self).context()),
                result,
                final(self).index(),
                |n: NamedImport| named_import_view(n),
            ),
            result is Ok ==> final(self).index() > old(self).index(),
    {
        let span_start = self.position();
        let name = self.parse_identifier()?;
        let alias = if self.maybe_consume(&TokenValue::Keyword(Keyword::As))? {
            Some(self.parse_identifier()?)
        } else {
            None
        };
        let span = self.span_from(span_start);
        Ok(NamedImport { span, name, alias })
    }
}

} // verus!
