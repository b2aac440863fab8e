use crate::ast::{Ident, IdentView};
use crate::error::{error_at, Error, ErrorKind, ErrorKindView, ErrorView};
use crate::parser::{
    end_error, is_name_list, is_punct_at, list_close, name_index, name_text, spec_identifier,
    spec_list_delimiter, start_position, outcome_is, token_is_identifier, Parsed, Parser,
};
use crate::span::Span;
use crate::token::{Punct, Token, TokenValue};
use crate::token_reader::position_after;
use vstd::prelude::*;
use vstd::string::*;

verus! {

/// A binding pattern: a single name, or an object or array pattern that
/// takes a value apart.
#[derive(Debug, PartialEq)]
pub enum BindingPattern {
    Ident(Ident),
    Object(ObjectBinding),
    Array(ArrayBinding),
}

/// An object binding pattern, `{ a, b, ...rest }`.
#[derive(Debug, PartialEq)]
pub struct ObjectBinding {
    pub span: Span,
    pub props: Vec<ObjectBindingProp>,
    pub rest: Option<Ident>,
}

/// A property of an object binding pattern.
#[derive(Debug, PartialEq)]
pub enum ObjectBindingProp {
    Assign(Ident),
}

/// An array binding pattern, `[ a, , [b], ...rest ]`; a hole is `None`.
#[derive(Debug, PartialEq)]
pub struct ArrayBinding {
    pub span: Span,
    pub elements: Vec<Option<BindingElement>>,
    pub rest: Option<Ident>,
}

/// An element of an array binding pattern.
#[derive(Debug, PartialEq)]
pub struct BindingElement {
    pub span: Span,
    pub pattern: BindingPattern,
}

/// A binding pattern as a value.
pub enum PatternView {
    Ident(IdentView),
    /// The span, the names of the properties, and the rest name.
    Object(Span, Seq<IdentView>, Option<IdentView>),
    /// The span, the elements (`None` for a hole), and the rest name.
    Array(Span, Seq<Option<ElementView>>, Option<IdentView>),
}

/// An element of an array binding pattern as a value.
pub struct ElementView {
    pub span: Span,
    pub pattern: Box<PatternView>,
}

pub open spec fn opt_ident_view(ident: Option<Ident>) -> Option<IdentView> {
    match ident {
        Some(i) => Some(i@),
        None => None,
    }
}

pub open spec fn prop_view(prop: ObjectBindingProp) -> IdentView {
    match prop {
        ObjectBindingProp::Assign(i) => i@,
    }
}

pub open spec fn pattern_view(pattern: BindingPattern) -> PatternView
    decreases pattern,
{
    match pattern {
        BindingPattern::Ident(i) => PatternView::Ident(i@),
        BindingPattern::Object(o) => PatternView::Object(
            o.span,
            o.props@.map_values(|q: ObjectBindingProp| prop_view(q)),
            opt_ident_view(o.rest),
        ),
        BindingPattern::Array(a) => PatternView::Array(
            a.span,
            Seq::new(
                a.elements@.len(),
                |k: int|
                    if 0 <= k < a.elements@.len() {
                        match a.elements@[k] {
                            Some(e) => Some(
                                ElementView { span: e.span, pattern: Box::new(pattern_view(e.pattern)) },
                            ),
                            None => None,
                        }
                    } else {
                        None
                    },
            ),
            opt_ident_view(a.rest),
        ),
    }
}

pub open spec fn element_view(e: BindingElement) -> ElementView {
    ElementView { span: e.span, pattern: Box::new(pattern_view(e.pattern)) }
}

pub open spec fn elements_view(elements: Seq<Option<BindingElement>>) -> Seq<Option<ElementView>> {
    Seq::new(
        elements.len(),
        |k: int|
            if 0 <= k < elements.len() {
                match elements[k] {
                    Some(e) => Some(element_view(e)),
                    None => None,
                }
            } else {
                None
            },
    )
}

impl View for BindingPattern {
    type V = PatternView;

    open spec fn view(&self) -> PatternView {
        pattern_view(*self)
    }
}

impl View for BindingElement {
    type V = ElementView;

    open spec fn view(&self) -> ElementView {
        element_view(*self)
    }
}

/// The error for a rest element that is not the last element.
pub open spec fn rest_not_last_error(span: Span) -> ErrorView {
    error_at(ErrorKindView::SyntaxError("Rest element must be last element"@, span), Span::spec_empty())
}

/// The error for a token that may not start or continue a binding pattern.
pub open spec fn misplaced_token_error(token: Token) -> ErrorView {
    error_at(ErrorKindView::UnexpectedToken(token), Span::spec_empty())
}

/// Parsing the name after `...` at index `j`, which must be followed by the
/// punctuator `end` that closes the pattern.
pub open spec fn spec_rest_ident(tokens: Seq<Token>, j: int, ctx: crate::context::Context, end: Punct) -> Parsed<IdentView> {
    match spec_identifier(tokens, j, ctx) {
        Parsed::Done(v, k) => if !(0 <= k < tokens.len()) {
            Parsed::Failed(end_error(tokens, k), k)
        } else if is_punct_at(tokens, k, end) {
            Parsed::Done(v, k + 1)
        } else {
            Parsed::Failed(rest_not_last_error(v.span), k + 1)
        },
        Parsed::Failed(e, k) => Parsed::Failed(e, k),
        Parsed::Stuck => Parsed::Stuck,
    }
}

/// The end of an object pattern whose closing brace has been read, with `k`
/// the index after it: a `;` that follows is read too.
pub open spec fn spec_object_end(
    tokens: Seq<Token>,
    k: int,
    start: usize,
    props: Seq<IdentView>,
    rest: Option<IdentView>,
) -> Parsed<PatternView> {
    if !(0 <= k < tokens.len()) {
        Parsed::Failed(end_error(tokens, k), k)
    } else {
        let k2 = if is_punct_at(tokens, k, Punct::SemiColon) {
            k + 1
        } else {
            k
        };
        Parsed::Done(
            PatternView::Object(Span { start, end: position_after(tokens, k2) }, props, rest),
            k2,
        )
    }
}

/// Parsing the properties of an object pattern from index `j` on, with
/// `props` read so far and the pattern starting at `start`: names separated
/// by commas, up to `}` or to a rest element `...name}`.
pub open spec fn spec_object_props(
    tokens: Seq<Token>,
    j: int,
    ctx: crate::context::Context,
    start: usize,
    props: Seq<IdentView>,
) -> Parsed<PatternView>
    decreases tokens.len() - j,
{
    if !(0 <= j < tokens.len()) {
        Parsed::Failed(end_error(tokens, j), j)
    } else if is_punct_at(tokens, j, Punct::BracketClose) {
        spec_object_end(tokens, j + 1, start, props, None)
    } else if is_punct_at(tokens, j, Punct::TripleDot) {
        match spec_rest_ident(tokens, j + 1, ctx, Punct::BracketClose) {
            Parsed::Done(v, k) => spec_object_end(tokens, k, start, props, Some(v)),
            Parsed::Failed(e, k) => Parsed::Failed(e, k),
            Parsed::Stuck => Parsed::Stuck,
        }
    } else if token_is_identifier(Some(tokens[j]), ctx) {
        match spec_identifier(tokens, j, ctx) {
            Parsed::Done(v, k) => match spec_list_delimiter(tokens, k, TokenValue::Punct(Punct::BracketClose)) {
                Parsed::Done(_, k2) => spec_object_props(tokens, k2, ctx, start, props.push(v)),
                Parsed::Failed(e, k2) => Parsed::Failed(e, k2),
                Parsed::Stuck => Parsed::Stuck,
            },
            Parsed::Failed(e, k) => Parsed::Failed(e, k),
            Parsed::Stuck => Parsed::Stuck,
        }
    } else {
        Parsed::Failed(misplaced_token_error(tokens[j]), j + 1)
    }
}

/// Parsing a binding pattern at index `i`: an object pattern at `{`, an
/// array pattern at `[`, or a name.
pub open spec fn spec_pattern(tokens: Seq<Token>, i: int, ctx: crate::context::Context) -> Parsed<PatternView>
    decreases tokens.len() - i, 1int,
{
    if !(0 <= i < tokens.len()) {
        Parsed::Failed(end_error(tokens, i), i)
    } else if is_punct_at(tokens, i, Punct::BracketOpen) {
        spec_object_props(tokens, i + 1, ctx, start_position(tokens, i), Seq::empty())
    } else if is_punct_at(tokens, i, Punct::BraceOpen) {
        spec_array_elements(tokens, i + 1, ctx, start_position(tokens, i), Seq::empty())
    } else if token_is_identifier(Some(tokens[i]), ctx) {
        match spec_identifier(tokens, i, ctx) {
            Parsed::Done(v, k) => Parsed::Done(PatternView::Ident(v), k),
            Parsed::Failed(e, k) => Parsed::Failed(e, k),
            Parsed::Stuck => Parsed::Stuck,
        }
    } else {
        Parsed::Failed(misplaced_token_error(tokens[i]), i + 1)
    }
}

/// Parsing an element of an array pattern at index `j`: a pattern, which
/// must be followed by a token. An initializer (`=` after the pattern) is not
/// supported: `Stuck`.
pub open spec fn spec_element(tokens: Seq<Token>, j: int, ctx: crate::context::Context) -> Parsed<ElementView>
    decreases tokens.len() - j, 2int,
{
    match spec_pattern(tokens, j, ctx) {
        Parsed::Done(p, k) => if !(0 <= k < tokens.len()) {
            Parsed::Failed(end_error(tokens, k), k)
        } else if is_punct_at(tokens, k, Punct::Equal) {
            Parsed::Stuck
        } else {
            Parsed::Done(
                ElementView {
                    span: Span { start: start_position(tokens, j), end: position_after(tokens, k) },
                    pattern: Box::new(p),
                },
                k,
            )
        },
        Parsed::Failed(e, k) => Parsed::Failed(e, k),
        Parsed::Stuck => Parsed::Stuck,
    }
}

/// Parsing the elements of an array pattern from index `j` on, with
/// `elements` read so far and the pattern starting at `start`: elements and
/// holes separated by commas, up to `]` or to a rest element `...name]`.
pub open spec fn spec_array_elements(
    tokens: Seq<Token>,
    j: int,
    ctx: crate::context::Context,
    start: usize,
    elements: Seq<Option<ElementView>>,
) -> Parsed<PatternView>
    decreases tokens.len() - j, 3int,
{
    if !(0 <= j < tokens.len()) {
        Parsed::Failed(end_error(tokens, j), j)
    } else if is_punct_at(tokens, j, Punct::BraceClose) {
        Parsed::Done(
            PatternView::Array(Span { start, end: position_after(tokens, j + 1) }, elements, None),
            j + 1,
        )
    } else if is_punct_at(tokens, j, Punct::Comma) {
        spec_array_elements(tokens, j + 1, ctx, start, elements.push(None))
    } else if is_punct_at(tokens, j, Punct::TripleDot) {
        match spec_rest_ident(tokens, j + 1, ctx, Punct::BraceClose) {
            Parsed::Done(v, k) => Parsed::Done(
                PatternView::Array(Span { start, end: position_after(tokens, k) }, elements, Some(v)),
                k,
            ),
            Parsed::Failed(e, k) => Parsed::Failed(e, k),
            Parsed::Stuck => Parsed::Stuck,
        }
    } else if is_punct_at(tokens, j, Punct::BracketOpen) || is_punct_at(tokens, j, Punct::BraceOpen)
        || token_is_identifier(Some(tokens[j]), ctx) {
        match spec_element(tokens, j, ctx) {
            Parsed::Done(e, k) => match spec_list_delimiter(tokens, k, TokenValue::Punct(Punct::BraceClose)) {
                Parsed::Done(_, k2) => if j < k2 <= tokens.len() {
                    spec_array_elements(tokens, k2, ctx, start, elements.push(Some(e)))
                } else {
                    Parsed::Stuck
                },
                Parsed::Failed(e2, k2) => Parsed::Failed(e2, k2),
                Parsed::Stuck => Parsed::Stuck,
            },
            Parsed::Failed(e, k) => Parsed::Failed(e, k),
            Parsed::Stuck => Parsed::Stuck,
        }
    } else {
        Parsed::Failed(misplaced_token_error(tokens[j]), j + 1)
    }
}

/// Parsing an object pattern's properties that succeeds reads at least one
/// token and no more than there are.
pub proof fn lemma_object_props_advance(
    tokens: Seq<Token>,
    j: int,
    ctx: crate::context::Context,
    start: usize,
    props: Seq<IdentView>,
)
    requires
        0 <= j,
    ensures
        spec_object_props(tokens, j, ctx, start, props) matches Parsed::Done(_, k) ==> j < k <= tokens.len(),
    decreases tokens.len() - j,
{
    if 0 <= j < tokens.len() && !is_punct_at(tokens, j, Punct::BracketClose) && !is_punct_at(
        tokens,
        j,
        Punct::TripleDot,
    ) && token_is_identifier(Some(tokens[j]), ctx) {
        if let Parsed::Done(v, k) = spec_identifier(tokens, j, ctx) {
            if let Parsed::Done(_, k2) = spec_list_delimiter(tokens, k, TokenValue::Punct(Punct::BracketClose)) {
                lemma_object_props_advance(tokens, k2, ctx, start, props.push(v));
            }
        }
    }
}

/// Parsing a binding pattern that succeeds reads at least one token and no
/// more than there are.
pub proof fn lemma_pattern_advances(tokens: Seq<Token>, i: int, ctx: crate::context::Context)
    requires
        0 <= i,
    ensures
        spec_pattern(tokens, i, ctx) matches Parsed::Done(_, k) ==> i < k <= tokens.len(),
    decreases tokens.len() - i, 1int,
{
    if 0 <= i < tokens.len() {
        if is_punct_at(tokens, i, Punct::BracketOpen) {
            lemma_object_props_advance(tokens, i + 1, ctx, start_position(tokens, i), Seq::empty());
        } else if is_punct_at(tokens, i, Punct::BraceOpen) {
            lemma_array_elements_advance(tokens, i + 1, ctx, start_position(tokens, i), Seq::empty());
        }
    }
}

/// Parsing an array pattern's element that succeeds reads at least one token
/// and leaves at least one.
pub proof fn lemma_element_advances(tokens: Seq<Token>, j: int, ctx: crate::context::Context)
    requires
        0 <= j,
    ensures
        spec_element(tokens, j, ctx) matches Parsed::Done(_, k) ==> j < k < tokens.len(),
    decreases tokens.len() - j, 2int,
{
    lemma_pattern_advances(tokens, j, ctx);
}

/// Parsing an array pattern's elements that succeeds reads at least one
/// token and no more than there are. So the bound that `spec_array_elements`
/// checks after an element and its delimiter always holds: the parser is
/// only `Stuck` on an element followed by `=`.
pub proof fn lemma_array_elements_advance(
    tokens: Seq<Token>,
    j: int,
    ctx: crate::context::Context,
    start: usize,
    elements: Seq<Option<ElementView>>,
)
    requires
        0 <= j,
    ensures
        spec_array_elements(tokens, j, ctx, start, elements) matches Parsed::Done(_, k) ==> j < k
            <= tokens.len(),
        spec_element(tokens, j, ctx) matches Parsed::Done(_, k) ==> (spec_list_delimiter(
            tokens,
            k,
            TokenValue::Punct(Punct::BraceClose),
        ) matches Parsed::Done(_, k2) ==> j < k2 <= tokens.len()),
    decreases tokens.len() - j, 3int,
{
    lemma_element_advances(tokens, j, ctx);
    if 0 <= j < tokens.len() && !is_punct_at(tokens, j, Punct::BraceClose) {
        if is_punct_at(tokens, j, Punct::Comma) {
            lemma_array_elements_advance(tokens, j + 1, ctx, start, elements.push(None));
        } else if !is_punct_at(tokens, j, Punct::TripleDot) {
            if let Parsed::Done(e, k) = spec_element(tokens, j, ctx) {
                if let Parsed::Done(_, k2) = spec_list_delimiter(tokens, k, TokenValue::Punct(Punct::BraceClose)) {
                    lemma_array_elements_advance(tokens, k2, ctx, start, elements.push(Some(e)));
                }
            }
        }
    }
}

/// Reading on the elements of an array pattern never loses one that was
/// read: the elements it gives start with those read before.
pub proof fn lemma_array_elements_kept(
    tokens: Seq<Token>,
    j: int,
    ctx: crate::context::Context,
    start: usize,
    elements: Seq<Option<ElementView>>,
)
    requires
        0 <= j,
    ensures
        spec_array_elements(tokens, j, ctx, start, elements) matches Parsed::Done(
            PatternView::Array(_, all, _),
            _,
        ) ==> elements.len() <= all.len() && all.subrange(0, elements.len() as int) == elements,
    decreases tokens.len() - j,
{
    if 0 <= j < tokens.len() && !is_punct_at(tokens, j, Punct::BraceClose) {
        if is_punct_at(tokens, j, Punct::Comma) {
            let more = elements.push(None);
            lemma_array_elements_kept(tokens, j + 1, ctx, start, more);
            if let Parsed::Done(PatternView::Array(_, all, _), _) = spec_array_elements(tokens, j + 1, ctx, start, more) {
                assert(all.subrange(0, elements.len() as int) =~= all.subrange(0, more.len() as int).subrange(0, elements.len() as int));
                assert(more.subrange(0, elements.len() as int) =~= elements);
            }
        } else if !is_punct_at(tokens, j, Punct::TripleDot) {
            lemma_array_elements_advance(tokens, j, ctx, start, elements);
            if let Parsed::Done(e, k) = spec_element(tokens, j, ctx) {
                if let Parsed::Done(_, k2) = spec_list_delimiter(tokens, k, TokenValue::Punct(Punct::BraceClose)) {
                    let more = elements.push(Some(e));
                    lemma_array_elements_kept(tokens, k2, ctx, start, more);
                    if let Parsed::Done(PatternView::Array(_, all, _), _) = spec_array_elements(tokens, k2, ctx, start, more) {
                        assert(all.subrange(0, elements.len() as int) =~= all.subrange(0, more.len() as int).subrange(0, elements.len() as int));
                        assert(more.subrange(0, elements.len() as int) =~= elements);
                    }
                }
            }
        }
    }
}

/// Reading on the properties of an object pattern never loses one that was
/// read: the names it gives start with those read before.
pub proof fn lemma_object_props_kept(
    tokens: Seq<Token>,
    j: int,
    ctx: crate::context::Context,
    start: usize,
    props: Seq<IdentView>,
)
    requires
        0 <= j,
    ensures
        spec_object_props(tokens, j, ctx, start, props) matches Parsed::Done(
            PatternView::Object(_, all, _),
            _,
        ) ==> props.len() <= all.len() && all.subrange(0, props.len() as int) == props,
    decreases tokens.len() - j,
{
    if 0 <= j < tokens.len() && !is_punct_at(tokens, j, Punct::BracketClose) && !is_punct_at(
        tokens,
        j,
        Punct::TripleDot,
    ) && token_is_identifier(Some(tokens[j]), ctx) {
        if let Parsed::Done(v, k) = spec_identifier(tokens, j, ctx) {
            if let Parsed::Done(_, k2) = spec_list_delimiter(tokens, k, TokenValue::Punct(Punct::BracketClose)) {
                let more = props.push(v);
                lemma_object_props_kept(tokens, k2, ctx, start, more);
                if let Parsed::Done(PatternView::Object(_, all, _), _) = spec_object_props(tokens, k2, ctx, start, more) {
                    assert(all.subrange(0, props.len() as int) =~= all.subrange(0, more.len() as int).subrange(0, props.len() as int));
                    assert(more.subrange(0, props.len() as int) =~= props);
                }
            }
        }
    } else if 0 <= j < tokens.len() && is_punct_at(tokens, j, Punct::BracketClose) {
        assert(props.subrange(0, props.len() as int) =~= props);
    } else if 0 <= j < tokens.len() && is_punct_at(tokens, j, Punct::TripleDot) {
        assert(props.subrange(0, props.len() as int) =~= props);
    }
}

/// The name that the identifier token at index `j` binds.
pub open spec fn bound_name(tokens: Seq<Token>, j: int) -> IdentView {
    IdentView { span: tokens[j].span, name: name_text(tokens[j]) }
}

/// The elements of an array pattern read on from the `m`-th name of a list
/// of `n` names: each name gives one element, which binds that name.
proof fn lemma_array_names_from(
    tokens: Seq<Token>,
    i: int,
    n: nat,
    ctx: crate::context::Context,
    start: usize,
    m: nat,
    acc: Seq<Option<ElementView>>,
)
    requires
        is_name_list(tokens, i, n, Punct::BraceOpen, Punct::BraceClose),
        m < n,
        acc.len() == m,
    ensures
        spec_array_elements(tokens, name_index(i, m as int), ctx, start, acc) matches Parsed::Done(
            PatternView::Array(span, elements, rest),
            k,
        ) && k == list_close(i, n) + 1 && rest is None && elements.len() == n
            && span == (Span { start, end: tokens[list_close(i, n)].span.end })
            && elements.subrange(0, m as int) == acc && forall|t: int|
            m <= t < n ==> (#[trigger] elements[t] matches Some(e) && *e.pattern == PatternView::Ident(
                bound_name(tokens, name_index(i, t)),
            ) && e.span == tokens[name_index(i, t)].span),
    decreases n - m,
{
    let j = name_index(i, m as int);
    assert(tokens[name_index(i, m as int)].value is Identifier);
    if m + 1 < n {
        assert(is_punct_at(tokens, name_index(i, m as int) + 1, Punct::Comma));
    }
    assert(token_is_identifier(Some(tokens[j]), ctx));
    let v = bound_name(tokens, j);
    assert(spec_identifier(tokens, j, ctx) == Parsed::Done(v, j + 1));
    assert(spec_pattern(tokens, j, ctx) == Parsed::Done(PatternView::Ident(v), j + 1));
    let e = ElementView {
        span: Span { start: start_position(tokens, j), end: position_after(tokens, j + 1) },
        pattern: Box::new(PatternView::Ident(v)),
    };
    assert(spec_element(tokens, j, ctx) == Parsed::Done(e, j + 1));
    let acc2 = acc.push(Some(e));
    if m + 1 < n {
        assert(name_index(i, m + 1int) == j + 2);
        assert(spec_list_delimiter(tokens, j + 1, TokenValue::Punct(Punct::BraceClose)) == Parsed::<()>::Done((), j + 2));
        lemma_array_names_from(tokens, i, n, ctx, start, (m + 1) as nat, acc2);
        let r = spec_array_elements(tokens, name_index(i, m as int), ctx, start, acc);
        assert(r == spec_array_elements(tokens, name_index(i, m + 1int), ctx, start, acc2));
        if let Parsed::Done(PatternView::Array(_, elements, _), _) = r {
            assert(elements.subrange(0, m as int) =~= elements.subrange(0, m + 1int).subrange(0, m as int));
            assert(elements[m as int] == elements.subrange(0, m + 1int)[m as int]);
            assert(elements[m as int] == Some(e));
        }
    } else {
        assert(list_close(i, n) == j + 1);
        assert(spec_list_delimiter(tokens, j + 1, TokenValue::Punct(Punct::BraceClose)) == Parsed::<()>::Done((), j + 1));
        assert(is_punct_at(tokens, j + 1, Punct::BraceClose));
        assert(acc2.subrange(0, m as int) =~= acc);
        assert(acc2[m as int] == Some(e));
        let r = spec_array_elements(tokens, name_index(i, m as int), ctx, start, acc);
        assert(r == spec_array_elements(tokens, j + 1, ctx, start, acc2));
        assert(r matches Parsed::Done(PatternView::Array(_, elements, None), k) && elements == acc2 && k == j + 2);
    }
}

/// An array pattern of names, `[x1, ..., xn]`, has exactly `n` elements in
/// order, the `t`-th of which binds `xt` and spans it, and no rest name; it
/// spans and reads from the `[` up to and including the `]`.
pub proof fn lemma_array_of_names(tokens: Seq<Token>, i: int, n: nat, ctx: crate::context::Context)
    requires
        is_name_list(tokens, i, n, Punct::BraceOpen, Punct::BraceClose),
    ensures
        spec_pattern(tokens, i, ctx) matches Parsed::Done(PatternView::Array(span, elements, rest), k)
            && k == list_close(i, n) + 1 && rest is None && elements.len() == n
            && span == (Span { start: tokens[i].span.start, end: tokens[list_close(i, n)].span.end })
            && forall|t: int|
            0 <= t < n ==> (#[trigger] elements[t] matches Some(e) && *e.pattern == PatternView::Ident(
                bound_name(tokens, name_index(i, t)),
            ) && e.span == tokens[name_index(i, t)].span),
{
    if n > 0 {
        lemma_array_names_from(tokens, i, n, ctx, start_position(tokens, i), 0, Seq::empty());
    }
}

/// The index after an object pattern whose `}` stands at `close`: a `;`
/// right after it is read too.
pub open spec fn after_object(tokens: Seq<Token>, close: int) -> int {
    if is_punct_at(tokens, close + 1, Punct::SemiColon) {
        close + 2
    } else {
        close + 1
    }
}

/// The properties of an object pattern read on from the `m`-th name of a
/// list of `n` names: each name gives one property, that name.
proof fn lemma_object_names_from(
    tokens: Seq<Token>,
    i: int,
    n: nat,
    ctx: crate::context::Context,
    start: usize,
    m: nat,
    acc: Seq<IdentView>,
)
    requires
        is_name_list(tokens, i, n, Punct::BracketOpen, Punct::BracketClose),
        list_close(i, n) + 1 < tokens.len(),
        m < n,
        acc.len() == m,
    ensures
        spec_object_props(tokens, name_index(i, m as int), ctx, start, acc) matches Parsed::Done(
            PatternView::Object(span, props, rest),
            k,
        ) && k == after_object(tokens, list_close(i, n)) && rest is None && props.len() == n
            && span == (Span { start, end: tokens[k - 1].span.end })
            && props.subrange(0, m as int) == acc && forall|t: int|
            m <= t < n ==> #[trigger] props[t] == bound_name(tokens, name_index(i, t)),
    decreases n - m,
{
    let j = name_index(i, m as int);
    assert(tokens[name_index(i, m as int)].value is Identifier);
    if m + 1 < n {
        assert(is_punct_at(tokens, name_index(i, m as int) + 1, Punct::Comma));
    }
    assert(token_is_identifier(Some(tokens[j]), ctx));
    let v = bound_name(tokens, j);
    assert(spec_identifier(tokens, j, ctx) == Parsed::Done(v, j + 1));
    let acc2 = acc.push(v);
    let r = spec_object_props(tokens, j, ctx, start, acc);
    if m + 1 < n {
        assert(name_index(i, m + 1int) == j + 2);
        assert(spec_list_delimiter(tokens, j + 1, TokenValue::Punct(Punct::BracketClose)) == Parsed::<()>::Done((), j + 2));
        lemma_object_names_from(tokens, i, n, ctx, start, (m + 1) as nat, acc2);
        assert(r == spec_object_props(tokens, name_index(i, m + 1int), ctx, start, acc2));
        if let Parsed::Done(PatternView::Object(_, props, _), _) = r {
            assert(props.subrange(0, m as int) =~= props.subrange(0, m + 1int).subrange(0, m as int));
            assert(props[m as int] == props.subrange(0, m + 1int)[m as int]);
        }
    } else {
        assert(list_close(i, n) == j + 1);
        assert(is_punct_at(tokens, j + 1, Punct::BracketClose));
        assert(spec_list_delimiter(tokens, j + 1, TokenValue::Punct(Punct::BracketClose)) == Parsed::<()>::Done((), j + 1));
        assert(acc2.subrange(0, m as int) =~= acc);
        assert(r == spec_object_props(tokens, j + 1, ctx, start, acc2));
        assert(r == spec_object_end(tokens, j + 2, start, acc2, None));
    }
}

/// An object pattern of names, `{x1, ..., xn}`, followed by a token, has
/// exactly `n` properties in order, the `t`-th of which is `xt`, and no rest
/// name; it spans and reads from the `{` up to and including the `}`, and a
/// `;` right after it.
pub proof fn lemma_object_of_names(tokens: Seq<Token>, i: int, n: nat, ctx: crate::context::Context)
    requires
        is_name_list(tokens, i, n, Punct::BracketOpen, Punct::BracketClose),
        list_close(i, n) + 1 < tokens.len(),
    ensures
        spec_pattern(tokens, i, ctx) matches Parsed::Done(PatternView::Object(span, props, rest), k)
            && k == after_object(tokens, list_close(i, n)) && rest is None && props.len() == n
            && span == (Span { start: tokens[i].span.start, end: tokens[k - 1].span.end })
            && forall|t: int| 0 <= t < n ==> #[trigger] props[t] == bound_name(tokens, name_index(i, t)),
{
    if n > 0 {
        lemma_object_names_from(tokens, i, n, ctx, start_position(tokens, i), 0, Seq::empty());
    }
}

/// The index of the `t`-th token (from 0) after the one at index `i`.
pub open spec fn index_after(i: int, t: int) -> int {
    i + 1 + t
}

/// The elements of an array pattern read on over commas up to `]`: each
/// comma is a hole.
proof fn lemma_holes_from(
    tokens: Seq<Token>,
    i: int,
    h: nat,
    ctx: crate::context::Context,
    start: usize,
    m: nat,
    acc: Seq<Option<ElementView>>,
)
    requires
        0 <= i,
        forall|t: int| 0 <= t < h ==> is_punct_at(tokens, #[trigger] index_after(i, t), Punct::Comma),
        is_punct_at(tokens, i + 1 + h, Punct::BraceClose),
        m <= h,
        acc.len() == m,
        forall|t: int| 0 <= t < m ==> #[trigger] acc[t] is None,
    ensures
        spec_array_elements(tokens, i + 1 + m, ctx, start, acc) matches Parsed::Done(
            PatternView::Array(_, elements, rest),
            k,
        ) && k == i + h + 2 && rest is None && elements.len() == h
            && forall|t: int| 0 <= t < h ==> #[trigger] elements[t] is None,
    decreases h - m,
{
    if m < h {
        assert(is_punct_at(tokens, index_after(i, m as int), Punct::Comma));
        let acc2 = acc.push(None);
        assert(forall|t: int| 0 <= t < m + 1 ==> #[trigger] acc2[t] is None);
        lemma_holes_from(tokens, i, h, ctx, start, (m + 1) as nat, acc2);
    }
}

/// An array pattern of commas only, `[, , ,]` with `h` commas, has `h`
/// holes and no rest name, and reads up to and including the `]`.
pub proof fn lemma_array_of_holes(tokens: Seq<Token>, i: int, h: nat, ctx: crate::context::Context)
    requires
        0 <= i,
        is_punct_at(tokens, i, Punct::BraceOpen),
        forall|t: int| 0 <= t < h ==> is_punct_at(tokens, #[trigger] index_after(i, t), Punct::Comma),
        is_punct_at(tokens, i + 1 + h, Punct::BraceClose),
    ensures
        spec_pattern(tokens, i, ctx) matches Parsed::Done(PatternView::Array(_, elements, rest), k)
            && k == i + h + 2 && rest is None && elements.len() == h
            && forall|t: int| 0 <= t < h ==> #[trigger] elements[t] is None,
{
    lemma_holes_from(tokens, i, h, ctx, start_position(tokens, i), 0, Seq::empty());
}

/// `[...r]` has no elements and the rest name `r`; `{...r}` followed by a
/// token has no properties and the rest name `r`.
pub proof fn lemma_rest_only(tokens: Seq<Token>, i: int, ctx: crate::context::Context)
    requires
        0 <= i,
        i + 3 < tokens.len(),
        is_punct_at(tokens, i + 1, Punct::TripleDot),
        tokens[i + 2].value is Identifier,
    ensures
        is_punct_at(tokens, i, Punct::BraceOpen) && is_punct_at(tokens, i + 3, Punct::BraceClose)
            ==> (spec_pattern(tokens, i, ctx) matches Parsed::Done(
            PatternView::Array(_, elements, rest),
            k,
        ) && k == i + 4 && elements.len() == 0 && rest == Some(bound_name(tokens, i + 2))),
        is_punct_at(tokens, i, Punct::BracketOpen) && is_punct_at(tokens, i + 3, Punct::BracketClose)
            && i + 4 < tokens.len() ==> (spec_pattern(tokens, i, ctx) matches Parsed::Done(
            PatternView::Object(_, props, rest),
            _,
        ) && props.len() == 0 && rest == Some(bound_name(tokens, i + 2))),
{
    assert(spec_identifier(tokens, i + 2, ctx) == Parsed::Done(bound_name(tokens, i + 2), i + 3));
}

pub open spec fn props_view(props: Seq<ObjectBindingProp>) -> Seq<IdentView> {
    props.map_values(|q: ObjectBindingProp| prop_view(q))
}

impl<'a> Parser<'a> {
    /// Parses the name after `...` in a pattern, and the `expected_end`
    /// punctuator after it (see `spec_rest_ident`).
    pub fn parse_rest_binding_ident(&mut self, expected_end: Punct) -> (result: Result<Option<Ident>, Error>)
        requires
            old(self).wf(),
        ensures
            Parser::same_input(*old(self), *final(self)),
            *final(final(self).reader_ref()) == *final(old(self).reader_ref()),
            outcome_is(
                spec_rest_ident(old(self).tokens(), old(self).index(), old(self).context(), expected_end),
                result,
                final(self).index(),
                |r: Option<Ident>| opt_ident_view(r)->Some_0,
            ),
            result matches Ok(r) ==> r is Some,
    {
        let ident = self.parse_identifier()?;
        let end_token = self.consume()?;
        if let TokenValue::Punct(p) = end_token.value {
            if p == expected_end {
                return Ok(Some(ident));
            }
        }
        Err(Error::of(ErrorKind::SyntaxError(String::from_str("Rest element must be last element"), ident.span)))
    }

    /// Parses a binding pattern (see `spec_pattern`). An initializer after an
    /// element of an array pattern is not supported; the precondition leaves
    /// such inputs out.
    pub fn parse_binding_pattern(&mut self) -> (result: Result<BindingPattern, Error>)
        requires
            old(self).wf(),
            !(spec_pattern(old(self).tokens(), old(self).index(), old(self).context()) is Stuck),
        ensures
            Parser::same_input(*old(self), *final(self)),
            *final(final(self).reader_ref()) == *final(old(self).reader_ref()),
            outcome_is(
                spec_pattern(old(self).tokens(), old(self).index(), old(self).context()),
                result,
                final(self).index(),
                |p: BindingPattern| pattern_view(p),
            ),
            result is Ok ==> final(self).index() > old(self).index(),
        decreases old(self).tokens().len() - old(self).index(), 1int,
    {
        let (is_object, is_array) = match self.current()? {
            Token { value: TokenValue::Punct(Punct::BracketOpen), .. } => (true, false),
            Token { value: TokenValue::Punct(Punct::BraceOpen), .. } => (false, true),
            _ => (false, false),
        };
        if is_object {
            self.parse_object_binding_pattern()
        } else if is_array {
            self.parse_array_binding_pattern()
        } else if self.is_identifier() {
            let ident = self.parse_identifier()?;
            Ok(BindingPattern::Ident(ident))
        } else {
            let token = self.consume()?;
            Err(Error::of(ErrorKind::UnexpectedToken(token)))
        }
    }

    /// Parses an array binding pattern, `[` standing at the current token
    /// (see `spec_array_elements`).
    ///
    /// ```no_rust
    /// var [ a, b, ...rest ] = c;
    ///     ^~~~~~~~~~~~~~~~^
    /// ```
    fn parse_array_binding_pattern(&mut self) -> (result: Result<BindingPattern, Error>)
        requires
            old(self).wf(),
            is_punct_at(old(self).tokens(), old(self).index(), Punct::BraceOpen),
            !(spec_array_elements(
                old(self).tokens(),
                old(self).index() + 1,
                old(self).context(),
                start_position(old(self).tokens(), old(self).index()),
                Seq::empty(),
            ) is Stuck),
        ensures
            Parser::same_input(*old(self), *final(self)),
            *final(final(self).reader_ref()) == *final(old(self).reader_ref()),
            outcome_is(
                spec_array_elements(
                    old(self).tokens(),
                    old(self).index() + 1,
                    old(self).context(),
                    start_position(old(self).tokens(), old(self).index()),
                    Seq::empty(),
                ),
                result,
                final(self).index(),
                |p: BindingPattern| pattern_view(p),
            ),
            result is Ok ==> final(self).index() > old(self).index(),
        decreases old(self).tokens().len() - old(self).index(), 0int,
    {
        let ghost before = *self;
        let ghost toks = self.tokens();
        let ghost ctx = self.context();
        let span_start = self.position();
        let _open = self.consume()?;
        let ghost first = self.index();
        let mut elements: Vec<Option<BindingElement>> = Vec::new();
        assert(elements_view(elements@) =~= Seq::<Option<ElementView>>::empty());
        loop
            invariant
                before == *old(self),
                toks == before.tokens(),
                ctx == before.context(),
                first == before.index() + 1,
                span_start == start_position(toks, before.index()),
                Parser::same_input(before, *self),
                *final(self.reader_ref()) == *final(old(self).reader_ref()),
                first <= self.index() <= toks.len(),
                spec_array_elements(toks, self.index(), ctx, span_start, elements_view(elements@))
                    == spec_array_elements(toks, first, ctx, span_start, Seq::empty()),
                !(spec_array_elements(toks, first, ctx, span_start, Seq::empty()) is Stuck),
            decreases toks.len() - self.index(),
        {
            let ghost j = self.index();
            let (is_close, is_hole, is_rest, is_nested) = match self.current()? {
                Token { value: TokenValue::Punct(Punct::BraceClose), .. } => (true, false, false, false),
                Token { value: TokenValue::Punct(Punct::Comma), .. } => (false, true, false, false),
                Token { value: TokenValue::Punct(Punct::TripleDot), .. } => (false, false, true, false),
                Token { value: TokenValue::Punct(Punct::BracketOpen), .. } => (false, false, false, true),
                Token { value: TokenValue::Punct(Punct::BraceOpen), .. } => (false, false, false, true),
                _ => (false, false, false, false),
            };
            if is_close {
                self.consume()?;
                let span = self.span_from(span_start);
                let pattern = BindingPattern::Array(ArrayBinding { span, elements, rest: None });
                assert(pattern_view(pattern)->Array_2 == None::<IdentView>);
                assert(pattern_view(pattern)->Array_1 =~= elements_view(elements@));
                return Ok(pattern);
            } else if is_hole {
                self.consume()?;
                let ghost before_push = elements@;
                elements.push(None);
                assert(elements_view(elements@) =~= elements_view(before_push).push(None));
            } else if is_rest {
                self.consume()?;
                let rest = self.parse_rest_binding_ident(Punct::BraceClose)?;
                let span = self.span_from(span_start);
                let pattern = BindingPattern::Array(ArrayBinding { span, elements, rest });
                assert(pattern_view(pattern)->Array_1 =~= elements_view(elements@));
                return Ok(pattern);
            } else if is_nested || self.is_identifier() {
                let element = self.parse_binding_element()?;
                let ghost before_push = elements@;
                elements.push(Some(element));
                assert(elements_view(elements@) =~= elements_view(before_push).push(Some(element_view(element))));
                self.consume_array_delimiter()?;
            } else {
                let token = self.consume()?;
                return Err(Error::of(ErrorKind::UnexpectedToken(token)));
            }
        }
    }

    /// Parses an element of an array binding pattern (see `spec_element`).
    fn parse_binding_element(&mut self) -> (result: Result<BindingElement, Error>)
        requires
            old(self).wf(),
            !(spec_element(old(self).tokens(), old(self).index(), old(self).context()) is Stuck),
        ensures
            Parser::same_input(*old(self), *final(self)),
            *final(final(self).reader_ref()) == *final(old(self).reader_ref()),
            outcome_is(
                spec_element(old(self).tokens(), old(self).index(), old(self).context()),
                result,
                final(self).index(),
                |e: BindingElement| element_view(e),
            ),
            result is Ok ==> final(self).index() > old(self).index(),
        decreases old(self).tokens().len() - old(self).index(), 2int,
    {
        let span_start = self.position();
        let pattern = self.parse_binding_pattern()?;
        let is_initializer = match self.current()? {
            Token { value: TokenValue::Punct(Punct::Equal), .. } => true,
            _ => false,
        };
        // An initializer (`= value`) is not supported; the precondition
        // leaves that input out.
        assert(!is_initializer);
        let span = self.span_from(span_start);
        Ok(BindingElement { span, pattern })
    }

    /// Parses a rest element's pattern: `...` standing at the current token,
    /// then a binding pattern.
    ///
    /// ```no_rust
    /// var [a, ...b] = c;
    ///         ^~~^
    /// function fn(...a) {}
    ///             ^~~^
    /// ```
    pub fn parse_binding_rest_element(&mut self) -> (result: Result<BindingPattern, Error>)
        requires
            old(self).wf(),
            is_punct_at(old(self).tokens(), old(self).index(), Punct::TripleDot),
            !(spec_pattern(old(self).tokens(), old(self).index() + 1, old(self).context()) is Stuck),
        ensures
            Parser::same_input(*old(self), *final(self)),
            *final(final(self).reader_ref()) == *final(old(self).reader_ref()),
            outcome_is(
                spec_pattern(old(self).tokens(), old(self).index() + 1, old(self).context()),
                result,
                final(self).index(),
                |p: BindingPattern| pattern_view(p),
            ),
    {
        let _dots = self.consume()?;
        self.parse_binding_pattern()
    }

    /// Ends an object pattern whose `}` has been read (see `spec_object_end`).
    fn finish_object_binding(
        &mut self,
        span_start: usize,
        props: Vec<ObjectBindingProp>,
        rest: Option<Ident>,
    ) -> (result: Result<BindingPattern, Error>)
        requires
            old(self).wf(),
        ensures
            Parser::same_input(*old(self), *final(self)),
            *final(final(self).reader_ref()) == *final(old(self).reader_ref()),
            outcome_is(
                spec_object_end(old(self).tokens(), old(self).index(), span_start, props_view(props@), opt_ident_view(rest)),
                result,
                final(self).index(),
                |p: BindingPattern| pattern_view(p),
            ),
            final(self).index() >= old(self).index(),
    {
        let is_semicolon = match self.current()? {
            Token { value: TokenValue::Punct(Punct::SemiColon), .. } => true,
            _ => false,
        };
        if is_semicolon {
            self.consume()?;
        }
        let span = self.span_from(span_start);
        let pattern = BindingPattern::Object(ObjectBinding { span, props, rest });
        proof {
            assert(pattern_view(pattern) == PatternView::Object(span, props_view(props@), opt_ident_view(rest)));
        }
        Ok(pattern)
    }

    /// Parses an object binding pattern, `{` standing at the current token
    /// (see `spec_object_props`).
    ///
    /// ```no_rust
    /// var { a, b, ...rest} = c;
    ///     ^~~~~~~~~~~~~~~^
    /// ```
    fn parse_object_binding_pattern(&mut self) -> (result: Result<BindingPattern, Error>)
        requires
            old(self).wf(),
            is_punct_at(old(self).tokens(), old(self).index(), Punct::BracketOpen),
        ensures
            Parser::same_input(*old(self), *final(self)),
            *final(final(self).reader_ref()) == *final(old(self).reader_ref()),
            outcome_is(
                spec_object_props(
                    old(self).tokens(),
                    old(self).index() + 1,
                    old(self).context(),
                    start_position(old(self).tokens(), old(self).index()),
                    Seq::empty(),
                ),
                result,
                final(self).index(),
                |p: BindingPattern| pattern_view(p),
            ),
            result is Ok ==> final(self).index() > old(self).index(),
    {
        let ghost before = *self;
        let ghost toks = self.tokens();
        let ghost ctx = self.context();
        let span_start = self.position();
        let _open = self.consume()?;
        let ghost first = self.index();
        let mut props: Vec<ObjectBindingProp> = Vec::new();
        assert(props_view(props@) =~= Seq::<IdentView>::empty());
        loop
            invariant
                before == *old(self),
                toks == before.tokens(),
                ctx == before.context(),
                first == before.index() + 1,
                span_start == start_position(toks, before.index()),
                Parser::same_input(before, *self),
                *final(self.reader_ref()) == *final(old(self).reader_ref()),
                first <= self.index() <= toks.len(),
                spec_object_props(toks, self.index(), ctx, span_start, props_view(props@))
                    == spec_object_props(toks, first, ctx, span_start, Seq::empty()),
            decreases toks.len() - self.index(),
        {
            let (is_close, is_rest) = match self.current()? {
                Token { value: TokenValue::Punct(Punct::BracketClose), .. } => (true, false),
                Token { value: TokenValue::Punct(Punct::TripleDot), .. } => (false, true),
                _ => (false, false),
            };
            if is_close {
                self.consume()?;
                return self.finish_object_binding(span_start, props, None);
            } else if is_rest {
                self.consume()?;
                let rest = self.parse_rest_binding_ident(Punct::BracketClose)?;
                return self.finish_object_binding(span_start, props, rest);
            } else if self.is_identifier() {
                let ident = self.parse_identifier()?;
                let ghost before_push = props@;
                props.push(ObjectBindingProp::Assign(ident));
                assert(props_view(props@) =~= props_view(before_push).push(ident@));
                self.consume_object_delimiter()?;
            } else {
                let token = self.consume()?;
                return Err(Error::of(ErrorKind::UnexpectedToken(token)));
            }
        }
    }
}

} // verus!
