use crate::lexer_error::{Error, ErrorKind};
use crate::span::Span;
use crate::text::{debug_token_value, token_value_debug};
use vstd::prelude::*;
use vstd::string::*;

verus! {

/// The contexts in which some keywords are reserved: a set of three flags,
/// `await` (inside async code), `yield` (inside generators) and strict mode.
#[derive(Debug, Clone, Copy, PartialEq, Eq, Structural)]
pub struct KeywordContext {
    is_await: bool,
    is_yield: bool,
    is_strict: bool,
}

impl KeywordContext {
    pub closed spec fn has_await(self) -> bool {
        self.is_await
    }

    pub closed spec fn has_yield(self) -> bool {
        self.is_yield
    }

    pub closed spec fn has_strict(self) -> bool {
        self.is_strict
    }

    /// The context with no flag set.
    pub fn empty() -> (ctx: KeywordContext)
        ensures
            !ctx.has_await(),
            !ctx.has_yield(),
            !ctx.has_strict(),
    {
        KeywordContext { is_await: false, is_yield: false, is_strict: false }
    }

    /// The context with only the `await` flag.
    pub fn await_flag() -> (ctx: KeywordContext)
        ensures
            ctx.has_await(),
            !ctx.has_yield(),
            !ctx.has_strict(),
                {
        KeywordContext { is_await: true, is_yield: false, is_strict: false }
    }

    /// The context with only the `yield` flag.
    pub fn yield_flag() -> (ctx: KeywordContext)
        ensures
            !ctx.has_await(),
            ctx.has_yield(),
            !ctx.has_strict(),
                {
        KeywordContext { is_await: false, is_yield: true, is_strict: false }
    }

    /// The context with only the strict mode flag.
    pub fn strict_flag() -> (ctx: KeywordContext)
        ensures
            !ctx.has_await(),
            !ctx.has_yield(),
            ctx.has_strict(),
                {
        KeywordContext { is_await: false, is_yield: false, is_strict: true }
    }

    pub closed spec fn spec_union(self, other: KeywordContext) -> KeywordContext {
        KeywordContext {
            is_await: self.is_await || other.is_await,
            is_yield: self.is_yield || other.is_yield,
            is_strict: self.is_strict || other.is_strict,
        }
    }

    /// Two contexts with the same flags are the same context.
    pub proof fn lemma_flags_determine(self, other: KeywordContext)
        requires
            self.has_await() == other.has_await(),
            self.has_yield() == other.has_yield(),
            self.has_strict() == other.has_strict(),
        ensures
            self == other,
    {
    }

    /// The flags set in either context.
    pub fn union(self, other: KeywordContext) -> (ctx: KeywordContext)
        ensures
            ctx == self.spec_union(other),
            ctx.has_await() == (self.has_await() || other.has_await()),
            ctx.has_yield() == (self.has_yield() || other.has_yield()),
            ctx.has_strict() == (self.has_strict() || other.has_strict()),
    {
        KeywordContext {
            is_await: self.is_await || other.is_await,
            is_yield: self.is_yield || other.is_yield,
            is_strict: self.is_strict || other.is_strict,
        }
    }

    pub open spec fn spec_contains(self, other: KeywordContext) -> bool {
        &&& other.has_await() ==> self.has_await()
        &&& other.has_yield() ==> self.has_yield()
        &&& other.has_strict() ==> self.has_strict()
    }

    /// True if every flag of `other` is set in `self`.
    pub fn contains(&self, other: KeywordContext) -> (b: bool)
        ensures
            b == self.spec_contains(other),
    {
        (!other.is_await || self.is_await) && (!other.is_yield || self.is_yield) && (
        !other.is_strict || self.is_strict)
    }

    pub open spec fn spec_intersects(self, other: KeywordContext) -> bool {
        ||| self.has_await() && other.has_await()
        ||| self.has_yield() && other.has_yield()
        ||| self.has_strict() && other.has_strict()
    }

    /// True if some flag is set in both contexts.
    pub fn intersects(&self, other: KeywordContext) -> (b: bool)
        ensures
            b == self.spec_intersects(other),
    {
        (self.is_await && other.is_await) || (self.is_yield && other.is_yield) || (self.is_strict
            && other.is_strict)
    }

    pub open spec fn spec_bits(self) -> int {
        (if self.has_await() { 1u32 } else { 0u32 }) + (if self.has_yield() { 2u32 } else { 0u32 })
            + (if self.has_strict() { 128u32 } else { 0u32 })
    }

    /// The flags as bits: `await` is bit 0, `yield` bit 1 and strict mode bit 7.
    pub fn bits(&self) -> (bits: u32)
        ensures
            bits == self.spec_bits(),
    {
        let mut bits: u32 = 0;
        if self.is_await {
            bits = bits + 1;
        }
        if self.is_yield {
            bits = bits + 2;
        }
        if self.is_strict {
            bits = bits + 128;
        }
        bits
    }
}

/// The reserved and contextual words of the language.
#[derive(Debug, Clone, Copy, PartialEq, Eq, Structural, PartialOrd, Ord, Hash)]
pub enum Keyword {
    Await,
    As,
    Async,
    Break,
    Case,
    Catch,
    Class,
    Const,
    Continue,
    Debugger,
    Default,
    Delete,
    Do,
    Else,
    Enum,
    Export,
    Extends,
    False,
    Finally,
    For,
    From,
    Function,
    Get,
    If,
    Implements,
    Import,
    In,
    Instanceof,
    Interface,
    Let,
    New,
    Null,
    Of,
    Package,
    Private,
    Protected,
    Public,
    Return,
    /// `set`
    SetKeyword,
    Static,
    Super,
    Switch,
    Target,
    This,
    Throw,
    True,
    Try,
    Typeof,
    Var,
    Void,
    While,
    With,
    Yield,
}

/// The source text of a keyword: its name in lower case.
pub open spec fn keyword_name(keyword: Keyword) -> Seq<char> {
    match keyword {
        Keyword::Await => "await"@,
        Keyword::As => "as"@,
        Keyword::Async => "async"@,
        Keyword::Break => "break"@,
        Keyword::Case => "case"@,
        Keyword::Catch => "catch"@,
        Keyword::Class => "class"@,
        Keyword::Const => "const"@,
        Keyword::Continue => "continue"@,
        Keyword::Debugger => "debugger"@,
        Keyword::Default => "default"@,
        Keyword::Delete => "delete"@,
        Keyword::Do => "do"@,
        Keyword::Else => "else"@,
        Keyword::Enum => "enum"@,
        Keyword::Export => "export"@,
        Keyword::Extends => "extends"@,
        Keyword::False => "false"@,
        Keyword::Finally => "finally"@,
        Keyword::For => "for"@,
        Keyword::From => "from"@,
        Keyword::Function => "function"@,
        Keyword::Get => "get"@,
        Keyword::If => "if"@,
        Keyword::Implements => "implements"@,
        Keyword::Import => "import"@,
        Keyword::In => "in"@,
        Keyword::Instanceof => "instanceof"@,
        Keyword::Interface => "interface"@,
        Keyword::Let => "let"@,
        Keyword::New => "new"@,
        Keyword::Null => "null"@,
        Keyword::Of => "of"@,
        Keyword::Package => "package"@,
        Keyword::Private => "private"@,
        Keyword::Protected => "protected"@,
        Keyword::Public => "public"@,
        Keyword::Return => "return"@,
        Keyword::SetKeyword => "set"@,
        Keyword::Static => "static"@,
        Keyword::Super => "super"@,
        Keyword::Switch => "switch"@,
        Keyword::Target => "target"@,
        Keyword::This => "this"@,
        Keyword::Throw => "throw"@,
        Keyword::True => "true"@,
        Keyword::Try => "try"@,
        Keyword::Typeof => "typeof"@,
        Keyword::Var => "var"@,
        Keyword::Void => "void"@,
        Keyword::While => "while"@,
        Keyword::With => "with"@,
        Keyword::Yield => "yield"@,
    }
}

/// True if `keyword` may be used as an identifier inside async code
/// (`in_async`), inside a generator (`in_generator`) and in strict mode code
/// (`strict`) as given. The contextual words `as`, `async`, `from`, `get`,
/// `of`, `set` and `target` always may; `await` unless in async code; `yield`
/// unless in a generator or in strict mode; the words reserved only in strict
/// mode (`implements`, `interface`, `let`, `package`, `private`, `protected`,
/// `public`, `static`) unless in strict mode; every other keyword never.
pub open spec fn keyword_allowed(keyword: Keyword, in_async: bool, in_generator: bool, strict: bool) -> bool {
    match keyword {
        Keyword::As | Keyword::Async | Keyword::From | Keyword::Get | Keyword::Of | Keyword::SetKeyword
        | Keyword::Target => true,
        Keyword::Await => !in_async,
        Keyword::Yield => !in_generator && !strict,
        Keyword::Implements | Keyword::Interface | Keyword::Let | Keyword::Package
        | Keyword::Private | Keyword::Protected | Keyword::Public | Keyword::Static => !strict,
        _ => false,
    }
}

/// True if `keyword` may be used as an identifier in the context `ctx`.
pub open spec fn allowed_as_identifier(keyword: Keyword, ctx: KeywordContext) -> bool {
    keyword_allowed(keyword, ctx.has_await(), ctx.has_yield(), ctx.has_strict())
}

impl Keyword {
    /// The source text of the keyword.
    pub fn to_string(&self) -> (name: String)
        ensures
            name@ == keyword_name(*self),
    {
        match self {
            Keyword::Await => String::from_str("await"),
            Keyword::As => String::from_str("as"),
            Keyword::Async => String::from_str("async"),
            Keyword::Break => String::from_str("break"),
            Keyword::Case => String::from_str("case"),
            Keyword::Catch => String::from_str("catch"),
            Keyword::Class => String::from_str("class"),
            Keyword::Const => String::from_str("const"),
            Keyword::Continue => String::from_str("continue"),
            Keyword::Debugger => String::from_str("debugger"),
            Keyword::Default => String::from_str("default"),
            Keyword::Delete => String::from_str("delete"),
            Keyword::Do => String::from_str("do"),
            Keyword::Else => String::from_str("else"),
            Keyword::Enum => String::from_str("enum"),
            Keyword::Export => String::from_str("export"),
            Keyword::Extends => String::from_str("extends"),
            Keyword::False => String::from_str("false"),
            Keyword::Finally => String::from_str("finally"),
            Keyword::For => String::from_str("for"),
            Keyword::From => String::from_str("from"),
            Keyword::Function => String::from_str("function"),
            Keyword::Get => String::from_str("get"),
            Keyword::If => String::from_str("if"),
            Keyword::Implements => String::from_str("implements"),
            Keyword::Import => String::from_str("import"),
            Keyword::In => String::from_str("in"),
            Keyword::Instanceof => String::from_str("instanceof"),
            Keyword::Interface => String::from_str("interface"),
            Keyword::Let => String::from_str("let"),
            Keyword::New => String::from_str("new"),
            Keyword::Null => String::from_str("null"),
            Keyword::Of => String::from_str("of"),
            Keyword::Package => String::from_str("package"),
            Keyword::Private => String::from_str("private"),
            Keyword::Protected => String::from_str("protected"),
            Keyword::Public => String::from_str("public"),
            Keyword::Return => String::from_str("return"),
            Keyword::SetKeyword => String::from_str("set"),
            Keyword::Static => String::from_str("static"),
            Keyword::Super => String::from_str("super"),
            Keyword::Switch => String::from_str("switch"),
            Keyword::Target => String::from_str("target"),
            Keyword::This => String::from_str("this"),
            Keyword::Throw => String::from_str("throw"),
            Keyword::True => String::from_str("true"),
            Keyword::Try => String::from_str("try"),
            Keyword::Typeof => String::from_str("typeof"),
            Keyword::Var => String::from_str("var"),
            Keyword::Void => String::from_str("void"),
            Keyword::While => String::from_str("while"),
            Keyword::With => String::from_str("with"),
            Keyword::Yield => String::from_str("yield"),
        }
    }

    /// Tries to turn a keyword into an identifier string.
    /// Succeeds only if that keyword is not reserved in the provided context.
    pub fn into_identifier_string(self, ctx: KeywordContext) -> (result: Result<String, Error>)
        ensures
            allowed_as_identifier(self, ctx) <==> result is Ok,
            result matches Ok(name) ==> name@ == keyword_name(self),
            result matches Err(e) ==> e == Error::spec_of(ErrorKind::ForbiddenIdentifier(self)),
    {
        if self.is_allows_as_identifier(ctx) {
            Ok(self.to_string())
        } else {
            Err(Error::of(ErrorKind::ForbiddenIdentifier(self)))
        }
    }

    /// True if the keyword is allowed to be an identifier in the context provided.
    pub fn is_allows_as_identifier(&self, ctx: KeywordContext) -> (allowed: bool)
        ensures
            allowed == allowed_as_identifier(*self, ctx),
    {
        match self {
            Keyword::As | Keyword::Async | Keyword::From | Keyword::Get | Keyword::Of
            | Keyword::SetKeyword | Keyword::Target => true,
            Keyword::Await if !ctx.contains(KeywordContext::await_flag()) => true,
            Keyword::Yield if !ctx.intersects(KeywordContext::yield_flag().union(KeywordContext::strict_flag())) => true,
            Keyword::Implements | Keyword::Interface | Keyword::Let | Keyword::Package
            | Keyword::Private | Keyword::Protected | Keyword::Public | Keyword::Static => {
                !ctx.contains(KeywordContext::strict_flag())
            },
            _ => false,
        }
    }
}

/// A keyword allowed as an identifier in a context is allowed in every
/// context with fewer flags: setting a flag only ever reserves more words.
pub proof fn lemma_fewer_flags_reserve_less(keyword: Keyword, smaller: KeywordContext, larger: KeywordContext)
    requires
        larger.spec_contains(smaller),
        allowed_as_identifier(keyword, larger),
    ensures
        allowed_as_identifier(keyword, smaller),
{
}

/// The contextual words `as`, `async`, `from`, `get`, `of`, `set` and
/// `target` may be identifiers in every context.
pub proof fn lemma_contextual_words_always_allowed(keyword: Keyword, ctx: KeywordContext)
    requires
        keyword == Keyword::As || keyword == Keyword::Async || keyword == Keyword::From || keyword
            == Keyword::Get || keyword == Keyword::Of || keyword == Keyword::SetKeyword || keyword
            == Keyword::Target,
    ensures
        allowed_as_identifier(keyword, ctx),
{
}

/// Strict mode reserves every keyword but the contextual words and `await`
/// (which only async code reserves).
pub proof fn lemma_strict_mode_reserves(keyword: Keyword, ctx: KeywordContext)
    requires
        ctx.has_strict(),
        allowed_as_identifier(keyword, ctx),
    ensures
        keyword == Keyword::As || keyword == Keyword::Async || keyword == Keyword::From || keyword
            == Keyword::Get || keyword == Keyword::Of || keyword == Keyword::SetKeyword || keyword
            == Keyword::Target || keyword == Keyword::Await,
{
}

/// A keyword that no context allows as an identifier is reserved in every
/// context: with no flag set, exactly the contextual words, `await`, `yield`
/// and the words reserved only in strict mode are allowed.
pub proof fn lemma_reserved_words(keyword: Keyword, ctx: KeywordContext)
    requires
        !ctx.has_await(),
        !ctx.has_yield(),
        !ctx.has_strict(),
    ensures
        allowed_as_identifier(keyword, ctx) <==> (keyword == Keyword::As || keyword == Keyword::Async
            || keyword == Keyword::From || keyword == Keyword::Get || keyword == Keyword::Of
            || keyword == Keyword::SetKeyword || keyword == Keyword::Target || keyword
            == Keyword::Await || keyword == Keyword::Yield || keyword == Keyword::Implements
            || keyword == Keyword::Interface || keyword == Keyword::Let || keyword
            == Keyword::Package || keyword == Keyword::Private || keyword == Keyword::Protected
            || keyword == Keyword::Public || keyword == Keyword::Static),
        !(keyword == Keyword::As || keyword == Keyword::Async || keyword == Keyword::From || keyword
            == Keyword::Get || keyword == Keyword::Of || keyword == Keyword::SetKeyword || keyword
            == Keyword::Target || keyword == Keyword::Await || keyword == Keyword::Yield || keyword
            == Keyword::Implements || keyword == Keyword::Interface || keyword == Keyword::Let
            || keyword == Keyword::Package || keyword == Keyword::Private || keyword
            == Keyword::Protected || keyword == Keyword::Public || keyword == Keyword::Static)
            ==> forall|other: KeywordContext| !allowed_as_identifier(keyword, other),
{
}

/// The union of two contexts contains each of them, and a context contains
/// another exactly when their union is the first.
pub proof fn lemma_union_contains(a: KeywordContext, b: KeywordContext)
    ensures
        a.spec_union(b).spec_contains(a),
        a.spec_union(b).spec_contains(b),
        a.spec_contains(b) <==> a.spec_union(b) == a,
{
}

/// The punctuators of the language.
#[derive(Debug, Clone, Copy, PartialEq, Eq, Structural, PartialOrd)]
pub enum Punct {
    /// `(`
    ParenOpen,
    /// `)`
    ParenClose,
    /// `[`
    BraceOpen,
    /// `]`
    BraceClose,
    /// `{`
    BracketOpen,
    /// `}`
    BracketClose,
    /// `.`
    Dot,
    /// `...`
    TripleDot,
    /// `;`
    SemiColon,
    /// `,`
    Comma,
    /// `<`
    LessThan,
    /// `<<`
    DoubleLessThan,
    /// `>`
    GreaterThan,
    /// `>>`
    DoubleGreaterThan,
    /// `>>>`
    TripleGreaterThan,
    /// `=`
    Equal,
    /// `==`
    DoubleEqual,
    /// `<=`
    LessEqual,
    /// `<<=`
    DoubleLessEqual,
    /// `>=`
    GreaterEqual,
    /// `>>=`
    DoubleGreaterEqual,
    /// `>>>=`
    TripleGreaterEqual,
    /// `=>`
    EqualGreater,
    /// `!=`
    NotEqual,
    /// `+=`
    PlusEqual,
    /// `-=`
    MinusEqual,
    /// `*=`
    StarEqual,
    /// `**=`
    DoubleStarEqual,
    /// `/=`
    SlashEqual,
    /// `%=`
    PercentEqual,
    /// `|=`
    PipeEqual,
    /// `^=`
    CaretEqual,
    /// `&=`
    AmpersandEqual,
    /// `===`
    TripleEqual,
    /// `!==`
    ExclamationDoubleEqual,
    /// `+`
    Plus,
    /// `++`
    DoublePlus,
    /// `-`
    Minus,
    /// `--`
    DoubleMinus,
    /// `*`
    Star,
    /// `**`
    DoubleStar,
    /// `/`
    Slash,
    /// `%`
    Percent,
    /// `&`
    Ampersand,
    /// `&&`
    DoubleAmpersand,
    /// `|`
    Pipe,
    /// `||`
    DoublePipe,
    /// `^`
    Caret,
    /// `!`
    Exclamation,
    /// `~`
    Tilde,
    /// `?`
    QuestionMark,
    /// `??`
    DoubleQuestionMark,
    /// `?.`
    QuestionMarkDot,
    /// `:`
    Colon,
}

/// The source text of a punctuator.
pub open spec fn punct_text(punct: Punct) -> Seq<char> {
    match punct {
        Punct::ParenOpen => "("@,
        Punct::ParenClose => ")"@,
        Punct::BraceOpen => "["@,
        Punct::BraceClose => "]"@,
        Punct::BracketOpen => "{"@,
        Punct::BracketClose => "}"@,
        Punct::Dot => "."@,
        Punct::TripleDot => "..."@,
        Punct::SemiColon => ";"@,
        Punct::Comma => ","@,
        Punct::LessThan => "<"@,
        Punct::DoubleLessThan => "<<"@,
        Punct::GreaterThan => ">"@,
        Punct::DoubleGreaterThan => ">>"@,
        Punct::TripleGreaterThan => ">>>"@,
        Punct::Equal => "="@,
        Punct::DoubleEqual => "=="@,
        Punct::LessEqual => "<="@,
        Punct::DoubleLessEqual => "<<="@,
        Punct::GreaterEqual => ">="@,
        Punct::DoubleGreaterEqual => ">>="@,
        Punct::TripleGreaterEqual => ">>>="@,
        Punct::EqualGreater => "=>"@,
        Punct::NotEqual => "!="@,
        Punct::PlusEqual => "+="@,
        Punct::MinusEqual => "-="@,
        Punct::StarEqual => "*="@,
        Punct::DoubleStarEqual => "**="@,
        Punct::SlashEqual => "/="@,
        Punct::PercentEqual => "%="@,
        Punct::PipeEqual => "|="@,
        Punct::CaretEqual => "^="@,
        Punct::AmpersandEqual => "&="@,
        Punct::TripleEqual => "==="@,
        Punct::ExclamationDoubleEqual => "!=="@,
        Punct::Plus => "+"@,
        Punct::DoublePlus => "++"@,
        Punct::Minus => "-"@,
        Punct::DoubleMinus => "--"@,
        Punct::Star => "*"@,
        Punct::DoubleStar => "**"@,
        Punct::Slash => "/"@,
        Punct::Percent => "%"@,
        Punct::Ampersand => "&"@,
        Punct::DoubleAmpersand => "&&"@,
        Punct::Pipe => "|"@,
        Punct::DoublePipe => "||"@,
        Punct::Caret => "^"@,
        Punct::Exclamation => "!"@,
        Punct::Tilde => "~"@,
        Punct::QuestionMark => "?"@,
        Punct::DoubleQuestionMark => "??"@,
        Punct::QuestionMarkDot => "?."@,
        Punct::Colon => ":"@,
    }
}

impl Punct {
    /// The source text of the punctuator.
    pub fn to_string(&self) -> (text: String)
        ensures
            text@ == punct_text(*self),
    {
        match self {
            Punct::ParenOpen => String::from_str("("),
            Punct::ParenClose => String::from_str(")"),
            Punct::BraceOpen => String::from_str("["),
            Punct::BraceClose => String::from_str("]"),
            Punct::BracketOpen => String::from_str("{"),
            Punct::BracketClose => String::from_str("}"),
            Punct::Dot => String::from_str("."),
            Punct::TripleDot => String::from_str("..."),
            Punct::SemiColon => String::from_str(";"),
            Punct::Comma => String::from_str(","),
            Punct::LessThan => String::from_str("<"),
            Punct::DoubleLessThan => String::from_str("<<"),
            Punct::GreaterThan => String::from_str(">"),
            Punct::DoubleGreaterThan => String::from_str(">>"),
            Punct::TripleGreaterThan => String::from_str(">>>"),
            Punct::Equal => String::from_str("="),
            Punct::DoubleEqual => String::from_str("=="),
            Punct::LessEqual => String::from_str("<="),
            Punct::DoubleLessEqual => String::from_str("<<="),
            Punct::GreaterEqual => String::from_str(">="),
            Punct::DoubleGreaterEqual => String::from_str(">>="),
            Punct::TripleGreaterEqual => String::from_str(">>>="),
            Punct::EqualGreater => String::from_str("=>"),
            Punct::NotEqual => String::from_str("!="),
            Punct::PlusEqual => String::from_str("+="),
            Punct::MinusEqual => String::from_str("-="),
            Punct::StarEqual => String::from_str("*="),
            Punct::DoubleStarEqual => String::from_str("**="),
            Punct::SlashEqual => String::from_str("/="),
            Punct::PercentEqual => String::from_str("%="),
            Punct::PipeEqual => String::from_str("|="),
            Punct::CaretEqual => String::from_str("^="),
            Punct::AmpersandEqual => String::from_str("&="),
            Punct::TripleEqual => String::from_str("==="),
            Punct::ExclamationDoubleEqual => String::from_str("!=="),
            Punct::Plus => String::from_str("+"),
            Punct::DoublePlus => String::from_str("++"),
            Punct::Minus => String::from_str("-"),
            Punct::DoubleMinus => String::from_str("--"),
            Punct::Star => String::from_str("*"),
            Punct::DoubleStar => String::from_str("**"),
            Punct::Slash => String::from_str("/"),
            Punct::Percent => String::from_str("%"),
            Punct::Ampersand => String::from_str("&"),
            Punct::DoubleAmpersand => String::from_str("&&"),
            Punct::Pipe => String::from_str("|"),
            Punct::DoublePipe => String::from_str("||"),
            Punct::Caret => String::from_str("^"),
            Punct::Exclamation => String::from_str("!"),
            Punct::Tilde => String::from_str("~"),
            Punct::QuestionMark => String::from_str("?"),
            Punct::DoubleQuestionMark => String::from_str("??"),
            Punct::QuestionMarkDot => String::from_str("?."),
            Punct::Colon => String::from_str(":"),
        }
    }
}

/// The base an integer literal is written in.
#[derive(Debug, Clone, Copy, PartialEq, Eq, Structural)]
pub enum Base {
    Binary,
    Decimal,
    Hex,
    Octal,
}

/// A numeric literal. A decimal (floating point) literal is held by the bit
/// pattern of its IEEE 754 double value.
#[derive(Debug, Clone, Copy, PartialEq, Eq, Structural)]
pub enum Number {
    Integer(i64, Base),
    Decimal(u64),
}

/// A literal token: a number, or a string with the quote character that
/// delimits it.
#[derive(Debug, PartialEq)]
pub enum Literal {
    Number(Number),
    String(String, char),
}

impl Clone for Literal {
    fn clone(&self) -> (copy: Self)
        ensures
            copy == *self,
    {
        match self {
            Literal::Number(n) => Literal::Number(*n),
            Literal::String(s, d) => Literal::String(s.clone(), *d),
        }
    }
}

/// What a token is.
#[derive(Debug, PartialEq)]
pub enum TokenValue {
    Keyword(Keyword),
    Identifier(String),
    Punct(Punct),
    Literal(Literal),
}

/// Two token values are the same: the same keyword or punctuator, identifiers
/// with the same name, or the same literal.
pub open spec fn same_value(a: TokenValue, b: TokenValue) -> bool {
    match (a, b) {
        (TokenValue::Keyword(x), TokenValue::Keyword(y)) => x == y,
        (TokenValue::Identifier(x), TokenValue::Identifier(y)) => x@ == y@,
        (TokenValue::Punct(x), TokenValue::Punct(y)) => x == y,
        (TokenValue::Literal(Literal::Number(x)), TokenValue::Literal(Literal::Number(y))) => x == y,
        (
            TokenValue::Literal(Literal::String(x, dx)),
            TokenValue::Literal(Literal::String(y, dy)),
        ) => x@ == y@ && dx == dy,
        _ => false,
    }
}

impl TokenValue {
    /// True if both values are the same (see `same_value`).
    pub fn matches(&self, other: &TokenValue) -> (same: bool)
        ensures
            same == same_value(*self, *other),
    {
        match (self, other) {
            (TokenValue::Keyword(x), TokenValue::Keyword(y)) => *x == *y,
            (TokenValue::Identifier(x), TokenValue::Identifier(y)) => *x == *y,
            (TokenValue::Punct(x), TokenValue::Punct(y)) => *x == *y,
            (TokenValue::Literal(Literal::Number(x)), TokenValue::Literal(Literal::Number(y))) => {
                *x == *y
            },
            (
                TokenValue::Literal(Literal::String(x, dx)),
                TokenValue::Literal(Literal::String(y, dy)),
            ) => *x == *y && *dx == *dy,
            _ => false,
        }
    }
}

/// The text a token value is shown with in messages: a keyword or a
/// punctuator by its source text, an identifier by its name, and a literal by
/// its derived `Debug` text.
pub open spec fn token_value_text(value: TokenValue) -> Seq<char> {
    match value {
        TokenValue::Keyword(k) => keyword_name(k),
        TokenValue::Identifier(name) => name@,
        TokenValue::Punct(p) => punct_text(p),
        TokenValue::Literal(_) => token_value_debug(value),
    }
}

impl TokenValue {
    /// The text the value is shown with (see `token_value_text`).
    pub fn to_string(&self) -> (text: String)
        ensures
            text@ == token_value_text(*self),
    {
        match self {
            TokenValue::Keyword(k) => k.to_string(),
            TokenValue::Identifier(name) => name.clone(),
            TokenValue::Punct(p) => p.to_string(),
            TokenValue::Literal(_) => debug_token_value(self),
        }
    }
}

impl Clone for TokenValue {
    fn clone(&self) -> (copy: Self)
        ensures
            copy == *self,
    {
        match self {
            TokenValue::Keyword(k) => TokenValue::Keyword(*k),
            TokenValue::Identifier(s) => TokenValue::Identifier(s.clone()),
            TokenValue::Punct(p) => TokenValue::Punct(*p),
            TokenValue::Literal(l) => TokenValue::Literal(l.clone()),
        }
    }
}

/// A token: its value, whether it is the first token on its line, and where
/// it stands in the source.
#[derive(Debug, PartialEq)]
pub struct Token {
    pub value: TokenValue,
    pub first_on_line: bool,
    pub span: Span,
}

impl Token {
    pub fn new(value: TokenValue, first_on_line: bool, span: Span) -> (token: Token)
        ensures
            token == (Token { value, first_on_line, span }),
    {
        Token { value, first_on_line, span }
    }
}

impl Clone for Token {
    fn clone(&self) -> (copy: Self)
        ensures
            copy == *self,
    {
        Token { value: self.value.clone(), first_on_line: self.first_on_line, span: self.span }
    }
}

} // verus!
