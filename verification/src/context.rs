use crate::error::Error;
use crate::token::KeywordContext;
use vstd::prelude::*;

verus! {

/// The grammar parameters that the parser is in: inside async code, inside a
/// generator, where `in` is an operator, in strict mode, and in a default
/// export.
#[derive(Debug, Clone, Copy, PartialEq, Eq, Structural)]
pub struct Context {
    is_await: bool,
    is_yield: bool,
    is_in: bool,
    is_strict: bool,
    is_default: bool,
}

impl Context {
    pub closed spec fn spec_await(self) -> bool {
        self.is_await
    }

    pub closed spec fn spec_yield(self) -> bool {
        self.is_yield
    }

    pub closed spec fn spec_in(self) -> bool {
        self.is_in
    }

    pub closed spec fn spec_strict(self) -> bool {
        self.is_strict
    }

    pub closed spec fn spec_default(self) -> bool {
        self.is_default
    }

    /// A copy of this context with the `await` flag set to `is_await`.
    pub fn with_await(&self, is_await: bool) -> (ctx: Context)
        ensures
            ctx.spec_await() == is_await,
            ctx.spec_yield() == self.spec_yield(),
            ctx.spec_in() == self.spec_in(),
            ctx.spec_strict() == self.spec_strict(),
            ctx.spec_default() == self.spec_default(),
    {
        Context { is_await, ..(*self) }
    }

    /// A copy of this context with the `yield` flag set to `is_yield`.
    pub fn with_yield(&self, is_yield: bool) -> (ctx: Context)
        ensures
            ctx.spec_await() == self.spec_await(),
            ctx.spec_yield() == is_yield,
            ctx.spec_in() == self.spec_in(),
            ctx.spec_strict() == self.spec_strict(),
            ctx.spec_default() == self.spec_default(),
    {
        Context { is_yield, ..(*self) }
    }

    /// A copy of this context with the `in` flag set to `is_in`.
    pub fn with_in(&self, is_in: bool) -> (ctx: Context)
        ensures
            ctx.spec_await() == self.spec_await(),
            ctx.spec_yield() == self.spec_yield(),
            ctx.spec_in() == is_in,
            ctx.spec_strict() == self.spec_strict(),
            ctx.spec_default() == self.spec_default(),
    {
        Context { is_in, ..(*self) }
    }

    /// A copy of this context with the strict mode flag set to `is_strict`.
    pub fn with_strict(&self, is_strict: bool) -> (ctx: Context)
        ensures
            ctx.spec_await() == self.spec_await(),
            ctx.spec_yield() == self.spec_yield(),
            ctx.spec_in() == self.spec_in(),
            ctx.spec_strict() == is_strict,
            ctx.spec_default() == self.spec_default(),
    {
        Context { is_strict, ..(*self) }
    }

    /// A copy of this context with the default export flag set to `is_default`.
    pub fn with_default(&self, is_default: bool) -> (ctx: Context)
        ensures
            ctx.spec_await() == self.spec_await(),
            ctx.spec_yield() == self.spec_yield(),
            ctx.spec_in() == self.spec_in(),
            ctx.spec_strict() == self.spec_strict(),
            ctx.spec_default() == is_default,
    {
        Context { is_default, ..(*self) }
    }

    /// The keyword context of this context: `await`, `yield` and strict mode
    /// as they are set here.
    pub fn keyword_context(&self) -> (keyword_context: KeywordContext)
        ensures
            keyword_context.has_await() == self.spec_await(),
            keyword_context.has_yield() == self.spec_yield(),
            keyword_context.has_strict() == self.spec_strict(),
    {
        let mut keyword_context = KeywordContext::empty();
        if self.is_await {
            keyword_context = keyword_context.union(KeywordContext::await_flag());
        }
        if self.is_yield {
            keyword_context = keyword_context.union(KeywordContext::yield_flag());
        }
        if self.is_strict {
            keyword_context = keyword_context.union(KeywordContext::strict_flag());
        }
        keyword_context
    }
}

impl Context {
    /// The context with every flag `false`.
    pub closed spec fn spec_default_value() -> Context {
        Context { is_await: false, is_yield: false, is_in: false, is_strict: false, is_default: false }
    }
}

impl Default for Context {
    fn default() -> (ctx: Context)
        ensures
            ctx == Context::spec_default_value(),
            !ctx.spec_await(),
            !ctx.spec_yield(),
            !ctx.spec_in(),
            !ctx.spec_strict(),
            !ctx.spec_default(),
    {
        Context { is_await: false, is_yield: false, is_in: false, is_strict: false, is_default: false }
    }
}

/// Like `bool::then`, for closures that return a `Result`: runs the closure
/// only when the value is `true`.
pub trait ThenTry: Sized {
    fn then_try<T, F>(self, f: F) -> (result: Result<Option<T>, Error>) where
        F: FnOnce() -> Result<T, Error>,
        requires
            call_requires(f, ()),
    ;
}

impl ThenTry for bool {
    /// `Ok(None)` when `false`; when `true`, what the closure returns, with
    /// its value in `Some`.
    fn then_try<T, F>(self, f: F) -> (result: Result<Option<T>, Error>) where
        F: FnOnce() -> Result<T, Error>,
        ensures
            !self ==> result matches Ok(None),
            self ==> !(result matches Ok(None)),
            self ==> (result matches Ok(Some(v)) ==> call_ensures(f, (), Ok::<T, Error>(v))),
            self ==> (result matches Err(e) ==> call_ensures(f, (), Err::<T, Error>(e))),
    {
        if self {
            match f() {
                Ok(v) => Ok(Some(v)),
                Err(e) => Err(e),
            }
        } else {
            Ok(None)
        }
    }
}

} // verus!
