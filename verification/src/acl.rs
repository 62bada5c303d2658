//! Access control: engines that say whether a context may proceed, and the
//! rule that turns their verdict into a result.

use vstd::prelude::*;
use vstd::std_specs::convert::FromSpec;
use vstd::string::StringExecFns;

verus! {

/// What an engine answers for a context: whether it may proceed, or the
/// failure of the engine itself. The context is handed back either way.
pub type Verdict<Context, E> = Result<(bool, Context), (E, Context)>;

/// The failure of a context that may not proceed.
#[derive(Clone, Copy, Debug, PartialEq, Eq)]
pub struct UnauthorizedError;

impl UnauthorizedError {
    /// Describes the failure.
    pub fn to_string(&self) -> (r: String)
        ensures
            r@ == "Unauthorized"@,
    {
        String::from_str("Unauthorized")
    }
}

/// Whether a result is the one that a verdict calls for: a context that
/// may proceed is handed on, one that may not fails as unauthorized, and a
/// failure of the engine is passed through as it is.
pub open spec fn judged<Context, Error: From<UnauthorizedError>>(
    verdict: Verdict<Context, Error>,
    result: Result<Context, (Error, Context)>,
) -> bool {
    match verdict {
        Ok((allowed, ctx)) => if allowed {
            result == Ok::<Context, (Error, Context)>(ctx)
        } else {
            result matches Err((error, context)) && context == ctx && (Error::obeys_from_spec()
                ==> error == Error::from_spec(UnauthorizedError))
        },
        Err(failure) => result == Err::<Context, (Error, Context)>(failure),
    }
}

/// Turns a verdict into the result that it calls for.
pub fn ensured<Context, Error: From<UnauthorizedError>>(verdict: Verdict<Context, Error>) -> (r:
    Result<Context, (Error, Context)>)
    ensures
        judged(verdict, r),
{
    match verdict {
        Ok((allowed, ctx)) => {
            if allowed {
                Ok(ctx)
            } else {
                Err((Error::from(UnauthorizedError), ctx))
            }
        },
        Err(failure) => Err(failure),
    }
}

/// An access control engine. All logic for roles and permissions belongs
/// in the implementations of this trait.
pub trait AclEngine<Context, Error: From<UnauthorizedError>> {
    /// The contexts that the engine can be asked about.
    spec fn may_ask(&self, ctx: Context) -> bool;

    /// The verdicts that the engine may give for a context.
    spec fn may_answer(&self, ctx: Context, verdict: Verdict<Context, Error>) -> bool;

    /// Tells whether the context may proceed.
    fn allows(&self, ctx: Context) -> (r: Verdict<Context, Error>)
        requires
            self.may_ask(ctx),
        ensures
            self.may_answer(ctx, r),
    ;

    /// Hands the context on if it may proceed, and fails otherwise: the
    /// result that a verdict of the engine calls for.
    fn ensure_access(&self, ctx: Context) -> (r: Result<Context, (Error, Context)>)
        requires
            self.may_ask(ctx),
        ensures
            exists|verdict: Verdict<Context, Error>| #[trigger]
                self.may_answer(ctx, verdict) && judged(verdict, r),
    {
        ensured(self.allows(ctx))
    }
}

/// Every function from a context to a verdict is an engine.
impl<Context, Error: From<UnauthorizedError>, T: Fn(Context) -> Verdict<Context, Error>> AclEngine<
    Context,
    Error,
> for T {
    open spec fn may_ask(&self, ctx: Context) -> bool {
        call_requires(*self, (ctx,))
    }

    open spec fn may_answer(&self, ctx: Context, verdict: Verdict<Context, Error>) -> bool {
        call_ensures(*self, (ctx,), verdict)
    }

    fn allows(&self, ctx: Context) -> Verdict<Context, Error> {
        (self)(ctx)
    }
}

/// Allows everything.
#[derive(Clone, Copy, Debug, Default)]
pub struct SystemACL;

impl<Context, Error: From<UnauthorizedError>> AclEngine<Context, Error> for SystemACL {
    open spec fn may_ask(&self, ctx: Context) -> bool {
        true
    }

    open spec fn may_answer(&self, ctx: Context, verdict: Verdict<Context, Error>) -> bool {
        verdict == Ok::<(bool, Context), (Error, Context)>((true, ctx))
    }

    fn allows(&self, ctx: Context) -> Verdict<Context, Error> {
        Ok((true, ctx))
    }
}

/// Denies everything.
#[derive(Clone, Copy, Debug, Default)]
pub struct ForbiddenACL;

impl<Context, Error: From<UnauthorizedError>> AclEngine<Context, Error> for ForbiddenACL {
    open spec fn may_ask(&self, ctx: Context) -> bool {
        true
    }

    open spec fn may_answer(&self, ctx: Context, verdict: Verdict<Context, Error>) -> bool {
        verdict == Ok::<(bool, Context), (Error, Context)>((false, ctx))
    }

    fn allows(&self, ctx: Context) -> Verdict<Context, Error> {
        Ok((false, ctx))
    }
}

} // verus!
