//! The two-variant result container and its combinators.

use vstd::prelude::*;
use vstd::string::StringExecFns;

verus! {

/// A two-variant sum type: a computation either succeeded with a value
/// of type `T` or failed with an error payload of type `E`.
///
/// Exactly one variant is populated at any time; instances are never
/// mutated after construction, and every combinator consumes its input
/// and produces a fresh instance.
#[derive(Clone, Debug, PartialEq, Eq)]
pub enum MyResult<T, E> {
    Success(T),
    Failure(E),
}

impl<T, E> MyResult<T, E> {
    /// True exactly when `self` holds a success value.
    pub fn is_ok(&self) -> (r: bool)
        ensures
            r == (self is Success),
    {
        matches!(self, MyResult::Success(_))
    }

    /// True exactly when `self` holds a failure payload.
    pub fn is_err(&self) -> (r: bool)
        ensures
            r == (self is Failure),
    {
        matches!(self, MyResult::Failure(_))
    }

    /// Consumes `self`; yields the success value, or nothing on failure.
    pub fn ok(self) -> (r: Option<T>)
        ensures
            self matches MyResult::Success(v) ==> r == Some(v),
            self is Failure ==> r is None,
    {
        match self {
            MyResult::Success(v) => Some(v),
            MyResult::Failure(_) => None,
        }
    }

    /// Consumes `self`; yields the failure payload, or nothing on success.
    pub fn err(self) -> (r: Option<E>)
        ensures
            self matches MyResult::Failure(e) ==> r == Some(e),
            self is Success ==> r is None,
    {
        match self {
            MyResult::Success(_) => None,
            MyResult::Failure(e) => Some(e),
        }
    }

    /// Consumes `self`; returns the success value. A failure is a misuse
    /// fault, so callers must establish `self is Success`; this verified
    /// function never takes the fatal path.
    pub fn unwrap(self) -> (r: T)
        requires
            self is Success,
        ensures
            self matches MyResult::Success(v) && r == v,
    {
        match self {
            MyResult::Success(v) => v,
            MyResult::Failure(_) => vstd::pervasive::unreached(),
        }
    }

    /// Consumes `self`; returns the success value, or exactly `default`
    /// on failure. Never fails.
    pub fn unwrap_or(self, default: T) -> (r: T)
        ensures
            self matches MyResult::Success(v) ==> r == v,
            self is Failure ==> r == default,
    {
        match self {
            MyResult::Success(v) => v,
            MyResult::Failure(_) => default,
        }
    }

    /// Consumes `self`; applies `f` to the success value, and passes a
    /// failure payload through unchanged.
    pub fn map<U, F: FnOnce(T) -> U>(self, f: F) -> (r: MyResult<U, E>)
        requires
            self matches MyResult::Success(v) ==> call_requires(f, (v,)),
        ensures
            self matches MyResult::Success(v) ==> (r matches MyResult::Success(u)
                && call_ensures(f, (v,), u)),
            self matches MyResult::Failure(e) ==> r == MyResult::<U, E>::Failure(e),
    {
        match self {
            MyResult::Success(v) => MyResult::Success(f(v)),
            MyResult::Failure(e) => MyResult::Failure(e),
        }
    }

    /// Consumes `self`; applies `f` to the failure payload, and passes a
    /// success value through unchanged.
    pub fn map_err<F2, F: FnOnce(E) -> F2>(self, f: F) -> (r: MyResult<T, F2>)
        requires
            self matches MyResult::Failure(e) ==> call_requires(f, (e,)),
        ensures
            self matches MyResult::Success(v) ==> r == MyResult::<T, F2>::Success(v),
            self matches MyResult::Failure(e) ==> (r matches MyResult::Failure(e2)
                && call_ensures(f, (e,), e2)),
    {
        match self {
            MyResult::Success(v) => MyResult::Success(v),
            MyResult::Failure(e) => MyResult::Failure(f(e)),
        }
    }

    /// Consumes `self`; on success hands the value to the next fallible
    /// step `f` and returns its outcome directly, and on failure
    /// short-circuits, returning the original payload without invoking
    /// `f`. The error type is shared across the chain.
    pub fn and_then<U, F: FnOnce(T) -> MyResult<U, E>>(self, f: F) -> (r: MyResult<U, E>)
        requires
            self matches MyResult::Success(v) ==> call_requires(f, (v,)),
        ensures
            self matches MyResult::Success(v) ==> call_ensures(f, (v,), r),
            self matches MyResult::Failure(e) ==> r == MyResult::<U, E>::Failure(e),
    {
        match self {
            MyResult::Success(v) => f(v),
            MyResult::Failure(e) => MyResult::Failure(e),
        }
    }
}

/// Relies on the `format!` macro with the `{:?}` specifier: renders a
/// value through its `core::fmt::Debug` implementation. Nothing is
/// promised of the rendering, which depends on that implementation.
#[verifier::external_body]
fn debug_payload<T: core::fmt::Debug>(t: &T) -> String {
    format!("{:?}", t)
}

/// The opening tag of a rendered success.
pub open spec fn success_tag() -> Seq<char> {
    "MyResult::Ok("@
}

/// The opening tag of a rendered failure.
pub open spec fn failure_tag() -> Seq<char> {
    "MyResult::Err("@
}

/// `s` opens with `tag`, holds a payload rendering after it, and closes
/// with a parenthesis.
pub open spec fn tagged_rendering(tag: Seq<char>, s: Seq<char>) -> bool {
    &&& s.len() > tag.len()
    &&& s.subrange(0, tag.len() as int) == tag
    &&& s.last() == ')'
}

impl<T: core::fmt::Debug, E: core::fmt::Debug> MyResult<T, E> {
    /// A diagnostic rendering that names the variant and wraps the
    /// payload's own debug form: the variant can be read back off the
    /// result, since exactly one of the two tags opens it.
    pub fn debug_string(&self) -> (r: String)
        ensures
            tagged_rendering(success_tag(), r@) == (self is Success),
            tagged_rendering(failure_tag(), r@) == (self is Failure),
    {
        proof {
            reveal_strlit("MyResult::Ok(");
            reveal_strlit("MyResult::Err(");
            reveal_strlit(")");
        }
        match self {
            MyResult::Success(v) => {
                let payload = debug_payload(v);
                let r = String::from_str("MyResult::Ok(").concat(payload.as_str()).concat(")");
                proof {
                    assert(success_tag()[10] != failure_tag()[10]);
                    lemma_tagged_concat(success_tag(), failure_tag(), payload@, r@);
                }
                r
            },
            MyResult::Failure(e) => {
                let payload = debug_payload(e);
                let r = String::from_str("MyResult::Err(").concat(payload.as_str()).concat(")");
                proof {
                    assert(failure_tag()[10] != success_tag()[10]);
                    lemma_tagged_concat(failure_tag(), success_tag(), payload@, r@);
                }
                r
            },
        }
    }
}

/// A string built as `tag + payload + ")"` is tagged with `tag`, and not
/// with `other` when the two tags disagree at some position.
proof fn lemma_tagged_concat(tag: Seq<char>, other: Seq<char>, payload: Seq<char>, s: Seq<char>)
    requires
        s == tag + payload + ")"@,
        exists|i: int|
            0 <= i < tag.len() && i < other.len() && tag[i] != other[i],
    ensures
        tagged_rendering(tag, s),
        !tagged_rendering(other, s),
{
    reveal_strlit(")");
    assert(s.subrange(0, tag.len() as int) =~= tag);
    assert(s.last() == ')');
    let i = choose|i: int|
        0 <= i < tag.len() && i < other.len() && tag[i] != other[i];
    if tagged_rendering(other, s) {
        assert(s.subrange(0, other.len() as int)[i] == s[i]);
        assert(s[i] == tag[i]);
        assert(false);
    }
}

/// The canonical image of a `MyResult` in the host's native result type:
/// same variant, same payload.
pub open spec fn spec_to_native<T, E>(m: MyResult<T, E>) -> Result<T, E> {
    match m {
        MyResult::Success(v) => Ok(v),
        MyResult::Failure(e) => Err(e),
    }
}

/// The canonical image of a native result in `MyResult`: same variant,
/// same payload.
pub open spec fn spec_from_native<T, E>(r: Result<T, E>) -> MyResult<T, E> {
    match r {
        Ok(v) => MyResult::Success(v),
        Err(e) => MyResult::Failure(e),
    }
}

impl<T, E> From<MyResult<T, E>> for Result<T, E> {
    /// Lossless conversion into the native result type.
    fn from(m: MyResult<T, E>) -> (r: Self) {
        match m {
            MyResult::Success(v) => Ok(v),
            MyResult::Failure(e) => Err(e),
        }
    }
}

impl<T, E> vstd::std_specs::convert::FromSpecImpl<MyResult<T, E>> for Result<T, E> {
    open spec fn obeys_from_spec() -> bool {
        true
    }

    open spec fn from_spec(m: MyResult<T, E>) -> Self {
        spec_to_native(m)
    }
}

impl<T, E> From<Result<T, E>> for MyResult<T, E> {
    /// Lossless conversion from the native result type.
    fn from(r: Result<T, E>) -> (m: Self) {
        match r {
            Ok(v) => MyResult::Success(v),
            Err(e) => MyResult::Failure(e),
        }
    }
}

impl<T, E> vstd::std_specs::convert::FromSpecImpl<Result<T, E>> for MyResult<T, E> {
    open spec fn obeys_from_spec() -> bool {
        true
    }

    open spec fn from_spec(r: Result<T, E>) -> Self {
        spec_from_native(r)
    }
}

/// Law: a freshly built success is a success and not a failure, and a
/// freshly built failure is a failure and not a success.
pub proof fn lemma_construct_variants<T, E>(v: T, e: E)
    ensures
        MyResult::<T, E>::Success(v) is Success,
        !(MyResult::<T, E>::Success(v) is Failure),
        MyResult::<T, E>::Failure(e) is Failure,
        !(MyResult::<T, E>::Failure(e) is Success),
{
}

/// Law: converting a native result into the container and back is the
/// identity.
pub proof fn lemma_native_round_trip<T, E>(r: Result<T, E>)
    ensures
        spec_to_native(spec_from_native(r)) == r,
{
}

/// Law: converting the container into the native result type and back
/// is the identity.
pub proof fn lemma_container_round_trip<T, E>(m: MyResult<T, E>)
    ensures
        spec_from_native(spec_to_native(m)) == m,
{
}

} // verus!
