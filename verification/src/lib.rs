//! A minimal, explicit two-variant result container.
//!
//! `MyResult<T, E>` models a fallible computation's outcome as either
//! `Success(value)` or `Failure(error)`, with a small set of verified
//! combinators, lossless conversion to and from the host's native
//! `Result`, and a short-circuit propagation capability (`MyTry`).

pub mod calc;
pub mod my_result;
pub mod my_try;
