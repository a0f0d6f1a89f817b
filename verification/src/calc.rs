//! Small demonstration pipelines over `MyResult`.

use vstd::prelude::*;
use crate::my_result::MyResult;

verus! {

/// Integer division as a fallible step: fails exactly when the divisor
/// is zero, and otherwise yields the quotient.
pub fn divide(a: u32, b: u32) -> (r: MyResult<u32, &'static str>)
    ensures
        b == 0 ==> (r matches MyResult::Failure(m) && m@ == "Cannot divide by zero"@),
        b != 0 ==> (r matches MyResult::Success(q) && q == a as int / b as int),
{
    if b == 0 {
        MyResult::Failure("Cannot divide by zero")
    } else {
        MyResult::Success(a / b)
    }
}

/// Addition as a fallible step that always succeeds.
pub fn add(x: i32, y: i32) -> (r: MyResult<i32, &'static str>)
    requires
        i32::MIN <= x + y <= i32::MAX,
    ensures
        r == MyResult::<i32, &'static str>::Success((x + y) as i32),
{
    MyResult::Success(x + y)
}

/// A three-step pipeline written with `and_then` chaining.
pub fn do_calc() -> (r: MyResult<i32, &'static str>)
    ensures
        r == MyResult::<i32, &'static str>::Success(18),
{
    crate::calc::add(2, 3).and_then(add_four).and_then(double_value)
}

/// One pipeline step: add four to the value.
fn add_four(a: i32) -> (r: MyResult<i32, &'static str>)
    requires
        a + 4 <= i32::MAX,
    ensures
        r matches MyResult::Success(u) && u == a + 4,
{
    crate::calc::add(a, 4)
}

/// One pipeline step: double the value.
fn double_value(b: i32) -> (r: MyResult<i32, &'static str>)
    requires
        i32::MIN <= b * 2 <= i32::MAX,
    ensures
        r matches MyResult::Success(u) && u == b * 2,
{
    MyResult::Success(b * 2)
}

/// The same three-step pipeline written with the propagation pattern:
/// each fallible step is matched, a success value flows on, and a
/// failure returns early from the enclosing function.
pub fn do_calc2() -> (r: MyResult<i32, &'static str>)
    ensures
        r == MyResult::<i32, &'static str>::Success(18),
{
    let a = match crate::calc::add(2, 3) {
        MyResult::Success(v) => v,
        MyResult::Failure(e) => return MyResult::Failure(e),
    };
    let b = match crate::calc::add(a, 4) {
        MyResult::Success(v) => v,
        MyResult::Failure(e) => return MyResult::Failure(e),
    };
    MyResult::Success(b * 2)
}

/// What the tail of the demonstration pipeline computes from its first
/// step's outcome: on success, add four and double; on failure, keep
/// the payload untouched.
pub open spec fn spec_calc_continue(start: MyResult<i32, &'static str>) -> MyResult<
    i32,
    &'static str,
> {
    match start {
        MyResult::Success(a) => MyResult::Success(((a + 4) * 2) as i32),
        MyResult::Failure(e) => MyResult::Failure(e),
    }
}

/// The pipeline tail written with `and_then` chaining. Law: it computes
/// exactly `spec_calc_continue`, for success and for failure inputs, as
/// does `calc_propagated`.
pub fn calc_chained(start: MyResult<i32, &'static str>) -> (r: MyResult<i32, &'static str>)
    requires
        start matches MyResult::Success(a) ==> (a + 4 <= i32::MAX && i32::MIN <= (a + 4) * 2
            <= i32::MAX),
    ensures
        r == spec_calc_continue(start),
{
    start.and_then(add_four).and_then(double_value)
}

/// The pipeline tail written with the propagation pattern. Law: it
/// computes exactly `spec_calc_continue`, for success and for failure
/// inputs, as does `calc_chained`.
pub fn calc_propagated(start: MyResult<i32, &'static str>) -> (r: MyResult<i32, &'static str>)
    requires
        start matches MyResult::Success(a) ==> (a + 4 <= i32::MAX && i32::MIN <= (a + 4) * 2
            <= i32::MAX),
    ensures
        r == spec_calc_continue(start),
{
    let a = match start {
        MyResult::Success(v) => v,
        MyResult::Failure(e) => return MyResult::Failure(e),
    };
    let b = match crate::calc::add(a, 4) {
        MyResult::Success(v) => v,
        MyResult::Failure(e) => return MyResult::Failure(e),
    };
    MyResult::Success(b * 2)
}

} // verus!
