//! Small function combinators.

use vstd::prelude::*;

verus! {

/// Injects a second variable into the function call:
/// `inject(f, b) = |a| f(a, b)`.
///
/// The returned closure may be called wherever `f` may be called with `b` as
/// its second argument, and everything `f` guarantees of its result then
/// holds of the closure's result.
pub fn inject<F, A, B, R>(f: F, b: B) -> (g: impl Fn(A) -> R) where
    F: Fn(A, B) -> R + Copy,
    B: Copy,

    ensures
        forall|a: A| call_requires(f, (a, b)) ==> #[trigger] call_requires(g, (a,)),
        forall|a: A, r: R| #[trigger] call_ensures(g, (a,), r) ==> call_ensures(f, (a, b), r),
{
    let g = move |a: A| -> (r: R)
        requires
            call_requires(f, (a, b)),
        ensures
            call_ensures(f, (a, b), r),
        { f(a, b) };
    g
}

} // verus!
