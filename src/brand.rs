use core::marker::PhantomData;
use vstd::prelude::*;

verus! {

/// A branded lifetime. The lifetime `'brand` is unique to one call of `Brand::new`.
///
/// Brands from two calls never have the same lifetime, even when the calls are
/// nested or written alike:
///
/// ```compile_fail
/// use branded::Brand;
///
/// fn same<'a>(_x: Brand<'a>, _y: Brand<'a>) {}
///
/// Brand::new(|a: Brand<'_>| Brand::new(|b: Brand<'_>| same(a, b)));
/// ```
#[derive(Default, Copy, Clone)]
pub struct Brand<'brand> {
    /// Invariant in `'brand`: only the exact, original lifetime matches.
    _marker: PhantomData<&'brand mut &'brand ()>,
}

impl<'brand> Brand<'brand> {
    /// Creates a new `Brand`, hands it to `f`, and returns what `f` returns.
    pub fn new<R, F: WithBrand<R>>(f: F) -> (r: R)
        requires
            forall|b: Brand| f.requires((b,)),
        ensures
            exists|b: Brand| f.ensures((b,), r),
    {
        let b = Brand { _marker: PhantomData };
        f(b)
    }
}

/// Any `FnOnce` closure that accepts a `Brand` of every lifetime and returns an `R`.
pub trait WithBrand<R = ()>: for <'b> FnOnce(Brand<'b>) -> R {}

impl<F, R> WithBrand<R> for F where F: for <'b> FnOnce(Brand<'b>) -> R {}

} // verus!
