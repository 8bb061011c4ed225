use crate::brand::Brand;
use vstd::prelude::*;

verus! {

/// A vector whose indices are checked once, then branded so that later
/// accesses need no check.
///
/// A handle from one vector cannot be used on another, even one with the same
/// contents:
///
/// ```compile_fail
/// use branded::FastVec;
///
/// FastVec::new(vec![0, 1, 2, 3], |first: FastVec<'_, i32>| {
///     FastVec::new(vec![0, 1, 2, 3], |second: FastVec<'_, i32>| {
///         let h = first.make_idx(1).unwrap();
///         second.get(h);
///     });
/// });
/// ```
pub struct FastVec<'b, T> {
    inner: Vec<T>,
    b: Brand<'b>,
}

/// An index that was found in bounds for the `FastVec` carrying brand `'b`.
#[derive(Clone, Copy)]
pub struct Idx<'b> {
    idx: usize,
    _b: Brand<'b>,
}

impl<'b> Idx<'b> {
    /// The position this handle stands for.
    pub closed spec fn pos(self) -> nat {
        self.idx as nat
    }

    /// The position this handle stands for.
    pub fn index(&self) -> (r: usize)
        ensures
            r == self.pos(),
    {
        self.idx
    }
}

impl<'b, T> View for FastVec<'b, T> {
    type V = Seq<T>;

    closed spec fn view(&self) -> Seq<T> {
        self.inner@
    }
}

impl<'b, T> FastVec<'b, T> {
    /// What validating `i` yields: a handle for `i` when `i` is in bounds.
    pub closed spec fn idx_for(&self, i: usize) -> Option<Idx<'b>> {
        if i < self.inner@.len() {
            Some(Idx { idx: i, _b: self.b })
        } else {
            None
        }
    }

    /// The handle `h` may be handed to `get` on this vector.
    pub open spec fn holds(&self, h: Idx<'b>) -> bool {
        h.pos() < self@.len()
    }

    /// The element that handle `h` resolves to.
    pub open spec fn at(&self, h: Idx<'b>) -> T
        recommends
            self.holds(h),
    {
        self@[h.pos() as int]
    }

    /// Brands `inner` with a fresh brand, passes it to `f`, and returns what `f` returns.
    pub fn new<R>(inner: Vec<T>, f: impl for <'n> FnOnce(FastVec<'n, T>) -> R) -> (r: R)
        requires
            forall|v: FastVec<T>| v@ == inner@ ==> f.requires((v,)),
        ensures
            exists|v: FastVec<T>| v@ == inner@ && f.ensures((v,), r),
    {
        let ghost contents = inner@;
        Brand::new(
            move |b: Brand<'_>| -> (r: R)
                requires
                    inner@ == contents,
                    forall|v: FastVec<T>| v@ == contents ==> f.requires((v,)),
                ensures
                    (exists|v: FastVec<T>| v@ == contents && f.ensures((v,), r))
                {
                    let v = FastVec { inner, b };
                    assert(v@ == contents);
                    f(v)
                },
        )
    }

    /// One-time validation that `idx` is in bounds.
    pub fn make_idx(&self, idx: usize) -> (r: Option<Idx<'b>>)
        ensures
            r == self.idx_for(idx),
            r is Some <==> idx < self@.len(),
            r matches Some(h) ==> h.pos() == idx && self.holds(h),
    {
        if idx < self.inner.len() {
            Some(Idx { idx, _b: self.b })
        } else {
            None
        }
    }

    /// Reads the element at an already validated index.
    pub fn get(&self, idx: Idx<'b>) -> (r: &T)
        requires
            self.holds(idx),
        ensures
            *r == self.at(idx),
    {
        &self.inner[idx.idx]
    }
}

/// Validating an in-bounds index yields a handle, and reading through that
/// handle gives back the element stored at the index.
pub proof fn lemma_validate_round_trip<'b, T>(v: &FastVec<'b, T>, i: usize)
    requires
        i < v@.len(),
    ensures
        v.idx_for(i) is Some,
        v.holds(v.idx_for(i).unwrap()),
        v.idx_for(i).unwrap().pos() == i,
        v.at(v.idx_for(i).unwrap()) == v@[i as int],
{
}

/// Validating an out-of-bounds index yields no handle.
pub proof fn lemma_validate_rejects<'b, T>(v: &FastVec<'b, T>, i: usize)
    requires
        i >= v@.len(),
    ensures
        v.idx_for(i) is None,
{
}

/// Validating the same index twice yields the same handle: both may be used
/// on the vector and both resolve to the same element.
pub proof fn lemma_validate_idempotent<'b, T>(v: &FastVec<'b, T>, i: usize, h1: Idx<'b>, h2: Idx<'b>)
    requires
        v.idx_for(i) == Some(h1),
        v.idx_for(i) == Some(h2),
    ensures
        h1 == h2,
        v.holds(h1),
        v.holds(h2),
        v.at(h1) == v.at(h2),
        v.at(h1) == v@[i as int],
{
}

/// A copy of a usable handle is usable on the same vector and resolves to
/// the same element.
pub proof fn lemma_copy_keeps_handle<'b, T>(v: &FastVec<'b, T>, h: Idx<'b>, c: Idx<'b>)
    requires
        v.holds(h),
        c == h,
    ensures
        v.holds(c),
        c.pos() == h.pos(),
        v.at(c) == v.at(h),
{
}

} // verus!
