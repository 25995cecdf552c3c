//! Small helpers used while staging array elements.
use vstd::pervasive::strictly_cloned;
use vstd::prelude::*;

verus! {

/// Clones `source`, handing back what `T::clone` returned for it.
pub fn clone<T: Clone>(source: T) -> (r: T)
    ensures
        strictly_cloned(source, r),
{
    source.clone()
}

/// Takes ownership of `t` without running its destructor.
pub fn forget<T>(t: T) {
    let _kept = std::mem::ManuallyDrop::new(t);
}

} // verus!
