//! Building an owned fixed-size array by cloning the elements of a slice.
//!
//! The builder stages clones in a prefix of the target storage. Its count of
//! populated slots grows by one only after a clone has returned, so when a
//! clone unwinds, the builder is dropped holding exactly the clones that were
//! made before it, each of which is dropped once; no slot past them is ever
//! read or dropped.
use vstd::pervasive::strictly_cloned;
use vstd::prelude::*;

verus! {

/// Relies on `<[T; N] as TryFrom<Vec<T>>>::try_from`: it moves the vector's
/// elements, in order, into an array exactly when the vector holds `N` of
/// them, and hands the vector back unchanged otherwise.
#[verifier::external_body]
fn vec_into_array<T, const N: usize>(v: Vec<T>) -> (r: Result<[T; N], Vec<T>>)
    ensures
        r is Ok <==> v@.len() == N,
        r is Ok ==> r->Ok_0@ == v@,
        r is Err ==> r->Err_0@ == v@,
{
    <[T; N]>::try_from(v)
}

/// Staging storage for an array of `N` elements: the populated slots are a
/// prefix of it, and the builder owns the values in them.
pub struct FixedArrayBuilder<T, const N: usize> {
    staged: Vec<T>,
}

impl<T, const N: usize> View for FixedArrayBuilder<T, N> {
    type V = Seq<T>;

    /// The values in the populated slots, in slot order.
    closed spec fn view(&self) -> Seq<T> {
        self.staged@
    }
}

impl<T, const N: usize> FixedArrayBuilder<T, N> {
    /// No more than `N` slots are populated.
    pub open spec fn wf(&self) -> bool {
        self@.len() <= N
    }

    /// A builder with no populated slot.
    pub fn new() -> (r: Self)
        ensures
            r.wf(),
            r@ == Seq::<T>::empty(),
    {
        FixedArrayBuilder { staged: Vec::new() }
    }

    /// The number of populated slots.
    pub fn count(&self) -> (r: usize)
        ensures
            r == self@.len(),
    {
        self.staged.len()
    }

    /// Places `value` in the first unpopulated slot.
    pub fn push(&mut self, value: T)
        requires
            old(self).wf(),
            old(self)@.len() < N,
        ensures
            final(self).wf(),
            final(self)@ == old(self)@.push(value),
    {
        self.staged.push(value);
    }

    /// Hands over the array when every slot is populated. Otherwise the
    /// builder is torn down: the values in the populated slots are dropped,
    /// each once, and `None` is returned.
    pub fn finish(self) -> (r: Option<[T; N]>)
        requires
            self.wf(),
        ensures
            r is Some <==> self@.len() == N,
            r is Some ==> r.unwrap()@ == self@,
    {
        match vec_into_array(self.staged) {
            Ok(a) => Some(a),
            Err(_) => None,
        }
    }
}

impl<T: Clone, const N: usize> FixedArrayBuilder<T, N> {
    /// Clones `item` into the first unpopulated slot. The slot counts as
    /// populated only once the clone has returned.
    pub fn push_clone(&mut self, item: &T)
        requires
            old(self).wf(),
            old(self)@.len() < N,
        ensures
            final(self).wf(),
            final(self)@.len() == old(self)@.len() + 1,
            final(self)@.drop_last() == old(self)@,
            strictly_cloned(*item, final(self)@.last()),
    {
        let value = item.clone();
        self.push(value);
        proof {
            assert(self@.drop_last() =~= old(self)@);
        }
    }

    /// Clones every element of `source`, in increasing index order, into an
    /// array of length `N`.
    ///
    /// The result is present exactly when `source` holds `N` elements, and
    /// then its element at each index is a clone of the element of `source`
    /// at that index. On a length mismatch nothing is cloned.
    pub fn build_from(source: &[T]) -> (r: Option<[T; N]>)
        ensures
            r is Some <==> source@.len() == N,
            r is Some ==> forall|i: int|
                0 <= i < N ==> strictly_cloned(#[trigger] source@[i], r.unwrap()@[i]),
    {
        if source.len() != N {
            return None;
        }
        let mut builder = Self::new();
        let mut i: usize = 0;
        while i < N
            invariant
                source@.len() == N,
                builder.wf(),
                builder@.len() == i,
                forall|j: int| 0 <= j < i ==> strictly_cloned(#[trigger] source@[j], builder@[j]),
            decreases N - i,
        {
            builder.push_clone(&source[i]);
            i += 1;
        }
        builder.finish()
    }
}

/// Clones the elements of `s` into an owned array of length `N`, leaving `s`
/// as it was.
///
/// The result is present exactly when `s` holds `N` elements, and then its
/// element at each index is a clone of the element of `s` at that index.
/// Where cloning a `T` always yields an equal value, the array equals `s`
/// element for element.
pub fn slice_to_array_clone<T: Clone, const N: usize>(s: &[T]) -> (r: Option<[T; N]>)
    ensures
        r is Some <==> s@.len() == N,
        r is Some ==> forall|i: int| 0 <= i < N ==> strictly_cloned(#[trigger] s@[i], r.unwrap()@[i]),
        r is Some && (forall|x: T, y: T| #[trigger] strictly_cloned(x, y) ==> x == y) ==> r.unwrap()@
            == s@,
{
    let r = FixedArrayBuilder::build_from(s);
    proof {
        if r is Some && (forall|x: T, y: T| #[trigger] strictly_cloned(x, y) ==> x == y) {
            assert(r.unwrap()@ =~= s@);
        }
    }
    r
}

} // verus!
