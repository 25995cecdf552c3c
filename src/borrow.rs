//! Zero-copy views of a slice as a fixed-size array.
use vstd::prelude::*;

verus! {

/// Relies on `<[T]>::as_array`: it yields the slice's own storage typed as
/// `[T; N]` exactly when the slice holds `N` elements, and `None` otherwise.
#[verifier::external_body]
fn reinterpret<T, const N: usize>(s: &[T]) -> (r: Option<&[T; N]>)
    ensures
        r is Some <==> s@.len() == N,
        r is Some ==> r.unwrap()@ == s@,
{
    s.as_array::<N>()
}

/// Relies on `<[T]>::as_mut_array`: it yields the slice's own storage typed
/// as `[T; N]` exactly when the slice holds `N` elements, and `None`
/// otherwise; what is written through the array is what the slice holds
/// once the borrow ends.
#[verifier::external_body]
fn reinterpret_mut<T, const N: usize>(s: &mut [T]) -> (r: Option<&mut [T; N]>)
    ensures
        r is Some <==> old(s)@.len() == N,
        r is Some ==> (*r.unwrap())@ == old(s)@ && final(s)@ == final(r.unwrap())@,
        r is None ==> final(s)@ == old(s)@,
{
    s.as_mut_array::<N>()
}

/// Borrows `s` as an array of length `N`, without copying.
///
/// The result is present exactly when `s` holds `N` elements, and then holds
/// the elements of `s` in order.
pub fn slice_as_array<T, const N: usize>(s: &[T]) -> (r: Option<&[T; N]>)
    ensures
        r is Some <==> s@.len() == N,
        r is Some ==> r.unwrap()@ == s@,
{
    if s.len() != N {
        return None;
    }
    reinterpret(s)
}

/// Borrows `s` exclusively as an array of length `N`, without copying.
///
/// The result is present exactly when `s` holds `N` elements, and then holds
/// the elements of `s` in order; once the borrow ends, `s` holds what was
/// left in the array. When absent, `s` is unchanged.
pub fn slice_as_array_mut<T, const N: usize>(s: &mut [T]) -> (r: Option<&mut [T; N]>)
    ensures
        r is Some <==> old(s)@.len() == N,
        r is Some ==> (*r.unwrap())@ == old(s)@ && final(s)@ == final(r.unwrap())@,
        r is None ==> final(s)@ == old(s)@,
{
    if s.len() != N {
        return None;
    }
    reinterpret_mut(s)
}

} // verus!
