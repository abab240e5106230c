//! What the conversions of the standard library return, where the library
//! relies on it.
use std::borrow::Cow;
use vstd::prelude::*;

verus! {

/// `From<A> for A`: returns the argument unchanged.
pub assume_specification<A>[ <A as From<A>>::from ](value: A) -> (same: A)
    ensures
        same == value,
;

/// `From<&str> for Cow<str>`: borrows the string slice.
pub assume_specification<'a>[ <Cow<'a, str> as From<&'a str>>::from ](slice: &'a str) -> (converted: Cow<'a, str>)
    ensures
        converted == Cow::Borrowed(slice),
;

/// `From<String> for Cow<str>`: takes the string over.
pub assume_specification<'a>[ <Cow<'a, str> as From<String>>::from ](string: String) -> (converted: Cow<'a, str>)
    ensures
        converted == Cow::<str>::Owned(string),
;

} // verus!
