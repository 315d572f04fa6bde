//! A tiny nullability abstraction: a trait that unifies "nullable"
//! semantics across pointer-like types, plus two convenience functions
//! built on it.
//!
//! A type opts in by providing a designated null value and a predicate
//! that reports whether a given value is that null value, without
//! requiring general equality comparison support.

use vstd::prelude::*;

verus! {

/// Any type that can be some form of null.
///
/// A type opts into this capability by providing a designated null
/// value ([`Nullable::null`]) and a predicate that reports whether a
/// given value is that null value ([`Nullable::is_null`]), without
/// relying on [`PartialEq`].
pub trait Nullable: Sized {
    /// Whether this value is the designated null value of the type.
    ///
    /// For `Option<_>`, this holds exactly of `None`.
    spec fn spec_is_null(&self) -> bool;

    /// Whatever value of `Self` means null.
    ///
    /// For `Option<_>`, this is `None`.
    ///
    /// See also [`NoneIsNull`].
    fn null() -> (r: Self)
        ensures
            r.spec_is_null(),
    ;

    /// Just a null check without relying on [`PartialEq`]
    /// (i.e., `ptr == null()`).
    fn is_null(&self) -> (r: bool)
        ensures
            r == self.spec_is_null(),
    ;
}

/// Many types are not themselves nullable, but when wrapped in an
/// [`Option`] effectively use [`None`] as null (especially with the
/// niche-filling optimization).
///
/// This includes references and most smart pointers. A type with this
/// marker carries no behavioral contract itself — it only unlocks the
/// generic `Option` implementation of [`Nullable`].
pub trait NoneIsNull: Sized {}

impl<T: NoneIsNull> Nullable for Option<T> {
    open spec fn spec_is_null(&self) -> bool {
        self is None
    }

    fn null() -> (r: Self)
        ensures
            r is None,
    {
        None
    }

    fn is_null(&self) -> (r: bool)
        ensures
            r == (self is None),
    {
        self.is_none()
    }
}

impl<T: ?Sized> NoneIsNull for Box<T> {}

impl<T: ?Sized> NoneIsNull for std::rc::Rc<T> {}

impl<T: ?Sized> NoneIsNull for std::sync::Arc<T> {}

impl<'a, T: ?Sized> NoneIsNull for &'a T {}

impl<'a, T: ?Sized> NoneIsNull for &'a mut T {}

/// Conveniently wraps around [`<P as Nullable>::null()`](Nullable::null).
pub fn null<P: Nullable>() -> (r: P)
    ensures
        r.spec_is_null(),
{
    P::null()
}

/// Wraps around [`<P as Nullable>::is_null(ptr)`](Nullable::is_null).
pub fn is_null<P: Nullable>(ptr: &P) -> (r: bool)
    ensures
        r == ptr.spec_is_null(),
{
    ptr.is_null()
}

/// Law: for every implementing type, testing the freshly constructed
/// null value yields `true` — `is_null(&null::<P>())` is `true`.
pub fn null_value_is_null<P: Nullable>() -> (r: bool)
    ensures
        r,
{
    let n: P = null();
    is_null(&n)
}

/// Law: for a present optional wrapper, `is_null` returns `false`.
pub fn present_is_not_null<T: NoneIsNull>(x: T) -> (r: bool)
    ensures
        !r,
{
    is_null(&Some(x))
}

/// Law: for an optional wrapper around a [`NoneIsNull`] type, the null
/// value is exactly the absent variant, and the null test agrees with
/// the wrapper's own "is absent" check in both states.
pub proof fn lemma_option_null_is_absent<T: NoneIsNull>(v: Option<T>)
    ensures
        v.spec_is_null() <==> v is None,
{
}

} // verus!
