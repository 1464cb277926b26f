//! The wrapper type: a container of exactly one payload that never looks
//! inside it and compares exactly as the payload does.

use std::cmp::Ordering;
use vstd::prelude::*;
use vstd::std_specs::cmp::PartialEqSpec;
use vstd::std_specs::cmp::PartialOrdSpec;
use vstd::std_specs::convert::FromSpecImpl;

verus! {

/// A wrapper around one payload of any type.
///
/// The payload is owned exclusively and handed back unchanged by
/// [`DBson::into_inner`].
#[derive(Debug, Clone, Copy, Hash, Eq, Ord)]
pub struct DBson<T> {
    /// The payload.
    pub inner: T,
}

impl<T> View for DBson<T> {
    type V = T;

    /// The payload that the wrapper holds.
    open spec fn view(&self) -> T {
        self.inner
    }
}

impl<T> DBson<T> {
    /// The wrapper that holds `inner`.
    pub open spec fn wrap(inner: T) -> Self {
        DBson { inner }
    }

    /// Wraps a payload. No validation takes place.
    pub fn new(inner: T) -> (r: Self)
        ensures
            r == Self::wrap(inner),
            r@ == inner,
    {
        DBson { inner }
    }

    /// Consumes the wrapper and gives the payload back.
    pub fn into_inner(self) -> (r: T)
        ensures
            r == self@,
            self == Self::wrap(r),
    {
        self.inner
    }

    /// Wrapping and unwrapping undo each other: the payload of a freshly made
    /// wrapper is the value it was made from, and wrapping what a wrapper
    /// holds gives that wrapper again.
    pub proof fn lemma_wrap_view(self, v: T)
        ensures
            Self::wrap(v)@ == v,
            Self::wrap(self@) == self,
    {
    }
}

impl<T> From<T> for DBson<T> {
    fn from(inner: T) -> (r: Self) {
        DBson { inner }
    }
}

impl<T> FromSpecImpl<T> for DBson<T> {
    open spec fn obeys_from_spec() -> bool {
        true
    }

    open spec fn from_spec(v: T) -> Self {
        Self::wrap(v)
    }
}

impl<T: PartialEq> PartialEq for DBson<T> {
    fn eq(&self, other: &Self) -> (r: bool) {
        self.inner == other.inner
    }
}

impl<T: PartialEq> vstd::std_specs::cmp::PartialEqSpecImpl for DBson<T> {
    open spec fn obeys_eq_spec() -> bool {
        T::obeys_eq_spec()
    }

    open spec fn eq_spec(&self, other: &Self) -> bool {
        self@.eq_spec(&other@)
    }
}

impl<T: PartialOrd> PartialOrd for DBson<T> {
    fn partial_cmp(&self, other: &Self) -> (r: Option<Ordering>) {
        self.inner.partial_cmp(&other.inner)
    }
}

impl<T: PartialOrd> vstd::std_specs::cmp::PartialOrdSpecImpl for DBson<T> {
    open spec fn obeys_partial_cmp_spec() -> bool {
        T::obeys_partial_cmp_spec()
    }

    open spec fn partial_cmp_spec(&self, other: &Self) -> Option<Ordering> {
        self@.partial_cmp_spec(&other@)
    }
}

/// Ordering is delegated: two wrapped values compare as the values
/// themselves do.
pub proof fn lemma_ordering_delegates<T: PartialOrd>(v1: T, v2: T)
    ensures
        DBson::wrap(v1).partial_cmp_spec(&DBson::wrap(v2)) == v1.partial_cmp_spec(&v2),
{
}

/// Equality is delegated: two wrapped values compare equal exactly when the
/// values themselves do.
pub proof fn lemma_equality_delegates<T: PartialEq>(v1: T, v2: T)
    ensures
        DBson::wrap(v1).eq_spec(&DBson::wrap(v2)) <==> v1.eq_spec(&v2),
{
}

} // verus!
