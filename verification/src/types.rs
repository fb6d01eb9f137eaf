//! Metadata wrappers: generic containers that attach a name fact, a
//! marker fact, or both to an inner value while keeping that value
//! directly readable and writable through the wrapper. They perform no
//! validation and never fail; they are pure data plumbing.

use vstd::prelude::*;
use vstd::std_specs::convert::FromSpecImpl;

verus! {

/// A value carrying a name fact.
pub trait Named<N> {
    /// The name fact the value carries.
    spec fn spec_name(&self) -> N;

    /// Returns the carried name.
    fn name(&self) -> (r: &N)
        ensures
            *r == self.spec_name(),
    ;
}

/// A value carrying an associated-marker fact.
pub trait Attributed<A> {
    /// The marker fact the value carries.
    spec fn spec_attribute(&self) -> A;

    /// Returns the carried marker.
    fn attribute(&self) -> (r: &A)
        ensures
            *r == self.spec_attribute(),
    ;
}

/// An inner value together with a name fact.
pub struct SimpleNamed<T, N> {
    pub inner: T,
    pub name: N,
}

impl<T, N> SimpleNamed<T, N> {
    /// Constructs the wrapper from raw parts; no validation.
    pub fn create(inner: T, name: N) -> (r: Self)
        ensures
            r == (SimpleNamed { inner, name }),
    {
        SimpleNamed { inner, name }
    }

    /// Reading through the wrapper observes exactly the inner value.
    pub fn inner(&self) -> (r: &T)
        ensures
            *r == self.inner,
    {
        &self.inner
    }

    /// Unwrapping returns the inner value itself, dropping only the
    /// name fact.
    pub fn into_inner(self) -> (r: T)
        ensures
            r == self.inner,
    {
        self.inner
    }

    /// Writing through the wrapper writes exactly the inner value;
    /// the name fact is untouched.
    pub fn set_inner(&mut self, value: T)
        ensures
            final(self).inner == value,
            final(self).name == old(self).name,
    {
        self.inner = value;
    }
}

impl<T, N> Named<N> for SimpleNamed<T, N> {
    open spec fn spec_name(&self) -> N {
        self.name
    }

    fn name(&self) -> (r: &N) {
        &self.name
    }
}

impl<T, N> From<(T, N)> for SimpleNamed<T, N> {
    fn from(parts: (T, N)) -> (r: Self)
        ensures
            r == (SimpleNamed { inner: parts.0, name: parts.1 }),
    {
        let (inner, name) = parts;
        Self::create(inner, name)
    }
}

impl<T, N> FromSpecImpl<(T, N)> for SimpleNamed<T, N> {
    open spec fn obeys_from_spec() -> bool {
        true
    }

    open spec fn from_spec(parts: (T, N)) -> Self {
        SimpleNamed { inner: parts.0, name: parts.1 }
    }
}

/// An inner value together with an associated-marker fact.
pub struct SimpleAttributed<T, A> {
    pub inner: T,
    pub attribute: A,
}

impl<T, A> SimpleAttributed<T, A> {
    /// Constructs the wrapper from raw parts; no validation.
    pub fn create(inner: T, attribute: A) -> (r: Self)
        ensures
            r == (SimpleAttributed { inner, attribute }),
    {
        SimpleAttributed { inner, attribute }
    }

    /// Reading through the wrapper observes exactly the inner value.
    pub fn inner(&self) -> (r: &T)
        ensures
            *r == self.inner,
    {
        &self.inner
    }

    /// Unwrapping returns the inner value itself, dropping only the
    /// marker fact.
    pub fn into_inner(self) -> (r: T)
        ensures
            r == self.inner,
    {
        self.inner
    }

    /// Writing through the wrapper writes exactly the inner value;
    /// the marker fact is untouched.
    pub fn set_inner(&mut self, value: T)
        ensures
            final(self).inner == value,
            final(self).attribute == old(self).attribute,
    {
        self.inner = value;
    }
}

impl<T, A> Attributed<A> for SimpleAttributed<T, A> {
    open spec fn spec_attribute(&self) -> A {
        self.attribute
    }

    fn attribute(&self) -> (r: &A) {
        &self.attribute
    }
}

impl<T, A> From<(T, A)> for SimpleAttributed<T, A> {
    fn from(parts: (T, A)) -> (r: Self)
        ensures
            r == (SimpleAttributed { inner: parts.0, attribute: parts.1 }),
    {
        let (inner, attribute) = parts;
        Self::create(inner, attribute)
    }
}

impl<T, A> FromSpecImpl<(T, A)> for SimpleAttributed<T, A> {
    open spec fn obeys_from_spec() -> bool {
        true
    }

    open spec fn from_spec(parts: (T, A)) -> Self {
        SimpleAttributed { inner: parts.0, attribute: parts.1 }
    }
}

/// An inner value together with both a name fact and an
/// associated-marker fact.
pub struct SimpleNamedAttributed<T, A, N> {
    pub inner: T,
    pub attribute: A,
    pub name: N,
}

impl<T, A, N> SimpleNamedAttributed<T, A, N> {
    /// Constructs the wrapper from raw parts; no validation.
    pub fn create(inner: T, attribute: A, name: N) -> (r: Self)
        ensures
            r == (SimpleNamedAttributed { inner, attribute, name }),
    {
        SimpleNamedAttributed { inner, attribute, name }
    }

    /// Attaches a marker fact to a named wrapper; both facts are kept
    /// exactly.
    pub fn from_named(named: SimpleNamed<T, N>, attribute: A) -> (r: Self)
        ensures
            r == (SimpleNamedAttributed { inner: named.inner, attribute, name: named.name }),
    {
        let SimpleNamed { inner, name } = named;
        Self::create(inner, attribute, name)
    }

    /// Attaches a name fact to a marked wrapper; both facts are kept
    /// exactly.
    pub fn from_attributed(attributed: SimpleAttributed<T, A>, name: N) -> (r: Self)
        ensures
            r == (SimpleNamedAttributed {
                inner: attributed.inner,
                attribute: attributed.attribute,
                name,
            }),
    {
        let SimpleAttributed { inner, attribute } = attributed;
        Self::create(inner, attribute, name)
    }

    /// Reading through the wrapper observes exactly the inner value.
    pub fn inner(&self) -> (r: &T)
        ensures
            *r == self.inner,
    {
        &self.inner
    }

    /// Unwrapping returns the inner value itself, dropping only the
    /// attached facts.
    pub fn into_inner(self) -> (r: T)
        ensures
            r == self.inner,
    {
        self.inner
    }

    /// Writing through the wrapper writes exactly the inner value;
    /// the name and marker facts are untouched.
    pub fn set_inner(&mut self, value: T)
        ensures
            final(self).inner == value,
            final(self).attribute == old(self).attribute,
            final(self).name == old(self).name,
    {
        self.inner = value;
    }
}

impl<T, A, N> Named<N> for SimpleNamedAttributed<T, A, N> {
    open spec fn spec_name(&self) -> N {
        self.name
    }

    fn name(&self) -> (r: &N) {
        &self.name
    }
}

impl<T, A, N> Attributed<A> for SimpleNamedAttributed<T, A, N> {
    open spec fn spec_attribute(&self) -> A {
        self.attribute
    }

    fn attribute(&self) -> (r: &A) {
        &self.attribute
    }
}

impl<T, A, N> From<SimpleNamed<SimpleAttributed<T, A>, N>> for SimpleNamedAttributed<T, A, N> {
    fn from(value: SimpleNamed<SimpleAttributed<T, A>, N>) -> (r: Self)
        ensures
            r == (SimpleNamedAttributed {
                inner: value.inner.inner,
                attribute: value.inner.attribute,
                name: value.name,
            }),
    {
        let SimpleNamed { inner: attributed, name } = value;
        let SimpleAttributed { inner, attribute } = attributed;
        Self::create(inner, attribute, name)
    }
}

impl<T, A, N> FromSpecImpl<SimpleNamed<SimpleAttributed<T, A>, N>> for SimpleNamedAttributed<T, A, N> {
    open spec fn obeys_from_spec() -> bool {
        true
    }

    open spec fn from_spec(value: SimpleNamed<SimpleAttributed<T, A>, N>) -> Self {
        SimpleNamedAttributed {
            inner: value.inner.inner,
            attribute: value.inner.attribute,
            name: value.name,
        }
    }
}

impl<T, A, N> From<SimpleAttributed<SimpleNamed<T, N>, A>> for SimpleNamedAttributed<T, A, N> {
    fn from(value: SimpleAttributed<SimpleNamed<T, N>, A>) -> (r: Self)
        ensures
            r == (SimpleNamedAttributed {
                inner: value.inner.inner,
                attribute: value.attribute,
                name: value.inner.name,
            }),
    {
        let SimpleAttributed { inner: named, attribute } = value;
        let SimpleNamed { inner, name } = named;
        Self::create(inner, attribute, name)
    }
}

impl<T, A, N> FromSpecImpl<SimpleAttributed<SimpleNamed<T, N>, A>> for SimpleNamedAttributed<T, A, N> {
    open spec fn obeys_from_spec() -> bool {
        true
    }

    open spec fn from_spec(value: SimpleAttributed<SimpleNamed<T, N>, A>) -> Self {
        SimpleNamedAttributed {
            inner: value.inner.inner,
            attribute: value.attribute,
            name: value.inner.name,
        }
    }
}

/// Law: combining a name fact and a marker fact around one inner value
/// yields the same named-and-marked wrapper whichever fact is attached
/// first — decorating then marking equals marking then decorating.
pub proof fn lemma_combine_order_irrelevant<T, A, N>(inner: T, attribute: A, name: N)
    ensures
        <SimpleNamedAttributed<T, A, N> as vstd::std_specs::convert::FromSpec<
            SimpleNamed<SimpleAttributed<T, A>, N>,
        >>::from_spec(
            (SimpleNamed { inner: (SimpleAttributed { inner, attribute }), name }),
        ) == <SimpleNamedAttributed<T, A, N> as vstd::std_specs::convert::FromSpec<
            SimpleAttributed<SimpleNamed<T, N>, A>,
        >>::from_spec(
            (SimpleAttributed { inner: (SimpleNamed { inner, name }), attribute }),
        ),
{
}

} // verus!
