//! Lists that always hold at least one value.

use vstd::prelude::*;

verus! {

/// Why a non-empty list could not be made or changed.
#[derive(Debug, PartialEq, Eq, Structural, Clone, Copy)]
pub enum NonEmptyVecErr {
    VecIsEmpty,
    CannotPopLastElement,
}

/// A non-empty list of values.
pub struct NonEmptyVec<T> {
    inner: Vec<T>,
}

impl<T> View for NonEmptyVec<T> {
    type V = Seq<T>;

    closed spec fn view(&self) -> Seq<T> {
        self.inner@
    }
}

impl<T> NonEmptyVec<T> {
    /// The list holds at least one value.
    pub open spec fn wf(&self) -> bool {
        self@.len() >= 1
    }

    /// Creates a new non-empty list.
    pub fn new(first: T) -> (r: Self)
        ensures
            r@ == seq![first],
            r.wf(),
    {
        let mut inner = Vec::new();
        inner.push(first);
        assert(inner@ =~= seq![first]);
        Self { inner }
    }

    /// Creates a new non-empty list from a vector.
    pub fn from_vec(value: Vec<T>) -> (r: Result<Self, NonEmptyVecErr>)
        ensures
            value@.len() == 0 <==> r is Err,
            r matches Err(e) ==> e == NonEmptyVecErr::VecIsEmpty,
            r matches Ok(l) ==> l@ == value@ && l.wf(),
    {
        if value.len() == 0 {
            Err(NonEmptyVecErr::VecIsEmpty)
        } else {
            Ok(Self { inner: value })
        }
    }

    /// Tries to create a non-empty list from a vector.
    pub fn try_from(value: Vec<T>) -> (r: Result<Self, NonEmptyVecErr>)
        ensures
            value@.len() == 0 <==> r is Err,
            r matches Err(e) ==> e == NonEmptyVecErr::VecIsEmpty,
            r matches Ok(l) ==> l@ == value@ && l.wf(),
    {
        Self::from_vec(value)
    }

    /// Returns the length of the list.
    pub fn len(&self) -> (r: usize)
        requires
            self.wf(),
        ensures
            r == self@.len(),
            r >= 1,
    {
        self.inner.len()
    }

    /// Returns the first value.
    pub fn first(&self) -> (r: &T)
        requires
            self.wf(),
        ensures
            *r == self@[0],
    {
        &self.inner[0]
    }

    /// Returns the last value.
    pub fn last(&self) -> (r: &T)
        requires
            self.wf(),
        ensures
            *r == self@.last(),
    {
        let n = self.inner.len();
        &self.inner[n - 1]
    }

    /// Returns a mutable reference to the first value.
    pub fn first_mut(&mut self) -> (r: &mut T)
        requires
            old(self).wf(),
        ensures
            *r == old(self)@[0],
            final(self)@ == old(self)@.update(0, *final(r)),
            final(self).wf(),
    {
        &mut self.inner[0]
    }

    /// Returns a mutable reference to the last value.
    pub fn last_mut(&mut self) -> (r: &mut T)
        requires
            old(self).wf(),
        ensures
            *r == old(self)@.last(),
            final(self)@ == old(self)@.update(old(self)@.len() - 1, *final(r)),
            final(self).wf(),
    {
        let n = self.inner.len();
        &mut self.inner[n - 1]
    }

    /// Returns the values for changing in place; their number stays.
    pub fn iter_mut(&mut self) -> (r: &mut [T])
        requires
            old(self).wf(),
        ensures
            r@ == old(self)@,
            final(self)@ == final(r)@,
    {
        self.inner.as_mut_slice()
    }

    /// Returns the values as a slice.
    pub fn as_slice(&self) -> (r: &[T])
        ensures
            r@ == self@,
    {
        self.inner.as_slice()
    }

    /// Converts the list into a vector.
    pub fn into_vec(self) -> (r: Vec<T>)
        ensures
            r@ == self@,
    {
        self.inner
    }

    /// Pushes a value to the end of the list.
    pub fn push(&mut self, value: T)
        requires
            old(self).wf(),
        ensures
            final(self)@ == old(self)@.push(value),
            final(self).wf(),
    {
        self.inner.push(value);
    }

    /// Pops the last value from the list.
    /// Returns an error if attempting to pop the last value.
    pub fn pop(&mut self) -> (r: Result<T, NonEmptyVecErr>)
        requires
            old(self).wf(),
        ensures
            old(self)@.len() == 1 ==> r == Err::<T, NonEmptyVecErr>(
                NonEmptyVecErr::CannotPopLastElement,
            ) && final(self)@ == old(self)@,
            old(self)@.len() > 1 ==> r == Ok::<T, NonEmptyVecErr>(old(self)@.last())
                && final(self)@ == old(self)@.drop_last(),
            final(self).wf(),
    {
        if self.inner.len() == 1 {
            Err(NonEmptyVecErr::CannotPopLastElement)
        } else {
            let last = self.inner.pop();
            match last {
                Some(v) => Ok(v),
                None => Err(NonEmptyVecErr::CannotPopLastElement),
            }
        }
    }

    /// Appends the values from the other list, which is left empty.
    pub fn append(&mut self, other: &mut Vec<T>)
        requires
            old(self).wf(),
        ensures
            final(self)@ == old(self)@ + old(other)@,
            final(self).wf(),
            final(other)@.len() == 0,
    {
        self.inner.append(other);
    }

    /// Extends the list with the values from the other list.
    pub fn extend(&mut self, other: Vec<T>)
        requires
            old(self).wf(),
        ensures
            final(self)@ == old(self)@ + other@,
            final(self).wf(),
    {
        let mut other = other;
        self.append(&mut other);
    }
}

/// Why a non-empty list could not be made or changed.
#[derive(Debug, PartialEq, Eq, Structural, Clone, Copy)]
pub enum Vec1Err {
    VecIsEmpty,
    CannotPopLastElement,
}

/// A non-empty list.
pub struct Vec1<T> {
    inner: Vec<T>,
}

impl<T> View for Vec1<T> {
    type V = Seq<T>;

    closed spec fn view(&self) -> Seq<T> {
        self.inner@
    }
}

impl<T> Vec1<T> {
    /// The list holds at least one value.
    pub open spec fn wf(&self) -> bool {
        self@.len() >= 1
    }

    /// Creates a new non-empty list.
    pub fn new(first: T) -> (r: Self)
        ensures
            r@ == seq![first],
            r.wf(),
    {
        let mut inner = Vec::new();
        inner.push(first);
        assert(inner@ =~= seq![first]);
        Self { inner }
    }

    /// Creates a new non-empty list from a vector.
    pub fn from_vec(value: Vec<T>) -> (r: Result<Self, Vec1Err>)
        ensures
            value@.len() == 0 <==> r is Err,
            r matches Err(e) ==> e == Vec1Err::VecIsEmpty,
            r matches Ok(l) ==> l@ == value@ && l.wf(),
    {
        if value.len() == 0 {
            Err(Vec1Err::VecIsEmpty)
        } else {
            Ok(Self { inner: value })
        }
    }

    /// Tries to create a non-empty list from a vector.
    pub fn try_from(value: Vec<T>) -> (r: Result<Self, Vec1Err>)
        ensures
            value@.len() == 0 <==> r is Err,
            r matches Err(e) ==> e == Vec1Err::VecIsEmpty,
            r matches Ok(l) ==> l@ == value@ && l.wf(),
    {
        Self::from_vec(value)
    }

    /// Returns the length of the list.
    pub fn len(&self) -> (r: usize)
        requires
            self.wf(),
        ensures
            r == self@.len(),
            r >= 1,
    {
        self.inner.len()
    }

    /// Returns the first value.
    pub fn first(&self) -> (r: &T)
        requires
            self.wf(),
        ensures
            *r == self@[0],
    {
        &self.inner[0]
    }

    /// Returns the last value.
    pub fn last(&self) -> (r: &T)
        requires
            self.wf(),
        ensures
            *r == self@.last(),
    {
        let n = self.inner.len();
        &self.inner[n - 1]
    }

    /// Returns a mutable reference to the first value.
    pub fn first_mut(&mut self) -> (r: &mut T)
        requires
            old(self).wf(),
        ensures
            *r == old(self)@[0],
            final(self)@ == old(self)@.update(0, *final(r)),
            final(self).wf(),
    {
        &mut self.inner[0]
    }

    /// Returns a mutable reference to the last value.
    pub fn last_mut(&mut self) -> (r: &mut T)
        requires
            old(self).wf(),
        ensures
            *r == old(self)@.last(),
            final(self)@ == old(self)@.update(old(self)@.len() - 1, *final(r)),
            final(self).wf(),
    {
        let n = self.inner.len();
        &mut self.inner[n - 1]
    }

    /// Returns the values for changing in place; their number stays.
    pub fn iter_mut(&mut self) -> (r: &mut [T])
        requires
            old(self).wf(),
        ensures
            r@ == old(self)@,
            final(self)@ == final(r)@,
    {
        self.inner.as_mut_slice()
    }

    /// Returns the values as a slice.
    pub fn as_slice(&self) -> (r: &[T])
        ensures
            r@ == self@,
    {
        self.inner.as_slice()
    }

    /// Converts the list into a vector.
    pub fn into_vec(self) -> (r: Vec<T>)
        ensures
            r@ == self@,
    {
        self.inner
    }

    /// Pushes a value to the end of the list.
    pub fn push(&mut self, value: T)
        requires
            old(self).wf(),
        ensures
            final(self)@ == old(self)@.push(value),
            final(self).wf(),
    {
        self.inner.push(value);
    }

    /// Pops the last value from the list.
    /// Returns an error if attempting to pop the last value.
    pub fn pop(&mut self) -> (r: Result<T, Vec1Err>)
        requires
            old(self).wf(),
        ensures
            old(self)@.len() == 1 ==> r == Err::<T, Vec1Err>(
                Vec1Err::CannotPopLastElement,
            ) && final(self)@ == old(self)@,
            old(self)@.len() > 1 ==> r == Ok::<T, Vec1Err>(old(self)@.last())
                && final(self)@ == old(self)@.drop_last(),
            final(self).wf(),
    {
        if self.inner.len() == 1 {
            Err(Vec1Err::CannotPopLastElement)
        } else {
            let last = self.inner.pop();
            match last {
                Some(v) => Ok(v),
                None => Err(Vec1Err::CannotPopLastElement),
            }
        }
    }

    /// Appends the values from the other list, which is left empty.
    pub fn append(&mut self, other: &mut Vec<T>)
        requires
            old(self).wf(),
        ensures
            final(self)@ == old(self)@ + old(other)@,
            final(self).wf(),
            final(other)@.len() == 0,
    {
        self.inner.append(other);
    }

    /// Extends the list with the values from the other list.
    pub fn extend(&mut self, other: Vec<T>)
        requires
            old(self).wf(),
        ensures
            final(self)@ == old(self)@ + other@,
            final(self).wf(),
    {
        let mut other = other;
        self.append(&mut other);
    }
}

/// A value pushed onto a non-empty list is what popping it gives back, and
/// the pop leaves the list as it was; a list of one value cannot be popped.
pub proof fn law_pop_undoes_push<T>(s: Seq<T>, v: T)
    requires
        s.len() >= 1,
    ensures
        s.push(v).len() > 1,
        s.push(v).last() == v,
        s.push(v).drop_last() == s,
        s.push(v).len() >= 1,
{
    assert(s.push(v).drop_last() =~= s);
}

/// Appending never empties a non-empty list, and the values come after the
/// list's own, in order.
pub proof fn law_append_keeps_values<T>(s: Seq<T>, other: Seq<T>)
    requires
        s.len() >= 1,
    ensures
        (s + other).len() >= 1,
        (s + other).subrange(0, s.len() as int) == s,
        (s + other).subrange(s.len() as int, (s + other).len() as int) == other,
        (s + other)[0] == s[0],
{
    assert((s + other).subrange(0, s.len() as int) =~= s);
    assert((s + other).subrange(s.len() as int, (s + other).len() as int) =~= other);
}

} // verus!
