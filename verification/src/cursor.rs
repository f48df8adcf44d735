//! A value paired with a position: the common shape of every navigation
//! cursor in the crate (cell cursor of a frame, frame cursor of a sprite,
//! sprite cursor of the registry).

use vstd::prelude::*;

verus! {

/// A wrapper that couples an inner value with a `usize` position.
///
/// The cursor itself places no bound on the position; each owner
/// states its own bound as part of its well-formedness.
#[derive(Clone, Copy, Debug)]
pub struct Cursor<T> {
    pub pos: usize,
    pub inner: T,
}

impl<T> Cursor<T> {
    /// Create a new cursor wrapping the provided value, at position `0`.
    pub fn new(inner: T) -> (r: Cursor<T>)
        ensures
            r.pos == 0,
            r.inner == inner,
    {
        Cursor { pos: 0, inner }
    }

    /// Consume this cursor, returning the underlying value.
    pub fn into_inner(self) -> (r: T)
        ensures
            r == self.inner,
    {
        self.inner
    }

    /// Get a reference to the underlying value in this cursor.
    pub fn get_ref(&self) -> (r: &T)
        ensures
            r == &self.inner,
    {
        &self.inner
    }

    /// Get a mutable reference to the underlying value in this cursor.
    pub fn get_mut(&mut self) -> (r: &mut T)
        ensures
            *r == old(self).inner,
            final(self).pos == old(self).pos,
            final(self).inner == *final(r),
    {
        &mut self.inner
    }

    /// Returns the current position of this cursor.
    pub fn position(&self) -> (r: usize)
        ensures
            r == self.pos,
    {
        self.pos
    }

    /// Sets the position of this cursor.
    pub fn set_position(&mut self, pos: usize)
        ensures
            final(self).pos == pos,
            final(self).inner == old(self).inner,
    {
        self.pos = pos;
    }
}

} // verus!
