//! A generic owning handle: an owned value exposed as a nullable token.
//!
//! Foreign callers hold boundary resources through opaque tokens. A token is
//! either null (the distinguished absent/error state) or it owns exactly one
//! heap-allocated payload. Releasing the payload empties the token first, so a
//! payload can never be taken twice through the same token.

use vstd::prelude::*;

verus! {

/// A nullable owning handle around a heap-allocated payload.
///
/// The view of a handle is `None` when it is null and `Some(payload)` when it
/// owns a payload.
pub struct OpaqueHandle<T> {
    slot: Option<Box<T>>,
}

impl<T> OpaqueHandle<T> {
    /// The payload this handle owns, if any.
    pub closed spec fn view(self) -> Option<T> {
        match self.slot {
            Some(b) => Some(*b),
            None => None,
        }
    }

    /// Moves `value` to the heap and returns a handle owning it.
    pub fn wrap(value: T) -> (h: Self)
        ensures
            h@ == Some(value),
    {
        OpaqueHandle { slot: Some(Box::new(value)) }
    }

    /// Returns the null handle: it owns nothing.
    pub fn none() -> (h: Self)
        ensures
            h@ is None,
    {
        OpaqueHandle { slot: None }
    }

    /// True iff this handle is null.
    pub fn is_null(&self) -> (r: bool)
        ensures
            r == (self@ is None),
    {
        self.slot.is_none()
    }

    /// Borrows the payload; `None` iff the handle is null.
    pub fn deref(&self) -> (r: Option<&T>)
        ensures
            match r {
                Some(v) => self@ == Some(*v),
                None => self@ is None,
            },
    {
        match &self.slot {
            Some(b) => Some(&**b),
            None => None,
        }
    }

    /// Releases the payload, leaving the handle null.
    ///
    /// A non-null handle yields its payload exactly once: the slot is emptied
    /// before the payload is handed out, so a second `take` on the same handle
    /// finds it null and yields nothing. This is the sole release path, which
    /// makes a double release structurally impossible.
    pub fn take(&mut self) -> (r: Option<T>)
        ensures
            final(self)@ is None,
            match r {
                Some(v) => old(self)@ == Some(v),
                None => old(self)@ is None,
            },
    {
        match self.slot.take() {
            Some(b) => Some(*b),
            None => None,
        }
    }

    /// Replaces this handle's payload with `value`, returning the old payload
    /// (`None` iff the handle was null).
    pub fn put(&mut self, value: T) -> (r: Option<T>)
        ensures
            final(self)@ == Some(value),
            match r {
                Some(v) => old(self)@ == Some(v),
                None => old(self)@ is None,
            },
    {
        let prev = self.take();
        self.slot = Some(Box::new(value));
        prev
    }
}

} // verus!
