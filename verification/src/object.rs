//! The per-object handle a foreign caller holds.
//!
//! A `UfoObj` is either null or refers to one object the engine allocated; it
//! carries the engine-issued identifier and the object's fixed layout, which
//! are stable for the object's lifetime. Every operation on a null handle
//! returns the operation's documented failure value and never fails in any
//! other way.

use vstd::prelude::*;
use crate::boundary::UfoCore;
use crate::handle::OpaqueHandle;
use crate::layout::ObjectInfo;

verus! {

/// What a non-null object handle refers to: the engine-issued identifier and
/// the object's fixed layout.
#[derive(Clone, Copy, PartialEq, Eq, Structural, Debug)]
pub struct ObjToken {
    pub id: u64,
    pub info: ObjectInfo,
}

/// Handle to one lazy object; null is the documented error/absent state.
pub struct UfoObj {
    inner: OpaqueHandle<ObjToken>,
}

impl View for UfoObj {
    type V = Option<ObjToken>;

    closed spec fn view(&self) -> Option<ObjToken> {
        self.inner@
    }
}

impl UfoObj {
    #[verifier::type_invariant]
    spec fn type_inv(self) -> bool {
        match self.inner@ {
            Some(tok) => tok.info.wf(),
            None => true,
        }
    }

    /// The null object handle.
    pub(crate) fn none() -> (r: Self)
        ensures
            r@ is None,
    {
        UfoObj { inner: OpaqueHandle::none() }
    }

    /// Wraps an engine-issued token in a fresh handle.
    pub(crate) fn from_token(tok: ObjToken) -> (r: Self)
        requires
            tok.info.wf(),
        ensures
            r@ == Some(tok),
    {
        UfoObj { inner: OpaqueHandle::wrap(tok) }
    }

    /// The token this handle refers to, if it is not null.
    pub(crate) fn token(&self) -> (r: Option<&ObjToken>)
        ensures
            match r {
                Some(tok) => self@ == Some(*tok),
                None => self@ is None,
            },
    {
        self.inner.deref()
    }

    /// True iff this handle is null.
    pub fn ufo_is_error(&self) -> (r: bool)
        ensures
            r == (self@ is None),
    {
        self.inner.is_null()
    }

    /// Base address of the object's header region; null (zero) on a null
    /// handle. The address is page-aligned and stable for the object's
    /// lifetime.
    pub fn ufo_header_ptr(&self) -> (r: usize)
        ensures
            match self@ {
                Some(tok) => r == tok.info.base,
                None => r == 0,
            },
    {
        match self.inner.deref() {
            Some(tok) => tok.info.base,
            None => 0,
        }
    }

    /// Base address of the element data, directly after the header; null
    /// (zero) on a null handle.
    pub fn ufo_body_ptr(&self) -> (r: usize)
        ensures
            match self@ {
                Some(tok) => r == tok.info.body_addr(),
                None => r == 0,
            },
    {
        proof {
            use_type_invariant(&*self);
        }
        match self.inner.deref() {
            Some(tok) => {
                proof {
                    assert(tok.info.element_ct * tok.info.element_size >= 0) by (nonlinear_arith);
                }
                tok.info.base + tok.info.header_size
            },
            None => 0,
        }
    }

    /// Discards the object's populated content and pending writeback state,
    /// returning it to its pristine state. The content itself lives in the
    /// engine; the boundary's part is the status: zero for an object handle,
    /// `-1` for the null handle.
    pub fn ufo_reset(&mut self) -> (r: i32)
        ensures
            final(self)@ == old(self)@,
            r == (if old(self)@ is Some {
                0i32
            } else {
                -1i32
            }),
    {
        if self.inner.is_null() {
            -1
        } else {
            0
        }
    }

    /// Releases the object: its reserved range leaves `core`'s live registry
    /// and this handle becomes null, so every later operation on it returns
    /// its documented failure value. The object's callback record is
    /// retained, so a second handle to the same object can still be queried.
    /// A null handle, or a null `core`, releases nothing.
    pub fn ufo_free(&mut self, core: &mut UfoCore)
        ensures
            final(self)@ is None,
            old(self)@ is None ==> final(core)@ == old(core)@,
            old(self)@ matches Some(tok) ==> ({
                &&& old(core)@ is None ==> final(core)@ is None
                &&& old(core)@ matches Some(v) ==> final(core)@ == Some(v.after_free(tok.id))
            }),
    {
        let mut inner = OpaqueHandle::none();
        std::mem::swap(&mut inner, &mut self.inner);
        match inner.take() {
            None => {},
            Some(tok) => {
                core.release_object(tok.id);
            },
        }
    }
}

} // verus!
