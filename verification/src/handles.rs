//! Guarded resource handles.
//!
//! A handle is an opaque pointer-sized identifier that the platform assigns.
//! The library never looks inside one; it only tracks which value a handle
//! holds, whether that value is the null or the invalid sentinel, and — for
//! guarded handles — that the matching close call is handed out exactly once.

use vstd::prelude::*;
use crate::kernel::{ERROR, SysResult};

verus! {

/// The value of a null handle.
pub const NULL_HANDLE: usize = 0;

/// The sentinel value of an invalidated handle: all bits set, so that reuse
/// after release fails fast instead of touching an unrelated resource.
pub const INVALID_HANDLE_VALUE: usize = usize::MAX;

/// An opaque pointer-sized resource identifier assigned by the platform.
pub trait Handle: Sized + Copy {
    /// The raw value this handle holds.
    spec fn ptr_spec(&self) -> usize;

    /// Wraps a raw value that the platform handed out.
    fn from_ptr(p: usize) -> (h: Self)
        ensures
            h.ptr_spec() == p,
    ;

    /// The raw value, for handing back to the platform.
    fn as_ptr(&self) -> (p: usize)
        ensures
            p == self.ptr_spec(),
    ;

    /// The null handle.
    fn null() -> (h: Self)
        ensures
            h.ptr_spec() == NULL_HANDLE,
    {
        Self::from_ptr(NULL_HANDLE)
    }

    /// The invalidated handle.
    fn invalid() -> (h: Self)
        ensures
            h.ptr_spec() == INVALID_HANDLE_VALUE,
    {
        Self::from_ptr(INVALID_HANDLE_VALUE)
    }
}

/// Handle to a window.
#[derive(Clone, Copy, Debug, PartialEq, Eq, Structural, Hash)]
pub struct HWND {
    pub ptr: usize,
}

impl Handle for HWND {
    open spec fn ptr_spec(&self) -> usize {
        self.ptr
    }

    fn from_ptr(p: usize) -> (h: Self) {
        HWND { ptr: p }
    }

    fn as_ptr(&self) -> (p: usize) {
        self.ptr
    }
}

/// Handle to a cursor.
#[derive(Clone, Copy, Debug, PartialEq, Eq, Structural, Hash)]
pub struct HCURSOR {
    pub ptr: usize,
}

impl Handle for HCURSOR {
    open spec fn ptr_spec(&self) -> usize {
        self.ptr
    }

    fn from_ptr(p: usize) -> (h: Self) {
        HCURSOR { ptr: p }
    }

    fn as_ptr(&self) -> (p: usize) {
        self.ptr
    }
}

/// Handle to a process.
#[derive(Clone, Copy, Debug, PartialEq, Eq, Structural, Hash)]
pub struct HPROCESS {
    pub ptr: usize,
}

impl Handle for HPROCESS {
    open spec fn ptr_spec(&self) -> usize {
        self.ptr
    }

    fn from_ptr(p: usize) -> (h: Self) {
        HPROCESS { ptr: p }
    }

    fn as_ptr(&self) -> (p: usize) {
        self.ptr
    }
}

/// Handle to an access token.
#[derive(Clone, Copy, Debug, PartialEq, Eq, Structural, Hash)]
pub struct HACCESSTOKEN {
    pub ptr: usize,
}

impl Handle for HACCESSTOKEN {
    open spec fn ptr_spec(&self) -> usize {
        self.ptr
    }

    fn from_ptr(p: usize) -> (h: Self) {
        HACCESSTOKEN { ptr: p }
    }

    fn as_ptr(&self) -> (p: usize) {
        self.ptr
    }
}

/// If the pointer-convention return is null, yields the queried last error,
/// otherwise a handle wrapping the pointer.
pub fn ptr_to_sysresult_handle<H: Handle>(ptr: usize, last_error: ERROR) -> (r: SysResult<H>)
    ensures
        ptr == 0 ==> (r matches Err(e) && e == last_error),
        ptr != 0 ==> (r matches Ok(h) && h.ptr_spec() == ptr),
{
    if ptr == 0 {
        Err(last_error)
    } else {
        Ok(H::from_ptr(ptr))
    }
}

/// If the pointer-convention return is null, yields nothing, otherwise a
/// handle wrapping the pointer.
pub fn ptr_to_option_handle<H: Handle>(ptr: usize) -> (r: Option<H>)
    ensures
        ptr == 0 ==> r is None,
        ptr != 0 ==> (r matches Some(h) && h.ptr_spec() == ptr),
{
    if ptr == 0 {
        None
    } else {
        Some(H::from_ptr(ptr))
    }
}

/// Owns a handle and hands out the matching close call exactly once.
///
/// After the close call is handed out, the stored handle is replaced with the
/// invalid sentinel, so accidental reuse is distinguishable instead of
/// touching whatever resource the platform gave the value to next.
pub struct CloseHandleGuard<H> {
    handle: H,
    released: bool,
}

impl<H: Handle> CloseHandleGuard<H> {
    /// Whether the close call has already been handed out.
    pub closed spec fn is_released(&self) -> bool {
        self.released
    }

    /// The handle currently stored.
    pub closed spec fn handle_spec(&self) -> H {
        self.handle
    }

    /// A released guard holds only the invalid sentinel.
    pub closed spec fn wf(&self) -> bool {
        self.released ==> self.handle.ptr_spec() == INVALID_HANDLE_VALUE
    }

    /// Takes ownership of a handle that the platform just assigned.
    pub fn new(handle: H) -> (g: Self)
        ensures
            g.handle_spec() == handle,
            !g.is_released(),
            g.wf(),
    {
        CloseHandleGuard { handle, released: false }
    }

    /// The guarded handle.
    pub fn handle(&self) -> (h: H)
        ensures
            h == self.handle_spec(),
    {
        self.handle
    }

    /// Hands out the handle that must now be closed, exactly once: the first
    /// call returns it and invalidates the guard, every later call is a
    /// no-op. A failure of the close call itself has no channel back at
    /// release time and is the caller's to ignore or report.
    pub fn release(&mut self) -> (to_close: Option<H>)
        requires
            old(self).wf(),
        ensures
            final(self).is_released(),
            final(self).wf(),
            final(self).handle_spec().ptr_spec() == INVALID_HANDLE_VALUE,
            !old(self).is_released() ==> (to_close matches Some(h) && h == old(self).handle_spec()),
            old(self).is_released() ==> to_close is None && *final(self) == *old(self),
    {
        if self.released {
            None
        } else {
            let h = self.handle;
            self.handle = H::invalid();
            self.released = true;
            Some(h)
        }
    }
}

} // verus!
