//! Cursor-handle methods: copying, destroying and installing a cursor.
//!
//! The platform calls themselves are issued by the embedding program; their
//! raw outcomes enter here as plain values. The checked part is the
//! translation into typed results and the invalidation rule: a destroyed
//! cursor handle is replaced with the invalid sentinel whatever the platform
//! answered, so later use fails fast instead of touching a recycled handle
//! value.

#![allow(non_snake_case)]
#![allow(non_camel_case_types)]

use vstd::prelude::*;
use crate::handles::{HCURSOR, Handle, INVALID_HANDLE_VALUE};
use crate::kernel::{ERROR, SysResult, bool_to_sysresult};

verus! {

/// Identifier of a system cursor slot.
#[derive(Clone, Copy, Debug, PartialEq, Eq, Structural, Hash)]
pub struct OCR(pub u32);

/// Methods of a cursor handle.
pub trait user_Hcursor: Handle {
    /// Decision half of copying the cursor: `os_ptr` is the pointer the
    /// platform's copy call returned, `last_error` the queried cause of a
    /// failure. Null yields that cause; otherwise the copy's handle. The
    /// copy must in turn be destroyed.
    fn CopyCursor(&self, os_ptr: usize, last_error: ERROR) -> (r: SysResult<HCURSOR>)
        ensures
            os_ptr == 0 ==> (r matches Err(e) && e == last_error),
            os_ptr != 0 ==> (r matches Ok(h) && h.ptr_spec() == os_ptr),
    {
        match crate::kernel::ptr_to_sysresult(os_ptr, last_error) {
            Ok(p) => Ok(HCURSOR::from_ptr(p)),
            Err(e) => Err(e),
        }
    }

    /// Decision half of destroying the cursor: `os_ok` is the boolean return
    /// of the platform's destroy call, `last_error` the queried cause of a
    /// failure. Whatever the platform answered, the handle is replaced with
    /// the invalid sentinel, so further operations on it fail with a
    /// distinguishable error instead of acting on a recycled value.
    fn DestroyCursor(&mut self, os_ok: i32, last_error: ERROR) -> (r: SysResult<()>)
        ensures
            final(self).ptr_spec() == INVALID_HANDLE_VALUE,
            os_ok == 0 ==> (r matches Err(e) && e == last_error),
            os_ok != 0 ==> r matches Ok(_),
    {
        let ret = bool_to_sysresult(os_ok, last_error);
        *self = Self::invalid();
        ret
    }

    /// Decision half of installing this cursor in a system cursor slot:
    /// plain translation of the boolean return.
    #[allow(unused_variables)]
    fn SetSystemCursor(&self, id: OCR, os_ok: i32, last_error: ERROR) -> (r: SysResult<()>)
        ensures
            os_ok == 0 ==> (r matches Err(e) && e == last_error),
            os_ok != 0 ==> r matches Ok(_),
    {
        bool_to_sysresult(os_ok, last_error)
    }
}

impl user_Hcursor for HCURSOR {

}

} // verus!
