//! Process-handle methods: opening the process's access token.
//!
//! The platform call itself is issued by the embedding program; its raw
//! outcome — the boolean return, the out-parameter handle, and the queried
//! last error — enters here as plain values, and this module makes the
//! checked decision: a typed result that on success owns the new token
//! handle in a guard.

#![allow(non_snake_case)]
#![allow(non_camel_case_types)]

use vstd::prelude::*;
use crate::handles::{CloseHandleGuard, HACCESSTOKEN, HPROCESS, Handle};
use crate::kernel::{ERROR, SysResult, bool_to_sysresult};

verus! {

/// Access rights requested of a token, as a bit mask.
#[derive(Clone, Copy, Debug, PartialEq, Eq, Structural, Hash)]
pub struct TOKEN(pub u32);

/// Methods of a process handle.
pub trait advapi_Hprocess: Handle {
    /// Decision half of opening the process's access token. The platform's
    /// raw outcome enters as values: `os_ok` is the boolean return,
    /// `os_handle` the out-parameter written by the call, `last_error` the
    /// queried cause of a failure. A zero return yields that cause; a
    /// nonzero return yields a fresh, unreleased guard owning the new
    /// handle.
    #[allow(unused_variables)]
    fn OpenProcessToken(
        &self,
        desired_access: TOKEN,
        os_ok: i32,
        os_handle: usize,
        last_error: ERROR,
    ) -> (r: SysResult<CloseHandleGuard<HACCESSTOKEN>>)
        ensures
            os_ok == 0 ==> (r matches Err(e) && e == last_error),
            os_ok != 0 ==> (r matches Ok(g) && !g.is_released() && g.wf()
                && g.handle_spec().ptr_spec() == os_handle),
    {
        match bool_to_sysresult(os_ok, last_error) {
            Ok(()) => Ok(CloseHandleGuard::new(HACCESSTOKEN::from_ptr(os_handle))),
            Err(e) => Err(e),
        }
    }
}

impl advapi_Hprocess for HPROCESS {

}

} // verus!
