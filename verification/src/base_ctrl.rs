//! The part every native control shares: its window handle, its identifier,
//! and the two ways its resource comes to exist — created programmatically
//! from an options struct, or loaded from a dialog resource by identifier.

use vstd::prelude::*;
use crate::handles::{HWND, Handle};
use crate::kernel::{ERROR, SysResult};

verus! {

/// How a control's resource comes to exist: created from options, or loaded
/// from the parent dialog's resource under a control identifier.
pub enum OptsId<T> {
    /// Created programmatically, with these options.
    Wnd(T),
    /// Loaded from the dialog resource under this identifier.
    Dlg(u16),
}

/// The handle and identifier a native control pairs with its options and
/// its notification table.
pub struct BaseNativeControl {
    hwnd: HWND,
    ctrl_id: u16,
}

impl BaseNativeControl {
    /// The control's window handle; null until its resource is created.
    pub closed spec fn hwnd_spec(&self) -> HWND {
        self.hwnd
    }

    /// The control's identifier within its parent.
    pub closed spec fn ctrl_id_spec(&self) -> u16 {
        self.ctrl_id
    }

    /// Whether the platform has created the control's resource.
    pub open spec fn is_created(&self) -> bool {
        self.hwnd_spec().ptr_spec() != 0
    }

    /// A control whose resource does not exist yet.
    pub fn new(ctrl_id: u16) -> (b: Self)
        ensures
            !b.is_created(),
            b.ctrl_id_spec() == ctrl_id,
    {
        BaseNativeControl { hwnd: HWND::null(), ctrl_id }
    }

    /// The control's window handle.
    pub fn hwnd(&self) -> (h: HWND)
        ensures
            h == self.hwnd_spec(),
    {
        self.hwnd
    }

    /// The control's identifier within its parent.
    pub fn ctrl_id(&self) -> (id: u16)
        ensures
            id == self.ctrl_id_spec(),
    {
        self.ctrl_id
    }

    /// Records the outcome of the platform's creation call: `os_hwnd` is
    /// the handle it returned, `last_error` the queried cause of a failure.
    /// Null yields that cause and leaves the control untouched; otherwise
    /// the control now owns the handle.
    pub fn create_window(&mut self, os_hwnd: usize, last_error: ERROR) -> (r: SysResult<HWND>)
        requires
            !old(self).is_created(),
        ensures
            final(self).ctrl_id_spec() == old(self).ctrl_id_spec(),
            os_hwnd == 0 ==> (r matches Err(e) && e == last_error && *final(self) == *old(self)),
            os_hwnd != 0 ==> (r matches Ok(h) && h.ptr_spec() == os_hwnd
                && final(self).hwnd_spec().ptr_spec() == os_hwnd),
    {
        if os_hwnd == 0 {
            Err(last_error)
        } else {
            self.hwnd = HWND::from_ptr(os_hwnd);
            Ok(self.hwnd)
        }
    }

    /// Records the outcome of looking the control up in the parent's dialog
    /// resource: the same decision as for a creation call.
    pub fn create_dlg(&mut self, os_hwnd: usize, last_error: ERROR) -> (r: SysResult<HWND>)
        requires
            !old(self).is_created(),
        ensures
            final(self).ctrl_id_spec() == old(self).ctrl_id_spec(),
            os_hwnd == 0 ==> (r matches Err(e) && e == last_error && *final(self) == *old(self)),
            os_hwnd != 0 ==> (r matches Ok(h) && h.ptr_spec() == os_hwnd
                && final(self).hwnd_spec().ptr_spec() == os_hwnd),
    {
        if os_hwnd == 0 {
            Err(last_error)
        } else {
            self.hwnd = HWND::from_ptr(os_hwnd);
            Ok(self.hwnd)
        }
    }
}

} // verus!
