//! A native single-line text input control.

use vstd::prelude::*;
use crate::base_ctrl::{BaseNativeControl, OptsId};
use crate::co;
use crate::events::EditEvents;
use crate::gui::{POINT, Parent, SIZE, SystemEnv, coord_ok, multiply_dpi, scale_coord};
use crate::handles::{HWND, Handle};
use crate::kernel::{ERROR, SysResult};

verus! {

/// Options an edit control is created with.
pub struct EditOpts {
    /// Initial text of the control.
    pub text: String,
    /// Position within the parent's client area, in design pixels; brought
    /// to the screen's scale at creation.
    pub position: POINT,
    /// Width in design pixels; brought to the screen's scale at creation.
    pub width: u32,
    /// Height in design pixels; brought to the screen's scale at creation.
    pub height: u32,
    /// Edit styles the resource is created with.
    pub edit_style: u32,
    /// Window styles the resource is created with.
    pub window_style: u32,
    /// Extended window styles the resource is created with.
    pub ex_window_style: u32,
    /// The control identifier; zero asks for an auto-generated one.
    pub ctrl_id: u16,
}

impl EditOpts {
    /// Coordinates small enough that bringing them to the screen's scale
    /// cannot overflow.
    pub open spec fn coords_ok(&self) -> bool {
        &&& coord_ok(self.position.x as int)
        &&& coord_ok(self.position.y as int)
        &&& self.width <= 0x0100_0000
        &&& self.height <= 0x0100_0000
    }

    /// Replaces a zero control identifier with a fresh auto-generated one.
    pub fn define_ctrl_id(self, parent: &mut Parent) -> (o: Self)
        requires
            old(parent).next_auto_id_spec() < u16::MAX,
        ensures
            self.ctrl_id != 0 ==> o == self && *final(parent) == *old(parent),
            self.ctrl_id == 0 ==> o == (EditOpts {
                ctrl_id: old(parent).next_auto_id_spec(),
                ..self
            }),
            final(parent).hwnd_spec() == old(parent).hwnd_spec(),
            final(parent).layout_spec() == old(parent).layout_spec(),
            self.ctrl_id == 0 ==> final(parent).next_auto_id_spec() == old(parent).next_auto_id_spec() + 1,
            self.ctrl_id != 0 ==> final(parent).next_auto_id_spec() == old(parent).next_auto_id_spec(),
    {
        if self.ctrl_id == 0 {
            let id = parent.auto_ctrl_id();
            EditOpts { ctrl_id: id, ..self }
        } else {
            self
        }
    }
}

impl Default for EditOpts {
    /// Empty text at the origin, a plain one-line input's extent and styles,
    /// and an identifier to be auto-generated.
    fn default() -> (o: Self)
        ensures
            o.text@ == Seq::<char>::empty(),
            o.position == (POINT { x: 0, y: 0 }),
            o.width == 100,
            o.height == 21,
            o.edit_style == (co::ES_AUTOHSCROLL | co::ES_NOHIDESEL),
            o.window_style == (co::WS_CHILD | co::WS_VISIBLE | co::WS_TABSTOP | co::WS_GROUP),
            o.ex_window_style == (co::WS_EX_LEFT | co::WS_EX_CLIENTEDGE),
            o.ctrl_id == 0,
    {
        EditOpts {
            text: String::new(),
            position: POINT { x: 0, y: 0 },
            width: 100,
            height: 21,
            edit_style: co::ES_AUTOHSCROLL | co::ES_NOHIDESEL,
            window_style: co::WS_CHILD | co::WS_VISIBLE | co::WS_TABSTOP | co::WS_GROUP,
            ex_window_style: co::WS_EX_LEFT | co::WS_EX_CLIENTEDGE,
            ctrl_id: 0,
        }
    }
}

/// A native text input control: a guarded handle, the options it is created
/// with, its notification table, and the text the platform holds for it.
pub struct Edit {
    base: BaseNativeControl,
    opts_id: OptsId<EditOpts>,
    events: EditEvents,
    text: String,
    created_pos: POINT,
    created_size: SIZE,
}

impl Edit {
    /// The control's window handle; null until its resource is created.
    pub closed spec fn hwnd_spec(&self) -> HWND {
        self.base.hwnd_spec()
    }

    /// The control's identifier within its parent.
    pub closed spec fn ctrl_id_spec(&self) -> u16 {
        self.base.ctrl_id_spec()
    }

    /// Whether the platform has created the control's resource.
    pub open spec fn is_created(&self) -> bool {
        self.hwnd_spec().ptr_spec() != 0
    }

    /// How the control's resource comes to exist.
    pub closed spec fn opts_id_spec(&self) -> OptsId<EditOpts> {
        self.opts_id
    }

    /// The control's notification table.
    pub closed spec fn events_spec(&self) -> EditEvents {
        self.events
    }

    /// The text the platform holds for the control.
    pub closed spec fn text_spec(&self) -> Seq<char> {
        self.text@
    }

    /// The position the resource was created at, on the screen's scale.
    pub closed spec fn created_pos_spec(&self) -> POINT {
        self.created_pos
    }

    /// The extent the resource was created with, on the screen's scale.
    pub closed spec fn created_size_spec(&self) -> SIZE {
        self.created_size
    }

    /// An edit control to be created on the parent from options; a zero
    /// identifier in the options is replaced with a fresh one. Must be set
    /// up before the parent's resource exists, since its creation rides on
    /// the parent's.
    pub fn new(parent: &mut Parent, opts: EditOpts) -> (e: Edit)
        requires
            !old(parent).is_created(),
            old(parent).next_auto_id_spec() < u16::MAX,
        ensures
            !e.is_created(),
            e.text_spec() == Seq::<char>::empty(),
            opts.ctrl_id != 0 ==> e.ctrl_id_spec() == opts.ctrl_id && *final(parent) == *old(parent),
            opts.ctrl_id == 0 ==> e.ctrl_id_spec() == old(parent).next_auto_id_spec(),
            e.opts_id_spec() == OptsId::Wnd(EditOpts { ctrl_id: e.ctrl_id_spec(), ..opts }),
            e.events_spec().ctrl_id_spec() == e.ctrl_id_spec(),
            e.events_spec().entries_spec() == Seq::<(crate::events::NotifyCode, u64)>::empty(),
            final(parent).hwnd_spec() == old(parent).hwnd_spec(),
            final(parent).layout_spec() == old(parent).layout_spec(),
    {
        let opts = opts.define_ctrl_id(parent);
        let ctrl_id = opts.ctrl_id;
        Edit {
            base: BaseNativeControl::new(ctrl_id),
            opts_id: OptsId::Wnd(opts),
            events: EditEvents::new(ctrl_id),
            text: String::new(),
            created_pos: POINT { x: 0, y: 0 },
            created_size: SIZE { cx: 0, cy: 0 },
        }
    }

    /// An edit control to be loaded from the parent's dialog resource under
    /// the given identifier. Must be set up before the parent's resource
    /// exists.
    pub fn new_dlg(parent: &Parent, ctrl_id: u16) -> (e: Edit)
        requires
            !parent.is_created(),
        ensures
            !e.is_created(),
            e.ctrl_id_spec() == ctrl_id,
            e.text_spec() == Seq::<char>::empty(),
            e.opts_id_spec() == OptsId::<EditOpts>::Dlg(ctrl_id),
            e.events_spec().ctrl_id_spec() == ctrl_id,
            e.events_spec().entries_spec() == Seq::<(crate::events::NotifyCode, u64)>::empty(),
    {
        Edit {
            base: BaseNativeControl::new(ctrl_id),
            opts_id: OptsId::Dlg(ctrl_id),
            events: EditEvents::new(ctrl_id),
            text: String::new(),
            created_pos: POINT { x: 0, y: 0 },
            created_size: SIZE { cx: 0, cy: 0 },
        }
    }

    /// Records the outcome of creating the control's resource: `os_hwnd` is
    /// the handle the platform returned — from the creation call when the
    /// control was made from options, from the dialog-item lookup when it
    /// was declared in the dialog resource — and `last_error` the queried
    /// cause of a failure. On success the control owns the handle, holds
    /// its initial text, and records the scaled geometry it was created
    /// with.
    pub fn create(&mut self, env: &SystemEnv, os_hwnd: usize, last_error: ERROR) -> (r: SysResult<
        (),
    >)
        requires
            !old(self).is_created(),
            env.valid(),
            old(self).opts_id_spec() matches OptsId::Wnd(o) ==> o.coords_ok(),
        ensures
            final(self).ctrl_id_spec() == old(self).ctrl_id_spec(),
            final(self).events_spec() == old(self).events_spec(),
            final(self).opts_id_spec() == old(self).opts_id_spec(),
            os_hwnd == 0 ==> (r matches Err(e) && e == last_error && !final(self).is_created()
                && final(self).text_spec() == old(self).text_spec()),
            os_hwnd != 0 ==> (r matches Ok(u) && final(self).is_created() && final(self).hwnd_spec().ptr_spec() == os_hwnd),
            os_hwnd != 0 ==> (old(self).opts_id_spec() matches OptsId::Wnd(o) ==> final(self).text_spec() == o.text@ && final(self).created_pos_spec() == (POINT {
                x: scale_coord(o.position.x as int, env.dpi_x as int) as i32,
                y: scale_coord(o.position.y as int, env.dpi_y as int) as i32,
            }) && final(self).created_size_spec() == (SIZE {
                cx: scale_coord(o.width as int, env.dpi_x as int) as i32,
                cy: scale_coord(o.height as int, env.dpi_y as int) as i32,
            })),
            os_hwnd != 0 ==> (old(self).opts_id_spec() matches OptsId::Dlg(_) ==> final(self).text_spec() == old(self).text_spec()),
    {
        let mut from_opts: Option<(POINT, SIZE, String)> = None;
        match &self.opts_id {
            OptsId::Wnd(o) => {
                from_opts = Some(
                    (o.position, SIZE::new(o.width as i32, o.height as i32), o.text.clone()),
                );
            },
            OptsId::Dlg(_) => {},
        }
        match from_opts {
            Some((mut pos, mut sz, text)) => {
                multiply_dpi(&mut pos, &mut sz, env);
                match self.base.create_window(os_hwnd, last_error) {
                    Ok(_) => {
                        self.text = text;
                        self.created_pos = pos;
                        self.created_size = sz;
                        Ok(())
                    },
                    Err(e) => Err(e),
                }
            },
            None => {
                match self.base.create_dlg(os_hwnd, last_error) {
                    Ok(_) => Ok(()),
                    Err(e) => Err(e),
                }
            },
        }
    }

    /// The control's window handle.
    pub fn hwnd(&self) -> (h: HWND)
        ensures
            h == self.hwnd_spec(),
    {
        self.base.hwnd()
    }

    /// The control's identifier within its parent.
    pub fn ctrl_id(&self) -> (id: u16)
        ensures
            id == self.ctrl_id_spec(),
    {
        self.base.ctrl_id()
    }

    /// The notification table, open for registration only while the
    /// control's resource does not exist yet: later registration would race
    /// the platform's own dispatch.
    pub fn on(&mut self) -> (ev: &mut EditEvents)
        requires
            !old(self).is_created(),
        ensures
            *ev == old(self).events_spec(),
            final(self).events_spec() == *final(ev),
            final(self).hwnd_spec() == old(self).hwnd_spec(),
            final(self).ctrl_id_spec() == old(self).ctrl_id_spec(),
            final(self).opts_id_spec() == old(self).opts_id_spec(),
            final(self).text_spec() == old(self).text_spec(),
    {
        &mut self.events
    }

    /// Sets the text the platform holds for the control; fails with a
    /// distinguishable error while the control's resource does not exist.
    pub fn set_text(&mut self, text: &str) -> (r: SysResult<()>)
        ensures
            final(self).ctrl_id_spec() == old(self).ctrl_id_spec(),
            final(self).hwnd_spec() == old(self).hwnd_spec(),
            final(self).events_spec() == old(self).events_spec(),
            final(self).opts_id_spec() == old(self).opts_id_spec(),
            !old(self).is_created() ==> (r matches Err(e) && e == ERROR(
                co::INVALID_WINDOW_HANDLE,
            ) && final(self).text_spec() == old(self).text_spec()),
            old(self).is_created() ==> (r matches Ok(u) && final(self).text_spec() == text@),
    {
        if self.base.hwnd().as_ptr() == 0 {
            Err(ERROR(co::INVALID_WINDOW_HANDLE))
        } else {
            self.text = String::from_str(text);
            Ok(())
        }
    }

    /// The text the platform holds for the control; fails with a
    /// distinguishable error while the control's resource does not exist.
    pub fn text(&self) -> (r: SysResult<String>)
        ensures
            !self.is_created() ==> (r matches Err(e) && e == ERROR(co::INVALID_WINDOW_HANDLE)),
            self.is_created() ==> (r matches Ok(s) && s@ == self.text_spec()),
    {
        if self.base.hwnd().as_ptr() == 0 {
            Err(ERROR(co::INVALID_WINDOW_HANDLE))
        } else {
            Ok(self.text.clone())
        }
    }
}

} // verus!
