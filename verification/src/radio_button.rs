//! A native radio button control.

use vstd::prelude::*;
use crate::base_ctrl::{BaseNativeControl, OptsId};
use crate::co;
use crate::events::{ButtonEvents, NotifyCode, lookup};
use crate::gui::{
    Horz, POINT, Parent, SIZE, SystemEnv, Vert, calc_text_bound_box_check, coord_ok, measured_len,
    multiply_dpi, scale_coord,
};
use crate::handles::{HWND, Handle};
use crate::kernel::{ERROR, SysResult};

verus! {

/// Options a radio button is created with.
pub struct RadioButtonOpts {
    /// Text of the control.
    pub text: String,
    /// Position within the parent's client area, in design pixels; brought
    /// to the screen's scale at creation.
    pub position: (i32, i32),
    /// Extent in design pixels; the all-ones sentinel asks for the control
    /// to be sized to fit its text.
    pub size: (u32, u32),
    /// Button styles the resource is created with.
    pub button_style: u32,
    /// Window styles the resource is created with.
    pub window_style: u32,
    /// Extended window styles the resource is created with.
    pub window_ex_style: u32,
    /// The control identifier; zero asks for an auto-generated one.
    pub ctrl_id: u16,
    /// Behavior when the parent is resized.
    pub resize_behavior: (Horz, Vert),
    /// Whether the button starts selected.
    pub selected: bool,
}

impl RadioButtonOpts {
    /// Whether the extent is the sentinel asking for a fit to the text.
    pub open spec fn size_to_text(&self) -> bool {
        self.size.0 == u32::MAX && self.size.1 == u32::MAX
    }

    /// Coordinates and text small enough that scaling and measuring cannot
    /// overflow.
    pub open spec fn coords_ok(&self) -> bool {
        &&& coord_ok(self.position.0 as int)
        &&& coord_ok(self.position.1 as int)
        &&& (self.size_to_text() || (self.size.0 <= 0x0100_0000 && self.size.1 <= 0x0100_0000))
        &&& self.text@.len() <= 0x0010_0000
    }

    /// A field-for-field copy, kept explicit so that the options offer no
    /// public clone.
    pub fn manual_clone(&self) -> (o: RadioButtonOpts)
        ensures
            o == *self,
    {
        RadioButtonOpts {
            text: self.text.clone(),
            position: self.position,
            size: self.size,
            button_style: self.button_style,
            window_style: self.window_style,
            window_ex_style: self.window_ex_style,
            ctrl_id: self.ctrl_id,
            resize_behavior: self.resize_behavior,
            selected: self.selected,
        }
    }
}

impl Default for RadioButtonOpts {
    /// An unselected automatic radio button at the origin, sized to fit its
    /// text, with an identifier to be auto-generated.
    fn default() -> (o: Self)
        ensures
            o.text@ == Seq::<char>::empty(),
            o.position == (0i32, 0i32),
            o.size_to_text(),
            o.button_style == co::BS_AUTORADIOBUTTON,
            o.window_style == (co::WS_CHILD | co::WS_VISIBLE),
            o.window_ex_style == co::WS_EX_LEFT,
            o.ctrl_id == 0,
            o.resize_behavior == (Horz::Fixed, Vert::Fixed),
            !o.selected,
    {
        RadioButtonOpts {
            text: String::new(),
            position: (0, 0),
            size: (u32::MAX, u32::MAX),
            button_style: co::BS_AUTORADIOBUTTON,
            window_style: co::WS_CHILD | co::WS_VISIBLE,
            window_ex_style: co::WS_EX_LEFT,
            ctrl_id: 0,
            resize_behavior: (Horz::Fixed, Vert::Fixed),
            selected: false,
        }
    }
}

/// The command notification a selection trigger asks the pump to deliver to
/// the parent window, so the parent can handle the event as if the user had
/// clicked.
#[derive(Clone, Copy, Debug, PartialEq, Eq, Structural, Hash)]
pub struct CommandNotif {
    /// The notification code delivered with the command.
    pub notif_code: u16,
    /// The identifier of the control the command speaks for.
    pub ctrl_id: u16,
    /// The handle of the control the command speaks for.
    pub ctrl_hwnd: HWND,
}

/// A native radio button: a guarded handle, the options it is created with,
/// its notification table, and the text and check state the platform holds
/// for it.
pub struct RadioButton {
    base: BaseNativeControl,
    opts_id: OptsId<RadioButtonOpts>,
    resize_behavior: (Horz, Vert),
    events: ButtonEvents,
    text: String,
    selected: bool,
    dont_click: bool,
    created_pos: POINT,
    created_size: SIZE,
}

impl RadioButton {
    /// The control's window handle; null until its resource is created.
    pub closed spec fn hwnd_spec(&self) -> HWND {
        self.base.hwnd_spec()
    }

    /// The control's identifier within its parent.
    pub closed spec fn ctrl_id_spec(&self) -> u16 {
        self.base.ctrl_id_spec()
    }

    /// Whether the platform has created the control's resource.
    pub open spec fn is_created(&self) -> bool {
        self.hwnd_spec().ptr_spec() != 0
    }

    /// How the control's resource comes to exist.
    pub closed spec fn opts_id_spec(&self) -> OptsId<RadioButtonOpts> {
        self.opts_id
    }

    /// Behavior when the parent is resized.
    pub closed spec fn resize_behavior_spec(&self) -> (Horz, Vert) {
        self.resize_behavior
    }

    /// The control's notification table.
    pub closed spec fn events_spec(&self) -> ButtonEvents {
        self.events
    }

    /// The text the platform holds for the control.
    pub closed spec fn text_spec(&self) -> Seq<char> {
        self.text@
    }

    /// Whether the button is the selected one of its group.
    pub closed spec fn selected_spec(&self) -> bool {
        self.selected
    }

    /// Whether the platform was told not to select the button on mere
    /// focus, only on a real click.
    pub closed spec fn dont_click_spec(&self) -> bool {
        self.dont_click
    }

    /// The position the resource was created at, on the screen's scale.
    pub closed spec fn created_pos_spec(&self) -> POINT {
        self.created_pos
    }

    /// The extent the resource was created with, on the screen's scale.
    pub closed spec fn created_size_spec(&self) -> SIZE {
        self.created_size
    }

    /// A radio button to be created on the parent from options; a zero
    /// identifier in the options is replaced with a fresh one. Must be set
    /// up before the parent's resource exists, since its creation rides on
    /// the parent's.
    pub fn new(parent: &mut Parent, opts: RadioButtonOpts) -> (b: RadioButton)
        requires
            !old(parent).is_created(),
            old(parent).next_auto_id_spec() < u16::MAX,
        ensures
            !b.is_created(),
            b.text_spec() == Seq::<char>::empty(),
            !b.selected_spec(),
            !b.dont_click_spec(),
            opts.ctrl_id != 0 ==> b.ctrl_id_spec() == opts.ctrl_id && *final(parent) == *old(
                parent),
            opts.ctrl_id == 0 ==> b.ctrl_id_spec() == old(parent).next_auto_id_spec(),
            b.opts_id_spec() == OptsId::Wnd(RadioButtonOpts { ctrl_id: b.ctrl_id_spec(), ..opts }),
            b.resize_behavior_spec() == opts.resize_behavior,
            b.events_spec().ctrl_id_spec() == b.ctrl_id_spec(),
            b.events_spec().entries_spec() == Seq::<(NotifyCode, u64)>::empty(),
            final(parent).hwnd_spec() == old(parent).hwnd_spec(),
            final(parent).layout_spec() == old(parent).layout_spec(),
    {
        let opts = if opts.ctrl_id == 0 {
            let id = parent.auto_ctrl_id();
            RadioButtonOpts { ctrl_id: id, ..opts }
        } else {
            opts
        };
        let ctrl_id = opts.ctrl_id;
        let resize_behavior = opts.resize_behavior;
        RadioButton {
            base: BaseNativeControl::new(ctrl_id),
            opts_id: OptsId::Wnd(opts),
            resize_behavior,
            events: ButtonEvents::new(ctrl_id),
            text: String::new(),
            selected: false,
            dont_click: false,
            created_pos: POINT { x: 0, y: 0 },
            created_size: SIZE { cx: 0, cy: 0 },
        }
    }

    /// A radio button to be loaded from the parent's dialog resource under
    /// the given identifier. Must be set up before the parent's resource
    /// exists.
    pub fn new_dlg(parent: &Parent, ctrl_id: u16) -> (b: RadioButton)
        requires
            !parent.is_created(),
        ensures
            !b.is_created(),
            b.ctrl_id_spec() == ctrl_id,
            b.text_spec() == Seq::<char>::empty(),
            !b.selected_spec(),
            !b.dont_click_spec(),
            b.opts_id_spec() == OptsId::<RadioButtonOpts>::Dlg(ctrl_id),
            b.events_spec().ctrl_id_spec() == ctrl_id,
            b.events_spec().entries_spec() == Seq::<(NotifyCode, u64)>::empty(),
    {
        RadioButton {
            base: BaseNativeControl::new(ctrl_id),
            opts_id: OptsId::Dlg(ctrl_id),
            resize_behavior: (Horz::Fixed, Vert::Fixed),
            events: ButtonEvents::new(ctrl_id),
            text: String::new(),
            selected: false,
            dont_click: false,
            created_pos: POINT { x: 0, y: 0 },
            created_size: SIZE { cx: 0, cy: 0 },
        }
    }

    /// Records the outcome of creating the control's resource. On success
    /// the control owns the handle; when made from options it holds their
    /// text and check state and records the scaled geometry — the sentinel
    /// extent is replaced by the text's measured bounding box — and either
    /// way it is registered with the parent's layout arranger and told to
    /// select only on a real click.
    pub fn create(
        &mut self,
        parent: &mut Parent,
        env: &SystemEnv,
        os_hwnd: usize,
        last_error: ERROR,
    ) -> (r: SysResult<()>)
        requires
            !old(self).is_created(),
            env.valid(),
            old(self).opts_id_spec() matches OptsId::Wnd(o) ==> o.coords_ok(),
        ensures
            final(self).ctrl_id_spec() == old(self).ctrl_id_spec(),
            final(self).events_spec() == old(self).events_spec(),
            final(self).opts_id_spec() == old(self).opts_id_spec(),
            final(self).resize_behavior_spec() == old(self).resize_behavior_spec(),
            os_hwnd == 0 ==> (r matches Err(e) && e == last_error && !final(self).is_created()
                && final(self).text_spec() == old(self).text_spec() && final(self).selected_spec()
                == old(self).selected_spec() && *final(parent) == *old(parent)),
            os_hwnd != 0 ==> (r matches Ok(u) && final(self).is_created() && final(
                self).hwnd_spec().ptr_spec() == os_hwnd && final(self).dont_click_spec() && final(
                parent).layout_spec() == old(parent).layout_spec().push(
                (final(self).hwnd_spec(), old(self).resize_behavior_spec()),
            ) && final(parent).hwnd_spec() == old(parent).hwnd_spec() && final(
                parent).next_auto_id_spec() == old(parent).next_auto_id_spec()),
            os_hwnd != 0 ==> (old(self).opts_id_spec() matches OptsId::Wnd(o) ==> final(
                self).text_spec() == o.text@ && final(self).selected_spec() == o.selected && final(
                self).created_pos_spec() == (POINT {
                x: scale_coord(o.position.0 as int, env.dpi_x as int) as i32,
                y: scale_coord(o.position.1 as int, env.dpi_y as int) as i32,
            }) && (o.size_to_text() ==> final(self).created_size_spec() == (SIZE {
                cx: (measured_len(o.text@.len()) * env.char_width) as i32,
                cy: env.char_height as i32,
            })) && (!o.size_to_text() ==> final(self).created_size_spec() == (SIZE {
                cx: scale_coord(o.size.0 as int, env.dpi_x as int) as i32,
                cy: scale_coord(o.size.1 as int, env.dpi_y as int) as i32,
            }))),
            os_hwnd != 0 ==> (old(self).opts_id_spec() matches OptsId::Dlg(_) ==> final(
                self).text_spec() == old(self).text_spec() && final(self).selected_spec() == old(
                self).selected_spec()),
    {
        let mut from_opts: Option<(POINT, Option<SIZE>, String, bool)> = None;
        match &self.opts_id {
            OptsId::Wnd(o) => {
                let explicit_size: Option<SIZE> = if o.size.0 == u32::MAX && o.size.1 == u32::MAX {
                    None
                } else {
                    Some(SIZE::new(o.size.0 as i32, o.size.1 as i32))
                };
                from_opts = Some(
                    (
                        POINT::new(o.position.0, o.position.1),
                        explicit_size,
                        o.text.clone(),
                        o.selected,
                    ),
                );
            },
            OptsId::Dlg(_) => {},
        }
        match from_opts {
            Some((mut pos, explicit_size, text, selected)) => {
                let sz: SIZE = match explicit_size {
                    Some(s) => {
                        let mut pos2 = pos;
                        let mut s2 = s;
                        multiply_dpi(&mut pos2, &mut s2, env);
                        pos = pos2;
                        s2
                    },
                    None => {
                        let mut zero = SIZE::new(0, 0);
                        multiply_dpi(&mut pos, &mut zero, env);
                        calc_text_bound_box_check(text.as_str(), env)
                    },
                };
                match self.base.create_window(os_hwnd, last_error) {
                    Ok(h) => {
                        self.text = text;
                        self.selected = selected;
                        self.created_pos = pos;
                        self.created_size = sz;
                        parent.add_to_layout_arranger(h, self.resize_behavior);
                        self.dont_click = true;
                        Ok(())
                    },
                    Err(e) => Err(e),
                }
            },
            None => {
                match self.base.create_dlg(os_hwnd, last_error) {
                    Ok(h) => {
                        parent.add_to_layout_arranger(h, self.resize_behavior);
                        self.dont_click = true;
                        Ok(())
                    },
                    Err(e) => Err(e),
                }
            },
        }
    }

    /// The control's window handle.
    pub fn hwnd(&self) -> (h: HWND)
        ensures
            h == self.hwnd_spec(),
    {
        self.base.hwnd()
    }

    /// The control's identifier within its parent.
    pub fn ctrl_id(&self) -> (id: u16)
        ensures
            id == self.ctrl_id_spec(),
    {
        self.base.ctrl_id()
    }

    /// The notification table, open for registration only while the
    /// control's resource does not exist yet: later registration would race
    /// the platform's own dispatch.
    pub fn on(&mut self) -> (ev: &mut ButtonEvents)
        requires
            !old(self).is_created(),
        ensures
            *ev == old(self).events_spec(),
            final(self).events_spec() == *final(ev),
            final(self).hwnd_spec() == old(self).hwnd_spec(),
            final(self).ctrl_id_spec() == old(self).ctrl_id_spec(),
            final(self).opts_id_spec() == old(self).opts_id_spec(),
            final(self).text_spec() == old(self).text_spec(),
            final(self).selected_spec() == old(self).selected_spec(),
    {
        &mut self.events
    }

    /// Emulates a click: an automatic radio button checks itself, and the
    /// callback registered for the click, if any, is handed back for the
    /// pump to invoke. The resource must exist.
    pub fn emulate_click(&mut self) -> (handler: Option<u64>)
        requires
            old(self).is_created(),
        ensures
            final(self).selected_spec(),
            handler == lookup(old(self).events_spec().entries_spec(), NotifyCode::BnClicked),
            final(self).text_spec() == old(self).text_spec(),
            final(self).hwnd_spec() == old(self).hwnd_spec(),
            final(self).ctrl_id_spec() == old(self).ctrl_id_spec(),
            final(self).events_spec() == old(self).events_spec(),
            final(self).opts_id_spec() == old(self).opts_id_spec(),
    {
        self.selected = true;
        self.events.dispatch(NotifyCode::BnClicked)
    }

    /// Whether the button is the currently selected one of its group. The
    /// resource must exist.
    pub fn is_selected(&self) -> (r: bool)
        requires
            self.is_created(),
        ensures
            r == self.selected_spec(),
    {
        self.selected
    }

    /// Sets or clears the check state, without notifying the parent. The
    /// resource must exist.
    pub fn select(&mut self, selected: bool)
        requires
            old(self).is_created(),
        ensures
            final(self).selected_spec() == selected,
            final(self).text_spec() == old(self).text_spec(),
            final(self).hwnd_spec() == old(self).hwnd_spec(),
            final(self).ctrl_id_spec() == old(self).ctrl_id_spec(),
            final(self).events_spec() == old(self).events_spec(),
            final(self).opts_id_spec() == old(self).opts_id_spec(),
    {
        self.selected = selected;
    }

    /// Sets the check state and hands back the command notification the
    /// pump must deliver to the parent window, so the parent handles the
    /// event as if the user had clicked. The resource must exist.
    pub fn select_and_trigger(&mut self, selected: bool) -> (r: SysResult<CommandNotif>)
        requires
            old(self).is_created(),
        ensures
            final(self).selected_spec() == selected,
            r matches Ok(n) && n == (CommandNotif {
                notif_code: co::BN_CLICKED,
                ctrl_id: old(self).ctrl_id_spec(),
                ctrl_hwnd: old(self).hwnd_spec(),
            }),
            final(self).text_spec() == old(self).text_spec(),
            final(self).hwnd_spec() == old(self).hwnd_spec(),
            final(self).ctrl_id_spec() == old(self).ctrl_id_spec(),
            final(self).events_spec() == old(self).events_spec(),
            final(self).opts_id_spec() == old(self).opts_id_spec(),
    {
        self.selected = selected;
        Ok(
            CommandNotif {
                notif_code: co::BN_CLICKED,
                ctrl_id: self.base.ctrl_id(),
                ctrl_hwnd: self.base.hwnd(),
            },
        )
    }

    /// Sets the text and resizes the control to exactly fit it, by the
    /// measured bounding box; the position is kept. The resource must
    /// exist.
    pub fn set_text_and_resize(&mut self, text: &str, env: &SystemEnv)
        requires
            old(self).is_created(),
            env.valid(),
            text@.len() <= 0x0010_0000,
        ensures
            final(self).text_spec() == text@,
            final(self).created_size_spec() == (SIZE {
                cx: (measured_len(text@.len()) * env.char_width) as i32,
                cy: env.char_height as i32,
            }),
            final(self).created_pos_spec() == old(self).created_pos_spec(),
            final(self).selected_spec() == old(self).selected_spec(),
            final(self).hwnd_spec() == old(self).hwnd_spec(),
            final(self).ctrl_id_spec() == old(self).ctrl_id_spec(),
            final(self).events_spec() == old(self).events_spec(),
            final(self).opts_id_spec() == old(self).opts_id_spec(),
    {
        self.text = String::from_str(text);
        let bound_box = calc_text_bound_box_check(text, env);
        self.created_size = bound_box;
    }
}

} // verus!
