//! A native combo box control: a drop-down list of string items.

use vstd::prelude::*;
use crate::base_ctrl::{BaseNativeControl, OptsId};
use crate::co;
use crate::events::ComboBoxEvents;
use crate::gui::{Horz, POINT, Parent, SIZE, SystemEnv, Vert, coord_ok, multiply_dpi, scale_coord};
use crate::handles::{HWND, Handle};
use crate::kernel::{ERROR, SysResult};

verus! {

/// Options a combo box is created with.
pub struct ComboBoxOpts {
    /// Position within the parent's client area, in design pixels; brought
    /// to the screen's scale at creation.
    pub position: (i32, i32),
    /// Width in design pixels; the height is owned by the drop-down list.
    pub width: u32,
    /// Combo box styles the resource is created with.
    pub combo_box_style: u32,
    /// Window styles the resource is created with.
    pub window_style: u32,
    /// Extended window styles the resource is created with.
    pub window_ex_style: u32,
    /// The control identifier; zero asks for an auto-generated one.
    pub ctrl_id: u16,
    /// Behavior when the parent is resized. A combo box owns its height, so
    /// vertical stretching is refused.
    pub resize_behavior: (Horz, Vert),
    /// Items put into the list right away at creation.
    pub items: Vec<String>,
    /// Item selected at creation; an index past the items selects nothing.
    pub selected_item: Option<u32>,
}

impl ComboBoxOpts {
    /// Coordinates small enough that bringing them to the screen's scale
    /// cannot overflow.
    pub open spec fn coords_ok(&self) -> bool {
        &&& coord_ok(self.position.0 as int)
        &&& coord_ok(self.position.1 as int)
        &&& self.width <= 0x0100_0000
    }
}

impl Default for ComboBoxOpts {
    /// An empty drop-down list at the origin with the usual child styles
    /// and an identifier to be auto-generated.
    fn default() -> (o: Self)
        ensures
            o.position == (0i32, 0i32),
            o.width == 120,
            o.combo_box_style == co::CBS_DROPDOWNLIST,
            o.window_style == (co::WS_CHILD | co::WS_VISIBLE | co::WS_TABSTOP | co::WS_GROUP),
            o.window_ex_style == co::WS_EX_LEFT,
            o.ctrl_id == 0,
            o.resize_behavior == (Horz::Fixed, Vert::Fixed),
            o.items@ == Seq::<String>::empty(),
            o.selected_item is None,
    {
        ComboBoxOpts {
            position: (0, 0),
            width: 120,
            combo_box_style: co::CBS_DROPDOWNLIST,
            window_style: co::WS_CHILD | co::WS_VISIBLE | co::WS_TABSTOP | co::WS_GROUP,
            window_ex_style: co::WS_EX_LEFT,
            ctrl_id: 0,
            resize_behavior: (Horz::Fixed, Vert::Fixed),
            items: Vec::new(),
            selected_item: None,
        }
    }
}

/// What a selection request leaves selected: the requested index if an item
/// exists there, otherwise nothing.
pub open spec fn select_of(index: Option<u32>, len: nat) -> Option<u32> {
    match index {
        Some(i) => if i < len {
            Some(i)
        } else {
            None
        },
        None => None,
    }
}

/// Clones a list of strings, element for element.
pub(crate) fn clone_strings(v: &Vec<String>) -> (r: Vec<String>)
    ensures
        r@ == v@,
{
    let mut out: Vec<String> = Vec::new();
    let n = v.len();
    let mut i: usize = 0;
    while i < n
        invariant
            i <= n,
            n == v@.len(),
            out@.len() == i,
            forall|j: int| 0 <= j < i ==> out@[j] == v@[j],
        decreases n - i,
    {
        out.push(v[i].clone());
        i = i + 1;
    }
    proof {
        assert(out@ =~= v@);
    }
    out
}

/// A native combo box: a guarded handle, the options it is created with,
/// its notification table, and the item list and selection the platform
/// holds for it.
pub struct ComboBox {
    base: BaseNativeControl,
    opts_id: OptsId<ComboBoxOpts>,
    resize_behavior: (Horz, Vert),
    events: ComboBoxEvents,
    items: Vec<String>,
    selected: Option<u32>,
    created_pos: POINT,
    created_width: i32,
}

impl ComboBox {
    /// The control's window handle; null until its resource is created.
    pub closed spec fn hwnd_spec(&self) -> HWND {
        self.base.hwnd_spec()
    }

    /// The control's identifier within its parent.
    pub closed spec fn ctrl_id_spec(&self) -> u16 {
        self.base.ctrl_id_spec()
    }

    /// Whether the platform has created the control's resource.
    pub open spec fn is_created(&self) -> bool {
        self.hwnd_spec().ptr_spec() != 0
    }

    /// How the control's resource comes to exist.
    pub closed spec fn opts_id_spec(&self) -> OptsId<ComboBoxOpts> {
        self.opts_id
    }

    /// Behavior when the parent is resized.
    pub closed spec fn resize_behavior_spec(&self) -> (Horz, Vert) {
        self.resize_behavior
    }

    /// The control's notification table.
    pub closed spec fn events_spec(&self) -> ComboBoxEvents {
        self.events
    }

    /// The items the platform holds for the control, top to bottom.
    pub closed spec fn items_spec(&self) -> Seq<String> {
        self.items@
    }

    /// The index of the selected item, if any.
    pub closed spec fn selected_spec(&self) -> Option<u32> {
        self.selected
    }

    /// The position the resource was created at, on the screen's scale.
    pub closed spec fn created_pos_spec(&self) -> POINT {
        self.created_pos
    }

    /// The width the resource was created with, on the screen's scale.
    pub closed spec fn created_width_spec(&self) -> i32 {
        self.created_width
    }

    /// A combo box to be created on the parent from options; a zero
    /// identifier in the options is replaced with a fresh one. Must be set
    /// up before the parent's resource exists, since its creation rides on
    /// the parent's.
    pub fn new(parent: &mut Parent, opts: ComboBoxOpts) -> (c: ComboBox)
        requires
            !old(parent).is_created(),
            old(parent).next_auto_id_spec() < u16::MAX,
        ensures
            !c.is_created(),
            c.items_spec() == Seq::<String>::empty(),
            c.selected_spec() is None,
            opts.ctrl_id != 0 ==> c.ctrl_id_spec() == opts.ctrl_id && *final(parent) == *old(
                parent),
            opts.ctrl_id == 0 ==> c.ctrl_id_spec() == old(parent).next_auto_id_spec(),
            c.opts_id_spec() == OptsId::Wnd(ComboBoxOpts { ctrl_id: c.ctrl_id_spec(), ..opts }),
            c.resize_behavior_spec() == opts.resize_behavior,
            c.events_spec().ctrl_id_spec() == c.ctrl_id_spec(),
            c.events_spec().entries_spec() == Seq::<(crate::events::NotifyCode, u64)>::empty(),
            final(parent).hwnd_spec() == old(parent).hwnd_spec(),
            final(parent).layout_spec() == old(parent).layout_spec(),
    {
        let opts = if opts.ctrl_id == 0 {
            let id = parent.auto_ctrl_id();
            ComboBoxOpts { ctrl_id: id, ..opts }
        } else {
            opts
        };
        let ctrl_id = opts.ctrl_id;
        let resize_behavior = opts.resize_behavior;
        ComboBox {
            base: BaseNativeControl::new(ctrl_id),
            opts_id: OptsId::Wnd(opts),
            resize_behavior,
            events: ComboBoxEvents::new(ctrl_id),
            items: Vec::new(),
            selected: None,
            created_pos: POINT { x: 0, y: 0 },
            created_width: 0,
        }
    }

    /// A combo box to be loaded from the parent's dialog resource under the
    /// given identifier. Must be set up before the parent's resource
    /// exists.
    pub fn new_dlg(parent: &Parent, ctrl_id: u16, resize_behavior: (Horz, Vert)) -> (c: ComboBox)
        requires
            !parent.is_created(),
        ensures
            !c.is_created(),
            c.ctrl_id_spec() == ctrl_id,
            c.items_spec() == Seq::<String>::empty(),
            c.selected_spec() is None,
            c.opts_id_spec() == OptsId::<ComboBoxOpts>::Dlg(ctrl_id),
            c.resize_behavior_spec() == resize_behavior,
            c.events_spec().ctrl_id_spec() == ctrl_id,
            c.events_spec().entries_spec() == Seq::<(crate::events::NotifyCode, u64)>::empty(),
    {
        ComboBox {
            base: BaseNativeControl::new(ctrl_id),
            opts_id: OptsId::Dlg(ctrl_id),
            resize_behavior,
            events: ComboBoxEvents::new(ctrl_id),
            items: Vec::new(),
            selected: None,
            created_pos: POINT { x: 0, y: 0 },
            created_width: 0,
        }
    }

    /// Records the outcome of creating the control's resource: `os_hwnd` is
    /// the handle the platform returned, `last_error` the queried cause of
    /// a failure. On success the control owns the handle, the list holds
    /// the items from the options with the requested selection, and the
    /// control is registered with the parent's layout arranger.
    pub fn create(
        &mut self,
        parent: &mut Parent,
        env: &SystemEnv,
        os_hwnd: usize,
        last_error: ERROR,
    ) -> (r: SysResult<()>)
        requires
            !old(self).is_created(),
            env.valid(),
            old(self).opts_id_spec() matches OptsId::Wnd(o) ==> o.coords_ok(),
            old(self).resize_behavior_spec().1 != Vert::Resize,
        ensures
            final(self).ctrl_id_spec() == old(self).ctrl_id_spec(),
            final(self).events_spec() == old(self).events_spec(),
            final(self).opts_id_spec() == old(self).opts_id_spec(),
            final(self).resize_behavior_spec() == old(self).resize_behavior_spec(),
            os_hwnd == 0 ==> (r matches Err(e) && e == last_error && !final(self).is_created()
                && final(self).items_spec() == old(self).items_spec() && *final(parent) == *old(
                parent)),
            os_hwnd != 0 ==> (r matches Ok(u) && final(self).is_created() && final(
                self).hwnd_spec().ptr_spec() == os_hwnd && final(parent).layout_spec() == old(
                parent).layout_spec().push(
                (final(self).hwnd_spec(), old(self).resize_behavior_spec()),
            ) && final(parent).hwnd_spec() == old(parent).hwnd_spec() && final(
                parent).next_auto_id_spec() == old(parent).next_auto_id_spec()),
            os_hwnd != 0 ==> (old(self).opts_id_spec() matches OptsId::Wnd(o) ==> final(
                self).items_spec() == o.items@ && final(self).selected_spec() == select_of(
                o.selected_item,
                o.items@.len(),
            ) && final(self).created_pos_spec() == (POINT {
                x: scale_coord(o.position.0 as int, env.dpi_x as int) as i32,
                y: scale_coord(o.position.1 as int, env.dpi_y as int) as i32,
            }) && final(self).created_width_spec() == scale_coord(
                o.width as int,
                env.dpi_x as int,
            ) as i32),
            os_hwnd != 0 ==> (old(self).opts_id_spec() matches OptsId::Dlg(_) ==> final(
                self).items_spec() == old(self).items_spec() && final(self).selected_spec() == old(
                self).selected_spec()),
    {
        let mut from_opts: Option<(POINT, SIZE, Vec<String>, Option<u32>)> = None;
        match &self.opts_id {
            OptsId::Wnd(o) => {
                from_opts = Some(
                    (
                        POINT::new(o.position.0, o.position.1),
                        SIZE::new(o.width as i32, 0),
                        clone_strings(&o.items),
                        o.selected_item,
                    ),
                );
            },
            OptsId::Dlg(_) => {},
        }
        match from_opts {
            Some((mut pos, mut sz, items, selected_item)) => {
                multiply_dpi(&mut pos, &mut sz, env);
                match self.base.create_window(os_hwnd, last_error) {
                    Ok(h) => {
                        let n = items.len();
                        self.items = items;
                        self.selected = match selected_item {
                            Some(i) => if (i as usize) < n {
                                Some(i)
                            } else {
                                None
                            },
                            None => None,
                        };
                        self.created_pos = pos;
                        self.created_width = sz.cx;
                        parent.add_to_layout_arranger(h, self.resize_behavior);
                        Ok(())
                    },
                    Err(e) => Err(e),
                }
            },
            None => {
                match self.base.create_dlg(os_hwnd, last_error) {
                    Ok(h) => {
                        parent.add_to_layout_arranger(h, self.resize_behavior);
                        Ok(())
                    },
                    Err(e) => Err(e),
                }
            },
        }
    }

    /// The control's window handle.
    pub fn hwnd(&self) -> (h: HWND)
        ensures
            h == self.hwnd_spec(),
    {
        self.base.hwnd()
    }

    /// The control's identifier within its parent.
    pub fn ctrl_id(&self) -> (id: u16)
        ensures
            id == self.ctrl_id_spec(),
    {
        self.base.ctrl_id()
    }

    /// The notification table, open for registration only while the
    /// control's resource does not exist yet: later registration would race
    /// the platform's own dispatch.
    pub fn on(&mut self) -> (ev: &mut ComboBoxEvents)
        requires
            !old(self).is_created(),
        ensures
            *ev == old(self).events_spec(),
            final(self).events_spec() == *final(ev),
            final(self).hwnd_spec() == old(self).hwnd_spec(),
            final(self).ctrl_id_spec() == old(self).ctrl_id_spec(),
            final(self).opts_id_spec() == old(self).opts_id_spec(),
            final(self).items_spec() == old(self).items_spec(),
            final(self).selected_spec() == old(self).selected_spec(),
    {
        &mut self.events
    }

    /// The items the platform holds for the control, top to bottom.
    pub fn items(&self) -> (v: &Vec<String>)
        ensures
            v@ == self.items_spec(),
    {
        &self.items
    }

    /// The index of the selected item, if any.
    pub fn selected_item(&self) -> (r: Option<u32>)
        ensures
            r == self.selected_spec(),
    {
        self.selected
    }

    /// Requests a selection: the index if an item exists there, otherwise
    /// the selection is cleared. The resource must exist.
    pub fn select_item(&mut self, index: Option<u32>)
        requires
            old(self).is_created(),
        ensures
            final(self).selected_spec() == select_of(index, old(self).items_spec().len()),
            final(self).items_spec() == old(self).items_spec(),
            final(self).hwnd_spec() == old(self).hwnd_spec(),
            final(self).ctrl_id_spec() == old(self).ctrl_id_spec(),
            final(self).events_spec() == old(self).events_spec(),
            final(self).opts_id_spec() == old(self).opts_id_spec(),
    {
        let n = self.items.len();
        self.selected = match index {
            Some(i) => if (i as usize) < n {
                Some(i)
            } else {
                None
            },
            None => None,
        };
    }
}

} // verus!
