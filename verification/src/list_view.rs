//! A native list view control in report mode: columns, rows of sub-item
//! texts, and per-row selection and focus.

use vstd::prelude::*;
use crate::base_ctrl::{BaseNativeControl, OptsId};
use crate::co;
use crate::combo_box::clone_strings;
use crate::events::ListViewEvents;
use crate::gui::{POINT, Parent, SIZE, SystemEnv, coord_ok, multiply_dpi, scale_coord};
use crate::handles::{HWND, Handle};
use crate::kernel::{ERROR, SysResult};

verus! {

/// One column of a list view: its header text and its width on the
/// screen's scale.
pub struct LvColumn {
    /// The header text.
    pub text: String,
    /// The width, on the screen's scale.
    pub width: i32,
}

/// One row of a list view: its texts under the columns, its icon, and the
/// selection and focus marks the platform keeps per row.
pub struct LvItem {
    /// The texts under the columns; a column with no entry reads as empty.
    pub texts: Vec<String>,
    /// The index of the row's icon in the image list, or minus one.
    pub icon: i32,
    /// Whether the row is selected.
    pub selected: bool,
    /// Whether the row holds the focus mark.
    pub focused: bool,
}

/// At most one row holds the focus mark.
pub open spec fn at_most_one_focused(rows: Seq<LvItem>) -> bool {
    forall|i: int, j: int|
        0 <= i < j < rows.len() ==> !(#[trigger] rows[i].focused && #[trigger] rows[j].focused)
}

/// The text a row shows under a column: what was stored there, or empty
/// where the row or the entry does not exist.
pub open spec fn item_text_of(rows: Seq<LvItem>, item: int, col: int) -> Seq<char> {
    if 0 <= item < rows.len() && 0 <= col < rows[item].texts@.len() {
        rows[item].texts@[col]@
    } else {
        Seq::<char>::empty()
    }
}

/// The indexes of the selected rows among the first `n`, ascending.
pub open spec fn selected_prefix(rows: Seq<LvItem>, n: int) -> Seq<u32>
    decreases n,
{
    if n <= 0 {
        Seq::<u32>::empty()
    } else if rows[n - 1].selected {
        selected_prefix(rows, n - 1).push((n - 1) as u32)
    } else {
        selected_prefix(rows, n - 1)
    }
}

/// The selection report means what it says: among the first `n` rows it
/// lists only indexes of selected rows, lists every selected row's index,
/// and lists them in strictly ascending order.
pub proof fn lemma_selected_prefix_correct(rows: Seq<LvItem>, n: int)
    requires
        0 <= n <= rows.len(),
        rows.len() <= MAX_LV_ITEMS,
    ensures
        forall|t: int|
            0 <= t < selected_prefix(rows, n).len() ==> (#[trigger] selected_prefix(rows, n)[t])
                < n && rows[selected_prefix(rows, n)[t] as int].selected,
        forall|i: int|
            0 <= i < n && (#[trigger] rows[i]).selected ==> exists|t: int|
                0 <= t < selected_prefix(rows, n).len() && selected_prefix(rows, n)[t] == i as u32,
        forall|t1: int, t2: int|
            0 <= t1 < t2 < selected_prefix(rows, n).len() ==> (#[trigger] selected_prefix(
                rows,
                n,
            )[t1]) < (#[trigger] selected_prefix(rows, n)[t2]),
    decreases n,
{
    if n > 0 {
        lemma_selected_prefix_correct(rows, n - 1);
        let p = selected_prefix(rows, n - 1);
        let pn = selected_prefix(rows, n);
        if rows[n - 1].selected {
            assert(pn == p.push((n - 1) as u32));
            assert(pn[p.len() as int] == (n - 1) as u32);
            assert forall|t: int| 0 <= t < p.len() implies pn[t] == p[t] by {}
            assert forall|i: int| 0 <= i < n && (#[trigger] rows[i]).selected implies exists|
                t: int,
            | 0 <= t < pn.len() && pn[t] == i as u32 by {
                if i < n - 1 {
                    let t = choose|t: int| 0 <= t < p.len() && p[t] == i as u32;
                    assert(pn[t] == i as u32);
                } else {
                    assert(pn[p.len() as int] == i as u32);
                }
            }
        } else {
            assert(pn == p);
        }
    }
}

/// Whether deleting the rows at these indexes, one at a time in the given
/// order, stays within bounds at every step.
pub open spec fn delete_ok(rows: Seq<LvItem>, idxs: Seq<u32>) -> bool
    decreases idxs.len(),
{
    if idxs.len() == 0 {
        true
    } else if (idxs[0] as int) < rows.len() {
        delete_ok(rows.remove(idxs[0] as int), idxs.skip(1))
    } else {
        false
    }
}

/// The rows left after deleting at these indexes, one at a time in the
/// given order, stopping at the first index out of bounds.
pub open spec fn delete_result(rows: Seq<LvItem>, idxs: Seq<u32>) -> Seq<LvItem>
    decreases idxs.len(),
{
    if idxs.len() == 0 {
        rows
    } else if (idxs[0] as int) < rows.len() {
        delete_result(rows.remove(idxs[0] as int), idxs.skip(1))
    } else {
        rows
    }
}

/// A deletion that stays in bounds removes exactly one row per index.
pub proof fn lemma_delete_len(rows: Seq<LvItem>, idxs: Seq<u32>)
    requires
        delete_ok(rows, idxs),
    ensures
        delete_result(rows, idxs).len() == rows.len() - idxs.len(),
    decreases idxs.len(),
{
    if idxs.len() > 0 {
        lemma_delete_len(rows.remove(idxs[0] as int), idxs.skip(1));
    }
}

/// Appending one more index to a deletion either removes one more row from
/// the result so far, or is the first step out of bounds.
pub proof fn lemma_delete_push(rows: Seq<LvItem>, idxs: Seq<u32>, x: u32)
    ensures
        delete_ok(rows, idxs.push(x)) == (delete_ok(rows, idxs) && (x as int) < delete_result(
            rows,
            idxs,
        ).len()),
        delete_ok(rows, idxs) && (x as int) < delete_result(rows, idxs).len() ==> delete_result(
            rows,
            idxs.push(x),
        ) == delete_result(rows, idxs).remove(x as int),
        !(delete_ok(rows, idxs) && (x as int) < delete_result(rows, idxs).len()) ==> delete_result(
            rows,
            idxs.push(x),
        ) == delete_result(rows, idxs),
    decreases idxs.len(),
{
    let s1 = idxs.push(x);
    if idxs.len() == 0 {
        assert(s1.len() == 1);
        assert(s1[0] == x);
        assert(s1.skip(1) =~= Seq::<u32>::empty());
        assert(delete_ok(rows, idxs));
        assert(delete_result(rows, idxs) == rows);
        if (x as int) < rows.len() {
            assert(delete_ok(rows.remove(x as int), s1.skip(1)));
            assert(delete_ok(rows, s1));
            assert(delete_result(rows, s1) == delete_result(rows.remove(x as int), s1.skip(1)));
            assert(delete_result(rows.remove(x as int), s1.skip(1)) == rows.remove(x as int));
        } else {
            assert(!delete_ok(rows, s1));
            assert(delete_result(rows, s1) == rows);
        }
    } else {
        assert(s1.len() == idxs.len() + 1);
        assert(s1[0] == idxs[0]);
        assert(s1.skip(1) =~= idxs.skip(1).push(x));
        if (idxs[0] as int) < rows.len() {
            let rows2 = rows.remove(idxs[0] as int);
            lemma_delete_push(rows2, idxs.skip(1), x);
            assert(delete_ok(rows, s1) == delete_ok(rows2, s1.skip(1)));
            assert(delete_result(rows, s1) == delete_result(rows2, s1.skip(1)));
            assert(delete_ok(rows, idxs) == delete_ok(rows2, idxs.skip(1)));
            assert(delete_result(rows, idxs) == delete_result(rows2, idxs.skip(1)));
        } else {
            assert(!delete_ok(rows, s1));
            assert(!delete_ok(rows, idxs));
            assert(delete_result(rows, s1) == rows);
            assert(delete_result(rows, idxs) == rows);
        }
    }
}

/// A failed step leaves a sequential deletion where it stood: the first
/// index out of bounds makes the whole deletion fail, and the rows keep
/// the state they had reached.
pub proof fn lemma_delete_prefix_fail(rows: Seq<LvItem>, idxs: Seq<u32>, i: int)
    requires
        0 <= i < idxs.len(),
        delete_ok(rows, idxs.take(i)),
        (idxs[i] as int) >= delete_result(rows, idxs.take(i)).len(),
    ensures
        !delete_ok(rows, idxs),
        delete_result(rows, idxs) == delete_result(rows, idxs.take(i)),
    decreases i,
{
    if i == 0 {
        assert(idxs.take(0) =~= Seq::<u32>::empty());
        assert(delete_result(rows, idxs.take(0)) == rows);
        assert((idxs[0] as int) >= rows.len());
        assert(!delete_ok(rows, idxs));
        assert(delete_result(rows, idxs) == rows);
    } else {
        assert(idxs.take(i)[0] == idxs[0]);
        assert((idxs[0] as int) < rows.len());
        let rows2 = rows.remove(idxs[0] as int);
        assert(idxs.take(i).skip(1) =~= idxs.skip(1).take(i - 1));
        assert(idxs.skip(1)[i - 1] == idxs[i]);
        lemma_delete_prefix_fail(rows2, idxs.skip(1), i - 1);
        assert(delete_ok(rows, idxs.take(i)) == delete_ok(rows2, idxs.take(i).skip(1)));
        assert(delete_result(rows, idxs) == delete_result(rows2, idxs.skip(1)));
        assert(delete_result(rows, idxs.take(i)) == delete_result(rows2, idxs.take(i).skip(1)));
    }
}

/// Removing a row cannot give two rows the focus mark.
pub proof fn lemma_remove_keeps_focus_rule(rows: Seq<LvItem>, k: int)
    requires
        0 <= k < rows.len(),
        at_most_one_focused(rows),
    ensures
        at_most_one_focused(rows.remove(k)),
{
    let r = rows.remove(k);
    assert forall|i: int, j: int| 0 <= i < j < r.len() implies !(#[trigger] r[i].focused
        && #[trigger] r[j].focused) by {
        let i0 = if i < k {
            i
        } else {
            i + 1
        };
        let j0 = if j < k {
            j
        } else {
            j + 1
        };
        assert(r[i] == rows[i0]);
        assert(r[j] == rows[j0]);
    }
}

/// The columns that inserting these header texts and design widths
/// appends, with the widths brought to the screen's scale.
pub open spec fn scaled_columns(tw: Seq<(String, u32)>, env: SystemEnv) -> Seq<LvColumn> {
    tw.map_values(
        |p: (String, u32)|
            LvColumn { text: p.0, width: scale_coord(p.1 as int, env.dpi_x as int) as i32 },
    )
}

/// Options a list view is created with.
pub struct ListViewOpts {
    /// Position within the parent's client area, in design pixels; brought
    /// to the screen's scale at creation.
    pub position: POINT,
    /// Extent in design pixels; brought to the screen's scale at creation.
    pub size: SIZE,
    /// List view styles the resource is created with.
    pub list_view_style: u32,
    /// Extended list view styles switched on right after creation.
    pub ex_list_view_style: u32,
    /// Window styles the resource is created with.
    pub window_style: u32,
    /// Extended window styles the resource is created with.
    pub ex_window_style: u32,
    /// The control identifier; zero asks for an auto-generated one.
    pub ctrl_id: u16,
}

impl ListViewOpts {
    /// Coordinates small enough that bringing them to the screen's scale
    /// cannot overflow.
    pub open spec fn coords_ok(&self) -> bool {
        &&& coord_ok(self.position.x as int)
        &&& coord_ok(self.position.y as int)
        &&& coord_ok(self.size.cx as int)
        &&& coord_ok(self.size.cy as int)
    }

    /// Replaces a zero control identifier with a fresh auto-generated one.
    pub fn define_ctrl_id(self, parent: &mut Parent) -> (o: Self)
        requires
            old(parent).next_auto_id_spec() < u16::MAX,
        ensures
            self.ctrl_id != 0 ==> o == self && *final(parent) == *old(parent),
            self.ctrl_id == 0 ==> o == (ListViewOpts {
                ctrl_id: old(parent).next_auto_id_spec(),
                ..self
            }),
            final(parent).hwnd_spec() == old(parent).hwnd_spec(),
            final(parent).layout_spec() == old(parent).layout_spec(),
            self.ctrl_id == 0 ==> final(parent).next_auto_id_spec() == old(
                parent).next_auto_id_spec() + 1,
            self.ctrl_id != 0 ==> final(parent).next_auto_id_spec() == old(
                parent).next_auto_id_spec(),
    {
        if self.ctrl_id == 0 {
            let id = parent.auto_ctrl_id();
            ListViewOpts { ctrl_id: id, ..self }
        } else {
            self
        }
    }
}

impl Default for ListViewOpts {
    /// A small report-mode list at the origin with the usual child styles
    /// and an identifier to be auto-generated.
    fn default() -> (o: Self)
        ensures
            o.position == (POINT { x: 0, y: 0 }),
            o.size == (SIZE { cx: 50, cy: 50 }),
            o.list_view_style == (co::LVS_REPORT | co::LVS_NOSORTHEADER | co::LVS_SHOWSELALWAYS
                | co::LVS_SHAREIMAGELISTS),
            o.ex_list_view_style == co::LVS_EX_NONE,
            o.window_style == (co::WS_CHILD | co::WS_VISIBLE | co::WS_TABSTOP | co::WS_GROUP),
            o.ex_window_style == (co::WS_EX_LEFT | co::WS_EX_CLIENTEDGE),
            o.ctrl_id == 0,
    {
        ListViewOpts {
            position: POINT { x: 0, y: 0 },
            size: SIZE { cx: 50, cy: 50 },
            list_view_style: co::LVS_REPORT | co::LVS_NOSORTHEADER | co::LVS_SHOWSELALWAYS
                | co::LVS_SHAREIMAGELISTS,
            ex_list_view_style: co::LVS_EX_NONE,
            window_style: co::WS_CHILD | co::WS_VISIBLE | co::WS_TABSTOP | co::WS_GROUP,
            ex_window_style: co::WS_EX_LEFT | co::WS_EX_CLIENTEDGE,
            ctrl_id: 0,
        }
    }
}

/// The most rows a list view accepts: the platform's insert-at-end index.
pub const MAX_LV_ITEMS: u32 = 0x0FFF_FFFF;

/// The most columns a list view accepts: the platform's insert-at-end
/// column index.
pub const MAX_LV_COLUMNS: u32 = 0xFFFF;

/// A native list view in report mode: a guarded handle, the options it is
/// created with, its notification table, and the columns, rows, selection
/// and focus the platform holds for it.
pub struct ListView {
    base: BaseNativeControl,
    opts_id: OptsId<ListViewOpts>,
    events: ListViewEvents,
    columns: Vec<LvColumn>,
    items: Vec<LvItem>,
    ex_style: u32,
    created_pos: POINT,
    created_size: SIZE,
}

impl ListView {
    /// The control's window handle; null until its resource is created.
    pub closed spec fn hwnd_spec(&self) -> HWND {
        self.base.hwnd_spec()
    }

    /// The control's identifier within its parent.
    pub closed spec fn ctrl_id_spec(&self) -> u16 {
        self.base.ctrl_id_spec()
    }

    /// Whether the platform has created the control's resource.
    pub open spec fn is_created(&self) -> bool {
        self.hwnd_spec().ptr_spec() != 0
    }

    /// How the control's resource comes to exist.
    pub closed spec fn opts_id_spec(&self) -> OptsId<ListViewOpts> {
        self.opts_id
    }

    /// The control's notification table.
    pub closed spec fn events_spec(&self) -> ListViewEvents {
        self.events
    }

    /// The columns the platform holds for the control, left to right.
    pub closed spec fn columns_spec(&self) -> Seq<LvColumn> {
        self.columns@
    }

    /// The rows the platform holds for the control, top to bottom.
    pub closed spec fn items_spec(&self) -> Seq<LvItem> {
        self.items@
    }

    /// The extended list view styles currently switched on.
    pub closed spec fn ex_style_spec(&self) -> u32 {
        self.ex_style
    }

    /// The position the resource was created at, on the screen's scale.
    pub closed spec fn created_pos_spec(&self) -> POINT {
        self.created_pos
    }

    /// The extent the resource was created with, on the screen's scale.
    pub closed spec fn created_size_spec(&self) -> SIZE {
        self.created_size
    }

    /// Counts and the focus mark stay within the platform's bounds: this is
    /// what constructors establish and every method preserves.
    pub open spec fn wf(&self) -> bool {
        &&& self.items_spec().len() <= MAX_LV_ITEMS
        &&& self.columns_spec().len() <= MAX_LV_COLUMNS
        &&& at_most_one_focused(self.items_spec())
    }

    /// A list view to be created on the parent from options; a zero
    /// identifier in the options is replaced with a fresh one. Must be set
    /// up before the parent's resource exists, since its creation rides on
    /// the parent's.
    pub fn new(parent: &mut Parent, opts: ListViewOpts) -> (lv: ListView)
        requires
            !old(parent).is_created(),
            old(parent).next_auto_id_spec() < u16::MAX,
        ensures
            !lv.is_created(),
            lv.wf(),
            lv.columns_spec() == Seq::<LvColumn>::empty(),
            lv.items_spec() == Seq::<LvItem>::empty(),
            lv.ex_style_spec() == 0,
            opts.ctrl_id != 0 ==> lv.ctrl_id_spec() == opts.ctrl_id && *final(parent) == *old(
                parent),
            opts.ctrl_id == 0 ==> lv.ctrl_id_spec() == old(parent).next_auto_id_spec(),
            lv.opts_id_spec() == OptsId::Wnd(ListViewOpts { ctrl_id: lv.ctrl_id_spec(), ..opts }),
            lv.events_spec().ctrl_id_spec() == lv.ctrl_id_spec(),
            lv.events_spec().entries_spec() == Seq::<(crate::events::NotifyCode, u64)>::empty(),
            final(parent).hwnd_spec() == old(parent).hwnd_spec(),
            final(parent).layout_spec() == old(parent).layout_spec(),
    {
        let opts = opts.define_ctrl_id(parent);
        let ctrl_id = opts.ctrl_id;
        ListView {
            base: BaseNativeControl::new(ctrl_id),
            opts_id: OptsId::Wnd(opts),
            events: ListViewEvents::new(ctrl_id),
            columns: Vec::new(),
            items: Vec::new(),
            ex_style: 0,
            created_pos: POINT { x: 0, y: 0 },
            created_size: SIZE { cx: 0, cy: 0 },
        }
    }

    /// A list view to be loaded from the parent's dialog resource under the
    /// given identifier. Must be set up before the parent's resource
    /// exists.
    pub fn new_dlg(parent: &Parent, ctrl_id: u16) -> (lv: ListView)
        requires
            !parent.is_created(),
        ensures
            !lv.is_created(),
            lv.wf(),
            lv.ctrl_id_spec() == ctrl_id,
            lv.columns_spec() == Seq::<LvColumn>::empty(),
            lv.items_spec() == Seq::<LvItem>::empty(),
            lv.ex_style_spec() == 0,
            lv.opts_id_spec() == OptsId::<ListViewOpts>::Dlg(ctrl_id),
            lv.events_spec().ctrl_id_spec() == ctrl_id,
            lv.events_spec().entries_spec() == Seq::<(crate::events::NotifyCode, u64)>::empty(),
    {
        ListView {
            base: BaseNativeControl::new(ctrl_id),
            opts_id: OptsId::Dlg(ctrl_id),
            events: ListViewEvents::new(ctrl_id),
            columns: Vec::new(),
            items: Vec::new(),
            ex_style: 0,
            created_pos: POINT { x: 0, y: 0 },
            created_size: SIZE { cx: 0, cy: 0 },
        }
    }

    /// Records the outcome of creating the control's resource. On success
    /// the control owns the handle; when made from options it records the
    /// scaled geometry and switches on the extended styles the options
    /// named.
    pub fn create(&mut self, env: &SystemEnv, os_hwnd: usize, last_error: ERROR) -> (r: SysResult<
        ()>)
        requires
            !old(self).is_created(),
            old(self).wf(),
            env.valid(),
            old(self).opts_id_spec() matches OptsId::Wnd(o) ==> o.coords_ok(),
        ensures
            final(self).wf(),
            final(self).ctrl_id_spec() == old(self).ctrl_id_spec(),
            final(self).events_spec() == old(self).events_spec(),
            final(self).opts_id_spec() == old(self).opts_id_spec(),
            final(self).columns_spec() == old(self).columns_spec(),
            final(self).items_spec() == old(self).items_spec(),
            os_hwnd == 0 ==> (r matches Err(e) && e == last_error && !final(self).is_created()
                && final(self).ex_style_spec() == old(self).ex_style_spec()),
            os_hwnd != 0 ==> (r matches Ok(u) && final(self).is_created() && final(
                self).hwnd_spec().ptr_spec() == os_hwnd),
            os_hwnd != 0 ==> (old(self).opts_id_spec() matches OptsId::Wnd(o) ==> final(
                self).ex_style_spec() == o.ex_list_view_style && final(self).created_pos_spec()
                == (POINT {
                x: scale_coord(o.position.x as int, env.dpi_x as int) as i32,
                y: scale_coord(o.position.y as int, env.dpi_y as int) as i32,
            }) && final(self).created_size_spec() == (SIZE {
                cx: scale_coord(o.size.cx as int, env.dpi_x as int) as i32,
                cy: scale_coord(o.size.cy as int, env.dpi_y as int) as i32,
            })),
            os_hwnd != 0 ==> (old(self).opts_id_spec() matches OptsId::Dlg(_) ==> final(
                self).ex_style_spec() == old(self).ex_style_spec()),
    {
        let mut from_opts: Option<(POINT, SIZE, u32)> = None;
        match &self.opts_id {
            OptsId::Wnd(o) => {
                from_opts = Some((o.position, o.size, o.ex_list_view_style));
            },
            OptsId::Dlg(_) => {},
        }
        match from_opts {
            Some((mut pos, mut sz, ex_lv_style)) => {
                multiply_dpi(&mut pos, &mut sz, env);
                match self.base.create_window(os_hwnd, last_error) {
                    Ok(_) => {
                        self.created_pos = pos;
                        self.created_size = sz;
                        self.ex_style = ex_lv_style;
                        Ok(())
                    },
                    Err(e) => Err(e),
                }
            },
            None => {
                match self.base.create_dlg(os_hwnd, last_error) {
                    Ok(_) => Ok(()),
                    Err(e) => Err(e),
                }
            },
        }
    }

    /// The control's window handle.
    pub fn hwnd(&self) -> (h: HWND)
        ensures
            h == self.hwnd_spec(),
    {
        self.base.hwnd()
    }

    /// The control's identifier within its parent.
    pub fn ctrl_id(&self) -> (id: u16)
        ensures
            id == self.ctrl_id_spec(),
    {
        self.base.ctrl_id()
    }

    /// The notification table, open for registration only while the
    /// control's resource does not exist yet: later registration would race
    /// the platform's own dispatch.
    pub fn on(&mut self) -> (ev: &mut ListViewEvents)
        requires
            !old(self).is_created(),
        ensures
            *ev == old(self).events_spec(),
            final(self).events_spec() == *final(ev),
            final(self).hwnd_spec() == old(self).hwnd_spec(),
            final(self).ctrl_id_spec() == old(self).ctrl_id_spec(),
            final(self).opts_id_spec() == old(self).opts_id_spec(),
            final(self).columns_spec() == old(self).columns_spec(),
            final(self).items_spec() == old(self).items_spec(),
    {
        &mut self.events
    }

    /// The number of rows.
    pub fn item_count(&self) -> (n: u32)
        requires
            self.is_created(),
            self.wf(),
        ensures
            n == self.items_spec().len(),
    {
        self.items.len() as u32
    }

    /// The number of columns.
    pub fn column_count(&self) -> (r: SysResult<u32>)
        requires
            self.is_created(),
            self.wf(),
        ensures
            r matches Ok(n) && n == self.columns_spec().len(),
    {
        Ok(self.columns.len() as u32)
    }

    /// Removes every row.
    pub fn delete_all_items(&mut self) -> (r: SysResult<()>)
        requires
            old(self).is_created(),
            old(self).wf(),
        ensures
            r matches Ok(u),
            final(self).wf(),
            final(self).items_spec() == Seq::<LvItem>::empty(),
            final(self).columns_spec() == old(self).columns_spec(),
            final(self).hwnd_spec() == old(self).hwnd_spec(),
            final(self).ctrl_id_spec() == old(self).ctrl_id_spec(),
            final(self).events_spec() == old(self).events_spec(),
            final(self).opts_id_spec() == old(self).opts_id_spec(),
            final(self).ex_style_spec() == old(self).ex_style_spec(),
    {
        self.items = Vec::new();
        Ok(())
    }

    /// Switches the given extended list view styles on or off, leaving the
    /// other bits as they were.
    pub fn toggle_extended_style(&mut self, set: bool, ex_style: u32)
        requires
            old(self).is_created(),
            old(self).wf(),
        ensures
            final(self).wf(),
            set ==> final(self).ex_style_spec() == (old(self).ex_style_spec() | ex_style),
            !set ==> final(self).ex_style_spec() == (old(self).ex_style_spec() & !ex_style),
            final(self).items_spec() == old(self).items_spec(),
            final(self).columns_spec() == old(self).columns_spec(),
            final(self).hwnd_spec() == old(self).hwnd_spec(),
            final(self).ctrl_id_spec() == old(self).ctrl_id_spec(),
            final(self).events_spec() == old(self).events_spec(),
            final(self).opts_id_spec() == old(self).opts_id_spec(),
    {
        if set {
            self.ex_style = self.ex_style | ex_style;
        } else {
            self.ex_style = self.ex_style & !ex_style;
        }
    }

    /// The extended list view styles currently switched on.
    pub fn extended_style(&self) -> (s: u32)
        requires
            self.is_created(),
        ensures
            s == self.ex_style_spec(),
    {
        self.ex_style
    }

    /// Appends a row holding the given text under the first column and the
    /// given icon, unselected and unfocused, and yields its index.
    pub fn add_item(&mut self, text: &str, icon_index: Option<u32>) -> (r: SysResult<u32>)
        requires
            old(self).is_created(),
            old(self).wf(),
            old(self).items_spec().len() < MAX_LV_ITEMS,
        ensures
            final(self).wf(),
            r matches Ok(idx) && idx == old(self).items_spec().len(),
            final(self).items_spec().len() == old(self).items_spec().len() + 1,
            forall|j: int|
                0 <= j < old(self).items_spec().len() ==> final(self).items_spec()[j] == old(
                    self).items_spec()[j],
            final(self).items_spec().last().texts@.len() == 1,
            final(self).items_spec().last().texts@[0]@ == text@,
            final(self).items_spec().last().icon == (match icon_index {
                Some(i) => i as i32,
                None => -1i32,
            }),
            !final(self).items_spec().last().selected,
            !final(self).items_spec().last().focused,
            final(self).columns_spec() == old(self).columns_spec(),
            final(self).hwnd_spec() == old(self).hwnd_spec(),
            final(self).ctrl_id_spec() == old(self).ctrl_id_spec(),
            final(self).events_spec() == old(self).events_spec(),
            final(self).opts_id_spec() == old(self).opts_id_spec(),
            final(self).ex_style_spec() == old(self).ex_style_spec(),
    {
        let idx = self.items.len() as u32;
        let icon: i32 = match icon_index {
            Some(i) => i as i32,
            None => -1,
        };
        let mut texts: Vec<String> = Vec::new();
        texts.push(String::from_str(text));
        let row = LvItem { texts, icon, selected: false, focused: false };
        self.items.push(row);
        Ok(idx)
    }

    /// The text a row shows under a column: what was stored there, or empty
    /// where the row or the entry does not exist.
    pub fn item_text(&self, item_index: u32, column_index: u32) -> (r: String)
        requires
            self.is_created(),
            self.wf(),
        ensures
            r@ == item_text_of(self.items_spec(), item_index as int, column_index as int),
    {
        if (item_index as usize) < self.items.len() {
            let row = &self.items[item_index as usize];
            if (column_index as usize) < row.texts.len() {
                row.texts[column_index as usize].clone()
            } else {
                String::new()
            }
        } else {
            String::new()
        }
    }

    /// Appends columns, one per header text, with each design width brought
    /// to the screen's scale.
    pub fn add_columns(&mut self, texts_and_widths: &[(String, u32)], env: &SystemEnv) -> (r:
        SysResult<()>)
        requires
            old(self).is_created(),
            old(self).wf(),
            env.valid(),
            old(self).columns_spec().len() + texts_and_widths@.len() <= MAX_LV_COLUMNS,
            forall|j: int|
                0 <= j < texts_and_widths@.len() ==> (#[trigger] texts_and_widths@[j]).1
                    <= 0x0100_0000,
        ensures
            r matches Ok(u),
            final(self).wf(),
            final(self).columns_spec() == old(self).columns_spec() + scaled_columns(
                texts_and_widths@,
                *env,
            ),
            final(self).items_spec() == old(self).items_spec(),
            final(self).hwnd_spec() == old(self).hwnd_spec(),
            final(self).ctrl_id_spec() == old(self).ctrl_id_spec(),
            final(self).events_spec() == old(self).events_spec(),
            final(self).opts_id_spec() == old(self).opts_id_spec(),
            final(self).ex_style_spec() == old(self).ex_style_spec(),
    {
        let ghost cols0 = self.columns@;
        let ghost items0 = self.items@;
        let ghost base0 = self.base;
        let ghost events0 = self.events;
        let ghost opts0 = self.opts_id;
        let ghost ex0 = self.ex_style;
        let n = texts_and_widths.len();
        let mut i: usize = 0;
        proof {
            assert(scaled_columns(texts_and_widths@.take(0), *env) =~= Seq::<LvColumn>::empty());
            assert(self.columns@ =~= cols0 + scaled_columns(texts_and_widths@.take(0), *env));
        }
        while i < n
            invariant
                i <= n,
                n == texts_and_widths@.len(),
                cols0.len() + n <= MAX_LV_COLUMNS,
                forall|j: int|
                    0 <= j < texts_and_widths@.len() ==> (#[trigger] texts_and_widths@[j]).1
                        <= 0x0100_0000,
                env.valid(),
                self.columns@ == cols0 + scaled_columns(texts_and_widths@.take(i as int), *env),
                self.items@ == items0,
                self.base == base0,
                self.events == events0,
                self.opts_id == opts0,
                self.ex_style == ex0,
            decreases n - i,
        {
            let pair = &texts_and_widths[i];
            let mut pos = POINT::new(0, 0);
            let mut col_cx = SIZE::new(pair.1 as i32, 0);
            multiply_dpi(&mut pos, &mut col_cx, env);
            let col = LvColumn { text: pair.0.clone(), width: col_cx.cx };
            self.columns.push(col);
            proof {
                assert(scaled_columns(texts_and_widths@.take(i + 1), *env) =~= scaled_columns(
                    texts_and_widths@.take(i as int),
                    *env,
                ).push(
                    LvColumn {
                        text: texts_and_widths@[i as int].0,
                        width: scale_coord(
                            texts_and_widths@[i as int].1 as int,
                            env.dpi_x as int,
                        ) as i32,
                    },
                ));
            }
            i = i + 1;
        }
        proof {
            assert(texts_and_widths@.take(n as int) =~= texts_and_widths@);
        }
        Ok(())
    }

    /// Deletes the rows at the given indexes, one at a time in the given
    /// order, each index counted against the rows left by the deletions
    /// before it. The first index out of bounds fails the call and leaves
    /// the rows as the deletions so far had them.
    #[verifier::loop_isolation(false)]
    pub fn delete_items(&mut self, indexes: &[u32]) -> (r: SysResult<()>)
        requires
            old(self).is_created(),
            old(self).wf(),
        ensures
            final(self).wf(),
            delete_ok(old(self).items_spec(), indexes@) ==> r matches Ok(u),
            !delete_ok(old(self).items_spec(), indexes@) ==> (r matches Err(e) && e == ERROR(
                co::BAD_ARGUMENTS,
            )),
            final(self).items_spec() == delete_result(old(self).items_spec(), indexes@),
            final(self).columns_spec() == old(self).columns_spec(),
            final(self).hwnd_spec() == old(self).hwnd_spec(),
            final(self).ctrl_id_spec() == old(self).ctrl_id_spec(),
            final(self).events_spec() == old(self).events_spec(),
            final(self).opts_id_spec() == old(self).opts_id_spec(),
            final(self).ex_style_spec() == old(self).ex_style_spec(),
    {
        let ghost items0 = self.items@;
        let ghost cols0 = self.columns@;
        let ghost base0 = self.base;
        let ghost events0 = self.events;
        let ghost opts0 = self.opts_id;
        let ghost ex0 = self.ex_style;
        let n = indexes.len();
        let mut i: usize = 0;
        proof {
            assert(indexes@.take(0) =~= Seq::<u32>::empty());
        }
        while i < n
            invariant
                i <= n,
                n == indexes@.len(),
                delete_ok(items0, indexes@.take(i as int)),
                self.items@ == delete_result(items0, indexes@.take(i as int)),
                self.items@.len() <= items0.len(),
                items0.len() <= MAX_LV_ITEMS,
                at_most_one_focused(self.items@),
                self.columns@ == cols0,
                cols0.len() <= MAX_LV_COLUMNS,
                self.base == base0,
                self.events == events0,
                self.opts_id == opts0,
                self.ex_style == ex0,
            decreases n - i,
        {
            let idx = indexes[i];
            proof {
                lemma_delete_push(items0, indexes@.take(i as int), indexes@[i as int]);
                assert(indexes@.take(i + 1) =~= indexes@.take(i as int).push(indexes@[i as int]));
            }
            if (idx as usize) >= self.items.len() {
                proof {
                    lemma_delete_prefix_fail(items0, indexes@, i as int);
                }
                return Err(ERROR(co::BAD_ARGUMENTS));
            }
            proof {
                lemma_remove_keeps_focus_rule(self.items@, idx as int);
            }
            self.items.remove(idx as usize);
            i = i + 1;
        }
        proof {
            assert(indexes@.take(n as int) =~= indexes@);
        }
        Ok(())
    }

    /// The index of the row holding the focus mark, if any.
    pub fn focused_item(&self) -> (r: Option<u32>)
        requires
            self.is_created(),
            self.wf(),
        ensures
            r matches Some(i) ==> i < self.items_spec().len() && self.items_spec()[i as int].focused,
            r is None ==> forall|j: int|
                0 <= j < self.items_spec().len() ==> !(#[trigger] self.items_spec()[j]).focused,
    {
        let n = self.items.len();
        let mut i: usize = 0;
        while i < n
            invariant
                i <= n,
                n == self.items@.len(),
                n <= MAX_LV_ITEMS,
                forall|j: int| 0 <= j < i ==> !(#[trigger] self.items@[j]).focused,
            decreases n - i,
        {
            if self.items[i].focused {
                return Some(i as u32);
            }
            i = i + 1;
        }
        None
    }

    /// Gives the focus mark to the row at the given index, taking it from
    /// every other row.
    pub fn focus_item(&mut self, index: u32) -> (r: SysResult<()>)
        requires
            old(self).is_created(),
            old(self).wf(),
        ensures
            final(self).wf(),
            index >= old(self).items_spec().len() ==> (r matches Err(e) && e == ERROR(
                co::BAD_ARGUMENTS,
            ) && final(self).items_spec() == old(self).items_spec()),
            index < old(self).items_spec().len() ==> (r matches Ok(u) && final(
                self).items_spec().len() == old(self).items_spec().len() && forall|j: int|
                0 <= j < old(self).items_spec().len() ==> (#[trigger] final(self).items_spec()[j]).texts@
                    == old(self).items_spec()[j].texts@ && final(self).items_spec()[j].icon == old(
                    self).items_spec()[j].icon && final(self).items_spec()[j].selected == old(
                    self).items_spec()[j].selected && final(self).items_spec()[j].focused == (j
                    == index as int)),
            final(self).columns_spec() == old(self).columns_spec(),
            final(self).hwnd_spec() == old(self).hwnd_spec(),
            final(self).ctrl_id_spec() == old(self).ctrl_id_spec(),
            final(self).events_spec() == old(self).events_spec(),
            final(self).opts_id_spec() == old(self).opts_id_spec(),
            final(self).ex_style_spec() == old(self).ex_style_spec(),
    {
        let ghost items0 = self.items@;
        let ghost cols0 = self.columns@;
        let ghost base0 = self.base;
        let ghost events0 = self.events;
        let ghost opts0 = self.opts_id;
        let ghost ex0 = self.ex_style;
        let n = self.items.len();
        if (index as usize) >= n {
            return Err(ERROR(co::BAD_ARGUMENTS));
        }
        let mut i: usize = 0;
        while i < n
            invariant
                i <= n,
                n == self.items@.len(),
                n == items0.len(),
                n <= MAX_LV_ITEMS,
                (index as usize) < n,
                forall|j: int| i <= j < n ==> #[trigger] self.items@[j] == items0[j],
                forall|j: int|
                    0 <= j < i ==> (#[trigger] self.items@[j]).texts@ == items0[j].texts@
                        && self.items@[j].icon == items0[j].icon && self.items@[j].selected
                        == items0[j].selected && self.items@[j].focused == (j == index as int),
                self.columns@ == cols0,
                self.base == base0,
                self.events == events0,
                self.opts_id == opts0,
                self.ex_style == ex0,
            decreases n - i,
        {
            let row = &self.items[i];
            let new_row = LvItem {
                texts: clone_strings(&row.texts),
                icon: row.icon,
                selected: row.selected,
                focused: i == index as usize,
            };
            self.items.set(i, new_row);
            i = i + 1;
        }
        Ok(())
    }

    /// Selects or deselects the row at the given index.
    pub fn set_item_selected(&mut self, index: u32, select: bool) -> (r: SysResult<()>)
        requires
            old(self).is_created(),
            old(self).wf(),
        ensures
            final(self).wf(),
            index >= old(self).items_spec().len() ==> (r matches Err(e) && e == ERROR(
                co::BAD_ARGUMENTS,
            ) && final(self).items_spec() == old(self).items_spec()),
            index < old(self).items_spec().len() ==> (r matches Ok(u) && final(
                self).items_spec().len() == old(self).items_spec().len() && (forall|j: int|
                0 <= j < old(self).items_spec().len() && j != index as int ==> #[trigger] final(
                    self).items_spec()[j] == old(self).items_spec()[j]) && final(
                self).items_spec()[index as int].texts@ == old(
                self).items_spec()[index as int].texts@ && final(
                self).items_spec()[index as int].icon == old(
                self).items_spec()[index as int].icon && final(
                self).items_spec()[index as int].focused == old(
                self).items_spec()[index as int].focused && final(
                self).items_spec()[index as int].selected == select),
            final(self).columns_spec() == old(self).columns_spec(),
            final(self).hwnd_spec() == old(self).hwnd_spec(),
            final(self).ctrl_id_spec() == old(self).ctrl_id_spec(),
            final(self).events_spec() == old(self).events_spec(),
            final(self).opts_id_spec() == old(self).opts_id_spec(),
            final(self).ex_style_spec() == old(self).ex_style_spec(),
    {
        let i = index as usize;
        if i >= self.items.len() {
            return Err(ERROR(co::BAD_ARGUMENTS));
        }
        let row = &self.items[i];
        let new_row = LvItem {
            texts: clone_strings(&row.texts),
            icon: row.icon,
            selected: select,
            focused: row.focused,
        };
        self.items.set(i, new_row);
        Ok(())
    }

    /// The number of selected rows.
    pub fn selected_item_count(&self) -> (n: u32)
        requires
            self.is_created(),
            self.wf(),
        ensures
            n == selected_prefix(self.items_spec(), self.items_spec().len() as int).len(),
    {
        let total = self.items.len();
        let mut count: u32 = 0;
        let mut i: usize = 0;
        while i < total
            invariant
                i <= total,
                total == self.items@.len(),
                total <= MAX_LV_ITEMS,
                count == selected_prefix(self.items@, i as int).len(),
                count <= i,
            decreases total - i,
        {
            if self.items[i].selected {
                count = count + 1;
            }
            i = i + 1;
        }
        count
    }

    /// The indexes of the selected rows, ascending.
    pub fn selected_items(&self) -> (r: Vec<u32>)
        requires
            self.is_created(),
            self.wf(),
        ensures
            r@ == selected_prefix(self.items_spec(), self.items_spec().len() as int),
    {
        let total = self.items.len();
        let mut out: Vec<u32> = Vec::new();
        let mut i: usize = 0;
        proof {
            assert(out@ =~= selected_prefix(self.items@, 0));
        }
        while i < total
            invariant
                i <= total,
                total == self.items@.len(),
                total <= MAX_LV_ITEMS,
                out@ == selected_prefix(self.items@, i as int),
            decreases total - i,
        {
            if self.items[i].selected {
                out.push(i as u32);
            }
            i = i + 1;
        }
        out
    }

    /// Stores a text for a row under a column, growing the row's entries
    /// with empty texts up to that column where they do not reach it yet.
    pub fn set_item_text(&mut self, item_index: u32, column_index: u32, text: &str) -> (r:
        SysResult<()>)
        requires
            old(self).is_created(),
            old(self).wf(),
        ensures
            final(self).wf(),
            item_index >= old(self).items_spec().len() ==> (r matches Err(e) && e == ERROR(
                co::BAD_ARGUMENTS,
            ) && final(self).items_spec() == old(self).items_spec()),
            item_index < old(self).items_spec().len() ==> (r matches Ok(u) && final(
                self).items_spec().len() == old(self).items_spec().len() && (forall|j: int|
                0 <= j < old(self).items_spec().len() && j != item_index as int
                    ==> #[trigger] final(self).items_spec()[j] == old(self).items_spec()[j])
                && item_text_of(final(self).items_spec(), item_index as int, column_index as int)
                == text@ && final(self).items_spec()[item_index as int].icon == old(
                self).items_spec()[item_index as int].icon && final(
                self).items_spec()[item_index as int].selected == old(
                self).items_spec()[item_index as int].selected && final(
                self).items_spec()[item_index as int].focused == old(
                self).items_spec()[item_index as int].focused && (forall|k: int|
                0 <= k < old(self).items_spec()[item_index as int].texts@.len() && k
                    != column_index as int ==> #[trigger] final(
                    self).items_spec()[item_index as int].texts@[k] == old(
                    self).items_spec()[item_index as int].texts@[k]) && (forall|k: int|
                old(self).items_spec()[item_index as int].texts@.len() <= k < final(
                    self).items_spec()[item_index as int].texts@.len() && k != column_index as int
                    ==> (#[trigger] final(self).items_spec()[item_index as int].texts@[k])@
                    == Seq::<char>::empty())),
            final(self).columns_spec() == old(self).columns_spec(),
            final(self).hwnd_spec() == old(self).hwnd_spec(),
            final(self).ctrl_id_spec() == old(self).ctrl_id_spec(),
            final(self).events_spec() == old(self).events_spec(),
            final(self).opts_id_spec() == old(self).opts_id_spec(),
            final(self).ex_style_spec() == old(self).ex_style_spec(),
    {
        let i = item_index as usize;
        if i >= self.items.len() {
            return Err(ERROR(co::BAD_ARGUMENTS));
        }
        let col = column_index as usize;
        let row = &self.items[i];
        let ghost row_len = row.texts@.len();
        let mut texts = clone_strings(&row.texts);
        while texts.len() <= col
            invariant
                texts@.len() >= row_len,
                texts@.len() <= col + 1 || texts@.len() == row_len,
                forall|k: int| 0 <= k < row_len ==> #[trigger] texts@[k] == self.items@[
                    item_index as int].texts@[k],
                forall|k: int|
                    row_len <= k < texts@.len() ==> (#[trigger] texts@[k])@ == Seq::<char>::empty(),
                i == item_index as usize,
                i < self.items@.len(),
                col == column_index as usize,
                row_len == self.items@[item_index as int].texts@.len(),
            decreases col + 1 - texts.len(),
        {
            texts.push(String::new());
        }
        texts.set(col, String::from_str(text));
        let row = &self.items[i];
        let new_row = LvItem {
            texts,
            icon: row.icon,
            selected: row.selected,
            focused: row.focused,
        };
        self.items.set(i, new_row);
        Ok(())
    }
}

} // verus!
