//! The windowing substrate the controls stand on: screen geometry, the
//! system facts that scale it, and the parent window.
//!
//! The platform owns the screen's scaling factor and the metrics of the
//! user-interface font; the embedding program samples them once and hands
//! them in as a [`SystemEnv`]. The parent window is modelled by what this
//! layer reads of it: whether its resource exists yet, the counter behind
//! auto-generated control identifiers, and the layout arranger's list of
//! children to reposition on resize.

use vstd::prelude::*;
use crate::handles::{HWND, Handle};

verus! {

/// A position in the parent's client area, in pixels.
#[derive(Clone, Copy, Debug, PartialEq, Eq, Structural, Hash)]
pub struct POINT {
    pub x: i32,
    pub y: i32,
}

impl POINT {
    /// A point with the given coordinates.
    pub fn new(x: i32, y: i32) -> (p: POINT)
        ensures
            p.x == x,
            p.y == y,
    {
        POINT { x, y }
    }
}

/// An extent in pixels.
#[derive(Clone, Copy, Debug, PartialEq, Eq, Structural, Hash)]
pub struct SIZE {
    pub cx: i32,
    pub cy: i32,
}

impl SIZE {
    /// A size with the given extents.
    pub fn new(cx: i32, cy: i32) -> (s: SIZE)
        ensures
            s.cx == cx,
            s.cy == cy,
    {
        SIZE { cx, cy }
    }
}

/// Horizontal behavior of a control when its parent is resized.
#[derive(Clone, Copy, Debug, PartialEq, Eq, Structural, Hash)]
pub enum Horz {
    /// Keep position and width.
    Fixed,
    /// Move with the parent's edge, keeping the width.
    Repos,
    /// Stretch with the parent.
    Resize,
}

/// Vertical behavior of a control when its parent is resized.
#[derive(Clone, Copy, Debug, PartialEq, Eq, Structural, Hash)]
pub enum Vert {
    /// Keep position and height.
    Fixed,
    /// Move with the parent's edge, keeping the height.
    Repos,
    /// Stretch with the parent.
    Resize,
}

/// The scale a design coordinate is laid out for.
pub const BASE_DPI: u32 = 96;

/// Facts only the platform knows, sampled once by the embedding program:
/// the screen's scaling factors and the cell of the user-interface font.
#[derive(Clone, Copy, Debug, PartialEq, Eq, Structural, Hash)]
pub struct SystemEnv {
    /// Horizontal dots per inch.
    pub dpi_x: u32,
    /// Vertical dots per inch.
    pub dpi_y: u32,
    /// Average character width of the user-interface font, in pixels.
    pub char_width: u32,
    /// Character height of the user-interface font, in pixels.
    pub char_height: u32,
}

impl SystemEnv {
    /// The ranges the platform stays within: scaling between one and ten
    /// times the base, font cells of a sane size.
    pub open spec fn valid(&self) -> bool {
        &&& BASE_DPI <= self.dpi_x <= 960
        &&& BASE_DPI <= self.dpi_y <= 960
        &&& 1 <= self.char_width <= 256
        &&& 1 <= self.char_height <= 256
    }

    /// An unscaled environment with a plain font cell.
    pub fn base() -> (env: SystemEnv)
        ensures
            env.valid(),
            env.dpi_x == BASE_DPI,
            env.dpi_y == BASE_DPI,
    {
        SystemEnv { dpi_x: BASE_DPI, dpi_y: BASE_DPI, char_width: 8, char_height: 16 }
    }
}

/// A coordinate large enough to address any screen yet small enough that
/// scaling it cannot overflow.
pub open spec fn coord_ok(v: int) -> bool {
    -0x0100_0000 <= v <= 0x0100_0000
}

/// A design coordinate brought to the screen's scale: magnitudes grow by
/// the ratio of the actual to the base scale, rounding towards zero.
pub open spec fn scale_coord(v: int, dpi: int) -> int {
    if v >= 0 {
        v * dpi / (BASE_DPI as int)
    } else {
        -((-v) * dpi / (BASE_DPI as int))
    }
}

/// At the base scale a coordinate is unchanged.
pub proof fn lemma_scale_identity(v: int)
    ensures
        scale_coord(v, BASE_DPI as int) == v,
{
    if v >= 0 {
        vstd::arithmetic::div_mod::lemma_div_multiples_vanish(v, BASE_DPI as int);
    } else {
        vstd::arithmetic::div_mod::lemma_div_multiples_vanish(-v, BASE_DPI as int);
    }
}

/// One coordinate brought to the screen's scale.
fn scale_i32(v: i32, dpi: u32) -> (r: i32)
    requires
        BASE_DPI <= dpi <= 960,
        coord_ok(v as int),
    ensures
        r == scale_coord(v as int, dpi as int),
{
    if v >= 0 {
        proof {
            assert(0 <= v as i64 * dpi as i64 <= 0x0100_0000i64 * 960) by (nonlinear_arith)
                requires
                    0 <= v as i64 <= 0x0100_0000,
                    0 <= dpi as i64 <= 960,
            ;
        }
        let prod: i64 = v as i64 * dpi as i64;
        proof {
            assert(0 <= prod / 96 < 0x8000_0000) by (nonlinear_arith)
                requires
                    0 <= prod <= 0x0100_0000i64 * 960,
            ;
        }
        (prod / 96) as i32
    } else {
        let m = -v;
        proof {
            assert(0 <= m as i64 * dpi as i64 <= 0x0100_0000i64 * 960) by (nonlinear_arith)
                requires
                    0 <= m as i64 <= 0x0100_0000,
                    0 <= dpi as i64 <= 960,
            ;
        }
        let prod: i64 = m as i64 * dpi as i64;
        proof {
            assert(0 <= prod / 96 < 0x8000_0000) by (nonlinear_arith)
                requires
                    0 <= prod <= 0x0100_0000i64 * 960,
            ;
        }
        -((prod / 96) as i32)
    }
}

/// Brings a design position and extent to the screen's scale.
pub fn multiply_dpi(pos: &mut POINT, sz: &mut SIZE, env: &SystemEnv)
    requires
        env.valid(),
        coord_ok(old(pos).x as int),
        coord_ok(old(pos).y as int),
        coord_ok(old(sz).cx as int),
        coord_ok(old(sz).cy as int),
    ensures
        final(pos).x == scale_coord(old(pos).x as int, env.dpi_x as int),
        final(pos).y == scale_coord(old(pos).y as int, env.dpi_y as int),
        final(sz).cx == scale_coord(old(sz).cx as int, env.dpi_x as int),
        final(sz).cy == scale_coord(old(sz).cy as int, env.dpi_y as int),
{
    pos.x = scale_i32(pos.x, env.dpi_x);
    pos.y = scale_i32(pos.y, env.dpi_y);
    sz.cx = scale_i32(sz.cx, env.dpi_x);
    sz.cy = scale_i32(sz.cy, env.dpi_y);
}

/// The character count a text is measured as: empty text measures as a
/// short placeholder word, so a control sized to its text never collapses
/// to nothing.
pub open spec fn measured_len(len: nat) -> nat {
    if len == 0 {
        3
    } else {
        len
    }
}

/// The bounding box of a text under the user-interface font, by the
/// sampled font cell; empty text is measured as a short placeholder word.
pub fn calc_text_bound_box_check(text: &str, env: &SystemEnv) -> (sz: SIZE)
    requires
        env.valid(),
        text@.len() <= 0x0010_0000,
    ensures
        sz.cx == measured_len(text@.len()) * env.char_width,
        sz.cy == env.char_height,
{
    let n = text.unicode_len();
    let m: usize = if n == 0 {
        3
    } else {
        n
    };
    proof {
        assert(m as u64 * env.char_width as u64 <= 0x0010_0000u64 * 256) by (nonlinear_arith)
            requires
                0 < m as u64 <= 0x0010_0000,
                0 < env.char_width as u64 <= 256,
        ;
    }
    let prod: u64 = m as u64 * env.char_width as u64;
    let cx = prod as i32;
    SIZE { cx, cy: env.char_height as i32 }
}

/// The first identifier handed to a control that asked for an
/// auto-generated one.
pub const FIRST_AUTO_CTRL_ID: u16 = 20_000;

/// What this layer reads of the parent window: whether the platform has
/// created its resource, the counter behind auto-generated control
/// identifiers, and the layout arranger's entries.
pub struct Parent {
    hwnd: HWND,
    next_auto_id: u16,
    layout: Vec<(HWND, (Horz, Vert))>,
}

impl Parent {
    /// The parent's window handle; null until the platform creates it.
    pub closed spec fn hwnd_spec(&self) -> HWND {
        self.hwnd
    }

    /// Whether the platform has created the parent's resource.
    pub open spec fn is_created(&self) -> bool {
        self.hwnd_spec().ptr_spec() != 0
    }

    /// The identifier the next auto-generated control will get.
    pub closed spec fn next_auto_id_spec(&self) -> u16 {
        self.next_auto_id
    }

    /// The children the layout arranger repositions on resize, with their
    /// behavior, oldest first.
    pub closed spec fn layout_spec(&self) -> Seq<(HWND, (Horz, Vert))> {
        self.layout@
    }

    /// A parent whose resource the platform has not created yet.
    pub fn new() -> (p: Parent)
        ensures
            !p.is_created(),
            p.next_auto_id_spec() == FIRST_AUTO_CTRL_ID,
            p.layout_spec() == Seq::<(HWND, (Horz, Vert))>::empty(),
    {
        Parent { hwnd: HWND::null(), next_auto_id: FIRST_AUTO_CTRL_ID, layout: Vec::new() }
    }

    /// The parent's window handle.
    pub fn hwnd(&self) -> (h: HWND)
        ensures
            h == self.hwnd_spec(),
    {
        self.hwnd
    }

    /// Records the handle the platform assigned when it created the
    /// parent's resource.
    pub fn created(&mut self, os_hwnd: usize)
        requires
            !old(self).is_created(),
            os_hwnd != 0,
        ensures
            final(self).hwnd_spec().ptr_spec() == os_hwnd,
            final(self).is_created(),
            final(self).next_auto_id_spec() == old(self).next_auto_id_spec(),
            final(self).layout_spec() == old(self).layout_spec(),
    {
        self.hwnd = HWND::from_ptr(os_hwnd);
    }

    /// Hands out a fresh control identifier.
    pub fn auto_ctrl_id(&mut self) -> (id: u16)
        requires
            old(self).next_auto_id_spec() < u16::MAX,
        ensures
            id == old(self).next_auto_id_spec(),
            final(self).next_auto_id_spec() == old(self).next_auto_id_spec() + 1,
            final(self).hwnd_spec() == old(self).hwnd_spec(),
            final(self).layout_spec() == old(self).layout_spec(),
    {
        let id = self.next_auto_id;
        self.next_auto_id = self.next_auto_id + 1;
        id
    }

    /// Registers a child with the layout arranger.
    pub fn add_to_layout_arranger(&mut self, hwnd: HWND, resize_behavior: (Horz, Vert))
        ensures
            final(self).layout_spec() == old(self).layout_spec().push((hwnd, resize_behavior)),
            final(self).hwnd_spec() == old(self).hwnd_spec(),
            final(self).next_auto_id_spec() == old(self).next_auto_id_spec(),
    {
        self.layout.push((hwnd, resize_behavior));
    }
}

} // verus!
