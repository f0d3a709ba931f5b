//! Numeric constants of the window system: window and control styles, button
//! check states, and system error codes.

#![allow(non_snake_case)]

use vstd::prelude::*;

verus! {

// Window styles.
pub const WS_CHILD: u32 = 0x4000_0000;
pub const WS_VISIBLE: u32 = 0x1000_0000;
pub const WS_TABSTOP: u32 = 0x0001_0000;
pub const WS_GROUP: u32 = 0x0002_0000;

// Extended window styles.
pub const WS_EX_LEFT: u32 = 0;
pub const WS_EX_CLIENTEDGE: u32 = 0x0000_0200;

// Edit control styles.
pub const ES_AUTOHSCROLL: u32 = 0x80;
pub const ES_NOHIDESEL: u32 = 0x100;

// Combo box styles.
pub const CBS_DROPDOWNLIST: u32 = 3;

// Button styles.
pub const BS_AUTORADIOBUTTON: u32 = 9;

// List view styles.
pub const LVS_REPORT: u32 = 1;
pub const LVS_SHOWSELALWAYS: u32 = 8;
pub const LVS_SHAREIMAGELISTS: u32 = 0x40;
pub const LVS_NOSORTHEADER: u32 = 0x8000;

// Extended list view styles: none set.
pub const LVS_EX_NONE: u32 = 0;

// Button check states.
pub const BST_UNCHECKED: u32 = 0;
pub const BST_CHECKED: u32 = 1;

// Button notification codes, sent to the parent in a command message.
pub const BN_CLICKED: u16 = 0;

// System error codes.
pub const SUCCESS: u32 = 0;
pub const INVALID_HANDLE: u32 = 6;
pub const BAD_ARGUMENTS: u32 = 160;
pub const INVALID_WINDOW_HANDLE: u32 = 1400;

} // verus!
