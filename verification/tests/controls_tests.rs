use winsafe::co;
use winsafe::combo_box::{ComboBox, ComboBoxOpts};
use winsafe::edit::{Edit, EditOpts};
use winsafe::events::NotifyCode;
use winsafe::gui::{FIRST_AUTO_CTRL_ID, Horz, POINT, Parent, SIZE, SystemEnv, Vert};
use winsafe::gui::{calc_text_bound_box_check, multiply_dpi};
use winsafe::handles::{HWND, Handle};
use winsafe::kernel::ERROR;
use winsafe::list_view::{ListView, ListViewOpts};
use winsafe::radio_button::{RadioButton, RadioButtonOpts};

fn env_2x() -> SystemEnv {
    SystemEnv { dpi_x: 192, dpi_y: 192, char_width: 8, char_height: 16 }
}

#[test]
fn scaling_doubles_at_twice_the_base() {
    let env = env_2x();
    let mut pos = POINT::new(10, -7);
    let mut sz = SIZE::new(50, 21);
    multiply_dpi(&mut pos, &mut sz, &env);
    assert_eq!((pos.x, pos.y), (20, -14));
    assert_eq!((sz.cx, sz.cy), (100, 42));
}

#[test]
fn scaling_is_identity_at_the_base() {
    let env = SystemEnv::base();
    let mut pos = POINT::new(33, 44);
    let mut sz = SIZE::new(5, 6);
    multiply_dpi(&mut pos, &mut sz, &env);
    assert_eq!((pos.x, pos.y, sz.cx, sz.cy), (33, 44, 5, 6));
}

#[test]
fn empty_text_measures_as_a_placeholder() {
    let env = SystemEnv::base();
    let sz = calc_text_bound_box_check("", &env);
    assert_eq!((sz.cx, sz.cy), (24, 16));
    let sz2 = calc_text_bound_box_check("hello", &env);
    assert_eq!((sz2.cx, sz2.cy), (40, 16));
}

#[test]
fn parent_hands_out_fresh_ids() {
    let mut parent = Parent::new();
    assert_eq!(parent.auto_ctrl_id(), FIRST_AUTO_CTRL_ID);
    assert_eq!(parent.auto_ctrl_id(), FIRST_AUTO_CTRL_ID + 1);
}

#[test]
fn edit_gets_an_auto_id_and_its_text_at_creation() {
    let mut parent = Parent::new();
    let opts = EditOpts { text: String::from("start"), ..Default::default() };
    let mut e = Edit::new(&mut parent, opts);
    assert_eq!(e.ctrl_id(), FIRST_AUTO_CTRL_ID);
    assert_eq!(e.hwnd().as_ptr(), 0);

    assert_eq!(e.create(&SystemEnv::base(), 0x1000, ERROR(0)), Ok(()));
    assert_eq!(e.hwnd().as_ptr(), 0x1000);
    assert_eq!(e.text().unwrap(), "start");

    assert_eq!(e.set_text("changed"), Ok(()));
    assert_eq!(e.text().unwrap(), "changed");
}

#[test]
fn edit_keeps_an_explicit_id() {
    let mut parent = Parent::new();
    let e = Edit::new(&mut parent, EditOpts { ctrl_id: 505, ..Default::default() });
    assert_eq!(e.ctrl_id(), 505);
    let d = Edit::new_dlg(&parent, 600);
    assert_eq!(d.ctrl_id(), 600);
}

#[test]
fn edit_before_creation_fails_fast() {
    let mut parent = Parent::new();
    let mut e = Edit::new(&mut parent, EditOpts::default());
    assert_eq!(e.set_text("x"), Err(ERROR(co::INVALID_WINDOW_HANDLE)));
    assert_eq!(e.text().unwrap_err(), ERROR(co::INVALID_WINDOW_HANDLE));
}

#[test]
fn edit_creation_failure_reports_the_cause() {
    let mut parent = Parent::new();
    let mut e = Edit::new(&mut parent, EditOpts::default());
    assert_eq!(e.create(&SystemEnv::base(), 0, ERROR(8)), Err(ERROR(8)));
    assert_eq!(e.hwnd().as_ptr(), 0);
}

#[test]
fn combo_box_fills_its_items_at_creation() {
    let mut parent = Parent::new();
    let opts = ComboBoxOpts {
        items: vec![String::from("Avocado"), String::from("Banana"), String::from("Grape")],
        selected_item: Some(1),
        ..Default::default()
    };
    let mut c = ComboBox::new(&mut parent, opts);
    assert!(c.items().is_empty());
    assert_eq!(c.create(&mut parent, &SystemEnv::base(), 0x2000, ERROR(0)), Ok(()));
    assert_eq!(c.items().len(), 3);
    assert_eq!(c.items()[2], "Grape");
    assert_eq!(c.selected_item(), Some(1));
}

#[test]
fn combo_box_selection_past_the_items_selects_nothing() {
    let mut parent = Parent::new();
    let opts = ComboBoxOpts {
        items: vec![String::from("one")],
        selected_item: Some(5),
        ..Default::default()
    };
    let mut c = ComboBox::new(&mut parent, opts);
    assert_eq!(c.create(&mut parent, &SystemEnv::base(), 0x2001, ERROR(0)), Ok(()));
    assert_eq!(c.selected_item(), None);
    c.select_item(Some(0));
    assert_eq!(c.selected_item(), Some(0));
    c.select_item(None);
    assert_eq!(c.selected_item(), None);
}

#[test]
fn combo_box_registers_with_the_layout_arranger() {
    let mut parent = Parent::new();
    let opts = ComboBoxOpts {
        resize_behavior: (Horz::Resize, Vert::Fixed),
        ..Default::default()
    };
    let mut c = ComboBox::new(&mut parent, opts);
    assert_eq!(c.create(&mut parent, &SystemEnv::base(), 0x2002, ERROR(0)), Ok(()));
    assert_eq!(c.hwnd(), HWND::from_ptr(0x2002));
}

#[test]
fn combo_box_dlg_mode_keeps_the_given_id() {
    let mut parent = Parent::new();
    let mut c = ComboBox::new_dlg(&parent, 777, (Horz::Fixed, Vert::Fixed));
    assert_eq!(c.ctrl_id(), 777);
    assert_eq!(c.create(&mut parent, &SystemEnv::base(), 0x2003, ERROR(0)), Ok(()));
    assert!(c.items().is_empty());
}

#[test]
fn radio_button_sizes_to_its_text() {
    let mut parent = Parent::new();
    let opts = RadioButtonOpts { text: String::from("Choice"), ..Default::default() };
    let mut b = RadioButton::new(&mut parent, opts);
    assert_eq!(b.create(&mut parent, &SystemEnv::base(), 0x3000, ERROR(0)), Ok(()));
    assert!(!b.is_selected());
    b.select(true);
    assert!(b.is_selected());
    b.select(false);
    assert!(!b.is_selected());
}

#[test]
fn radio_button_click_checks_and_routes() {
    let mut parent = Parent::new();
    let mut b = RadioButton::new(&mut parent, RadioButtonOpts::default());
    b.on().bn_clicked(42);
    assert_eq!(b.create(&mut parent, &SystemEnv::base(), 0x3001, ERROR(0)), Ok(()));
    let handler = b.emulate_click();
    assert_eq!(handler, Some(42));
    assert!(b.is_selected());
}

#[test]
fn radio_button_trigger_names_itself() {
    let mut parent = Parent::new();
    let mut b = RadioButton::new(&mut parent, RadioButtonOpts { ctrl_id: 88, ..Default::default() });
    assert_eq!(b.create(&mut parent, &SystemEnv::base(), 0x3002, ERROR(0)), Ok(()));
    let notif = b.select_and_trigger(true).unwrap();
    assert_eq!(notif.notif_code, co::BN_CLICKED);
    assert_eq!(notif.ctrl_id, 88);
    assert_eq!(notif.ctrl_hwnd, HWND::from_ptr(0x3002));
    assert!(b.is_selected());
}

#[test]
fn radio_button_resizes_with_new_text() {
    let mut parent = Parent::new();
    let mut b = RadioButton::new(&mut parent, RadioButtonOpts::default());
    assert_eq!(b.create(&mut parent, &SystemEnv::base(), 0x3003, ERROR(0)), Ok(()));
    b.set_text_and_resize("wide caption", &SystemEnv::base());
}

#[test]
fn radio_button_opts_clone_manually() {
    let opts = RadioButtonOpts { text: String::from("a"), ctrl_id: 3, ..Default::default() };
    let copy = opts.manual_clone();
    assert_eq!(copy.text, "a");
    assert_eq!(copy.ctrl_id, 3);
    assert_eq!(copy.button_style, co::BS_AUTORADIOBUTTON);
}

#[test]
fn radio_button_events_closed_after_creation() {
    let mut parent = Parent::new();
    let mut b = RadioButton::new_dlg(&parent, 55);
    b.on().bn_clicked(9);
    assert_eq!(b.create(&mut parent, &SystemEnv::base(), 0x3004, ERROR(0)), Ok(()));
    assert_eq!(b.emulate_click(), Some(9));
}

fn created_list_view(parent: &mut Parent) -> ListView {
    let mut lv = ListView::new(parent, ListViewOpts::default());
    assert_eq!(lv.create(&SystemEnv::base(), 0x4000, ERROR(0)), Ok(()));
    lv
}

#[test]
fn list_view_counts_columns_and_items() {
    let mut parent = Parent::new();
    let mut lv = created_list_view(&mut parent);
    assert_eq!(lv.column_count(), Ok(0));
    assert_eq!(lv.item_count(), 0);

    let cols = vec![(String::from("Name"), 100u32), (String::from("Size"), 60u32)];
    assert_eq!(lv.add_columns(&cols, &SystemEnv::base()), Ok(()));
    assert_eq!(lv.column_count(), Ok(2));

    assert_eq!(lv.add_item("alpha", None), Ok(0));
    assert_eq!(lv.add_item("beta", Some(2)), Ok(1));
    assert_eq!(lv.item_count(), 2);
    assert_eq!(lv.item_text(0, 0), "alpha");
    assert_eq!(lv.item_text(1, 0), "beta");
    assert_eq!(lv.item_text(5, 0), "");
    assert_eq!(lv.item_text(0, 3), "");
}

#[test]
fn list_view_stores_sub_item_texts() {
    let mut parent = Parent::new();
    let mut lv = created_list_view(&mut parent);
    assert_eq!(lv.add_item("row", None), Ok(0));
    assert_eq!(lv.set_item_text(0, 2, "third"), Ok(()));
    assert_eq!(lv.item_text(0, 2), "third");
    assert_eq!(lv.item_text(0, 1), "");
    assert_eq!(lv.item_text(0, 0), "row");
    assert_eq!(lv.set_item_text(9, 0, "x"), Err(ERROR(co::BAD_ARGUMENTS)));
}

#[test]
fn list_view_deletes_sequentially() {
    let mut parent = Parent::new();
    let mut lv = created_list_view(&mut parent);
    for name in ["a", "b", "c", "d"] {
        lv.add_item(name, None).unwrap();
    }
    // each index counts against the rows left by the deletions before it:
    // deleting 0 twice removes the first two rows
    assert_eq!(lv.delete_items(&[0, 0]), Ok(()));
    assert_eq!(lv.item_count(), 2);
    assert_eq!(lv.item_text(0, 0), "c");
    assert_eq!(lv.item_text(1, 0), "d");
}

#[test]
fn list_view_delete_out_of_range_stops_where_it_stood() {
    let mut parent = Parent::new();
    let mut lv = created_list_view(&mut parent);
    for name in ["a", "b", "c"] {
        lv.add_item(name, None).unwrap();
    }
    assert_eq!(lv.delete_items(&[1, 7]), Err(ERROR(co::BAD_ARGUMENTS)));
    assert_eq!(lv.item_count(), 2);
    assert_eq!(lv.item_text(0, 0), "a");
    assert_eq!(lv.item_text(1, 0), "c");
}

#[test]
fn list_view_delete_all() {
    let mut parent = Parent::new();
    let mut lv = created_list_view(&mut parent);
    lv.add_item("gone", None).unwrap();
    assert_eq!(lv.delete_all_items(), Ok(()));
    assert_eq!(lv.item_count(), 0);
}

#[test]
fn list_view_selection_is_reported_ascending() {
    let mut parent = Parent::new();
    let mut lv = created_list_view(&mut parent);
    for name in ["a", "b", "c", "d"] {
        lv.add_item(name, None).unwrap();
    }
    assert_eq!(lv.selected_item_count(), 0);
    assert_eq!(lv.set_item_selected(3, true), Ok(()));
    assert_eq!(lv.set_item_selected(1, true), Ok(()));
    assert_eq!(lv.selected_item_count(), 2);
    assert_eq!(lv.selected_items(), vec![1, 3]);
    assert_eq!(lv.set_item_selected(1, false), Ok(()));
    assert_eq!(lv.selected_items(), vec![3]);
    assert_eq!(lv.set_item_selected(9, true), Err(ERROR(co::BAD_ARGUMENTS)));
}

#[test]
fn list_view_focus_moves() {
    let mut parent = Parent::new();
    let mut lv = created_list_view(&mut parent);
    for name in ["a", "b", "c"] {
        lv.add_item(name, None).unwrap();
    }
    assert_eq!(lv.focused_item(), None);
    assert_eq!(lv.focus_item(2), Ok(()));
    assert_eq!(lv.focused_item(), Some(2));
    assert_eq!(lv.focus_item(0), Ok(()));
    assert_eq!(lv.focused_item(), Some(0));
    assert_eq!(lv.focus_item(9), Err(ERROR(co::BAD_ARGUMENTS)));
}

#[test]
fn list_view_extended_styles_toggle_bitwise() {
    let mut parent = Parent::new();
    let mut lv = created_list_view(&mut parent);
    assert_eq!(lv.extended_style(), 0);
    lv.toggle_extended_style(true, 0x20);
    lv.toggle_extended_style(true, 0x400);
    assert_eq!(lv.extended_style(), 0x420);
    lv.toggle_extended_style(false, 0x20);
    assert_eq!(lv.extended_style(), 0x400);
    lv.toggle_extended_style(false, 0x1000);
    assert_eq!(lv.extended_style(), 0x400);
}

#[test]
fn list_view_column_widths_scale() {
    let mut parent = Parent::new();
    let mut lv = ListView::new(&mut parent, ListViewOpts::default());
    assert_eq!(lv.create(&env_2x(), 0x4001, ERROR(0)), Ok(()));
    let cols = vec![(String::from("W"), 100u32)];
    assert_eq!(lv.add_columns(&cols, &env_2x()), Ok(()));
    assert_eq!(lv.column_count(), Ok(1));
}

#[test]
fn list_view_events_route() {
    let mut parent = Parent::new();
    let mut lv = ListView::new(&mut parent, ListViewOpts::default());
    lv.on().lvn_item_changed(31);
    assert_eq!(lv.on().dispatch(NotifyCode::LvnItemChanged), Some(31));
    assert_eq!(lv.on().dispatch(NotifyCode::NmSetFocus), None);
    assert_eq!(lv.create(&SystemEnv::base(), 0x4002, ERROR(0)), Ok(()));
    assert_eq!(lv.item_count(), 0);
}
