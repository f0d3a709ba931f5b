use winsafe::events::{ButtonEvents, DateTimePickerEvents, NotifyCode};

#[test]
fn unregistered_notification_passes_through() {
    let ev = DateTimePickerEvents::new(101);
    assert_eq!(ev.ctrl_id(), 101);
    assert_eq!(ev.dispatch(NotifyCode::DtnCloseUp), None);
    assert_eq!(ev.dispatch(NotifyCode::NmSetFocus), None);
}

#[test]
fn dispatch_finds_the_registered_callback() {
    let mut ev = DateTimePickerEvents::new(101);
    ev.dtn_close_up(11);
    ev.dtn_date_time_change(12);
    ev.dtn_drop_down(13);
    ev.dtn_format(14);
    ev.dtn_format_query(15);
    ev.dtn_user_string(16);
    ev.dtn_wm_key_down(17);
    ev.nm_kill_focus(18);
    ev.nm_set_focus(19);
    assert_eq!(ev.dispatch(NotifyCode::DtnCloseUp), Some(11));
    assert_eq!(ev.dispatch(NotifyCode::DtnDateTimeChange), Some(12));
    assert_eq!(ev.dispatch(NotifyCode::DtnDropDown), Some(13));
    assert_eq!(ev.dispatch(NotifyCode::DtnFormat), Some(14));
    assert_eq!(ev.dispatch(NotifyCode::DtnFormatQuery), Some(15));
    assert_eq!(ev.dispatch(NotifyCode::DtnUserString), Some(16));
    assert_eq!(ev.dispatch(NotifyCode::DtnWmKeyDown), Some(17));
    assert_eq!(ev.dispatch(NotifyCode::NmKillFocus), Some(18));
    assert_eq!(ev.dispatch(NotifyCode::NmSetFocus), Some(19));
    assert_eq!(ev.dispatch(NotifyCode::BnClicked), None);
}

#[test]
fn first_registration_wins() {
    let mut ev = ButtonEvents::new(7);
    ev.bn_clicked(1);
    ev.bn_clicked(2);
    assert_eq!(ev.dispatch(NotifyCode::BnClicked), Some(1));
}
