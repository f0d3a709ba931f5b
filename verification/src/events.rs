//! Routing of control notifications to registered handlers.
//!
//! Each control owns a table from a fixed set of notification identifiers to
//! zero or one callback. Callbacks themselves live in the embedding program
//! and are named here by opaque tokens; dispatch looks the token up by
//! identifier so the program's message pump can invoke the matching callback
//! synchronously, or pass the notification through unhandled when none is
//! registered.

use vstd::prelude::*;

verus! {

/// Identifier of a notification that a control can route.
#[derive(Clone, Copy, Debug, PartialEq, Eq, Structural, Hash)]
pub enum NotifyCode {
    /// A date and time picker closed its drop-down calendar.
    DtnCloseUp,
    /// A date and time picker's value changed.
    DtnDateTimeChange,
    /// A date and time picker opened its drop-down calendar.
    DtnDropDown,
    /// A date and time picker requests text for a callback field.
    DtnFormat,
    /// A date and time picker asks for the maximum size of a callback field.
    DtnFormatQuery,
    /// The user finished editing a date and time picker's string.
    DtnUserString,
    /// The user typed in a date and time picker's callback field.
    DtnWmKeyDown,
    /// A control lost the input focus.
    NmKillFocus,
    /// A control received the input focus.
    NmSetFocus,
    /// A button was clicked.
    BnClicked,
    /// A combo box's selection changed.
    CbnSelChange,
    /// An edit control's text changed.
    EnChange,
    /// A list view item's state changed.
    LvnItemChanged,
}

/// What a table of registrations maps a code to: the token of the first
/// callback registered under that code, if any.
pub open spec fn lookup(entries: Seq<(NotifyCode, u64)>, code: NotifyCode) -> Option<u64>
    decreases entries.len(),
{
    if entries.len() == 0 {
        None
    } else if entries[0].0 == code {
        Some(entries[0].1)
    } else {
        lookup(entries.skip(1), code)
    }
}

/// Registering under a code that already has a callback changes nothing
/// that dispatch can observe: the first registration wins, and codes other
/// than the registered one are untouched.
pub proof fn lemma_first_registration_wins(
    entries: Seq<(NotifyCode, u64)>,
    code: NotifyCode,
    func: u64,
)
    ensures
        lookup(entries, code) is Some ==> lookup(entries.push((code, func)), code) == lookup(
            entries,
            code,
        ),
        lookup(entries, code) is None ==> lookup(entries.push((code, func)), code) == Some(func),
        forall|other: NotifyCode|
            other != code ==> lookup(entries.push((code, func)), other) == lookup(entries, other),
    decreases entries.len(),
{
    if entries.len() == 0 {
        assert(entries.push((code, func)).skip(1) =~= Seq::<(NotifyCode, u64)>::empty());
        assert forall|other: NotifyCode| other != code implies lookup(
            entries.push((code, func)),
            other,
        ) == lookup(entries, other) by {
            assert(lookup(entries.push((code, func)).skip(1), other) is None);
        }
    } else {
        assert(entries.push((code, func)).skip(1) =~= entries.skip(1).push((code, func)));
        lemma_first_registration_wins(entries.skip(1), code, func);
        assert forall|other: NotifyCode| other != code implies lookup(
            entries.push((code, func)),
            other,
        ) == lookup(entries, other) by {
            assert(lookup(entries.skip(1).push((code, func)), other) == lookup(
                entries.skip(1),
                other,
            ));
        }
    }
}

/// The registration table of one control: notification identifier to
/// callback token, populated before the control's resource is created and
/// read by dispatch afterwards.
pub struct FuncStore {
    entries: Vec<(NotifyCode, u64)>,
}

impl FuncStore {
    /// The registrations made so far, oldest first.
    pub closed spec fn entries_spec(&self) -> Seq<(NotifyCode, u64)> {
        self.entries@
    }

    /// An empty table.
    pub fn new() -> (s: Self)
        ensures
            s.entries_spec() == Seq::<(NotifyCode, u64)>::empty(),
    {
        FuncStore { entries: Vec::new() }
    }

    /// Records a callback token under a notification identifier.
    pub fn add(&mut self, code: NotifyCode, func: u64)
        ensures
            final(self).entries_spec() == old(self).entries_spec().push((code, func)),
    {
        self.entries.push((code, func));
    }

    /// The token of the first callback registered under `code`, or nothing:
    /// the notification is then passed through unhandled.
    pub fn find(&self, code: NotifyCode) -> (r: Option<u64>)
        ensures
            r == lookup(self.entries_spec(), code),
    {
        let n = self.entries.len();
        proof {
            assert(self.entries@.skip(0) =~= self.entries@);
        }
        let mut i: usize = 0;
        while i < n
            invariant
                i <= n,
            n == self.entries@.len(),
                lookup(self.entries@, code) == lookup(self.entries@.skip(i as int), code),
            decreases n - i,
        {
            let (c, f) = self.entries[i];
            proof {
                assert(self.entries@.skip(i as int)[0] == self.entries@[i as int]);
                assert(self.entries@.skip(i as int).skip(1) =~= self.entries@.skip(i as int + 1));
            }
            if c == code {
                return Some(f);
            }
            i = i + 1;
        }
        proof {
            assert(self.entries@.skip(n as int) =~= Seq::<(NotifyCode, u64)>::empty());
        }
        None
    }
}

/// Notifications of a date and time picker control, registered before the
/// control's resource is created and looked up by the parent's message pump.
pub struct DateTimePickerEvents {
    ctrl_id: u16,
    store: FuncStore,
}

impl DateTimePickerEvents {
    /// The identifier of the control whose notifications this table routes.
    pub closed spec fn ctrl_id_spec(&self) -> u16 {
        self.ctrl_id
    }

    /// The registrations made so far, oldest first.
    pub closed spec fn entries_spec(&self) -> Seq<(NotifyCode, u64)> {
        self.store.entries_spec()
    }

    /// An empty table for the control with the given identifier.
    pub fn new(ctrl_id: u16) -> (ev: Self)
        ensures
            ev.ctrl_id_spec() == ctrl_id,
            ev.entries_spec() == Seq::<(NotifyCode, u64)>::empty(),
    {
        DateTimePickerEvents { ctrl_id, store: FuncStore::new() }
    }

    /// The identifier of the control whose notifications this table routes.
    pub fn ctrl_id(&self) -> (id: u16)
        ensures
            id == self.ctrl_id_spec(),
    {
        self.ctrl_id
    }

    /// Registers a callback for the closing of the drop-down calendar.
    pub fn dtn_close_up(&mut self, func: u64)
        ensures
            final(self).ctrl_id_spec() == old(self).ctrl_id_spec(),
            final(self).entries_spec() == old(self).entries_spec().push(
                (NotifyCode::DtnCloseUp, func),
            ),
    {
        self.store.add(NotifyCode::DtnCloseUp, func);
    }

    /// Registers a callback for a change of the picked date and time.
    pub fn dtn_date_time_change(&mut self, func: u64)
        ensures
            final(self).ctrl_id_spec() == old(self).ctrl_id_spec(),
            final(self).entries_spec() == old(self).entries_spec().push(
                (NotifyCode::DtnDateTimeChange, func),
            ),
    {
        self.store.add(NotifyCode::DtnDateTimeChange, func);
    }

    /// Registers a callback for the opening of the drop-down calendar.
    pub fn dtn_drop_down(&mut self, func: u64)
        ensures
            final(self).ctrl_id_spec() == old(self).ctrl_id_spec(),
            final(self).entries_spec() == old(self).entries_spec().push(
                (NotifyCode::DtnDropDown, func),
            ),
    {
        self.store.add(NotifyCode::DtnDropDown, func);
    }

    /// Registers a callback for the request of callback-field text.
    pub fn dtn_format(&mut self, func: u64)
        ensures
            final(self).ctrl_id_spec() == old(self).ctrl_id_spec(),
            final(self).entries_spec() == old(self).entries_spec().push(
                (NotifyCode::DtnFormat, func),
            ),
    {
        self.store.add(NotifyCode::DtnFormat, func);
    }

    /// Registers a callback for the query of a callback field's maximum
    /// size.
    pub fn dtn_format_query(&mut self, func: u64)
        ensures
            final(self).ctrl_id_spec() == old(self).ctrl_id_spec(),
            final(self).entries_spec() == old(self).entries_spec().push(
                (NotifyCode::DtnFormatQuery, func),
            ),
    {
        self.store.add(NotifyCode::DtnFormatQuery, func);
    }

    /// Registers a callback for the user finishing a string edit.
    pub fn dtn_user_string(&mut self, func: u64)
        ensures
            final(self).ctrl_id_spec() == old(self).ctrl_id_spec(),
            final(self).entries_spec() == old(self).entries_spec().push(
                (NotifyCode::DtnUserString, func),
            ),
    {
        self.store.add(NotifyCode::DtnUserString, func);
    }

    /// Registers a callback for a key typed in a callback field.
    pub fn dtn_wm_key_down(&mut self, func: u64)
        ensures
            final(self).ctrl_id_spec() == old(self).ctrl_id_spec(),
            final(self).entries_spec() == old(self).entries_spec().push(
                (NotifyCode::DtnWmKeyDown, func),
            ),
    {
        self.store.add(NotifyCode::DtnWmKeyDown, func);
    }

    /// Registers a callback for the loss of the input focus.
    pub fn nm_kill_focus(&mut self, func: u64)
        ensures
            final(self).ctrl_id_spec() == old(self).ctrl_id_spec(),
            final(self).entries_spec() == old(self).entries_spec().push(
                (NotifyCode::NmKillFocus, func),
            ),
    {
        self.store.add(NotifyCode::NmKillFocus, func);
    }

    /// Registers a callback for the receipt of the input focus.
    pub fn nm_set_focus(&mut self, func: u64)
        ensures
            final(self).ctrl_id_spec() == old(self).ctrl_id_spec(),
            final(self).entries_spec() == old(self).entries_spec().push(
                (NotifyCode::NmSetFocus, func),
            ),
    {
        self.store.add(NotifyCode::NmSetFocus, func);
    }

    /// The callback token registered for a notification, or nothing: the
    /// notification is then passed through unhandled.
    pub fn dispatch(&self, code: NotifyCode) -> (r: Option<u64>)
        ensures
            r == lookup(self.entries_spec(), code),
    {
        self.store.find(code)
    }
}

/// Notifications of a button control.
pub struct ButtonEvents {
    ctrl_id: u16,
    store: FuncStore,
}

impl ButtonEvents {
    /// The identifier of the control whose notifications this table routes.
    pub closed spec fn ctrl_id_spec(&self) -> u16 {
        self.ctrl_id
    }

    /// The registrations made so far, oldest first.
    pub closed spec fn entries_spec(&self) -> Seq<(NotifyCode, u64)> {
        self.store.entries_spec()
    }

    /// An empty table for the control with the given identifier.
    pub fn new(ctrl_id: u16) -> (ev: Self)
        ensures
            ev.ctrl_id_spec() == ctrl_id,
            ev.entries_spec() == Seq::<(NotifyCode, u64)>::empty(),
    {
        ButtonEvents { ctrl_id, store: FuncStore::new() }
    }

    /// Registers a callback for a click of the button.
    pub fn bn_clicked(&mut self, func: u64)
        ensures
            final(self).ctrl_id_spec() == old(self).ctrl_id_spec(),
            final(self).entries_spec() == old(self).entries_spec().push(
                (NotifyCode::BnClicked, func),
            ),
    {
        self.store.add(NotifyCode::BnClicked, func);
    }

    /// The callback token registered for a notification, or nothing.
    pub fn dispatch(&self, code: NotifyCode) -> (r: Option<u64>)
        ensures
            r == lookup(self.entries_spec(), code),
    {
        self.store.find(code)
    }
}

/// Notifications of a combo box control.
pub struct ComboBoxEvents {
    ctrl_id: u16,
    store: FuncStore,
}

impl ComboBoxEvents {
    /// The identifier of the control whose notifications this table routes.
    pub closed spec fn ctrl_id_spec(&self) -> u16 {
        self.ctrl_id
    }

    /// The registrations made so far, oldest first.
    pub closed spec fn entries_spec(&self) -> Seq<(NotifyCode, u64)> {
        self.store.entries_spec()
    }

    /// An empty table for the control with the given identifier.
    pub fn new(ctrl_id: u16) -> (ev: Self)
        ensures
            ev.ctrl_id_spec() == ctrl_id,
            ev.entries_spec() == Seq::<(NotifyCode, u64)>::empty(),
    {
        ComboBoxEvents { ctrl_id, store: FuncStore::new() }
    }

    /// Registers a callback for a change of the selected item.
    pub fn cbn_sel_change(&mut self, func: u64)
        ensures
            final(self).ctrl_id_spec() == old(self).ctrl_id_spec(),
            final(self).entries_spec() == old(self).entries_spec().push(
                (NotifyCode::CbnSelChange, func),
            ),
    {
        self.store.add(NotifyCode::CbnSelChange, func);
    }

    /// The callback token registered for a notification, or nothing.
    pub fn dispatch(&self, code: NotifyCode) -> (r: Option<u64>)
        ensures
            r == lookup(self.entries_spec(), code),
    {
        self.store.find(code)
    }
}

/// Notifications of an edit control.
pub struct EditEvents {
    ctrl_id: u16,
    store: FuncStore,
}

impl EditEvents {
    /// The identifier of the control whose notifications this table routes.
    pub closed spec fn ctrl_id_spec(&self) -> u16 {
        self.ctrl_id
    }

    /// The registrations made so far, oldest first.
    pub closed spec fn entries_spec(&self) -> Seq<(NotifyCode, u64)> {
        self.store.entries_spec()
    }

    /// An empty table for the control with the given identifier.
    pub fn new(ctrl_id: u16) -> (ev: Self)
        ensures
            ev.ctrl_id_spec() == ctrl_id,
            ev.entries_spec() == Seq::<(NotifyCode, u64)>::empty(),
    {
        EditEvents { ctrl_id, store: FuncStore::new() }
    }

    /// Registers a callback for a change of the text.
    pub fn en_change(&mut self, func: u64)
        ensures
            final(self).ctrl_id_spec() == old(self).ctrl_id_spec(),
            final(self).entries_spec() == old(self).entries_spec().push(
                (NotifyCode::EnChange, func),
            ),
    {
        self.store.add(NotifyCode::EnChange, func);
    }

    /// The callback token registered for a notification, or nothing.
    pub fn dispatch(&self, code: NotifyCode) -> (r: Option<u64>)
        ensures
            r == lookup(self.entries_spec(), code),
    {
        self.store.find(code)
    }
}

/// Notifications of a list view control.
pub struct ListViewEvents {
    ctrl_id: u16,
    store: FuncStore,
}

impl ListViewEvents {
    /// The identifier of the control whose notifications this table routes.
    pub closed spec fn ctrl_id_spec(&self) -> u16 {
        self.ctrl_id
    }

    /// The registrations made so far, oldest first.
    pub closed spec fn entries_spec(&self) -> Seq<(NotifyCode, u64)> {
        self.store.entries_spec()
    }

    /// An empty table for the control with the given identifier.
    pub fn new(ctrl_id: u16) -> (ev: Self)
        ensures
            ev.ctrl_id_spec() == ctrl_id,
            ev.entries_spec() == Seq::<(NotifyCode, u64)>::empty(),
    {
        ListViewEvents { ctrl_id, store: FuncStore::new() }
    }

    /// Registers a callback for a change of an item's state.
    pub fn lvn_item_changed(&mut self, func: u64)
        ensures
            final(self).ctrl_id_spec() == old(self).ctrl_id_spec(),
            final(self).entries_spec() == old(self).entries_spec().push(
                (NotifyCode::LvnItemChanged, func),
            ),
    {
        self.store.add(NotifyCode::LvnItemChanged, func);
    }

    /// The callback token registered for a notification, or nothing.
    pub fn dispatch(&self, code: NotifyCode) -> (r: Option<u64>)
        ensures
            r == lookup(self.entries_spec(), code),
    {
        self.store.find(code)
    }
}

} // verus!
