//! App-wide commands and the small pieces of UI state they change.
use vstd::prelude::*;
use crate::text::{chars_of, string_from_chars};

verus! {

/// Whether the account switcher popup is open.
pub struct AccountSwitcher {
    open: bool,
}

impl View for AccountSwitcher {
    type V = bool;

    closed spec fn view(&self) -> bool {
        self.open
    }
}

impl AccountSwitcher {
    /// A switcher that is open when `open` holds.
    pub fn new(open: bool) -> (s: Self)
        ensures
            s@ == open,
    {
        AccountSwitcher { open }
    }

    /// Whether the popup is open.
    pub fn is_open(&self) -> (open: bool)
        ensures
            open == self@,
    {
        self.open
    }
}

/// Opens or closes the account switcher popup.
pub fn set_account_switcher_open(switcher: &mut AccountSwitcher, open: bool)
    ensures
        final(switcher)@ == open,
{
    switcher.open = open;
}

/// App-wide commands shared through a root context.
#[derive(Clone, Copy, Default, Debug)]
pub struct Actions;

impl Actions {
    pub fn new() -> (a: Self)
        ensures
            a == Actions,
    {
        Actions
    }

    /// Closes the account switcher popup.
    pub fn close_account_switcher(&self, switcher: &mut AccountSwitcher)
        ensures
            !final(switcher)@,
    {
        set_account_switcher_open(switcher, false);
    }
}

/// A notification to be shown: its title and body.
pub struct NotificationBuilder {
    title: String,
    body: String,
}

impl View for NotificationBuilder {
    type V = (Seq<char>, Seq<char>);

    closed spec fn view(&self) -> (Seq<char>, Seq<char>) {
        (self.title@, self.body@)
    }
}

impl NotificationBuilder {
    pub fn new(title: &str, body: &str) -> (n: Self)
        ensures
            n@ == (title@, body@),
    {
        NotificationBuilder {
            title: string_from_chars(chars_of(title).as_slice()),
            body: string_from_chars(chars_of(body).as_slice()),
        }
    }

    pub fn title(&self) -> (t: &str)
        ensures
            t@ == self@.0,
    {
        self.title.as_str()
    }

    pub fn body(&self) -> (b: &str)
        ensures
            b@ == self@.1,
    {
        self.body.as_str()
    }
}

/// Signal that wakes the event pump.
pub struct PumpSignal;

} // verus!
