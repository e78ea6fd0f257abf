//! One saved credential and its mathematical view.

use vstd::prelude::*;

verus! {

/// The name of the field that holds the account name.
pub const ACCOUNT: &'static str = "account";

/// The name of the field that holds the user name.
pub const USERNAME: &'static str = "username";

/// The name of the field that holds the e-mail address.
pub const EMAIL: &'static str = "email";

/// The name of the field that holds the password.
pub const PASSWORD: &'static str = "password";

/// One saved credential. The account name is what the user refers to the
/// entry by; nothing makes it unique.
#[derive(Debug, PartialEq, Eq)]
pub struct AccountEntry {
    pub account: String,
    pub username: String,
    pub email: String,
    pub password: String,
}

/// An entry as four texts.
pub ghost struct EntryView {
    pub account: Seq<char>,
    pub username: Seq<char>,
    pub email: Seq<char>,
    pub password: Seq<char>,
}

impl View for AccountEntry {
    type V = EntryView;

    open spec fn view(&self) -> EntryView {
        EntryView {
            account: self.account@,
            username: self.username@,
            email: self.email@,
            password: self.password@,
        }
    }
}

impl DeepView for AccountEntry {
    type V = EntryView;

    open spec fn deep_view(&self) -> EntryView {
        self@
    }
}

impl AccountEntry {
    /// The entry with the given fields.
    pub fn new(account: String, username: String, email: String, password: String) -> (entry:
        AccountEntry)
        ensures
            entry@ == (EntryView {
                account: account@,
                username: username@,
                email: email@,
                password: password@,
            }),
    {
        AccountEntry { account, username, email, password }
    }
}

impl Clone for AccountEntry {
    fn clone(&self) -> (copy: AccountEntry)
        ensures
            copy@ == self@,
    {
        AccountEntry {
            account: self.account.clone(),
            username: self.username.clone(),
            email: self.email.clone(),
            password: self.password.clone(),
        }
    }
}

} // verus!
