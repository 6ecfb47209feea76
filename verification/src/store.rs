//! The credentials store's choice of default account.
//!
//! Accounts live in an SQLite database; the store keeps in memory which
//! account is the default and mirrors every change of it into the
//! `default_user` table. The methods here decide the new default and the
//! write that mirrors it; the caller performs the write.
use vstd::prelude::*;
use crate::account::uuid_from_bytes;

verus! {

/// The write that keeps the `default_user` table in step with the store.
#[derive(Clone, Copy, Debug, PartialEq, Eq)]
pub enum DefaultUserWrite {
    /// The table stays as it is.
    Keep,
    /// `INSERT OR REPLACE` this id as the default user.
    Upsert(u128),
    /// `DELETE FROM default_user`.
    Clear,
}

/// The default account after an account was inserted and the table then
/// held `count` accounts: the first account becomes the default.
pub open spec fn default_after_add(default: Option<u128>, id: u128, count: i64) -> Option<u128> {
    if count == 1 {
        Some(id)
    } else {
        default
    }
}

/// The default account after the account `id` was deleted: removing the
/// default account clears the default.
pub open spec fn default_after_remove(default: Option<u128>, id: u128) -> Option<u128> {
    if default == Some(id) {
        None
    } else {
        default
    }
}

/// The write that records `id` as the new default.
pub open spec fn write_for(id: Option<u128>) -> DefaultUserWrite {
    match id {
        Some(i) => DefaultUserWrite::Upsert(i),
        None => DefaultUserWrite::Clear,
    }
}

/// What the credentials store holds in memory: the id of the default
/// account, if any.
pub struct CredentialsStore {
    default_user: Option<u128>,
}

impl View for CredentialsStore {
    type V = Option<u128>;

    closed spec fn view(&self) -> Option<u128> {
        self.default_user
    }
}

impl CredentialsStore {
    /// A store whose default account is the one loaded from the database.
    pub fn new(default_user: Option<u128>) -> (s: Self)
        ensures
            s@ == default_user,
    {
        CredentialsStore { default_user }
    }

    /// A store whose default account is the one the `user_id` column of the
    /// `default_user` table holds (16 UUID bytes), if there is a row.
    pub fn load_default_user(column: &Option<Vec<u8>>) -> (s: Self)
        requires
            column matches Some(b) ==> b.len() == 16,
        ensures
            s@ == match column {
                Some(b) => Some(crate::account::big_endian_value(b@) as u128),
                None => None,
            },
    {
        let default_user = match column {
            Some(b) => Some(uuid_from_bytes(b)),
            None => None,
        };
        CredentialsStore { default_user }
    }

    /// The id of the default account.
    pub fn resolve_default_id(&self) -> (id: Option<u128>)
        ensures
            id == self@,
    {
        self.default_user
    }

    /// Makes `id` the default account (or clears the default).
    pub fn set_default_user(&mut self, id: Option<u128>) -> (w: DefaultUserWrite)
        ensures
            final(self)@ == id,
            w == write_for(id),
    {
        self.default_user = id;
        match id {
            Some(i) => DefaultUserWrite::Upsert(i),
            None => DefaultUserWrite::Clear,
        }
    }

    /// Records that account `id` was inserted and that the table now holds
    /// `count` accounts: the first account becomes the default.
    pub fn add_account(&mut self, id: u128, count: i64) -> (w: DefaultUserWrite)
        ensures
            final(self)@ == default_after_add(old(self)@, id, count),
            w == if count == 1 {
                DefaultUserWrite::Upsert(id)
            } else {
                DefaultUserWrite::Keep
            },
    {
        if count == 1 {
            self.set_default_user(Some(id))
        } else {
            DefaultUserWrite::Keep
        }
    }

    /// Records that account `id` was deleted: if it was the default, the
    /// default is cleared.
    pub fn remove_account(&mut self, id: u128) -> (w: DefaultUserWrite)
        ensures
            final(self)@ == default_after_remove(old(self)@, id),
            w == if old(self)@ == Some(id) {
                DefaultUserWrite::Clear
            } else {
                DefaultUserWrite::Keep
            },
    {
        let removed_default = match self.default_user {
            Some(d) => d == id,
            None => false,
        };
        if removed_default {
            self.default_user = None;
            DefaultUserWrite::Clear
        } else {
            DefaultUserWrite::Keep
        }
    }
}

// ---------------------------------------------------------------------------
// Laws
// ---------------------------------------------------------------------------

/// The first account added to an empty store becomes its default.
pub proof fn lemma_first_account_is_default(id: u128)
    ensures
        default_after_add(None, id, 1) == Some(id),
{
}

/// Adding an account never changes an existing default unless it is the
/// only account.
pub proof fn lemma_add_keeps_default(default: Option<u128>, id: u128, count: i64)
    requires
        count != 1,
    ensures
        default_after_add(default, id, count) == default,
{
}

/// Removing the default account leaves no default.
pub proof fn lemma_remove_default_clears(id: u128)
    ensures
        default_after_remove(Some(id), id) == None::<u128>,
{
}

/// Removing any other account keeps the default.
pub proof fn lemma_remove_other_keeps_default(default: Option<u128>, id: u128)
    requires
        default != Some(id),
    ensures
        default_after_remove(default, id) == default,
{
}

/// Adding the first account and removing it again leaves no default.
pub proof fn lemma_add_then_remove_first(id: u128)
    ensures
        default_after_remove(default_after_add(None, id, 1), id) == None::<u128>,
{
}

} // verus!
