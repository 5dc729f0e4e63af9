//! The email address that is remembered from one dialog to the next.

use vstd::prelude::*;

use crate::text::option_text;

verus! {

/// The key under which the address is stored.
pub const DATABASE_KEY_NAME: &'static str = "email_address";

/// A change to the key-value store.
#[derive(Debug)]
pub enum StoreUpdate {
    Write { key: String, value: String },
    Delete { key: String },
}

/// A change to the key-value store as a mathematical value.
pub ghost enum StoreUpdateView {
    Write { key: Seq<char>, value: Seq<char> },
    Delete { key: Seq<char> },
}

impl View for StoreUpdate {
    type V = StoreUpdateView;

    open spec fn view(&self) -> StoreUpdateView {
        match self {
            StoreUpdate::Write { key, value } => StoreUpdateView::Write {
                key: key@,
                value: value@,
            },
            StoreUpdate::Delete { key } => StoreUpdateView::Delete { key: key@ },
        }
    }
}

impl StoreUpdateView {
    /// The contents of a store after the change.
    pub open spec fn applied(self, store: Map<Seq<char>, Seq<char>>) -> Map<Seq<char>, Seq<char>> {
        match self {
            StoreUpdateView::Write { key, value } => store.insert(key, value),
            StoreUpdateView::Delete { key } => store.remove(key),
        }
    }
}

/// What a read of `key` finds.
pub open spec fn lookup(store: Map<Seq<char>, Seq<char>>, key: Seq<char>) -> Option<Seq<char>> {
    if store.dom().contains(key) {
        Some(store[key])
    } else {
        None
    }
}

/// The change that remembers `email`.
pub open spec fn email_update(email: Option<Seq<char>>) -> StoreUpdateView {
    match email {
        Some(address) => StoreUpdateView::Write { key: DATABASE_KEY_NAME@, value: address },
        None => StoreUpdateView::Delete { key: DATABASE_KEY_NAME@ },
    }
}

/// Remembers the contents of the email field: an address is written, an empty field deletes what
/// was remembered.
pub fn update_email_in_store(email: Option<String>) -> (result: StoreUpdate)
    ensures
        result@ == email_update(option_text(email)),
{
    match email {
        Some(address) => StoreUpdate::Write { key: DATABASE_KEY_NAME.to_string(), value: address },
        None => StoreUpdate::Delete { key: DATABASE_KEY_NAME.to_string() },
    }
}

/// The text that a new dialog's email field starts with.
pub open spec fn restored<E>(stored: Result<Option<String>, E>) -> Option<String> {
    match stored {
        Ok(found) => found,
        Err(_) => None,
    }
}

/// The text that a new dialog's email field starts with, given what reading the store under
/// `DATABASE_KEY_NAME` returned. A failed read counts as nothing found.
pub fn restored_email<E>(stored: Result<Option<String>, E>) -> (result: Option<String>)
    ensures
        result == restored(stored),
{
    match stored {
        Ok(found) => found,
        Err(_) => None,
    }
}

/// What one dialog remembers, the next one finds; and no other entry of the store changes.
pub proof fn law_email_round_trip(
    store: Map<Seq<char>, Seq<char>>,
    email: Option<Seq<char>>,
    other: Seq<char>,
)
    ensures
        lookup(email_update(email).applied(store), DATABASE_KEY_NAME@) == email,
        other != DATABASE_KEY_NAME@ ==> lookup(email_update(email).applied(store), other) == lookup(
            store,
            other,
        ),
{
}

/// Only the last contents of the email field count.
pub proof fn law_last_email_wins(
    store: Map<Seq<char>, Seq<char>>,
    first: Option<Seq<char>>,
    second: Option<Seq<char>>,
)
    ensures
        email_update(second).applied(email_update(first).applied(store)) == email_update(
            second,
        ).applied(store),
{
    assert(email_update(second).applied(email_update(first).applied(store)) =~= email_update(
        second,
    ).applied(store));
}

/// An address is written as it is, and an empty field deletes; either way under the one key
/// `email_address`.
pub proof fn law_email_update(address: Seq<char>)
    ensures
        email_update(Some(address)) is Write,
        email_update(Some(address))->value == address,
        email_update(Some(address))->Write_key == "email_address"@,
        email_update(None) is Delete,
        email_update(None)->Delete_key == "email_address"@,
        DATABASE_KEY_NAME@ == "email_address"@,
{
}

/// A change to the store is seen with its kind, its whole key and its whole value.
pub proof fn law_store_update_view(update: StoreUpdate)
    ensures
        update@ is Write <==> update is Write,
        update is Write ==> update@->Write_key == update->Write_key@ && update@->value
            == update->value@,
        update is Delete ==> update@->Delete_key == update->Delete_key@,
{
}

/// A new dialog starts with the stored address, whatever it is, exactly if the store was read and
/// held one.
pub proof fn law_restored<E>(stored: Result<Option<String>, E>)
    ensures
        restored(stored) is Some <==> stored is Ok && stored->Ok_0 is Some,
        restored(stored) is Some ==> restored(stored)->0 == stored->Ok_0->0,
{
}

} // verus!
