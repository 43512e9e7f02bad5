//! The cached bearer credential and its durable copy.
//!
//! A process holds at most one credential. It lives in a [`TokenStore`], which
//! is loaded once from the durable slot named [`TOKEN_KEY`] and from then on
//! is the only thing that is read. Every change goes to the durable slot
//! first, as a [`StorageAction`], and to the store only once the slot has
//! taken it, so that a store loaded later from the slot holds what this one
//! holds.
use vstd::prelude::*;

verus! {

/// The name of the durable slot that holds the credential.
pub const TOKEN_KEY: &'static str = "carreport.token";

/// The credential that requests are sent with, if there is one.
#[derive(Clone, Debug, PartialEq, Eq)]
pub struct TokenStore {
    token: Option<String>,
}

impl View for TokenStore {
    type V = Option<Seq<char>>;

    /// The cached credential, as text.
    closed spec fn view(&self) -> Option<Seq<char>> {
        self.token.deep_view()
    }
}

/// What a change of credential does to the durable slot.
#[derive(Clone, Debug, PartialEq, Eq)]
pub enum StorageAction {
    /// Remove the entry.
    Delete,
    /// Store this credential, in place of whatever the slot held.
    Write(String),
}

/// A [`StorageAction`] with its credential as text.
pub enum StorageActionView {
    Delete,
    Write(Seq<char>),
}

impl View for StorageAction {
    type V = StorageActionView;

    open spec fn view(&self) -> StorageActionView {
        match self {
            StorageAction::Delete => StorageActionView::Delete,
            StorageAction::Write(token) => StorageActionView::Write(token@),
        }
    }
}

impl StorageActionView {
    /// What the durable slot holds once the action has been carried out on a
    /// slot that held `slot`.
    pub open spec fn applied(self, slot: Option<Seq<char>>) -> Option<Seq<char>> {
        match self {
            StorageActionView::Delete => None,
            StorageActionView::Write(token) => Some(token),
        }
    }
}

/// The action on the durable slot that a change to `token` calls for.
pub open spec fn write_for(token: Option<Seq<char>>) -> StorageActionView {
    match token {
        Some(text) => StorageActionView::Write(text),
        None => StorageActionView::Delete,
    }
}

/// Whether `stored` is what reading a durable slot that holds `slot` gives:
/// the credential where the slot holds one, and a failure where it is empty.
pub open spec fn read_from<E>(stored: Result<String, E>, slot: Option<Seq<char>>) -> bool {
    match slot {
        Some(text) => stored matches Ok(token) && token@ == text,
        None => stored is Err,
    }
}

/// What a store holds that was loaded from a slot read as `stored`: the
/// credential if one was read, and none if the entry was missing or unreadable.
pub open spec fn loaded_from<E>(stored: Result<String, E>) -> Option<Seq<char>> {
    match stored {
        Ok(token) => Some(token@),
        Err(_) => None,
    }
}

impl StorageAction {
    /// Carries the action out on `slot`, a durable slot kept in memory.
    pub fn apply(self, slot: &mut Option<String>)
        ensures
            final(slot).deep_view() == self@.applied(old(slot).deep_view()),
    {
        match self {
            StorageAction::Delete => {
                *slot = None;
            },
            StorageAction::Write(token) => {
                *slot = Some(token);
            },
        }
    }
}

impl TokenStore {
    /// Builds the store from what reading the durable slot gave. A missing or
    /// unreadable entry is no error: the store then holds no credential.
    pub fn load<E>(stored: Result<String, E>) -> (store: TokenStore)
        ensures
            store@ == loaded_from(stored),
    {
        match stored {
            Ok(token) => TokenStore { token: Some(token) },
            Err(_) => TokenStore { token: None },
        }
    }
}

/// Tells what is to be done to the durable slot when the credential changes
/// to `token`: a credential is written, the absence of one deletes the entry.
///
/// The action is carried out first; how that ended is what [`set_token`]
/// is told.
pub fn storage_action(token: &Option<String>) -> (action: StorageAction)
    ensures
        action@ == write_for(token.deep_view()),
{
    match token {
        Some(text) => StorageAction::Write(text.clone()),
        None => StorageAction::Delete,
    }
}

/// Completes a change of the credential to `token`, where `written` tells
/// how carrying out its [`storage_action`] ended.
///
/// Once the durable slot has taken the change, the store takes it too. Where
/// the durable slot has refused it, the change has failed as a whole: the
/// store keeps what it held, and the failure is handed back for the caller
/// to raise.
pub fn set_token<E>(store: &mut TokenStore, token: Option<String>, written: Result<(), E>) -> (done:
    Result<(), E>)
    ensures
        done == written,
        written is Ok ==> final(store)@ == token.deep_view(),
        written is Err ==> *final(store) == *old(store),
{
    if written.is_ok() {
        store.token = token;
    }
    written
}

/// The cached credential.
pub fn get_token(store: &TokenStore) -> (token: Option<String>)
    ensures
        token.deep_view() == store@,
{
    match &store.token {
        Some(text) => Some(text.clone()),
        None => None,
    }
}

/// Changes are written through: once the action for a change to `token` has
/// been carried out, the durable slot holds `token`, whatever it held before,
/// and so does every store that is loaded from it afterwards.
pub proof fn lemma_write_through(token: Option<Seq<char>>, slot: Option<Seq<char>>)
    ensures
        write_for(token).applied(slot) == token,
{
}

/// The durable slot is what a new process starts from: a store that is
/// loaded once the action for a change to `token` has been carried out holds
/// `token`.
pub proof fn lemma_restart_keeps_credential<E>(
    token: Option<Seq<char>>,
    slot: Option<Seq<char>>,
    stored: Result<String, E>,
)
    requires
        read_from(stored, write_for(token).applied(slot)),
    ensures
        loaded_from(stored) == token,
{
}

} // verus!
