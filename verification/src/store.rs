//! The rows that the relational store keeps, and the requests that the
//! workflows make to it.

pub mod memory;
pub mod model;

use crate::text::texts;
use vstd::prelude::*;

verus! {

/// Where a subscriber stands: a signup waits for its confirmation, and
/// once confirmed it stays so.
#[derive(Clone, Copy, Debug, PartialEq, Eq, Structural)]
pub enum SubscriptionStatus {
    PendingConfirmation,
    Confirmed,
}

impl SubscriptionStatus {
    pub open spec fn text(&self) -> Seq<char> {
        match self {
            SubscriptionStatus::PendingConfirmation => "pending_confirmation"@,
            SubscriptionStatus::Confirmed => "confirmed"@,
        }
    }

    /// The status as the store spells it.
    pub fn as_str(&self) -> (s: &'static str)
        ensures
            s@ == self.text(),
    {
        match self {
            SubscriptionStatus::PendingConfirmation => "pending_confirmation",
            SubscriptionStatus::Confirmed => "confirmed",
        }
    }
}

/// A row of the subscriptions table.  `subscribed_at` counts microseconds
/// since the Unix epoch.
#[derive(Debug, PartialEq, Eq)]
pub struct SubscriberRecord {
    pub id: u128,
    pub email: String,
    pub name: String,
    pub subscribed_at: i64,
    pub status: SubscriptionStatus,
}

/// What a `SubscriberRecord` holds.
pub struct SubscriberRow {
    pub id: u128,
    pub email: Seq<char>,
    pub name: Seq<char>,
    pub subscribed_at: i64,
    pub status: SubscriptionStatus,
}

impl View for SubscriberRecord {
    type V = SubscriberRow;

    open spec fn view(&self) -> SubscriberRow {
        SubscriberRow {
            id: self.id,
            email: self.email@,
            name: self.name@,
            subscribed_at: self.subscribed_at,
            status: self.status,
        }
    }
}

impl SubscriberRecord {
    /// A copy of this row.
    pub fn duplicate(&self) -> (copy: Self)
        ensures
            copy@ == self@,
    {
        SubscriberRecord {
            id: self.id,
            email: self.email.clone(),
            name: self.name.clone(),
            subscribed_at: self.subscribed_at,
            status: self.status,
        }
    }
}

/// A row of the subscription tokens table.
#[derive(Debug, PartialEq, Eq)]
pub struct TokenRecord {
    pub token: String,
    pub subscriber_id: u128,
}

/// What a `TokenRecord` holds.
pub struct TokenRow {
    pub token: Seq<char>,
    pub subscriber_id: u128,
}

impl View for TokenRecord {
    type V = TokenRow;

    open spec fn view(&self) -> TokenRow {
        TokenRow { token: self.token@, subscriber_id: self.subscriber_id }
    }
}

/// A row of the editors table: who may publish, and the PHC string of the
/// password's hash.
#[derive(Debug, PartialEq, Eq)]
pub struct EditorRecord {
    pub user_id: u128,
    pub username: String,
    pub password_hash: String,
}

/// What an `EditorRecord` holds.
pub struct EditorRow {
    pub user_id: u128,
    pub username: Seq<char>,
    pub password_hash: Seq<char>,
}

impl View for EditorRecord {
    type V = EditorRow;

    open spec fn view(&self) -> EditorRow {
        EditorRow {
            user_id: self.user_id,
            username: self.username@,
            password_hash: self.password_hash@,
        }
    }
}

impl EditorRecord {
    /// A copy of this row.
    pub fn duplicate(&self) -> (copy: Self)
        ensures
            copy@ == self@,
    {
        EditorRecord {
            user_id: self.user_id,
            username: self.username.clone(),
            password_hash: self.password_hash.clone(),
        }
    }
}

/// What a list of subscriber records holds.
pub open spec fn subscriber_rows(records: Seq<SubscriberRecord>) -> Seq<SubscriberRow> {
    records.map_values(|record: SubscriberRecord| record@)
}

/// What a list of token records holds.
pub open spec fn token_rows(records: Seq<TokenRecord>) -> Seq<TokenRow> {
    records.map_values(|record: TokenRecord| record@)
}

/// What a list of editor records holds.
pub open spec fn editor_rows(records: Seq<EditorRecord>) -> Seq<EditorRow> {
    records.map_values(|record: EditorRecord| record@)
}

/// One request to the store.  The first five belong to a transaction;
/// the others are single statements outside any transaction.
#[derive(Debug, PartialEq, Eq)]
pub enum StoreRequest {
    /// Open a transaction.
    Begin,
    /// Insert a row into the subscriptions table, inside the transaction.
    InsertSubscriber(SubscriberRecord),
    /// Insert a row into the tokens table, inside the transaction.
    StoreToken(TokenRecord),
    /// Commit the transaction.
    Commit,
    /// Give the transaction up.
    Rollback,
    /// Look up the subscriber that a confirmation token belongs to.
    FindSubscriberByToken(String),
    /// Set the status of a subscriber to confirmed.
    ConfirmSubscriber(u128),
    /// Look up an editor by username.
    FindEditor(String),
    /// List the addresses of the confirmed subscribers.
    ListConfirmedEmails,
}

/// What a `StoreRequest` holds.
pub enum StoreCommand {
    Begin,
    InsertSubscriber(SubscriberRow),
    StoreToken(TokenRow),
    Commit,
    Rollback,
    FindSubscriberByToken(Seq<char>),
    ConfirmSubscriber(u128),
    FindEditor(Seq<char>),
    ListConfirmedEmails,
}

impl View for StoreRequest {
    type V = StoreCommand;

    open spec fn view(&self) -> StoreCommand {
        match self {
            StoreRequest::Begin => StoreCommand::Begin,
            StoreRequest::InsertSubscriber(row) => StoreCommand::InsertSubscriber(row@),
            StoreRequest::StoreToken(row) => StoreCommand::StoreToken(row@),
            StoreRequest::Commit => StoreCommand::Commit,
            StoreRequest::Rollback => StoreCommand::Rollback,
            StoreRequest::FindSubscriberByToken(token) => StoreCommand::FindSubscriberByToken(
                token@,
            ),
            StoreRequest::ConfirmSubscriber(id) => StoreCommand::ConfirmSubscriber(*id),
            StoreRequest::FindEditor(username) => StoreCommand::FindEditor(username@),
            StoreRequest::ListConfirmedEmails => StoreCommand::ListConfirmedEmails,
        }
    }
}

/// What the store answers to a request.
#[derive(Debug, PartialEq, Eq)]
pub enum StoreReply {
    /// The statement was executed.
    Done,
    /// The statement failed, with the store's own words.
    Failed(String),
    /// The subscriber that a token belongs to, if the token is known.
    SubscriberId(Option<u128>),
    /// The editor of a username, if there is one.
    Editor(Option<EditorRecord>),
    /// The addresses of the confirmed subscribers, as stored.
    Emails(Vec<String>),
}

/// What a `StoreReply` holds.
pub enum StoreAnswer {
    Done,
    Failed(Seq<char>),
    SubscriberId(Option<u128>),
    Editor(Option<EditorRow>),
    Emails(Seq<Seq<char>>),
}

impl View for StoreReply {
    type V = StoreAnswer;

    open spec fn view(&self) -> StoreAnswer {
        match self {
            StoreReply::Done => StoreAnswer::Done,
            StoreReply::Failed(cause) => StoreAnswer::Failed(cause@),
            StoreReply::SubscriberId(id) => StoreAnswer::SubscriberId(*id),
            StoreReply::Editor(editor) => StoreAnswer::Editor(
                match editor {
                    Some(row) => Some(row@),
                    None => None,
                },
            ),
            StoreReply::Emails(emails) => StoreAnswer::Emails(texts(emails@)),
        }
    }
}

impl StoreAnswer {
    /// The store's words on a failure; empty where the answer holds none.
    pub open spec fn cause(self) -> Seq<char> {
        match self {
            StoreAnswer::Failed(cause) => cause,
            _ => Seq::empty(),
        }
    }
}

impl StoreReply {
    /// The store's words on a failure; empty where the reply holds none.
    pub fn into_cause(self) -> (cause: String)
        ensures
            cause@ == self@.cause(),
    {
        match self {
            StoreReply::Failed(cause) => cause,
            _ => String::new(),
        }
    }
}

} // verus!
