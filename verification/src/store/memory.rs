//! A store that keeps its tables in memory and answers every request as
//! the model says.

use crate::store::model::{
    confirmed_emails, editor_found_at, has_subscriber, lemma_listing_after_push,
    lemma_requests_keep_the_store_well_formed, token_found_at, with_confirmed, Tables,
};
use crate::store::{
    editor_rows, subscriber_rows, token_rows, EditorRecord, StoreReply, StoreRequest,
    SubscriberRecord, SubscriptionStatus, TokenRecord,
};
use crate::text::texts;
use vstd::prelude::*;
use vstd::string::StringExecFns;

verus! {

/// The tables of the store, in memory.  It serves one connection: at most
/// one transaction is open at a time.
#[derive(Debug, PartialEq, Eq)]
pub struct MemoryStore {
    subscribers: Vec<SubscriberRecord>,
    tokens: Vec<TokenRecord>,
    editors: Vec<EditorRecord>,
    in_transaction: bool,
    staged_subscribers: Vec<SubscriberRecord>,
    staged_tokens: Vec<TokenRecord>,
}

impl View for MemoryStore {
    type V = Tables;

    closed spec fn view(&self) -> Tables {
        Tables {
            subscribers: subscriber_rows(self.subscribers@),
            tokens: token_rows(self.tokens@),
            editors: editor_rows(self.editors@),
            in_transaction: self.in_transaction,
            staged_subscribers: subscriber_rows(self.staged_subscribers@),
            staged_tokens: token_rows(self.staged_tokens@),
        }
    }
}

fn contains_id(rows: &Vec<SubscriberRecord>, id: u128) -> (found: bool)
    ensures
        found == has_subscriber(subscriber_rows(rows@), id),
{
    let mut i: usize = 0;
    while i < rows.len()
        invariant
            0 <= i <= rows.len(),
            forall|j: int| 0 <= j < i ==> (#[trigger] subscriber_rows(rows@)[j]).id != id,
        decreases rows.len() - i,
    {
        if rows[i].id == id {
            assert(subscriber_rows(rows@)[i as int].id == id);
            return true;
        }
        i += 1;
    }
    false
}

proof fn lemma_has_subscriber_in_either(a: Seq<crate::store::SubscriberRow>, b: Seq<
    crate::store::SubscriberRow,
>, id: u128)
    ensures
        has_subscriber(a + b, id) == (has_subscriber(a, id) || has_subscriber(b, id)),
{
    if has_subscriber(a, id) {
        let k = choose|k: int| 0 <= k < a.len() && (#[trigger] a[k]).id == id;
        assert((a + b)[k].id == id);
    }
    if has_subscriber(b, id) {
        let k = choose|k: int| 0 <= k < b.len() && (#[trigger] b[k]).id == id;
        assert((a + b)[a.len() + k].id == id);
    }
    if has_subscriber(a + b, id) {
        let k = choose|k: int| 0 <= k < (a + b).len() && (#[trigger] (a + b)[k]).id == id;
        if k < a.len() {
            assert(a[k].id == id);
        } else {
            assert(b[k - a.len()].id == id);
        }
    }
}

fn find_subscriber(tokens: &Vec<TokenRecord>, token: &String) -> (found: Option<u128>)
    ensures
        found == crate::store::model::subscriber_of_token(token_rows(tokens@), token@),
{
    let ghost rows = token_rows(tokens@);
    let mut i: usize = 0;
    while i < tokens.len()
        invariant
            0 <= i <= tokens.len(),
            rows == token_rows(tokens@),
            forall|j: int| 0 <= j < i ==> (#[trigger] rows[j]).token != token@,
        decreases tokens.len() - i,
    {
        if tokens[i].token == *token {
            proof {
                assert(token_found_at(rows, token@, i as int));
                let k = choose|k: int| token_found_at(rows, token@, k);
                assert(k == i);
            }
            return Some(tokens[i].subscriber_id);
        }
        i += 1;
    }
    None
}

fn find_editor(editors: &Vec<EditorRecord>, username: &String) -> (found: Option<EditorRecord>)
    ensures
        (match found {
            Some(row) => Some(row@),
            None => None,
        }) == crate::store::model::editor_named(editor_rows(editors@), username@),
{
    let ghost rows = editor_rows(editors@);
    let mut i: usize = 0;
    while i < editors.len()
        invariant
            0 <= i <= editors.len(),
            rows == editor_rows(editors@),
            forall|j: int| 0 <= j < i ==> (#[trigger] rows[j]).username != username@,
        decreases editors.len() - i,
    {
        if editors[i].username == *username {
            proof {
                assert(editor_found_at(rows, username@, i as int));
                let k = choose|k: int| editor_found_at(rows, username@, k);
                assert(k == i);
            }
            return Some(editors[i].duplicate());
        }
        i += 1;
    }
    None
}

fn confirm_rows(rows: &mut Vec<SubscriberRecord>, id: u128)
    ensures
        subscriber_rows(final(rows)@) == with_confirmed(subscriber_rows(old(rows)@), id),
{
    let ghost before = subscriber_rows(rows@);
    let mut i: usize = 0;
    while i < rows.len()
        invariant
            0 <= i <= rows.len(),
            rows.len() == before.len(),
            forall|j: int| 0 <= j < i ==> (#[trigger] subscriber_rows(rows@)[j]) == with_confirmed(
                before,
                id,
            )[j],
            forall|j: int| i <= j < rows.len() ==> (#[trigger] subscriber_rows(rows@)[j])
                == before[j],
        decreases rows.len() - i,
    {
        let ghost earlier = rows@;
        assert(subscriber_rows(earlier)[i as int] == before[i as int]);
        if rows[i].id == id {
            let mut row = rows[i].duplicate();
            row.status = SubscriptionStatus::Confirmed;
            rows.set(i, row);
        }
        proof {
            assert forall|j: int| 0 <= j < rows.len() && j != i implies (#[trigger] subscriber_rows(
                rows@,
            )[j]) == subscriber_rows(earlier)[j] by {
                assert(rows@[j] == earlier[j]);
            }
            assert(subscriber_rows(rows@)[i as int] == with_confirmed(before, id)[i as int]);
        }
        i += 1;
    }
    assert(subscriber_rows(rows@) =~= with_confirmed(before, id));
}

fn list_confirmed(rows: &Vec<SubscriberRecord>) -> (emails: Vec<String>)
    ensures
        texts(emails@) == confirmed_emails(subscriber_rows(rows@)),
{
    let ghost all = subscriber_rows(rows@);
    let mut emails: Vec<String> = Vec::new();
    let mut i: usize = 0;
    proof {
        reveal(Seq::filter);
        assert(all.take(0) =~= Seq::empty());
        assert(texts(emails@) =~= confirmed_emails(all.take(0)));
    }
    while i < rows.len()
        invariant
            0 <= i <= rows.len(),
            all == subscriber_rows(rows@),
            texts(emails@) == confirmed_emails(all.take(i as int)),
        decreases rows.len() - i,
    {
        proof {
            lemma_listing_after_push(all.take(i as int), all[i as int]);
            assert(all.take(i + 1) =~= all.take(i as int).push(all[i as int]));
        }
        if rows[i].status == SubscriptionStatus::Confirmed {
            let ghost listed = emails@;
            emails.push(rows[i].email.clone());
            assert(texts(emails@) =~= texts(listed).push(rows[i as int].email@));
        }
        i += 1;
    }
    assert(all.take(rows.len() as int) =~= all);
    emails
}

impl MemoryStore {
    /// A store with empty tables.
    pub fn new() -> (store: Self)
        ensures
            store@ == Tables::empty(),
            store@.wf(),
    {
        let store = MemoryStore {
            subscribers: Vec::new(),
            tokens: Vec::new(),
            editors: Vec::new(),
            in_transaction: false,
            staged_subscribers: Vec::new(),
            staged_tokens: Vec::new(),
        };
        proof {
            assert(store@.subscribers =~= Seq::empty());
            assert(store@.tokens =~= Seq::empty());
            assert(store@.editors =~= Seq::empty());
            assert(store@.staged_subscribers =~= Seq::empty());
            assert(store@.staged_tokens =~= Seq::empty());
            assert(store@.visible_subscribers() =~= Seq::empty());
        }
        store
    }

    /// Adds an editor to the editors table.
    pub fn add_editor(&mut self, editor: EditorRecord)
        ensures
            final(self)@ == (Tables { editors: old(self)@.editors.push(editor@), ..old(self)@ }),
    {
        self.editors.push(editor);
        assert(editor_rows(self.editors@) =~= editor_rows(old(self).editors@).push(editor@));
    }

    /// The committed rows of the subscriptions table.
    pub fn subscribers(&self) -> (rows: &Vec<SubscriberRecord>)
        ensures
            subscriber_rows(rows@) == self@.subscribers,
    {
        &self.subscribers
    }

    /// The committed rows of the tokens table.
    pub fn tokens(&self) -> (rows: &Vec<TokenRecord>)
        ensures
            token_rows(rows@) == self@.tokens,
    {
        &self.tokens
    }

    /// Executes `request` and answers it as the model says; a store that
    /// was well formed stays so.
    pub fn execute(&mut self, request: StoreRequest) -> (reply: StoreReply)
        ensures
            final(self)@ == old(self)@.after(request@),
            reply@ == old(self)@.answer(request@),
            old(self)@.wf() ==> final(self)@.wf(),
    {
        proof {
            if self@.wf() {
                lemma_requests_keep_the_store_well_formed(self@, request@);
            }
            lemma_has_subscriber_in_either(
                self@.subscribers,
                self@.staged_subscribers,
                match request@ {
                    crate::store::StoreCommand::InsertSubscriber(row) => row.id,
                    crate::store::StoreCommand::StoreToken(row) => row.subscriber_id,
                    _ => 0,
                },
            );
        }
        match request {
            StoreRequest::Begin => {
                if self.in_transaction {
                    StoreReply::Failed(String::from_str("a transaction is already open"))
                } else {
                    self.in_transaction = true;
                    StoreReply::Done
                }
            },
            StoreRequest::InsertSubscriber(row) => {
                if !self.in_transaction {
                    StoreReply::Failed(String::from_str("no transaction is open"))
                } else if contains_id(&self.subscribers, row.id) || contains_id(
                    &self.staged_subscribers,
                    row.id,
                ) {
                    StoreReply::Failed(String::from_str("a subscriber with this id exists"))
                } else {
                    self.staged_subscribers.push(row);
                    assert(subscriber_rows(self.staged_subscribers@) =~= subscriber_rows(
                        old(self).staged_subscribers@,
                    ).push(row@));
                    StoreReply::Done
                }
            },
            StoreRequest::StoreToken(row) => {
                if !self.in_transaction {
                    StoreReply::Failed(String::from_str("no transaction is open"))
                } else if !(contains_id(&self.subscribers, row.subscriber_id) || contains_id(
                    &self.staged_subscribers,
                    row.subscriber_id,
                )) {
                    StoreReply::Failed(String::from_str("no subscriber has this id"))
                } else {
                    self.staged_tokens.push(row);
                    assert(token_rows(self.staged_tokens@) =~= token_rows(
                        old(self).staged_tokens@,
                    ).push(row@));
                    StoreReply::Done
                }
            },
            StoreRequest::Commit => {
                if self.in_transaction {
                    self.subscribers.append(&mut self.staged_subscribers);
                    self.tokens.append(&mut self.staged_tokens);
                    self.in_transaction = false;
                    proof {
                        assert(subscriber_rows(self.subscribers@) =~= old(self)@.subscribers + old(
                            self,
                        )@.staged_subscribers);
                        assert(token_rows(self.tokens@) =~= old(self)@.tokens + old(
                            self,
                        )@.staged_tokens);
                        assert(subscriber_rows(self.staged_subscribers@) =~= Seq::empty());
                        assert(token_rows(self.staged_tokens@) =~= Seq::empty());
                    }
                    StoreReply::Done
                } else {
                    StoreReply::Failed(String::from_str("no transaction is open"))
                }
            },
            StoreRequest::Rollback => {
                self.staged_subscribers = Vec::new();
                self.staged_tokens = Vec::new();
                self.in_transaction = false;
                proof {
                    assert(subscriber_rows(self.staged_subscribers@) =~= Seq::empty());
                    assert(token_rows(self.staged_tokens@) =~= Seq::empty());
                }
                StoreReply::Done
            },
            StoreRequest::FindSubscriberByToken(token) => StoreReply::SubscriberId(
                find_subscriber(&self.tokens, &token),
            ),
            StoreRequest::ConfirmSubscriber(id) => {
                confirm_rows(&mut self.subscribers, id);
                StoreReply::Done
            },
            StoreRequest::FindEditor(username) => StoreReply::Editor(
                find_editor(&self.editors, &username),
            ),
            StoreRequest::ListConfirmedEmails => StoreReply::Emails(
                list_confirmed(&self.subscribers),
            ),
        }
    }
}

} // verus!
