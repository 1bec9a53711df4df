//! The tables of the store as mathematical values, and what each request
//! does to them.

use crate::store::{
    EditorRow, StoreAnswer, StoreCommand, SubscriberRow, SubscriptionStatus, TokenRow,
};
use vstd::prelude::*;

verus! {

/// The content of the store: the committed rows of its three tables, and
/// the rows that an open transaction has written and not yet committed.
pub struct Tables {
    pub subscribers: Seq<SubscriberRow>,
    pub tokens: Seq<TokenRow>,
    pub editors: Seq<EditorRow>,
    pub in_transaction: bool,
    pub staged_subscribers: Seq<SubscriberRow>,
    pub staged_tokens: Seq<TokenRow>,
}

/// Whether a row of `rows` has the id `id`.
pub open spec fn has_subscriber(rows: Seq<SubscriberRow>, id: u128) -> bool {
    exists|i: int| 0 <= i < rows.len() && (#[trigger] rows[i]).id == id
}

/// Whether no two rows of `rows` share an id.
pub open spec fn distinct_ids(rows: Seq<SubscriberRow>) -> bool {
    forall|i: int, j: int|
        0 <= i < j < rows.len() ==> (#[trigger] rows[i]).id != (#[trigger] rows[j]).id
}

/// Whether every token of `tokens` belongs to a subscriber in `rows`.
pub open spec fn tokens_refer_to(tokens: Seq<TokenRow>, rows: Seq<SubscriberRow>) -> bool {
    forall|i: int|
        0 <= i < tokens.len() ==> has_subscriber(rows, (#[trigger] tokens[i]).subscriber_id)
}

/// Whether `i` is the place of the first row of `tokens` that holds
/// `token`.
pub open spec fn token_found_at(tokens: Seq<TokenRow>, token: Seq<char>, i: int) -> bool {
    &&& 0 <= i < tokens.len()
    &&& tokens[i].token == token
    &&& forall|j: int| 0 <= j < i ==> (#[trigger] tokens[j]).token != token
}

/// The subscriber of the first row of `tokens` that holds `token`.
pub open spec fn subscriber_of_token(tokens: Seq<TokenRow>, token: Seq<char>) -> Option<u128> {
    if exists|i: int| token_found_at(tokens, token, i) {
        Some(tokens[choose|i: int| token_found_at(tokens, token, i)].subscriber_id)
    } else {
        None
    }
}

/// Whether `i` is the place of the first row of `editors` with the
/// username `username`.
pub open spec fn editor_found_at(editors: Seq<EditorRow>, username: Seq<char>, i: int) -> bool {
    &&& 0 <= i < editors.len()
    &&& editors[i].username == username
    &&& forall|j: int| 0 <= j < i ==> (#[trigger] editors[j]).username != username
}

/// The first row of `editors` with the username `username`.
pub open spec fn editor_named(editors: Seq<EditorRow>, username: Seq<char>) -> Option<EditorRow> {
    if exists|i: int| editor_found_at(editors, username, i) {
        Some(editors[choose|i: int| editor_found_at(editors, username, i)])
    } else {
        None
    }
}

/// The row `row` with the status confirmed.
pub open spec fn confirmed_row(row: SubscriberRow) -> SubscriberRow {
    SubscriberRow { status: SubscriptionStatus::Confirmed, ..row }
}

/// The rows `rows` after the subscriber `id` was confirmed.
pub open spec fn with_confirmed(rows: Seq<SubscriberRow>, id: u128) -> Seq<SubscriberRow> {
    Seq::new(
        rows.len(),
        |i: int|
            if rows[i].id == id {
                confirmed_row(rows[i])
            } else {
                rows[i]
            },
    )
}

/// The addresses of the confirmed rows of `rows`, in their order.
pub open spec fn confirmed_emails(rows: Seq<SubscriberRow>) -> Seq<Seq<char>> {
    rows.filter(|row: SubscriberRow| row.status == SubscriptionStatus::Confirmed).map_values(
        |row: SubscriberRow| row.email,
    )
}

/// The listing of `rows` and one more row is the listing of `rows`, with
/// the address of the new row at its end if that row is confirmed.
pub proof fn lemma_listing_after_push(rows: Seq<SubscriberRow>, row: SubscriberRow)
    ensures
        confirmed_emails(rows.push(row)) == if row.status == SubscriptionStatus::Confirmed {
            confirmed_emails(rows).push(row.email)
        } else {
            confirmed_emails(rows)
        },
{
    reveal(Seq::filter);
    assert(rows.push(row).drop_last() =~= rows);
    let keep = |row: SubscriberRow| row.status == SubscriptionStatus::Confirmed;
    let email = |row: SubscriberRow| row.email;
    if row.status == SubscriptionStatus::Confirmed {
        assert(rows.push(row).filter(keep) == rows.filter(keep).push(row));
        assert(rows.filter(keep).push(row).map_values(email) =~= rows.filter(keep).map_values(
            email,
        ).push(row.email));
    }
}

/// What the store says when a statement of a transaction comes and none is
/// open.
pub open spec fn no_transaction() -> Seq<char> {
    "no transaction is open"@
}

/// What the store says when a transaction is opened inside another.
pub open spec fn already_in_transaction() -> Seq<char> {
    "a transaction is already open"@
}

/// What the store says when a subscriber's id is taken.
pub open spec fn duplicate_id() -> Seq<char> {
    "a subscriber with this id exists"@
}

/// What the store says when a token names a subscriber that is not there.
pub open spec fn unknown_subscriber() -> Seq<char> {
    "no subscriber has this id"@
}

impl Tables {
    /// The store with nothing in it.
    pub open spec fn empty() -> Tables {
        Tables {
            subscribers: Seq::empty(),
            tokens: Seq::empty(),
            editors: Seq::empty(),
            in_transaction: false,
            staged_subscribers: Seq::empty(),
            staged_tokens: Seq::empty(),
        }
    }

    /// The subscribers that a statement inside the transaction sees.
    pub open spec fn visible_subscribers(self) -> Seq<SubscriberRow> {
        self.subscribers + self.staged_subscribers
    }

    /// Ids are unique, every token belongs to a subscriber, and nothing is
    /// staged outside a transaction.
    pub open spec fn wf(self) -> bool {
        &&& distinct_ids(self.visible_subscribers())
        &&& tokens_refer_to(self.tokens, self.subscribers)
        &&& tokens_refer_to(self.staged_tokens, self.visible_subscribers())
        &&& !self.in_transaction ==> self.staged_subscribers.len() == 0 && self.staged_tokens.len()
            == 0
    }

    /// The store without its open transaction, if it has one.
    pub open spec fn rolled_back(self) -> Tables {
        Tables {
            in_transaction: false,
            staged_subscribers: Seq::empty(),
            staged_tokens: Seq::empty(),
            ..self
        }
    }

    /// The store after `command`.
    pub open spec fn after(self, command: StoreCommand) -> Tables {
        match command {
            StoreCommand::Begin => if self.in_transaction {
                self
            } else {
                Tables { in_transaction: true, ..self }
            },
            StoreCommand::InsertSubscriber(row) => if self.in_transaction && !has_subscriber(
                self.visible_subscribers(),
                row.id,
            ) {
                Tables { staged_subscribers: self.staged_subscribers.push(row), ..self }
            } else {
                self
            },
            StoreCommand::StoreToken(row) => if self.in_transaction && has_subscriber(
                self.visible_subscribers(),
                row.subscriber_id,
            ) {
                Tables { staged_tokens: self.staged_tokens.push(row), ..self }
            } else {
                self
            },
            StoreCommand::Commit => if self.in_transaction {
                Tables {
                    subscribers: self.subscribers + self.staged_subscribers,
                    tokens: self.tokens + self.staged_tokens,
                    ..self.rolled_back()
                }
            } else {
                self
            },
            StoreCommand::Rollback => self.rolled_back(),
            StoreCommand::ConfirmSubscriber(id) => Tables {
                subscribers: with_confirmed(self.subscribers, id),
                ..self
            },
            StoreCommand::FindSubscriberByToken(_) => self,
            StoreCommand::FindEditor(_) => self,
            StoreCommand::ListConfirmedEmails => self,
        }
    }

    /// What the store answers to `command`.
    pub open spec fn answer(self, command: StoreCommand) -> StoreAnswer {
        match command {
            StoreCommand::Begin => if self.in_transaction {
                StoreAnswer::Failed(already_in_transaction())
            } else {
                StoreAnswer::Done
            },
            StoreCommand::InsertSubscriber(row) => if !self.in_transaction {
                StoreAnswer::Failed(no_transaction())
            } else if has_subscriber(self.visible_subscribers(), row.id) {
                StoreAnswer::Failed(duplicate_id())
            } else {
                StoreAnswer::Done
            },
            StoreCommand::StoreToken(row) => if !self.in_transaction {
                StoreAnswer::Failed(no_transaction())
            } else if !has_subscriber(self.visible_subscribers(), row.subscriber_id) {
                StoreAnswer::Failed(unknown_subscriber())
            } else {
                StoreAnswer::Done
            },
            StoreCommand::Commit => if self.in_transaction {
                StoreAnswer::Done
            } else {
                StoreAnswer::Failed(no_transaction())
            },
            StoreCommand::Rollback => StoreAnswer::Done,
            StoreCommand::ConfirmSubscriber(_) => StoreAnswer::Done,
            StoreCommand::FindSubscriberByToken(token) => StoreAnswer::SubscriberId(
                subscriber_of_token(self.tokens, token),
            ),
            StoreCommand::FindEditor(username) => StoreAnswer::Editor(
                editor_named(self.editors, username),
            ),
            StoreCommand::ListConfirmedEmails => StoreAnswer::Emails(
                confirmed_emails(self.subscribers),
            ),
        }
    }
}

/// Every request leaves a well-formed store well formed: ids stay unique
/// and no token is left without its subscriber.
pub proof fn lemma_requests_keep_the_store_well_formed(tables: Tables, command: StoreCommand)
    requires
        tables.wf(),
    ensures
        tables.after(command).wf(),
{
    let next = tables.after(command);
    let seen = tables.visible_subscribers();
    match command {
        StoreCommand::InsertSubscriber(row) => {
            if tables.in_transaction && !has_subscriber(seen, row.id) {
                assert(next.visible_subscribers() =~= seen.push(row));
                assert forall|i: int| 0 <= i < next.staged_tokens.len() implies has_subscriber(
                    next.visible_subscribers(),
                    (#[trigger] next.staged_tokens[i]).subscriber_id,
                ) by {
                    lemma_has_subscriber_after_push(seen, row, next.staged_tokens[i].subscriber_id);
                }
            }
        },
        StoreCommand::StoreToken(row) => {},
        StoreCommand::Commit => {
            if tables.in_transaction {
                assert(next.visible_subscribers() =~= seen);
                assert forall|i: int| 0 <= i < next.tokens.len() implies has_subscriber(
                    next.subscribers,
                    (#[trigger] next.tokens[i]).subscriber_id,
                ) by {
                    if i < tables.tokens.len() {
                        let id = tables.tokens[i].subscriber_id;
                        let k = choose|k: int|
                            0 <= k < tables.subscribers.len() && (
                            #[trigger] tables.subscribers[k]).id == id;
                        assert(seen[k].id == id);
                    } else {
                        assert(next.tokens[i] == tables.staged_tokens[i - tables.tokens.len()]);
                    }
                }
            }
        },
        StoreCommand::Rollback => {
            assert(next.visible_subscribers() =~= tables.subscribers);
            assert forall|i: int, j: int| 0 <= i < j < tables.subscribers.len() implies (
            #[trigger] tables.subscribers[i]).id != (#[trigger] tables.subscribers[j]).id by {
                assert(seen[i].id != seen[j].id);
            }
        },
        StoreCommand::ConfirmSubscriber(id) => {
            let rows = with_confirmed(tables.subscribers, id);
            assert forall|i: int, j: int|
                0 <= i < j < next.visible_subscribers().len() implies (
            #[trigger] next.visible_subscribers()[i]).id != (
            #[trigger] next.visible_subscribers()[j]).id by {
                assert(next.visible_subscribers()[i].id == seen[i].id);
                assert(next.visible_subscribers()[j].id == seen[j].id);
            }
            assert forall|wanted: u128| has_subscriber(tables.subscribers, wanted)
                implies has_subscriber(rows, wanted) by {
                let k = choose|k: int|
                    0 <= k < tables.subscribers.len() && (#[trigger] tables.subscribers[k]).id
                        == wanted;
                assert(rows[k].id == wanted);
            }
            assert forall|wanted: u128| has_subscriber(seen, wanted) implies has_subscriber(
                next.visible_subscribers(),
                wanted,
            ) by {
                let k = choose|k: int| 0 <= k < seen.len() && (#[trigger] seen[k]).id == wanted;
                assert(next.visible_subscribers()[k].id == wanted);
            }
        },
        _ => {},
    }
}

/// A subscriber found among `rows` is still found after another row was
/// added.
pub proof fn lemma_has_subscriber_after_push(rows: Seq<SubscriberRow>, row: SubscriberRow, id: u128)
    requires
        has_subscriber(rows, id),
    ensures
        has_subscriber(rows.push(row), id),
{
    let k = choose|k: int| 0 <= k < rows.len() && (#[trigger] rows[k]).id == id;
    assert(rows.push(row)[k].id == id);
}

/// No request removes a committed subscriber or changes who it is, and a
/// subscriber that is confirmed stays confirmed: the status only ever
/// moves from pending to confirmed.
pub proof fn lemma_subscribers_stay_and_stay_confirmed(
    tables: Tables,
    command: StoreCommand,
    i: int,
)
    requires
        0 <= i < tables.subscribers.len(),
    ensures
        i < tables.after(command).subscribers.len(),
        tables.after(command).subscribers[i].id == tables.subscribers[i].id,
        tables.after(command).subscribers[i].email == tables.subscribers[i].email,
        tables.after(command).subscribers[i].name == tables.subscribers[i].name,
        tables.after(command).subscribers[i].subscribed_at == tables.subscribers[i].subscribed_at,
        tables.subscribers[i].status == SubscriptionStatus::Confirmed ==> tables.after(
            command,
        ).subscribers[i].status == SubscriptionStatus::Confirmed,
{
}

/// Confirming marks every row of the subscriber as confirmed and leaves
/// the rows of the others as they were.
pub proof fn lemma_confirming_confirms(tables: Tables, id: u128, i: int)
    requires
        0 <= i < tables.subscribers.len(),
    ensures
        tables.after(StoreCommand::ConfirmSubscriber(id)).subscribers.len()
            == tables.subscribers.len(),
        tables.subscribers[i].id == id ==> tables.after(
            StoreCommand::ConfirmSubscriber(id),
        ).subscribers[i] == confirmed_row(tables.subscribers[i]),
        tables.subscribers[i].id != id ==> tables.after(
            StoreCommand::ConfirmSubscriber(id),
        ).subscribers[i] == tables.subscribers[i],
        tables.after(StoreCommand::ConfirmSubscriber(id)).tokens == tables.tokens,
        tables.answer(StoreCommand::ConfirmSubscriber(id)) == StoreAnswer::Done,
{
}

/// Confirming a subscriber a second time changes nothing and succeeds
/// again.
pub proof fn lemma_confirming_is_idempotent(tables: Tables, id: u128)
    ensures
        tables.after(StoreCommand::ConfirmSubscriber(id)).after(
            StoreCommand::ConfirmSubscriber(id),
        ) == tables.after(StoreCommand::ConfirmSubscriber(id)),
        tables.after(StoreCommand::ConfirmSubscriber(id)).answer(
            StoreCommand::ConfirmSubscriber(id),
        ) == StoreAnswer::Done,
{
    let once = with_confirmed(tables.subscribers, id);
    assert(with_confirmed(once, id) =~= once);
}

/// Looking something up changes nothing in the store.
pub proof fn lemma_lookups_change_nothing(tables: Tables, command: StoreCommand)
    requires
        command is FindSubscriberByToken || command is FindEditor
            || command is ListConfirmedEmails,
    ensures
        tables.after(command) == tables,
{
}

/// A token that no row holds belongs to nobody.
pub proof fn lemma_unknown_token_finds_nobody(tables: Tables, token: Seq<char>)
    requires
        forall|i: int| 0 <= i < tables.tokens.len() ==> (#[trigger] tables.tokens[i]).token != token,
    ensures
        tables.answer(StoreCommand::FindSubscriberByToken(token)) == StoreAnswer::SubscriberId(
            None,
        ),
{
}

/// The committed rows change only when a transaction commits or a
/// subscriber is confirmed: what a transaction writes stays out of sight
/// until then.
pub proof fn lemma_only_commit_and_confirm_change_committed_rows(
    tables: Tables,
    command: StoreCommand,
)
    requires
        !(command is Commit),
        !(command is ConfirmSubscriber),
    ensures
        tables.after(command).subscribers == tables.subscribers,
        tables.after(command).tokens == tables.tokens,
        tables.after(command).editors == tables.editors,
{
}

/// A transaction that is rolled back leaves the store as it was before
/// the transaction began, whatever was written in between.
pub proof fn lemma_rollback_undoes_the_transaction(
    tables: Tables,
    subscriber: SubscriberRow,
    token: TokenRow,
)
    requires
        tables.wf(),
        !tables.in_transaction,
    ensures
        tables.after(StoreCommand::Begin).after(StoreCommand::InsertSubscriber(subscriber)).after(
            StoreCommand::StoreToken(token),
        ).after(StoreCommand::Rollback) == tables,
        tables.after(StoreCommand::Begin).after(StoreCommand::InsertSubscriber(subscriber)).after(
            StoreCommand::Rollback,
        ) == tables,
        tables.after(StoreCommand::Begin).after(StoreCommand::Rollback) == tables,
{
    assert(tables.staged_subscribers =~= Seq::empty());
    assert(tables.staged_tokens =~= Seq::empty());
}

/// A transaction that inserts a new subscriber and a token for it, and
/// commits, adds exactly those two rows: every step succeeds, and the
/// store holds one subscriber and one token more.
pub proof fn lemma_commit_adds_the_pair(tables: Tables, subscriber: SubscriberRow, token: TokenRow)
    requires
        tables.wf(),
        !tables.in_transaction,
        !has_subscriber(tables.subscribers, subscriber.id),
        token.subscriber_id == subscriber.id,
    ensures
        ({
            let opened = tables.after(StoreCommand::Begin);
            let inserted = opened.after(StoreCommand::InsertSubscriber(subscriber));
            let stored = inserted.after(StoreCommand::StoreToken(token));
            let committed = stored.after(StoreCommand::Commit);
            &&& tables.answer(StoreCommand::Begin) == StoreAnswer::Done
            &&& opened.answer(StoreCommand::InsertSubscriber(subscriber)) == StoreAnswer::Done
            &&& inserted.answer(StoreCommand::StoreToken(token)) == StoreAnswer::Done
            &&& stored.answer(StoreCommand::Commit) == StoreAnswer::Done
            &&& committed == Tables {
                subscribers: tables.subscribers.push(subscriber),
                tokens: tables.tokens.push(token),
                ..tables
            }
        }),
{
    assert(tables.staged_subscribers =~= Seq::empty());
    assert(tables.staged_tokens =~= Seq::empty());
    let opened = tables.after(StoreCommand::Begin);
    assert(opened.visible_subscribers() =~= tables.subscribers);
    let inserted = opened.after(StoreCommand::InsertSubscriber(subscriber));
    assert(inserted.visible_subscribers() =~= tables.subscribers.push(subscriber));
    assert(inserted.visible_subscribers()[tables.subscribers.len() as int].id == subscriber.id);
    let stored = inserted.after(StoreCommand::StoreToken(token));
    let committed = stored.after(StoreCommand::Commit);
    assert(committed.subscribers =~= tables.subscribers.push(subscriber));
    assert(committed.tokens =~= tables.tokens.push(token));
    assert(committed.staged_subscribers =~= tables.staged_subscribers);
    assert(committed.staged_tokens =~= tables.staged_tokens);
}

/// The listing of confirmed addresses holds the address of a subscriber
/// only if the subscriber is confirmed.
pub proof fn lemma_listing_holds_confirmed_only(rows: Seq<SubscriberRow>, k: int)
    requires
        0 <= k < confirmed_emails(rows).len(),
    ensures
        exists|i: int|
            0 <= i < rows.len() && (#[trigger] rows[i]).status == SubscriptionStatus::Confirmed
                && rows[i].email == confirmed_emails(rows)[k],
{
    let keep = |row: SubscriberRow| row.status == SubscriptionStatus::Confirmed;
    let kept = rows.filter(keep);
    rows.lemma_filter_contains_rev(keep, kept[k]);
    let row = kept[k];
    assert(rows.contains(row));
    let i = choose|i: int| 0 <= i < rows.len() && rows[i] == row;
    assert(rows[i].status == SubscriptionStatus::Confirmed);
}

} // verus!
