//! Confirming a signup: the token of the confirmation link is looked up,
//! and the subscriber it belongs to is marked as confirmed.

use crate::error::{StorageContext, StorageError, StorageFault};
use crate::store::model::{
    lemma_confirming_is_idempotent, subscriber_of_token, with_confirmed, Tables,
};
use crate::store::{StoreAnswer, StoreCommand, StoreReply, StoreRequest, SubscriptionStatus};
use crate::workflow::{Effect, Outlook, Progress, Reply, Report, Task};
use vstd::prelude::*;

verus! {

/// The query of a confirmation link.
#[derive(Debug, PartialEq, Eq)]
pub struct Parameters {
    pub subscription_token: String,
}

/// Why a confirmation failed.
#[derive(Debug, PartialEq, Eq)]
pub enum ConfirmError {
    /// No subscriber has this token.
    UnknownToken,
    /// The store failed.
    StorageError(StorageError),
}

/// What a `ConfirmError` holds.
pub enum ConfirmFailure {
    UnknownToken,
    Storage(StorageFault),
}

impl View for ConfirmError {
    type V = ConfirmFailure;

    open spec fn view(&self) -> ConfirmFailure {
        match self {
            ConfirmError::UnknownToken => ConfirmFailure::UnknownToken,
            ConfirmError::StorageError(error) => ConfirmFailure::Storage(error@),
        }
    }
}

impl ConfirmError {
    /// The status that answers this error: 401 for a token that nobody
    /// has, 500 for a failure of the store.
    pub fn status_code(&self) -> (status: u16)
        ensures
            status == if self is UnknownToken {
                401u16
            } else {
                500u16
            },
    {
        match self {
            ConfirmError::UnknownToken => 401,
            ConfirmError::StorageError(_) => 500,
        }
    }
}

/// Where a confirmation stands, named after the request that the store
/// has not yet answered.
#[derive(Clone, Copy, Debug, PartialEq, Eq, Structural)]
pub enum ConfirmStage {
    /// The subscriber of the token is being looked up.
    Finding,
    /// The subscriber is being marked as confirmed.
    Confirming,
}

impl ConfirmStage {
    /// The step that the confirmation takes when the host reports `reply`.
    pub open spec fn next(self, reply: Report) -> Outlook<ConfirmStage, ConfirmFailure> {
        match self {
            ConfirmStage::Finding => match reply {
                Report::Store(StoreAnswer::SubscriberId(Some(id))) => Outlook::Continue(
                    ConfirmStage::Confirming,
                    Task::Store(StoreCommand::ConfirmSubscriber(id)),
                ),
                Report::Store(StoreAnswer::SubscriberId(None)) => Outlook::Finished(
                    Err(ConfirmFailure::UnknownToken),
                ),
                _ => Outlook::Finished(
                    Err(
                        ConfirmFailure::Storage(
                            StorageFault {
                                context: StorageContext::FindSubscriber,
                                cause: reply.cause(),
                            },
                        ),
                    ),
                ),
            },
            ConfirmStage::Confirming => if reply.done() {
                Outlook::Finished(Ok(()))
            } else {
                Outlook::Finished(
                    Err(
                        ConfirmFailure::Storage(
                            StorageFault {
                                context: StorageContext::ConfirmSubscriber,
                                cause: reply.cause(),
                            },
                        ),
                    ),
                )
            },
        }
    }
}

/// A confirmation under way.
#[derive(Debug, PartialEq, Eq)]
pub struct ConfirmFlow {
    stage: ConfirmStage,
}

impl View for ConfirmFlow {
    type V = ConfirmStage;

    closed spec fn view(&self) -> ConfirmStage {
        self.stage
    }
}

impl ConfirmFlow {
    /// Takes the next step of the confirmation, given what the host
    /// reports of the request it was asked for.
    pub fn step(self, reply: Reply) -> (progress: Progress<ConfirmFlow, ConfirmError>)
        ensures
            progress@ == self@.next(reply@),
    {
        match self.stage {
            ConfirmStage::Finding => match reply {
                Reply::Store(StoreReply::SubscriberId(Some(id))) => Progress::Continue(
                    ConfirmFlow { stage: ConfirmStage::Confirming },
                    Effect::Store(StoreRequest::ConfirmSubscriber(id)),
                ),
                Reply::Store(StoreReply::SubscriberId(None)) => Progress::Finished(
                    Err(ConfirmError::UnknownToken),
                ),
                other => Progress::Finished(
                    Err(
                        ConfirmError::StorageError(
                            StorageError {
                                context: StorageContext::FindSubscriber,
                                cause: other.into_cause(),
                            },
                        ),
                    ),
                ),
            },
            ConfirmStage::Confirming => if reply.is_done() {
                Progress::Finished(Ok(()))
            } else {
                Progress::Finished(
                    Err(
                        ConfirmError::StorageError(
                            StorageError {
                                context: StorageContext::ConfirmSubscriber,
                                cause: reply.into_cause(),
                            },
                        ),
                    ),
                )
            },
        }
    }
}

/// Begins the confirmation for the token of `params`: asks the store whom
/// the token belongs to.
pub fn confirm_sub(params: Parameters) -> (start: (ConfirmFlow, Effect))
    ensures
        start.0@ == ConfirmStage::Finding,
        start.1@ == Task::Store(StoreCommand::FindSubscriberByToken(params.subscription_token@)),
{
    (
        ConfirmFlow { stage: ConfirmStage::Finding },
        Effect::Store(StoreRequest::FindSubscriberByToken(params.subscription_token)),
    )
}

/// A confirmation served by the store `tables` for up to `rounds`
/// requests, each answered as the model says.
pub open spec fn served(
    tables: Tables,
    outlook: Outlook<ConfirmStage, ConfirmFailure>,
    rounds: nat,
) -> (Tables, Outlook<ConfirmStage, ConfirmFailure>)
    decreases rounds,
{
    if rounds == 0 {
        (tables, outlook)
    } else {
        match outlook {
            Outlook::Continue(stage, Task::Store(command)) => served(
                tables.after(command),
                stage.next(Report::Store(tables.answer(command))),
                (rounds - 1) as nat,
            ),
            _ => (tables, outlook),
        }
    }
}

/// The confirmation for `token`, about to look the token up.
pub open spec fn finding(token: Seq<char>) -> Outlook<ConfirmStage, ConfirmFailure> {
    Outlook::Continue(ConfirmStage::Finding, Task::Store(StoreCommand::FindSubscriberByToken(token)))
}

/// A confirmation never asks for an email, and it asks the store to
/// confirm a subscriber only after the store named that subscriber as the
/// owner of the token.
pub proof fn lemma_confirmation_writes_only_what_was_found(stage: ConfirmStage, reply: Report)
    ensures
        !(stage.next(reply) matches Outlook::Continue(_, Task::Send(_))),
        stage.next(reply) matches Outlook::Continue(_, Task::Store(command)) ==> stage
            == ConfirmStage::Finding && reply == Report::Store(
            StoreAnswer::SubscriberId(Some(command->ConfirmSubscriber_0)),
        ) && command is ConfirmSubscriber,
{
}

/// A token that the store does not know is refused as unknown after one
/// lookup, and the store holds what it held before.
pub proof fn lemma_unknown_token_changes_nothing(tables: Tables, token: Seq<char>, rounds: nat)
    requires
        subscriber_of_token(tables.tokens, token) is None,
        rounds >= 1,
    ensures
        served(tables, finding(token), rounds) == (
            tables,
            Outlook::<ConfirmStage, ConfirmFailure>::Finished(Err(ConfirmFailure::UnknownToken)),
        ),
{
    reveal_with_fuel(served, 3);
}

/// A token that the store knows confirms its subscriber: the confirmation
/// succeeds within two requests, every row of that subscriber is then
/// confirmed, and nothing else has changed.  Confirming with the same
/// token once more succeeds again and leaves the store as it is.
pub proof fn lemma_confirmation_confirms_and_is_idempotent(tables: Tables, token: Seq<char>)
    requires
        subscriber_of_token(tables.tokens, token) is Some,
    ensures
        ({
            let id = subscriber_of_token(tables.tokens, token)->0;
            let confirmed = Tables { subscribers: with_confirmed(tables.subscribers, id), ..tables };
            &&& served(tables, finding(token), 2) == (
                confirmed,
                Outlook::<ConfirmStage, ConfirmFailure>::Finished(Ok(())),
            )
            &&& served(confirmed, finding(token), 2) == (
                confirmed,
                Outlook::<ConfirmStage, ConfirmFailure>::Finished(Ok(())),
            )
            &&& forall|i: int|
                0 <= i < tables.subscribers.len() && (#[trigger] tables.subscribers[i]).id == id
                    ==> confirmed.subscribers[i].status == SubscriptionStatus::Confirmed
        }),
{
    reveal_with_fuel(served, 3);
    let id = subscriber_of_token(tables.tokens, token)->0;
    lemma_confirming_is_idempotent(tables, id);
}

} // verus!
