//! How a workflow and its host talk: the workflow names the next thing to
//! do with the store or the email gateway, the host does it and reports
//! back, until the workflow has its result.

use crate::email_client::{EmailMessage, EmailRequest};
use crate::error::{Delivery, DeliveryReport};
use crate::store::{StoreAnswer, StoreCommand, StoreReply, StoreRequest};
use vstd::prelude::*;

verus! {

/// What the host is asked to do next.
#[derive(Debug, PartialEq, Eq)]
pub enum Effect {
    /// Run a request against the store.
    Store(StoreRequest),
    /// Send an email through the gateway.
    Send(EmailRequest),
}

/// What an `Effect` holds.
pub enum Task {
    Store(StoreCommand),
    Send(EmailMessage),
}

impl View for Effect {
    type V = Task;

    open spec fn view(&self) -> Task {
        match self {
            Effect::Store(request) => Task::Store(request@),
            Effect::Send(request) => Task::Send(request@),
        }
    }
}

/// What the host reports of the effect it was asked for.
#[derive(Debug, PartialEq, Eq)]
pub enum Reply {
    /// The answer of the store.
    Store(StoreReply),
    /// The report of the email gateway.
    Email(Delivery),
}

/// What a `Reply` holds.
pub enum Report {
    Store(StoreAnswer),
    Email(DeliveryReport),
}

impl View for Reply {
    type V = Report;

    open spec fn view(&self) -> Report {
        match self {
            Reply::Store(reply) => Report::Store(reply@),
            Reply::Email(delivery) => Report::Email(delivery@),
        }
    }
}

impl Report {
    /// Whether the store executed the statement.
    pub open spec fn done(self) -> bool {
        self == Report::Store(StoreAnswer::Done)
    }

    /// The words that came with a failure; empty where none came.
    pub open spec fn cause(self) -> Seq<char> {
        match self {
            Report::Store(answer) => answer.cause(),
            Report::Email(DeliveryReport::Failed(cause)) => cause,
            Report::Email(DeliveryReport::Responded(_)) => Seq::empty(),
        }
    }

    /// The report read as one of the email gateway: an answer of the store
    /// in its place counts as a delivery that failed.
    pub open spec fn delivery(self) -> DeliveryReport {
        match self {
            Report::Email(report) => report,
            Report::Store(answer) => DeliveryReport::Failed(answer.cause()),
        }
    }
}

impl Reply {
    /// Whether the store executed the statement.
    pub fn is_done(&self) -> (b: bool)
        ensures
            b == self@.done(),
    {
        match self {
            Reply::Store(StoreReply::Done) => true,
            _ => false,
        }
    }

    /// The words that came with a failure; empty where none came.
    pub fn into_cause(self) -> (cause: String)
        ensures
            cause@ == self@.cause(),
    {
        match self {
            Reply::Store(reply) => reply.into_cause(),
            Reply::Email(Delivery::Failed(cause)) => cause,
            Reply::Email(Delivery::Responded(_)) => String::new(),
        }
    }

    /// The reply read as a report of the email gateway.
    pub fn into_delivery(self) -> (delivery: Delivery)
        ensures
            delivery@ == self@.delivery(),
    {
        match self {
            Reply::Email(delivery) => delivery,
            Reply::Store(reply) => Delivery::Failed(reply.into_cause()),
        }
    }
}

/// Where a workflow stands after a step: it goes on and asks for an
/// effect, or it has finished with its result.
#[derive(Debug, PartialEq, Eq)]
pub enum Progress<Flow, Error> {
    Continue(Flow, Effect),
    Finished(Result<(), Error>),
}

/// What a `Progress` holds.
pub enum Outlook<State, Failure> {
    Continue(State, Task),
    Finished(Result<(), Failure>),
}

impl<Flow: View, Error: View> View for Progress<Flow, Error> {
    type V = Outlook<Flow::V, Error::V>;

    open spec fn view(&self) -> Outlook<Flow::V, Error::V> {
        match self {
            Progress::Continue(flow, effect) => Outlook::Continue(flow@, effect@),
            Progress::Finished(Ok(_)) => Outlook::Finished(Ok(())),
            Progress::Finished(Err(error)) => Outlook::Finished(Err(error@)),
        }
    }
}

} // verus!
