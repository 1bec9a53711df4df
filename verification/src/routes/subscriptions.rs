//! Signing up: a new subscriber and its confirmation token are stored in
//! one transaction, and the confirmation link is sent once they are
//! committed.

use crate::domain::subscriber_email::{email_is_valid, invalid_email_message};
use crate::domain::subscriber_name::{invalid_name_message, is_valid_name};
use crate::domain::{NewSubscriber, SubscriberEmail, SubscriberName};
use crate::email_client::{EmailClient, EmailMessage, EmailRequest, Gateway};
use crate::error::{DeliveryError, DeliveryFault, StorageContext, StorageError, StorageFault};
use crate::startup::ApplicationBaseUrl;
use crate::store::model::{
    has_subscriber, lemma_commit_adds_the_pair, lemma_requests_keep_the_store_well_formed, Tables,
};
use crate::store::{
    StoreCommand, StoreRequest, SubscriberRecord, SubscriberRow, SubscriptionStatus, TokenRecord,
    TokenRow,
};
use crate::text::push_char;
use crate::workflow::{Effect, Outlook, Progress, Reply, Report, Task};
use rand::distributions::Alphanumeric;
use rand::rngs::ThreadRng;
use rand::{thread_rng, Rng};
use sqlx::types::chrono::Utc;
use uuid::Uuid;
use vstd::prelude::*;
use vstd::string::StringExecFns;

verus! {

/// The fields of the signup form, as they came in.
#[derive(Debug, PartialEq, Eq)]
pub struct FormData {
    pub email: String,
    pub name: String,
}

/// Why a signup failed.
#[derive(Debug, PartialEq, Eq)]
pub enum SubscribeError {
    /// The form holds no valid name or no valid address; the message says
    /// which.
    ValidationError(String),
    /// The store failed; the signup was not committed.
    StorageError(StorageError),
    /// The signup is stored, and the confirmation email could not be sent.
    DeliveryError(DeliveryError),
}

/// What a `SubscribeError` holds.
pub enum SubscribeFailure {
    Validation(Seq<char>),
    Storage(StorageFault),
    Delivery(DeliveryFault),
}

impl View for SubscribeError {
    type V = SubscribeFailure;

    open spec fn view(&self) -> SubscribeFailure {
        match self {
            SubscribeError::ValidationError(message) => SubscribeFailure::Validation(message@),
            SubscribeError::StorageError(error) => SubscribeFailure::Storage(error@),
            SubscribeError::DeliveryError(error) => SubscribeFailure::Delivery(error@),
        }
    }
}

impl SubscribeFailure {
    /// What the error says of itself.
    pub open spec fn text(self) -> Seq<char> {
        match self {
            SubscribeFailure::Validation(message) => message,
            SubscribeFailure::Storage(fault) => fault.context.text(),
            SubscribeFailure::Delivery(_) => "Failed to send confirmation to new subscriber"@,
        }
    }
}

impl SubscribeError {
    /// The status that answers this error: 400 for a form that is not
    /// valid, 500 for everything else.
    pub fn status_code(&self) -> (status: u16)
        ensures
            status == if self is ValidationError {
                400u16
            } else {
                500u16
            },
    {
        match self {
            SubscribeError::ValidationError(_) => 400,
            SubscribeError::StorageError(_) => 500,
            SubscribeError::DeliveryError(_) => 500,
        }
    }

    /// What the error says of itself: the message of the validation, or
    /// what was being done when the store or the gateway failed.
    pub fn message(&self) -> (message: String)
        ensures
            message@ == self@.text(),
    {
        match self {
            SubscribeError::ValidationError(message) => message.clone(),
            SubscribeError::StorageError(error) => String::from_str(error.context.message()),
            SubscribeError::DeliveryError(_) => String::from_str(
                "Failed to send confirmation to new subscriber",
            ),
        }
    }
}

impl From<String> for SubscribeError {
    fn from(value: String) -> (error: Self) {
        Self::ValidationError(value)
    }
}

impl vstd::std_specs::convert::FromSpecImpl<String> for SubscribeError {
    open spec fn obeys_from_spec() -> bool {
        true
    }

    open spec fn from_spec(value: String) -> Self {
        Self::ValidationError(value)
    }
}

/// What the validation says of a form: nothing if name and address are
/// valid, else the message for the name, or for the address if the name is
/// valid.
pub open spec fn form_verdict(email: Seq<char>, name: Seq<char>) -> Result<(), Seq<char>> {
    if !is_valid_name(name) {
        Err(invalid_name_message(name))
    } else if !email_is_valid(email) {
        Err(invalid_email_message(email))
    } else {
        Ok(())
    }
}

impl NewSubscriber {
    /// Validates the fields of a form, the name first.
    pub fn try_from(value: &FormData) -> (r: Result<NewSubscriber, String>)
        ensures
            r is Ok <==> form_verdict(value.email@, value.name@) is Ok,
            r matches Ok(subscriber) ==> subscriber.email@ == value.email@ && subscriber.name@
                == value.name@,
            r matches Err(message) ==> form_verdict(value.email@, value.name@) == Err::<
                (),
                Seq<char>,
            >(message@),
    {
        let name = match SubscriberName::parse(value.name.as_str()) {
            Ok(name) => name,
            Err(message) => {
                return Err(message);
            },
        };
        let email = match SubscriberEmail::parse(value.email.as_str()) {
            Ok(email) => email,
            Err(message) => {
                return Err(message);
            },
        };
        Ok(NewSubscriber::new(email, name))
    }
}

/// The number of characters of a confirmation token.
pub const TOKEN_LENGTH: usize = 23;

/// The 62 characters that tokens are made of: the ASCII digits and
/// letters, by their code.
pub open spec fn is_alphanumeric(code: int) -> bool {
    (48 <= code <= 57) || (65 <= code <= 90) || (97 <= code <= 122)
}

/// The texts that are confirmation tokens: 23 ASCII letters and digits.
pub open spec fn is_token(s: Seq<char>) -> bool {
    &&& s.len() == TOKEN_LENGTH
    &&& forall|i: int| 0 <= i < s.len() ==> is_alphanumeric((#[trigger] s[i]) as int)
}

/// The thread-local generator of rand.
#[verifier::external_type_specification]
#[verifier::external_body]
pub struct ExThreadRng(ThreadRng);

/// `rand::thread_rng` of rand: the generator of the current thread.
#[verifier::external_body]
fn thread_generator() -> ThreadRng {
    thread_rng()
}

/// `Rng::sample` of rand on `Alphanumeric`: trusted to yield an ASCII
/// letter or digit, whatever the generator draws.
#[verifier::external_body]
fn sample_alphanumeric(rng: &mut ThreadRng) -> (b: u8)
    ensures
        is_alphanumeric(b as int),
{
    rng.sample(Alphanumeric)
}

/// A fresh confirmation token: 23 characters, each drawn from the ASCII
/// letters and digits.
pub fn generate_subscription_token() -> (token: String)
    ensures
        is_token(token@),
{
    let mut rng = thread_generator();
    let mut token = String::new();
    let mut i: usize = 0;
    while i < TOKEN_LENGTH
        invariant
            0 <= i <= TOKEN_LENGTH,
            token@.len() == i,
            forall|j: int| 0 <= j < i ==> is_alphanumeric((#[trigger] token@[j]) as int),
        decreases TOKEN_LENGTH - i,
    {
        let b = sample_alphanumeric(&mut rng);
        push_char(&mut token, b as char);
        i += 1;
    }
    token
}

/// The ids that are version 4 UUIDs: the version is 4 and the variant is
/// the one of RFC 4122.
pub open spec fn is_version_4(id: u128) -> bool {
    (id >> 76) & 0xf == 4 && (id >> 62) & 0x3 == 2
}

/// `Uuid::new_v4` of uuid, read as a number: trusted to be a version 4
/// UUID, whatever was drawn.
#[verifier::external_body]
fn fresh_subscriber_id() -> (id: u128)
    ensures
        is_version_4(id),
{
    Uuid::new_v4().as_u128()
}

/// `Utc::now` of chrono, in microseconds since the Unix epoch.
#[verifier::external_body]
fn now_micros() -> i64 {
    Utc::now().timestamp_micros()
}

/// The pending row of a subscriber.
pub open spec fn pending_row(
    id: u128,
    email: Seq<char>,
    name: Seq<char>,
    subscribed_at: i64,
) -> SubscriberRow {
    SubscriberRow {
        id,
        email,
        name,
        subscribed_at,
        status: SubscriptionStatus::PendingConfirmation,
    }
}

/// The request that inserts `new_subscriber` under the id `id`, pending
/// its confirmation.
pub fn insert_subscriber(new_subscriber: &NewSubscriber, id: u128, subscribed_at: i64) -> (request:
    StoreRequest)
    ensures
        request@ == StoreCommand::InsertSubscriber(
            pending_row(id, new_subscriber.email@, new_subscriber.name@, subscribed_at),
        ),
{
    StoreRequest::InsertSubscriber(
        SubscriberRecord {
            id,
            email: new_subscriber.email.as_ref().clone(),
            name: new_subscriber.name.as_ref().clone(),
            subscribed_at,
            status: SubscriptionStatus::PendingConfirmation,
        },
    )
}

/// The request that stores `subscription_token` for the subscriber
/// `subscriber_id`.
pub fn store_subscription_token(subscription_token: &str, subscriber_id: u128) -> (request:
    StoreRequest)
    ensures
        request@ == StoreCommand::StoreToken(
            TokenRow { token: subscription_token@, subscriber_id },
        ),
{
    StoreRequest::StoreToken(
        TokenRecord { token: subscription_token.to_owned(), subscriber_id },
    )
}

/// The link that confirms the signup with the token `token`.
pub open spec fn confirmation_link_text(base_url: Seq<char>, token: Seq<char>) -> Seq<char> {
    base_url + "/subscriptions/confirm?subscription_token="@ + token
}

/// The HTML body of the confirmation email.
pub open spec fn confirmation_html(link: Seq<char>) -> Seq<char> {
    "Welcome!<br />Click <a href=\""@ + link + "\">here</a> to confirm your subscription."@
}

/// The plain body of the confirmation email.
pub open spec fn confirmation_plain(link: Seq<char>) -> Seq<char> {
    "Welcome to our newsletter!<br />Click <a href=\""@ + link
        + "\">here</a> to confirm your subscription."@
}

/// The confirmation email for `recipient`.
pub open spec fn confirmation_message(
    gateway: Gateway,
    recipient: Seq<char>,
    base_url: Seq<char>,
    token: Seq<char>,
) -> EmailMessage {
    gateway.message(
        recipient,
        "Welcome!"@,
        confirmation_html(confirmation_link_text(base_url, token)),
        confirmation_plain(confirmation_link_text(base_url, token)),
    )
}

/// The link that confirms the signup with the token `subscription_token`.
pub fn confirmation_link(base_url: &str, subscription_token: &str) -> (link: String)
    ensures
        link@ == confirmation_link_text(base_url@, subscription_token@),
{
    let mut link = String::from_str(base_url);
    link.append("/subscriptions/confirm?subscription_token=");
    link.append(subscription_token);
    link
}

/// The request that sends `new_subscriber` the link to confirm with, in an
/// HTML and in a plain body.
pub fn send_confirmation_link(
    email_client: &EmailClient,
    new_subscriber: &NewSubscriber,
    base_url: &str,
    subscription_token: &str,
) -> (request: EmailRequest)
    ensures
        request@ == confirmation_message(
            email_client@,
            new_subscriber.email@,
            base_url@,
            subscription_token@,
        ),
{
    let link = confirmation_link(base_url, subscription_token);
    let mut html = String::from_str("Welcome!<br />Click <a href=\"");
    html.append(link.as_str());
    html.append("\">here</a> to confirm your subscription.");
    let mut plain = String::from_str("Welcome to our newsletter!<br />Click <a href=\"");
    plain.append(link.as_str());
    plain.append("\">here</a> to confirm your subscription.");
    email_client.send_email(&new_subscriber.email, "Welcome!", html.as_str(), plain.as_str())
}

/// Where a signup stands, and what it still needs of the form.
#[derive(Debug, PartialEq, Eq)]
enum Stage {
    Opening(FormData),
    Inserting(NewSubscriber),
    StoringToken(NewSubscriber),
    Committing(NewSubscriber),
    RollingBack(SubscribeError),
    Notifying(String),
}

/// Where a signup stands.  Each stage is named after the effect that the
/// host was asked for and has not yet reported on.
pub enum SignupStage {
    /// A transaction is being opened; the form is not validated yet.
    Opening { email: Seq<char>, name: Seq<char> },
    /// The form is valid; the subscriber is being inserted.
    Inserting { email: Seq<char>, name: Seq<char> },
    /// The subscriber is inserted; the token is being stored.
    StoringToken { email: Seq<char>, name: Seq<char> },
    /// Both rows are written; the transaction is being committed.
    Committing { email: Seq<char>, name: Seq<char> },
    /// The signup has failed; the transaction is being rolled back.
    RollingBack { failure: SubscribeFailure },
    /// The signup is committed; the confirmation email is being sent.
    Notifying { recipient: Seq<char> },
}

/// What a `SubscribeFlow` holds: the stage, and what was fixed when the
/// signup began.
pub struct Signup {
    pub stage: SignupStage,
    pub base_url: Seq<char>,
    pub subscriber_id: u128,
    pub subscribed_at: i64,
    pub token: Seq<char>,
}

/// The failure of the store during `context`, with the words of `reply`.
pub open spec fn storage_failure(context: StorageContext, reply: Report) -> SubscribeFailure {
    SubscribeFailure::Storage(StorageFault { context, cause: reply.cause() })
}

impl Signup {
    /// The signup at the stage `stage`.
    pub open spec fn at(self, stage: SignupStage) -> Signup {
        Signup { stage, ..self }
    }

    /// The signup gives up: it asks for the rollback and keeps `failure`
    /// to report once the rollback is done.
    pub open spec fn abort(self, failure: SubscribeFailure) -> Outlook<Signup, SubscribeFailure> {
        Outlook::Continue(
            self.at(SignupStage::RollingBack { failure }),
            Task::Store(StoreCommand::Rollback),
        )
    }

    /// The step that the signup takes when the host reports `reply` of the
    /// effect it was asked for.
    pub open spec fn next(self, reply: Report, gateway: Gateway) -> Outlook<
        Signup,
        SubscribeFailure,
    > {
        match self.stage {
            SignupStage::Opening { email, name } => if !reply.done() {
                Outlook::Finished(Err(storage_failure(StorageContext::AcquireConnection, reply)))
            } else {
                match form_verdict(email, name) {
                    Err(message) => self.abort(SubscribeFailure::Validation(message)),
                    Ok(_) => Outlook::Continue(
                        self.at(SignupStage::Inserting { email, name }),
                        Task::Store(
                            StoreCommand::InsertSubscriber(
                                pending_row(self.subscriber_id, email, name, self.subscribed_at),
                            ),
                        ),
                    ),
                }
            },
            SignupStage::Inserting { email, name } => if !reply.done() {
                self.abort(storage_failure(StorageContext::InsertSubscriber, reply))
            } else {
                Outlook::Continue(
                    self.at(SignupStage::StoringToken { email, name }),
                    Task::Store(
                        StoreCommand::StoreToken(
                            TokenRow { token: self.token, subscriber_id: self.subscriber_id },
                        ),
                    ),
                )
            },
            SignupStage::StoringToken { email, name } => if !reply.done() {
                self.abort(storage_failure(StorageContext::StoreToken, reply))
            } else {
                Outlook::Continue(
                    self.at(SignupStage::Committing { email, name }),
                    Task::Store(StoreCommand::Commit),
                )
            },
            SignupStage::Committing { email, name } => if !reply.done() {
                Outlook::Finished(Err(storage_failure(StorageContext::CommitTransaction, reply)))
            } else {
                Outlook::Continue(
                    self.at(SignupStage::Notifying { recipient: email }),
                    Task::Send(confirmation_message(gateway, email, self.base_url, self.token)),
                )
            },
            SignupStage::RollingBack { failure } => Outlook::Finished(Err(failure)),
            SignupStage::Notifying { recipient } => if reply.delivery().accepted() {
                Outlook::Finished(Ok(()))
            } else {
                Outlook::Finished(
                    Err(
                        SubscribeFailure::Delivery(
                            DeliveryFault { recipient, report: reply.delivery() },
                        ),
                    ),
                )
            },
        }
    }
}

/// A signup under way.
#[derive(Debug, PartialEq, Eq)]
pub struct SubscribeFlow {
    stage: Stage,
    base_url: String,
    subscriber_id: u128,
    subscribed_at: i64,
    token: String,
}

impl View for SubscribeFlow {
    type V = Signup;

    closed spec fn view(&self) -> Signup {
        Signup {
            stage: match self.stage {
                Stage::Opening(form) => SignupStage::Opening { email: form.email@, name: form.name@ },
                Stage::Inserting(subscriber) => SignupStage::Inserting {
                    email: subscriber.email@,
                    name: subscriber.name@,
                },
                Stage::StoringToken(subscriber) => SignupStage::StoringToken {
                    email: subscriber.email@,
                    name: subscriber.name@,
                },
                Stage::Committing(subscriber) => SignupStage::Committing {
                    email: subscriber.email@,
                    name: subscriber.name@,
                },
                Stage::RollingBack(error) => SignupStage::RollingBack { failure: error@ },
                Stage::Notifying(recipient) => SignupStage::Notifying { recipient: recipient@ },
            },
            base_url: self.base_url@,
            subscriber_id: self.subscriber_id,
            subscribed_at: self.subscribed_at,
            token: self.token@,
        }
    }
}

fn storage_error(context: StorageContext, reply: Reply) -> (error: SubscribeError)
    ensures
        error@ == storage_failure(context, reply@),
{
    SubscribeError::StorageError(StorageError { context, cause: reply.into_cause() })
}

impl SubscribeFlow {
    /// The signup of `form` under the id `subscriber_id`, with the token
    /// `token`: it starts by asking for a transaction.
    pub fn new(
        form: FormData,
        base_url: &str,
        subscriber_id: u128,
        subscribed_at: i64,
        token: String,
    ) -> (start: (SubscribeFlow, Effect))
        ensures
            start.0@ == (Signup {
                stage: SignupStage::Opening { email: form.email@, name: form.name@ },
                base_url: base_url@,
                subscriber_id,
                subscribed_at,
                token: token@,
            }),
            start.1@ == Task::Store(StoreCommand::Begin),
    {
        (
            SubscribeFlow {
                stage: Stage::Opening(form),
                base_url: base_url.to_owned(),
                subscriber_id,
                subscribed_at,
                token,
            },
            Effect::Store(StoreRequest::Begin),
        )
    }

    fn abort(self, error: SubscribeError) -> (progress: Progress<SubscribeFlow, SubscribeError>)
        ensures
            progress@ == self@.abort(error@),
    {
        Progress::Continue(
            SubscribeFlow { stage: Stage::RollingBack(error), ..self },
            Effect::Store(StoreRequest::Rollback),
        )
    }

    /// Takes the next step of the signup, given what the host reports of
    /// the effect it was asked for.
    pub fn step(self, reply: Reply, email_client: &EmailClient) -> (progress: Progress<
        SubscribeFlow,
        SubscribeError,
    >)
        ensures
            progress@ == self@.next(reply@, email_client@),
    {
        let SubscribeFlow { stage, base_url, subscriber_id, subscribed_at, token } = self;
        match stage {
            Stage::Opening(form) => {
                if !reply.is_done() {
                    return Progress::Finished(
                        Err(storage_error(StorageContext::AcquireConnection, reply)),
                    );
                }
                match NewSubscriber::try_from(&form) {
                    Err(message) => {
                        let flow = SubscribeFlow {
                            stage: Stage::Opening(form),
                            base_url,
                            subscriber_id,
                            subscribed_at,
                            token,
                        };
                        flow.abort(SubscribeError::from(message))
                    },
                    Ok(subscriber) => {
                        let request = insert_subscriber(&subscriber, subscriber_id, subscribed_at);
                        Progress::Continue(
                            SubscribeFlow {
                                stage: Stage::Inserting(subscriber),
                                base_url,
                                subscriber_id,
                                subscribed_at,
                                token,
                            },
                            Effect::Store(request),
                        )
                    },
                }
            },
            Stage::Inserting(subscriber) => {
                if !reply.is_done() {
                    let flow = SubscribeFlow {
                        stage: Stage::Inserting(subscriber),
                        base_url,
                        subscriber_id,
                        subscribed_at,
                        token,
                    };
                    return flow.abort(storage_error(StorageContext::InsertSubscriber, reply));
                }
                let request = store_subscription_token(token.as_str(), subscriber_id);
                Progress::Continue(
                    SubscribeFlow {
                        stage: Stage::StoringToken(subscriber),
                        base_url,
                        subscriber_id,
                        subscribed_at,
                        token,
                    },
                    Effect::Store(request),
                )
            },
            Stage::StoringToken(subscriber) => {
                if !reply.is_done() {
                    let flow = SubscribeFlow {
                        stage: Stage::StoringToken(subscriber),
                        base_url,
                        subscriber_id,
                        subscribed_at,
                        token,
                    };
                    return flow.abort(storage_error(StorageContext::StoreToken, reply));
                }
                Progress::Continue(
                    SubscribeFlow {
                        stage: Stage::Committing(subscriber),
                        base_url,
                        subscriber_id,
                        subscribed_at,
                        token,
                    },
                    Effect::Store(StoreRequest::Commit),
                )
            },
            Stage::Committing(subscriber) => {
                if !reply.is_done() {
                    return Progress::Finished(
                        Err(storage_error(StorageContext::CommitTransaction, reply)),
                    );
                }
                let request = send_confirmation_link(
                    email_client,
                    &subscriber,
                    base_url.as_str(),
                    token.as_str(),
                );
                let recipient = subscriber.email.as_ref().clone();
                Progress::Continue(
                    SubscribeFlow {
                        stage: Stage::Notifying(recipient),
                        base_url,
                        subscriber_id,
                        subscribed_at,
                        token,
                    },
                    Effect::Send(request),
                )
            },
            Stage::RollingBack(error) => Progress::Finished(Err(error)),
            Stage::Notifying(recipient) => {
                let report = reply.into_delivery();
                if report.succeeded() {
                    Progress::Finished(Ok(()))
                } else {
                    Progress::Finished(
                        Err(SubscribeError::DeliveryError(DeliveryError { recipient, report })),
                    )
                }
            },
        }
    }
}

/// Begins the signup of `form`: draws the subscriber's id and its
/// confirmation token, reads the clock, and asks for a transaction.
pub fn subscribe(form: FormData, base_url: &ApplicationBaseUrl) -> (start: (SubscribeFlow, Effect))
    ensures
        start.0@.stage == (SignupStage::Opening { email: form.email@, name: form.name@ }),
        start.0@.base_url == base_url.0@,
        is_version_4(start.0@.subscriber_id),
        is_token(start.0@.token),
        start.1@ == Task::Store(StoreCommand::Begin),
{
    let subscriber_id = fresh_subscriber_id();
    let subscribed_at = now_micros();
    let token = generate_subscription_token();
    SubscribeFlow::new(form, base_url.0.as_str(), subscriber_id, subscribed_at, token)
}

/// The confirmation email is asked for only as the step that follows a
/// successful commit; the token is stored only after the subscriber was
/// inserted, and the commit is asked for only after both were written.
pub proof fn lemma_signup_keeps_its_order(signup: Signup, reply: Report, gateway: Gateway)
    ensures
        signup.next(reply, gateway) matches Outlook::Continue(_, Task::Send(_)) ==> signup.stage
            is Committing && reply.done(),
        signup.next(reply, gateway) matches Outlook::Continue(
            _,
            Task::Store(StoreCommand::Commit),
        ) ==> signup.stage is StoringToken && reply.done(),
        signup.next(reply, gateway) matches Outlook::Continue(
            _,
            Task::Store(StoreCommand::StoreToken(_)),
        ) ==> signup.stage is Inserting && reply.done(),
        signup.next(reply, gateway) matches Outlook::Continue(
            _,
            Task::Store(StoreCommand::InsertSubscriber(row)),
        ) ==> signup.stage is Opening && reply.done() && row.status
            == SubscriptionStatus::PendingConfirmation,
{
}

/// A write that fails inside the transaction is answered by a rollback,
/// and once the rollback is reported the signup ends with the failure of
/// that write: no commit, no email.
pub proof fn lemma_failed_write_is_rolled_back(
    signup: Signup,
    reply: Report,
    later: Report,
    gateway: Gateway,
)
    requires
        signup.stage is Inserting || signup.stage is StoringToken,
        !reply.done(),
    ensures
        signup.next(reply, gateway) matches Outlook::Continue(
            rolling_back,
            Task::Store(StoreCommand::Rollback),
        ) && rolling_back.next(later, gateway) matches Outlook::Finished(
            Err(SubscribeFailure::Storage(fault)),
        ) && fault.cause == reply.cause() && fault.context == if signup.stage is Inserting {
            StorageContext::InsertSubscriber
        } else {
            StorageContext::StoreToken
        },
{
}

/// A form that is not valid is refused before anything is written: the
/// transaction is rolled back and the signup ends with the message of the
/// validation.
pub proof fn lemma_invalid_form_is_refused(
    signup: Signup,
    reply: Report,
    later: Report,
    gateway: Gateway,
)
    requires
        signup.stage matches SignupStage::Opening { email, name } && form_verdict(email, name)
            is Err,
        reply.done(),
    ensures
        signup.next(reply, gateway) matches Outlook::Continue(
            rolling_back,
            Task::Store(StoreCommand::Rollback),
        ) && rolling_back.next(later, gateway) matches Outlook::Finished(
            Err(SubscribeFailure::Validation(message)),
        ) && signup.stage matches SignupStage::Opening { email, name } && form_verdict(email, name)
            == Err::<(), Seq<char>>(message),
{
}

/// A signup served by the store `tables` for up to `rounds` requests:
/// each request that the signup makes is answered as the model says, and
/// the signup takes its next step on the answer.
pub open spec fn served(
    tables: Tables,
    outlook: Outlook<Signup, SubscribeFailure>,
    gateway: Gateway,
    rounds: nat,
) -> (Tables, Outlook<Signup, SubscribeFailure>)
    decreases rounds,
{
    if rounds == 0 {
        (tables, outlook)
    } else {
        match outlook {
            Outlook::Continue(signup, Task::Store(command)) => served(
                tables.after(command),
                signup.next(Report::Store(tables.answer(command)), gateway),
                gateway,
                (rounds - 1) as nat,
            ),
            _ => (tables, outlook),
        }
    }
}

/// The signup `signup`, about to open its transaction.
pub open spec fn opening(signup: Signup) -> Outlook<Signup, SubscribeFailure> {
    Outlook::Continue(signup, Task::Store(StoreCommand::Begin))
}

/// A signup with a valid form and an id that is not taken, served by a
/// well-formed store: its four requests succeed, the store then holds
/// exactly one subscriber more, pending, and exactly one token more, which
/// belongs to that subscriber, and the signup asks for the email that
/// carries the link with that token.  If the gateway takes the email the
/// signup succeeds; if not it fails with a delivery error and the two rows
/// stay.
pub proof fn lemma_signup_stores_the_pair_then_sends_the_link(
    tables: Tables,
    signup: Signup,
    gateway: Gateway,
    delivery: Report,
)
    requires
        tables.wf(),
        !tables.in_transaction,
        signup.stage matches SignupStage::Opening { email, name } && form_verdict(email, name)
            is Ok,
        !has_subscriber(tables.subscribers, signup.subscriber_id),
    ensures
        ({
            let (stored, outlook) = served(tables, opening(signup), gateway, 4);
            let email = signup.stage->Opening_email;
            let name = signup.stage->Opening_name;
            &&& stored == Tables {
                subscribers: tables.subscribers.push(
                    pending_row(signup.subscriber_id, email, name, signup.subscribed_at),
                ),
                tokens: tables.tokens.push(
                    TokenRow { token: signup.token, subscriber_id: signup.subscriber_id },
                ),
                ..tables
            }
            &&& stored.wf()
            &&& outlook matches Outlook::Continue(notifying, Task::Send(message))
            &&& message == confirmation_message(gateway, email, signup.base_url, signup.token)
            &&& notifying.next(delivery, gateway) == if delivery.delivery().accepted() {
                Outlook::<Signup, SubscribeFailure>::Finished(Ok(()))
            } else {
                Outlook::<Signup, SubscribeFailure>::Finished(
                    Err(
                        SubscribeFailure::Delivery(
                            DeliveryFault { recipient: email, report: delivery.delivery() },
                        ),
                    ),
                )
            }
        }),
{
    let email = signup.stage->Opening_email;
    let name = signup.stage->Opening_name;
    let row = pending_row(signup.subscriber_id, email, name, signup.subscribed_at);
    let token = TokenRow { token: signup.token, subscriber_id: signup.subscriber_id };
    lemma_commit_adds_the_pair(tables, row, token);
    reveal_with_fuel(served, 5);
    let opened = tables.after(StoreCommand::Begin);
    let inserted = opened.after(StoreCommand::InsertSubscriber(row));
    let kept = inserted.after(StoreCommand::StoreToken(token));
    let committed = kept.after(StoreCommand::Commit);
    lemma_requests_keep_the_store_well_formed(tables, StoreCommand::Begin);
    lemma_requests_keep_the_store_well_formed(opened, StoreCommand::InsertSubscriber(row));
    lemma_requests_keep_the_store_well_formed(inserted, StoreCommand::StoreToken(token));
    lemma_requests_keep_the_store_well_formed(kept, StoreCommand::Commit);
}

/// A signup that cannot be completed leaves the store as it found it: if
/// the form is not valid, or the id is taken, the signup ends with an
/// error within three requests, no email is asked for, and the store
/// holds what it held before.
pub proof fn lemma_failed_signup_stores_nothing(tables: Tables, signup: Signup, gateway: Gateway)
    requires
        tables.wf(),
        !tables.in_transaction,
        signup.stage matches SignupStage::Opening { email, name } && (form_verdict(email, name)
            is Err || has_subscriber(tables.subscribers, signup.subscriber_id)),
    ensures
        ({
            let (stored, outlook) = served(tables, opening(signup), gateway, 3);
            &&& stored == tables
            &&& outlook matches Outlook::Finished(Err(failure))
            &&& failure is Validation || failure is Storage
        }),
{
    reveal_with_fuel(served, 4);
    assert(tables.staged_subscribers =~= Seq::empty());
    assert(tables.staged_tokens =~= Seq::empty());
    let opened = tables.after(StoreCommand::Begin);
    assert(opened.visible_subscribers() =~= tables.subscribers);
}

} // verus!
