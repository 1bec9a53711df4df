//! Publishing a newsletter issue to the confirmed subscribers.

use crate::authentication::{
    basic_authentication, credentials_match, credentials_of_header, editor_verdict,
    validate_credentials, Credentials,
};
use crate::domain::subscriber_email::email_is_valid;
use crate::domain::SubscriberEmail;
use crate::email_client::{EmailClient, Gateway};
use crate::error::{
    failure_of, AuthError, DeliveryError, DeliveryFault, StorageContext, StorageError,
    StorageFault,
};
use crate::store::model::{
    confirmed_emails, editor_named, lemma_listing_holds_confirmed_only, Tables,
};
use crate::store::{
    StoreAnswer, StoreCommand, StoreReply, StoreRequest, SubscriptionStatus,
};
use crate::text::texts;
use crate::workflow::{Effect, Outlook, Progress, Reply, Report, Task};
use vstd::prelude::*;
use vstd::string::StringExecFns;

verus! {

/// How a failed request is answered: a status, and for a refused
/// authentication the challenge that goes with it.
#[derive(Debug, PartialEq, Eq)]
pub struct ErrorResponse {
    pub status: u16,
    pub www_authenticate: Option<&'static str>,
}

/// Why an issue was not published.
#[derive(Debug, PartialEq, Eq)]
pub enum PublishError {
    AuthError(AuthError),
    StorageError(StorageError),
    DeliveryError(DeliveryError),
}

/// What a `PublishError` holds.
pub enum PublishFailure {
    Auth(AuthError),
    Storage(StorageFault),
    Delivery(DeliveryFault),
}

impl View for PublishError {
    type V = PublishFailure;

    open spec fn view(&self) -> PublishFailure {
        match self {
            PublishError::AuthError(reason) => PublishFailure::Auth(*reason),
            PublishError::StorageError(error) => PublishFailure::Storage(error@),
            PublishError::DeliveryError(error) => PublishFailure::Delivery(error@),
        }
    }
}

impl PublishFailure {
    /// What the error says of itself.
    pub open spec fn text(self) -> Seq<char> {
        match self {
            PublishFailure::Auth(_) => "Authentication failed."@,
            PublishFailure::Storage(fault) => fault.context.text(),
            PublishFailure::Delivery(fault) => "Failed to send newsletter issue to "@
                + fault.recipient,
        }
    }
}

impl PublishError {
    /// What the error says of itself.  A failed authentication says the
    /// same whatever its reason was.
    pub fn message(&self) -> (message: String)
        ensures
            message@ == self@.text(),
    {
        match self {
            PublishError::AuthError(_) => String::from_str("Authentication failed."),
            PublishError::StorageError(error) => String::from_str(error.context.message()),
            PublishError::DeliveryError(error) => {
                let mut message = String::from_str("Failed to send newsletter issue to ");
                message.append(error.recipient.as_str());
                message
            },
        }
    }

    /// The status that answers this error.
    pub open spec fn status(&self) -> u16 {
        match self {
            PublishError::AuthError(_) => 401,
            PublishError::StorageError(_) => 500,
            PublishError::DeliveryError(_) => 500,
        }
    }

    /// The response that answers this error: 401 with a challenge for the
    /// `publish` realm when authentication failed, 500 otherwise.
    pub fn error_response(&self) -> (response: ErrorResponse)
        ensures
            response.status == self.status(),
            self is AuthError ==> (response.www_authenticate matches Some(challenge)
                && challenge@ == "Basic realm=\"publish\""@),
            !(self is AuthError) ==> response.www_authenticate is None,
    {
        match self {
            PublishError::AuthError(_) => ErrorResponse {
                status: 401,
                www_authenticate: Some("Basic realm=\"publish\""),
            },
            PublishError::StorageError(_) => ErrorResponse { status: 500, www_authenticate: None },
            PublishError::DeliveryError(_) => ErrorResponse { status: 500, www_authenticate: None },
        }
    }
}

/// A newsletter issue, as the request carries it.
#[derive(Debug, PartialEq, Eq)]
pub struct NewsletterBody {
    pub title: String,
    pub content: Content,
}

/// The two bodies of an issue.
#[derive(Debug, PartialEq, Eq)]
pub struct Content {
    pub html: String,
    pub text: String,
}

/// A confirmed subscriber whose stored address is valid.
#[derive(Debug, PartialEq, Eq)]
pub struct ConfirmedSubscriber {
    pub email: SubscriberEmail,
}

/// The addresses of `subscribers`.
pub open spec fn addresses(subscribers: Seq<ConfirmedSubscriber>) -> Seq<Seq<char>> {
    subscribers.map_values(|subscriber: ConfirmedSubscriber| subscriber.email@)
}

/// The valid addresses among `emails`, in their order.
pub open spec fn valid_emails(emails: Seq<Seq<char>>) -> Seq<Seq<char>> {
    emails.filter(|email: Seq<char>| email_is_valid(email))
}

/// The valid addresses of `emails` and one more address are those of
/// `emails`, with the new one at their end if it is valid.
pub proof fn lemma_valid_emails_after_push(emails: Seq<Seq<char>>, email: Seq<char>)
    ensures
        valid_emails(emails.push(email)) == if email_is_valid(email) {
            valid_emails(emails).push(email)
        } else {
            valid_emails(emails)
        },
{
    reveal(Seq::filter);
    assert(emails.push(email).drop_last() =~= emails);
}

/// Keeps the subscribers whose stored address is valid and skips the
/// others, so that one corrupt row does not hold the issue back from
/// everybody else.
pub fn get_confirmed_subscribers(emails: &Vec<String>) -> (subscribers: Vec<ConfirmedSubscriber>)
    ensures
        addresses(subscribers@) == valid_emails(texts(emails@)),
{
    let ghost all = texts(emails@);
    let mut subscribers: Vec<ConfirmedSubscriber> = Vec::new();
    let mut i: usize = 0;
    proof {
        reveal(Seq::filter);
        assert(all.take(0) =~= Seq::empty());
        assert(addresses(subscribers@) =~= valid_emails(all.take(0)));
    }
    while i < emails.len()
        invariant
            0 <= i <= emails.len(),
            all == texts(emails@),
            addresses(subscribers@) == valid_emails(all.take(i as int)),
        decreases emails.len() - i,
    {
        proof {
            lemma_valid_emails_after_push(all.take(i as int), all[i as int]);
            assert(all.take(i + 1) =~= all.take(i as int).push(all[i as int]));
        }
        match SubscriberEmail::parse(emails[i].as_str()) {
            Ok(email) => {
                let ghost kept = subscribers@;
                subscribers.push(ConfirmedSubscriber { email });
                assert(addresses(subscribers@) =~= addresses(kept).push(email@));
            },
            Err(_) => {},
        }
        i += 1;
    }
    assert(all.take(emails.len() as int) =~= all);
    subscribers
}

/// Where a publication stands, and what it still needs.
#[derive(Debug, PartialEq, Eq)]
enum Stage {
    FindingEditor(Credentials),
    Listing,
    Sending { recipients: Vec<ConfirmedSubscriber>, next: usize },
}

/// Where a publication stands.  Each stage is named after the effect that
/// the host was asked for and has not yet reported on.
pub enum IssueStage {
    /// The editor of the presented username is being looked up.
    FindingEditor { username: Seq<char>, password: Seq<char> },
    /// The editor is authenticated; the confirmed subscribers are being
    /// listed.
    Listing,
    /// The issue is being sent to `recipients[next]`; those before have
    /// it, those after are still to come.
    Sending { recipients: Seq<Seq<char>>, next: nat },
}

/// What a `PublishFlow` holds: the stage, and the issue.
pub struct Issue {
    pub stage: IssueStage,
    pub title: Seq<char>,
    pub html: Seq<char>,
    pub text: Seq<char>,
}

/// The failure of the store during `context`, with the words of `reply`.
pub open spec fn storage_failure(context: StorageContext, reply: Report) -> PublishFailure {
    PublishFailure::Storage(StorageFault { context, cause: reply.cause() })
}

impl Issue {
    /// The issue at the stage `stage`.
    pub open spec fn at(self, stage: IssueStage) -> Issue {
        Issue { stage, ..self }
    }

    /// The issue goes to `recipients[next]`, if there is such a recipient,
    /// and is done if there is none.
    pub open spec fn send_from(
        self,
        recipients: Seq<Seq<char>>,
        next: nat,
        gateway: Gateway,
    ) -> Outlook<Issue, PublishFailure> {
        if next < recipients.len() {
            Outlook::Continue(
                self.at(IssueStage::Sending { recipients, next }),
                Task::Send(
                    gateway.message(recipients[next as int], self.title, self.html, self.text),
                ),
            )
        } else {
            Outlook::Finished(Ok(()))
        }
    }

    /// The step that the publication takes when the host reports `reply`
    /// of the effect it was asked for.
    pub open spec fn next(self, reply: Report, gateway: Gateway) -> Outlook<Issue, PublishFailure> {
        match self.stage {
            IssueStage::FindingEditor { username, password } => match reply {
                Report::Store(StoreAnswer::Editor(stored)) => match editor_verdict(
                    stored,
                    password,
                ) {
                    Err(failure) => Outlook::Finished(Err(failure)),
                    Ok(_) => Outlook::Continue(
                        self.at(IssueStage::Listing),
                        Task::Store(StoreCommand::ListConfirmedEmails),
                    ),
                },
                _ => Outlook::Finished(
                    Err(storage_failure(StorageContext::FindCredentials, reply)),
                ),
            },
            IssueStage::Listing => match reply {
                Report::Store(StoreAnswer::Emails(emails)) => self.send_from(
                    valid_emails(emails),
                    0,
                    gateway,
                ),
                _ => Outlook::Finished(
                    Err(storage_failure(StorageContext::ListConfirmedSubscribers, reply)),
                ),
            },
            IssueStage::Sending { recipients, next } => if reply.delivery().accepted() {
                self.send_from(recipients, next + 1, gateway)
            } else {
                Outlook::Finished(
                    Err(
                        PublishFailure::Delivery(
                            DeliveryFault {
                                recipient: recipients[next as int],
                                report: reply.delivery(),
                            },
                        ),
                    ),
                )
            },
        }
    }

    /// How the publication begins when the `Authorization` header is
    /// `header`: without credentials it ends at once, with credentials it
    /// asks the store for the editor of that username.
    pub open spec fn begin(
        header: Option<Seq<u8>>,
        title: Seq<char>,
        html: Seq<char>,
        text: Seq<char>,
    ) -> Outlook<Issue, PublishFailure> {
        match credentials_of_header(header) {
            Err(reason) => Outlook::Finished(Err(PublishFailure::Auth(reason))),
            Ok((username, password)) => Outlook::Continue(
                Issue { stage: IssueStage::FindingEditor { username, password }, title, html, text },
                Task::Store(StoreCommand::FindEditor(username)),
            ),
        }
    }
}

/// A publication under way.
#[derive(Debug, PartialEq, Eq)]
pub struct PublishFlow {
    stage: Stage,
    body: NewsletterBody,
}

impl View for PublishFlow {
    type V = Issue;

    closed spec fn view(&self) -> Issue {
        Issue {
            stage: match self.stage {
                Stage::FindingEditor(credentials) => IssueStage::FindingEditor {
                    username: credentials.username@,
                    password: credentials.password@,
                },
                Stage::Listing => IssueStage::Listing,
                Stage::Sending { recipients, next } => IssueStage::Sending {
                    recipients: addresses(recipients@),
                    next: next as nat,
                },
            },
            title: self.body.title@,
            html: self.body.content.html@,
            text: self.body.content.text@,
        }
    }
}

fn storage_error(context: StorageContext, reply: Reply) -> (error: PublishError)
    ensures
        error@ == storage_failure(context, reply@),
{
    PublishError::StorageError(StorageError { context, cause: reply.into_cause() })
}

impl PublishFlow {
    #[verifier::type_invariant]
    spec fn in_range(self) -> bool {
        self.stage matches Stage::Sending { recipients, next } ==> next < recipients.len()
    }

    fn send_from(
        body: NewsletterBody,
        recipients: Vec<ConfirmedSubscriber>,
        next: usize,
        email_client: &EmailClient,
    ) -> (progress: Progress<PublishFlow, PublishError>)
        ensures
            progress@ == (Issue {
                stage: IssueStage::Listing,
                title: body.title@,
                html: body.content.html@,
                text: body.content.text@,
            }).send_from(addresses(recipients@), next as nat, email_client@),
    {
        if next < recipients.len() {
            let request = email_client.send_email(
                &recipients[next].email,
                body.title.as_str(),
                body.content.html.as_str(),
                body.content.text.as_str(),
            );
            Progress::Continue(
                PublishFlow { stage: Stage::Sending { recipients, next }, body },
                Effect::Send(request),
            )
        } else {
            Progress::Finished(Ok(()))
        }
    }

    /// Takes the next step of the publication, given what the host
    /// reports of the effect it was asked for.
    pub fn step(self, reply: Reply, email_client: &EmailClient) -> (progress: Progress<
        PublishFlow,
        PublishError,
    >)
        ensures
            progress@ == self@.next(reply@, email_client@),
    {
        proof {
            use_type_invariant(&self);
        }
        let PublishFlow { stage, body } = self;
        match stage {
            Stage::FindingEditor(credentials) => match reply {
                Reply::Store(StoreReply::Editor(stored)) => {
                    match validate_credentials(stored.as_ref(), &credentials) {
                        Err(error) => Progress::Finished(Err(error)),
                        Ok(_) => Progress::Continue(
                            PublishFlow { stage: Stage::Listing, body },
                            Effect::Store(StoreRequest::ListConfirmedEmails),
                        ),
                    }
                },
                other => Progress::Finished(
                    Err(storage_error(StorageContext::FindCredentials, other)),
                ),
            },
            Stage::Listing => match reply {
                Reply::Store(StoreReply::Emails(emails)) => {
                    let recipients = get_confirmed_subscribers(&emails);
                    Self::send_from(body, recipients, 0, email_client)
                },
                other => Progress::Finished(
                    Err(storage_error(StorageContext::ListConfirmedSubscribers, other)),
                ),
            },
            Stage::Sending { recipients, next } => {
                let report = reply.into_delivery();
                if report.succeeded() {
                    Self::send_from(body, recipients, next + 1, email_client)
                } else {
                    let recipient = recipients[next].email.as_ref().clone();
                    Progress::Finished(
                        Err(PublishError::DeliveryError(DeliveryError { recipient, report })),
                    )
                }
            },
        }
    }
}

/// Begins the publication of `body` for the request whose `Authorization`
/// header holds `authorization`, if it has that header at all.
pub fn publish_newsletter(authorization: Option<&[u8]>, body: NewsletterBody) -> (progress: Progress<
    PublishFlow,
    PublishError,
>)
    ensures
        progress@ == Issue::begin(
            match authorization {
                Some(value) => Some(value@),
                None => None,
            },
            body.title@,
            body.content.html@,
            body.content.text@,
        ),
{
    match basic_authentication(authorization) {
        Err(reason) => Progress::Finished(Err(PublishError::AuthError(reason))),
        Ok(credentials) => {
            let request = StoreRequest::FindEditor(credentials.username.clone());
            Progress::Continue(
                PublishFlow { stage: Stage::FindingEditor(credentials), body },
                Effect::Store(request),
            )
        },
    }
}

/// No email is asked for before the editor is authenticated: a request
/// without usable credentials ends at once, an editor that is unknown or
/// presents a wrong password ends the publication, and only the listing
/// and a delivery are ever followed by an email.
pub proof fn lemma_no_email_without_authentication(
    header: Option<Seq<u8>>,
    issue: Issue,
    reply: Report,
    gateway: Gateway,
)
    ensures
        !(Issue::begin(header, issue.title, issue.html, issue.text) matches Outlook::Continue(
            _,
            Task::Send(_),
        )),
        credentials_of_header(header) matches Err(reason) ==> Issue::begin(
            header,
            issue.title,
            issue.html,
            issue.text,
        ) == Outlook::<Issue, PublishFailure>::Finished(Err(PublishFailure::Auth(reason))),
        issue.next(reply, gateway) matches Outlook::Continue(_, Task::Send(_)) ==> issue.stage
            is Listing || issue.stage is Sending,
        issue.stage matches IssueStage::FindingEditor { username, password } ==> (
        reply matches Report::Store(StoreAnswer::Editor(stored)) ==> (editor_verdict(
            stored,
            password,
        ) matches Err(failure) ==> issue.next(reply, gateway) == Outlook::<
            Issue,
            PublishFailure,
        >::Finished(Err(failure)))),
{
}

/// A request without an `Authorization` header is refused as not
/// authenticated before anything else happens.
pub proof fn lemma_missing_header_is_refused(title: Seq<char>, html: Seq<char>, text: Seq<char>)
    ensures
        Issue::begin(None, title, html, text) == Outlook::<Issue, PublishFailure>::Finished(
            Err(PublishFailure::Auth(AuthError::MissingHeader)),
        ),
{
}

/// A publication that goes through its deliveries: each report of
/// `reports` answers the email that the publication asked for last, as
/// long as it asks for one.
pub open spec fn delivered(
    outlook: Outlook<Issue, PublishFailure>,
    gateway: Gateway,
    reports: Seq<Report>,
) -> Outlook<Issue, PublishFailure>
    decreases reports.len(),
{
    if reports.len() == 0 {
        outlook
    } else {
        match outlook {
            Outlook::Continue(issue, Task::Send(_)) => delivered(
                issue.next(reports[0], gateway),
                gateway,
                reports.drop_first(),
            ),
            _ => outlook,
        }
    }
}

/// Whether the gateway took every email that `reports` speaks of.
pub open spec fn all_accepted(reports: Seq<Report>) -> bool {
    forall|i: int| 0 <= i < reports.len() ==> (#[trigger] reports[i]).delivery().accepted()
}

/// While the gateway takes the emails, the issue goes to the recipients
/// one by one, in their order and each once: after as many accepted
/// deliveries as `reports` holds, the publication asks for the email to
/// the recipient that comes next, or is done with success if none is
/// left.
pub proof fn lemma_each_recipient_in_turn(
    issue: Issue,
    recipients: Seq<Seq<char>>,
    start: nat,
    gateway: Gateway,
    reports: Seq<Report>,
)
    requires
        all_accepted(reports),
        start + reports.len() <= recipients.len(),
    ensures
        delivered(issue.send_from(recipients, start, gateway), gateway, reports) == issue.send_from(
            recipients,
            start + reports.len(),
            gateway,
        ),
    decreases reports.len(),
{
    if reports.len() > 0 {
        let sending = issue.at(IssueStage::Sending { recipients, next: start });
        assert(reports[0].delivery().accepted());
        assert(sending.next(reports[0], gateway) == sending.send_from(
            recipients,
            start + 1,
            gateway,
        ));
        assert(sending.send_from(recipients, start + 1, gateway) == issue.send_from(
            recipients,
            start + 1,
            gateway,
        ));
        let rest = reports.drop_first();
        assert forall|i: int| 0 <= i < rest.len() implies (
        #[trigger] rest[i]).delivery().accepted() by {
            assert(rest[i] == reports[i + 1]);
        }
        lemma_each_recipient_in_turn(issue, recipients, start + 1, gateway, rest);
    }
}

/// The first delivery that fails ends the publication: it fails with a
/// delivery error that names the recipient of that email, and whatever is
/// reported afterwards, no recipient after that one is attempted.
pub proof fn lemma_first_failure_ends_the_publication(
    issue: Issue,
    recipients: Seq<Seq<char>>,
    gateway: Gateway,
    accepted: Seq<Report>,
    failed: Report,
    later: Seq<Report>,
)
    requires
        all_accepted(accepted),
        accepted.len() < recipients.len(),
        !failed.delivery().accepted(),
    ensures
        delivered(
            issue.send_from(recipients, 0, gateway),
            gateway,
            accepted.push(failed) + later,
        ) == Outlook::<Issue, PublishFailure>::Finished(
            Err(
                PublishFailure::Delivery(
                    DeliveryFault {
                        recipient: recipients[accepted.len() as int],
                        report: failed.delivery(),
                    },
                ),
            ),
        ),
{
    lemma_delivered_in_two_parts(
        issue.send_from(recipients, 0, gateway),
        gateway,
        accepted,
        seq![failed] + later,
    );
    assert(accepted + (seq![failed] + later) =~= accepted.push(failed) + later);
    lemma_each_recipient_in_turn(issue, recipients, 0, gateway, accepted);
    let reached = issue.send_from(recipients, accepted.len(), gateway);
    let rest = seq![failed] + later;
    assert(rest[0] == failed);
    reveal_with_fuel(delivered, 3);
}

/// Going through `first + second` is going through `first` and then
/// through `second`.
pub proof fn lemma_delivered_in_two_parts(
    outlook: Outlook<Issue, PublishFailure>,
    gateway: Gateway,
    first: Seq<Report>,
    second: Seq<Report>,
)
    ensures
        delivered(outlook, gateway, first + second) == delivered(
            delivered(outlook, gateway, first),
            gateway,
            second,
        ),
    decreases first.len(),
{
    if first.len() == 0 {
        assert(first + second =~= second);
    } else {
        assert((first + second).drop_first() =~= first.drop_first() + second);
        assert((first + second)[0] == first[0]);
        match outlook {
            Outlook::Continue(issue, Task::Send(_)) => {
                lemma_delivered_in_two_parts(
                    issue.next(first[0], gateway),
                    gateway,
                    first.drop_first(),
                    second,
                );
            },
            _ => {
                lemma_delivered_stays_finished(outlook, gateway, second);
            },
        }
    }
}

/// A publication that asks for no email is not moved by any report.
pub proof fn lemma_delivered_stays_finished(
    outlook: Outlook<Issue, PublishFailure>,
    gateway: Gateway,
    reports: Seq<Report>,
)
    requires
        !(outlook matches Outlook::Continue(_, Task::Send(_))),
    ensures
        delivered(outlook, gateway, reports) == outlook,
{
    reveal_with_fuel(delivered, 2);
}

/// A publication served by the store `tables` for up to `rounds` requests,
/// each answered as the model says.
pub open spec fn served(
    tables: Tables,
    outlook: Outlook<Issue, PublishFailure>,
    gateway: Gateway,
    rounds: nat,
) -> (Tables, Outlook<Issue, PublishFailure>)
    decreases rounds,
{
    if rounds == 0 {
        (tables, outlook)
    } else {
        match outlook {
            Outlook::Continue(issue, Task::Store(command)) => served(
                tables.after(command),
                issue.next(Report::Store(tables.answer(command)), gateway),
                gateway,
                (rounds - 1) as nat,
            ),
            _ => (tables, outlook),
        }
    }
}

/// The recipients of an issue that is published from the store `tables`:
/// the valid addresses among those of the confirmed subscribers.
pub open spec fn recipients_in(tables: Tables) -> Seq<Seq<char>> {
    valid_emails(confirmed_emails(tables.subscribers))
}

/// An authenticated publication served by the store reads and never
/// writes: after its two lookups the store holds what it held, and the
/// issue starts to go to the valid addresses of the confirmed
/// subscribers, in the order of the store; with no such subscriber it is
/// done with success and no email.  A publication that is not
/// authenticated ends with its failure and asks for nothing more.
pub proof fn lemma_issue_goes_to_the_confirmed(
    tables: Tables,
    header: Option<Seq<u8>>,
    issue: Issue,
    gateway: Gateway,
)
    ensures
        ({
            let begun = Issue::begin(header, issue.title, issue.html, issue.text);
            let (stored, outlook) = served(tables, begun, gateway, 2);
            &&& stored == tables
            &&& match credentials_of_header(header) {
                Err(reason) => outlook == Outlook::<Issue, PublishFailure>::Finished(
                    Err(PublishFailure::Auth(reason)),
                ),
                Ok((username, password)) => match editor_verdict(
                    editor_named(tables.editors, username),
                    password,
                ) {
                    Err(failure) => outlook == Outlook::<Issue, PublishFailure>::Finished(
                        Err(failure),
                    ),
                    Ok(_) => outlook == issue.send_from(recipients_in(tables), 0, gateway),
                },
            }
        }),
{
    reveal_with_fuel(served, 3);
}

/// Every recipient of an issue is the address of a subscriber who is
/// confirmed: a pending subscriber gets no issue.
pub proof fn lemma_recipients_are_confirmed(tables: Tables, k: int)
    requires
        0 <= k < recipients_in(tables).len(),
    ensures
        exists|i: int|
            0 <= i < tables.subscribers.len() && (#[trigger] tables.subscribers[i]).status
                == SubscriptionStatus::Confirmed && tables.subscribers[i].email == recipients_in(
                tables,
            )[k],
{
    let listed = confirmed_emails(tables.subscribers);
    let valid = |email: Seq<char>| email_is_valid(email);
    let email = recipients_in(tables)[k];
    assert(listed.filter(valid).contains(email));
    listed.lemma_filter_contains_rev(valid, email);
    let j = choose|j: int| 0 <= j < listed.len() && listed[j] == email;
    lemma_listing_holds_confirmed_only(tables.subscribers, j);
}

} // verus!
