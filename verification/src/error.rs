//! The failures that the workflows report, apart from their own error
//! types.

use crate::text::texts;
use vstd::prelude::*;
use vstd::string::StringExecFns;

verus! {

/// Why a request for publication was not authenticated.  Every reason is
/// answered in the same way; the message tells them apart.
#[derive(Clone, Copy, Debug, PartialEq, Eq, Structural)]
pub enum AuthError {
    MissingHeader,
    HeaderNotText,
    NotBasicScheme,
    InvalidBase64,
    CredentialsNotUtf8,
    MissingPassword,
    UnknownUsername,
    InvalidPassword,
}

impl AuthError {
    pub open spec fn text(&self) -> Seq<char> {
        match self {
            AuthError::MissingHeader => "The 'Authorization' header was missing"@,
            AuthError::HeaderNotText => "The 'Authorization' header was not a valid UTF-8 string."@,
            AuthError::NotBasicScheme => "The authorization scheme was not 'Basic'."@,
            AuthError::InvalidBase64 => "Failed to base64-decode 'Basic' credentials"@,
            AuthError::CredentialsNotUtf8 => "The decoded credential string is not a valid UTF-8."@,
            AuthError::MissingPassword => "A password must be provided in 'Basic' auth"@,
            AuthError::UnknownUsername => "Unknown username"@,
            AuthError::InvalidPassword => "Invalid password"@,
        }
    }

    /// The message that tells this reason from the others.
    pub fn message(&self) -> (m: &'static str)
        ensures
            m@ == self.text(),
    {
        match self {
            AuthError::MissingHeader => "The 'Authorization' header was missing",
            AuthError::HeaderNotText => "The 'Authorization' header was not a valid UTF-8 string.",
            AuthError::NotBasicScheme => "The authorization scheme was not 'Basic'.",
            AuthError::InvalidBase64 => "Failed to base64-decode 'Basic' credentials",
            AuthError::CredentialsNotUtf8 => "The decoded credential string is not a valid UTF-8.",
            AuthError::MissingPassword => "A password must be provided in 'Basic' auth",
            AuthError::UnknownUsername => "Unknown username",
            AuthError::InvalidPassword => "Invalid password",
        }
    }
}

/// The store operation during which a failure came up.
#[derive(Clone, Copy, Debug, PartialEq, Eq, Structural)]
pub enum StorageContext {
    AcquireConnection,
    InsertSubscriber,
    StoreToken,
    CommitTransaction,
    FindSubscriber,
    ConfirmSubscriber,
    FindCredentials,
    ParseStoredHash,
    ListConfirmedSubscribers,
}

impl StorageContext {
    pub open spec fn text(&self) -> Seq<char> {
        match self {
            StorageContext::AcquireConnection =>
                "Failed to acquire a Postgres connection from the pool"@,
            StorageContext::InsertSubscriber => "Failed to insert subscriber to database"@,
            StorageContext::StoreToken =>
                "Failed to store confirmation token for a new subscriber"@,
            StorageContext::CommitTransaction =>
                "Failed to commit the transaction [store a new subscriber to db]"@,
            StorageContext::FindSubscriber =>
                "Failed to look up the subscriber of a confirmation token"@,
            StorageContext::ConfirmSubscriber =>
                "Failed to mark the subscriber as confirmed"@,
            StorageContext::FindCredentials =>
                "Failed to perform a query to retrieve stored credentials."@,
            StorageContext::ParseStoredHash =>
                "Failed to parse hash in PHC string format"@,
            StorageContext::ListConfirmedSubscribers =>
                "Failed to retrieve the confirmed subscribers"@,
        }
    }

    /// What was being done when the store failed.
    pub fn message(&self) -> (m: &'static str)
        ensures
            m@ == self.text(),
    {
        match self {
            StorageContext::AcquireConnection =>
                "Failed to acquire a Postgres connection from the pool",
            StorageContext::InsertSubscriber => "Failed to insert subscriber to database",
            StorageContext::StoreToken =>
                "Failed to store confirmation token for a new subscriber",
            StorageContext::CommitTransaction =>
                "Failed to commit the transaction [store a new subscriber to db]",
            StorageContext::FindSubscriber =>
                "Failed to look up the subscriber of a confirmation token",
            StorageContext::ConfirmSubscriber =>
                "Failed to mark the subscriber as confirmed",
            StorageContext::FindCredentials =>
                "Failed to perform a query to retrieve stored credentials.",
            StorageContext::ParseStoredHash =>
                "Failed to parse hash in PHC string format",
            StorageContext::ListConfirmedSubscribers =>
                "Failed to retrieve the confirmed subscribers",
        }
    }
}

/// A failure of the store: what was attempted, and what the store said.
#[derive(Debug, PartialEq, Eq)]
pub struct StorageError {
    pub context: StorageContext,
    pub cause: String,
}

/// What a `StorageError` holds.
pub struct StorageFault {
    pub context: StorageContext,
    pub cause: Seq<char>,
}

impl View for StorageError {
    type V = StorageFault;

    open spec fn view(&self) -> StorageFault {
        StorageFault { context: self.context, cause: self.cause@ }
    }
}

/// What the email gateway reported of one request: the status of its
/// response, or that no response came.
#[derive(Debug, PartialEq, Eq)]
pub enum Delivery {
    Responded(u16),
    Failed(String),
}

/// What a `Delivery` holds.
pub enum DeliveryReport {
    Responded(u16),
    Failed(Seq<char>),
}

impl DeliveryReport {
    /// The gateway took the email when it answered with a 2xx status.
    pub open spec fn accepted(self) -> bool {
        self matches DeliveryReport::Responded(status) && 200 <= status && status < 300
    }
}

impl View for Delivery {
    type V = DeliveryReport;

    open spec fn view(&self) -> DeliveryReport {
        match self {
            Delivery::Responded(status) => DeliveryReport::Responded(*status),
            Delivery::Failed(cause) => DeliveryReport::Failed(cause@),
        }
    }
}

impl Delivery {
    /// Whether the gateway took the email.
    pub fn succeeded(&self) -> (b: bool)
        ensures
            b == self@.accepted(),
    {
        match self {
            Delivery::Responded(status) => 200 <= *status && *status < 300,
            Delivery::Failed(_) => false,
        }
    }
}

/// A failure to hand an email to the gateway: for whom it was, and what
/// the gateway reported.
#[derive(Debug, PartialEq, Eq)]
pub struct DeliveryError {
    pub recipient: String,
    pub report: Delivery,
}

/// What a `DeliveryError` holds.
pub struct DeliveryFault {
    pub recipient: Seq<char>,
    pub report: DeliveryReport,
}

impl View for DeliveryError {
    type V = DeliveryFault;

    open spec fn view(&self) -> DeliveryFault {
        DeliveryFault { recipient: self.recipient@, report: self.report@ }
    }
}

/// The result `r` with its error replaced by what the error holds.
pub open spec fn failure_of<T, E: View>(r: Result<T, E>) -> Result<T, E::V> {
    match r {
        Ok(value) => Ok(value),
        Err(error) => Err(error@),
    }
}

/// The lines that name the causes `causes` of an error, the nearest
/// first.
pub open spec fn causes_text(causes: Seq<Seq<char>>) -> Seq<char>
    decreases causes.len(),
{
    if causes.len() == 0 {
        Seq::empty()
    } else {
        causes_text(causes.drop_last()) + "Caused by: \n\t"@ + causes.last() + "\n"@
    }
}

/// The report of an error with the message `message` and the causes
/// `causes`: the message, an empty line, and one entry for each cause.
pub open spec fn chain_text(message: Seq<char>, causes: Seq<Seq<char>>) -> Seq<char> {
    message + "\n\n"@ + causes_text(causes)
}

/// Writes an error out with the chain of its causes, the nearest cause
/// first.
pub fn error_chain_fmt(message: &str, causes: &Vec<String>) -> (report: String)
    ensures
        report@ == chain_text(message@, texts(causes@)),
{
    let ghost all = texts(causes@);
    let mut report = String::from_str(message);
    report.append("\n\n");
    let mut i: usize = 0;
    assert(all.take(0) =~= Seq::empty());
    while i < causes.len()
        invariant
            0 <= i <= causes.len(),
            all == texts(causes@),
            report@ == chain_text(message@, all.take(i as int)),
        decreases causes.len() - i,
    {
        proof {
            let longer = all.take(i + 1);
            assert(longer.drop_last() =~= all.take(i as int));
            assert(longer.last() == causes@[i as int]@);
        }
        report.append("Caused by: \n\t");
        report.append(causes[i].as_str());
        report.append("\n");
        i += 1;
        assert(report@ =~= chain_text(message@, all.take(i as int)));
    }
    assert(all.take(causes.len() as int) =~= all);
    report
}

} // verus!
