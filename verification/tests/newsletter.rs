use kobo::domain::SubscriberEmail;
use kobo::email_client::{EmailClient, EmailRequest};
use kobo::error::{AuthError, Delivery, DeliveryError, StorageContext, StorageError};
use kobo::routes::newsletter::{
    get_confirmed_subscribers, publish_newsletter, Content, ErrorResponse, NewsletterBody,
    PublishError, PublishFlow,
};
use kobo::store::memory::MemoryStore;
use kobo::store::{
    EditorRecord, StoreReply, StoreRequest, SubscriberRecord, SubscriptionStatus, TokenRecord,
};
use kobo::workflow::{Effect, Progress, Reply};

/// The PHC string of the password `password`, hashed with the salt
/// `somesalt`.
const HASH_OF_PASSWORD: &str =
    "$argon2id$v=19$m=256,t=2,p=1$c29tZXNhbHQ$nf65EOgLrQMR/uIPnA4rEsF5h7TKyQwu9U1bMCHGi/4";

/// `Basic` with the base64 of `editor:password`.
const EDITOR_WITH_PASSWORD: &[u8] = b"Basic ZWRpdG9yOnBhc3N3b3Jk";

/// `Basic` with the base64 of `editor:wrong`.
const EDITOR_WITH_WRONG_PASSWORD: &[u8] = b"Basic ZWRpdG9yOndyb25n";

/// `Basic` with the base64 of `nobody:password`.
const NOBODY_WITH_PASSWORD: &[u8] = b"Basic bm9ib2R5OnBhc3N3b3Jk";

fn client() -> EmailClient {
    EmailClient::new(
        "http://email.example",
        SubscriberEmail::parse("newsletter@example.com").unwrap(),
        "secret-token".to_string(),
        10_000,
    )
}

fn issue() -> NewsletterBody {
    NewsletterBody {
        title: "Newsletter title".to_string(),
        content: Content {
            html: "<p>Newsletter body</p>".to_string(),
            text: "Newsletter body as plain text".to_string(),
        },
    }
}

fn issue_for(recipient: &str) -> EmailRequest {
    EmailRequest {
        base_url: "http://email.example".to_string(),
        auth_token: "secret-token".to_string(),
        timeout_millis: 10_000,
        from: "newsletter@example.com".to_string(),
        to: recipient.to_string(),
        subject: "Newsletter title".to_string(),
        html_body: "<p>Newsletter body</p>".to_string(),
        text_body: "Newsletter body as plain text".to_string(),
    }
}

/// A store with the editor `editor`, whose password is `password`, and
/// with the given subscribers.
fn store_with(subscribers: Vec<(&str, SubscriptionStatus)>) -> MemoryStore {
    let mut store = MemoryStore::new();
    store.add_editor(EditorRecord {
        user_id: 1,
        username: "editor".to_string(),
        password_hash: HASH_OF_PASSWORD.to_string(),
    });
    assert_eq!(store.execute(StoreRequest::Begin), StoreReply::Done);
    let mut id: u128 = 0;
    for (email, status) in subscribers {
        id += 1;
        let row = SubscriberRecord {
            id,
            email: email.to_string(),
            name: "name".to_string(),
            subscribed_at: 0,
            status,
        };
        assert_eq!(store.execute(StoreRequest::InsertSubscriber(row)), StoreReply::Done);
        let token = TokenRecord { token: format!("token-{}", id), subscriber_id: id };
        assert_eq!(store.execute(StoreRequest::StoreToken(token)), StoreReply::Done);
    }
    assert_eq!(store.execute(StoreRequest::Commit), StoreReply::Done);
    store
}

/// Serves a publication from `store`.  The gateway takes every email but
/// the one with the number `failing`, counted from 0.  Gives the result
/// and the emails that were asked for.
fn serve(
    store: &mut MemoryStore,
    authorization: Option<&[u8]>,
    failing: Option<usize>,
) -> (Result<(), PublishError>, Vec<EmailRequest>) {
    let client = client();
    let mut outbox: Vec<EmailRequest> = Vec::new();
    let mut progress: Progress<PublishFlow, PublishError> = publish_newsletter(authorization, issue());
    loop {
        let (flow, effect) = match progress {
            Progress::Continue(flow, effect) => (flow, effect),
            Progress::Finished(result) => return (result, outbox),
        };
        let reply = match effect {
            Effect::Store(request) => Reply::Store(store.execute(request)),
            Effect::Send(request) => {
                let status = if failing == Some(outbox.len()) { 500 } else { 200 };
                outbox.push(request);
                Reply::Email(Delivery::Responded(status))
            }
        };
        progress = flow.step(reply, &client);
    }
}

#[test]
fn newsletters_are_not_delivered_to_unconfirmed_subscribers() {
    let mut store = store_with(vec![("john_doe@gmail.com", SubscriptionStatus::PendingConfirmation)]);
    let (result, outbox) = serve(&mut store, Some(EDITOR_WITH_PASSWORD), None);
    assert_eq!(result, Ok(()));
    assert_eq!(outbox.len(), 0);
}

#[test]
fn newsletter_is_delivered_to_confirmed_subscribers() {
    let mut store = store_with(vec![("john_doe@gmail.com", SubscriptionStatus::Confirmed)]);
    let (result, outbox) = serve(&mut store, Some(EDITOR_WITH_PASSWORD), None);
    assert_eq!(result, Ok(()));
    assert_eq!(outbox, vec![issue_for("john_doe@gmail.com")]);
}

#[test]
fn requests_missing_authorization_are_rejected() {
    let mut store = store_with(vec![("john_doe@gmail.com", SubscriptionStatus::Confirmed)]);
    let (result, outbox) = serve(&mut store, None, None);
    let error = result.unwrap_err();
    assert_eq!(error, PublishError::AuthError(AuthError::MissingHeader));
    let response = error.error_response();
    assert_eq!(response.status, 401);
    assert_eq!(response.www_authenticate, Some(r#"Basic realm="publish""#));
    assert!(outbox.is_empty());
}

#[test]
fn two_confirmed_and_one_pending_subscriber_get_two_emails() {
    let mut store = store_with(vec![
        ("one@gmail.com", SubscriptionStatus::Confirmed),
        ("two@gmail.com", SubscriptionStatus::PendingConfirmation),
        ("three@gmail.com", SubscriptionStatus::Confirmed),
    ]);
    let (result, outbox) = serve(&mut store, Some(EDITOR_WITH_PASSWORD), None);
    assert_eq!(result, Ok(()));
    assert_eq!(outbox, vec![issue_for("one@gmail.com"), issue_for("three@gmail.com")]);
}

#[test]
fn no_confirmed_subscriber_means_no_email_and_success() {
    let mut store = store_with(vec![]);
    let (result, outbox) = serve(&mut store, Some(EDITOR_WITH_PASSWORD), None);
    assert_eq!(result, Ok(()));
    assert!(outbox.is_empty());
}

#[test]
fn a_wrong_password_is_rejected_with_a_challenge_and_no_email() {
    let mut store = store_with(vec![("john_doe@gmail.com", SubscriptionStatus::Confirmed)]);
    let (result, outbox) = serve(&mut store, Some(EDITOR_WITH_WRONG_PASSWORD), None);
    let error = result.unwrap_err();
    assert_eq!(error, PublishError::AuthError(AuthError::InvalidPassword));
    assert_eq!(
        error.error_response(),
        ErrorResponse { status: 401, www_authenticate: Some("Basic realm=\"publish\"") }
    );
    assert!(outbox.is_empty());
}

#[test]
fn an_unknown_username_is_rejected_like_a_wrong_password() {
    let mut store = store_with(vec![("john_doe@gmail.com", SubscriptionStatus::Confirmed)]);
    let (result, outbox) = serve(&mut store, Some(NOBODY_WITH_PASSWORD), None);
    let error = result.unwrap_err();
    assert_eq!(error, PublishError::AuthError(AuthError::UnknownUsername));
    assert_eq!(
        error.error_response(),
        PublishError::AuthError(AuthError::InvalidPassword).error_response()
    );
    assert_eq!(error.message(), PublishError::AuthError(AuthError::InvalidPassword).message());
    assert!(outbox.is_empty());
}

#[test]
fn another_scheme_is_rejected_before_the_store_is_asked() {
    let progress = publish_newsletter(Some(b"Bearer abc"), issue());
    assert_eq!(
        progress,
        Progress::Finished(Err(PublishError::AuthError(AuthError::NotBasicScheme)))
    );
}

#[test]
fn the_second_failure_of_three_leaves_the_third_untried() {
    let mut store = store_with(vec![
        ("one@gmail.com", SubscriptionStatus::Confirmed),
        ("two@gmail.com", SubscriptionStatus::Confirmed),
        ("three@gmail.com", SubscriptionStatus::Confirmed),
    ]);
    let (result, outbox) = serve(&mut store, Some(EDITOR_WITH_PASSWORD), Some(1));
    assert_eq!(
        result,
        Err(PublishError::DeliveryError(DeliveryError {
            recipient: "two@gmail.com".to_string(),
            report: Delivery::Responded(500),
        }))
    );
    assert_eq!(outbox, vec![issue_for("one@gmail.com"), issue_for("two@gmail.com")]);
}

#[test]
fn the_first_failure_leaves_everybody_else_untried() {
    let mut store = store_with(vec![
        ("one@gmail.com", SubscriptionStatus::Confirmed),
        ("two@gmail.com", SubscriptionStatus::Confirmed),
    ]);
    let (result, outbox) = serve(&mut store, Some(EDITOR_WITH_PASSWORD), Some(0));
    assert_eq!(
        result.unwrap_err().message(),
        "Failed to send newsletter issue to one@gmail.com"
    );
    assert_eq!(outbox.len(), 1);
}

#[test]
fn a_failure_at_the_last_recipient_is_still_a_failure() {
    let mut store = store_with(vec![
        ("one@gmail.com", SubscriptionStatus::Confirmed),
        ("two@gmail.com", SubscriptionStatus::Confirmed),
    ]);
    let (result, outbox) = serve(&mut store, Some(EDITOR_WITH_PASSWORD), Some(1));
    assert!(matches!(result, Err(PublishError::DeliveryError(_))));
    assert_eq!(outbox.len(), 2);
}

#[test]
fn a_stored_address_that_is_not_valid_is_skipped() {
    let mut store = store_with(vec![
        ("one@gmail.com", SubscriptionStatus::Confirmed),
        ("not-an-address", SubscriptionStatus::Confirmed),
        ("three@gmail.com", SubscriptionStatus::Confirmed),
    ]);
    let (result, outbox) = serve(&mut store, Some(EDITOR_WITH_PASSWORD), None);
    assert_eq!(result, Ok(()));
    assert_eq!(outbox, vec![issue_for("one@gmail.com"), issue_for("three@gmail.com")]);
}

#[test]
fn only_invalid_addresses_means_no_email_and_success() {
    let mut store = store_with(vec![("not-an-address", SubscriptionStatus::Confirmed)]);
    let (result, outbox) = serve(&mut store, Some(EDITOR_WITH_PASSWORD), None);
    assert_eq!(result, Ok(()));
    assert!(outbox.is_empty());
}

#[test]
fn publishing_changes_nothing_in_the_store() {
    let mut store = store_with(vec![
        ("one@gmail.com", SubscriptionStatus::Confirmed),
        ("two@gmail.com", SubscriptionStatus::PendingConfirmation),
    ]);
    let (result, _) = serve(&mut store, Some(EDITOR_WITH_PASSWORD), None);
    assert_eq!(result, Ok(()));
    assert_eq!(store.subscribers().len(), 2);
    assert_eq!(store.subscribers()[0].status, SubscriptionStatus::Confirmed);
    assert_eq!(store.subscribers()[1].status, SubscriptionStatus::PendingConfirmation);
    assert_eq!(store.tokens().len(), 2);
}

#[test]
fn a_publication_first_asks_for_the_editor() {
    let progress = publish_newsletter(Some(EDITOR_WITH_PASSWORD), issue());
    let Progress::Continue(_, effect) = progress else {
        panic!("the publication ended early");
    };
    assert_eq!(effect, Effect::Store(StoreRequest::FindEditor("editor".to_string())));
}

#[test]
fn a_lookup_of_the_editor_that_fails_is_a_failure_of_the_store() {
    let Progress::Continue(flow, _) = publish_newsletter(Some(EDITOR_WITH_PASSWORD), issue())
    else {
        panic!("the publication ended early");
    };
    let progress = flow.step(Reply::Store(StoreReply::Failed("pool closed".to_string())), &client());
    let expected = PublishError::StorageError(StorageError {
        context: StorageContext::FindCredentials,
        cause: "pool closed".to_string(),
    });
    assert_eq!(expected.error_response(), ErrorResponse { status: 500, www_authenticate: None });
    assert_eq!(progress, Progress::Finished(Err(expected)));
}

#[test]
fn a_listing_that_fails_is_a_failure_of_the_store() {
    let Progress::Continue(flow, _) = publish_newsletter(Some(EDITOR_WITH_PASSWORD), issue())
    else {
        panic!("the publication ended early");
    };
    let stored = EditorRecord {
        user_id: 1,
        username: "editor".to_string(),
        password_hash: HASH_OF_PASSWORD.to_string(),
    };
    let client = client();
    let Progress::Continue(flow, effect) =
        flow.step(Reply::Store(StoreReply::Editor(Some(stored))), &client)
    else {
        panic!("the publication ended early");
    };
    assert_eq!(effect, Effect::Store(StoreRequest::ListConfirmedEmails));
    assert_eq!(
        flow.step(Reply::Store(StoreReply::Failed("pool closed".to_string())), &client),
        Progress::Finished(Err(PublishError::StorageError(StorageError {
            context: StorageContext::ListConfirmedSubscribers,
            cause: "pool closed".to_string(),
        })))
    );
}

#[test]
fn an_editor_with_a_malformed_hash_is_answered_with_500() {
    let Progress::Continue(flow, _) = publish_newsletter(Some(EDITOR_WITH_PASSWORD), issue())
    else {
        panic!("the publication ended early");
    };
    let stored = EditorRecord {
        user_id: 1,
        username: "editor".to_string(),
        password_hash: "password".to_string(),
    };
    let progress = flow.step(Reply::Store(StoreReply::Editor(Some(stored))), &client());
    let Progress::Finished(Err(error)) = progress else {
        panic!("the publication went on");
    };
    assert_eq!(error.error_response().status, 500);
    assert_eq!(error.message(), "Failed to parse hash in PHC string format");
}

#[test]
fn the_valid_addresses_are_kept_in_their_order() {
    let rows = vec![
        "a@b.c".to_string(),
        "".to_string(),
        "d@e.f".to_string(),
        "@e.f".to_string(),
        "a@b.c".to_string(),
    ];
    let kept: Vec<String> = get_confirmed_subscribers(&rows)
        .iter()
        .map(|subscriber| subscriber.email.as_ref().clone())
        .collect();
    assert_eq!(kept, vec!["a@b.c".to_string(), "d@e.f".to_string(), "a@b.c".to_string()]);
    assert!(get_confirmed_subscribers(&Vec::new()).is_empty());
}

#[test]
fn a_failed_authentication_says_the_same_whatever_the_reason() {
    for reason in [
        AuthError::MissingHeader,
        AuthError::HeaderNotText,
        AuthError::NotBasicScheme,
        AuthError::InvalidBase64,
        AuthError::CredentialsNotUtf8,
        AuthError::MissingPassword,
        AuthError::UnknownUsername,
        AuthError::InvalidPassword,
    ] {
        let error = PublishError::AuthError(reason);
        assert_eq!(error.message(), "Authentication failed.");
        assert_eq!(error.error_response().status, 401);
    }
}
