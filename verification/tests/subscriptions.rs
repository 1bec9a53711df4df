use kobo::domain::{NewSubscriber, SubscriberEmail, SubscriberName};
use kobo::email_client::{EmailClient, EmailRequest};
use kobo::error::{Delivery, DeliveryError, StorageContext, StorageError};
use kobo::routes::subscriptions::{
    confirmation_link, generate_subscription_token, insert_subscriber, send_confirmation_link,
    store_subscription_token, subscribe, FormData, SubscribeError, SubscribeFlow,
};
use kobo::startup::ApplicationBaseUrl;
use kobo::store::memory::MemoryStore;
use kobo::store::{
    StoreReply, StoreRequest, SubscriberRecord, SubscriptionStatus, TokenRecord,
};
use kobo::workflow::{Effect, Progress, Reply};
use linkify::{LinkFinder, LinkKind};

fn client() -> EmailClient {
    EmailClient::new(
        "http://email.example",
        SubscriberEmail::parse("newsletter@example.com").unwrap(),
        "secret-token".to_string(),
        10_000,
    )
}

fn form(email: &str, name: &str) -> FormData {
    FormData { email: email.to_string(), name: name.to_string() }
}

fn base_url() -> ApplicationBaseUrl {
    ApplicationBaseUrl("http://127.0.0.1".to_string())
}

fn storage(context: StorageContext, cause: &str) -> SubscribeError {
    SubscribeError::StorageError(StorageError { context, cause: cause.to_string() })
}

/// Serves a signup from `store`, and answers every email with `status`.
/// Gives the result of the signup and the emails that it asked for.
fn serve(
    store: &mut MemoryStore,
    start: (SubscribeFlow, Effect),
    status: u16,
) -> (Result<(), SubscribeError>, Vec<EmailRequest>) {
    let client = client();
    let mut outbox = Vec::new();
    let (mut flow, mut effect) = start;
    loop {
        let reply = match effect {
            Effect::Store(request) => Reply::Store(store.execute(request)),
            Effect::Send(request) => {
                outbox.push(request);
                Reply::Email(Delivery::Responded(status))
            }
        };
        match flow.step(reply, &client) {
            Progress::Continue(next, asked) => {
                flow = next;
                effect = asked;
            }
            Progress::Finished(result) => return (result, outbox),
        }
    }
}

/// Plays a signup with a given id, time and token against the replies
/// `replies`, and gives the effects that the signup asked for, with its
/// result if it came to one.
fn play(form: FormData, replies: Vec<Reply>) -> (Vec<Effect>, Option<Result<(), SubscribeError>>) {
    let client = client();
    let (mut flow, first) =
        SubscribeFlow::new(form, "http://127.0.0.1", 7, 1_700_000_000_000_000, token_text());
    let mut effects = vec![first];
    for reply in replies {
        match flow.step(reply, &client) {
            Progress::Continue(next, asked) => {
                flow = next;
                effects.push(asked);
            }
            Progress::Finished(result) => return (effects, Some(result)),
        }
    }
    (effects, None)
}

fn token_text() -> String {
    "abcdefghijklmnopqrstuvw".to_string()
}

fn done() -> Reply {
    Reply::Store(StoreReply::Done)
}

fn failed(cause: &str) -> Reply {
    Reply::Store(StoreReply::Failed(cause.to_string()))
}

fn links_in(text: &str) -> Vec<String> {
    LinkFinder::new()
        .links(text)
        .filter(|link| *link.kind() == LinkKind::Url)
        .map(|link| link.as_str().to_string())
        .collect()
}

#[test]
fn subscribe_persists_the_subscriber_and_its_token_and_sends_one_link() {
    let mut store = MemoryStore::new();
    let start = subscribe(form("ursula_le_guin@gmail.com", "le guin"), &base_url());
    let (result, outbox) = serve(&mut store, start, 200);
    assert_eq!(result, Ok(()));

    assert_eq!(store.subscribers().len(), 1);
    let saved = &store.subscribers()[0];
    assert_eq!(saved.email, "ursula_le_guin@gmail.com");
    assert_eq!(saved.name, "le guin");
    assert_eq!(saved.status, SubscriptionStatus::PendingConfirmation);

    assert_eq!(store.tokens().len(), 1);
    let token = &store.tokens()[0];
    assert_eq!(token.subscriber_id, saved.id);

    assert_eq!(outbox.len(), 1);
    let email = &outbox[0];
    assert_eq!(email.to, "ursula_le_guin@gmail.com");
    assert_eq!(email.from, "newsletter@example.com");
    assert_eq!(email.subject, "Welcome!");
    let expected = format!(
        "http://127.0.0.1/subscriptions/confirm?subscription_token={}",
        token.token
    );
    assert_eq!(links_in(&email.html_body), vec![expected.clone()]);
    assert_eq!(links_in(&email.text_body), vec![expected]);
}

#[test]
fn the_token_of_a_signup_has_23_letters_and_digits() {
    let mut store = MemoryStore::new();
    let start = subscribe(form("ursula_le_guin@gmail.com", "le guin"), &base_url());
    let (result, _) = serve(&mut store, start, 200);
    assert_eq!(result, Ok(()));
    let token = &store.tokens()[0].token;
    assert_eq!(token.chars().count(), 23);
    assert!(token.chars().all(|c| c.is_ascii_alphanumeric()));
}

#[test]
fn the_id_of_a_signup_is_a_version_4_uuid() {
    let mut store = MemoryStore::new();
    let start = subscribe(form("ursula_le_guin@gmail.com", "le guin"), &base_url());
    let (result, _) = serve(&mut store, start, 200);
    assert_eq!(result, Ok(()));
    let id = uuid::Uuid::from_u128(store.subscribers()[0].id);
    assert_eq!(id.get_version_num(), 4);
    assert_eq!(id.get_variant(), uuid::Variant::RFC4122);
}

#[test]
fn the_time_of_a_signup_is_the_time_of_the_clock() {
    let before = std::time::SystemTime::now()
        .duration_since(std::time::UNIX_EPOCH)
        .unwrap()
        .as_micros() as i64;
    let mut store = MemoryStore::new();
    let start = subscribe(form("ursula_le_guin@gmail.com", "le guin"), &base_url());
    let (result, _) = serve(&mut store, start, 200);
    assert_eq!(result, Ok(()));
    let after = std::time::SystemTime::now()
        .duration_since(std::time::UNIX_EPOCH)
        .unwrap()
        .as_micros() as i64;
    let at = store.subscribers()[0].subscribed_at;
    assert!(before - 1_000_000 <= at && at <= after + 1_000_000, "{} {} {}", before, at, after);
}

#[test]
fn two_signups_get_two_ids_and_two_tokens() {
    let mut store = MemoryStore::new();
    for _ in 0..2 {
        let start = subscribe(form("ursula_le_guin@gmail.com", "le guin"), &base_url());
        assert_eq!(serve(&mut store, start, 200).0, Ok(()));
    }
    assert_eq!(store.subscribers().len(), 2);
    assert_ne!(store.subscribers()[0].id, store.subscribers()[1].id);
    assert_eq!(store.tokens().len(), 2);
    assert_ne!(store.tokens()[0].token, store.tokens()[1].token);
    assert_eq!(store.tokens()[0].subscriber_id, store.subscribers()[0].id);
    assert_eq!(store.tokens()[1].subscriber_id, store.subscribers()[1].id);
}

#[test]
fn a_signup_asks_for_its_effects_in_order() {
    let (effects, result) = play(
        form("ursula_le_guin@gmail.com", "le guin"),
        vec![done(), done(), done(), done(), Reply::Email(Delivery::Responded(200))],
    );
    assert_eq!(result, Some(Ok(())));
    let link = "http://127.0.0.1/subscriptions/confirm?subscription_token=abcdefghijklmnopqrstuvw";
    assert_eq!(
        effects,
        vec![
            Effect::Store(StoreRequest::Begin),
            Effect::Store(StoreRequest::InsertSubscriber(SubscriberRecord {
                id: 7,
                email: "ursula_le_guin@gmail.com".to_string(),
                name: "le guin".to_string(),
                subscribed_at: 1_700_000_000_000_000,
                status: SubscriptionStatus::PendingConfirmation,
            })),
            Effect::Store(StoreRequest::StoreToken(TokenRecord {
                token: token_text(),
                subscriber_id: 7,
            })),
            Effect::Store(StoreRequest::Commit),
            Effect::Send(EmailRequest {
                base_url: "http://email.example".to_string(),
                auth_token: "secret-token".to_string(),
                timeout_millis: 10_000,
                from: "newsletter@example.com".to_string(),
                to: "ursula_le_guin@gmail.com".to_string(),
                subject: "Welcome!".to_string(),
                html_body: format!(
                    "Welcome!<br />Click <a href=\"{}\">here</a> to confirm your subscription.",
                    link
                ),
                text_body: format!(
                    "Welcome to our newsletter!<br />Click <a href=\"{}\">here</a> to confirm your subscription.",
                    link
                ),
            }),
        ]
    );
}

#[test]
fn a_signup_without_a_connection_ends_at_once() {
    let (effects, result) = play(form("ursula_le_guin@gmail.com", "le guin"), vec![failed("pool timed out")]);
    assert_eq!(effects, vec![Effect::Store(StoreRequest::Begin)]);
    assert_eq!(result, Some(Err(storage(StorageContext::AcquireConnection, "pool timed out"))));
}

#[test]
fn an_invalid_name_is_refused_and_the_transaction_rolled_back() {
    let (effects, result) = play(form("ursula_le_guin@gmail.com", "le {guin}"), vec![done(), done()]);
    assert_eq!(
        effects,
        vec![Effect::Store(StoreRequest::Begin), Effect::Store(StoreRequest::Rollback)]
    );
    assert_eq!(
        result,
        Some(Err(SubscribeError::ValidationError(
            "le {guin} is not a valid subscriber name".to_string()
        )))
    );
}

#[test]
fn an_invalid_email_is_refused_and_the_transaction_rolled_back() {
    let (effects, result) = play(form("definitely-not-an-email", "le guin"), vec![done(), done()]);
    assert_eq!(
        effects,
        vec![Effect::Store(StoreRequest::Begin), Effect::Store(StoreRequest::Rollback)]
    );
    assert_eq!(
        result,
        Some(Err(SubscribeError::ValidationError(
            "definitely-not-an-email is not a valid subscriber email".to_string()
        )))
    );
}

#[test]
fn the_name_is_validated_before_the_email() {
    let (_, result) = play(form("", ""), vec![done(), done()]);
    assert_eq!(
        result,
        Some(Err(SubscribeError::ValidationError(" is not a valid subscriber name".to_string())))
    );
}

#[test]
fn a_rollback_that_fails_does_not_hide_the_first_failure() {
    let (_, result) = play(form("", "le guin"), vec![done(), failed("connection lost")]);
    assert_eq!(
        result,
        Some(Err(SubscribeError::ValidationError(" is not a valid subscriber email".to_string())))
    );
}

#[test]
fn a_failed_insert_is_rolled_back() {
    let (effects, result) = play(
        form("ursula_le_guin@gmail.com", "le guin"),
        vec![done(), failed("disk full"), done()],
    );
    assert_eq!(effects.len(), 3);
    assert_eq!(effects[2], Effect::Store(StoreRequest::Rollback));
    assert_eq!(result, Some(Err(storage(StorageContext::InsertSubscriber, "disk full"))));
}

#[test]
fn a_failed_token_is_rolled_back() {
    let (effects, result) = play(
        form("ursula_le_guin@gmail.com", "le guin"),
        vec![done(), done(), failed("disk full"), done()],
    );
    assert_eq!(effects.len(), 4);
    assert_eq!(effects[3], Effect::Store(StoreRequest::Rollback));
    assert_eq!(result, Some(Err(storage(StorageContext::StoreToken, "disk full"))));
}

#[test]
fn a_failed_commit_sends_no_email() {
    let (effects, result) = play(
        form("ursula_le_guin@gmail.com", "le guin"),
        vec![done(), done(), done(), failed("serialization failure")],
    );
    assert_eq!(effects.len(), 4);
    assert!(effects.iter().all(|effect| matches!(effect, Effect::Store(_))));
    assert_eq!(
        result,
        Some(Err(storage(StorageContext::CommitTransaction, "serialization failure")))
    );
}

#[test]
fn an_answer_of_the_wrong_kind_counts_as_a_failure() {
    let (effects, result) = play(
        form("ursula_le_guin@gmail.com", "le guin"),
        vec![done(), Reply::Store(StoreReply::SubscriberId(None)), done()],
    );
    assert_eq!(effects[2], Effect::Store(StoreRequest::Rollback));
    assert_eq!(result, Some(Err(storage(StorageContext::InsertSubscriber, ""))));
    let (_, result) = play(
        form("ursula_le_guin@gmail.com", "le guin"),
        vec![Reply::Email(Delivery::Responded(200))],
    );
    assert_eq!(result, Some(Err(storage(StorageContext::AcquireConnection, ""))));
}

#[test]
fn a_failed_delivery_keeps_the_signup() {
    let mut store = MemoryStore::new();
    let start = subscribe(form("ursula_le_guin@gmail.com", "le guin"), &base_url());
    let (result, outbox) = serve(&mut store, start, 500);
    assert_eq!(
        result,
        Err(SubscribeError::DeliveryError(DeliveryError {
            recipient: "ursula_le_guin@gmail.com".to_string(),
            report: Delivery::Responded(500),
        }))
    );
    assert_eq!(outbox.len(), 1);
    assert_eq!(store.subscribers().len(), 1);
    assert_eq!(store.tokens().len(), 1);
}

#[test]
fn a_delivery_without_an_answer_is_a_failure() {
    let (_, result) = play(
        form("ursula_le_guin@gmail.com", "le guin"),
        vec![done(), done(), done(), done(), Reply::Email(Delivery::Failed("timed out".to_string()))],
    );
    assert_eq!(
        result,
        Some(Err(SubscribeError::DeliveryError(DeliveryError {
            recipient: "ursula_le_guin@gmail.com".to_string(),
            report: Delivery::Failed("timed out".to_string()),
        })))
    );
}

#[test]
fn an_invalid_form_stores_nothing() {
    let mut store = MemoryStore::new();
    let start = subscribe(form("ursula_le_guin@gmail.com", "   "), &base_url());
    let (result, outbox) = serve(&mut store, start, 200);
    assert_eq!(
        result,
        Err(SubscribeError::ValidationError("    is not a valid subscriber name".to_string()))
    );
    assert!(outbox.is_empty());
    assert!(store.subscribers().is_empty());
    assert!(store.tokens().is_empty());
    // The transaction is closed again.
    assert_eq!(store.execute(StoreRequest::Begin), StoreReply::Done);
}

#[test]
fn a_signup_under_a_taken_id_stores_nothing_more() {
    let mut store = MemoryStore::new();
    let first = SubscribeFlow::new(
        form("ursula_le_guin@gmail.com", "le guin"),
        "http://127.0.0.1",
        7,
        1,
        token_text(),
    );
    assert_eq!(serve(&mut store, first, 200).0, Ok(()));
    let second =
        SubscribeFlow::new(form("luke@gmail.com", "luke"), "http://127.0.0.1", 7, 2, token_text());
    let (result, outbox) = serve(&mut store, second, 200);
    assert_eq!(
        result,
        Err(storage(StorageContext::InsertSubscriber, "a subscriber with this id exists"))
    );
    assert!(outbox.is_empty());
    assert_eq!(store.subscribers().len(), 1);
    assert_eq!(store.tokens().len(), 1);
    assert_eq!(store.execute(StoreRequest::Begin), StoreReply::Done);
}

#[test]
fn tokens_are_23_letters_and_digits_and_differ() {
    let mut seen = std::collections::HashSet::new();
    for _ in 0..200 {
        let token = generate_subscription_token();
        assert_eq!(token.len(), 23);
        assert!(token.bytes().all(|b| b.is_ascii_alphanumeric()), "{}", token);
        seen.insert(token);
    }
    assert_eq!(seen.len(), 200);
}

#[test]
fn the_confirmation_link_carries_the_token_as_a_query_parameter() {
    assert_eq!(
        confirmation_link("https://news.example", "abc123"),
        "https://news.example/subscriptions/confirm?subscription_token=abc123"
    );
    assert_eq!(confirmation_link("", ""), "/subscriptions/confirm?subscription_token=");
}

#[test]
fn the_confirmation_email_holds_the_link_in_both_bodies() {
    let subscriber = NewSubscriber::new(
        SubscriberEmail::parse("luke_skywalker@gmail.com").unwrap(),
        SubscriberName::parse("luke skywalker").unwrap(),
    );
    let request = send_confirmation_link(&client(), &subscriber, "https://news.example", "abc123");
    assert_eq!(request.to, "luke_skywalker@gmail.com");
    assert_eq!(request.subject, "Welcome!");
    assert_eq!(
        request.html_body,
        "Welcome!<br />Click <a href=\"https://news.example/subscriptions/confirm?subscription_token=abc123\">here</a> to confirm your subscription."
    );
    assert_eq!(
        request.text_body,
        "Welcome to our newsletter!<br />Click <a href=\"https://news.example/subscriptions/confirm?subscription_token=abc123\">here</a> to confirm your subscription."
    );
}

#[test]
fn a_subscriber_is_inserted_as_pending() {
    let subscriber = NewSubscriber::new(
        SubscriberEmail::parse("luke_skywalker@gmail.com").unwrap(),
        SubscriberName::parse("luke skywalker").unwrap(),
    );
    assert_eq!(
        insert_subscriber(&subscriber, 9, 12),
        StoreRequest::InsertSubscriber(SubscriberRecord {
            id: 9,
            email: "luke_skywalker@gmail.com".to_string(),
            name: "luke skywalker".to_string(),
            subscribed_at: 12,
            status: SubscriptionStatus::PendingConfirmation,
        })
    );
}

#[test]
fn a_token_is_stored_for_its_subscriber() {
    assert_eq!(
        store_subscription_token("abc123", 9),
        StoreRequest::StoreToken(TokenRecord { token: "abc123".to_string(), subscriber_id: 9 })
    );
}

#[test]
fn a_form_becomes_a_subscriber_when_both_fields_are_valid() {
    let subscriber = NewSubscriber::try_from(&form("ursula_le_guin@gmail.com", "le guin")).unwrap();
    assert_eq!(subscriber.email.as_ref(), "ursula_le_guin@gmail.com");
    assert_eq!(subscriber.name.as_ref(), "le guin");
    assert_eq!(
        NewSubscriber::try_from(&form("ursula_le_guin@gmail.com", "")),
        Err(" is not a valid subscriber name".to_string())
    );
    assert_eq!(
        NewSubscriber::try_from(&form("ursula", "le guin")),
        Err("ursula is not a valid subscriber email".to_string())
    );
}

#[test]
fn an_invalid_form_is_answered_with_400_and_the_rest_with_500() {
    assert_eq!(SubscribeError::ValidationError("x".to_string()).status_code(), 400);
    assert_eq!(storage(StorageContext::CommitTransaction, "x").status_code(), 500);
    let delivery = SubscribeError::DeliveryError(DeliveryError {
        recipient: "a@b.c".to_string(),
        report: Delivery::Responded(503),
    });
    assert_eq!(delivery.status_code(), 500);
}

#[test]
fn a_message_of_the_validation_becomes_a_validation_error() {
    assert_eq!(
        SubscribeError::from("bad name".to_string()),
        SubscribeError::ValidationError("bad name".to_string())
    );
}

#[test]
fn an_error_says_what_failed() {
    assert_eq!(SubscribeError::ValidationError("bad name".to_string()).message(), "bad name");
    assert_eq!(
        storage(StorageContext::InsertSubscriber, "disk full").message(),
        "Failed to insert subscriber to database"
    );
    assert_eq!(
        storage(StorageContext::StoreToken, "disk full").message(),
        "Failed to store confirmation token for a new subscriber"
    );
    let delivery = SubscribeError::DeliveryError(DeliveryError {
        recipient: "a@b.c".to_string(),
        report: Delivery::Responded(503),
    });
    assert_eq!(delivery.message(), "Failed to send confirmation to new subscriber");
}

#[test]
fn subscribe_returns_200_for_valid_form_data() {
    let mut store = MemoryStore::new();
    let start = subscribe(form("ursula_le_guin@gmail.com", "le guin"), &base_url());
    let (result, _) = serve(&mut store, start, 200);
    assert_eq!(result, Ok(()));
    let saved = &store.subscribers()[0];
    assert_eq!(saved.email, "ursula_le_guin@gmail.com");
    assert_eq!(saved.name, "le guin");
}
