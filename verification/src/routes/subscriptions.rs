//! Subscribing to the newsletter: confirmation tokens, the reuse of pending
//! subscribers, the confirmation e-mail and the flow of the `subscribe`
//! handler.

use vstd::prelude::*;
use rand::RngExt;
use crate::domain::parameters::is_token_text;
use crate::domain::subscriber::NewSubscriber;
use crate::helpers::{
    chain_report, empty_lists, empty_text, error_chain_messages, error_chain_text, render_html,
    renders_to, tera_template_names, views,
};
use crate::text::{ascii_alphanumeric, is_alphanumeric, push_char, lemma_ascii_utf8_len};

verus! {

#[verifier::external_type_specification]
#[verifier::external_body]
pub struct ExThreadRng(rand::rngs::ThreadRng);

/// Calls `rand::rng`, the handle to the thread-local generator. Nothing is
/// stated of it. It panics if the operating system's random source fails at
/// first seeding, which no argument decides.
#[verifier::external_body]
fn thread_rng() -> rand::rngs::ThreadRng {
    rand::rng()
}

/// Calls `RngExt::sample` with the `Alphanumeric` distribution, which
/// returns one of the bytes `A-Z`, `a-z`, `0-9` (rand's source draws from
/// exactly that table). Which one is left open. Like every use of the
/// thread-local generator it panics if reseeding from the operating
/// system's random source fails, which no argument decides.
#[verifier::external_body]
fn sample_alphanumeric(rng: &mut rand::rngs::ThreadRng) -> (b: u8)
    ensures
        ascii_alphanumeric(b as char),
{
    rng.sample(rand::distr::Alphanumeric)
}

/// The length of a subscription token.
pub const TOKEN_LEN: usize = 25;

/// What every generated token is: 25 ASCII letters and digits.
pub open spec fn is_generated_token(t: Seq<char>) -> bool {
    &&& t.len() == TOKEN_LEN
    &&& forall|i: int| 0 <= i < t.len() ==> ascii_alphanumeric(#[trigger] t[i])
}

/// A fresh random confirmation token of 25 ASCII letters and digits.
pub fn generate_subscription_token() -> (t: String)
    ensures
        is_generated_token(t@),
        is_token_text(t@),
{
    let mut rng = thread_rng();
    let mut token = String::new();
    let mut i: usize = 0;
    while i < TOKEN_LEN
        invariant
            i <= TOKEN_LEN,
            token@.len() == i,
            forall|j: int| 0 <= j < i ==> ascii_alphanumeric(#[trigger] token@[j]),
        decreases TOKEN_LEN - i,
    {
        let b = sample_alphanumeric(&mut rng);
        push_char(&mut token, b as char);
        i = i + 1;
    }
    proof {
        generated_token_is_accepted(token@);
    }
    token
}

/// Every generated token is accepted by `SubscriptionToken::parse`: the
/// confirmation link always carries a well-formed token.
pub proof fn generated_token_is_accepted(t: Seq<char>)
    requires
        is_generated_token(t),
    ensures
        is_token_text(t),
{
    assert forall|i: int| 0 <= i < t.len() implies '\0' <= #[trigger] t[i] <= '\u{7f}' by {
        assert(ascii_alphanumeric(t[i]));
    }
    lemma_ascii_utf8_len(t);
    assert forall|i: int| 0 <= i < t.len() implies is_alphanumeric(#[trigger] t[i]) by {
        assert(ascii_alphanumeric(t[i]));
    }
}

/// Why a subscription request failed.
pub enum SubscribeError {
    /// The form did not describe a valid subscriber; the message says why.
    ValidationError(String),
    /// An outside step failed.
    UnexpectedError(anyhow::Error),
}

impl SubscribeError {
    /// The HTTP status of the error: 400 for a rejected form, 500 otherwise.
    pub fn status_code(&self) -> (r: u16)
        ensures
            r == (match self {
                SubscribeError::ValidationError(_) => 400u16,
                SubscribeError::UnexpectedError(_) => 500u16,
            }),
    {
        match self {
            SubscribeError::ValidationError(_) => 400,
            SubscribeError::UnexpectedError(_) => 500,
        }
    }

    /// The `Display` text of the error: the validation message itself, or
    /// the text of the unexpected error.
    pub fn to_string(&self) -> (r: String)
        ensures
            self matches SubscribeError::ValidationError(m) ==> r@ == m@,
    {
        match self {
            SubscribeError::ValidationError(m) => m.clone(),
            SubscribeError::UnexpectedError(e) => {
                let messages = error_chain_messages(e);
                messages[0].clone()
            },
        }
    }

    /// The `Debug` text of the error: its text, a blank line, then its
    /// causes. A validation error has no cause.
    pub fn debug_text(&self) -> (r: String)
        ensures
            self matches SubscribeError::ValidationError(m) ==> r@ == error_chain_text(
                m@,
                Seq::empty(),
            ),
            self is UnexpectedError ==> crate::helpers::is_chain_report(r@),
    {
        match self {
            SubscribeError::ValidationError(m) => {
                let none: Vec<String> = Vec::new();
                let r = crate::helpers::error_chain_fmt(m.as_str(), &none);
                assert(views(none@) =~= Seq::<Seq<char>>::empty());
                r
            },
            SubscribeError::UnexpectedError(e) => {
                let messages = error_chain_messages(e);
                chain_report(&messages)
            },
        }
    }
}

/// The link that confirms the subscription holding `token`.
pub open spec fn confirmation_link_text(base_url: Seq<char>, token: Seq<char>) -> Seq<char> {
    base_url + "/subscriptions/confirm?subscriptions_token="@ + token
}

/// The confirmation link is the base URL, then the confirmation path and
/// its query key, then the whole token: nothing of the token is cut or
/// changed, so the query value of a link for a generated token is a text
/// that `SubscriptionToken::parse` accepts.
pub proof fn confirmation_link_carries_whole_token(base_url: Seq<char>, token: Seq<char>)
    ensures
        ({
            let link = confirmation_link_text(base_url, token);
            let key = "/subscriptions/confirm?subscriptions_token="@;
            &&& link.len() == (base_url.len() + key.len()) as int + token.len()
            &&& link.subrange(0, base_url.len() as int) == base_url
            &&& link.subrange(base_url.len() as int, (base_url.len() + key.len()) as int) == key
            &&& link.subrange((base_url.len() + key.len()) as int, link.len() as int) == token
            &&& is_generated_token(token) ==> is_token_text(
                link.subrange((base_url.len() + key.len()) as int, link.len() as int),
            )
        }),
{
    let link = confirmation_link_text(base_url, token);
    let key = "/subscriptions/confirm?subscriptions_token="@;
    assert(link.subrange(0, base_url.len() as int) =~= base_url);
    assert(link.subrange(base_url.len() as int, (base_url.len() + key.len()) as int) =~= key);
    assert(link.subrange((base_url.len() + key.len()) as int, link.len() as int) =~= token);
    if is_generated_token(token) {
        generated_token_is_accepted(token);
    }
}

/// Under one base URL, two different tokens give two different
/// confirmation links.
pub proof fn confirmation_links_tell_tokens_apart(
    base_url: Seq<char>,
    token1: Seq<char>,
    token2: Seq<char>,
)
    ensures
        confirmation_link_text(base_url, token1) == confirmation_link_text(base_url, token2)
            ==> token1 == token2,
{
    confirmation_link_carries_whole_token(base_url, token1);
    confirmation_link_carries_whole_token(base_url, token2);
}

/// The plain-text body of the confirmation e-mail.
pub open spec fn confirmation_text_body(link: Seq<char>) -> Seq<char> {
    "Welcome to our newsletter!\nVisit "@ + link + " to confirm your subscription."@
}

/// The subject of the confirmation e-mail.
pub open spec fn confirmation_subject() -> Seq<char> {
    "Welcome!"@
}

/// The confirmation link for `token` under `base_url`.
pub fn confirmation_link(base_url: &str, token: &str) -> (r: String)
    ensures
        r@ == confirmation_link_text(base_url@, token@),
{
    let mut link = String::from_str(base_url);
    link.append("/subscriptions/confirm?subscriptions_token=");
    link.append(token);
    link
}

/// The plain-text body that carries `link`.
pub fn confirmation_plain_body(link: &str) -> (r: String)
    ensures
        r@ == confirmation_text_body(link@),
{
    let mut body = String::from_str("Welcome to our newsletter!\nVisit ");
    body.append(link);
    body.append(" to confirm your subscription.");
    body
}

/// The contents of the confirmation e-mail.
pub struct ConfirmationEmail {
    pub subject: String,
    pub html_body: String,
    pub text_body: String,
}

/// The confirmation e-mail given the result of rendering its HTML body and
/// its plain-text body: on success, the subject `Welcome!` with both bodies;
/// on a rendering error, that error.
pub fn assemble_confirmation_email(
    rendered: Result<String, tera::Error>,
    text_body: String,
) -> (r: Result<ConfirmationEmail, tera::Error>)
    ensures
        match rendered {
            Ok(html) => r matches Ok(email) && email.subject@ == confirmation_subject()
                && email.html_body == html && email.text_body == text_body,
            Err(e) => r == Err::<ConfirmationEmail, tera::Error>(e),
        },
{
    match rendered {
        Ok(html_body) => Ok(ConfirmationEmail {
            subject: String::from_str("Welcome!"),
            html_body,
            text_body,
        }),
        Err(e) => Err(e),
    }
}

/// The context of the confirmation e-mail's HTML: `confirmation_link`
/// bound to the link.
pub open spec fn confirmation_context(base_url: Seq<char>, token: Seq<char>) -> Map<
    Seq<char>,
    Seq<char>,
> {
    empty_text().insert("confirmation_link"@, confirmation_link_text(base_url, token))
}

/// The context of the confirmation e-mail's HTML binds `confirmation_link`,
/// and nothing else, to the confirmation link of the token.
pub proof fn confirmation_context_binds_link(base_url: Seq<char>, token: Seq<char>)
    ensures
        confirmation_context(base_url, token).dom() == set!["confirmation_link"@],
        confirmation_context(base_url, token)["confirmation_link"@] == confirmation_link_text(
            base_url,
            token,
        ),
{
    assert(confirmation_context(base_url, token).dom() =~= set!["confirmation_link"@]);
}

/// The confirmation e-mail for `token`: its subject, the HTML rendered from
/// `confirmation.html` with the link as `confirmation_link`, and the
/// plain-text body. A rendering error is handed back.
pub fn confirmation_email(tera: &tera::Tera, base_url: &str, token: &str) -> (r: Result<
    ConfirmationEmail,
    tera::Error,
>)
    ensures
        r matches Ok(email) ==> {
            &&& email.subject@ == confirmation_subject()
            &&& email.text_body@ == confirmation_text_body(confirmation_link_text(base_url@, token@))
            &&& renders_to(
                *tera,
                "confirmation.html"@,
                confirmation_context(base_url@, token@),
                empty_lists(),
                email.html_body@,
            )
        },
        !tera_template_names(*tera).contains("confirmation.html"@) ==> r is Err,
{
    let link = confirmation_link(base_url, token);
    let text_body = confirmation_plain_body(link.as_str());
    let args = [("confirmation_link", link.as_str())];
    assert(crate::helpers::pairs_map(args@) == confirmation_context(base_url@, token@)) by {
        assert(args@.len() == 1);
        assert(args@[0].0@ == "confirmation_link"@);
        assert(args@.drop_last() =~= Seq::<(&str, &str)>::empty());
        assert(crate::helpers::pairs_map(args@.drop_last()) == empty_text());
    }
    assemble_confirmation_email(
        render_html(tera, &args, String::from_str("confirmation.html")),
        text_body,
    )
}

/// Where the `subscribe` handler stands between two outside steps.
#[derive(Debug, PartialEq, Eq)]
pub enum SubscribeState {
    /// The form is being checked.
    CheckingForm,
    /// A database transaction is being opened for `subscriber`.
    OpeningTransaction { subscriber: NewSubscriber },
    /// `subscriber` is being recorded (or its pending record looked up).
    InsertingSubscriber { subscriber: NewSubscriber },
    /// `token` is being stored for the recorded subscriber.
    StoringToken { subscriber: NewSubscriber, token: String },
    /// The transaction is being committed.
    Committing { subscriber: NewSubscriber, token: String },
    /// The confirmation e-mail is being sent.
    SendingEmail,
    /// The reply has been decided.
    Finished,
}

/// The outcome of the outside step that the handler last asked for.
#[derive(Debug, PartialEq, Eq)]
pub enum SubscribeEvent {
    /// The form was checked: the subscriber, or why it was rejected.
    FormChecked(Result<NewSubscriber, String>),
    /// Opening the transaction succeeded (`true`) or failed.
    TransactionOpened(bool),
    /// The subscriber was recorded under this id, or recording failed.
    SubscriberInserted(Option<u128>),
    /// Storing the token succeeded or failed.
    TokenStored(bool),
    /// Committing succeeded or failed.
    Committed(bool),
    /// Sending the confirmation e-mail succeeded or failed.
    EmailSent(bool),
}

/// What the handler does next.
#[derive(Debug, PartialEq, Eq)]
pub enum SubscribeAction {
    OpenTransaction,
    InsertSubscriber(NewSubscriber),
    StoreToken { subscriber_id: u128, token: String },
    Commit,
    SendConfirmation { subscriber: NewSubscriber, token: String },
    /// Answer with `SubscribeError::ValidationError` carrying this message.
    Reject(String),
    /// Answer with `SubscribeError::UnexpectedError`: the error of the last
    /// step with this context.
    Fail(String),
    /// Answer 200 with an empty body.
    Respond,
}

/// Whether `event` is the outcome of the step that `state` waits for.
pub open spec fn subscribe_expects(state: SubscribeState, event: SubscribeEvent) -> bool {
    match state {
        SubscribeState::CheckingForm => event is FormChecked,
        SubscribeState::OpeningTransaction { .. } => event is TransactionOpened,
        SubscribeState::InsertingSubscriber { .. } => event is SubscriberInserted,
        SubscribeState::StoringToken { .. } => event is TokenStored,
        SubscribeState::Committing { .. } => event is Committed,
        SubscribeState::SendingEmail => event is EmailSent,
        SubscribeState::Finished => false,
    }
}

/// The context of the error when connecting fails.
pub open spec fn connect_failure() -> Seq<char> {
    "Failed to acquire a Postgres connection from the pool"@
}

/// The context of the error when recording the subscriber fails.
pub open spec fn insert_failure() -> Seq<char> {
    "Failed to insert a new subscriber in the database"@
}

/// The context of the error when storing the token fails.
pub open spec fn store_failure() -> Seq<char> {
    "Failed to store the confirmation token for a new subscriber"@
}

/// The context of the error when committing fails.
pub open spec fn commit_failure() -> Seq<char> {
    "Failed to commit SQL transaction to store a new subscriber"@
}

/// The context of the error when sending the e-mail fails.
pub open spec fn send_failure() -> Seq<char> {
    "Failed to send a confirmation email"@
}

/// The handler stops and fails with the error context `context`.
pub open spec fn fails_with(
    next: SubscribeState,
    action: SubscribeAction,
    context: Seq<char>,
) -> bool {
    &&& next == SubscribeState::Finished
    &&& action matches SubscribeAction::Fail(c)
    &&& c@ == context
}

/// One step of the `subscribe` handler: from `state` and the outcome
/// `event`, the next state and action. After the subscriber is recorded a
/// fresh token is generated; it is the one stored and then e-mailed.
pub open spec fn subscribe_transition(
    state: SubscribeState,
    event: SubscribeEvent,
    next: SubscribeState,
    action: SubscribeAction,
) -> bool {
    match state {
        SubscribeState::CheckingForm => match event {
            SubscribeEvent::FormChecked(Ok(s)) => next == (SubscribeState::OpeningTransaction {
                subscriber: s,
            }) && action == SubscribeAction::OpenTransaction,
            SubscribeEvent::FormChecked(Err(m)) => next == SubscribeState::Finished
                && action == SubscribeAction::Reject(m),
            _ => false,
        },
        SubscribeState::OpeningTransaction { subscriber } => match event {
            SubscribeEvent::TransactionOpened(true) => next == (
            SubscribeState::InsertingSubscriber { subscriber }) && action
                == SubscribeAction::InsertSubscriber(subscriber),
            SubscribeEvent::TransactionOpened(false) => fails_with(next, action, connect_failure()),
            _ => false,
        },
        SubscribeState::InsertingSubscriber { subscriber } => match event {
            SubscribeEvent::SubscriberInserted(Some(id)) => {
                &&& next matches SubscribeState::StoringToken { subscriber: s, token: t }
                &&& s == subscriber
                &&& is_generated_token(t@)
                &&& action == (SubscribeAction::StoreToken { subscriber_id: id, token: t })
            },
            SubscribeEvent::SubscriberInserted(None) => fails_with(next, action, insert_failure()),
            _ => false,
        },
        SubscribeState::StoringToken { subscriber, token } => match event {
            SubscribeEvent::TokenStored(true) => next == (SubscribeState::Committing {
                subscriber,
                token,
            }) && action == SubscribeAction::Commit,
            SubscribeEvent::TokenStored(false) => fails_with(next, action, store_failure()),
            _ => false,
        },
        SubscribeState::Committing { subscriber, token } => match event {
            SubscribeEvent::Committed(true) => next == SubscribeState::SendingEmail && action
                == (SubscribeAction::SendConfirmation { subscriber, token }),
            SubscribeEvent::Committed(false) => fails_with(next, action, commit_failure()),
            _ => false,
        },
        SubscribeState::SendingEmail => match event {
            SubscribeEvent::EmailSent(true) => next == SubscribeState::Finished && action
                == SubscribeAction::Respond,
            SubscribeEvent::EmailSent(false) => fails_with(next, action, send_failure()),
            _ => false,
        },
        SubscribeState::Finished => false,
    }
}

/// A run of the handler: the states it went through, the outcomes it was
/// given and the actions it took, step by step from the start.
pub open spec fn subscribe_run(
    states: Seq<SubscribeState>,
    events: Seq<SubscribeEvent>,
    actions: Seq<SubscribeAction>,
) -> bool {
    &&& states.len() == events.len() + 1
    &&& actions.len() == events.len()
    &&& states[0] == SubscribeState::CheckingForm
    &&& forall|i: int|
        0 <= i < events.len() ==> {
            &&& subscribe_expects(#[trigger] states[i], events[i])
            &&& subscribe_transition(states[i], events[i], states[i + 1], actions[i])
        }
}

/// How many steps lead to a state when nothing fails.
pub open spec fn subscribe_stage(state: SubscribeState) -> int {
    match state {
        SubscribeState::CheckingForm => 0,
        SubscribeState::OpeningTransaction { .. } => 1,
        SubscribeState::InsertingSubscriber { .. } => 2,
        SubscribeState::StoringToken { .. } => 3,
        SubscribeState::Committing { .. } => 4,
        SubscribeState::SendingEmail => 5,
        SubscribeState::Finished => -1,
    }
}

/// Before the last step of a run, the handler has taken one step per
/// outside step, none of which failed.
proof fn lemma_subscribe_stage(
    states: Seq<SubscribeState>,
    events: Seq<SubscribeEvent>,
    actions: Seq<SubscribeAction>,
    i: int,
)
    requires
        subscribe_run(states, events, actions),
        0 <= i < events.len(),
    ensures
        subscribe_stage(states[i]) == i,
    decreases i,
{
    if i > 0 {
        lemma_subscribe_stage(states, events, actions, i - 1);
        assert(subscribe_expects(states[i - 1], events[i - 1]));
        assert(subscribe_expects(states[i], events[i]));
    }
}

/// The confirmation e-mail goes out only in the fifth step, once the
/// subscriber was recorded, its token stored and the transaction committed;
/// it carries the token that was stored and the subscriber of the form.
pub proof fn confirmation_follows_stored_token(
    states: Seq<SubscribeState>,
    events: Seq<SubscribeEvent>,
    actions: Seq<SubscribeAction>,
    k: int,
)
    requires
        subscribe_run(states, events, actions),
        0 <= k < actions.len(),
        actions[k] is SendConfirmation,
    ensures
        k == 4,
        events[0] == SubscribeEvent::FormChecked(Ok(actions[k]->subscriber)),
        events[1] == SubscribeEvent::TransactionOpened(true),
        events[2] is SubscriberInserted && events[2]->SubscriberInserted_0 is Some,
        actions[2] == (SubscribeAction::StoreToken {
            subscriber_id: events[2]->SubscriberInserted_0->0,
            token: actions[k]->SendConfirmation_token,
        }),
        events[3] == SubscribeEvent::TokenStored(true),
        events[4] == SubscribeEvent::Committed(true),
        is_generated_token(actions[k]->SendConfirmation_token@),
        is_token_text(actions[k]->SendConfirmation_token@),
{
    lemma_subscribe_stage(states, events, actions, k);
    assert(subscribe_expects(states[k], events[k]));
    assert(k == 4);
    lemma_subscribe_stage(states, events, actions, 0);
    lemma_subscribe_stage(states, events, actions, 1);
    lemma_subscribe_stage(states, events, actions, 2);
    lemma_subscribe_stage(states, events, actions, 3);
    assert(subscribe_expects(states[0], events[0]));
    assert(subscribe_expects(states[1], events[1]));
    assert(subscribe_expects(states[2], events[2]));
    assert(subscribe_expects(states[3], events[3]));
    generated_token_is_accepted(actions[k]->SendConfirmation_token@);
}

impl SubscribeState {
    /// The state in which the handler starts.
    pub fn start() -> (s: SubscribeState)
        ensures
            s == SubscribeState::CheckingForm,
    {
        SubscribeState::CheckingForm
    }

    /// Takes the outcome of the step asked for and decides the next one.
    pub fn step(self, event: SubscribeEvent) -> (r: (SubscribeState, SubscribeAction))
        requires
            subscribe_expects(self, event),
        ensures
            subscribe_transition(self, event, r.0, r.1),
    {
        match self {
            SubscribeState::CheckingForm => match event {
                SubscribeEvent::FormChecked(Ok(s)) => (
                    SubscribeState::OpeningTransaction { subscriber: s },
                    SubscribeAction::OpenTransaction,
                ),
                SubscribeEvent::FormChecked(Err(m)) => (
                    SubscribeState::Finished,
                    SubscribeAction::Reject(m),
                ),
                // No other outcome is expected here (see `requires`).
                _ => (SubscribeState::Finished, SubscribeAction::Respond),
            },
            SubscribeState::OpeningTransaction { subscriber } => match event {
                SubscribeEvent::TransactionOpened(true) => {
                    let copy = subscriber.duplicate();
                    (
                        SubscribeState::InsertingSubscriber { subscriber },
                        SubscribeAction::InsertSubscriber(copy),
                    )
                },
                _ => (
                    SubscribeState::Finished,
                    SubscribeAction::Fail(
                        String::from_str("Failed to acquire a Postgres connection from the pool"),
                    ),
                ),
            },
            SubscribeState::InsertingSubscriber { subscriber } => match event {
                SubscribeEvent::SubscriberInserted(Some(id)) => {
                    let token = generate_subscription_token();
                    let stored = token.clone();
                    (
                        SubscribeState::StoringToken { subscriber, token },
                        SubscribeAction::StoreToken { subscriber_id: id, token: stored },
                    )
                },
                _ => (
                    SubscribeState::Finished,
                    SubscribeAction::Fail(
                        String::from_str("Failed to insert a new subscriber in the database"),
                    ),
                ),
            },
            SubscribeState::StoringToken { subscriber, token } => match event {
                SubscribeEvent::TokenStored(true) => (
                    SubscribeState::Committing { subscriber, token },
                    SubscribeAction::Commit,
                ),
                _ => (
                    SubscribeState::Finished,
                    SubscribeAction::Fail(
                        String::from_str(
                            "Failed to store the confirmation token for a new subscriber",
                        ),
                    ),
                ),
            },
            SubscribeState::Committing { subscriber, token } => match event {
                SubscribeEvent::Committed(true) => (
                    SubscribeState::SendingEmail,
                    SubscribeAction::SendConfirmation { subscriber, token },
                ),
                _ => (
                    SubscribeState::Finished,
                    SubscribeAction::Fail(
                        String::from_str(
                            "Failed to commit SQL transaction to store a new subscriber",
                        ),
                    ),
                ),
            },
            SubscribeState::SendingEmail => match event {
                SubscribeEvent::EmailSent(true) => (
                    SubscribeState::Finished,
                    SubscribeAction::Respond,
                ),
                _ => (
                    SubscribeState::Finished,
                    SubscribeAction::Fail(String::from_str("Failed to send a confirmation email")),
                ),
            },
            // A finished handler expects no outcome (see `requires`).
            SubscribeState::Finished => (SubscribeState::Finished, SubscribeAction::Respond),
        }
    }
}

} // verus!
