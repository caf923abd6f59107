//! Confirming a subscription from the token of its confirmation link.

use vstd::prelude::*;
use crate::domain::parameters::Parameters;
use crate::helpers::{chain_report, error_chain_messages};

verus! {

/// Why a confirmation failed.
pub enum ConfirmSubscriberError {
    /// No subscriber holds the token of the link.
    UnknownToken,
    /// An outside step failed.
    UnexpectedError(anyhow::Error),
}

/// The text of `ConfirmSubscriberError::UnknownToken`.
pub open spec fn unknown_token_message() -> Seq<char> {
    "There is no subscriber associated with the provided token."@
}

impl ConfirmSubscriberError {
    /// The HTTP status of the error: 401 for an unknown token, 500 otherwise.
    pub fn status_code(&self) -> (r: u16)
        ensures
            r == (match self {
                ConfirmSubscriberError::UnknownToken => 401u16,
                ConfirmSubscriberError::UnexpectedError(_) => 500u16,
            }),
    {
        match self {
            ConfirmSubscriberError::UnknownToken => 401,
            ConfirmSubscriberError::UnexpectedError(_) => 500,
        }
    }

    /// The `Display` text of the error.
    pub fn to_string(&self) -> (r: String)
        ensures
            self is UnknownToken ==> r@ == unknown_token_message(),
    {
        match self {
            ConfirmSubscriberError::UnknownToken => String::from_str(
                "There is no subscriber associated with the provided token.",
            ),
            ConfirmSubscriberError::UnexpectedError(e) => {
                let messages = error_chain_messages(e);
                messages[0].clone()
            },
        }
    }

    /// The `Debug` text of the error: its text, a blank line, then its
    /// causes. An unknown token has no cause.
    pub fn debug_text(&self) -> (r: String)
        ensures
            self is UnknownToken ==> r@ == crate::helpers::error_chain_text(
                unknown_token_message(),
                Seq::empty(),
            ),
            self is UnexpectedError ==> crate::helpers::is_chain_report(r@),
    {
        match self {
            ConfirmSubscriberError::UnknownToken => {
                let none: Vec<String> = Vec::new();
                assert(crate::helpers::views(none@) =~= Seq::<Seq<char>>::empty());
                crate::helpers::error_chain_fmt(
                    "There is no subscriber associated with the provided token.",
                    &none,
                )
            },
            ConfirmSubscriberError::UnexpectedError(e) => {
                let messages = error_chain_messages(e);
                chain_report(&messages)
            },
        }
    }
}

/// Where the `confirm` handler stands.
#[derive(Debug, PartialEq, Eq)]
pub enum ConfirmState {
    /// The subscriber holding the token is being looked up.
    LookingUp,
    /// The subscriber is being marked as confirmed.
    Confirming,
    /// The reply has been decided.
    Finished,
}

/// The outcome of the outside step that the handler last asked for.
#[derive(Debug, PartialEq, Eq)]
pub enum ConfirmEvent {
    /// The lookup failed.
    LookupFailed,
    /// The lookup found the subscriber with this id, or none.
    LookedUp(Option<u128>),
    /// Marking the subscriber as confirmed succeeded (`true`) or failed.
    Confirmed(bool),
}

/// What the handler does next.
#[derive(Debug, PartialEq, Eq)]
pub enum ConfirmAction {
    /// Look up the subscriber that holds this token.
    LookUpSubscriber(String),
    /// Mark the subscriber with this id as confirmed.
    MarkConfirmed(u128),
    /// Answer with `ConfirmSubscriberError::UnknownToken`.
    RejectUnknownToken,
    /// Answer with `ConfirmSubscriberError::UnexpectedError`: the error of
    /// the last step with this context.
    Fail(String),
    /// Answer 200 with an empty body.
    Respond,
}

/// The context of the error when the lookup fails.
pub open spec fn lookup_failure() -> Seq<char> {
    "Failed to retrieve the subscriber associated with the provided token"@
}

/// The context of the error when the update fails.
pub open spec fn update_failure() -> Seq<char> {
    "Failed to update the subscriber status to 'confirmed'."@
}

/// Whether `event` is the outcome of the step that `state` waits for.
pub open spec fn confirm_expects(state: ConfirmState, event: ConfirmEvent) -> bool {
    match state {
        ConfirmState::LookingUp => event is LookupFailed || event is LookedUp,
        ConfirmState::Confirming => event is Confirmed,
        ConfirmState::Finished => false,
    }
}

/// The handler stops and fails with the error context `context`.
pub open spec fn confirm_fails_with(
    next: ConfirmState,
    action: ConfirmAction,
    context: Seq<char>,
) -> bool {
    &&& next == ConfirmState::Finished
    &&& action matches ConfirmAction::Fail(c)
    &&& c@ == context
}

/// One step of the `confirm` handler.
pub open spec fn confirm_transition(
    state: ConfirmState,
    event: ConfirmEvent,
    next: ConfirmState,
    action: ConfirmAction,
) -> bool {
    match state {
        ConfirmState::LookingUp => match event {
            ConfirmEvent::LookupFailed => confirm_fails_with(next, action, lookup_failure()),
            ConfirmEvent::LookedUp(None) => next == ConfirmState::Finished && action
                == ConfirmAction::RejectUnknownToken,
            ConfirmEvent::LookedUp(Some(id)) => next == ConfirmState::Confirming && action
                == ConfirmAction::MarkConfirmed(id),
            _ => false,
        },
        ConfirmState::Confirming => match event {
            ConfirmEvent::Confirmed(true) => next == ConfirmState::Finished && action
                == ConfirmAction::Respond,
            ConfirmEvent::Confirmed(false) => confirm_fails_with(next, action, update_failure()),
            _ => false,
        },
        ConfirmState::Finished => false,
    }
}

/// A run of the handler from its start: the states it went through, the
/// outcomes it was given and the actions it took after each.
pub open spec fn confirm_run(
    states: Seq<ConfirmState>,
    events: Seq<ConfirmEvent>,
    actions: Seq<ConfirmAction>,
) -> bool {
    &&& states.len() == events.len() + 1
    &&& actions.len() == events.len()
    &&& states[0] == ConfirmState::LookingUp
    &&& forall|i: int|
        0 <= i < events.len() ==> {
            &&& confirm_expects(#[trigger] states[i], events[i])
            &&& confirm_transition(states[i], events[i], states[i + 1], actions[i])
        }
}

/// Only the subscriber that the token's lookup found is ever confirmed, and
/// a token that no subscriber holds confirms nobody and is answered with
/// `UnknownToken`.
pub proof fn only_found_subscriber_is_confirmed(
    states: Seq<ConfirmState>,
    events: Seq<ConfirmEvent>,
    actions: Seq<ConfirmAction>,
    k: int,
)
    requires
        confirm_run(states, events, actions),
        0 <= k < actions.len(),
    ensures
        actions[k] matches ConfirmAction::MarkConfirmed(id) ==> k == 0 && events[0]
            == ConfirmEvent::LookedUp(Some(id)),
        events[0] == ConfirmEvent::LookedUp(None) ==> actions.len() == 1 && actions[0]
            == ConfirmAction::RejectUnknownToken,
{
    assert(confirm_expects(states[0], events[0]));
    if k > 0 {
        assert(confirm_expects(states[k], events[k]));
        assert(confirm_expects(states[k - 1], events[k - 1]));
        if k > 1 {
            assert(confirm_expects(states[1], events[1]));
            assert(states[1] == ConfirmState::Confirming);
            assert(confirm_expects(states[2], events[2]));
        }
    }
    if events[0] == ConfirmEvent::LookedUp(None) && actions.len() > 1 {
        assert(confirm_expects(states[1], events[1]));
    }
}

impl ConfirmState {
    /// The start of the handler: look up the subscriber holding the token
    /// of the link.
    pub fn begin(parameters: &Parameters) -> (r: (ConfirmState, ConfirmAction))
        ensures
            r.0 == ConfirmState::LookingUp,
            r.1 matches ConfirmAction::LookUpSubscriber(t) && t@ == parameters.subscriptions_token@,
    {
        (ConfirmState::LookingUp, ConfirmAction::LookUpSubscriber(parameters.to_string()))
    }

    /// Takes the outcome of the step asked for and decides the next one.
    pub fn step(self, event: ConfirmEvent) -> (r: (ConfirmState, ConfirmAction))
        requires
            confirm_expects(self, event),
        ensures
            confirm_transition(self, event, r.0, r.1),
    {
        match self {
            ConfirmState::LookingUp => match event {
                ConfirmEvent::LookedUp(Some(id)) => (
                    ConfirmState::Confirming,
                    ConfirmAction::MarkConfirmed(id),
                ),
                ConfirmEvent::LookedUp(None) => (
                    ConfirmState::Finished,
                    ConfirmAction::RejectUnknownToken,
                ),
                _ => (
                    ConfirmState::Finished,
                    ConfirmAction::Fail(
                        String::from_str(
                            "Failed to retrieve the subscriber associated with the provided token",
                        ),
                    ),
                ),
            },
            ConfirmState::Confirming => match event {
                ConfirmEvent::Confirmed(true) => (ConfirmState::Finished, ConfirmAction::Respond),
                _ => (
                    ConfirmState::Finished,
                    ConfirmAction::Fail(
                        String::from_str("Failed to update the subscriber status to 'confirmed'."),
                    ),
                ),
            },
            // A finished handler expects no outcome (see `requires`).
            ConfirmState::Finished => (ConfirmState::Finished, ConfirmAction::Respond),
        }
    }
}

} // verus!
