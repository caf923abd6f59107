use zero2prod::domain::{NewSubscriber, SubscriptionToken, Parameters};
use zero2prod::helpers::Reply;
use zero2prod::routes::admin::password::{
    ChangePasswordAction, ChangePasswordEvent, ChangePasswordState, CredentialCheck, FlashMessage,
    PasswordForm,
};
use zero2prod::routes::subscriptions::{
    SubscribeAction, SubscribeEvent, SubscribeState, SubscribeError,
};
use zero2prod::routes::subscriptions_confirm::{
    ConfirmAction, ConfirmEvent, ConfirmState, ConfirmSubscriberError,
};

fn ursula() -> NewSubscriber {
    NewSubscriber {
        email: "ursula_le_guin@gmail.com".to_string(),
        name: "le guin".to_string(),
    }
}

#[test]
fn subscribe_happy_path() {
    let state = SubscribeState::start();
    let (state, action) = state.step(SubscribeEvent::FormChecked(Ok(ursula())));
    assert_eq!(action, SubscribeAction::OpenTransaction);
    let (state, action) = state.step(SubscribeEvent::TransactionOpened(true));
    assert_eq!(action, SubscribeAction::InsertSubscriber(ursula()));
    let (state, action) = state.step(SubscribeEvent::SubscriberInserted(Some(7)));
    let stored = match action {
        SubscribeAction::StoreToken { subscriber_id, token } => {
            assert_eq!(subscriber_id, 7);
            token
        }
        other => panic!("unexpected action {:?}", other),
    };
    assert_eq!(stored.len(), 25);
    assert!(stored.chars().all(|c| c.is_ascii_alphanumeric()));
    let (state, action) = state.step(SubscribeEvent::TokenStored(true));
    assert_eq!(action, SubscribeAction::Commit);
    let (state, action) = state.step(SubscribeEvent::Committed(true));
    assert_eq!(
        action,
        SubscribeAction::SendConfirmation {
            subscriber: ursula(),
            token: stored.clone()
        }
    );
    assert!(SubscriptionToken::parse(stored).is_ok());
    let (state, action) = state.step(SubscribeEvent::EmailSent(true));
    assert_eq!(action, SubscribeAction::Respond);
    assert_eq!(state, SubscribeState::Finished);
}

#[test]
fn subscribe_rejects_an_invalid_form() {
    let (state, action) = SubscribeState::start()
        .step(SubscribeEvent::FormChecked(Err("invalid name".to_string())));
    assert_eq!(action, SubscribeAction::Reject("invalid name".to_string()));
    assert_eq!(state, SubscribeState::Finished);
}

fn until_inserting() -> SubscribeState {
    let (s, _) = SubscribeState::start().step(SubscribeEvent::FormChecked(Ok(ursula())));
    let (s, _) = s.step(SubscribeEvent::TransactionOpened(true));
    s
}

#[test]
fn subscribe_failures_carry_their_context() {
    let (s, _) = SubscribeState::start().step(SubscribeEvent::FormChecked(Ok(ursula())));
    let (_, a) = s.step(SubscribeEvent::TransactionOpened(false));
    assert_eq!(
        a,
        SubscribeAction::Fail("Failed to acquire a Postgres connection from the pool".to_string())
    );
    let (_, a) = until_inserting().step(SubscribeEvent::SubscriberInserted(None));
    assert_eq!(
        a,
        SubscribeAction::Fail("Failed to insert a new subscriber in the database".to_string())
    );
    let (s, _) = until_inserting().step(SubscribeEvent::SubscriberInserted(Some(1)));
    let (_, a) = s.step(SubscribeEvent::TokenStored(false));
    assert_eq!(
        a,
        SubscribeAction::Fail(
            "Failed to store the confirmation token for a new subscriber".to_string()
        )
    );
    let (s, _) = until_inserting().step(SubscribeEvent::SubscriberInserted(Some(1)));
    let (s, _) = s.step(SubscribeEvent::TokenStored(true));
    let (_, a) = s.step(SubscribeEvent::Committed(false));
    assert_eq!(
        a,
        SubscribeAction::Fail(
            "Failed to commit SQL transaction to store a new subscriber".to_string()
        )
    );
    let (s, _) = until_inserting().step(SubscribeEvent::SubscriberInserted(Some(1)));
    let (s, _) = s.step(SubscribeEvent::TokenStored(true));
    let (s, _) = s.step(SubscribeEvent::Committed(true));
    let (s, a) = s.step(SubscribeEvent::EmailSent(false));
    assert_eq!(
        a,
        SubscribeAction::Fail("Failed to send a confirmation email".to_string())
    );
    assert_eq!(s, SubscribeState::Finished);
}

#[test]
fn subscribe_error_status_and_text() {
    let v = SubscribeError::ValidationError("bad email".to_string());
    assert_eq!(v.status_code(), 400);
    assert_eq!(v.to_string(), "bad email");
    assert_eq!(v.debug_text(), "bad email\n\n");
    let u = SubscribeError::UnexpectedError(
        anyhow::Error::msg("connection refused").context("Failed to send a confirmation email"),
    );
    assert_eq!(u.status_code(), 500);
    assert_eq!(u.to_string(), "Failed to send a confirmation email");
    assert_eq!(
        u.debug_text(),
        "Failed to send a confirmation email\n\nCaused by:\n\tconnection refused\n"
    );
}

fn token() -> Parameters {
    Parameters {
        subscriptions_token: SubscriptionToken::parse("abcdefghijklmnopqrstuvwxy".to_string())
            .unwrap(),
    }
}

#[test]
fn confirm_marks_the_found_subscriber() {
    let (state, action) = ConfirmState::begin(&token());
    assert_eq!(
        action,
        ConfirmAction::LookUpSubscriber("abcdefghijklmnopqrstuvwxy".to_string())
    );
    let (state, action) = state.step(ConfirmEvent::LookedUp(Some(9)));
    assert_eq!(action, ConfirmAction::MarkConfirmed(9));
    let (state, action) = state.step(ConfirmEvent::Confirmed(true));
    assert_eq!(action, ConfirmAction::Respond);
    assert_eq!(state, ConfirmState::Finished);
}

#[test]
fn confirm_rejects_an_unknown_token() {
    let (state, _) = ConfirmState::begin(&token());
    let (state, action) = state.step(ConfirmEvent::LookedUp(None));
    assert_eq!(action, ConfirmAction::RejectUnknownToken);
    assert_eq!(state, ConfirmState::Finished);
    let e = ConfirmSubscriberError::UnknownToken;
    assert_eq!(e.status_code(), 401);
    assert_eq!(
        e.to_string(),
        "There is no subscriber associated with the provided token."
    );
    assert_eq!(
        e.debug_text(),
        "There is no subscriber associated with the provided token.\n\n"
    );
}

#[test]
fn confirm_failures_carry_their_context() {
    let (state, _) = ConfirmState::begin(&token());
    let (_, action) = state.step(ConfirmEvent::LookupFailed);
    assert_eq!(
        action,
        ConfirmAction::Fail(
            "Failed to retrieve the subscriber associated with the provided token".to_string()
        )
    );
    let (state, _) = ConfirmState::begin(&token());
    let (state, _) = state.step(ConfirmEvent::LookedUp(Some(3)));
    let (_, action) = state.step(ConfirmEvent::Confirmed(false));
    assert_eq!(
        action,
        ConfirmAction::Fail("Failed to update the subscriber status to 'confirmed'.".to_string())
    );
    let e = ConfirmSubscriberError::UnexpectedError(anyhow::Error::msg("db down"));
    assert_eq!(e.status_code(), 500);
    assert_eq!(e.to_string(), "db down");
}

fn form(current: &str, new: &str, check: &str) -> PasswordForm {
    PasswordForm {
        current_password: current.to_string(),
        new_password: new.to_string(),
        new_password_check: check.to_string(),
    }
}

fn redirect(flash: Option<FlashMessage>, to: &str) -> ChangePasswordAction {
    ChangePasswordAction::Answer {
        flash,
        reply: Reply::SeeOther(to.to_string()),
    }
}

#[test]
fn change_password_without_session_redirects_to_login() {
    let f = form("old", "new-password-1", "new-password-1");
    let (s, a) = ChangePasswordState::start().step(&f, ChangePasswordEvent::SessionUser(None));
    assert_eq!(a, redirect(None, "/login"));
    assert_eq!(s, ChangePasswordState::Finished);
    let (_, a) = ChangePasswordState::start().step(&f, ChangePasswordEvent::SessionFailed);
    assert_eq!(a, ChangePasswordAction::FailWithError);
}

#[test]
fn change_password_rejects_different_new_passwords() {
    let f = form("old", "new-password-1", "new-password-2");
    let (_, a) = ChangePasswordState::start().step(&f, ChangePasswordEvent::SessionUser(Some(5)));
    assert_eq!(
        a,
        redirect(
            Some(FlashMessage::Error(
                "You entered two different new passwords - the fields values must match."
                    .to_string()
            )),
            "/admin/password"
        )
    );
}

#[test]
fn change_password_happy_path() {
    let f = form("old-password", "new-password-1", "new-password-1");
    let (s, a) = ChangePasswordState::start().step(&f, ChangePasswordEvent::SessionUser(Some(5)));
    assert_eq!(a, ChangePasswordAction::LoadUsername(5));
    let (s, a) = s.step(&f, ChangePasswordEvent::UsernameFound("admin".to_string()));
    assert_eq!(
        a,
        ChangePasswordAction::CheckCredentials {
            username: "admin".to_string(),
            password: "old-password".to_string()
        }
    );
    let (s, a) = s.step(&f, ChangePasswordEvent::CredentialsChecked(CredentialCheck::Valid));
    assert_eq!(
        a,
        ChangePasswordAction::UpdatePassword {
            user_id: 5,
            new_password: "new-password-1".to_string()
        }
    );
    let (s, a) = s.step(&f, ChangePasswordEvent::PasswordUpdated(true));
    assert_eq!(
        a,
        redirect(
            Some(FlashMessage::Info("Your password has been changed.".to_string())),
            "/admin/password"
        )
    );
    assert_eq!(s, ChangePasswordState::Finished);
}

fn until_credentials(f: &PasswordForm) -> ChangePasswordState {
    let (s, _) = ChangePasswordState::start().step(f, ChangePasswordEvent::SessionUser(Some(5)));
    let (s, _) = s.step(f, ChangePasswordEvent::UsernameFound("admin".to_string()));
    s
}

#[test]
fn change_password_rejects_a_wrong_current_password() {
    let f = form("wrong", "new-password-1", "new-password-1");
    let (_, a) = until_credentials(&f)
        .step(&f, ChangePasswordEvent::CredentialsChecked(CredentialCheck::Invalid));
    assert_eq!(
        a,
        redirect(
            Some(FlashMessage::Error("The current password is incorrect".to_string())),
            "/admin/password"
        )
    );
    let (_, a) = until_credentials(&f)
        .step(&f, ChangePasswordEvent::CredentialsChecked(CredentialCheck::Failed));
    assert_eq!(a, ChangePasswordAction::FailWithError);
}

#[test]
fn change_password_rejects_a_short_new_password() {
    let f = form("old", "short", "short");
    let (_, a) = until_credentials(&f)
        .step(&f, ChangePasswordEvent::CredentialsChecked(CredentialCheck::Valid));
    assert_eq!(
        a,
        redirect(
            Some(FlashMessage::Error(
                "The new password must be long between 12 and 129 chars".to_string()
            )),
            "/admin/password"
        )
    );
}

#[test]
fn change_password_reports_outside_failures() {
    let f = form("old", "new-password-1", "new-password-1");
    let (s, _) = ChangePasswordState::start().step(&f, ChangePasswordEvent::SessionUser(Some(5)));
    let (_, a) = s.step(&f, ChangePasswordEvent::UsernameFailed);
    assert_eq!(a, ChangePasswordAction::FailWithError);
    let (s, _) = until_credentials(&f)
        .step(&f, ChangePasswordEvent::CredentialsChecked(CredentialCheck::Valid));
    let (_, a) = s.step(&f, ChangePasswordEvent::PasswordUpdated(false));
    assert_eq!(a, ChangePasswordAction::FailWithError);
}
