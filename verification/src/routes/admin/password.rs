//! Changing the administrator's password: the form page and the flow of
//! the form's submission.

use vstd::prelude::*;
use crate::helpers::{
    empty_lists, empty_text, page_reply, render_html, renders_to, tera_template_names, views,
    Reply,
};
use crate::text::utf8_len;

verus! {

/// The HTML of the flash messages shown above the form: their contents,
/// one after the other.
pub open spec fn flash_html_text(messages: Seq<Seq<char>>) -> Seq<char>
    decreases messages.len(),
{
    if messages.len() == 0 {
        Seq::empty()
    } else {
        flash_html_text(messages.drop_last()) + messages.last()
    }
}

/// The flash messages written one after the other.
pub fn flash_html(messages: &Vec<String>) -> (r: String)
    ensures
        r@ == flash_html_text(crate::helpers::views(messages@)),
{
    let ghost all = crate::helpers::views(messages@);
    let mut html = String::new();
    let mut i: usize = 0;
    while i < messages.len()
        invariant
            i <= messages@.len(),
            all == crate::helpers::views(messages@),
            html@ == flash_html_text(all.subrange(0, i as int)),
        decreases messages@.len() - i,
    {
        html.append(messages[i].as_str());
        assert(all.subrange(0, i + 1).drop_last() =~= all.subrange(0, i as int));
        i = i + 1;
    }
    assert(all.subrange(0, messages@.len() as int) =~= all);
    html
}

/// The context of the password form: `msg_html` bound to the flash
/// messages written one after the other.
pub open spec fn password_form_text(messages: Seq<String>) -> Map<Seq<char>, Seq<char>> {
    empty_text().insert("msg_html"@, flash_html_text(views(messages)))
}

/// The password form: `change_password.html` rendered with the flash
/// messages as `msg_html`, or an empty 500 when rendering fails.
pub fn change_password_page(tera: &tera::Tera, messages: &Vec<String>) -> (r: Reply)
    ensures
        r is Html || r is InternalError,
        r matches Reply::Html(h) ==> renders_to(
            *tera,
            "change_password.html"@,
            password_form_text(messages@),
            empty_lists(),
            h@,
        ),
        !tera_template_names(*tera).contains("change_password.html"@) ==> r is InternalError,
{
    let msg_html = flash_html(messages);
    let args = [("msg_html", msg_html.as_str())];
    assert(crate::helpers::pairs_map(args@) == password_form_text(messages@)) by {
        assert(args@.len() == 1);
        assert(args@[0].0@ == "msg_html"@);
        assert(args@.drop_last() =~= Seq::<(&str, &str)>::empty());
        assert(crate::helpers::pairs_map(args@.drop_last()) == empty_text());
    }
    page_reply(render_html(tera, &args, String::from_str("change_password.html")))
}

/// A new password is accepted when it is longer than 11 and shorter than
/// 129 bytes.
pub open spec fn password_length_ok(password: Seq<char>) -> bool {
    11 < utf8_len(password) && utf8_len(password) < 129
}

/// Whether the new password has an accepted length.
pub fn validate_new_password(new_pwd: &str) -> (r: bool)
    ensures
        r == password_length_ok(new_pwd@),
{
    let n = new_pwd.as_bytes().len();
    n > 11 && n < 129
}

/// Writing messages one after the other: no messages give the empty text,
/// one message gives itself, and the messages of two lists give the text of
/// the first followed by the text of the second.
pub proof fn flash_html_concatenates(a: Seq<Seq<char>>, b: Seq<Seq<char>>, m: Seq<char>)
    ensures
        flash_html_text(Seq::empty()) == Seq::<char>::empty(),
        flash_html_text(seq![m]) == m,
        flash_html_text(a + b) == flash_html_text(a) + flash_html_text(b),
    decreases b.len(),
{
    assert(seq![m].drop_last() =~= Seq::<Seq<char>>::empty());
    assert(Seq::<char>::empty() + m =~= m);
    if b.len() == 0 {
        assert(a + b =~= a);
        assert(flash_html_text(a) + Seq::<char>::empty() =~= flash_html_text(a));
    } else {
        flash_html_concatenates(a, b.drop_last(), m);
        assert((a + b).drop_last() =~= a + b.drop_last());
        assert((a + b).last() == b.last());
        assert(flash_html_text(a) + flash_html_text(b.drop_last()) + b.last() =~= flash_html_text(
            a,
        ) + (flash_html_text(b.drop_last()) + b.last()));
    }
}

/// The password form's context binds `msg_html`, and nothing else, to the
/// flash messages written one after the other; with no messages it is
/// bound to the empty text, so the form always renders.
pub proof fn password_form_binds_messages(messages: Seq<String>)
    ensures
        password_form_text(messages).dom() == set!["msg_html"@],
        password_form_text(messages)["msg_html"@] == flash_html_text(views(messages)),
        messages.len() == 0 ==> password_form_text(messages)["msg_html"@] == Seq::<char>::empty(),
{
    assert(password_form_text(messages).dom() =~= set!["msg_html"@]);
    if messages.len() == 0 {
        assert(views(messages) =~= Seq::<Seq<char>>::empty());
    }
}

/// Whether a new password is accepted depends on its length in UTF-8 bytes
/// alone: two passwords of the same length get the same answer, and a
/// password is accepted exactly when that length is from 12 to 128.
pub proof fn password_acceptance_depends_on_length(p: Seq<char>, q: Seq<char>)
    ensures
        utf8_len(p) == utf8_len(q) ==> password_length_ok(p) == password_length_ok(q),
        password_length_ok(p) <==> 12 <= utf8_len(p) && utf8_len(p) <= 128,
{
}

/// The fields of the password form.
#[derive(Debug, PartialEq, Eq)]
pub struct PasswordForm {
    pub current_password: String,
    pub new_password: String,
    pub new_password_check: String,
}

/// A flash message for the next page.
#[derive(Debug, PartialEq, Eq)]
pub enum FlashMessage {
    Error(String),
    Info(String),
}

/// Where the `change_password` handler stands.
#[derive(Debug, PartialEq, Eq)]
pub enum ChangePasswordState {
    /// The user of the session is being looked up.
    CheckingSession,
    /// The name of the user is being loaded.
    LoadingUsername { user_id: u128 },
    /// The current password is being checked.
    CheckingCredentials { user_id: u128 },
    /// The new password is being stored.
    Updating,
    /// The reply has been decided.
    Finished,
}

/// The outcome of checking a user's credentials.
#[derive(Debug, PartialEq, Eq)]
pub enum CredentialCheck {
    Valid,
    Invalid,
    Failed,
}

/// The outcome of the outside step that the handler last asked for.
#[derive(Debug, PartialEq, Eq)]
pub enum ChangePasswordEvent {
    /// Reading the session failed.
    SessionFailed,
    /// The session's user, if one is logged in.
    SessionUser(Option<u128>),
    /// Loading the user's name failed.
    UsernameFailed,
    /// The user's name.
    UsernameFound(String),
    /// The outcome of checking the current password.
    CredentialsChecked(CredentialCheck),
    /// Storing the new password succeeded (`true`) or failed.
    PasswordUpdated(bool),
}

/// What the handler does next.
#[derive(Debug, PartialEq, Eq)]
pub enum ChangePasswordAction {
    /// Load the name of this user.
    LoadUsername(u128),
    /// Check these credentials.
    CheckCredentials { username: String, password: String },
    /// Store the new password of this user.
    UpdatePassword { user_id: u128, new_password: String },
    /// Send the flash message, if any, and answer with the reply.
    Answer { flash: Option<FlashMessage>, reply: Reply },
    /// Answer 500 with the error of the last step.
    FailWithError,
}

/// Whether `event` is the outcome of the step that `state` waits for.
pub open spec fn change_password_expects(
    state: ChangePasswordState,
    event: ChangePasswordEvent,
) -> bool {
    match state {
        ChangePasswordState::CheckingSession => event is SessionFailed || event is SessionUser,
        ChangePasswordState::LoadingUsername { .. } => event is UsernameFailed
            || event is UsernameFound,
        ChangePasswordState::CheckingCredentials { .. } => event is CredentialsChecked,
        ChangePasswordState::Updating => event is PasswordUpdated,
        ChangePasswordState::Finished => false,
    }
}

/// The location of the password form.
pub open spec fn password_page() -> Seq<char> {
    "/admin/password"@
}

/// The location of the login page.
pub open spec fn login_location() -> Seq<char> {
    "/login"@
}

/// The flash message when the new passwords differ.
pub open spec fn mismatch_message() -> Seq<char> {
    "You entered two different new passwords - the fields values must match."@
}

/// The flash message when the current password is wrong.
pub open spec fn wrong_password_message() -> Seq<char> {
    "The current password is incorrect"@
}

/// The flash message when the new password has a refused length.
pub open spec fn length_message() -> Seq<char> {
    "The new password must be long between 12 and 129 chars"@
}

/// The flash message when the password was changed.
pub open spec fn changed_message() -> Seq<char> {
    "Your password has been changed."@
}

/// The handler stops with a redirect to `location`, without a flash message.
pub open spec fn redirects(next: ChangePasswordState, action: ChangePasswordAction, location: Seq<
    char,
>) -> bool {
    &&& next == ChangePasswordState::Finished
    &&& action matches ChangePasswordAction::Answer { flash: None, reply: Reply::SeeOther(l) }
    &&& l@ == location
}

/// The handler stops with a redirect to the password form and an error
/// flash message `message`.
pub open spec fn flashes_error(
    next: ChangePasswordState,
    action: ChangePasswordAction,
    message: Seq<char>,
) -> bool {
    &&& next == ChangePasswordState::Finished
    &&& action matches ChangePasswordAction::Answer {
        flash: Some(FlashMessage::Error(m)),
        reply: Reply::SeeOther(l),
    }
    &&& m@ == message
    &&& l@ == password_page()
}

/// The handler stops with a redirect to the password form and an
/// informational flash message `message`.
pub open spec fn flashes_info(
    next: ChangePasswordState,
    action: ChangePasswordAction,
    message: Seq<char>,
) -> bool {
    &&& next == ChangePasswordState::Finished
    &&& action matches ChangePasswordAction::Answer {
        flash: Some(FlashMessage::Info(m)),
        reply: Reply::SeeOther(l),
    }
    &&& m@ == message
    &&& l@ == password_page()
}

/// The handler stops and answers 500 with the error of the last step.
pub open spec fn fails(next: ChangePasswordState, action: ChangePasswordAction) -> bool {
    next == ChangePasswordState::Finished && action == ChangePasswordAction::FailWithError
}

/// One step of the `change_password` handler for the submitted `form`.
pub open spec fn change_password_transition(
    form: PasswordForm,
    state: ChangePasswordState,
    event: ChangePasswordEvent,
    next: ChangePasswordState,
    action: ChangePasswordAction,
) -> bool {
    match state {
        ChangePasswordState::CheckingSession => match event {
            ChangePasswordEvent::SessionFailed => fails(next, action),
            ChangePasswordEvent::SessionUser(None) => redirects(next, action, login_location()),
            ChangePasswordEvent::SessionUser(Some(user_id)) => if form.new_password@
                != form.new_password_check@ {
                flashes_error(next, action, mismatch_message())
            } else {
                next == (ChangePasswordState::LoadingUsername { user_id }) && action
                    == ChangePasswordAction::LoadUsername(user_id)
            },
            _ => false,
        },
        ChangePasswordState::LoadingUsername { user_id } => match event {
            ChangePasswordEvent::UsernameFailed => fails(next, action),
            ChangePasswordEvent::UsernameFound(username) => next == (
            ChangePasswordState::CheckingCredentials { user_id }) && action == (
            ChangePasswordAction::CheckCredentials { username, password: form.current_password }),
            _ => false,
        },
        ChangePasswordState::CheckingCredentials { user_id } => match event {
            ChangePasswordEvent::CredentialsChecked(CredentialCheck::Invalid) => flashes_error(
                next,
                action,
                wrong_password_message(),
            ),
            ChangePasswordEvent::CredentialsChecked(CredentialCheck::Failed) => fails(next, action),
            ChangePasswordEvent::CredentialsChecked(CredentialCheck::Valid) => if !password_length_ok(
                form.new_password@,
            ) {
                flashes_error(next, action, length_message())
            } else {
                next == ChangePasswordState::Updating && action == (
                ChangePasswordAction::UpdatePassword { user_id, new_password: form.new_password })
            },
            _ => false,
        },
        ChangePasswordState::Updating => match event {
            ChangePasswordEvent::PasswordUpdated(true) => flashes_info(
                next,
                action,
                changed_message(),
            ),
            ChangePasswordEvent::PasswordUpdated(false) => fails(next, action),
            _ => false,
        },
        ChangePasswordState::Finished => false,
    }
}

/// A run of the handler for `form` from its start: the states it went
/// through, the outcomes it was given and the actions it took after each.
pub open spec fn change_password_run(
    form: PasswordForm,
    states: Seq<ChangePasswordState>,
    events: Seq<ChangePasswordEvent>,
    actions: Seq<ChangePasswordAction>,
) -> bool {
    &&& states.len() == events.len() + 1
    &&& actions.len() == events.len()
    &&& states[0] == ChangePasswordState::CheckingSession
    &&& forall|i: int|
        0 <= i < events.len() ==> {
            &&& change_password_expects(#[trigger] states[i], events[i])
            &&& change_password_transition(form, states[i], events[i], states[i + 1], actions[i])
        }
}

/// How many steps lead to a state when nothing fails.
pub open spec fn change_password_stage(state: ChangePasswordState) -> int {
    match state {
        ChangePasswordState::CheckingSession => 0,
        ChangePasswordState::LoadingUsername { .. } => 1,
        ChangePasswordState::CheckingCredentials { .. } => 2,
        ChangePasswordState::Updating => 3,
        ChangePasswordState::Finished => -1,
    }
}

proof fn lemma_change_password_stage(
    form: PasswordForm,
    states: Seq<ChangePasswordState>,
    events: Seq<ChangePasswordEvent>,
    actions: Seq<ChangePasswordAction>,
    i: int,
)
    requires
        change_password_run(form, states, events, actions),
        0 <= i < events.len(),
    ensures
        change_password_stage(states[i]) == i,
    decreases i,
{
    if i > 0 {
        lemma_change_password_stage(form, states, events, actions, i - 1);
        assert(change_password_expects(states[i - 1], events[i - 1]));
        assert(change_password_expects(states[i], events[i]));
    }
}

/// A password is stored only for the session's user, only after the two
/// new entries agreed, the current password was checked and found valid,
/// and the new password had an accepted length; the password stored is the
/// new one of the form.
pub proof fn password_changes_only_after_checks(
    form: PasswordForm,
    states: Seq<ChangePasswordState>,
    events: Seq<ChangePasswordEvent>,
    actions: Seq<ChangePasswordAction>,
    k: int,
)
    requires
        change_password_run(form, states, events, actions),
        0 <= k < actions.len(),
        actions[k] is UpdatePassword,
    ensures
        k == 2,
        events[0] == ChangePasswordEvent::SessionUser(Some(actions[k]->UpdatePassword_user_id)),
        form.new_password@ == form.new_password_check@,
        actions[1] == (ChangePasswordAction::CheckCredentials {
            username: events[1]->UsernameFound_0,
            password: form.current_password,
        }),
        events[2] == ChangePasswordEvent::CredentialsChecked(CredentialCheck::Valid),
        password_length_ok(form.new_password@),
        actions[k]->UpdatePassword_new_password == form.new_password,
{
    lemma_change_password_stage(form, states, events, actions, k);
    assert(change_password_expects(states[k], events[k]));
    assert(k == 2);
    lemma_change_password_stage(form, states, events, actions, 0);
    lemma_change_password_stage(form, states, events, actions, 1);
    assert(change_password_expects(states[0], events[0]));
    assert(change_password_expects(states[1], events[1]));
}

/// When the session holds a user and the two new entries agree, the
/// handler's next step loads the name of that very user.
pub proof fn username_loaded_for_session_user(
    form: PasswordForm,
    user_id: u128,
    next: ChangePasswordState,
    action: ChangePasswordAction,
)
    requires
        form.new_password@ == form.new_password_check@,
        change_password_transition(
            form,
            ChangePasswordState::CheckingSession,
            ChangePasswordEvent::SessionUser(Some(user_id)),
            next,
            action,
        ),
    ensures
        action == ChangePasswordAction::LoadUsername(user_id),
        next == (ChangePasswordState::LoadingUsername { user_id }),
{
}

/// The credentials checked in a run are those of the session's user: the
/// name loaded is the name of the user the session holds, the name checked
/// is the name loaded, and the password checked is the form's current one.
pub proof fn credentials_checked_for_session_user(
    form: PasswordForm,
    states: Seq<ChangePasswordState>,
    events: Seq<ChangePasswordEvent>,
    actions: Seq<ChangePasswordAction>,
    k: int,
)
    requires
        change_password_run(form, states, events, actions),
        0 <= k < actions.len(),
        actions[k] is CheckCredentials,
    ensures
        k == 1,
        events[0] matches ChangePasswordEvent::SessionUser(Some(u)) && actions[0]
            == ChangePasswordAction::LoadUsername(u),
        events[1] matches ChangePasswordEvent::UsernameFound(name)
            && actions[k]->CheckCredentials_username == name,
        actions[k]->CheckCredentials_password == form.current_password,
{
    lemma_change_password_stage(form, states, events, actions, k);
    assert(change_password_expects(states[k], events[k]));
    lemma_change_password_stage(form, states, events, actions, 0);
    assert(change_password_expects(states[0], events[0]));
    assert(change_password_expects(states[1], events[1]));
}

impl ChangePasswordState {
    /// The state in which the handler starts: reading the session.
    pub fn start() -> (s: ChangePasswordState)
        ensures
            s == ChangePasswordState::CheckingSession,
    {
        ChangePasswordState::CheckingSession
    }

    /// Takes the outcome of the step asked for and decides the next one.
    pub fn step(self, form: &PasswordForm, event: ChangePasswordEvent) -> (r: (
        ChangePasswordState,
        ChangePasswordAction,
    ))
        requires
            change_password_expects(self, event),
        ensures
            change_password_transition(*form, self, event, r.0, r.1),
    {
        match self {
            ChangePasswordState::CheckingSession => match event {
                ChangePasswordEvent::SessionUser(None) => (
                    ChangePasswordState::Finished,
                    ChangePasswordAction::Answer {
                        flash: None,
                        reply: Reply::SeeOther(String::from_str("/login")),
                    },
                ),
                ChangePasswordEvent::SessionUser(Some(user_id)) => {
                    if form.new_password != form.new_password_check {
                        (
                            ChangePasswordState::Finished,
                            ChangePasswordAction::Answer {
                                flash: Some(
                                    FlashMessage::Error(
                                        String::from_str(
                                            "You entered two different new passwords - the fields values must match.",
                                        ),
                                    ),
                                ),
                                reply: Reply::SeeOther(String::from_str("/admin/password")),
                            },
                        )
                    } else {
                        (
                            ChangePasswordState::LoadingUsername { user_id },
                            ChangePasswordAction::LoadUsername(user_id),
                        )
                    }
                },
                _ => (ChangePasswordState::Finished, ChangePasswordAction::FailWithError),
            },
            ChangePasswordState::LoadingUsername { user_id } => match event {
                ChangePasswordEvent::UsernameFound(username) => (
                    ChangePasswordState::CheckingCredentials { user_id },
                    ChangePasswordAction::CheckCredentials {
                        username,
                        password: form.current_password.clone(),
                    },
                ),
                _ => (ChangePasswordState::Finished, ChangePasswordAction::FailWithError),
            },
            ChangePasswordState::CheckingCredentials { user_id } => match event {
                ChangePasswordEvent::CredentialsChecked(CredentialCheck::Valid) => {
                    if !validate_new_password(form.new_password.as_str()) {
                        (
                            ChangePasswordState::Finished,
                            ChangePasswordAction::Answer {
                                flash: Some(
                                    FlashMessage::Error(
                                        String::from_str(
                                            "The new password must be long between 12 and 129 chars",
                                        ),
                                    ),
                                ),
                                reply: Reply::SeeOther(String::from_str("/admin/password")),
                            },
                        )
                    } else {
                        (
                            ChangePasswordState::Updating,
                            ChangePasswordAction::UpdatePassword {
                                user_id,
                                new_password: form.new_password.clone(),
                            },
                        )
                    }
                },
                ChangePasswordEvent::CredentialsChecked(CredentialCheck::Invalid) => (
                    ChangePasswordState::Finished,
                    ChangePasswordAction::Answer {
                        flash: Some(
                            FlashMessage::Error(
                                String::from_str("The current password is incorrect"),
                            ),
                        ),
                        reply: Reply::SeeOther(String::from_str("/admin/password")),
                    },
                ),
                _ => (ChangePasswordState::Finished, ChangePasswordAction::FailWithError),
            },
            ChangePasswordState::Updating => match event {
                ChangePasswordEvent::PasswordUpdated(true) => (
                    ChangePasswordState::Finished,
                    ChangePasswordAction::Answer {
                        flash: Some(
                            FlashMessage::Info(String::from_str("Your password has been changed.")),
                        ),
                        reply: Reply::SeeOther(String::from_str("/admin/password")),
                    },
                ),
                _ => (ChangePasswordState::Finished, ChangePasswordAction::FailWithError),
            },
            // A finished handler expects no outcome (see `requires`).
            ChangePasswordState::Finished => (
                ChangePasswordState::Finished,
                ChangePasswordAction::FailWithError,
            ),
        }
    }
}

} // verus!
