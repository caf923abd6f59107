//! What the e-mail client sends: the form of a message and the credentials
//! of the e-mail service. The HTTP exchange itself is the caller's.

use vstd::prelude::*;

verus! {

/// The user name under which the e-mail service is called.
pub open spec fn api_user() -> Seq<char> {
    "api"@
}

/// The views of an optional string.
pub open spec fn opt_view(o: Option<String>) -> Option<Seq<char>> {
    match o {
        Some(s) => Some(s@),
        None => None,
    }
}

/// The text of the URL that `Url::parse` makes of `s`, or none when `s` is
/// not a valid absolute URL.
pub uninterp spec fn parsed_url(s: Seq<char>) -> Option<Seq<char>>;

/// The text of the URL that `Url::join` makes of `input` resolved against
/// the URL parsed from `base`, or none when that fails.
pub uninterp spec fn joined_url(base: Seq<char>, input: Seq<char>) -> Option<Seq<char>>;

/// Calls `reqwest::Url::parse` (the `url` crate's parser) and gives the
/// parsed URL as its text. The result depends on `s` alone and is named
/// `parsed_url`.
#[verifier::external_body]
fn parse_url(s: &str) -> (r: Option<String>)
    ensures
        opt_view(r) == parsed_url(s@),
{
    reqwest::Url::parse(s).ok().map(String::from)
}

/// Calls `reqwest::Url::join`, which resolves `input` against a base URL;
/// the base is handed over as its text and parsed back into a URL first,
/// and the joined URL is given as its text. The result depends on the two
/// texts alone and is named `joined_url`.
#[verifier::external_body]
fn join_url(base: &str, input: &str) -> (r: Option<String>)
    ensures
        opt_view(r) == joined_url(base@, input@),
{
    match reqwest::Url::parse(base) {
        Ok(url) => url.join(input).ok().map(String::from),
        Err(_) => None,
    }
}

/// The settings of the e-mail client: the text of the service's parsed base
/// URL, the sender address and the service's authorization token.
pub struct EmailClient {
    pub base_url: String,
    pub sender: String,
    authorization_token: String,
}

/// The form fields of a message to the e-mail service.
#[derive(Debug, PartialEq, Eq)]
pub struct SendEmailRequest {
    pub from: String,
    pub to: String,
    pub subject: String,
    pub html: String,
    pub text: String,
}

/// The form fields of a message as the e-mail service reads them.
#[derive(Debug, PartialEq, Eq)]
pub struct TargetEmailBody {
    pub from: String,
    pub to: String,
    pub subject: String,
    pub html: String,
    pub text: String,
}

impl EmailClient {
    /// The authorization token, as a view.
    pub closed spec fn token(&self) -> Seq<char> {
        self.authorization_token@
    }

    /// The sender address, as a view.
    pub closed spec fn sender_view(&self) -> Seq<char> {
        self.sender@
    }

    /// The text of the base URL, as a view.
    pub closed spec fn base_url_view(&self) -> Seq<char> {
        self.base_url@
    }

    /// A client for the service at `base_url`, which must be a valid URL,
    /// that sends from `sender`; it keeps the parsed URL's text.
    pub fn new(base_url: String, sender: String, authorization_token: String) -> (c: EmailClient)
        requires
            parsed_url(base_url@) is Some,
        ensures
            Some(c.base_url_view()) == parsed_url(base_url@),
            c.sender_view() == sender@,
            c.token() == authorization_token@,
    {
        let url = match parse_url(base_url.as_str()) {
            Some(text) => text,
            None => base_url,
        };
        EmailClient { base_url: url, sender, authorization_token }
    }

    /// A client as `new` makes it, or none when `base_url` is not a valid
    /// URL.
    pub fn try_new(base_url: String, sender: String, authorization_token: String) -> (r: Option<
        EmailClient,
    >)
        ensures
            r is Some <==> parsed_url(base_url@) is Some,
            r matches Some(c) ==> {
                &&& Some(c.base_url_view()) == parsed_url(base_url@)
                &&& c.sender_view() == sender@
                &&& c.token() == authorization_token@
            },
    {
        match parse_url(base_url.as_str()) {
            Some(_) => Some(EmailClient::new(base_url, sender, authorization_token)),
            None => None,
        }
    }

    /// The URL of the service's `messages` endpoint: `messages` resolved
    /// against the base URL.
    pub fn messages_url(&self) -> (r: Option<String>)
        ensures
            opt_view(r) == joined_url(self.base_url_view(), "messages"@),
    {
        join_url(self.base_url.as_str(), "messages")
    }

    /// The form of a message from the client's sender to `recipient`.
    pub fn email_request(
        &self,
        recipient: &str,
        subject: &str,
        html_content: &str,
        text_content: &str,
    ) -> (r: SendEmailRequest)
        ensures
            r.from@ == self.sender_view(),
            r.to@ == recipient@,
            r.subject@ == subject@,
            r.html@ == html_content@,
            r.text@ == text_content@,
    {
        SendEmailRequest {
            from: self.sender.clone(),
            to: String::from_str(recipient),
            subject: String::from_str(subject),
            html: String::from_str(html_content),
            text: String::from_str(text_content),
        }
    }

    /// The basic-authentication user name and password for the service:
    /// `api` and the authorization token.
    pub fn credentials(&self) -> (r: (String, String))
        ensures
            r.0@ == api_user(),
            r.1@ == self.token(),
    {
        (String::from_str("api"), self.authorization_token.clone())
    }
}

impl SendEmailRequest {
    /// The message as the service reads it: the same five fields.
    pub fn to_target(&self) -> (r: TargetEmailBody)
        ensures
            r.from == self.from,
            r.to == self.to,
            r.subject == self.subject,
            r.html == self.html,
            r.text == self.text,
    {
        TargetEmailBody {
            from: self.from.clone(),
            to: self.to.clone(),
            subject: self.subject.clone(),
            html: self.html.clone(),
            text: self.text.clone(),
        }
    }
}

} // verus!
