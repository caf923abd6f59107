//! The confirmation token carried by the subscription confirmation link.

use vstd::prelude::*;
use crate::text::{char_is_alphanumeric, is_alphanumeric, utf8_len};

verus! {

/// The text of a well-formed subscription token: 25 bytes long and made only
/// of alphanumeric characters.
pub open spec fn is_token_text(s: Seq<char>) -> bool {
    &&& utf8_len(s) == 25
    &&& forall|i: int| 0 <= i < s.len() ==> is_alphanumeric(#[trigger] s[i])
}

/// The message of the error that `SubscriptionToken::parse` returns.
pub open spec fn invalid_token_message() -> Seq<char> {
    "Invalid token format"@
}

/// A validated subscription token.
#[derive(Debug)]
pub struct SubscriptionToken(String);

impl View for SubscriptionToken {
    type V = Seq<char>;

    closed spec fn view(&self) -> Seq<char> {
        self.0@
    }
}

impl SubscriptionToken {
    #[verifier::type_invariant]
    closed spec fn well_formed(self) -> bool {
        is_token_text(self.0@)
    }

    /// Accepts `s` exactly when it is 25 bytes of alphanumeric characters.
    pub fn parse(s: String) -> (r: Result<SubscriptionToken, String>)
        ensures
            r is Ok <==> is_token_text(s@),
            r matches Ok(t) ==> t@ == s@,
            r matches Err(e) ==> e@ == invalid_token_message(),
    {
        if s.as_str().as_bytes().len() == 25 && all_alphanumeric(s.as_str()) {
            Ok(SubscriptionToken(s))
        } else {
            Err(String::from_str("Invalid token format"))
        }
    }
}

impl SubscriptionToken {
    /// The token's text, as its `Display` form shows it. That text is
    /// always accepted again by `parse`.
    pub fn to_string(&self) -> (r: String)
        ensures
            r@ == self@,
            is_token_text(r@),
    {
        proof {
            use_type_invariant(self);
        }
        self.0.clone()
    }

    /// The token's text, borrowed.
    pub fn as_str(&self) -> (r: &str)
        ensures
            r@ == self@,
    {
        self.0.as_str()
    }
}

impl Clone for SubscriptionToken {
    fn clone(&self) -> (r: SubscriptionToken)
        ensures
            r@ == self@,
    {
        proof {
            use_type_invariant(self);
        }
        SubscriptionToken(self.0.clone())
    }
}

impl std::ops::Deref for SubscriptionToken {
    type Target = str;

    fn deref(&self) -> (r: &str)
        ensures
            r@ == self@,
    {
        self.0.as_str()
    }
}

impl TryFrom<String> for SubscriptionToken {
    type Error = String;

    fn try_from(value: String) -> (r: Result<SubscriptionToken, String>)
        ensures
            r is Ok <==> is_token_text(value@),
            r matches Ok(t) ==> t@ == value@,
            r matches Err(e) ==> e@ == invalid_token_message(),
    {
        SubscriptionToken::parse(value)
    }
}

/// `try_from_spec` describes an accepted value exactly. The error of a
/// rejected value is known only by its text (`invalid_token_message`), which
/// no spec function can build as a `String`, so the `Err` it gives is a
/// placeholder; `try_from` therefore does not claim to follow it
/// (`obeys_try_from_spec` is false), and its own `ensures` says what it
/// returns.
impl vstd::std_specs::convert::TryFromSpecImpl<String> for SubscriptionToken {
    open spec fn obeys_try_from_spec() -> bool {
        false
    }

    closed spec fn try_from_spec(v: String) -> Result<SubscriptionToken, String> {
        if is_token_text(v@) {
            Ok(SubscriptionToken(v))
        } else {
            Err(v)
        }
    }
}

/// The query parameters of the confirmation link.
pub struct Parameters {
    pub subscriptions_token: SubscriptionToken,
}

impl Parameters {
    /// The `Display` form of the parameters: the token's text, which
    /// `SubscriptionToken::parse` accepts again.
    pub fn to_string(&self) -> (r: String)
        ensures
            r@ == self.subscriptions_token@,
            is_token_text(r@),
    {
        self.subscriptions_token.to_string()
    }
}

/// Whether every character of `s` is alphanumeric.
pub fn all_alphanumeric(s: &str) -> (r: bool)
    ensures
        r <==> forall|i: int| 0 <= i < s@.len() ==> is_alphanumeric(#[trigger] s@[i]),
{
    broadcast use vstd::string::group_string_axioms;

    for c in it: s.chars()
        invariant
            it.seq() == s@,
            forall|j: int| 0 <= j < it.index() ==> is_alphanumeric(#[trigger] s@[j]),
    {
        if !char_is_alphanumeric(c) {
            return false;
        }
    }
    true
}

} // verus!
