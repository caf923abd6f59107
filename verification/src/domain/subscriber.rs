//! Subscriber records as the database holds them, and the data of a
//! subscription request once its form has been checked.

use vstd::prelude::*;

verus! {

/// The status of a subscriber who has not yet confirmed.
pub open spec fn pending_status() -> Seq<char> {
    "pending_confirmation"@
}

/// A row of the `subscriptions` table. The id is the UUID's 128-bit value.
#[derive(Debug, PartialEq, Eq)]
pub struct Subscriber {
    pub id: u128,
    pub email: String,
    pub name: String,
    pub subscribed_at: String,
    pub status: String,
}

/// The e-mail address and name of a subscription request whose form has
/// been checked.
#[derive(Debug, PartialEq, Eq)]
pub struct NewSubscriber {
    pub email: String,
    pub name: String,
}

impl NewSubscriber {
    /// A copy of the request.
    pub fn duplicate(&self) -> (r: NewSubscriber)
        ensures
            r == *self,
    {
        NewSubscriber { email: self.email.clone(), name: self.name.clone() }
    }
}

/// The id under which a request is recorded when `existing` is what the
/// database holds for its e-mail address: that subscriber's id if it is
/// still pending confirmation, otherwise none (a new row is inserted).
pub open spec fn reused_id_spec(existing: Option<Subscriber>) -> Option<u128> {
    match existing {
        Some(s) => if s.status@ == pending_status() {
            Some(s.id)
        } else {
            None
        },
        None => None,
    }
}

/// A pending subscriber who subscribes again keeps the id already recorded.
pub fn pending_subscriber_id(existing: &Option<Subscriber>) -> (r: Option<u128>)
    ensures
        r == reused_id_spec(*existing),
{
    match existing {
        Some(s) => {
            if s.status == String::from_str("pending_confirmation") {
                Some(s.id)
            } else {
                None
            }
        },
        None => None,
    }
}

/// A request whose address belongs to a subscriber still pending
/// confirmation is recorded under that subscriber's own id; a reused id is
/// always the id of the subscriber found, and one that has confirmed, or no
/// subscriber at all, gives no id.
pub proof fn pending_subscriber_keeps_own_id(existing: Option<Subscriber>)
    ensures
        reused_id_spec(existing) matches Some(id) ==> (existing matches Some(s) && s.id == id
            && s.status@ == "pending_confirmation"@),
        (existing matches Some(s) && s.status@ == "pending_confirmation"@) ==> reused_id_spec(
            existing,
        ) == Some(existing->Some_0.id),
        (existing matches Some(s) && s.status@ != "pending_confirmation"@) ==> reused_id_spec(
            existing,
        ) is None,
        existing is None ==> reused_id_spec(existing) is None,
{
}

} // verus!
