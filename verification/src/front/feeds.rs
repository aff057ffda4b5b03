//! What the routes for a user's feeds decide.

use vstd::prelude::*;

use super::error::RouteError;
use crate::database::models::UserFeedId;
use crate::database::resolve::StoreFailure;

verus! {

/// What the store answered to the insert of a subscription.
#[derive(Clone, Copy, Debug, PartialEq, Eq, Structural)]
pub enum SubscriptionReply {
    /// The subscription was created.
    Inserted(UserFeedId),
    /// The user is subscribed to that feed already.
    UniqueViolation,
    /// The store failed.
    Failure,
}

/// The status code of a request that was served.
pub const OK: u16 = 200;

/// The words for a user who subscribes to a feed a second time.
pub open spec fn already_subscribed_text() -> Seq<char> {
    "the current user already has such a feed"@
}

/// The words for a URL that does not parse.
pub open spec fn invalid_url_text() -> Seq<char> {
    "url is not valid"@
}

/// Reads the store's answer to the insert of a subscription: a conflict is
/// no failure but means that there is nothing new.
pub fn subscription_of(reply: SubscriptionReply) -> (result: Result<Option<UserFeedId>, StoreFailure>)
    ensures
        result == match reply {
            SubscriptionReply::Inserted(id) => Ok::<Option<UserFeedId>, StoreFailure>(Some(id)),
            SubscriptionReply::UniqueViolation => Ok::<Option<UserFeedId>, StoreFailure>(None),
            SubscriptionReply::Failure => Err::<Option<UserFeedId>, StoreFailure>(StoreFailure),
        },
{
    match reply {
        SubscriptionReply::Inserted(id) => Ok(Some(id)),
        SubscriptionReply::UniqueViolation => Ok(None),
        SubscriptionReply::Failure => Err(StoreFailure),
    }
}

/// The answer to a request to subscribe, once the feed is registered and its
/// fetch queued: success for a new subscription, the client's fault for one
/// that existed.
pub fn subscribed(subscription: Option<UserFeedId>) -> (result: Result<u16, RouteError>)
    ensures
        match subscription {
            Some(_) => result matches Ok(code) && code == OK,
            None => result matches Err(RouteError::User(words)) && words@
                == already_subscribed_text(),
        },
{
    match subscription {
        Some(_) => Ok(OK),
        None => Err(RouteError::User("the current user already has such a feed")),
    }
}

/// The error for a request that names no valid URL.
pub fn invalid_url() -> (error: RouteError)
    ensures
        error matches RouteError::User(words) && words@ == invalid_url_text(),
{
    RouteError::User("url is not valid")
}

} // verus!
