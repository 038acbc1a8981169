//! The two endpoints: `GET /health_check` and `POST /subscriptions`. Handling
//! a submission is a decision (refuse it, or insert a row) followed, once the
//! insert has run, by the response.
use vstd::prelude::*;

use crate::store::{Subscription, SubscriptionView};
use crate::subscription::{parse_subscriber, subscriber_form, FormRejection};

verus! {

/// `200 OK`.
pub const STATUS_OK: u16 = 200;

/// `400 Bad Request`.
pub const STATUS_BAD_REQUEST: u16 = 400;

/// `500 Internal Server Error`.
pub const STATUS_INTERNAL_SERVER_ERROR: u16 = 500;

/// A response: a status and a body.
pub struct Response {
    pub status: u16,
    pub body: Vec<u8>,
}

/// The liveness probe: success with an empty body, whatever came before.
pub fn health_check() -> (r: Response)
    ensures
        r.status == STATUS_OK,
        r.body@.len() == 0,
{
    Response { status: STATUS_OK, body: Vec::new() }
}

/// The row that a form body asks to store under `id` at `subscribed_at`, or
/// why the body is refused.
pub open spec fn subscribe_outcome(body: Seq<u8>, id: u128, subscribed_at: i64) -> Result<
    SubscriptionView,
    FormRejection,
> {
    match subscriber_form(body) {
        Ok((name, email)) => Ok(SubscriptionView { id, name, email, subscribed_at }),
        Err(e) => Err(e),
    }
}

/// The status that answers an insert that did or did not succeed.
pub open spec fn insert_status(inserted: bool) -> u16 {
    if inserted {
        STATUS_OK
    } else {
        STATUS_INTERNAL_SERVER_ERROR
    }
}

/// What a submission leads to.
pub enum SubscribeAction {
    /// Answer at once; nothing is stored.
    Reject(Response),
    /// Insert this row, then answer with `insert_response`.
    Insert(Subscription),
}

/// Whether an action carries out an outcome: a refused body is answered
/// with a client error and an empty body, an accepted one is inserted.
pub open spec fn action_is(
    a: SubscribeAction,
    outcome: Result<SubscriptionView, FormRejection>,
) -> bool {
    match a {
        SubscribeAction::Reject(r) => outcome is Err && r.status == STATUS_BAD_REQUEST
            && r.body@.len() == 0,
        SubscribeAction::Insert(s) => outcome == Ok::<SubscriptionView, FormRejection>(s@),
    }
}

/// Decides what a submission does, given the identifier and the time that
/// a new row would get.
pub fn subscribe(body: &[u8], id: u128, subscribed_at: i64) -> (a: SubscribeAction)
    ensures
        action_is(a, subscribe_outcome(body@, id, subscribed_at)),
{
    match parse_subscriber(body) {
        Ok(s) => SubscribeAction::Insert(
            Subscription { id, name: s.name, email: s.email, subscribed_at },
        ),
        Err(_) => SubscribeAction::Reject(
            Response { status: STATUS_BAD_REQUEST, body: Vec::new() },
        ),
    }
}

/// The answer once an insert has run: success with an empty body, or a
/// server error where the store failed.
pub fn insert_response(inserted: bool) -> (r: Response)
    ensures
        r.status == insert_status(inserted),
        r.body@.len() == 0,
{
    if inserted {
        Response { status: STATUS_OK, body: Vec::new() }
    } else {
        Response { status: STATUS_INTERNAL_SERVER_ERROR, body: Vec::new() }
    }
}

/// Relies on `uuid::Uuid::new_v4`: a random identifier. Nothing is known of
/// its value.
#[verifier::external_body]
fn new_subscription_id() -> (id: u128) {
    uuid::Uuid::new_v4().as_u128()
}

/// Relies on `chrono::Utc::now` and `DateTime::timestamp_micros`: the time
/// now, in microseconds since the Unix epoch. Nothing is known of its value.
#[verifier::external_body]
fn now_micros() -> (t: i64) {
    chrono::Utc::now().timestamp_micros()
}

/// Decides what a submission does, with a fresh random identifier and the
/// time now for the row it may insert.
pub fn subscribe_now(body: &[u8]) -> (a: SubscribeAction)
    ensures
        exists|id: u128, t: i64| action_is(a, subscribe_outcome(body@, id, t)),
{
    let id = new_subscription_id();
    let t = now_micros();
    subscribe(body, id, t)
}

} // verus!
