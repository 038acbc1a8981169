//! Properties of the subscription endpoint, proved over the specs of the
//! functions that carry it out.
use vstd::prelude::*;

use crate::form::{form_pairs, split_on, pairs_of, AMPERSAND};
use crate::routes::{
    action_is, insert_status, subscribe_outcome, SubscribeAction, STATUS_BAD_REQUEST, STATUS_OK,
};
use crate::store::{has_id, ids_unique, insert_row, SubscriptionView};
use crate::subscription::{
    count_named, email_key, name_key, subscriber_fields, utf8_lossy, value_named, FormRejection,
};

verus! {

/// A submission that gives `name` and `email` once each, both non-empty as
/// text, is accepted: the row it asks for holds that name and email, an
/// insert under a fresh identifier appends exactly that one row, and the
/// answer is success.
pub proof fn valid_submission_adds_one_row(
    rows: Seq<SubscriptionView>,
    body: Seq<u8>,
    id: u128,
    subscribed_at: i64,
)
    requires
        count_named(form_pairs(body), name_key()) == 1,
        count_named(form_pairs(body), email_key()) == 1,
        utf8_lossy(value_named(form_pairs(body), name_key())).len() > 0,
        utf8_lossy(value_named(form_pairs(body), email_key())).len() > 0,
        ids_unique(rows),
        !has_id(rows, id),
    ensures
        ({
            let row = SubscriptionView {
                id,
                name: utf8_lossy(value_named(form_pairs(body), name_key())),
                email: utf8_lossy(value_named(form_pairs(body), email_key())),
                subscribed_at,
            };
            &&& subscribe_outcome(body, id, subscribed_at) == Ok::<
                SubscriptionView,
                FormRejection,
            >(row)
            &&& insert_row(rows, row) == Some(rows.push(row))
            &&& ids_unique(rows.push(row))
            &&& insert_status(true) == STATUS_OK
        }),
{
    let pairs = form_pairs(body);
    assert(subscriber_fields(pairs) == Ok::<(Seq<u8>, Seq<u8>), FormRejection>(
        (value_named(pairs, name_key()), value_named(pairs, email_key())),
    ));
}

/// A submission without `name`, without `email`, or without both is refused
/// with a client error, and no row is asked for.
pub proof fn incomplete_submission_is_refused(body: Seq<u8>, id: u128, subscribed_at: i64)
    requires
        count_named(form_pairs(body), name_key()) == 0 || count_named(form_pairs(body), email_key())
            == 0,
    ensures
        subscribe_outcome(body, id, subscribed_at) is Err,
        forall|a: SubscribeAction| #[trigger]
            action_is(a, subscribe_outcome(body, id, subscribed_at)) ==> match a {
                SubscribeAction::Reject(r) => r.status == STATUS_BAD_REQUEST,
                SubscribeAction::Insert(_) => false,
            },
{
}

/// An empty body gives neither field, and is refused as missing its name.
pub proof fn empty_body_is_refused(id: u128, subscribed_at: i64)
    ensures
        subscribe_outcome(Seq::<u8>::empty(), id, subscribed_at) == Err::<
            SubscriptionView,
            FormRejection,
        >(FormRejection::MissingName),
{
    let empty = Seq::<u8>::empty();
    let pieces = split_on(empty, AMPERSAND);
    assert(pieces =~~= seq![Seq::<u8>::empty()]);
    assert(pieces.drop_last() =~~= Seq::<Seq<u8>>::empty());
    assert(pairs_of(pieces.drop_last()) =~= Seq::<(Seq<u8>, Seq<u8>)>::empty());
    assert(pieces.last().len() == 0);
    assert(pairs_of(pieces) =~= Seq::<(Seq<u8>, Seq<u8>)>::empty());
    assert(count_named(form_pairs(empty), name_key()) == 0);
}

/// The same accepted submission made twice, each time under a fresh
/// identifier, stores two rows with the same name and email and different
/// identifiers: nothing keys the table by email.
pub proof fn resubmission_adds_two_rows(
    rows: Seq<SubscriptionView>,
    body: Seq<u8>,
    first_id: u128,
    first_at: i64,
    second_id: u128,
    second_at: i64,
)
    requires
        subscribe_outcome(body, first_id, first_at) is Ok,
        ids_unique(rows),
        !has_id(rows, first_id),
        !has_id(rows, second_id),
        first_id != second_id,
    ensures
        ({
            let first = subscribe_outcome(body, first_id, first_at)->Ok_0;
            let second = subscribe_outcome(body, second_id, second_at)->Ok_0;
            &&& subscribe_outcome(body, second_id, second_at) is Ok
            &&& first.name == second.name && first.email == second.email
            &&& first.id != second.id
            &&& insert_row(rows, first) == Some(rows.push(first))
            &&& insert_row(rows.push(first), second) == Some(rows.push(first).push(second))
            &&& ids_unique(rows.push(first).push(second))
        }),
{
    let first = subscribe_outcome(body, first_id, first_at)->Ok_0;
    let second = subscribe_outcome(body, second_id, second_at)->Ok_0;
    let once = rows.push(first);
    assert(!has_id(once, second_id)) by {
        if has_id(once, second_id) {
            let i = choose|i: int| 0 <= i < once.len() && once[i].id == second_id;
            if i < rows.len() {
                assert(rows[i].id == second_id);
            }
        }
    }
    assert(ids_unique(once.push(second))) by {
        assert forall|i: int, j: int| 0 <= i < j < once.push(second).len() implies once.push(
            second,
        )[i].id != once.push(second)[j].id by {
            if j == once.len() {
                assert(once[i].id == once.push(second)[i].id);
            } else if j == rows.len() {
                assert(rows[i].id == once[i].id);
            }
        }
    }
}

} // verus!
