//! What a subscription form asks for: which pairs of the body are read, when
//! a submission is refused, and the row that an accepted one becomes.
use vstd::prelude::*;

use crate::form::{fields_view, form_pairs, parse_form, FormField};

verus! {

/// The field name `name`.
pub open spec fn name_key() -> Seq<u8> {
    seq![0x6eu8, 0x61u8, 0x6du8, 0x65u8]
}

/// The field name `email`.
pub open spec fn email_key() -> Seq<u8> {
    seq![0x65u8, 0x6du8, 0x61u8, 0x69u8, 0x6cu8]
}

/// How many pairs are named `key`.
pub open spec fn count_named(pairs: Seq<(Seq<u8>, Seq<u8>)>, key: Seq<u8>) -> nat
    decreases pairs.len(),
{
    if pairs.len() == 0 {
        0
    } else {
        count_named(pairs.drop_last(), key) + if pairs.last().0 == key {
            1nat
        } else {
            0nat
        }
    }
}

/// The value of the last pair named `key` (empty where there is none).
pub open spec fn value_named(pairs: Seq<(Seq<u8>, Seq<u8>)>, key: Seq<u8>) -> Seq<u8>
    decreases pairs.len(),
{
    if pairs.len() == 0 {
        seq![]
    } else if pairs.last().0 == key {
        pairs.last().1
    } else {
        value_named(pairs.drop_last(), key)
    }
}

/// Why a submission is refused. Each of them is a client error.
#[derive(Clone, Copy, Debug, PartialEq, Eq, Structural)]
pub enum FormRejection {
    /// `name` or `email` is given more than once.
    DuplicateField,
    /// No `name` is given.
    MissingName,
    /// No `email` is given.
    MissingEmail,
    /// `name` is given with an empty value.
    EmptyName,
    /// `email` is given with an empty value.
    EmptyEmail,
}

/// The raw `name` and `email` values of a form, or why they cannot be read:
/// each must be given exactly once; other pairs are ignored.
pub open spec fn subscriber_fields(pairs: Seq<(Seq<u8>, Seq<u8>)>) -> Result<
    (Seq<u8>, Seq<u8>),
    FormRejection,
> {
    if count_named(pairs, name_key()) > 1 || count_named(pairs, email_key()) > 1 {
        Err(FormRejection::DuplicateField)
    } else if count_named(pairs, name_key()) == 0 {
        Err(FormRejection::MissingName)
    } else if count_named(pairs, email_key()) == 0 {
        Err(FormRejection::MissingEmail)
    } else {
        Ok((value_named(pairs, name_key()), value_named(pairs, email_key())))
    }
}

/// A name and an email as text, accepted when neither is empty.
pub open spec fn subscriber_of(name: Seq<char>, email: Seq<char>) -> Result<
    (Seq<char>, Seq<char>),
    FormRejection,
> {
    if name.len() == 0 {
        Err(FormRejection::EmptyName)
    } else if email.len() == 0 {
        Err(FormRejection::EmptyEmail)
    } else {
        Ok((name, email))
    }
}

/// What the bytes of a value read as text: UTF-8, with each invalid sequence
/// replaced by U+FFFD.
pub uninterp spec fn utf8_lossy(b: Seq<u8>) -> Seq<char>;

/// The name and email that a form body submits, or why it is refused.
pub open spec fn subscriber_form(body: Seq<u8>) -> Result<(Seq<char>, Seq<char>), FormRejection> {
    match subscriber_fields(form_pairs(body)) {
        Err(e) => Err(e),
        Ok((name, email)) => subscriber_of(utf8_lossy(name), utf8_lossy(email)),
    }
}

/// Relies on `String::from_utf8_lossy`: the text that the bytes encode, each
/// invalid sequence replaced by U+FFFD; it depends on the bytes alone.
#[verifier::external_body]
fn text_of(b: &[u8]) -> (r: String)
    ensures
        r@ == utf8_lossy(b@),
{
    String::from_utf8_lossy(b).into_owned()
}

/// A name and an email accepted for a subscription.
pub struct NewSubscriber {
    pub name: String,
    pub email: String,
}

impl NewSubscriber {
    pub open spec fn view(&self) -> (Seq<char>, Seq<char>) {
        (self.name@, self.email@)
    }
}

/// Whether a result agrees with what the spec gives for it.
pub open spec fn subscriber_result_is(
    r: Result<NewSubscriber, FormRejection>,
    s: Result<(Seq<char>, Seq<char>), FormRejection>,
) -> bool {
    match r {
        Ok(n) => s == Ok::<(Seq<char>, Seq<char>), FormRejection>(n.view()),
        Err(e) => s == Err::<(Seq<char>, Seq<char>), FormRejection>(e),
    }
}

fn is_name_key(b: &Vec<u8>) -> (r: bool)
    ensures
        r == (b@ == name_key()),
{
    let r = b.len() == 4 && b[0] == 0x6e && b[1] == 0x61 && b[2] == 0x6d && b[3] == 0x65;
    if r {
        assert(b@ =~= name_key());
    }
    r
}

fn is_email_key(b: &Vec<u8>) -> (r: bool)
    ensures
        r == (b@ == email_key()),
{
    let r = b.len() == 5 && b[0] == 0x65 && b[1] == 0x6d && b[2] == 0x61 && b[3] == 0x69 && b[4]
        == 0x6c;
    if r {
        assert(b@ =~= email_key());
    }
    r
}

/// Finds the `name` and `email` pairs among the decoded pairs of a form:
/// their positions, or why they cannot be read.
pub fn find_subscriber_fields(fields: &Vec<FormField>) -> (r: Result<(usize, usize), FormRejection>)
    ensures
        match r {
            Ok((n, e)) => {
                &&& n < fields@.len()
                &&& e < fields@.len()
                &&& subscriber_fields(fields_view(fields@)) == Ok::<
                    (Seq<u8>, Seq<u8>),
                    FormRejection,
                >((fields@[n as int].value@, fields@[e as int].value@))
            },
            Err(x) => subscriber_fields(fields_view(fields@)) == Err::<
                (Seq<u8>, Seq<u8>),
                FormRejection,
            >(x),
        },
{
    let ghost all = fields_view(fields@);
    let mut names: usize = 0;
    let mut emails: usize = 0;
    let mut name_at: usize = 0;
    let mut email_at: usize = 0;
    let mut i: usize = 0;
    while i < fields.len()
        invariant
            i <= fields@.len(),
            all == fields_view(fields@),
            names == if count_named(all.take(i as int), name_key()) < 2 {
                count_named(all.take(i as int), name_key())
            } else {
                2
            },
            emails == if count_named(all.take(i as int), email_key()) < 2 {
                count_named(all.take(i as int), email_key())
            } else {
                2
            },
            names > 0 ==> name_at < i && value_named(all.take(i as int), name_key())
                == fields@[name_at as int].value@,
            emails > 0 ==> email_at < i && value_named(all.take(i as int), email_key())
                == fields@[email_at as int].value@,
        decreases fields@.len() - i,
    {
        assert(all.take(i + 1).drop_last() =~= all.take(i as int));
        if is_name_key(&fields[i].name) {
            if names < 2 {
                names = names + 1;
            }
            name_at = i;
        }
        if is_email_key(&fields[i].name) {
            if emails < 2 {
                emails = emails + 1;
            }
            email_at = i;
        }
        i = i + 1;
    }
    assert(all.take(i as int) =~= all);
    if names > 1 || emails > 1 {
        Err(FormRejection::DuplicateField)
    } else if names == 0 {
        Err(FormRejection::MissingName)
    } else if emails == 0 {
        Err(FormRejection::MissingEmail)
    } else {
        Ok((name_at, email_at))
    }
}

/// Accepts a name and an email as text when neither is empty.
pub fn check_subscriber(name: String, email: String) -> (r: Result<NewSubscriber, FormRejection>)
    ensures
        subscriber_result_is(r, subscriber_of(name@, email@)),
{
    if name.as_str().is_empty() {
        Err(FormRejection::EmptyName)
    } else if email.as_str().is_empty() {
        Err(FormRejection::EmptyEmail)
    } else {
        Ok(NewSubscriber { name, email })
    }
}

/// Reads the name and email that a form body submits, or says why it is
/// refused.
pub fn parse_subscriber(body: &[u8]) -> (r: Result<NewSubscriber, FormRejection>)
    ensures
        subscriber_result_is(r, subscriber_form(body@)),
{
    let fields = parse_form(body);
    match find_subscriber_fields(&fields) {
        Err(e) => Err(e),
        Ok((n, e)) => {
            let name = text_of(fields[n].value.as_slice());
            let email = text_of(fields[e].value.as_slice());
            check_subscriber(name, email)
        },
    }
}

} // verus!
