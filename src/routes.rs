//! The decisions of the three routes: liveness, root and subscription intake.

use vstd::prelude::*;

use crate::form::{email_key, form_decode, form_of_body, key_count, key_value, name_key, parse_form};
use crate::subscription::{is_random_uuid, random_uuid, now_micros, subscription_at, Subscription};

verus! {

pub const STATUS_OK: u16 = 200;

pub const STATUS_BAD_REQUEST: u16 = 400;

pub const STATUS_INTERNAL_SERVER_ERROR: u16 = 500;

/// A response: a status code and a text body.
#[derive(Clone, Debug)]
pub struct Reply {
    pub status: u16,
    pub body: String,
}

/// The greeting that the root route answers with.
pub open spec fn greeting() -> Seq<char> {
    seq!['H', 'i', ',', ' ', 'I', '\'', 'm', ' ', 'h', 'e', 'r', 'e']
}

/// `GET /health_check`: success with an empty body.
pub fn health_check() -> (r: Reply)
    ensures
        r.status == STATUS_OK,
        r.body@.len() == 0,
{
    Reply { status: STATUS_OK, body: String::new() }
}

/// `GET /`: success with the fixed greeting.
pub fn index() -> (r: Reply)
    ensures
        r.status == STATUS_OK,
        r.body@ == greeting(),
{
    let body: String = "Hi, I'm here".to_owned();
    proof {
        reveal_strlit("Hi, I'm here");
        assert(body@ =~= greeting());
    }
    Reply { status: STATUS_OK, body }
}

/// What a `POST /subscriptions` asks for next: storing one record, or
/// answering at once.
#[derive(Clone, Debug)]
pub enum Intake {
    Insert(Subscription),
    Respond(Reply),
}

/// What `subscribe` returns for a body: the record of the submission that it
/// holds, with a fresh id; or, where it holds none, a 400 with an empty body.
pub open spec fn intake_for(body: Seq<u8>, r: Intake) -> bool {
    match r {
        Intake::Insert(s) => form_of_body(body) == Some((s.email@, s.name@)) && is_random_uuid(s.id),
        Intake::Respond(rep) => form_of_body(body) is None && rep.status == STATUS_BAD_REQUEST
            && rep.body@.len() == 0,
    }
}

/// The status that answers a subscription once the store has been tried.
pub open spec fn stored_status(stored: bool) -> u16 {
    if stored {
        STATUS_OK
    } else {
        STATUS_INTERNAL_SERVER_ERROR
    }
}

/// The table of stored `(email, name)` rows after one request: a row is added
/// exactly when the intake asked for an insert and the store succeeded.
pub open spec fn rows_after(rows: Seq<(Seq<char>, Seq<char>)>, r: Intake, stored: bool) -> Seq<
    (Seq<char>, Seq<char>),
> {
    match r {
        Intake::Insert(s) => if stored {
            rows.push((s.email@, s.name@))
        } else {
            rows
        },
        Intake::Respond(_) => rows,
    }
}

/// What `subscribe_at` returns for a body, an id and an instant: as
/// `intake_for`, where an inserted record carries exactly that id and instant.
pub open spec fn intake_at(body: Seq<u8>, id: u128, subscribed_at: i64, r: Intake) -> bool {
    match r {
        Intake::Insert(s) => form_of_body(body) == Some((s.email@, s.name@)) && s.id == id
            && s.subscribed_at == subscribed_at,
        Intake::Respond(rep) => form_of_body(body) is None && rep.status == STATUS_BAD_REQUEST
            && rep.body@.len() == 0,
    }
}

/// `POST /subscriptions`, first step, for a drawn id and instant: decodes the
/// form; a body that lacks `name` or `email` (or does not decode) is answered
/// with 400 before anything is stored, otherwise the record to insert, with
/// that id and instant, is returned.
pub fn subscribe_at(body: &[u8], id: u128, subscribed_at: i64) -> (r: Intake)
    ensures
        intake_at(body@, id, subscribed_at, r),
{
    match parse_form(body) {
        Some(form) => Intake::Insert(subscription_at(form, id, subscribed_at)),
        None => Intake::Respond(Reply { status: STATUS_BAD_REQUEST, body: String::new() }),
    }
}

/// `POST /subscriptions`, first step: draws a fresh random id and reads the
/// clock, then decides as `subscribe_at`.
pub fn subscribe(body: &[u8]) -> (r: Intake)
    ensures
        intake_for(body@, r),
{
    let id = random_uuid();
    let subscribed_at = now_micros();
    subscribe_at(body, id, subscribed_at)
}

/// `POST /subscriptions`, last step: 200 when the record was stored, 500 when
/// storing failed; the body is empty either way.
pub fn insert_reply(stored: bool) -> (r: Reply)
    ensures
        r.status == stored_status(stored),
        r.body@.len() == 0,
{
    let status = if stored {
        STATUS_OK
    } else {
        STATUS_INTERNAL_SERVER_ERROR
    };
    Reply { status, body: String::new() }
}

/// A submission in which `name` and `email` each occur once yields exactly one
/// insert; once stored, the table has exactly one new row, holding the
/// submitted email and name verbatim, and the answer is 200.
pub proof fn lemma_valid_submission_is_stored(
    body: Seq<u8>,
    pairs: Seq<(Seq<char>, Seq<char>)>,
    r: Intake,
    rows: Seq<(Seq<char>, Seq<char>)>,
)
    requires
        form_decode(body) == Some(pairs),
        key_count(pairs, name_key()) == 1,
        key_count(pairs, email_key()) == 1,
        intake_for(body, r),
    ensures
        r is Insert,
        rows_after(rows, r, true) == rows.push(
            (key_value(pairs, email_key()), key_value(pairs, name_key())),
        ),
        stored_status(true) == STATUS_OK,
{
}

/// A submission that lacks `name`, lacks `email`, or lacks both (or does not
/// decode) is answered with 400 and adds no row, whatever the store would do.
pub proof fn lemma_missing_field_is_rejected(
    body: Seq<u8>,
    r: Intake,
    rows: Seq<(Seq<char>, Seq<char>)>,
    stored: bool,
)
    requires
        match form_decode(body) {
            Some(pairs) => key_count(pairs, name_key()) == 0 || key_count(pairs, email_key()) == 0,
            None => true,
        },
        intake_for(body, r),
    ensures
        r is Respond,
        r->Respond_0.status == STATUS_BAD_REQUEST,
        rows_after(rows, r, stored) == rows,
{
}

/// Submissions are not deduplicated: the same valid submission made twice,
/// and stored twice, adds two rows, each with the submitted email and name.
pub proof fn lemma_repeated_submission_adds_two_rows(
    body: Seq<u8>,
    first: Intake,
    second: Intake,
    rows: Seq<(Seq<char>, Seq<char>)>,
)
    requires
        form_of_body(body) is Some,
        intake_for(body, first),
        intake_for(body, second),
    ensures
        ({
            let after = rows_after(rows_after(rows, first, true), second, true);
            &&& after.len() == rows.len() + 2
            &&& after[rows.len() as int] == form_of_body(body)->Some_0
            &&& after[rows.len() + 1int] == form_of_body(body)->Some_0
        }),
{
}

} // verus!
