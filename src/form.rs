//! Decoding of an `application/x-www-form-urlencoded` subscription form.

use vstd::prelude::*;

verus! {

/// A decoded form field: its name and its value.
pub type Field = (Seq<char>, Seq<char>);

/// What `serde_urlencoded` decodes from a body into a list of pairs, in the
/// order in which they stand; `None` where it reports an error.
pub uninterp spec fn form_decode(body: Seq<u8>) -> Option<Seq<Field>>;

/// The pairs of a decoded list, as character sequences.
pub open spec fn pairs_view(v: Seq<(String, String)>) -> Seq<Field> {
    v.map_values(|p: (String, String)| (p.0@, p.1@))
}

pub open spec fn name_key() -> Seq<char> {
    seq!['n', 'a', 'm', 'e']
}

pub open spec fn email_key() -> Seq<char> {
    seq!['e', 'm', 'a', 'i', 'l']
}

/// How many pairs carry the key `key`.
pub open spec fn key_count(pairs: Seq<Field>, key: Seq<char>) -> nat
    decreases pairs.len(),
{
    if pairs.len() == 0 {
        0
    } else {
        key_count(pairs.drop_last(), key) + if pairs.last().0 == key {
            1nat
        } else {
            0nat
        }
    }
}

/// The value of the last pair that carries the key `key` (empty if none does).
pub open spec fn key_value(pairs: Seq<Field>, key: Seq<char>) -> Seq<char>
    decreases pairs.len(),
{
    if pairs.len() == 0 {
        Seq::empty()
    } else if pairs.last().0 == key {
        pairs.last().1
    } else {
        key_value(pairs.drop_last(), key)
    }
}

/// The submission that a list of pairs holds, as `(email, name)`: present when
/// each of `name` and `email` occurs exactly once; other keys are ignored.
pub open spec fn form_of(pairs: Seq<Field>) -> Option<(Seq<char>, Seq<char>)> {
    if key_count(pairs, email_key()) == 1 && key_count(pairs, name_key()) == 1 {
        Some((key_value(pairs, email_key()), key_value(pairs, name_key())))
    } else {
        None
    }
}

/// The submission that a request body holds, as `(email, name)`.
pub open spec fn form_of_body(body: Seq<u8>) -> Option<(Seq<char>, Seq<char>)> {
    match form_decode(body) {
        Some(pairs) => form_of(pairs),
        None => None,
    }
}

/// A subscriber submission: both fields, as sent.
#[derive(Clone, Debug)]
pub struct FormData {
    pub email: String,
    pub name: String,
}

impl FormData {
    pub open spec fn view(&self) -> (Seq<char>, Seq<char>) {
        (self.email@, self.name@)
    }
}

/// Relies on `serde_urlencoded::from_bytes`, decoding into `Vec<(String, String)>`:
/// the pairs of the body, percent-decoded, in order, or its error.
#[verifier::external_body]
fn decode_pairs(body: &[u8]) -> (r: Option<Vec<(String, String)>>)
    ensures
        r is Some <==> form_decode(body@) is Some,
        r is Some ==> pairs_view(r->Some_0@) == form_decode(body@)->Some_0,
{
    serde_urlencoded::from_bytes::<Vec<(String, String)>>(body).ok()
}

/// Picks the submission out of decoded pairs: `Some` exactly when `name` and
/// `email` each occur once.
pub fn form_from_pairs(pairs: &Vec<(String, String)>) -> (r: Option<FormData>)
    ensures
        match r {
            Some(f) => form_of(pairs_view(pairs@)) == Some(f@),
            None => form_of(pairs_view(pairs@)) is None,
        },
{
    let ghost all = pairs_view(pairs@);
    let name_key_s: String = "name".to_owned();
    let email_key_s: String = "email".to_owned();
    proof {
        reveal_strlit("name");
        reveal_strlit("email");
        assert(name_key_s@ =~= name_key());
        assert(email_key_s@ =~= email_key());
    }
    let mut name_count: usize = 0;
    let mut email_count: usize = 0;
    let mut name = String::new();
    let mut email = String::new();
    let mut i: usize = 0;
    while i < pairs.len()
        invariant
            i <= pairs.len(),
            all == pairs_view(pairs@),
            name_key_s@ == name_key(),
            email_key_s@ == email_key(),
            name_count as nat == key_count(all.take(i as int), name_key()),
            email_count as nat == key_count(all.take(i as int), email_key()),
            name_count <= i,
            email_count <= i,
            name@ == key_value(all.take(i as int), name_key()),
            email@ == key_value(all.take(i as int), email_key()),
        decreases pairs.len() - i,
    {
        proof {
            assert(all.take(i as int + 1).drop_last() =~= all.take(i as int));
        }
        let pair = &pairs[i];
        if pair.0 == name_key_s {
            name_count = name_count + 1;
            name = pair.1.clone();
        }
        if pair.0 == email_key_s {
            email_count = email_count + 1;
            email = pair.1.clone();
        }
        i = i + 1;
    }
    proof {
        assert(all.take(pairs.len() as int) =~= all);
    }
    if name_count == 1 && email_count == 1 {
        Some(FormData { email, name })
    } else {
        None
    }
}

/// Decodes a request body into a submission: `Some` exactly when the body
/// decodes and holds each of `name` and `email` once.
pub fn parse_form(body: &[u8]) -> (r: Option<FormData>)
    ensures
        match r {
            Some(f) => form_of_body(body@) == Some(f@),
            None => form_of_body(body@) is None,
        },
{
    match decode_pairs(body) {
        Some(pairs) => form_from_pairs(&pairs),
        None => None,
    }
}

} // verus!
