use zero2prod::subscription::{VERSION_4_RFC4122, VERSION_VARIANT_MASK};
use zero2prod::{form_from_pairs, new_subscription, parse_form, FormData};

fn pair(k: &str, v: &str) -> (String, String) {
    (k.to_string(), v.to_string())
}

#[test]
fn pairs_with_both_fields_give_the_form() {
    let form = form_from_pairs(&vec![pair("name", "le guin"), pair("email", "u@g.com")]).unwrap();
    assert_eq!(form.name, "le guin");
    assert_eq!(form.email, "u@g.com");
}

#[test]
fn pairs_with_other_keys_still_give_the_form() {
    let form = form_from_pairs(&vec![
        pair("email", "u@g.com"),
        pair("extra", "1"),
        pair("name", "n"),
    ])
    .unwrap();
    assert_eq!(form.name, "n");
    assert_eq!(form.email, "u@g.com");
}

#[test]
fn pairs_without_a_field_give_nothing() {
    assert!(form_from_pairs(&vec![pair("name", "n")]).is_none());
    assert!(form_from_pairs(&vec![pair("email", "e")]).is_none());
    assert!(form_from_pairs(&vec![]).is_none());
}

#[test]
fn pairs_with_a_repeated_field_give_nothing() {
    let pairs = vec![pair("name", "a"), pair("email", "e"), pair("name", "b")];
    assert!(form_from_pairs(&pairs).is_none());
}

#[test]
fn empty_values_are_accepted_verbatim() {
    let form = parse_form(b"name=&email=").unwrap();
    assert_eq!(form.name, "");
    assert_eq!(form.email, "");
}

#[test]
fn body_is_percent_and_plus_decoded() {
    let form = parse_form(b"email=a%2Bb%40c.org&name=jo+ann").unwrap();
    assert_eq!(form.email, "a+b@c.org");
    assert_eq!(form.name, "jo ann");
}

#[test]
fn body_with_an_unknown_key_only_is_rejected() {
    assert!(parse_form(b"foo=bar").is_none());
}

#[test]
fn new_subscription_copies_fields_and_marks_a_random_id() {
    let form = FormData { email: "ursula_le_guin@gmail.com".to_string(), name: "le guin".to_string() };
    let record = new_subscription(form);
    assert_eq!(record.email, "ursula_le_guin@gmail.com");
    assert_eq!(record.name, "le guin");
    assert_eq!(record.id & VERSION_VARIANT_MASK, VERSION_4_RFC4122);
    assert!(record.subscribed_at > 0);
}

#[test]
fn subscription_at_keeps_the_drawn_id_and_instant() {
    let form = FormData { email: "e@x.org".to_string(), name: "n".to_string() };
    let record = zero2prod::subscription_at(form, 0x1234, 1_700_000_000_000_000);
    assert_eq!(record.id, 0x1234);
    assert_eq!(record.subscribed_at, 1_700_000_000_000_000);
    assert_eq!(record.email, "e@x.org");
    assert_eq!(record.name, "n");
}
