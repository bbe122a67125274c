use zero2prod::form::{decode_form, form_from_pairs, FormError, FormField, FormaData};

fn pairs(items: &[(&str, &str)]) -> Vec<(String, String)> {
    items.iter().map(|(k, v)| (k.to_string(), v.to_string())).collect()
}

#[test]
fn binds_both_fields() {
    let form = form_from_pairs(&pairs(&[("email", "a@b.c"), ("name", "Ann")])).unwrap();
    assert_eq!(form.email(), "a@b.c");
    assert_eq!(form.name(), "Ann");
}

#[test]
fn binds_in_any_order_and_ignores_other_keys() {
    let form =
        form_from_pairs(&pairs(&[("extra", "1"), ("name", "Bo"), ("email", "b@c.d")])).unwrap();
    assert_eq!(form.email(), "b@c.d");
    assert_eq!(form.name(), "Bo");
}

#[test]
fn binds_empty_values() {
    let form = form_from_pairs(&pairs(&[("email", ""), ("name", "")])).unwrap();
    assert_eq!(form.email(), "");
    assert_eq!(form.name(), "");
}

#[test]
fn missing_email_is_reported_first() {
    let r = form_from_pairs(&pairs(&[]));
    assert!(matches!(r, Err(FormError::MissingField(FormField::Email))));
    let r = form_from_pairs(&pairs(&[("name", "x")]));
    assert!(matches!(r, Err(FormError::MissingField(FormField::Email))));
}

#[test]
fn missing_name() {
    let r = form_from_pairs(&pairs(&[("email", "x")]));
    assert!(matches!(r, Err(FormError::MissingField(FormField::Name))));
}

#[test]
fn first_repeated_field_is_reported() {
    let r = form_from_pairs(&pairs(&[("name", "a"), ("email", "x"), ("email", "y"), ("name", "b")]));
    assert!(matches!(r, Err(FormError::DuplicateField(FormField::Email))));
    let r = form_from_pairs(&pairs(&[("name", "a"), ("name", "b")]));
    assert!(matches!(r, Err(FormError::DuplicateField(FormField::Name))));
}

#[test]
fn keys_are_case_sensitive() {
    let r = form_from_pairs(&pairs(&[("Email", "x"), ("name", "y")]));
    assert!(matches!(r, Err(FormError::MissingField(FormField::Email))));
}

#[test]
fn decodes_percent_and_plus() {
    let form = decode_form(b"name=le+guin&email=ursula_le_guin%40gmail.com").unwrap();
    assert_eq!(form.email(), "ursula_le_guin@gmail.com");
    assert_eq!(form.name(), "le guin");
}

#[test]
fn decodes_encoded_keys() {
    let form = decode_form(b"%65mail=x&name=y").unwrap();
    assert_eq!(form.email(), "x");
}

#[test]
fn decode_of_empty_body_misses_email() {
    let r = decode_form(b"");
    assert!(matches!(r, Err(FormError::MissingField(FormField::Email))));
}

#[test]
fn new_keeps_fields() {
    let form = FormaData::new("e".to_string(), "n".to_string());
    assert_eq!(form.email(), "e");
    assert_eq!(form.name(), "n");
}
