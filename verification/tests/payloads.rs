use contacts::body::{Field, Key, Value};
use contacts::types::{AudienceId, ContactChanges, ContactData, ContactId};

fn keys_of(fields: &[Field]) -> Vec<Key> {
    fields.iter().map(|field| field.key).collect()
}

fn text_at(fields: &[Field], at: usize) -> String {
    match &fields[at].value {
        Value::Text(text) => text.clone(),
        Value::Flag(_) => panic!("field {at} is a flag"),
    }
}

fn flag_at(fields: &[Field], at: usize) -> bool {
    match &fields[at].value {
        Value::Flag(flag) => *flag,
        Value::Text(_) => panic!("field {at} is a text"),
    }
}

#[test]
fn contact_id_keeps_its_text() {
    let id = ContactId::new("479e3145-dd38-476b-932c-529ceb705947");
    assert_eq!(id.as_str(), "479e3145-dd38-476b-932c-529ceb705947");
    assert_eq!(id.to_string(), "479e3145-dd38-476b-932c-529ceb705947");
    let as_ref: &str = id.as_ref();
    assert_eq!(as_ref, "479e3145-dd38-476b-932c-529ceb705947");
    assert_eq!(id.clone().as_str(), id.as_str());
}

#[test]
fn contact_id_can_hold_an_email_or_nothing() {
    assert_eq!(ContactId::new("a@b.com").as_str(), "a@b.com");
    assert_eq!(ContactId::new("").as_str(), "");
    assert_eq!(ContactId::new("grüße ✉").to_string(), "grüße ✉");
}

#[test]
fn contact_id_longer_than_inline_storage() {
    let long = "0123456789abcdef0123456789abcdef0123456789abcdef";
    let id = ContactId::new(long);
    assert_eq!(id.as_str(), long);
    assert_eq!(id.clone().to_string(), long);
}

#[test]
fn audience_id_keeps_its_text() {
    let id = AudienceId::new("78261eea-8f8b-4381-83c6-79fa7120f1cf");
    assert_eq!(id.as_str(), "78261eea-8f8b-4381-83c6-79fa7120f1cf");
    assert_eq!(id.to_string(), "78261eea-8f8b-4381-83c6-79fa7120f1cf");
    let as_ref: &str = id.as_ref();
    assert_eq!(as_ref, id.as_str());
    assert_eq!(id.clone().as_str(), "78261eea-8f8b-4381-83c6-79fa7120f1cf");
}

#[test]
fn new_contact_data_has_only_the_email() {
    let data = ContactData::new("a@b.com");
    assert_eq!(data.email, "a@b.com");
    assert_eq!(data.first_name, None);
    assert_eq!(data.last_name, None);
    assert_eq!(data.unsubscribed, None);
}

#[test]
fn contact_data_is_not_validated() {
    let data = ContactData::new("not an email");
    assert_eq!(data.email, "not an email");
    assert_eq!(ContactData::new("").email, "");
}

#[test]
fn contact_data_mutators_set_their_attribute() {
    let data = ContactData::new("a@b.com")
        .with_first_name("Ada")
        .with_last_name("Lovelace")
        .with_unsubscribed(true);
    assert_eq!(data.email, "a@b.com");
    assert_eq!(data.first_name.as_deref(), Some("Ada"));
    assert_eq!(data.last_name.as_deref(), Some("Lovelace"));
    assert_eq!(data.unsubscribed, Some(true));
}

#[test]
fn contact_data_last_value_wins() {
    let data = ContactData::new("a@b.com")
        .with_first_name("Ada")
        .with_first_name("Grace")
        .with_last_name("Lovelace")
        .with_last_name("Hopper")
        .with_unsubscribed(true)
        .with_unsubscribed(false);
    assert_eq!(data.first_name.as_deref(), Some("Grace"));
    assert_eq!(data.last_name.as_deref(), Some("Hopper"));
    assert_eq!(data.unsubscribed, Some(false));
}

#[test]
fn contact_data_mutator_leaves_the_earlier_value_alone() {
    let before = ContactData::new("a@b.com").with_first_name("Ada");
    let after = before.clone().with_first_name("Grace").with_unsubscribed(true);
    assert_eq!(before.first_name.as_deref(), Some("Ada"));
    assert_eq!(before.unsubscribed, None);
    assert_eq!(after.first_name.as_deref(), Some("Grace"));
    assert_eq!(after.unsubscribed, Some(true));
    assert_eq!(after.email, "a@b.com");
}

#[test]
fn contact_data_clone_keeps_every_attribute() {
    let data = ContactData::new("a@b.com").with_last_name("Lovelace").with_unsubscribed(false);
    let copy = data.clone();
    assert_eq!(copy.email, data.email);
    assert_eq!(copy.first_name, None);
    assert_eq!(copy.last_name.as_deref(), Some("Lovelace"));
    assert_eq!(copy.unsubscribed, Some(false));
}

#[test]
fn new_contact_changes_ask_for_nothing() {
    let changes = ContactChanges::new();
    assert_eq!(changes.email, None);
    assert_eq!(changes.first_name, None);
    assert_eq!(changes.last_name, None);
    assert_eq!(changes.unsubscribed, None);
    let default = ContactChanges::default();
    assert_eq!(default.email, None);
    assert_eq!(default.first_name, None);
    assert_eq!(default.last_name, None);
    assert_eq!(default.unsubscribed, None);
}

#[test]
fn contact_changes_mutators_set_their_attribute() {
    let changes = ContactChanges::new()
        .with_email("c@d.org")
        .with_first_name("Ada")
        .with_last_name("Lovelace")
        .with_unsubscribed(true);
    assert_eq!(changes.email.as_deref(), Some("c@d.org"));
    assert_eq!(changes.first_name.as_deref(), Some("Ada"));
    assert_eq!(changes.last_name.as_deref(), Some("Lovelace"));
    assert_eq!(changes.unsubscribed, Some(true));
}

#[test]
fn contact_changes_last_value_wins() {
    let changes = ContactChanges::new()
        .with_email("c@d.org")
        .with_email("e@f.net")
        .with_first_name("Ada")
        .with_first_name("Grace")
        .with_last_name("Lovelace")
        .with_last_name("Hopper")
        .with_unsubscribed(false)
        .with_unsubscribed(true);
    assert_eq!(changes.email.as_deref(), Some("e@f.net"));
    assert_eq!(changes.first_name.as_deref(), Some("Grace"));
    assert_eq!(changes.last_name.as_deref(), Some("Hopper"));
    assert_eq!(changes.unsubscribed, Some(true));
}

#[test]
fn contact_changes_mutator_touches_one_attribute() {
    let before = ContactChanges::new().with_email("c@d.org");
    let after = before.clone().with_unsubscribed(true);
    assert_eq!(before.unsubscribed, None);
    assert_eq!(after.email.as_deref(), Some("c@d.org"));
    assert_eq!(after.first_name, None);
    assert_eq!(after.last_name, None);
    assert_eq!(after.unsubscribed, Some(true));
}

#[test]
fn keys_are_spelled_as_in_the_object() {
    assert_eq!(Key::Email.name(), "email");
    assert_eq!(Key::FirstName.name(), "first_name");
    assert_eq!(Key::LastName.name(), "last_name");
    assert_eq!(Key::Unsubscribed.name(), "unsubscribed");
}

#[test]
fn contact_data_with_only_email_omits_the_rest() {
    let fields = ContactData::new("a@b.com").fields();
    assert_eq!(keys_of(&fields), vec![Key::Email]);
    assert_eq!(text_at(&fields, 0), "a@b.com");
}

#[test]
fn contact_data_with_all_four_writes_all_four() {
    let fields = ContactData::new("a@b.com")
        .with_first_name("Ada")
        .with_last_name("Lovelace")
        .with_unsubscribed(false)
        .fields();
    assert_eq!(
        keys_of(&fields),
        vec![Key::Email, Key::FirstName, Key::LastName, Key::Unsubscribed]
    );
    assert_eq!(text_at(&fields, 0), "a@b.com");
    assert_eq!(text_at(&fields, 1), "Ada");
    assert_eq!(text_at(&fields, 2), "Lovelace");
    assert!(!flag_at(&fields, 3));
}

#[test]
fn contact_data_writes_a_present_attribute_between_absent_ones() {
    let fields = ContactData::new("a@b.com").with_last_name("Lovelace").fields();
    assert_eq!(keys_of(&fields), vec![Key::Email, Key::LastName]);
    assert_eq!(text_at(&fields, 1), "Lovelace");
    let fields = ContactData::new("a@b.com").with_unsubscribed(true).fields();
    assert_eq!(keys_of(&fields), vec![Key::Email, Key::Unsubscribed]);
    assert!(flag_at(&fields, 1));
}

#[test]
fn contact_data_writes_an_empty_name_as_present() {
    let fields = ContactData::new("a@b.com").with_first_name("").fields();
    assert_eq!(keys_of(&fields), vec![Key::Email, Key::FirstName]);
    assert_eq!(text_at(&fields, 1), "");
}

#[test]
fn contact_data_fields_follow_declaration_order_not_call_order() {
    let fields = ContactData::new("a@b.com")
        .with_unsubscribed(true)
        .with_last_name("Lovelace")
        .with_first_name("Ada")
        .fields();
    assert_eq!(
        keys_of(&fields),
        vec![Key::Email, Key::FirstName, Key::LastName, Key::Unsubscribed]
    );
}

#[test]
fn empty_contact_changes_write_no_field() {
    assert!(ContactChanges::new().fields().is_empty());
}

#[test]
fn contact_changes_write_only_what_is_set() {
    let fields = ContactChanges::new().with_unsubscribed(true).fields();
    assert_eq!(keys_of(&fields), vec![Key::Unsubscribed]);
    assert!(flag_at(&fields, 0));
    let fields = ContactChanges::new().with_email("c@d.org").with_last_name("Hopper").fields();
    assert_eq!(keys_of(&fields), vec![Key::Email, Key::LastName]);
    assert_eq!(text_at(&fields, 0), "c@d.org");
    assert_eq!(text_at(&fields, 1), "Hopper");
}

#[test]
fn contact_changes_with_all_four_write_all_four() {
    let fields = ContactChanges::new()
        .with_email("c@d.org")
        .with_first_name("Grace")
        .with_last_name("Hopper")
        .with_unsubscribed(false)
        .fields();
    assert_eq!(
        keys_of(&fields),
        vec![Key::Email, Key::FirstName, Key::LastName, Key::Unsubscribed]
    );
    assert_eq!(text_at(&fields, 0), "c@d.org");
    assert_eq!(text_at(&fields, 1), "Grace");
    assert_eq!(text_at(&fields, 2), "Hopper");
    assert!(!flag_at(&fields, 3));
}
