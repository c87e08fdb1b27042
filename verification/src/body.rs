//! The fields of a request body, as they are written into the JSON object.
//!
//! A body is a sequence of fields in the order in which they are written. An
//! attribute that is absent has no field at all: it is left out of the
//! object, never written as `null`.

use vstd::prelude::*;

use crate::types::{ContactChanges, ContactChangesView, ContactData, ContactDataView, text_of};

verus! {

/// The key of a body field.
#[derive(Debug, Clone, Copy, PartialEq, Eq, Structural)]
pub enum Key {
    Email,
    FirstName,
    LastName,
    Unsubscribed,
}

impl Key {
    /// The key as it is spelled in the JSON object.
    pub open spec fn text(self) -> Seq<char> {
        match self {
            Key::Email => "email"@,
            Key::FirstName => "first_name"@,
            Key::LastName => "last_name"@,
            Key::Unsubscribed => "unsubscribed"@,
        }
    }

    /// The key as it is spelled in the JSON object.
    pub fn name(self) -> (r: &'static str)
        ensures
            r@ == self.text(),
    {
        match self {
            Key::Email => "email",
            Key::FirstName => "first_name",
            Key::LastName => "last_name",
            Key::Unsubscribed => "unsubscribed",
        }
    }
}

/// The value of a body field: a JSON string or a JSON boolean.
#[derive(Debug)]
pub enum Value {
    Text(String),
    Flag(bool),
}

/// What a [`Value`] stands for.
pub enum ValueView {
    Text(Seq<char>),
    Flag(bool),
}

impl View for Value {
    type V = ValueView;

    open spec fn view(&self) -> ValueView {
        match self {
            Value::Text(text) => ValueView::Text(text@),
            Value::Flag(flag) => ValueView::Flag(*flag),
        }
    }
}

/// One member of the JSON object: a key with its value.
#[derive(Debug)]
pub struct Field {
    pub key: Key,
    pub value: Value,
}

/// What a [`Field`] stands for.
pub struct FieldView {
    pub key: Key,
    pub value: ValueView,
}

impl View for Field {
    type V = FieldView;

    open spec fn view(&self) -> FieldView {
        FieldView { key: self.key, value: self.value@ }
    }
}

/// What a sequence of fields stands for, field by field.
pub open spec fn fields_view(fields: Seq<Field>) -> Seq<FieldView> {
    fields.map_values(|field: Field| field@)
}

/// Whether a body has a field with the key `key`.
pub open spec fn has_key(fields: Seq<FieldView>, key: Key) -> bool {
    exists|i: int| 0 <= i < fields.len() && (#[trigger] fields[i]).key == key
}

/// The field of a string attribute: one field if it is present, none if it
/// is absent.
pub open spec fn optional_text(key: Key, value: Option<Seq<char>>) -> Seq<FieldView> {
    match value {
        Some(text) => seq![FieldView { key, value: ValueView::Text(text) }],
        None => Seq::empty(),
    }
}

/// The field of a boolean attribute: one field if it is present, none if it
/// is absent.
pub open spec fn optional_flag(key: Key, value: Option<bool>) -> Seq<FieldView> {
    match value {
        Some(flag) => seq![FieldView { key, value: ValueView::Flag(flag) }],
        None => Seq::empty(),
    }
}

impl ContactDataView {
    /// The body of this payload: the email, then each attribute that is
    /// present, in the order first name, last name, unsubscribe status.
    pub open spec fn fields(self) -> Seq<FieldView> {
        optional_text(Key::Email, Some(self.email)) + optional_text(
            Key::FirstName,
            self.first_name,
        ) + optional_text(Key::LastName, self.last_name) + optional_flag(
            Key::Unsubscribed,
            self.unsubscribed,
        )
    }

    /// Whether the attribute written under `key` is present.
    pub open spec fn is_set(self, key: Key) -> bool {
        match key {
            Key::Email => true,
            Key::FirstName => self.first_name is Some,
            Key::LastName => self.last_name is Some,
            Key::Unsubscribed => self.unsubscribed is Some,
        }
    }
}

impl ContactChangesView {
    /// The body of this change set: each attribute that is present, in the
    /// order email, first name, last name, unsubscribe status.
    pub open spec fn fields(self) -> Seq<FieldView> {
        optional_text(Key::Email, self.email) + optional_text(Key::FirstName, self.first_name)
            + optional_text(Key::LastName, self.last_name) + optional_flag(
            Key::Unsubscribed,
            self.unsubscribed,
        )
    }

    /// Whether the attribute written under `key` is present.
    pub open spec fn is_set(self, key: Key) -> bool {
        match key {
            Key::Email => self.email is Some,
            Key::FirstName => self.first_name is Some,
            Key::LastName => self.last_name is Some,
            Key::Unsubscribed => self.unsubscribed is Some,
        }
    }
}

/// Appends the field of a string attribute to `out` if it is present.
fn push_text(out: &mut Vec<Field>, key: Key, value: &Option<String>)
    ensures
        fields_view(final(out)@) == fields_view(old(out)@) + optional_text(key, text_of(*value)),
{
    match value {
        Some(text) => {
            let field = Field { key, value: Value::Text(text.clone()) };
            out.push(field);
            assert(fields_view(out@) =~= fields_view(old(out)@) + optional_text(
                key,
                text_of(*value),
            ));
        },
        None => {
            assert(fields_view(out@) =~= fields_view(old(out)@) + optional_text(
                key,
                text_of(*value),
            ));
        },
    }
}

/// Appends the field of a boolean attribute to `out` if it is present.
fn push_flag(out: &mut Vec<Field>, key: Key, value: Option<bool>)
    ensures
        fields_view(final(out)@) == fields_view(old(out)@) + optional_flag(key, value),
{
    match value {
        Some(flag) => {
            out.push(Field { key, value: Value::Flag(flag) });
            assert(fields_view(out@) =~= fields_view(old(out)@) + optional_flag(key, value));
        },
        None => {
            assert(fields_view(out@) =~= fields_view(old(out)@) + optional_flag(key, value));
        },
    }
}

impl ContactData {
    /// The fields of the request body that creates this contact.
    ///
    /// The email is always written; an optional attribute is written if and
    /// only if it is present.
    pub fn fields(&self) -> (r: Vec<Field>)
        ensures
            fields_view(r@) == self@.fields(),
            r@.len() == self@.fields().len(),
            forall|i: int| 0 <= i < r@.len() ==> (#[trigger] r@[i])@ == self@.fields()[i],
    {
        let mut out: Vec<Field> = Vec::new();
        out.push(Field { key: Key::Email, value: Value::Text(self.email.clone()) });
        assert(fields_view(out@) =~= optional_text(Key::Email, Some(self.email@)));
        push_text(&mut out, Key::FirstName, &self.first_name);
        push_text(&mut out, Key::LastName, &self.last_name);
        push_flag(&mut out, Key::Unsubscribed, self.unsubscribed);
        assert forall|i: int| 0 <= i < out@.len() implies (#[trigger] out@[i])@
            == self@.fields()[i] by {
            assert(fields_view(out@)[i] == out@[i]@);
        }
        out
    }
}

impl ContactChanges {
    /// The fields of the request body that applies these changes.
    ///
    /// An attribute is written if and only if it is present; a change set
    /// that asks for nothing has no field.
    pub fn fields(&self) -> (r: Vec<Field>)
        ensures
            fields_view(r@) == self@.fields(),
            r@.len() == self@.fields().len(),
            forall|i: int| 0 <= i < r@.len() ==> (#[trigger] r@[i])@ == self@.fields()[i],
    {
        let mut out: Vec<Field> = Vec::new();
        assert(fields_view(out@) =~= Seq::<FieldView>::empty());
        push_text(&mut out, Key::Email, &self.email);
        assert(fields_view(out@) =~= optional_text(Key::Email, text_of(self.email)));
        push_text(&mut out, Key::FirstName, &self.first_name);
        push_text(&mut out, Key::LastName, &self.last_name);
        push_flag(&mut out, Key::Unsubscribed, self.unsubscribed);
        assert forall|i: int| 0 <= i < out@.len() implies (#[trigger] out@[i])@
            == self@.fields()[i] by {
            assert(fields_view(out@)[i] == out@[i]@);
        }
        out
    }
}

/// The keys of a body, in the order in which its fields are written.
pub open spec fn keys(fields: Seq<FieldView>) -> Seq<Key> {
    fields.map_values(|field: FieldView| field.key)
}

/// The body of a [`ContactData`] has a field under a key if and only if the
/// attribute of that key is present: an absent attribute is left out, a
/// present one is written, and the email is always written.
pub proof fn law_contact_data_writes_what_is_set(data: ContactDataView, key: Key)
    ensures
        has_key(data.fields(), key) <==> data.is_set(key),
{
    let fields = data.fields();
    let first = optional_text(Key::FirstName, data.first_name);
    let last = optional_text(Key::LastName, data.last_name);
    let flag = optional_flag(Key::Unsubscribed, data.unsubscribed);
    assert(fields[0].key == Key::Email);
    if data.first_name is Some {
        assert(fields[1].key == Key::FirstName);
    }
    if data.last_name is Some {
        assert(fields[(1 + first.len()) as int].key == Key::LastName);
    }
    if data.unsubscribed is Some {
        assert(fields[(1 + first.len() + last.len()) as int].key == Key::Unsubscribed);
    }
    assert(fields.len() == 1 + first.len() + last.len() + flag.len());
}

/// The body of a [`ContactChanges`] has a field under a key if and only if
/// the attribute of that key is present.
pub proof fn law_contact_changes_writes_what_is_set(changes: ContactChangesView, key: Key)
    ensures
        has_key(changes.fields(), key) <==> changes.is_set(key),
{
    let fields = changes.fields();
    let email = optional_text(Key::Email, changes.email);
    let first = optional_text(Key::FirstName, changes.first_name);
    let last = optional_text(Key::LastName, changes.last_name);
    let flag = optional_flag(Key::Unsubscribed, changes.unsubscribed);
    if changes.email is Some {
        assert(fields[0].key == Key::Email);
    }
    if changes.first_name is Some {
        assert(fields[email.len() as int].key == Key::FirstName);
    }
    if changes.last_name is Some {
        assert(fields[(email.len() + first.len()) as int].key == Key::LastName);
    }
    if changes.unsubscribed is Some {
        assert(fields[(email.len() + first.len() + last.len()) as int].key == Key::Unsubscribed);
    }
    assert(fields.len() == email.len() + first.len() + last.len() + flag.len());
}

/// A [`ContactData`] with only the email set is written as the email field
/// alone.
pub proof fn law_new_contact_data_writes_email_only(email: Seq<char>)
    ensures
        ContactDataView::new(email).fields() == seq![
            FieldView { key: Key::Email, value: ValueView::Text(email) },
        ],
        keys(ContactDataView::new(email).fields()) == seq![Key::Email],
{
    let fields = ContactDataView::new(email).fields();
    assert(fields =~= seq![FieldView { key: Key::Email, value: ValueView::Text(email) }]);
    assert(keys(fields) =~= seq![Key::Email]);
}

/// A [`ContactData`] with all four attributes set is written as four fields:
/// email, first name, last name and unsubscribe status, in that order, each
/// with the value that was set.
pub proof fn law_full_contact_data_writes_all_fields(
    email: Seq<char>,
    first_name: Seq<char>,
    last_name: Seq<char>,
    unsubscribed: bool,
)
    ensures
        ContactDataView::new(email).with_first_name(first_name).with_last_name(
            last_name,
        ).with_unsubscribed(unsubscribed).fields() == seq![
            FieldView { key: Key::Email, value: ValueView::Text(email) },
            FieldView { key: Key::FirstName, value: ValueView::Text(first_name) },
            FieldView { key: Key::LastName, value: ValueView::Text(last_name) },
            FieldView { key: Key::Unsubscribed, value: ValueView::Flag(unsubscribed) },
        ],
{
    let fields = ContactDataView::new(email).with_first_name(first_name).with_last_name(
        last_name,
    ).with_unsubscribed(unsubscribed).fields();
    assert(fields =~= seq![
        FieldView { key: Key::Email, value: ValueView::Text(email) },
        FieldView { key: Key::FirstName, value: ValueView::Text(first_name) },
        FieldView { key: Key::LastName, value: ValueView::Text(last_name) },
        FieldView { key: Key::Unsubscribed, value: ValueView::Flag(unsubscribed) },
    ]);
}

/// A [`ContactChanges`] that asks for no change is written as an object
/// without fields.
pub proof fn law_new_contact_changes_writes_nothing()
    ensures
        ContactChangesView::new().fields() == Seq::<FieldView>::empty(),
{
    assert(ContactChangesView::new().fields() =~= Seq::<FieldView>::empty());
}

/// No body holds a key twice.
pub proof fn law_body_keys_are_distinct(data: ContactDataView, changes: ContactChangesView)
    ensures
        keys(data.fields()).no_duplicates(),
        keys(changes.fields()).no_duplicates(),
{
    let d = data.fields();
    assert(d.len() == 1 + optional_text(Key::FirstName, data.first_name).len() + optional_text(
        Key::LastName,
        data.last_name,
    ).len() + optional_flag(Key::Unsubscribed, data.unsubscribed).len());
    let c = changes.fields();
    assert(c.len() == optional_text(Key::Email, changes.email).len() + optional_text(
        Key::FirstName,
        changes.first_name,
    ).len() + optional_text(Key::LastName, changes.last_name).len() + optional_flag(
        Key::Unsubscribed,
        changes.unsubscribed,
    ).len());
}

} // verus!
