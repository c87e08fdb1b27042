//! Identifiers, payloads and read models of the contacts resource.

use ecow::EcoString;
use vstd::prelude::*;

use crate::eco::{eco_as_str, eco_from_str, eco_text};

verus! {

/// Unique [`Contact`] identifier.
///
/// Its view is the identifier's text. The identifier is opaque: nothing is
/// checked of its shape, and it cannot change once made.
#[derive(Debug)]
pub struct ContactId(EcoString);

impl View for ContactId {
    type V = Seq<char>;

    closed spec fn view(&self) -> Seq<char> {
        eco_text(self.0)
    }
}

impl Clone for ContactId {
    fn clone(&self) -> (r: Self)
        ensures
            r@ == self@,
    {
        ContactId(self.0.clone())
    }
}

impl AsRef<str> for ContactId {
    #[inline]
    fn as_ref(&self) -> (r: &str)
        ensures
            r@ == self@,
    {
        self.as_str()
    }
}

impl ContactId {
    /// Creates a new [`ContactId`].
    pub fn new(id: &str) -> (r: Self)
        ensures
            r@ == id@,
    {
        ContactId(eco_from_str(id))
    }

    /// The identifier's text.
    pub fn as_str(&self) -> (r: &str)
        ensures
            r@ == self@,
    {
        eco_as_str(&self.0)
    }

    /// The identifier's text as an owned string.
    pub fn to_string(&self) -> (r: String)
        ensures
            r@ == self@,
    {
        self.as_str().to_owned()
    }
}

/// Unique identifier of the audience that a contact belongs to.
///
/// Its view is the identifier's text. Audiences are made elsewhere: this
/// crate only carries their identifiers into paths.
#[derive(Debug)]
pub struct AudienceId(EcoString);

impl View for AudienceId {
    type V = Seq<char>;

    closed spec fn view(&self) -> Seq<char> {
        eco_text(self.0)
    }
}

impl Clone for AudienceId {
    fn clone(&self) -> (r: Self)
        ensures
            r@ == self@,
    {
        AudienceId(self.0.clone())
    }
}

impl AsRef<str> for AudienceId {
    #[inline]
    fn as_ref(&self) -> (r: &str)
        ensures
            r@ == self@,
    {
        self.as_str()
    }
}

impl AudienceId {
    /// Creates a new [`AudienceId`].
    pub fn new(id: &str) -> (r: Self)
        ensures
            r@ == id@,
    {
        AudienceId(eco_from_str(id))
    }

    /// The identifier's text.
    pub fn as_str(&self) -> (r: &str)
        ensures
            r@ == self@,
    {
        eco_as_str(&self.0)
    }

    /// The identifier's text as an owned string.
    pub fn to_string(&self) -> (r: String)
        ensures
            r@ == self@,
    {
        self.as_str().to_owned()
    }
}

/// The text of an optional string, if there is one.
pub open spec fn text_of(value: Option<String>) -> Option<Seq<char>> {
    match value {
        Some(text) => Some(text@),
        None => None,
    }
}

/// Copies an optional string.
pub(crate) fn clone_text(value: &Option<String>) -> (r: Option<String>)
    ensures
        text_of(r) == text_of(*value),
{
    match value {
        Some(text) => Some(text.clone()),
        None => None,
    }
}

/// What a [`ContactData`] stands for: the email, and each optional attribute
/// as either absent or present with a value.
pub struct ContactDataView {
    pub email: Seq<char>,
    pub first_name: Option<Seq<char>>,
    pub last_name: Option<Seq<char>>,
    pub unsubscribed: Option<bool>,
}

impl ContactDataView {
    /// The payload with only the email set.
    pub open spec fn new(email: Seq<char>) -> Self {
        ContactDataView { email, first_name: None, last_name: None, unsubscribed: None }
    }

    /// This payload with the first name set to `name`.
    pub open spec fn with_first_name(self, name: Seq<char>) -> Self {
        ContactDataView { first_name: Some(name), ..self }
    }

    /// This payload with the last name set to `name`.
    pub open spec fn with_last_name(self, name: Seq<char>) -> Self {
        ContactDataView { last_name: Some(name), ..self }
    }

    /// This payload with the unsubscribe status set to `unsubscribed`.
    pub open spec fn with_unsubscribed(self, unsubscribed: bool) -> Self {
        ContactDataView { unsubscribed: Some(unsubscribed), ..self }
    }
}

/// Details of a new [`Contact`].
///
/// A plain value: nothing is checked of the email's shape, and nothing is
/// sent until the value is handed to
/// [`ContactsService::create`](crate::service::ContactsService::create).
#[must_use]
#[derive(Debug)]
pub struct ContactData {
    /// Email address of the contact.
    pub email: String,
    /// First name of the contact.
    pub first_name: Option<String>,
    /// Last name of the contact.
    pub last_name: Option<String>,
    /// Indicates if the contact is unsubscribed.
    pub unsubscribed: Option<bool>,
}

impl View for ContactData {
    type V = ContactDataView;

    open spec fn view(&self) -> ContactDataView {
        ContactDataView {
            email: self.email@,
            first_name: text_of(self.first_name),
            last_name: text_of(self.last_name),
            unsubscribed: self.unsubscribed,
        }
    }
}

impl Clone for ContactData {
    fn clone(&self) -> (r: Self)
        ensures
            r@ == self@,
    {
        ContactData {
            email: self.email.clone(),
            first_name: clone_text(&self.first_name),
            last_name: clone_text(&self.last_name),
            unsubscribed: self.unsubscribed,
        }
    }
}

impl ContactData {
    /// Creates a new [`ContactData`] with only the email set.
    pub fn new(email: &str) -> (r: Self)
        ensures
            r@ == ContactDataView::new(email@),
    {
        ContactData {
            email: email.to_owned(),
            first_name: None,
            last_name: None,
            unsubscribed: None,
        }
    }

    /// Adds the first name to the contact.
    #[inline]
    pub fn with_first_name(self, name: &str) -> (r: Self)
        ensures
            r@ == self@.with_first_name(name@),
    {
        let mut changed = self;
        changed.first_name = Some(name.to_owned());
        changed
    }

    /// Adds the last name to the contact.
    #[inline]
    pub fn with_last_name(self, name: &str) -> (r: Self)
        ensures
            r@ == self@.with_last_name(name@),
    {
        let mut changed = self;
        changed.last_name = Some(name.to_owned());
        changed
    }

    /// Toggles the unsubscribe status to `unsubscribed`.
    #[inline]
    pub fn with_unsubscribed(self, unsubscribed: bool) -> (r: Self)
        ensures
            r@ == self@.with_unsubscribed(unsubscribed),
    {
        let mut changed = self;
        changed.unsubscribed = Some(unsubscribed);
        changed
    }
}

/// What a [`ContactChanges`] stands for: each attribute is either left as it
/// is (`None`) or changed to a value.
pub struct ContactChangesView {
    pub email: Option<Seq<char>>,
    pub first_name: Option<Seq<char>>,
    pub last_name: Option<Seq<char>>,
    pub unsubscribed: Option<bool>,
}

impl ContactChangesView {
    /// The change set that asks for no change.
    pub open spec fn new() -> Self {
        ContactChangesView { email: None, first_name: None, last_name: None, unsubscribed: None }
    }

    /// This change set with the email changed to `email`.
    pub open spec fn with_email(self, email: Seq<char>) -> Self {
        ContactChangesView { email: Some(email), ..self }
    }

    /// This change set with the first name changed to `name`.
    pub open spec fn with_first_name(self, name: Seq<char>) -> Self {
        ContactChangesView { first_name: Some(name), ..self }
    }

    /// This change set with the last name changed to `name`.
    pub open spec fn with_last_name(self, name: Seq<char>) -> Self {
        ContactChangesView { last_name: Some(name), ..self }
    }

    /// This change set with the unsubscribe status changed to `unsubscribed`.
    pub open spec fn with_unsubscribed(self, unsubscribed: bool) -> Self {
        ContactChangesView { unsubscribed: Some(unsubscribed), ..self }
    }
}

/// List of changes to apply to a [`Contact`].
///
/// A plain value; the default asks for no change.
#[must_use]
#[derive(Debug)]
pub struct ContactChanges {
    /// Email address of the contact.
    pub email: Option<String>,
    /// First name of the contact.
    pub first_name: Option<String>,
    /// Last name of the contact.
    pub last_name: Option<String>,
    /// Indicates the subscription status of the contact.
    pub unsubscribed: Option<bool>,
}

impl View for ContactChanges {
    type V = ContactChangesView;

    open spec fn view(&self) -> ContactChangesView {
        ContactChangesView {
            email: text_of(self.email),
            first_name: text_of(self.first_name),
            last_name: text_of(self.last_name),
            unsubscribed: self.unsubscribed,
        }
    }
}

impl Clone for ContactChanges {
    fn clone(&self) -> (r: Self)
        ensures
            r@ == self@,
    {
        ContactChanges {
            email: clone_text(&self.email),
            first_name: clone_text(&self.first_name),
            last_name: clone_text(&self.last_name),
            unsubscribed: self.unsubscribed,
        }
    }
}

impl Default for ContactChanges {
    fn default() -> (r: Self)
        ensures
            r@ == ContactChangesView::new(),
    {
        ContactChanges { email: None, first_name: None, last_name: None, unsubscribed: None }
    }
}

impl ContactChanges {
    /// Creates a new [`ContactChanges`] that asks for no change.
    #[inline]
    pub fn new() -> (r: Self)
        ensures
            r@ == ContactChangesView::new(),
    {
        Self::default()
    }

    /// Updates the email of the contact.
    #[inline]
    pub fn with_email(self, email: &str) -> (r: Self)
        ensures
            r@ == self@.with_email(email@),
    {
        let mut changed = self;
        changed.email = Some(email.to_owned());
        changed
    }

    /// Updates the first name of the contact.
    #[inline]
    pub fn with_first_name(self, name: &str) -> (r: Self)
        ensures
            r@ == self@.with_first_name(name@),
    {
        let mut changed = self;
        changed.first_name = Some(name.to_owned());
        changed
    }

    /// Updates the last name of the contact.
    #[inline]
    pub fn with_last_name(self, name: &str) -> (r: Self)
        ensures
            r@ == self@.with_last_name(name@),
    {
        let mut changed = self;
        changed.last_name = Some(name.to_owned());
        changed
    }

    /// Updates the unsubscribe status of the contact.
    #[inline]
    pub fn with_unsubscribed(self, unsubscribed: bool) -> (r: Self)
        ensures
            r@ == self@.with_unsubscribed(unsubscribed),
    {
        let mut changed = self;
        changed.unsubscribed = Some(unsubscribed);
        changed
    }
}

/// What a [`Contact`] stands for: the text of each attribute and the
/// subscription flag.
pub struct ContactView {
    pub id: Seq<char>,
    pub email: Seq<char>,
    pub first_name: Seq<char>,
    pub last_name: Seq<char>,
    pub unsubscribed: bool,
    pub created_at: Seq<char>,
}

/// Details of an existing contact, as the service gave them.
///
/// A snapshot: the identifier is the one that the service assigned, and
/// nothing in this crate changes a contact once it was decoded.
#[must_use]
#[derive(Debug)]
pub struct Contact {
    /// Unique identifier for the contact.
    pub id: ContactId,
    /// Email address of the contact.
    pub email: String,
    /// First name of the contact.
    pub first_name: String,
    /// Last name of the contact.
    pub last_name: String,
    /// Indicates if the contact is unsubscribed.
    pub unsubscribed: bool,
    /// Timestamp indicating when the contact was created in ISO8601 format.
    pub created_at: String,
}

impl View for Contact {
    type V = ContactView;

    open spec fn view(&self) -> ContactView {
        ContactView {
            id: self.id@,
            email: self.email@,
            first_name: self.first_name@,
            last_name: self.last_name@,
            unsubscribed: self.unsubscribed,
            created_at: self.created_at@,
        }
    }
}

impl Clone for Contact {
    fn clone(&self) -> (r: Self)
        ensures
            r@ == self@,
    {
        Contact {
            id: self.id.clone(),
            email: self.email.clone(),
            first_name: self.first_name.clone(),
            last_name: self.last_name.clone(),
            unsubscribed: self.unsubscribed,
            created_at: self.created_at.clone(),
        }
    }
}

/// What a sequence of contacts stands for, contact by contact.
pub open spec fn contacts_view(contacts: Seq<Contact>) -> Seq<ContactView> {
    contacts.map_values(|contact: Contact| contact@)
}

/// The decoded reply to a request that creates a contact.
#[derive(Debug)]
pub struct CreateContactResponse {
    /// Unique identifier for the created contact.
    pub id: ContactId,
}

impl Clone for CreateContactResponse {
    fn clone(&self) -> (r: Self)
        ensures
            r.id@ == self.id@,
    {
        CreateContactResponse { id: self.id.clone() }
    }
}

/// The decoded reply to a request that lists the contacts of an audience.
#[must_use]
#[derive(Debug)]
pub struct ListContactResponse {
    /// Array containing contact information.
    pub data: Vec<Contact>,
}

impl Clone for ListContactResponse {
    fn clone(&self) -> (r: Self)
        ensures
            contacts_view(r.data@) == contacts_view(self.data@),
    {
        let mut data: Vec<Contact> = Vec::new();
        let mut i: usize = 0;
        while i < self.data.len()
            invariant
                i <= self.data@.len(),
                data@.len() == i,
                forall|k: int| 0 <= k < i ==> (#[trigger] data@[k])@ == self.data@[k]@,
            decreases self.data@.len() - i,
        {
            data.push(self.data[i].clone());
            i += 1;
        }
        assert(contacts_view(data@) =~= contacts_view(self.data@));
        ListContactResponse { data }
    }
}

/// The decoded reply to a request that updates a contact.
#[derive(Debug)]
pub struct UpdateContactResponse {
    /// Unique identifier for the updated contact.
    pub id: ContactId,
}

impl Clone for UpdateContactResponse {
    fn clone(&self) -> (r: Self)
        ensures
            r.id@ == self.id@,
    {
        UpdateContactResponse { id: self.id.clone() }
    }
}

/// Setting an attribute of a [`ContactData`] twice keeps the value given
/// last: the result is the same as if only the second call had been made.
pub proof fn law_contact_data_last_value_wins(
    data: ContactDataView,
    first: Seq<char>,
    second: Seq<char>,
    before: bool,
    after: bool,
)
    ensures
        data.with_first_name(first).with_first_name(second) == data.with_first_name(second),
        data.with_last_name(first).with_last_name(second) == data.with_last_name(second),
        data.with_unsubscribed(before).with_unsubscribed(after) == data.with_unsubscribed(after),
        data.with_first_name(second).first_name == Some(second),
        data.with_last_name(second).last_name == Some(second),
        data.with_unsubscribed(after).unsubscribed == Some(after),
{
}

/// A mutator of [`ContactData`] changes the attribute it is named after and
/// no other; the email is never changed.
pub proof fn law_contact_data_mutators_are_local(
    data: ContactDataView,
    name: Seq<char>,
    unsubscribed: bool,
)
    ensures
        data.with_first_name(name) == (ContactDataView { first_name: Some(name), ..data }),
        data.with_last_name(name) == (ContactDataView { last_name: Some(name), ..data }),
        data.with_unsubscribed(unsubscribed) == (ContactDataView {
            unsubscribed: Some(unsubscribed),
            ..data
        }),
        data.with_first_name(name).email == data.email,
        data.with_last_name(name).email == data.email,
        data.with_unsubscribed(unsubscribed).email == data.email,
{
}

/// Setting an attribute of a [`ContactChanges`] twice keeps the value given
/// last: the result is the same as if only the second call had been made.
pub proof fn law_contact_changes_last_value_wins(
    changes: ContactChangesView,
    first: Seq<char>,
    second: Seq<char>,
    before: bool,
    after: bool,
)
    ensures
        changes.with_email(first).with_email(second) == changes.with_email(second),
        changes.with_first_name(first).with_first_name(second) == changes.with_first_name(second),
        changes.with_last_name(first).with_last_name(second) == changes.with_last_name(second),
        changes.with_unsubscribed(before).with_unsubscribed(after) == changes.with_unsubscribed(
            after,
        ),
        changes.with_email(second).email == Some(second),
        changes.with_first_name(second).first_name == Some(second),
        changes.with_last_name(second).last_name == Some(second),
        changes.with_unsubscribed(after).unsubscribed == Some(after),
{
}

/// A mutator of [`ContactChanges`] changes the attribute it is named after
/// and no other.
pub proof fn law_contact_changes_mutators_are_local(
    changes: ContactChangesView,
    text: Seq<char>,
    unsubscribed: bool,
)
    ensures
        changes.with_email(text) == (ContactChangesView { email: Some(text), ..changes }),
        changes.with_first_name(text) == (ContactChangesView { first_name: Some(text), ..changes }),
        changes.with_last_name(text) == (ContactChangesView { last_name: Some(text), ..changes }),
        changes.with_unsubscribed(unsubscribed) == (ContactChangesView {
            unsubscribed: Some(unsubscribed),
            ..changes
        }),
{
}

} // verus!
