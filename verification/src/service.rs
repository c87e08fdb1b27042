//! The five operations on the contacts of an audience.
//!
//! Each operation is one round trip. [`ContactsService`] does the part of it
//! that needs no network: it says which request to send, and what a decoded
//! reply yields. It keeps no state, retries nothing and checks nothing of
//! the values it is given: an email is sent as it is.

use vstd::prelude::*;

use crate::body::{
    has_key, law_contact_changes_writes_what_is_set, law_contact_data_writes_what_is_set,
    FieldView, Key, ValueView,
};
use crate::request::{
    build_contact_path, build_contacts_path, contact_path, create_request, delete_request,
    get_request, list_request, update_request, Method, Request,
};
use crate::types::{
    AudienceId, Contact, ContactChanges, ContactChangesView, ContactData, ContactDataView,
    ContactId, CreateContactResponse, ListContactResponse, UpdateContactResponse,
};

verus! {

/// Operations on the `/audiences/:id/contacts` endpoints.
#[derive(Debug, Clone, Copy)]
pub struct ContactsService {}

impl ContactsService {
    /// Creates the service.
    pub fn new() -> (r: Self) {
        ContactsService {}
    }

    /// The request that creates a contact inside an audience.
    ///
    /// Its body holds the contact's email and each optional attribute that
    /// is present. The outcome is read by [`ContactsService::created`].
    pub fn create(&self, audience: &AudienceId, contact: ContactData) -> (r: Request)
        ensures
            r@ == create_request(audience@, contact@),
    {
        let path = build_contacts_path(audience.as_str());
        Request { method: Method::Post, path, body: Some(contact.fields()) }
    }

    /// The outcome of a create request: the identifier that the service
    /// assigned to the new contact, or the failure as it came.
    pub fn created<E>(&self, reply: Result<CreateContactResponse, E>) -> (r: Result<ContactId, E>)
        ensures
            match reply {
                Ok(response) => r == Ok::<ContactId, E>(response.id),
                Err(failure) => r == Err::<ContactId, E>(failure),
            },
    {
        match reply {
            Ok(response) => Ok(response.id),
            Err(failure) => Err(failure),
        }
    }

    /// The request that retrieves a single contact from an audience.
    pub fn get(&self, contact: &ContactId, audience: &AudienceId) -> (r: Request)
        ensures
            r@ == get_request(contact@, audience@),
    {
        let path = build_contact_path(audience.as_str(), contact.as_str());
        Request { method: Method::Get, path, body: None }
    }

    /// The request that updates an existing contact.
    ///
    /// Its body holds each attribute that the change set names, and no
    /// other. The outcome is read by [`ContactsService::updated`].
    pub fn update(
        &self,
        contact: &ContactId,
        audience: &AudienceId,
        update: ContactChanges,
    ) -> (r: Request)
        ensures
            r@ == update_request(contact@, audience@, update@),
    {
        let path = build_contact_path(audience.as_str(), contact.as_str());
        Request { method: Method::Patch, path, body: Some(update.fields()) }
    }

    /// The request that removes an existing contact from an audience by
    /// their email or identifier.
    ///
    /// The text is put into the path as it is given; which of the two it is
    /// is for the service to tell.
    pub fn delete(&self, audience: &AudienceId, email_or_id: &str) -> (r: Request)
        ensures
            r@ == delete_request(audience@, email_or_id@),
    {
        let path = build_contact_path(audience.as_str(), email_or_id);
        Request { method: Method::Delete, path, body: None }
    }

    /// The request that retrieves all contacts from an audience.
    ///
    /// The outcome is read by [`ContactsService::listed`].
    pub fn list(&self, audience: &AudienceId) -> (r: Request)
        ensures
            r@ == list_request(audience@),
    {
        let path = build_contacts_path(audience.as_str());
        Request { method: Method::Get, path, body: None }
    }

    /// The outcome of an update request: success if the reply was decoded,
    /// or the failure as it came. The identifier in the reply is dropped.
    pub fn updated<E>(&self, reply: Result<UpdateContactResponse, E>) -> (r: Result<(), E>)
        ensures
            match reply {
                Ok(_) => r == Ok::<(), E>(()),
                Err(failure) => r == Err::<(), E>(failure),
            },
    {
        match reply {
            Ok(_) => Ok(()),
            Err(failure) => Err(failure),
        }
    }

    /// The outcome of a list request: the contacts in the order in which the
    /// service gave them, or the failure as it came. A reply without
    /// contacts is a success with an empty vector.
    pub fn listed<E>(&self, reply: Result<ListContactResponse, E>) -> (r: Result<Vec<Contact>, E>)
        ensures
            match reply {
                Ok(response) => r == Ok::<Vec<Contact>, E>(response.data),
                Err(failure) => r == Err::<Vec<Contact>, E>(failure),
            },
            reply is Ok && reply->Ok_0.data@.len() == 0 ==> r is Ok && r->Ok_0@.len() == 0,
    {
        match reply {
            Ok(response) => Ok(response.data),
            Err(failure) => Err(failure),
        }
    }
}

/// Removing a contact by its identifier goes to the path from which the
/// contact is retrieved and at which it is updated; removing it by email
/// goes to the path that ends in the email. Neither request has a body.
pub proof fn law_delete_takes_identifier_or_email(
    audience: Seq<char>,
    contact: Seq<char>,
    email: Seq<char>,
    changes: ContactChangesView,
)
    ensures
        delete_request(audience, contact).path == get_request(contact, audience).path,
        delete_request(audience, contact).path == update_request(contact, audience, changes).path,
        delete_request(audience, email).path == contact_path(audience, email),
        delete_request(audience, contact).method == Method::Delete,
        delete_request(audience, email).method == Method::Delete,
        delete_request(audience, contact).body is None,
        delete_request(audience, email).body is None,
{
}

/// Creating a contact and listing contacts go to the same path, which
/// depends on the audience alone; they differ in method and body.
pub proof fn law_create_and_list_share_a_path(audience: Seq<char>, contact: ContactDataView)
    ensures
        create_request(audience, contact).path == list_request(audience).path,
        create_request(audience, contact).method == Method::Post,
        list_request(audience).method == Method::Get,
        create_request(audience, contact).body == Some(contact.fields()),
        list_request(audience).body is None,
{
}

/// The body of a create request has a member under a key if and only if the
/// contact's attribute of that key is present, and the body of an update
/// request if and only if the change set names that attribute: what is
/// absent is left out of the object.
pub proof fn law_write_bodies_omit_absent_attributes(
    audience: Seq<char>,
    contact: Seq<char>,
    data: ContactDataView,
    changes: ContactChangesView,
    key: Key,
)
    ensures
        create_request(audience, data).body is Some,
        has_key(create_request(audience, data).body->Some_0, key) <==> data.is_set(key),
        update_request(contact, audience, changes).body is Some,
        has_key(update_request(contact, audience, changes).body->Some_0, key) <==> changes.is_set(
            key,
        ),
{
    law_contact_data_writes_what_is_set(data, key);
    law_contact_changes_writes_what_is_set(changes, key);
}

/// A create request is made of the audience and the contact alone, and it
/// names the contact's email: requests for distinct emails differ.
pub proof fn law_create_requests_differ_by_email(
    audience: Seq<char>,
    first: ContactDataView,
    second: ContactDataView,
)
    requires
        first.email != second.email,
    ensures
        create_request(audience, first) != create_request(audience, second),
{
    let a = first.fields();
    let b = second.fields();
    assert(a[0] == (FieldView { key: Key::Email, value: ValueView::Text(first.email) }));
    assert(b[0] == (FieldView { key: Key::Email, value: ValueView::Text(second.email) }));
}

} // verus!
