//! Requests as plain values: a method, a path below the API's base URL and
//! the fields of a JSON body, if the request has one.

use vstd::prelude::*;

use crate::body::{fields_view, Field, FieldView};
use crate::types::{ContactChangesView, ContactDataView};

verus! {

/// The HTTP method of a request.
#[derive(Debug, Clone, Copy, PartialEq, Eq, Structural)]
pub enum Method {
    Get,
    Post,
    Patch,
    Delete,
}

impl Method {
    /// The method as it is spelled on the wire.
    pub open spec fn text(self) -> Seq<char> {
        match self {
            Method::Get => "GET"@,
            Method::Post => "POST"@,
            Method::Patch => "PATCH"@,
            Method::Delete => "DELETE"@,
        }
    }

    /// The method as it is spelled on the wire.
    pub fn name(self) -> (r: &'static str)
        ensures
            r@ == self.text(),
    {
        match self {
            Method::Get => "GET",
            Method::Post => "POST",
            Method::Patch => "PATCH",
            Method::Delete => "DELETE",
        }
    }
}

/// One request to the contacts endpoints.
///
/// `body` is `None` where the request carries no body, and `Some` with the
/// fields of the JSON object where it carries one; `Some` of no fields is the
/// empty object.
#[derive(Debug)]
pub struct Request {
    pub method: Method,
    pub path: String,
    pub body: Option<Vec<Field>>,
}

/// What a [`Request`] stands for.
pub struct RequestView {
    pub method: Method,
    pub path: Seq<char>,
    pub body: Option<Seq<FieldView>>,
}

/// What an optional body stands for.
pub open spec fn body_view(body: Option<Vec<Field>>) -> Option<Seq<FieldView>> {
    match body {
        Some(fields) => Some(fields_view(fields@)),
        None => None,
    }
}

impl View for Request {
    type V = RequestView;

    open spec fn view(&self) -> RequestView {
        RequestView { method: self.method, path: self.path@, body: body_view(self.body) }
    }
}

/// The path of the contacts of an audience: `/audiences/{audience}/contacts`.
pub open spec fn contacts_path(audience: Seq<char>) -> Seq<char> {
    "/audiences/"@ + audience + "/contacts"@
}

/// The path of one contact of an audience:
/// `/audiences/{audience}/contacts/{contact}`.
///
/// The last segment is taken as it is given: an identifier or an email.
pub open spec fn contact_path(audience: Seq<char>, contact: Seq<char>) -> Seq<char> {
    "/audiences/"@ + audience + "/contacts/"@ + contact
}

/// The request that creates a contact inside an audience.
pub open spec fn create_request(audience: Seq<char>, contact: ContactDataView) -> RequestView {
    RequestView {
        method: Method::Post,
        path: contacts_path(audience),
        body: Some(contact.fields()),
    }
}

/// The request that retrieves one contact of an audience.
pub open spec fn get_request(contact: Seq<char>, audience: Seq<char>) -> RequestView {
    RequestView { method: Method::Get, path: contact_path(audience, contact), body: None }
}

/// The request that applies changes to one contact of an audience.
pub open spec fn update_request(
    contact: Seq<char>,
    audience: Seq<char>,
    changes: ContactChangesView,
) -> RequestView {
    RequestView {
        method: Method::Patch,
        path: contact_path(audience, contact),
        body: Some(changes.fields()),
    }
}

/// The request that removes from an audience the contact with the given
/// identifier or email.
pub open spec fn delete_request(audience: Seq<char>, email_or_id: Seq<char>) -> RequestView {
    RequestView { method: Method::Delete, path: contact_path(audience, email_or_id), body: None }
}

/// The request that retrieves all contacts of an audience.
pub open spec fn list_request(audience: Seq<char>) -> RequestView {
    RequestView { method: Method::Get, path: contacts_path(audience), body: None }
}

/// Builds the path of the contacts of an audience.
pub fn build_contacts_path(audience: &str) -> (r: String)
    ensures
        r@ == contacts_path(audience@),
{
    let mut path = String::from_str("/audiences/");
    path.append(audience);
    path.append("/contacts");
    path
}

/// Builds the path of one contact of an audience.
pub fn build_contact_path(audience: &str, contact: &str) -> (r: String)
    ensures
        r@ == contact_path(audience@, contact@),
{
    let mut path = String::from_str("/audiences/");
    path.append(audience);
    path.append("/contacts/");
    path.append(contact);
    path
}

/// The path of one contact is the path of its audience's contacts, a slash
/// and the contact's segment.
pub proof fn law_contact_path_is_below_contacts_path(audience: Seq<char>, contact: Seq<char>)
    ensures
        contact_path(audience, contact) == contacts_path(audience) + "/"@ + contact,
{
    reveal_strlit("/contacts");
    reveal_strlit("/contacts/");
    reveal_strlit("/");
    assert("/contacts/"@ =~= "/contacts"@ + "/"@);
    assert(contact_path(audience, contact) =~= contacts_path(audience) + "/"@ + contact);
}

} // verus!
