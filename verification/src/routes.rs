//! The intake request parser and the route-level decisions.
//!
//! The transport layer hands the library the two raw text fields of a
//! subscription request, exactly as deserialized from the wire; everything
//! the route decides — which failure class an input falls into, and which
//! status an outcome maps to — is decided here.

use vstd::prelude::*;
use crate::domain::{
    NewSubscriber, SubscriberEmail, SubscriberName, is_valid_email, valid_name,
};
use crate::error::ValidationError;

verus! {

/// A raw subscription request with both fields present, exactly as
/// deserialized from an external payload. Untrusted until parsed.
#[derive(Debug)]
pub struct Subscription {
    pub name: String,
    pub email: String,
}

impl NewSubscriber {
    /// Converts a raw request into the validated aggregate: the name is
    /// validated first, then the email, failing fast on the first rule
    /// violated.
    pub fn try_from(value: Subscription) -> (r: Result<NewSubscriber, ValidationError>)
        ensures
            r is Ok <==> valid_name(value.name@) && is_valid_email(value.email@),
            r is Ok ==> r->Ok_0.name@ == value.name@ && r->Ok_0.email@ == value.email@
                && r->Ok_0.wf(),
            !valid_name(value.name@) ==> r is Err && r->Err_0 is InvalidName
                && r->Err_0->InvalidName_0@ == value.name@,
            valid_name(value.name@) && !is_valid_email(value.email@) ==> r is Err
                && r->Err_0 is InvalidEmail && r->Err_0->InvalidEmail_0@ == value.email@,
    {
        let name = match SubscriberName::parse(value.name) {
            Ok(name) => name,
            Err(e) => {
                return Err(e);
            },
        };
        let email = match SubscriberEmail::parse(value.email) {
            Ok(email) => email,
            Err(e) => {
                return Err(e);
            },
        };
        Ok(NewSubscriber { email, name })
    }
}

/// The intake request parser over the wire's optional fields.
///
/// A missing field is a distinct failure class (`MissingField`) from a
/// present-but-invalid one (`InvalidName` / `InvalidEmail`). Fields are
/// settled left to right — name before email — failing fast on the first
/// violation.
pub fn parse_request(name: Option<String>, email: Option<String>) -> (r: Result<
    NewSubscriber,
    ValidationError,
>)
    ensures
        r is Ok <==> name is Some && valid_name(name->0@) && email is Some
            && is_valid_email(email->0@),
        r is Ok ==> r->Ok_0.name@ == name->0@ && r->Ok_0.email@ == email->0@ && r->Ok_0.wf(),
        name is None ==> r is Err && r->Err_0 is MissingField,
        name is Some && !valid_name(name->0@) ==> r is Err && r->Err_0 is InvalidName
            && r->Err_0->InvalidName_0@ == name->0@,
        name is Some && valid_name(name->0@) && email is None ==> r is Err
            && r->Err_0 is MissingField,
        name is Some && valid_name(name->0@) && email is Some && !is_valid_email(email->0@)
            ==> r is Err && r->Err_0 is InvalidEmail && r->Err_0->InvalidEmail_0@ == email->0@,
{
    let raw_name = match name {
        Some(n) => n,
        None => {
            return Err(ValidationError::MissingField);
        },
    };
    let parsed_name = match SubscriberName::parse(raw_name) {
        Ok(n) => n,
        Err(e) => {
            return Err(e);
        },
    };
    let raw_email = match email {
        Some(m) => m,
        None => {
            return Err(ValidationError::MissingField);
        },
    };
    let parsed_email = match SubscriberEmail::parse(raw_email) {
        Ok(m) => m,
        Err(e) => {
            return Err(e);
        },
    };
    Ok(NewSubscriber { email: parsed_email, name: parsed_name })
}

/// The health probe's decision: unconditionally healthy, whatever the state
/// of the storage collaborator.
pub fn health_check() -> (status: u16)
    ensures
        status == 200,
{
    200
}

} // verus!
