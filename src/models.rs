//! The records the service stores and accepts.
use vstd::prelude::*;

verus! {

/// A stored user. The identifier is assigned once, at creation.
#[derive(Debug, PartialEq, Eq)]
pub struct User {
    pub id: u128,
    pub first_name: String,
    pub last_name: String,
}

/// The body of a create request: the two names, no identifier.
#[derive(Clone, Debug, PartialEq, Eq)]
pub struct CreateUserRequest {
    pub first_name: String,
    pub last_name: String,
}

impl User {
    /// The user that a create request becomes under the identifier `id`.
    pub open spec fn spec_from_request(id: u128, body: CreateUserRequest) -> User {
        User { id, first_name: body.first_name, last_name: body.last_name }
    }

    /// The record for a create request, under an identifier drawn elsewhere.
    pub fn from_request(id: u128, body: CreateUserRequest) -> (r: User)
        ensures
            r == Self::spec_from_request(id, body),
    {
        User { id, first_name: body.first_name, last_name: body.last_name }
    }
}

impl Clone for User {
    fn clone(&self) -> (r: User)
        ensures
            r == *self,
    {
        User {
            id: self.id,
            first_name: self.first_name.clone(),
            last_name: self.last_name.clone(),
        }
    }
}

impl CreateUserRequest {
    /// The request that a decoded body's fields make, if both are present.
    pub open spec fn spec_from_fields(first_name: Option<String>, last_name: Option<String>) -> Option<
        CreateUserRequest,
    > {
        match (first_name, last_name) {
            (Some(f), Some(l)) => Some(CreateUserRequest { first_name: f, last_name: l }),
            _ => None,
        }
    }

    /// A create request from the fields of a decoded body, `None` where a
    /// field is absent: both names are required.
    pub fn from_fields(first_name: Option<String>, last_name: Option<String>) -> (r: Option<
        CreateUserRequest,
    >)
        ensures
            r == Self::spec_from_fields(first_name, last_name),
    {
        match (first_name, last_name) {
            (Some(f), Some(l)) => Some(CreateUserRequest { first_name: f, last_name: l }),
            _ => None,
        }
    }
}

} // verus!
