//! What each handler decides around its one storage call. The caller runs the
//! statement and hands back its outcome: the rows read, or the driver's error
//! text.
use vstd::prelude::*;
use crate::ident::{parse_uuid, random_uuid, uuid_value, is_random_uuid};
use crate::models::{CreateUserRequest, User};

verus! {

pub const STATUS_OK: u16 = 200;

pub const STATUS_CREATED: u16 = 201;

pub const STATUS_BAD_REQUEST: u16 = 400;

pub const STATUS_NOT_FOUND: u16 = 404;

pub const STATUS_INTERNAL_SERVER_ERROR: u16 = 500;

/// What a response carries, before it is encoded.
#[derive(Debug, PartialEq, Eq)]
pub enum ResponseBody {
    Empty,
    Text(String),
    One(User),
    Many(Vec<User>),
}

#[derive(Debug, PartialEq, Eq)]
pub struct ApiResponse {
    pub status: u16,
    pub body: ResponseBody,
}

pub open spec fn response(status: u16, body: ResponseBody) -> ApiResponse {
    ApiResponse { status, body }
}

/// A storage failure. `context` is the generic message the caller sees;
/// `detail` keeps the driver's own text for the server's logs.
#[derive(Debug, PartialEq, Eq)]
pub struct AppError {
    pub context: String,
    pub detail: String,
}

impl AppError {
    pub fn new(context: &str, detail: String) -> (r: AppError)
        ensures
            r.context@ == context@,
            r.detail == detail,
    {
        AppError { context: context.to_string(), detail }
    }

    /// A 500 response that carries the generic message only.
    pub fn into_response(self) -> (r: ApiResponse)
        ensures
            r == response(STATUS_INTERNAL_SERVER_ERROR, ResponseBody::Text(self.context)),
    {
        ApiResponse { status: STATUS_INTERNAL_SERVER_ERROR, body: ResponseBody::Text(self.context) }
    }
}

/// The response to `GET /users` once the rows are read.
pub open spec fn users_response(users: Vec<User>) -> ApiResponse {
    response(STATUS_OK, ResponseBody::Many(users))
}

/// The first step of `GET /user/{id}` on a path segment.
pub open spec fn user_id_step(segment: Seq<char>) -> Result<u128, ApiResponse> {
    match uuid_value(segment) {
        Some(id) => Ok(id),
        None => Err(response(STATUS_BAD_REQUEST, ResponseBody::Empty)),
    }
}

/// The response to `GET /user/{id}` once the lookup has run.
pub open spec fn user_response(found: Option<User>) -> ApiResponse {
    match found {
        Some(user) => response(STATUS_OK, ResponseBody::One(user)),
        None => response(STATUS_NOT_FOUND, ResponseBody::Empty),
    }
}

/// The response to `POST /user` once the record is inserted.
pub open spec fn created_response(user: User) -> ApiResponse {
    response(STATUS_CREATED, ResponseBody::One(user))
}

/// The error a failed storage call becomes, under the handler's message.
pub open spec fn storage_error(e: AppError, context: &str, detail: String) -> bool {
    e.context@ == context@ && e.detail == detail
}

/// The empty 400 response for a malformed identifier or create body.
pub fn bad_request() -> (r: ApiResponse)
    ensures
        r == response(STATUS_BAD_REQUEST, ResponseBody::Empty),
{
    ApiResponse { status: STATUS_BAD_REQUEST, body: ResponseBody::Empty }
}

/// `GET /users`: every row read, in the order read.
pub fn get_users(fetched: Result<Vec<User>, String>) -> (r: Result<ApiResponse, AppError>)
    ensures
        match fetched {
            Ok(users) => r == Ok::<ApiResponse, AppError>(users_response(users)),
            Err(detail) => r matches Err(e) && storage_error(e, "Failed to fetch users", detail),
        },
{
    match fetched {
        Ok(users) => Ok(ApiResponse { status: STATUS_OK, body: ResponseBody::Many(users) }),
        Err(detail) => Err(AppError::new("Failed to fetch users", detail)),
    }
}

/// `GET /user/{id}`, first step: the identifier the path segment names, or
/// the 400 response when it names none.
pub fn get_user_id(segment: &str) -> (r: Result<u128, ApiResponse>)
    ensures
        r == user_id_step(segment@),
{
    match parse_uuid(segment) {
        Some(id) => Ok(id),
        None => Err(bad_request()),
    }
}

/// `GET /user/{id}`, second step: 200 with the row found, 404 with no body
/// when there is none.
pub fn get_user(found: Result<Option<User>, String>) -> (r: Result<ApiResponse, AppError>)
    ensures
        match found {
            Ok(row) => r == Ok::<ApiResponse, AppError>(user_response(row)),
            Err(detail) => r matches Err(e) && storage_error(e, "Failed to fetch user", detail),
        },
{
    match found {
        Ok(Some(user)) => Ok(ApiResponse { status: STATUS_OK, body: ResponseBody::One(user) }),
        Ok(None) => Ok(ApiResponse { status: STATUS_NOT_FOUND, body: ResponseBody::Empty }),
        Err(detail) => Err(AppError::new("Failed to fetch user", detail)),
    }
}

/// `POST /user`, first step: the record to insert, under a fresh random
/// identifier, or the 400 response when a name is missing.
pub fn new_user(first_name: Option<String>, last_name: Option<String>) -> (r: Result<
    User,
    ApiResponse,
>)
    ensures
        match CreateUserRequest::spec_from_fields(first_name, last_name) {
            Some(body) => r matches Ok(u) && u == User::spec_from_request(u.id, body)
                && is_random_uuid(u.id),
            None => r == Err::<User, ApiResponse>(response(STATUS_BAD_REQUEST, ResponseBody::Empty)),
        },
{
    match CreateUserRequest::from_fields(first_name, last_name) {
        Some(body) => {
            let id = random_uuid();
            Ok(User::from_request(id, body))
        },
        None => Err(bad_request()),
    }
}

/// `POST /user`, second step: 201 with the record inserted.
pub fn add_user(user: User, inserted: Result<(), String>) -> (r: Result<ApiResponse, AppError>)
    ensures
        match inserted {
            Ok(()) => r == Ok::<ApiResponse, AppError>(created_response(user)),
            Err(detail) => r matches Err(e) && storage_error(e, "Failed to insert user", detail),
        },
{
    match inserted {
        Ok(()) => Ok(ApiResponse { status: STATUS_CREATED, body: ResponseBody::One(user) }),
        Err(detail) => Err(AppError::new("Failed to insert user", detail)),
    }
}

/// The response a handler's outcome becomes.
pub fn respond(outcome: Result<ApiResponse, AppError>) -> (r: ApiResponse)
    ensures
        match outcome {
            Ok(ok) => r == ok,
            Err(e) => r == response(STATUS_INTERNAL_SERVER_ERROR, ResponseBody::Text(e.context)),
        },
{
    match outcome {
        Ok(ok) => ok,
        Err(e) => e.into_response(),
    }
}

/// A create request with both names yields a 201 response whose record
/// carries the drawn identifier and exactly the names submitted.
pub proof fn lemma_create_echoes_names(id: u128, first_name: String, last_name: String)
    ensures
        CreateUserRequest::spec_from_fields(Some(first_name), Some(last_name)) matches Some(body)
            && created_response(User::spec_from_request(id, body)).status == STATUS_CREATED
            && (created_response(User::spec_from_request(id, body)).body matches ResponseBody::One(
            u,
        ) && u.id == id && u.first_name == first_name && u.last_name == last_name),
{
}

/// A path segment that is no identifier gets 400, whatever its length; one of
/// a length no accepted form has is such a segment. An identifier with no row
/// gets 404 with no body.
pub proof fn lemma_absent_or_malformed_id(segment: Seq<char>)
    ensures
        uuid_value(segment) is None ==> user_id_step(segment) == Err::<u128, ApiResponse>(
            response(STATUS_BAD_REQUEST, ResponseBody::Empty),
        ),
        segment.len() != 32 && segment.len() != 36 && segment.len() != 38 && segment.len() != 45
            ==> user_id_step(segment) == Err::<u128, ApiResponse>(
            response(STATUS_BAD_REQUEST, ResponseBody::Empty),
        ),
        user_response(None) == response(STATUS_NOT_FOUND, ResponseBody::Empty),
{
}

/// A create body without a first name is refused with 400 and yields no
/// record to insert, whatever the last name.
pub proof fn lemma_missing_first_name_rejected(last_name: Option<String>)
    ensures
        CreateUserRequest::spec_from_fields(None, last_name) is None,
{
}

/// A created user, looked up under any text of its identifier, comes back
/// with 200 and the very record the create response carried.
pub proof fn lemma_created_user_read_back(id: u128, body: CreateUserRequest, segment: Seq<char>)
    requires
        uuid_value(segment) == Some(id),
    ensures
        user_id_step(segment) == Ok::<u128, ApiResponse>(id),
        user_response(Some(User::spec_from_request(id, body))).status == STATUS_OK,
        user_response(Some(User::spec_from_request(id, body))).body == created_response(
            User::spec_from_request(id, body),
        ).body,
{
}

} // verus!
