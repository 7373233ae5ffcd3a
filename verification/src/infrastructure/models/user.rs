//! What is written when a user is created or changed.

use uuid::Uuid;
use vstd::prelude::*;

use crate::infrastructure::authorization::AuthorizationService;
use crate::infrastructure::authorization::Permission;
use crate::infrastructure::oauth::FtUser;
use crate::users::error::UserError;
use crate::users::requests::PatchUser;
use crate::users::requests::RegisterUser;

verus! {

/// A user to create.
#[derive(Debug)]
pub struct UserInsert {
    pub username: String,
    pub email: String,
    pub password: Option<String>,
    pub permissions: u32,
}

/// The changes to make to a user; what is `None` stays as it is.
#[derive(Debug)]
pub struct UserUpdate {
    pub username: Option<String>,
    pub email: Option<String>,
    pub password: Option<String>,
    pub permissions: Option<u32>,
}

impl UserInsert {
    /// The user that a registration creates: as registered, with the
    /// permissions of a new user.
    pub fn from_registration(form: RegisterUser) -> (user: UserInsert)
        ensures
            user.username == form.username,
            user.email == form.email,
            user.password == Some(form.password),
            user.permissions == Permission::PostComment.spec_bitmask(),
    {
        UserInsert {
            username: form.username,
            email: form.email,
            password: Some(form.password),
            permissions: AuthorizationService::default_permissions(),
        }
    }

    /// The user that a first sign-in through the 42 intranet creates: named
    /// by the intranet login, without a password, with the permissions of a
    /// new user.
    pub fn from_ft_user(ft_user: FtUser) -> (user: UserInsert)
        ensures
            user.username == ft_user.login,
            user.email == ft_user.email,
            user.password is None,
            user.permissions == Permission::PostComment.spec_bitmask(),
    {
        UserInsert {
            username: ft_user.login,
            email: ft_user.email,
            password: None,
            permissions: AuthorizationService::default_permissions(),
        }
    }
}

impl UserUpdate {
    /// The changes that a user asks for: name, address and password as
    /// asked, and never the permissions.
    pub fn from_patch(form: PatchUser) -> (update: UserUpdate)
        ensures
            update.username == form.username,
            update.email == form.email,
            update.password == form.password,
            update.permissions is None,
    {
        UserUpdate {
            username: form.username,
            email: form.email,
            password: form.password,
            permissions: None,
        }
    }
}

/// What to do for a sign-in, once the user has been looked up by address.
#[derive(Debug)]
pub enum SignIn<U> {
    /// The user exists: sign in as this user.
    Existing(U),
    /// There is no such user yet: create one, then sign in.
    Create,
    /// The lookup failed: give up with this failure.
    Fail(UserError),
}

/// Decides what to do for a sign-in from the result of looking the user up
/// by address.
pub fn sign_in_with<U>(lookup: Result<U, UserError>) -> (step: SignIn<U>)
    ensures
        match lookup {
            Ok(user) => step == SignIn::Existing(user),
            Err(UserError::UserNotFound) => step == SignIn::<U>::Create,
            Err(e) => step == SignIn::<U>::Fail(e),
        },
{
    match lookup {
        Ok(user) => SignIn::Existing(user),
        Err(UserError::UserNotFound) => SignIn::Create,
        Err(e) => SignIn::Fail(e),
    }
}

/// The sixteen bytes that `uuid` reads out of the text of a UUID, in any of
/// the notations it knows; `None` where the text is no UUID.
pub uninterp spec fn parsed_uuid(text: Seq<char>) -> Option<Seq<u8>>;

/// Calls `Uuid::parse_str` and takes the bytes of the result with
/// `Uuid::into_bytes`. Nothing is claimed of the result but that it depends
/// on the text alone.
#[verifier::external_body]
fn parse_uuid(text: &str) -> (id: Option<[u8; 16]>)
    ensures
        match id {
            Some(bytes) => parsed_uuid(text@) == Some(bytes@),
            None => parsed_uuid(text@) is None,
        },
{
    match Uuid::parse_str(text) {
        Ok(id) => Some(id.into_bytes()),
        Err(_) => None,
    }
}

/// A user as the database holds it; `T` is the type of its time stamps.
#[derive(Debug)]
pub struct DbUser<T> {
    pub id: String,
    pub username: String,
    pub email: String,
    pub password: Option<String>,
    pub permissions: i64,
    pub created_at: T,
    pub updated_at: T,
}

/// A user; `T` is the type of its time stamps.
#[derive(Debug)]
pub struct User<T> {
    /// The bytes of the user's UUID.
    pub id: [u8; 16],
    pub username: String,
    pub email: String,
    pub password: Option<String>,
    pub permissions: i64,
    pub created_at: T,
    pub updated_at: T,
}

impl<T> User<T> {
    /// The user that a row of the database describes. A row whose id is
    /// no UUID is a `DatabaseError`.
    pub fn try_from(user: DbUser<T>) -> (r: Result<User<T>, UserError>)
        ensures
            match r {
                Ok(found) => {
                    &&& parsed_uuid(user.id@) == Some(found.id@)
                    &&& found.username == user.username
                    &&& found.email == user.email
                    &&& found.password == user.password
                    &&& found.permissions == user.permissions
                    &&& found.created_at == user.created_at
                    &&& found.updated_at == user.updated_at
                },
                Err(e) => parsed_uuid(user.id@) is None && e == UserError::DatabaseError,
            },
    {
        match parse_uuid(user.id.as_str()) {
            Some(id) => Ok(
                User {
                    id,
                    username: user.username,
                    email: user.email,
                    password: user.password,
                    permissions: user.permissions,
                    created_at: user.created_at,
                    updated_at: user.updated_at,
                },
            ),
            None => Err(UserError::DatabaseError),
        }
    }
}

} // verus!
