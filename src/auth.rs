use vstd::prelude::*;
use vstd::string::{StrSliceExecFns, StringExecFns};

use crate::codec::same_text;
use crate::error::AppError;
use crate::models::{AuthUser, User, UserRole};
use crate::store::{store_well_formed, Store};

verus! {

/// The scheme that an `Authorization` header must name.
pub open spec fn bearer_prefix() -> Seq<char> {
    "Bearer "@
}

/// The hyphenated lower-case text of a UUID, as the `uuid` crate writes it.
pub uninterp spec fn uuid_text_of(id: u128) -> Seq<char>;

/// The UUID that a text spells in one of the forms the `uuid` crate reads, if any.
pub uninterp spec fn uuid_parsed(s: Seq<char>) -> Option<u128>;

/// Relies on `uuid::Uuid::from_u128` and the `Display` of `uuid::Uuid`: the
/// hyphenated form, 36 characters, depending on the value alone.
#[verifier::external_body]
fn uuid_text(id: u128) -> (r: String)
    ensures
        r@ == uuid_text_of(id),
        r@.len() == 36,
{
    uuid::Uuid::from_u128(id).to_string()
}

/// Relies on `uuid::Uuid::parse_str` and `uuid::Uuid::as_u128`: the value the
/// text spells, or an error where it spells none; the outcome depends on the
/// text alone.
#[verifier::external_body]
fn parse_uuid(s: &str) -> (r: Option<u128>)
    ensures
        r == uuid_parsed(s@),
{
    match uuid::Uuid::parse_str(s) {
        Ok(u) => Some(u.as_u128()),
        Err(_) => None,
    }
}

/// The token of an `Authorization` header of the form `Bearer <token>`;
/// `Authentication` for any other header.
pub fn bearer_token(header: &str) -> (r: Result<String, AppError>)
    ensures
        header@.len() >= 7 && header@.subrange(0, 7) == bearer_prefix() ==> r is Ok && r->Ok_0@
            == header@.subrange(7, header@.len() as int),
        !(header@.len() >= 7 && header@.subrange(0, 7) == bearer_prefix()) ==> r is Err && r->Err_0 is Authentication,
{
    proof {
        reveal_strlit("Bearer ");
    }
    let n = header.unicode_len();
    if n < 7 || !same_text(header.substring_char(0, 7), "Bearer ") {
        return Err(AppError::Authentication(String::from_str("Invalid authorization header format")));
    }
    Ok(String::from_str(header.substring_char(7, n)))
}

/// Whether an account with `role` passes a check for `required`: the role
/// itself, or an admin.
pub fn role_allows(role: UserRole, required: UserRole) -> (r: bool)
    ensures
        r == (role == required || role is Admin),
{
    match role {
        UserRole::Admin => true,
        UserRole::User => matches!(required, UserRole::User),
        UserRole::PropertyOwner => matches!(required, UserRole::PropertyOwner),
    }
}

/// What a session token asserts: the account (as UUID text), when the token
/// was issued and when it expires (Unix seconds), and the account's role.
#[derive(Clone, Debug)]
pub struct Claims {
    pub sub: String,
    pub exp: i64,
    pub iat: i64,
    pub role: UserRole,
}

impl Claims {
    /// The claims of a token for `user_id` issued at `issued_at` and valid for
    /// `valid_hours`; `None` where the expiry does not fit in an `i64`.
    pub fn issue(user_id: u128, role: UserRole, issued_at: i64, valid_hours: u32) -> (r: Option<Claims>)
        ensures
            issued_at + valid_hours * 3600 <= i64::MAX ==> r is Some,
            r is Some ==> r->0.sub@ == uuid_text_of(user_id) && r->0.iat == issued_at && r->0.exp
                == issued_at + valid_hours * 3600 && r->0.role == role,
            r is None ==> issued_at + valid_hours * 3600 > i64::MAX,
    {
        let lifetime: i64 = valid_hours as i64 * 3600;
        match issued_at.checked_add(lifetime) {
            Some(exp) => Some(Claims { sub: uuid_text(user_id), exp, iat: issued_at, role }),
            None => None,
        }
    }
}

impl Store {
    /// The identity behind a token's subject: the subject must be a UUID
    /// (`Validation` otherwise) naming an active account (`Authentication`
    /// otherwise).
    pub fn current_user(&self, sub: &str) -> (r: Result<AuthUser, AppError>)
        requires
            store_well_formed(self@),
        ensures
            uuid_parsed(sub@) is None ==> r is Err && r->Err_0 is Validation,
            uuid_parsed(sub@) is Some ==> {
                let id = uuid_parsed(sub@)->0;
                if 1 <= id <= self@.users.len() && self@.users[id - 1].is_active {
                    let u: User = self@.users[id - 1];
                    r is Ok && r->Ok_0.id == u.id && r->Ok_0.email == u.email && r->Ok_0.role == u.role
                } else {
                    r is Err && r->Err_0 is Authentication
                }
            },
    {
        let id = match parse_uuid(sub) {
            Some(id) => id,
            None => return Err(AppError::Validation(String::from_str("Invalid user id in token"))),
        };
        match self.get_user_by_id(id) {
            Some(u) => if u.is_active {
                Ok(u.auth_user())
            } else {
                Err(AppError::Authentication(String::from_str("User not found or inactive")))
            },
            None => Err(AppError::Authentication(String::from_str("User not found or inactive"))),
        }
    }
}

} // verus!
