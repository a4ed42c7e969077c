use vstd::prelude::*;
use vstd::string::{StrSliceExecFns, StringExecFns};

use crate::error::AppError;
use crate::models::{AuthUser, CreateUserRequest, LoginRequest, User, UserRole};
use crate::policy::{authorize, Action};
use crate::store::{store_well_formed, Store, StoreView};

verus! {

/// Whether a text is an email address by the HTML5 rule that `validator` applies.
pub uninterp spec fn is_valid_email(s: Seq<char>) -> bool;

/// Whether `password` is the one that the bcrypt `hash` was made from.
pub uninterp spec fn password_matches(password: Seq<char>, hash: Seq<char>) -> bool;

/// Relies on `validator::ValidateEmail::validate_email` for `&str`: the HTML5
/// email check, which depends on the text alone and refuses an empty text or
/// one without '@'.
#[verifier::external_body]
fn email_is_valid(s: &str) -> (r: bool)
    ensures
        r == is_valid_email(s@),
        r ==> s@.len() > 0 && s@.contains('@'),
{
    validator::ValidateEmail::validate_email(&s)
}

/// Relies on `bcrypt::hash` at `bcrypt::DEFAULT_COST`: the salt is drawn at
/// random, so nothing is stated of the hash.
#[verifier::external_body]
fn hash_password(password: &str) -> (r: Result<String, AppError>)
    ensures
        r is Err ==> r->Err_0 is Bcrypt,
{
    match bcrypt::hash(password, bcrypt::DEFAULT_COST) {
        Ok(h) => Ok(h),
        Err(e) => Err(AppError::Bcrypt(e.to_string())),
    }
}

/// Relies on `bcrypt::verify`: whether `password` hashes to `hash` under the
/// salt and cost that `hash` carries; an error where `hash` is malformed.
#[verifier::external_body]
fn verify_password(password: &str, hash: &str) -> (r: Result<bool, AppError>)
    ensures
        r is Ok ==> r->Ok_0 == password_matches(password@, hash@),
        r is Err ==> r->Err_0 is Bcrypt,
{
    match bcrypt::verify(password, hash) {
        Ok(b) => Ok(b),
        Err(e) => Err(AppError::Bcrypt(e.to_string())),
    }
}

/// A sign-up form with an email address, a password of eight characters or
/// more, and both names.
pub open spec fn user_request_valid(r: CreateUserRequest) -> bool {
    &&& is_valid_email(r.email@)
    &&& r.password@.len() >= 8
    &&& r.first_name@.len() >= 1
    &&& r.last_name@.len() >= 1
}

/// A sign-in form with an email address and a password.
pub open spec fn login_request_valid(r: LoginRequest) -> bool {
    is_valid_email(r.email@) && r.password@.len() >= 1
}

pub open spec fn email_taken(us: Seq<User>, email: Seq<char>) -> bool {
    exists|i: int| 0 <= i < us.len() && (#[trigger] us[i]).email@ == email
}

/// The account that sign-up creates from `req` with `role`, given the hash of
/// its password.
pub open spec fn enrolled_user(v: StoreView, req: CreateUserRequest, role: UserRole, password_hash: String, now: i64) -> User {
    User {
        id: (v.users.len() + 1) as u128,
        email: req.email,
        password_hash,
        first_name: req.first_name,
        last_name: req.last_name,
        role,
        is_active: true,
        created_at: now,
        updated_at: now,
    }
}

impl CreateUserRequest {
    pub fn is_valid(&self) -> (r: bool)
        ensures
            r == user_request_valid(*self),
    {
        email_is_valid(self.email.as_str()) && self.password.as_str().unicode_len() >= 8
            && !self.first_name.as_str().is_empty() && !self.last_name.as_str().is_empty()
    }
}

impl LoginRequest {
    pub fn is_valid(&self) -> (r: bool)
        ensures
            r == login_request_valid(*self),
    {
        email_is_valid(self.email.as_str()) && !self.password.as_str().is_empty()
    }
}

impl Store {
    /// The account registered under `email`.
    pub fn get_user_by_email(&self, email: &String) -> (r: Option<&User>)
        ensures
            r is None <==> !email_taken(self@.users, email@),
            r is Some ==> exists|i: int|
                0 <= i < self@.users.len() && self@.users[i] == *r->0 && (#[trigger] self@.users[i]).email@
                    == email@,
    {
        let us = self.users_ref();
        let mut i: usize = 0;
        while i < us.len()
            invariant
                i <= us.len(),
                us@ == self@.users,
                forall|k: int| 0 <= k < i ==> (#[trigger] us@[k]).email@ != email@,
            decreases us.len() - i,
        {
            if us[i].email == *email {
                return Some(&us[i]);
            }
            i = i + 1;
        }
        None
    }

    /// The account with id `id`.
    pub fn get_user_by_id(&self, id: u128) -> (r: Option<&User>)
        requires
            store_well_formed(self@),
        ensures
            r is Some <==> 1 <= id <= self@.users.len(),
            r is Some ==> *r->0 == self@.users[id - 1],
    {
        let us = self.users_ref();
        if id >= 1 && id <= us.len() as u128 {
            Some(&us[(id - 1) as usize])
        } else {
            None
        }
    }

    /// Creates the account of `req` with `role`, unless its email is taken.
    fn create_user(&mut self, req: CreateUserRequest, role: UserRole, now: i64) -> (r: Result<User, AppError>)
        requires
            store_well_formed(old(self)@),
        ensures
            email_taken(old(self)@.users, req.email@) ==> r is Err && r->Err_0 is BadRequest,
            r is Ok ==> !email_taken(old(self)@.users, req.email@),
            r is Ok ==> r->Ok_0 == enrolled_user(old(self)@, req, role, r->Ok_0.password_hash, now),
            r is Ok ==> final(self)@ == (StoreView { users: old(self)@.users.push(r->Ok_0), ..old(self)@ }),
            r is Err ==> final(self)@ == old(self)@,
            !email_taken(old(self)@.users, req.email@) ==> r is Ok || r->Err_0 is Bcrypt,
            store_well_formed(final(self)@),
    {
        if self.get_user_by_email(&req.email).is_some() {
            return Err(AppError::BadRequest(String::from_str("User with this email already exists")));
        }
        let password_hash = match hash_password(req.password.as_str()) {
            Ok(h) => h,
            Err(e) => return Err(e),
        };
        let user = User {
            id: self.users_ref().len() as u128 + 1,
            email: req.email,
            password_hash,
            first_name: req.first_name,
            last_name: req.last_name,
            role,
            is_active: true,
            created_at: now,
            updated_at: now,
        };
        let created = user.duplicate();
        self.push_user(user);
        Ok(created)
    }

    /// Signs up a guest account.
    pub fn register(&mut self, req: CreateUserRequest, now: i64) -> (r: Result<User, AppError>)
        requires
            store_well_formed(old(self)@),
        ensures
            !user_request_valid(req) ==> r is Err && r->Err_0 is Validation,
            user_request_valid(req) && email_taken(old(self)@.users, req.email@) ==> r is Err && r->Err_0 is BadRequest,
            r is Ok ==> user_request_valid(req) && !email_taken(old(self)@.users, req.email@),
            r is Ok ==> r->Ok_0 == enrolled_user(old(self)@, req, UserRole::User, r->Ok_0.password_hash, now),
            r is Ok ==> final(self)@ == (StoreView { users: old(self)@.users.push(r->Ok_0), ..old(self)@ }),
            r is Err ==> final(self)@ == old(self)@,
            user_request_valid(req) && !email_taken(old(self)@.users, req.email@) ==> r is Ok || r->Err_0 is Bcrypt,
            store_well_formed(final(self)@),
    {
        if !req.is_valid() {
            return Err(AppError::Validation(String::from_str("Invalid registration details")));
        }
        self.create_user(req, UserRole::User, now)
    }

    /// Provisions a property-owner account; only an admin may.
    pub fn create_property_owner(&mut self, actor: &AuthUser, req: CreateUserRequest, now: i64) -> (r: Result<
        User,
        AppError,
    >)
        requires
            store_well_formed(old(self)@),
        ensures
            !user_request_valid(req) ==> r is Err && r->Err_0 is Validation,
            user_request_valid(req) && !(actor.role is Admin) ==> r is Err && r->Err_0 is Authorization,
            user_request_valid(req) && actor.role is Admin && email_taken(old(self)@.users, req.email@) ==> r is Err
                && r->Err_0 is BadRequest,
            r is Ok ==> user_request_valid(req) && actor.role is Admin && !email_taken(old(self)@.users, req.email@),
            r is Ok ==> r->Ok_0 == enrolled_user(old(self)@, req, UserRole::PropertyOwner, r->Ok_0.password_hash, now),
            r is Ok ==> final(self)@ == (StoreView { users: old(self)@.users.push(r->Ok_0), ..old(self)@ }),
            r is Err ==> final(self)@ == old(self)@,
            user_request_valid(req) && actor.role is Admin && !email_taken(old(self)@.users, req.email@) ==> r is Ok
                || r->Err_0 is Bcrypt,
            store_well_formed(final(self)@),
    {
        if !req.is_valid() {
            return Err(AppError::Validation(String::from_str("Invalid registration details")));
        }
        if authorize(actor, Action::CreatePropertyOwner).is_err() {
            return Err(AppError::Authorization(String::from_str("Only admins can create property owners")));
        }
        self.create_user(req, UserRole::PropertyOwner, now)
    }

    /// Checks a sign-in: the account must exist, the password match its hash,
    /// and the account be active. Returns the account.
    pub fn login(&self, req: &LoginRequest) -> (r: Result<User, AppError>)
        requires
            store_well_formed(self@),
        ensures
            !login_request_valid(*req) ==> r is Err && r->Err_0 is Validation,
            login_request_valid(*req) && !email_taken(self@.users, req.email@) ==> r is Err && r->Err_0 is Authentication,
            r is Ok ==> login_request_valid(*req),
            r is Ok ==> exists|i: int|
                0 <= i < self@.users.len() && self@.users[i] == r->Ok_0 && (#[trigger] self@.users[i]).email@
                    == req.email@,
            r is Ok ==> password_matches(req.password@, r->Ok_0.password_hash@) && r->Ok_0.is_active,
            forall|i: int|
                0 <= i < self@.users.len() && (#[trigger] self@.users[i]).email@ == req.email@ && login_request_valid(
                    *req,
                ) && self@.users[i].is_active && password_matches(req.password@, self@.users[i].password_hash@)
                    ==> r is Ok || r->Err_0 is Bcrypt,
    {
        if !req.is_valid() {
            return Err(AppError::Validation(String::from_str("Invalid sign-in details")));
        }
        let user = match self.get_user_by_email(&req.email) {
            Some(u) => u,
            None => return Err(AppError::Authentication(String::from_str("Invalid email or password"))),
        };
        let matches = match verify_password(req.password.as_str(), user.password_hash.as_str()) {
            Ok(b) => b,
            Err(e) => return Err(e),
        };
        if !matches {
            return Err(AppError::Authentication(String::from_str("Invalid email or password")));
        }
        if !user.is_active {
            return Err(AppError::Authentication(String::from_str("Account is deactivated")));
        }
        Ok(user.duplicate())
    }
}

} // verus!
