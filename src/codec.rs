use vstd::prelude::*;
use vstd::string::{StrSliceExecFns, StringExecFns};

use crate::error::AppError;
use crate::models::{BookingStatus, PropertyType, UserRole};

verus! {

/// Whether two texts are equal, character by character.
pub fn same_text(a: &str, b: &str) -> (r: bool)
    ensures
        r == (a@ == b@),
{
    let n = a.unicode_len();
    if n != b.unicode_len() {
        return false;
    }
    let mut i: usize = 0;
    while i < n
        invariant
            n == a@.len(),
            n == b@.len(),
            i <= n,
            forall|k: int| 0 <= k < i ==> a@[k] == b@[k],
        decreases n - i,
    {
        if a.get_char(i) != b.get_char(i) {
            return false;
        }
        i = i + 1;
    }
    assert(a@ =~= b@);
    true
}

/// How the database spells each role.
pub open spec fn role_text(r: UserRole) -> Seq<char> {
    match r {
        UserRole::User => "user"@,
        UserRole::PropertyOwner => "property_owner"@,
        UserRole::Admin => "admin"@,
    }
}

/// How the database spells each kind of property.
pub open spec fn property_type_text(t: PropertyType) -> Seq<char> {
    match t {
        PropertyType::Hotel => "hotel"@,
        PropertyType::Hostel => "hostel"@,
        PropertyType::Apartment => "apartment"@,
    }
}

/// How the database spells each booking status.
pub open spec fn status_text(s: BookingStatus) -> Seq<char> {
    match s {
        BookingStatus::Pending => "pending"@,
        BookingStatus::Approved => "approved"@,
        BookingStatus::Denied => "denied"@,
        BookingStatus::Cancelled => "cancelled"@,
        BookingStatus::Completed => "completed"@,
    }
}

/// Distinct roles, kinds and statuses are spelled differently, so reading back
/// what was written gives the value written.
pub proof fn lemma_spellings_distinct()
    ensures
        forall|a: UserRole, b: UserRole| role_text(a) == role_text(b) ==> a == b,
        forall|a: PropertyType, b: PropertyType| property_type_text(a) == property_type_text(b) ==> a == b,
        forall|a: BookingStatus, b: BookingStatus| status_text(a) == status_text(b) ==> a == b,
{
    reveal_strlit("user");
    reveal_strlit("property_owner");
    reveal_strlit("admin");
    reveal_strlit("hotel");
    reveal_strlit("hostel");
    reveal_strlit("apartment");
    reveal_strlit("pending");
    reveal_strlit("approved");
    reveal_strlit("denied");
    reveal_strlit("cancelled");
    reveal_strlit("completed");
    assert forall|a: UserRole, b: UserRole| role_text(a) == role_text(b) implies a == b by {
        if role_text(a) == role_text(b) && a != b {
            assert(role_text(a).len() != role_text(b).len() || role_text(a)[0] != role_text(b)[0]);
        }
    }
    assert forall|a: PropertyType, b: PropertyType| property_type_text(a) == property_type_text(b) implies a
        == b by {
        if property_type_text(a) == property_type_text(b) && a != b {
            assert(property_type_text(a).len() != property_type_text(b).len());
        }
    }
    assert forall|a: BookingStatus, b: BookingStatus| status_text(a) == status_text(b) implies a == b by {
        if status_text(a) == status_text(b) && a != b {
            assert(status_text(a).len() != status_text(b).len() || status_text(a)[1] != status_text(b)[1]);
        }
    }
}

impl UserRole {
    pub fn as_db_str(&self) -> (r: &'static str)
        ensures
            r@ == role_text(*self),
    {
        match self {
            UserRole::User => "user",
            UserRole::PropertyOwner => "property_owner",
            UserRole::Admin => "admin",
        }
    }

    /// The role the database text names; `Internal` for any other text.
    pub fn from_db_str(s: &str) -> (r: Result<UserRole, AppError>)
        ensures
            r is Ok <==> exists|x: UserRole| role_text(x) == s@,
            r is Ok ==> role_text(r->Ok_0) == s@,
            r is Err ==> r->Err_0 is Internal,
    {
        if same_text(s, "user") {
            assert(role_text(UserRole::User) == s@);
            Ok(UserRole::User)
        } else if same_text(s, "property_owner") {
            assert(role_text(UserRole::PropertyOwner) == s@);
            Ok(UserRole::PropertyOwner)
        } else if same_text(s, "admin") {
            assert(role_text(UserRole::Admin) == s@);
            Ok(UserRole::Admin)
        } else {
            assert forall|x: UserRole| role_text(x) != s@ by {
                match x {
                    UserRole::User => {},
                    UserRole::PropertyOwner => {},
                    UserRole::Admin => {},
                }
            }
            Err(AppError::Internal(String::from_str("Invalid user role")))
        }
    }
}

impl PropertyType {
    pub fn as_db_str(&self) -> (r: &'static str)
        ensures
            r@ == property_type_text(*self),
    {
        match self {
            PropertyType::Hotel => "hotel",
            PropertyType::Hostel => "hostel",
            PropertyType::Apartment => "apartment",
        }
    }

    /// The kind the database text names; `Internal` for any other text.
    pub fn from_db_str(s: &str) -> (r: Result<PropertyType, AppError>)
        ensures
            r is Ok <==> exists|x: PropertyType| property_type_text(x) == s@,
            r is Ok ==> property_type_text(r->Ok_0) == s@,
            r is Err ==> r->Err_0 is Internal,
    {
        if same_text(s, "hotel") {
            assert(property_type_text(PropertyType::Hotel) == s@);
            Ok(PropertyType::Hotel)
        } else if same_text(s, "hostel") {
            assert(property_type_text(PropertyType::Hostel) == s@);
            Ok(PropertyType::Hostel)
        } else if same_text(s, "apartment") {
            assert(property_type_text(PropertyType::Apartment) == s@);
            Ok(PropertyType::Apartment)
        } else {
            assert forall|x: PropertyType| property_type_text(x) != s@ by {
                match x {
                    PropertyType::Hotel => {},
                    PropertyType::Hostel => {},
                    PropertyType::Apartment => {},
                }
            }
            Err(AppError::Internal(String::from_str("Invalid property type")))
        }
    }
}

impl BookingStatus {
    pub fn as_db_str(&self) -> (r: &'static str)
        ensures
            r@ == status_text(*self),
    {
        match self {
            BookingStatus::Pending => "pending",
            BookingStatus::Approved => "approved",
            BookingStatus::Denied => "denied",
            BookingStatus::Cancelled => "cancelled",
            BookingStatus::Completed => "completed",
        }
    }

    /// The status the database text names; `Internal` for any other text.
    pub fn from_db_str(s: &str) -> (r: Result<BookingStatus, AppError>)
        ensures
            r is Ok <==> exists|x: BookingStatus| status_text(x) == s@,
            r is Ok ==> status_text(r->Ok_0) == s@,
            r is Err ==> r->Err_0 is Internal,
    {
        if same_text(s, "pending") {
            assert(status_text(BookingStatus::Pending) == s@);
            Ok(BookingStatus::Pending)
        } else if same_text(s, "approved") {
            assert(status_text(BookingStatus::Approved) == s@);
            Ok(BookingStatus::Approved)
        } else if same_text(s, "denied") {
            assert(status_text(BookingStatus::Denied) == s@);
            Ok(BookingStatus::Denied)
        } else if same_text(s, "cancelled") {
            assert(status_text(BookingStatus::Cancelled) == s@);
            Ok(BookingStatus::Cancelled)
        } else if same_text(s, "completed") {
            assert(status_text(BookingStatus::Completed) == s@);
            Ok(BookingStatus::Completed)
        } else {
            assert forall|x: BookingStatus| status_text(x) != s@ by {
                match x {
                    BookingStatus::Pending => {},
                    BookingStatus::Approved => {},
                    BookingStatus::Denied => {},
                    BookingStatus::Cancelled => {},
                    BookingStatus::Completed => {},
                }
            }
            Err(AppError::Internal(String::from_str("Invalid booking status")))
        }
    }
}

} // verus!
