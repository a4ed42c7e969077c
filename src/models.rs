use vstd::prelude::*;

use crate::calendar::Date;

verus! {

/// The role of an account. `User` is a guest who books stays.
#[derive(Clone, Copy, Debug, PartialEq, Eq, Structural)]
pub enum UserRole {
    User,
    PropertyOwner,
    Admin,
}

#[derive(Clone, Copy, Debug, PartialEq, Eq, Structural)]
pub enum PropertyType {
    Hotel,
    Hostel,
    Apartment,
}

#[derive(Clone, Copy, Debug, PartialEq, Eq, Structural)]
pub enum BookingStatus {
    Pending,
    Approved,
    Denied,
    Cancelled,
    Completed,
}

/// A booking in one of these states holds its dates against other requests.
pub open spec fn is_active_status(s: BookingStatus) -> bool {
    s is Pending || s is Approved
}

/// No transition leaves one of these states.
pub open spec fn is_terminal_status(s: BookingStatus) -> bool {
    s is Denied || s is Cancelled || s is Completed
}

impl BookingStatus {
    pub fn is_active(&self) -> (r: bool)
        ensures
            r == is_active_status(*self),
    {
        match self {
            BookingStatus::Pending | BookingStatus::Approved => true,
            _ => false,
        }
    }

    pub fn is_terminal(&self) -> (r: bool)
        ensures
            r == is_terminal_status(*self),
    {
        match self {
            BookingStatus::Denied | BookingStatus::Cancelled | BookingStatus::Completed => true,
            _ => false,
        }
    }
}

/// A registered account. Timestamps are Unix seconds.
#[derive(Clone, Debug)]
pub struct User {
    pub id: u128,
    pub email: String,
    pub password_hash: String,
    pub first_name: String,
    pub last_name: String,
    pub role: UserRole,
    pub is_active: bool,
    pub created_at: i64,
    pub updated_at: i64,
}

/// The identity that an authenticated request acts as.
#[derive(Clone, Debug)]
pub struct AuthUser {
    pub id: u128,
    pub email: String,
    pub role: UserRole,
}

/// A listed property. Prices are in cents per night.
#[derive(Clone, Debug)]
pub struct Property {
    pub id: u128,
    pub owner_id: u128,
    pub title: String,
    pub description: String,
    pub property_type: PropertyType,
    pub location: String,
    pub address: String,
    pub city: String,
    pub country: String,
    pub postal_code: String,
    pub price_per_night: i32,
    pub max_guests: i32,
    pub bedrooms: i32,
    pub bathrooms: i32,
    pub amenities: Vec<String>,
    pub images: Vec<String>,
    pub is_active: bool,
    pub created_at: i64,
    pub updated_at: i64,
}

/// A stay at a property over `[check_in_date, check_out_date)`; the total price
/// is in cents.
#[derive(Clone, Debug)]
pub struct Booking {
    pub id: u128,
    pub property_id: u128,
    pub user_id: u128,
    pub check_in_date: Date,
    pub check_out_date: Date,
    pub total_price: i64,
    pub status: BookingStatus,
    pub guest_count: i32,
    pub special_requests: Option<String>,
    pub created_at: i64,
    pub updated_at: i64,
}

/// A sign-up form.
#[derive(Clone, Debug)]
pub struct CreateUserRequest {
    pub email: String,
    pub password: String,
    pub first_name: String,
    pub last_name: String,
}

/// A sign-in form.
#[derive(Clone, Debug)]
pub struct LoginRequest {
    pub email: String,
    pub password: String,
}

/// The fields of a new listing, as its owner submits them.
#[derive(Clone, Debug)]
pub struct CreatePropertyRequest {
    pub title: String,
    pub description: String,
    pub property_type: PropertyType,
    pub location: String,
    pub address: String,
    pub city: String,
    pub country: String,
    pub postal_code: String,
    pub price_per_night: i32,
    pub max_guests: i32,
    pub bedrooms: i32,
    pub bathrooms: i32,
    pub amenities: Vec<String>,
    pub images: Vec<String>,
}

/// Every text field is filled in and every count and the rate are at least one.
pub open spec fn property_request_valid(r: CreatePropertyRequest) -> bool {
    &&& r.title@.len() >= 1
    &&& r.description@.len() >= 1
    &&& r.location@.len() >= 1
    &&& r.address@.len() >= 1
    &&& r.city@.len() >= 1
    &&& r.country@.len() >= 1
    &&& r.postal_code@.len() >= 1
    &&& r.price_per_night >= 1
    &&& r.max_guests >= 1
    &&& r.bedrooms >= 1
    &&& r.bathrooms >= 1
}

impl CreatePropertyRequest {
    pub fn is_valid(&self) -> (r: bool)
        ensures
            r == property_request_valid(*self),
    {
        !self.title.as_str().is_empty() && !self.description.as_str().is_empty()
            && !self.location.as_str().is_empty() && !self.address.as_str().is_empty()
            && !self.city.as_str().is_empty() && !self.country.as_str().is_empty()
            && !self.postal_code.as_str().is_empty() && self.price_per_night >= 1
            && self.max_guests >= 1 && self.bedrooms >= 1 && self.bathrooms >= 1
    }
}

pub fn copy_text(s: &Option<String>) -> (r: Option<String>)
    ensures
        r == *s,
{
    match s {
        Some(t) => Some(t.clone()),
        None => None,
    }
}

pub fn copy_strings(v: &Vec<String>) -> (r: Vec<String>)
    ensures
        r@ == v@,
{
    let mut out: Vec<String> = Vec::new();
    let mut i: usize = 0;
    while i < v.len()
        invariant
            i <= v.len(),
            out@ == v@.subrange(0, i as int),
        decreases v.len() - i,
    {
        out.push(v[i].clone());
        i = i + 1;
    }
    out
}

impl User {
    /// A field-by-field copy.
    pub fn duplicate(&self) -> (r: User)
        ensures
            r == *self,
    {
        User {
            id: self.id,
            email: self.email.clone(),
            password_hash: self.password_hash.clone(),
            first_name: self.first_name.clone(),
            last_name: self.last_name.clone(),
            role: self.role,
            is_active: self.is_active,
            created_at: self.created_at,
            updated_at: self.updated_at,
        }
    }

    /// The identity this account acts as once signed in.
    pub fn auth_user(&self) -> (r: AuthUser)
        ensures
            r.id == self.id,
            r.email == self.email,
            r.role == self.role,
    {
        AuthUser { id: self.id, email: self.email.clone(), role: self.role }
    }
}

impl Booking {
    /// A field-by-field copy.
    pub fn duplicate(&self) -> (r: Booking)
        ensures
            r == *self,
    {
        Booking {
            id: self.id,
            property_id: self.property_id,
            user_id: self.user_id,
            check_in_date: self.check_in_date,
            check_out_date: self.check_out_date,
            total_price: self.total_price,
            status: self.status,
            guest_count: self.guest_count,
            special_requests: copy_text(&self.special_requests),
            created_at: self.created_at,
            updated_at: self.updated_at,
        }
    }
}

/// The two properties hold the same values; their lists are compared by contents.
pub open spec fn same_property(a: Property, b: Property) -> bool {
    &&& a.id == b.id
    &&& a.owner_id == b.owner_id
    &&& a.title == b.title
    &&& a.description == b.description
    &&& a.property_type == b.property_type
    &&& a.location == b.location
    &&& a.address == b.address
    &&& a.city == b.city
    &&& a.country == b.country
    &&& a.postal_code == b.postal_code
    &&& a.price_per_night == b.price_per_night
    &&& a.max_guests == b.max_guests
    &&& a.bedrooms == b.bedrooms
    &&& a.bathrooms == b.bathrooms
    &&& a.amenities@ == b.amenities@
    &&& a.images@ == b.images@
    &&& a.is_active == b.is_active
    &&& a.created_at == b.created_at
    &&& a.updated_at == b.updated_at
}

impl Property {
    /// A field-by-field copy.
    pub fn duplicate(&self) -> (r: Property)
        ensures
            same_property(r, *self),
    {
        Property {
            id: self.id,
            owner_id: self.owner_id,
            title: self.title.clone(),
            description: self.description.clone(),
            property_type: self.property_type,
            location: self.location.clone(),
            address: self.address.clone(),
            city: self.city.clone(),
            country: self.country.clone(),
            postal_code: self.postal_code.clone(),
            price_per_night: self.price_per_night,
            max_guests: self.max_guests,
            bedrooms: self.bedrooms,
            bathrooms: self.bathrooms,
            amenities: copy_strings(&self.amenities),
            images: copy_strings(&self.images),
            is_active: self.is_active,
            created_at: self.created_at,
            updated_at: self.updated_at,
        }
    }
}

} // verus!
