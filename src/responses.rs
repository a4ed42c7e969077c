use vstd::prelude::*;
use vstd::string::StringExecFns;

use crate::calendar::Date;
use crate::error::AppError;
use crate::listing::{active_properties_from, bookings_of_user_from, page_bounds, same_properties};
use crate::models::{
    copy_strings, copy_text, same_property, AuthUser, Booking, BookingStatus, Property, PropertyType, User,
    UserRole,
};
use crate::paging::{page_params, pages_for, PaginatedResponse, DEFAULT_PER_PAGE};
use crate::store::{property_of, store_well_formed, Store, StoreView};

verus! {

/// The public face of an account.
#[derive(Clone, Debug)]
pub struct UserResponse {
    pub id: u128,
    pub email: String,
    pub first_name: String,
    pub last_name: String,
    pub role: UserRole,
}

/// A property as listed, with its owner.
#[derive(Clone, Debug)]
pub struct PropertyResponse {
    pub id: u128,
    pub title: String,
    pub description: String,
    pub property_type: PropertyType,
    pub location: String,
    pub address: String,
    pub city: String,
    pub country: String,
    pub price_per_night: i32,
    pub max_guests: i32,
    pub bedrooms: i32,
    pub bathrooms: i32,
    pub amenities: Vec<String>,
    pub images: Vec<String>,
    pub owner: UserResponse,
}

/// A booking with the property and the guest it concerns.
#[derive(Clone, Debug)]
pub struct BookingResponse {
    pub id: u128,
    pub property: PropertyResponse,
    pub user: UserResponse,
    pub check_in_date: Date,
    pub check_out_date: Date,
    pub total_price: i64,
    pub status: BookingStatus,
    pub guest_count: i32,
    pub special_requests: Option<String>,
    pub created_at: i64,
}

pub open spec fn shows_user(r: UserResponse, u: User) -> bool {
    r.id == u.id && r.email == u.email && r.first_name == u.first_name && r.last_name == u.last_name && r.role
        == u.role
}

/// `r` lists property `p` with owner `owner`.
pub open spec fn shows_property(r: PropertyResponse, p: Property, owner: User) -> bool {
    &&& r.id == p.id
    &&& r.title == p.title
    &&& r.description == p.description
    &&& r.property_type == p.property_type
    &&& r.location == p.location
    &&& r.address == p.address
    &&& r.city == p.city
    &&& r.country == p.country
    &&& r.price_per_night == p.price_per_night
    &&& r.max_guests == p.max_guests
    &&& r.bedrooms == p.bedrooms
    &&& r.bathrooms == p.bathrooms
    &&& r.amenities@ == p.amenities@
    &&& r.images@ == p.images@
    &&& shows_user(r.owner, owner)
}

/// The owner of `p` is a stored account.
pub open spec fn has_owner(users: Seq<User>, p: Property) -> bool {
    1 <= p.owner_id <= users.len()
}

pub open spec fn owner_of(users: Seq<User>, p: Property) -> User {
    users[p.owner_id - 1]
}

/// The page number a query asks for: 1 when it names none.
pub open spec fn page_asked(page: Option<i64>) -> i64 {
    match page {
        Some(x) => x,
        None => 1,
    }
}

/// The page size a query asks for: ten when it names none.
pub open spec fn size_asked(per_page: Option<i64>) -> i64 {
    match per_page {
        Some(x) => x,
        None => DEFAULT_PER_PAGE,
    }
}

/// Page `page` of `per_page` active properties, newest first.
pub open spec fn active_page(v: StoreView, page: int, per_page: int) -> Seq<Property> {
    let all = active_properties_from(v.properties, 0);
    all.subrange(page_bounds(page, per_page, all.len() as int).0, page_bounds(page, per_page, all.len() as int).1)
}

pub open spec fn all_have_owners(users: Seq<User>, ps: Seq<Property>) -> bool {
    forall|k: int| 0 <= k < ps.len() ==> has_owner(users, #[trigger] ps[k])
}

/// `rs` lists the properties `ps`, in order, each with its owner.
pub open spec fn shows_properties(users: Seq<User>, rs: Seq<PropertyResponse>, ps: Seq<Property>) -> bool {
    rs.len() == ps.len() && forall|k: int| 0 <= k < ps.len() ==> shows_property(#[trigger] rs[k], ps[k], owner_of(users, ps[k]))
}

/// The guest as a booking list shows them: the signed-in identity, without names.
pub open spec fn shows_actor(r: UserResponse, a: AuthUser) -> bool {
    r.id == a.id && r.email == a.email && r.first_name@.len() == 0 && r.last_name@.len() == 0 && r.role == a.role
}

/// The active property that booking `b` refers to, with a stored owner.
pub open spec fn booking_listable(v: StoreView, b: Booking) -> bool {
    let p = property_of(v, b.property_id);
    p is Some && p->0.is_active && has_owner(v.users, p->0)
}

/// `r` shows booking `b` of guest `a`, with its property and owner.
pub open spec fn shows_booking(v: StoreView, r: BookingResponse, b: Booking, a: AuthUser) -> bool {
    let p = property_of(v, b.property_id)->0;
    &&& r.id == b.id
    &&& shows_property(r.property, p, owner_of(v.users, p))
    &&& shows_actor(r.user, a)
    &&& r.check_in_date == b.check_in_date
    &&& r.check_out_date == b.check_out_date
    &&& r.total_price == b.total_price
    &&& r.status == b.status
    &&& r.guest_count == b.guest_count
    &&& r.special_requests == b.special_requests
    &&& r.created_at == b.created_at
}

impl UserResponse {
    pub fn from_user(u: &User) -> (r: UserResponse)
        ensures
            shows_user(r, *u),
    {
        UserResponse {
            id: u.id,
            email: u.email.clone(),
            first_name: u.first_name.clone(),
            last_name: u.last_name.clone(),
            role: u.role,
        }
    }
}

impl Store {
    /// Property `p` as listed, with its owner; `NotFound` when the owner's
    /// account is missing.
    pub fn property_response(&self, p: &Property) -> (r: Result<PropertyResponse, AppError>)
        requires
            store_well_formed(self@),
        ensures
            r is Ok <==> has_owner(self@.users, *p),
            r is Ok ==> shows_property(r->Ok_0, *p, owner_of(self@.users, *p)),
            r is Err ==> r->Err_0 is NotFound,
    {
        let owner = match self.get_user_by_id(p.owner_id) {
            Some(u) => UserResponse::from_user(u),
            None => return Err(AppError::NotFound(String::from_str("Owner not found"))),
        };
        Ok(
            PropertyResponse {
                id: p.id,
                title: p.title.clone(),
                description: p.description.clone(),
                property_type: p.property_type,
                location: p.location.clone(),
                address: p.address.clone(),
                city: p.city.clone(),
                country: p.country.clone(),
                price_per_night: p.price_per_night,
                max_guests: p.max_guests,
                bedrooms: p.bedrooms,
                bathrooms: p.bathrooms,
                amenities: copy_strings(&p.amenities),
                images: copy_strings(&p.images),
                owner,
            },
        )
    }

    /// The active property `id` as listed; `NotFound` when it or its owner is missing.
    pub fn get_property(&self, id: u128) -> (r: Result<PropertyResponse, AppError>)
        requires
            store_well_formed(self@),
        ensures
            ({
                let p = property_of(self@, id);
                if p is Some && p->0.is_active && has_owner(self@.users, p->0) {
                    r is Ok && shows_property(r->Ok_0, p->0, owner_of(self@.users, p->0))
                } else {
                    r is Err && r->Err_0 is NotFound
                }
            }),
    {
        match self.get_property_by_id(id) {
            Some(p) => self.property_response(p),
            None => Err(AppError::NotFound(String::from_str("Property not found"))),
        }
    }

    /// A page of the active properties, newest first, each with its owner.
    /// Pages start at 1 and hold ten properties unless the query says otherwise.
    pub fn list_properties(&self, page: Option<i64>, per_page: Option<i64>) -> (r: Result<
        PaginatedResponse<PropertyResponse>,
        AppError,
    >)
        requires
            store_well_formed(self@),
        ensures
            !(page_asked(page) >= 1 && size_asked(per_page) >= 1) ==> r is Err && r->Err_0 is Validation,
            r is Ok ==> r->Ok_0.total == active_properties_from(self@.properties, 0).len(),
            r is Ok ==> r->Ok_0.page == page_asked(page) && r->Ok_0.per_page == size_asked(per_page),
            r is Ok ==> r->Ok_0.total_pages == pages_for(
                active_properties_from(self@.properties, 0).len() as int,
                size_asked(per_page) as int,
            ),
            r is Ok ==> shows_properties(
                self@.users,
                r->Ok_0.data@,
                active_page(self@, page_asked(page) as int, size_asked(per_page) as int),
            ),
            page_asked(page) >= 1 && size_asked(per_page) >= 1 && active_properties_from(self@.properties, 0).len()
                <= i64::MAX && all_have_owners(
                self@.users,
                active_page(self@, page_asked(page) as int, size_asked(per_page) as int),
            ) ==> r is Ok,
            r is Err ==> r->Err_0 is Validation || r->Err_0 is NotFound || r->Err_0 is Internal,
    {
        let (p, n) = match page_params(page, per_page) {
            Ok(x) => x,
            Err(e) => return Err(e),
        };
        let (props, total) = self.get_properties_with_filters(p as u64, n as u64);
        if total > i64::MAX as u64 {
            return Err(AppError::Internal(String::from_str("Too many properties to count")));
        }
        let ghost shown = active_page(self@, p as int, n as int);
        let mut data: Vec<PropertyResponse> = Vec::new();
        let mut i: usize = 0;
        while i < props.len()
            invariant
                i <= props.len(),
                p == page_asked(page) && p >= 1,
                n == size_asked(per_page) && n >= 1,
                shown == active_page(self@, p as int, n as int),
                same_properties(props@, shown),
                store_well_formed(self@),
                data@.len() == i,
                forall|k: int|
                    0 <= k < i ==> shows_property(#[trigger] data@[k], shown[k], owner_of(self@.users, shown[k])),
            decreases props.len() - i,
        {
            let resp = match self.property_response(&props[i]) {
                Ok(x) => x,
                Err(e) => {
                    proof {
                        assert(same_property(props@[i as int], shown[i as int]));
                        assert(!has_owner(self@.users, shown[i as int]));
                    }
                    return Err(e);
                },
            };
            data.push(resp);
            i = i + 1;
        }
        Ok(PaginatedResponse::new(data, total as i64, p, n))
    }

    /// The bookings of `actor`, newest first, each with its property and the
    /// property's owner; `NotFound` when one of those is missing or inactive.
    pub fn my_bookings(&self, actor: &AuthUser) -> (r: Result<Vec<BookingResponse>, AppError>)
        requires
            store_well_formed(self@),
        ensures
            ({
                let bs = bookings_of_user_from(self@.bookings, actor.id, 0);
                &&& r is Ok <==> forall|k: int| 0 <= k < bs.len() ==> booking_listable(self@, #[trigger] bs[k])
                &&& r is Ok ==> r->Ok_0@.len() == bs.len() && forall|k: int|
                    0 <= k < bs.len() ==> shows_booking(self@, #[trigger] r->Ok_0@[k], bs[k], *actor)
                &&& r is Err ==> r->Err_0 is NotFound
            }),
    {
        let bookings = self.get_bookings_by_user(actor.id);
        let ghost bs = bookings_of_user_from(self@.bookings, actor.id, 0);
        let mut out: Vec<BookingResponse> = Vec::new();
        let mut i: usize = 0;
        while i < bookings.len()
            invariant
                i <= bookings.len(),
                bookings@ == bs,
                bs == bookings_of_user_from(self@.bookings, actor.id, 0),
                store_well_formed(self@),
                out@.len() == i,
                forall|k: int| 0 <= k < i ==> booking_listable(self@, #[trigger] bs[k]),
                forall|k: int| 0 <= k < i ==> shows_booking(self@, #[trigger] out@[k], bs[k], *actor),
            decreases bookings.len() - i,
        {
            let b = &bookings[i];
            let property = match self.get_property_by_id(b.property_id) {
                Some(p) => match self.property_response(p) {
                    Ok(resp) => resp,
                    Err(e) => return Err(e),
                },
                None => return Err(AppError::NotFound(String::from_str("Property not found"))),
            };
            let user = UserResponse {
                id: actor.id,
                email: actor.email.clone(),
                first_name: String::new(),
                last_name: String::new(),
                role: actor.role,
            };
            out.push(
                BookingResponse {
                    id: b.id,
                    property,
                    user,
                    check_in_date: b.check_in_date,
                    check_out_date: b.check_out_date,
                    total_price: b.total_price,
                    status: b.status,
                    guest_count: b.guest_count,
                    special_requests: copy_text(&b.special_requests),
                    created_at: b.created_at,
                },
            );
            i = i + 1;
        }
        Ok(out)
    }
}

} // verus!
