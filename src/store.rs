use vstd::prelude::*;

use crate::availability::{check_property_availability, is_free, ranges_overlap};
use crate::calendar::Date;
use crate::error::BookingError;
use crate::laws::{lemma_request_keeps_store_well_formed, lemma_status_swap_keeps_store_well_formed};
use crate::lifecycle::{check_transition, transition_allowed};
use crate::models::{
    is_active_status, property_request_valid, same_property, AuthUser, Booking, BookingStatus,
    CreatePropertyRequest, Property, User,
};
use crate::policy::{authorize, permits, Action};
use crate::pricing::{calculate_booking_price, stay_price};

verus! {

/// What a store holds: properties and bookings in order of creation. The
/// record with id `k` sits at position `k - 1`.
pub struct StoreView {
    pub users: Seq<User>,
    pub properties: Seq<Property>,
    pub bookings: Seq<Booking>,
}

/// No two active bookings of one property share a night.
pub open spec fn no_double_booking(bs: Seq<Booking>) -> bool {
    forall|i: int, j: int|
        0 <= i < bs.len() && 0 <= j < bs.len() && i != j && #[trigger] bs[i].property_id
            == #[trigger] bs[j].property_id && is_active_status(bs[i].status) && is_active_status(
            bs[j].status,
        ) ==> !ranges_overlap(
            bs[i].check_in_date.julian_day as int,
            bs[i].check_out_date.julian_day as int,
            bs[j].check_in_date.julian_day as int,
            bs[j].check_out_date.julian_day as int,
        )
}

/// User `i` has id `i + 1`, and no two users share an email address.
pub open spec fn users_well_formed(us: Seq<User>) -> bool {
    &&& forall|i: int| 0 <= i < us.len() ==> (#[trigger] us[i]).id == i + 1
    &&& forall|i: int, j: int|
        0 <= i < us.len() && 0 <= j < us.len() && i != j ==> (#[trigger] us[i]).email@ != (#[trigger] us[j]).email@
}

/// Property `i` has id `i + 1`, a positive nightly rate and room for a guest.
pub open spec fn property_well_formed(p: Property, i: int) -> bool {
    p.id == i + 1 && p.price_per_night > 0 && p.max_guests > 0
}

/// Booking `i` has id `i + 1`, refers to a stored property and spans a night or more.
pub open spec fn booking_well_formed(b: Booking, i: int, n_properties: int) -> bool {
    &&& b.id == i + 1
    &&& 1 <= b.property_id <= n_properties
    &&& b.check_in_date.julian_day < b.check_out_date.julian_day
}

/// The store's invariant: ids follow positions, emails are unique, properties
/// have a positive rate and capacity, bookings refer to stored properties and
/// span a night, and the active bookings of a property never overlap.
pub open spec fn store_well_formed(v: StoreView) -> bool {
    &&& users_well_formed(v.users)
    &&& forall|i: int| 0 <= i < v.properties.len() ==> property_well_formed(#[trigger] v.properties[i], i)
    &&& forall|i: int|
        0 <= i < v.bookings.len() ==> booking_well_formed(#[trigger] v.bookings[i], i, v.properties.len() as int)
    &&& no_double_booking(v.bookings)
}

/// The property with id `id`, active or not.
pub open spec fn property_of(v: StoreView, id: u128) -> Option<Property> {
    if 1 <= id <= v.properties.len() {
        Some(v.properties[id - 1])
    } else {
        None
    }
}

/// The booking with id `id`.
pub open spec fn booking_of(v: StoreView, id: u128) -> Option<Booking> {
    if 1 <= id <= v.bookings.len() {
        Some(v.bookings[id - 1])
    } else {
        None
    }
}

/// The outcome of a booking request: the property must exist and be active, the
/// actor must be allowed to book, the stay must span a night and the guests fit,
/// the dates must be free; the new booking is then Pending at the flat price.
pub open spec fn request_result(
    v: StoreView,
    actor: AuthUser,
    property_id: u128,
    check_in: Date,
    check_out: Date,
    guest_count: i32,
    special_requests: Option<String>,
    now: i64,
) -> Result<Booking, BookingError> {
    match property_of(v, property_id) {
        None => Err(BookingError::NotFound),
        Some(p) => if !p.is_active {
            Err(BookingError::NotFound)
        } else if !permits(actor.id, actor.role, Action::CreateBooking) {
            Err(BookingError::AuthorizationDenied)
        } else if check_out.julian_day <= check_in.julian_day || guest_count < 1 || guest_count
            > p.max_guests {
            Err(BookingError::InvalidRequest)
        } else if !is_free(v.bookings, property_id, check_in, check_out) {
            Err(BookingError::Conflict)
        } else {
            Ok(
                Booking {
                    id: (v.bookings.len() + 1) as u128,
                    property_id,
                    user_id: actor.id,
                    check_in_date: check_in,
                    check_out_date: check_out,
                    total_price: stay_price(p.price_per_night as int, check_in, check_out) as i64,
                    status: BookingStatus::Pending,
                    guest_count,
                    special_requests,
                    created_at: now,
                    updated_at: now,
                },
            )
        },
    }
}

/// The store after a request: a created booking is appended.
pub open spec fn after_request(v: StoreView, r: Result<Booking, BookingError>) -> StoreView {
    match r {
        Ok(b) => StoreView { bookings: v.bookings.push(b), ..v },
        Err(_) => v,
    }
}

/// The rule that authorizes moving a booking of `requester` at a property of
/// `owner` into `target`: approval and denial are the owner's decision,
/// cancellation the requester's or the owner's; no user triggers the others.
pub open spec fn transition_action(target: BookingStatus, requester: u128, owner: u128) -> Action {
    match target {
        BookingStatus::Approved => Action::DecideBooking { property_owner: owner },
        BookingStatus::Denied => Action::DecideBooking { property_owner: owner },
        BookingStatus::Cancelled => Action::CancelBooking { requester, property_owner: owner },
        _ => Action::SystemTransition,
    }
}

/// The outcome of a transition request: the booking and its property must
/// exist, the actor must be authorized for the target, and the lifecycle must
/// allow the step; the booking then takes the target status.
pub open spec fn transition_result(
    v: StoreView,
    actor: AuthUser,
    booking_id: u128,
    target: BookingStatus,
    now: i64,
) -> Result<Booking, BookingError> {
    match booking_of(v, booking_id) {
        None => Err(BookingError::NotFound),
        Some(b) => match property_of(v, b.property_id) {
            None => Err(BookingError::NotFound),
            Some(p) => if !permits(actor.id, actor.role, transition_action(target, b.user_id, p.owner_id)) {
                Err(BookingError::AuthorizationDenied)
            } else if !transition_allowed(b.status, target) {
                Err(BookingError::InvalidTransition { current: b.status, target })
            } else {
                Ok(Booking { status: target, updated_at: now, ..b })
            },
        },
    }
}

/// The store after a transition: the changed booking replaces the old one.
pub open spec fn after_transition(v: StoreView, r: Result<Booking, BookingError>) -> StoreView {
    match r {
        Ok(b) => StoreView { bookings: v.bookings.update(b.id - 1, b), ..v },
        Err(_) => v,
    }
}

/// The outcome of a compare-and-swap on a booking's status: it applies only
/// while the booking still has the `expected` status.
pub open spec fn status_swap_result(
    v: StoreView,
    booking_id: u128,
    expected: BookingStatus,
    status: BookingStatus,
    now: i64,
) -> Result<Booking, BookingError> {
    match booking_of(v, booking_id) {
        None => Err(BookingError::NotFound),
        Some(b) => if b.status != expected {
            Err(BookingError::Conflict)
        } else {
            Ok(Booking { status, updated_at: now, ..b })
        },
    }
}

/// The listing that `actor` creates from `req`, or why it is refused.
pub open spec fn create_property_result(
    v: StoreView,
    actor: AuthUser,
    req: CreatePropertyRequest,
    now: i64,
) -> Result<Property, BookingError> {
    if !permits(actor.id, actor.role, Action::ManageProperty) {
        Err(BookingError::AuthorizationDenied)
    } else if !property_request_valid(req) {
        Err(BookingError::InvalidRequest)
    } else {
        Ok(
            Property {
                id: (v.properties.len() + 1) as u128,
                owner_id: actor.id,
                title: req.title,
                description: req.description,
                property_type: req.property_type,
                location: req.location,
                address: req.address,
                city: req.city,
                country: req.country,
                postal_code: req.postal_code,
                price_per_night: req.price_per_night,
                max_guests: req.max_guests,
                bedrooms: req.bedrooms,
                bathrooms: req.bathrooms,
                amenities: req.amenities,
                images: req.images,
                is_active: true,
                created_at: now,
                updated_at: now,
            },
        )
    }
}

/// An in-memory store of properties and bookings. Every change goes through
/// `&mut self`, so each availability check and the insert that follows it form
/// one step, as do the read and write of a status change.
pub struct Store {
    users: Vec<User>,
    properties: Vec<Property>,
    bookings: Vec<Booking>,
}

impl View for Store {
    type V = StoreView;

    closed spec fn view(&self) -> StoreView {
        StoreView { users: self.users@, properties: self.properties@, bookings: self.bookings@ }
    }
}

impl Store {
    pub fn new() -> (r: Store)
        ensures
            r@.users.len() == 0,
            r@.properties.len() == 0,
            r@.bookings.len() == 0,
            store_well_formed(r@),
    {
        Store { users: Vec::new(), properties: Vec::new(), bookings: Vec::new() }
    }

    pub(crate) fn bookings_ref(&self) -> (r: &Vec<Booking>)
        ensures
            r@ == self@.bookings,
    {
        &self.bookings
    }

    pub(crate) fn users_ref(&self) -> (r: &Vec<User>)
        ensures
            r@ == self@.users,
    {
        &self.users
    }

    /// Appends `u`, which takes the next id and an unused email address.
    pub(crate) fn push_user(&mut self, u: User)
        requires
            store_well_formed(old(self)@),
            u.id == old(self)@.users.len() + 1,
            forall|i: int| 0 <= i < old(self)@.users.len() ==> (#[trigger] old(self)@.users[i]).email@ != u.email@,
        ensures
            final(self)@ == (StoreView { users: old(self)@.users.push(u), ..old(self)@ }),
            store_well_formed(final(self)@),
    {
        self.users.push(u);
        proof {
            let us = self@.users;
            let n = us.len() - 1;
            assert forall|i: int, j: int|
                0 <= i < us.len() && 0 <= j < us.len() && i != j implies (#[trigger] us[i]).email@ != (
            #[trigger] us[j]).email@ by {
                if i == n {
                    assert(us[j] == old(self)@.users[j]);
                } else if j == n {
                    assert(us[i] == old(self)@.users[i]);
                } else {
                    assert(us[i] == old(self)@.users[i]);
                    assert(us[j] == old(self)@.users[j]);
                }
            }
            assert forall|i: int| 0 <= i < us.len() implies (#[trigger] us[i]).id == i + 1 by {
                if i < n {
                    assert(us[i] == old(self)@.users[i]);
                }
            }
        }
    }

    pub(crate) fn properties_ref(&self) -> (r: &Vec<Property>)
        ensures
            r@ == self@.properties,
    {
        &self.properties
    }

    /// The active property with id `id`.
    pub fn get_property_by_id(&self, id: u128) -> (r: Option<&Property>)
        ensures
            r is Some <==> property_of(self@, id) is Some && property_of(self@, id)->0.is_active,
            r is Some ==> *r->0 == property_of(self@, id)->0,
    {
        if id >= 1 && id <= self.properties.len() as u128 {
            let p = &self.properties[(id - 1) as usize];
            if p.is_active {
                Some(p)
            } else {
                None
            }
        } else {
            None
        }
    }

    /// The booking with id `id`.
    pub fn get_booking_by_id(&self, id: u128) -> (r: Option<&Booking>)
        ensures
            r is Some <==> booking_of(self@, id) is Some,
            r is Some ==> *r->0 == booking_of(self@, id)->0,
    {
        if id >= 1 && id <= self.bookings.len() as u128 {
            Some(&self.bookings[(id - 1) as usize])
        } else {
            None
        }
    }

    /// Whether `[check_in, check_out)` is free at `property_id`, for pre-flight checks.
    pub fn is_available(&self, property_id: u128, check_in: Date, check_out: Date) -> (r: bool)
        ensures
            r == is_free(self@.bookings, property_id, check_in, check_out),
    {
        check_property_availability(&self.bookings, property_id, check_in, check_out)
    }

    /// Books `[check_in, check_out)` at `property_id` for `actor`, at `now`.
    pub fn request_booking(
        &mut self,
        actor: &AuthUser,
        property_id: u128,
        check_in: Date,
        check_out: Date,
        guest_count: i32,
        special_requests: Option<String>,
        now: i64,
    ) -> (r: Result<Booking, BookingError>)
        requires
            store_well_formed(old(self)@),
        ensures
            r == request_result(
                old(self)@,
                *actor,
                property_id,
                check_in,
                check_out,
                guest_count,
                special_requests,
                now,
            ),
            final(self)@ == after_request(old(self)@, r),
            store_well_formed(final(self)@),
    {
        let ghost v = self@;
        let p = match self.get_property_by_id(property_id) {
            Some(p) => p,
            None => return Err(BookingError::NotFound),
        };
        match authorize(actor, Action::CreateBooking) {
            Ok(()) => {},
            Err(e) => return Err(e),
        }
        if check_out.julian_day <= check_in.julian_day || guest_count < 1 || guest_count > p.max_guests {
            return Err(BookingError::InvalidRequest);
        }
        let rate = p.price_per_night;
        if !self.is_available(property_id, check_in, check_out) {
            return Err(BookingError::Conflict);
        }
        let total_price = match calculate_booking_price(rate, check_in, check_out) {
            Ok(t) => t,
            Err(e) => return Err(e),
        };
        let booking = Booking {
            id: self.bookings.len() as u128 + 1,
            property_id,
            user_id: actor.id,
            check_in_date: check_in,
            check_out_date: check_out,
            total_price,
            status: BookingStatus::Pending,
            guest_count,
            special_requests,
            created_at: now,
            updated_at: now,
        };
        let created = booking.duplicate();
        self.bookings.push(booking);
        proof {
            lemma_request_keeps_store_well_formed(
                v,
                *actor,
                property_id,
                check_in,
                check_out,
                guest_count,
                created.special_requests,
                now,
            );
        }
        Ok(created)
    }

    /// Sets the status of booking `id` to `status` if it is still `expected`,
    /// else `Conflict`.
    fn update_booking_status(&mut self, id: u128, expected: BookingStatus, status: BookingStatus, now: i64) -> (r:
        Result<Booking, BookingError>)
        requires
            store_well_formed(old(self)@),
            transition_allowed(expected, status),
        ensures
            r == status_swap_result(old(self)@, id, expected, status, now),
            final(self)@ == after_transition(old(self)@, r),
            store_well_formed(final(self)@),
    {
        let ghost v = self@;
        if !(id >= 1 && id <= self.bookings.len() as u128) {
            return Err(BookingError::NotFound);
        }
        let k = (id - 1) as usize;
        if self.bookings[k].status != expected {
            return Err(BookingError::Conflict);
        }
        let mut b = self.bookings[k].duplicate();
        b.status = status;
        b.updated_at = now;
        let changed = b.duplicate();
        self.bookings.set(k, b);
        proof {
            lemma_status_swap_keeps_store_well_formed(v, id, expected, status, now);
        }
        Ok(changed)
    }

    /// Moves booking `booking_id` to `target` on behalf of `actor`, at `now`.
    pub fn transition_booking(&mut self, actor: &AuthUser, booking_id: u128, target: BookingStatus, now: i64) -> (r:
        Result<Booking, BookingError>)
        requires
            store_well_formed(old(self)@),
        ensures
            r == transition_result(old(self)@, *actor, booking_id, target, now),
            final(self)@ == after_transition(old(self)@, r),
            store_well_formed(final(self)@),
    {
        let (requester, property_id, current) = match self.get_booking_by_id(booking_id) {
            Some(b) => (b.user_id, b.property_id, b.status),
            None => return Err(BookingError::NotFound),
        };
        if !(property_id >= 1 && property_id <= self.properties.len() as u128) {
            return Err(BookingError::NotFound);
        }
        let owner = self.properties[(property_id - 1) as usize].owner_id;
        let action = match target {
            BookingStatus::Approved | BookingStatus::Denied => Action::DecideBooking { property_owner: owner },
            BookingStatus::Cancelled => Action::CancelBooking { requester, property_owner: owner },
            _ => Action::SystemTransition,
        };
        match authorize(actor, action) {
            Ok(()) => {},
            Err(e) => return Err(e),
        }
        let next = match check_transition(current, target) {
            Ok(s) => s,
            Err(e) => return Err(e),
        };
        self.update_booking_status(booking_id, current, next, now)
    }

    /// Lists a new property owned by `actor`, at `now`.
    pub fn create_property(&mut self, actor: &AuthUser, req: CreatePropertyRequest, now: i64) -> (r: Result<
        Property,
        BookingError,
    >)
        requires
            store_well_formed(old(self)@),
        ensures
            r is Err ==> r == create_property_result(old(self)@, *actor, req, now),
            r is Err ==> final(self)@ == old(self)@,
            r is Ok ==> create_property_result(old(self)@, *actor, req, now) is Ok,
            r is Ok ==> same_property(r->Ok_0, create_property_result(old(self)@, *actor, req, now)->Ok_0),
            r is Ok ==> final(self)@ == (StoreView {
                properties: old(self)@.properties.push(create_property_result(old(self)@, *actor, req, now)->Ok_0),
                ..old(self)@
            }),
            store_well_formed(final(self)@),
    {
        let ghost v = self@;
        match authorize(actor, Action::ManageProperty) {
            Ok(()) => {},
            Err(e) => return Err(e),
        }
        if !req.is_valid() {
            return Err(BookingError::InvalidRequest);
        }
        let p = Property {
            id: self.properties.len() as u128 + 1,
            owner_id: actor.id,
            title: req.title,
            description: req.description,
            property_type: req.property_type,
            location: req.location,
            address: req.address,
            city: req.city,
            country: req.country,
            postal_code: req.postal_code,
            price_per_night: req.price_per_night,
            max_guests: req.max_guests,
            bedrooms: req.bedrooms,
            bathrooms: req.bathrooms,
            amenities: req.amenities,
            images: req.images,
            is_active: true,
            created_at: now,
            updated_at: now,
        };
        let created = p.duplicate();
        self.properties.push(p);
        proof {
            let ps = self@.properties;
            assert forall|i: int| 0 <= i < ps.len() implies property_well_formed(#[trigger] ps[i], i) by {
                if i < v.properties.len() {
                    assert(ps[i] == v.properties[i]);
                }
            }
            assert forall|i: int| 0 <= i < v.bookings.len() implies booking_well_formed(
                #[trigger] v.bookings[i],
                i,
                ps.len() as int,
            ) by {
                assert(booking_well_formed(v.bookings[i], i, v.properties.len() as int));
            }
        }
        Ok(created)
    }
}

} // verus!
