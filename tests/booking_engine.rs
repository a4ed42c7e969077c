use airbnb_backend::calendar::Date;
use airbnb_backend::error::BookingError;
use airbnb_backend::models::{AuthUser, BookingStatus, CreatePropertyRequest, PropertyType, UserRole};
use airbnb_backend::pricing::calculate_booking_price;
use airbnb_backend::store::Store;

fn day(y: i32, m: u8, d: u8) -> Date {
    Date::from_calendar_date(y, m, d).unwrap()
}

fn actor(id: u128, role: UserRole) -> AuthUser {
    AuthUser { id, email: format!("user{}@example.com", id), role }
}

fn listing(rate: i32, max_guests: i32) -> CreatePropertyRequest {
    CreatePropertyRequest {
        title: "Sea view flat".to_string(),
        description: "Two rooms by the beach".to_string(),
        property_type: PropertyType::Apartment,
        location: "Old town".to_string(),
        address: "1 Harbour Road".to_string(),
        city: "Porto".to_string(),
        country: "Portugal".to_string(),
        postal_code: "4000-001".to_string(),
        price_per_night: rate,
        max_guests,
        bedrooms: 2,
        bathrooms: 1,
        amenities: vec!["wifi".to_string()],
        images: vec![],
    }
}

const OWNER: u128 = 10;
const GUEST: u128 = 20;
const OTHER_GUEST: u128 = 21;
const ADMIN: u128 = 30;

/// A store with one property of `OWNER` at 10000 cents a night for 4 guests.
fn store_with_property() -> (Store, u128) {
    let mut store = Store::new();
    let p = store.create_property(&actor(OWNER, UserRole::PropertyOwner), listing(10000, 4), 0).unwrap();
    (store, p.id)
}

#[test]
fn calendar_dates_count_nights() {
    let a = day(2024, 6, 1);
    let b = day(2024, 6, 4);
    assert_eq!(a.days_until(&b), 3);
    assert_eq!(day(2024, 2, 28).days_until(&day(2024, 3, 1)), 2);
    assert_eq!(day(2023, 2, 28).days_until(&day(2023, 3, 1)), 1);
    assert!(Date::from_calendar_date(2024, 2, 30).is_none());
    assert!(Date::from_calendar_date(2024, 13, 1).is_none());
    assert!(Date::from_calendar_date(2023, 2, 29).is_none());
    assert_eq!(Date::from_julian_day(a.julian_day), a);
}

#[test]
fn iso_dates_parse() {
    assert_eq!(Date::parse_iso("2024-06-01"), Some(day(2024, 6, 1)));
    assert_eq!(Date::parse_iso("2024-02-29"), Some(day(2024, 2, 29)));
    assert_eq!(Date::parse_iso("0001-01-01"), Date::from_calendar_date(1, 1, 1));
    assert_eq!(Date::parse_iso("2023-02-29"), None);
    assert_eq!(Date::parse_iso("2024-6-01"), None);
    assert_eq!(Date::parse_iso("2024/06/01"), None);
    assert_eq!(Date::parse_iso("2024-06-0x"), None);
    assert_eq!(Date::parse_iso(""), None);
    assert_eq!(Date::parse_iso("2024-00-10"), None);
    assert_eq!(Date::parse_iso("20240-6-01"), None);
    assert_eq!(day(2024, 6, 1).days_until(&Date::parse_iso("2024-07-01").unwrap()), 30);
}

#[test]
fn price_of_three_nights() {
    assert_eq!(calculate_booking_price(10000, day(2024, 6, 1), day(2024, 6, 4)), Ok(30000));
    assert_eq!(
        calculate_booking_price(10000, day(2024, 6, 1), day(2024, 6, 1)),
        Err(BookingError::InvalidRequest)
    );
    assert_eq!(
        calculate_booking_price(10000, day(2024, 6, 4), day(2024, 6, 1)),
        Err(BookingError::InvalidRequest)
    );
    assert_eq!(
        calculate_booking_price(i32::MAX, day(2024, 1, 1), day(2025, 1, 1)),
        Ok(366 * i32::MAX as i64)
    );
}

#[test]
fn requested_booking_is_pending_at_flat_price() {
    let (mut store, pid) = store_with_property();
    let b = store
        .request_booking(&actor(GUEST, UserRole::User), pid, day(2024, 6, 1), day(2024, 6, 4), 2, Some("late arrival".to_string()), 100)
        .unwrap();
    assert_eq!(b.total_price, 30000);
    assert_eq!(b.status, BookingStatus::Pending);
    assert_eq!(b.user_id, GUEST);
    assert_eq!(b.property_id, pid);
    assert_eq!(b.special_requests.as_deref(), Some("late arrival"));
    assert_eq!(b.created_at, 100);
    let stored = store.get_booking_by_id(b.id).unwrap();
    assert_eq!(stored.total_price, 30000);
}

#[test]
fn zero_night_request_is_invalid() {
    let (mut store, pid) = store_with_property();
    let r = store.request_booking(&actor(GUEST, UserRole::User), pid, day(2024, 6, 1), day(2024, 6, 1), 1, None, 0);
    assert_eq!(r.unwrap_err(), BookingError::InvalidRequest);
    assert!(store.get_bookings_by_property(pid).is_empty());
}

#[test]
fn overlap_with_approved_booking_conflicts_but_adjacent_stay_succeeds() {
    let (mut store, pid) = store_with_property();
    let first = store
        .request_booking(&actor(GUEST, UserRole::User), pid, day(2024, 6, 1), day(2024, 6, 5), 2, None, 0)
        .unwrap();
    let approved = store
        .transition_booking(&actor(OWNER, UserRole::PropertyOwner), first.id, BookingStatus::Approved, 1)
        .unwrap();
    assert_eq!(approved.status, BookingStatus::Approved);
    let r = store.request_booking(&actor(OTHER_GUEST, UserRole::User), pid, day(2024, 6, 4), day(2024, 6, 8), 2, None, 2);
    assert_eq!(r.unwrap_err(), BookingError::Conflict);
    let ok = store.request_booking(&actor(OTHER_GUEST, UserRole::User), pid, day(2024, 6, 5), day(2024, 6, 8), 2, None, 3);
    assert!(ok.is_ok());
    assert!(!store.is_available(pid, day(2024, 6, 3), day(2024, 6, 4)));
    assert!(store.is_available(pid, day(2024, 6, 8), day(2024, 6, 9)));
}

#[test]
fn containing_and_contained_ranges_conflict() {
    let (mut store, pid) = store_with_property();
    let g = actor(GUEST, UserRole::User);
    store.request_booking(&g, pid, day(2024, 6, 10), day(2024, 6, 12), 1, None, 0).unwrap();
    let outer = store.request_booking(&g, pid, day(2024, 6, 9), day(2024, 6, 13), 1, None, 0);
    assert_eq!(outer.unwrap_err(), BookingError::Conflict);
    let inner = store.request_booking(&g, pid, day(2024, 6, 10), day(2024, 6, 11), 1, None, 0);
    assert_eq!(inner.unwrap_err(), BookingError::Conflict);
    let same = store.request_booking(&g, pid, day(2024, 6, 10), day(2024, 6, 12), 1, None, 0);
    assert_eq!(same.unwrap_err(), BookingError::Conflict);
}

#[test]
fn cancelled_booking_frees_its_dates() {
    let (mut store, pid) = store_with_property();
    let g = actor(GUEST, UserRole::User);
    let b = store.request_booking(&g, pid, day(2024, 6, 1), day(2024, 6, 5), 1, None, 0).unwrap();
    store.transition_booking(&g, b.id, BookingStatus::Cancelled, 1).unwrap();
    assert!(store.is_available(pid, day(2024, 6, 1), day(2024, 6, 5)));
    assert!(store.request_booking(&g, pid, day(2024, 6, 2), day(2024, 6, 3), 1, None, 2).is_ok());
}

#[test]
fn second_of_two_overlapping_requests_conflicts() {
    let (mut store, pid) = store_with_property();
    let a = store.request_booking(&actor(GUEST, UserRole::User), pid, day(2024, 7, 1), day(2024, 7, 5), 1, None, 0);
    let b = store.request_booking(&actor(OTHER_GUEST, UserRole::User), pid, day(2024, 7, 3), day(2024, 7, 6), 1, None, 0);
    assert!(a.is_ok());
    assert_eq!(b.unwrap_err(), BookingError::Conflict);
    assert_eq!(store.get_bookings_by_property(pid).len(), 1);
}

#[test]
fn random_requests_never_double_book() {
    let (mut store, pid) = store_with_property();
    let base = day(2024, 1, 1).julian_day;
    let mut seed: u64 = 12345;
    let owner = actor(OWNER, UserRole::PropertyOwner);
    for i in 0..300u64 {
        seed = seed.wrapping_mul(6364136223846793005).wrapping_add(1442695040888963407);
        let start = (seed >> 33) % 120;
        let len = 1 + (seed >> 20) % 6;
        let guest = actor(100 + (i % 7) as u128, UserRole::User);
        let ci = Date::from_julian_day(base + start as i32);
        let co = Date::from_julian_day(base + (start + len) as i32);
        if let Ok(b) = store.request_booking(&guest, pid, ci, co, 1, None, i as i64) {
            match seed % 4 {
                0 => {
                    store.transition_booking(&owner, b.id, BookingStatus::Approved, 0).unwrap();
                }
                1 => {
                    store.transition_booking(&guest, b.id, BookingStatus::Cancelled, 0).unwrap();
                }
                2 => {
                    store.transition_booking(&owner, b.id, BookingStatus::Denied, 0).unwrap();
                }
                _ => {}
            }
        }
    }
    let active: Vec<_> = store
        .get_bookings_by_property(pid)
        .into_iter()
        .filter(|b| b.status == BookingStatus::Pending || b.status == BookingStatus::Approved)
        .collect();
    assert!(active.len() > 5);
    for x in &active {
        for y in &active {
            if x.id != y.id {
                let overlap = x.check_in_date.julian_day < y.check_out_date.julian_day
                    && y.check_in_date.julian_day < x.check_out_date.julian_day;
                assert!(!overlap, "bookings {} and {} overlap", x.id, y.id);
            }
        }
    }
}

#[test]
fn request_checks_property_role_and_guests() {
    let (mut store, pid) = store_with_property();
    let g = actor(GUEST, UserRole::User);
    let r = store.request_booking(&g, pid + 1, day(2024, 6, 1), day(2024, 6, 2), 1, None, 0);
    assert_eq!(r.unwrap_err(), BookingError::NotFound);
    let r = store.request_booking(&g, 0, day(2024, 6, 1), day(2024, 6, 2), 1, None, 0);
    assert_eq!(r.unwrap_err(), BookingError::NotFound);
    let r = store.request_booking(&actor(OWNER, UserRole::PropertyOwner), pid, day(2024, 6, 1), day(2024, 6, 2), 1, None, 0);
    assert_eq!(r.unwrap_err(), BookingError::AuthorizationDenied);
    let r = store.request_booking(&g, pid, day(2024, 6, 1), day(2024, 6, 2), 5, None, 0);
    assert_eq!(r.unwrap_err(), BookingError::InvalidRequest);
    let r = store.request_booking(&g, pid, day(2024, 6, 1), day(2024, 6, 2), 0, None, 0);
    assert_eq!(r.unwrap_err(), BookingError::InvalidRequest);
    let r = store.request_booking(&g, pid, day(2024, 6, 5), day(2024, 6, 2), 1, None, 0);
    assert_eq!(r.unwrap_err(), BookingError::InvalidRequest);
    assert!(store.request_booking(&g, pid, day(2024, 6, 1), day(2024, 6, 2), 4, None, 0).is_ok());
    assert!(store.request_booking(&actor(ADMIN, UserRole::Admin), pid, day(2024, 6, 2), day(2024, 6, 3), 1, None, 0).is_ok());
}

#[test]
fn denied_booking_cannot_be_cancelled() {
    let (mut store, pid) = store_with_property();
    let b = store.request_booking(&actor(GUEST, UserRole::User), pid, day(2024, 6, 1), day(2024, 6, 3), 1, None, 0).unwrap();
    store.transition_booking(&actor(OWNER, UserRole::PropertyOwner), b.id, BookingStatus::Denied, 1).unwrap();
    let expected = BookingError::InvalidTransition { current: BookingStatus::Denied, target: BookingStatus::Cancelled };
    for who in [actor(GUEST, UserRole::User), actor(OWNER, UserRole::PropertyOwner), actor(ADMIN, UserRole::Admin)] {
        let r = store.transition_booking(&who, b.id, BookingStatus::Cancelled, 2);
        assert_eq!(r.unwrap_err(), expected);
    }
    assert_eq!(store.get_booking_by_id(b.id).unwrap().status, BookingStatus::Denied);
    assert_eq!(store.get_booking_by_id(b.id).unwrap().updated_at, 1);
}

#[test]
fn only_the_requesting_guest_cancels() {
    let (mut store, pid) = store_with_property();
    let b = store.request_booking(&actor(GUEST, UserRole::User), pid, day(2024, 6, 1), day(2024, 6, 3), 1, None, 0).unwrap();
    let r = store.transition_booking(&actor(OTHER_GUEST, UserRole::User), b.id, BookingStatus::Cancelled, 1);
    assert_eq!(r.unwrap_err(), BookingError::AuthorizationDenied);
    assert_eq!(store.get_booking_by_id(b.id).unwrap().status, BookingStatus::Pending);
    let done = store.transition_booking(&actor(GUEST, UserRole::User), b.id, BookingStatus::Cancelled, 2).unwrap();
    assert_eq!(done.status, BookingStatus::Cancelled);
    assert_eq!(done.updated_at, 2);
}

#[test]
fn approval_rules() {
    let (mut store, pid) = store_with_property();
    let b = store.request_booking(&actor(GUEST, UserRole::User), pid, day(2024, 6, 1), day(2024, 6, 3), 1, None, 0).unwrap();
    let stranger = actor(OWNER + 1, UserRole::PropertyOwner);
    assert_eq!(
        store.transition_booking(&stranger, b.id, BookingStatus::Approved, 1).unwrap_err(),
        BookingError::AuthorizationDenied
    );
    assert_eq!(
        store.transition_booking(&actor(GUEST, UserRole::User), b.id, BookingStatus::Approved, 1).unwrap_err(),
        BookingError::AuthorizationDenied
    );
    assert_eq!(
        store.transition_booking(&actor(OWNER, UserRole::PropertyOwner), 99, BookingStatus::Approved, 1).unwrap_err(),
        BookingError::NotFound
    );
    let owner = actor(OWNER, UserRole::PropertyOwner);
    assert!(store.transition_booking(&owner, b.id, BookingStatus::Approved, 1).is_ok());
    assert_eq!(
        store.transition_booking(&owner, b.id, BookingStatus::Approved, 2).unwrap_err(),
        BookingError::InvalidTransition { current: BookingStatus::Approved, target: BookingStatus::Approved }
    );
    assert_eq!(
        store.transition_booking(&owner, b.id, BookingStatus::Completed, 2).unwrap_err(),
        BookingError::AuthorizationDenied
    );
    let admin = actor(ADMIN, UserRole::Admin);
    assert_eq!(
        store.transition_booking(&admin, b.id, BookingStatus::Pending, 2).unwrap_err(),
        BookingError::InvalidTransition { current: BookingStatus::Approved, target: BookingStatus::Pending }
    );
    let done = store.transition_booking(&admin, b.id, BookingStatus::Completed, 3).unwrap();
    assert_eq!(done.status, BookingStatus::Completed);
    assert_eq!(
        store.transition_booking(&admin, b.id, BookingStatus::Cancelled, 4).unwrap_err(),
        BookingError::InvalidTransition { current: BookingStatus::Completed, target: BookingStatus::Cancelled }
    );
}

#[test]
fn owner_cancels_booking_of_own_property() {
    let (mut store, pid) = store_with_property();
    let b = store.request_booking(&actor(GUEST, UserRole::User), pid, day(2024, 6, 1), day(2024, 6, 3), 1, None, 0).unwrap();
    assert_eq!(
        store.transition_booking(&actor(OWNER + 1, UserRole::PropertyOwner), b.id, BookingStatus::Cancelled, 1).unwrap_err(),
        BookingError::AuthorizationDenied
    );
    assert!(store.transition_booking(&actor(OWNER, UserRole::PropertyOwner), b.id, BookingStatus::Cancelled, 1).is_ok());
}

#[test]
fn properties_need_an_owner_role_and_valid_fields() {
    let mut store = Store::new();
    let r = store.create_property(&actor(GUEST, UserRole::User), listing(100, 2), 0);
    assert_eq!(r.unwrap_err(), BookingError::AuthorizationDenied);
    let r = store.create_property(&actor(OWNER, UserRole::PropertyOwner), listing(0, 2), 0);
    assert_eq!(r.unwrap_err(), BookingError::InvalidRequest);
    let r = store.create_property(&actor(OWNER, UserRole::PropertyOwner), listing(100, 0), 0);
    assert_eq!(r.unwrap_err(), BookingError::InvalidRequest);
    let mut blank = listing(100, 2);
    blank.title = String::new();
    assert_eq!(store.create_property(&actor(OWNER, UserRole::PropertyOwner), blank, 0).unwrap_err(), BookingError::InvalidRequest);
    let p = store.create_property(&actor(ADMIN, UserRole::Admin), listing(100, 2), 5).unwrap();
    assert_eq!(p.id, 1);
    assert_eq!(p.owner_id, ADMIN);
    assert!(p.is_active);
    assert_eq!(p.amenities, vec!["wifi".to_string()]);
    assert_eq!(store.get_property_by_id(1).unwrap().title, "Sea view flat");
    assert!(store.get_property_by_id(2).is_none());
}

#[test]
fn listings_are_newest_first_and_scoped() {
    let mut store = Store::new();
    let o = actor(OWNER, UserRole::PropertyOwner);
    let p1 = store.create_property(&o, listing(100, 2), 0).unwrap().id;
    let p2 = store.create_property(&actor(OWNER + 1, UserRole::PropertyOwner), listing(200, 2), 1).unwrap().id;
    let p3 = store.create_property(&o, listing(300, 2), 2).unwrap().id;
    let mine: Vec<u128> = store.my_properties(&o).unwrap().iter().map(|p| p.id).collect();
    assert_eq!(mine, vec![p3, p1]);
    assert_eq!(store.my_properties(&actor(GUEST, UserRole::User)).unwrap_err(), BookingError::AuthorizationDenied);
    let g = actor(GUEST, UserRole::User);
    let b1 = store.request_booking(&g, p1, day(2024, 6, 1), day(2024, 6, 2), 1, None, 0).unwrap().id;
    let b2 = store.request_booking(&actor(OTHER_GUEST, UserRole::User), p1, day(2024, 6, 2), day(2024, 6, 3), 1, None, 0).unwrap().id;
    let b3 = store.request_booking(&g, p2, day(2024, 6, 1), day(2024, 6, 2), 1, None, 0).unwrap().id;
    let of_guest: Vec<u128> = store.get_bookings_by_user(GUEST).iter().map(|b| b.id).collect();
    assert_eq!(of_guest, vec![b3, b1]);
    let of_p1: Vec<u128> = store.property_bookings(&o, p1).unwrap().iter().map(|b| b.id).collect();
    assert_eq!(of_p1, vec![b2, b1]);
    assert_eq!(store.property_bookings(&o, p2).unwrap_err(), BookingError::AuthorizationDenied);
    assert_eq!(store.property_bookings(&g, p1).unwrap_err(), BookingError::AuthorizationDenied);
    assert_eq!(store.property_bookings(&o, 77).unwrap_err(), BookingError::NotFound);
    assert_eq!(store.property_bookings(&actor(ADMIN, UserRole::Admin), p2).unwrap().len(), 1);
    let (page, total) = store.get_properties_with_filters(1, 2);
    assert_eq!(total, 3);
    assert_eq!(page.iter().map(|p| p.id).collect::<Vec<_>>(), vec![p3, p2]);
    let (page, _) = store.get_properties_with_filters(2, 2);
    assert_eq!(page.iter().map(|p| p.id).collect::<Vec<_>>(), vec![p1]);
    let (page, _) = store.get_properties_with_filters(3, 2);
    assert!(page.is_empty());
}

#[test]
fn guest_booking_list_shows_property_and_owner() {
    let mut store = Store::new();
    let admin = actor(ADMIN, UserRole::Admin);
    let host = store
        .create_property_owner(
            &admin,
            airbnb_backend::models::CreateUserRequest {
                email: "host@example.com".to_string(),
                password: "password123".to_string(),
                first_name: "Hana".to_string(),
                last_name: "Ito".to_string(),
            },
            0,
        )
        .unwrap();
    let pid = store.create_property(&host.auth_user(), listing(8000, 2), 0).unwrap().id;
    let g = actor(GUEST, UserRole::User);
    store.request_booking(&g, pid, day(2024, 8, 1), day(2024, 8, 3), 2, None, 10).unwrap();
    store.request_booking(&g, pid, day(2024, 8, 5), day(2024, 8, 6), 1, Some("crib".to_string()), 11).unwrap();
    let list = store.my_bookings(&g).unwrap();
    assert_eq!(list.len(), 2);
    assert_eq!(list[0].check_in_date, day(2024, 8, 5));
    assert_eq!(list[0].total_price, 8000);
    assert_eq!(list[0].special_requests.as_deref(), Some("crib"));
    assert_eq!(list[1].total_price, 16000);
    assert_eq!(list[1].property.owner.first_name, "Hana");
    assert_eq!(list[1].user.id, GUEST);
    assert_eq!(list[1].user.first_name, "");
    assert!(store.my_bookings(&actor(OTHER_GUEST, UserRole::User)).unwrap().is_empty());
    let orphan_pid = store.create_property(&admin, listing(100, 2), 0).unwrap().id;
    store.request_booking(&g, orphan_pid, day(2024, 8, 1), day(2024, 8, 2), 1, None, 12).unwrap();
    assert!(matches!(store.my_bookings(&g), Err(airbnb_backend::error::AppError::NotFound(_))));
}
