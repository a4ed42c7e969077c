use vstd::prelude::*;

use crate::error::BookingError;
use crate::models::{same_property, AuthUser, Booking, Property, UserRole};
use crate::policy::{authorize, permits, Action};
use crate::store::{property_of, Store};

verus! {

/// The bookings among `s[i..]` made by `user`, newest first.
pub open spec fn bookings_of_user_from(s: Seq<Booking>, user: u128, i: int) -> Seq<Booking>
    decreases s.len() - i,
{
    if i >= s.len() {
        Seq::empty()
    } else {
        let rest = bookings_of_user_from(s, user, i + 1);
        if i >= 0 && s[i].user_id == user {
            rest.push(s[i])
        } else {
            rest
        }
    }
}

/// The bookings among `s[i..]` of property `property_id`, newest first.
pub open spec fn bookings_of_property_from(s: Seq<Booking>, property_id: u128, i: int) -> Seq<Booking>
    decreases s.len() - i,
{
    if i >= s.len() {
        Seq::empty()
    } else {
        let rest = bookings_of_property_from(s, property_id, i + 1);
        if i >= 0 && s[i].property_id == property_id {
            rest.push(s[i])
        } else {
            rest
        }
    }
}

/// The properties among `s[i..]` owned by `owner`, newest first.
pub open spec fn properties_of_owner_from(s: Seq<Property>, owner: u128, i: int) -> Seq<Property>
    decreases s.len() - i,
{
    if i >= s.len() {
        Seq::empty()
    } else {
        let rest = properties_of_owner_from(s, owner, i + 1);
        if i >= 0 && s[i].owner_id == owner {
            rest.push(s[i])
        } else {
            rest
        }
    }
}

/// The active properties among `s[i..]`, newest first.
pub open spec fn active_properties_from(s: Seq<Property>, i: int) -> Seq<Property>
    decreases s.len() - i,
{
    if i >= s.len() {
        Seq::empty()
    } else {
        let rest = active_properties_from(s, i + 1);
        if i >= 0 && s[i].is_active {
            rest.push(s[i])
        } else {
            rest
        }
    }
}

/// `r` holds the same properties as `s`, in the same order.
pub open spec fn same_properties(r: Seq<Property>, s: Seq<Property>) -> bool {
    r.len() == s.len() && forall|k: int| 0 <= k < s.len() ==> same_property(#[trigger] r[k], s[k])
}

/// The page of `per_page` items that starts after `(page - 1) * per_page` items,
/// cut to the `total` items there are.
pub open spec fn page_bounds(page: int, per_page: int, total: int) -> (int, int) {
    let start = (page - 1) * per_page;
    let lo = if start < total { start } else { total };
    let hi = if start + per_page < total { start + per_page } else { total };
    (lo, hi)
}

pub proof fn lemma_page_bounds(page: int, per_page: int, total: int)
    requires
        page >= 1,
        per_page >= 0,
        total >= 0,
    ensures
        0 <= page_bounds(page, per_page, total).0 <= page_bounds(page, per_page, total).1 <= total,
{
    assert((page - 1) * per_page >= 0) by (nonlinear_arith)
        requires
            page >= 1,
            per_page >= 0,
    ;
}

impl Store {
    /// The bookings made by `user_id`, newest first.
    pub fn get_bookings_by_user(&self, user_id: u128) -> (r: Vec<Booking>)
        ensures
            r@ == bookings_of_user_from(self@.bookings, user_id, 0),
    {
        let bs = self.bookings_ref();
        let mut out: Vec<Booking> = Vec::new();
        let mut i: usize = bs.len();
        while i > 0
            invariant
                i <= bs.len(),
                bs@ == self@.bookings,
                out@ == bookings_of_user_from(bs@, user_id, i as int),
            decreases i,
        {
            i = i - 1;
            if bs[i].user_id == user_id {
                out.push(bs[i].duplicate());
            }
        }
        out
    }

    /// The bookings of property `property_id`, newest first.
    pub fn get_bookings_by_property(&self, property_id: u128) -> (r: Vec<Booking>)
        ensures
            r@ == bookings_of_property_from(self@.bookings, property_id, 0),
    {
        let bs = self.bookings_ref();
        let mut out: Vec<Booking> = Vec::new();
        let mut i: usize = bs.len();
        while i > 0
            invariant
                i <= bs.len(),
                bs@ == self@.bookings,
                out@ == bookings_of_property_from(bs@, property_id, i as int),
            decreases i,
        {
            i = i - 1;
            if bs[i].property_id == property_id {
                out.push(bs[i].duplicate());
            }
        }
        out
    }

    /// The properties owned by `owner_id`, active or not, newest first.
    pub fn get_properties_by_owner(&self, owner_id: u128) -> (r: Vec<Property>)
        ensures
            same_properties(r@, properties_of_owner_from(self@.properties, owner_id, 0)),
    {
        let ps = self.properties_ref();
        let mut out: Vec<Property> = Vec::new();
        let mut i: usize = ps.len();
        while i > 0
            invariant
                i <= ps.len(),
                ps@ == self@.properties,
                same_properties(out@, properties_of_owner_from(ps@, owner_id, i as int)),
            decreases i,
        {
            i = i - 1;
            if ps[i].owner_id == owner_id {
                out.push(ps[i].duplicate());
            }
        }
        out
    }

    /// One page of the active properties, newest first, with the number of
    /// active properties. Page numbers start at 1.
    pub fn get_properties_with_filters(&self, page: u64, per_page: u64) -> (r: (Vec<Property>, u64))
        requires
            page >= 1,
        ensures
            ({
                let all = active_properties_from(self@.properties, 0);
                let (lo, hi) = page_bounds(page as int, per_page as int, all.len() as int);
                &&& r.1 == all.len()
                &&& same_properties(r.0@, all.subrange(lo, hi))
            }),
    {
        let ps = self.properties_ref();
        let mut active: Vec<&Property> = Vec::new();
        let mut i: usize = ps.len();
        while i > 0
            invariant
                i <= ps.len(),
                ps@ == self@.properties,
                active@.len() == active_properties_from(ps@, i as int).len(),
                forall|k: int|
                    0 <= k < active@.len() ==> *#[trigger] active@[k] == active_properties_from(ps@, i as int)[k],
                active@.len() <= ps@.len() - i,
            decreases i,
        {
            i = i - 1;
            if ps[i].is_active {
                active.push(&ps[i]);
            }
        }
        let ghost all = active_properties_from(ps@, 0);
        let total = active.len() as u64;
        proof {
            lemma_page_bounds(page as int, per_page as int, total as int);
        }
        assert((page - 1) * per_page <= 0xffff_ffff_ffff_ffff * 0xffff_ffff_ffff_ffff) by (nonlinear_arith)
            requires
                0 <= page - 1 <= 0xffff_ffff_ffff_ffff,
                0 <= per_page <= 0xffff_ffff_ffff_ffff,
        ;
        let start: u128 = (page as u128 - 1) * per_page as u128;
        let lo: usize = if start < total as u128 { start as usize } else { active.len() };
        let hi: usize = if start + (per_page as u128) < total as u128 {
            (start + per_page as u128) as usize
        } else {
            active.len()
        };
        assert((lo as int, hi as int) == page_bounds(page as int, per_page as int, total as int));
        let mut out: Vec<Property> = Vec::new();
        let mut j: usize = lo;
        while j < hi
            invariant
                lo <= j <= hi <= active@.len(),
                active@.len() == all.len(),
                forall|k: int| 0 <= k < active@.len() ==> *#[trigger] active@[k] == all[k],
                same_properties(out@, all.subrange(lo as int, j as int)),
            decreases hi - j,
        {
            out.push(active[j].duplicate());
            j = j + 1;
        }
        (out, total)
    }

    /// The bookings of property `property_id`, for its owner or an admin.
    pub fn property_bookings(&self, actor: &AuthUser, property_id: u128) -> (r: Result<Vec<Booking>, BookingError>)
        ensures
            !permits(actor.id, actor.role, Action::ManageProperty) ==> r == Err::<Vec<Booking>, BookingError>(
                BookingError::AuthorizationDenied,
            ),
            permits(actor.id, actor.role, Action::ManageProperty) && actor.role is PropertyOwner ==> {
                let p = property_of(self@, property_id);
                if p is Some && p->0.is_active {
                    if p->0.owner_id == actor.id {
                        r is Ok && r->Ok_0@ == bookings_of_property_from(self@.bookings, property_id, 0)
                    } else {
                        r == Err::<Vec<Booking>, BookingError>(BookingError::AuthorizationDenied)
                    }
                } else {
                    r == Err::<Vec<Booking>, BookingError>(BookingError::NotFound)
                }
            },
            actor.role is Admin ==> r is Ok && r->Ok_0@ == bookings_of_property_from(self@.bookings, property_id, 0),
    {
        if authorize(actor, Action::ManageProperty).is_err() {
            return Err(BookingError::AuthorizationDenied);
        }
        match actor.role {
            UserRole::PropertyOwner => {
                let owner = match self.get_property_by_id(property_id) {
                    Some(p) => p.owner_id,
                    None => return Err(BookingError::NotFound),
                };
                if authorize(actor, Action::ViewPropertyBookings { property_owner: owner }).is_err() {
                    return Err(BookingError::AuthorizationDenied);
                }
            },
            _ => {},
        }
        Ok(self.get_bookings_by_property(property_id))
    }

    /// The properties of `actor`, who must be an owner or an admin.
    pub fn my_properties(&self, actor: &AuthUser) -> (r: Result<Vec<Property>, BookingError>)
        ensures
            !permits(actor.id, actor.role, Action::ManageProperty) ==> r == Err::<Vec<Property>, BookingError>(
                BookingError::AuthorizationDenied,
            ),
            permits(actor.id, actor.role, Action::ManageProperty) ==> r is Ok && same_properties(
                r->Ok_0@,
                properties_of_owner_from(self@.properties, actor.id, 0),
            ),
    {
        if authorize(actor, Action::ManageProperty).is_err() {
            return Err(BookingError::AuthorizationDenied);
        }
        Ok(self.get_properties_by_owner(actor.id))
    }
}

} // verus!
