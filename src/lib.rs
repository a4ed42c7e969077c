//! Booking marketplace core: calendar dates, availability, pricing, the booking
//! lifecycle, the authorization policy and an in-memory store that keeps the
//! active bookings of each property free of overlaps.

pub mod accounts;
pub mod auth;
pub mod availability;
pub mod calendar;
pub mod codec;
pub mod config;
pub mod error;
pub mod laws;
pub mod lifecycle;
pub mod listing;
pub mod models;
pub mod paging;
pub mod policy;
pub mod pricing;
pub mod responses;
pub mod store;
