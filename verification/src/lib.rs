//! A small library that turns the calendar fields of a local wall-clock
//! reading into human-readable strings.
//!
//! The heart of the library is [`ReadableTime`], a plain record of calendar
//! fields (year, month, day, weekday, hours, minutes, seconds and a time-zone
//! label) with three formatting operations:
//!
//! - [`ReadableTime::get_timef`] — `2025-01-01 03:04:05`
//! - [`ReadableTime::get_ptimef`] — `Mon Jan 15 2024 03:45 PM`
//! - [`ReadableTime::get_extended_ptimef`] — `Sun Nov 30 07:14:00 +0545 2025`
//!
//! The weekday, month and AM/PM lookups are also usable on their own, and
//! report a [`TimeError`] for an argument outside their documented range.
//! Every formatting operation carries a contract that pins down the exact
//! character sequence it produces.

pub mod decimal;
pub mod readable;

pub use readable::ReadableTime;
pub use readable::TimeError;
