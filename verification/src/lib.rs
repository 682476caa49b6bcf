//! Row models, record conversions and the storage decisions of a
//! better-auth database adapter backed by the toasty ORM.
//!
//! The library computes everything that does not touch the database:
//! building rows from creation requests, merging updates into rows,
//! reading rows back as auth records, and deciding what each adapter
//! operation does with the rows the database hands back.

pub mod models;
pub mod clock;
pub mod json;
pub mod ids;
pub mod records;
pub mod conversions;
pub mod updates;
pub mod error;
pub mod ops;
