//! Heterogeneous lists whose element types are tracked one by one, and the
//! generator of the conversions between a record struct and its list form.
//!
//! - `hlist`: the list itself, `HNil` and `HCons`, and the three conversion
//!   traits that a struct can have.
//! - `derive`: the generator that writes those conversions for a struct, and
//!   its derive form.
//! - `decorator`: the attribute form, which hands the conversions on one by
//!   one and lets them inherit the lint attributes of the struct.
//! - `as_hlist`: the attribute that writes one conversion in both
//!   directions.
//! - `item`: the struct as the generator reads it, and how one is read from
//!   a token stream.
//! - `tokens`: what a token stream holds, in the terms that the contracts of
//!   the generator use.

pub mod as_hlist;
pub mod decorator;
pub mod derive;
pub mod hlist;
pub mod item;
pub mod tokens;

pub use crate::as_hlist::expand_hlist_support;
pub use crate::derive::hlist_support_derive;
pub use crate::hlist::{FromHList, HCons, HList, HNil, IntoHList, ToHList};
