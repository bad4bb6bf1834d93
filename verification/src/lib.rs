//! Locating the device and listing the public toilets around it.
//!
//! The crate holds the decisions of that flow and leaves the waiting to its
//! caller. A one-shot resolver turns the two callbacks of a position request
//! into a single outcome ([`location`]). A transition function turns that
//! outcome into one Overpass query, and the reply to it into a result
//! ([`fetch`], [`overpass`]). A last function lays the result out as rows of
//! links ([`page`]). Positions are decimals with seven places ([`decimal`]).

pub mod decimal;
pub mod fetch;
pub mod location;
pub mod overpass;
pub mod page;

pub use fetch::{fetch_bathrooms, BathroomError};
pub use overpass::{Element, Osm3s, OverpassResponse};
pub use page::fetch_example;
