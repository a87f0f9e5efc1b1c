//! State behind a widget's scrollable-interface contract.
//!
//! A GUI toolkit's scrollable contract asks a widget to carry four
//! properties — a horizontal and a vertical adjustment handle, and a scroll
//! policy for each axis — which the toolkit reads and writes through small
//! integer ids. This crate keeps that state in a plain struct and proves that
//! the dispatch by id stores exactly the field the id names, leaves the other
//! fields alone, and reads the last value written back unchanged.
//!
//! The adjustment objects themselves belong to the toolkit: the store is
//! generic over the handle type and never looks inside a handle.

pub mod policy;
pub mod store;
