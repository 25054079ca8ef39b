//! Typestate markers for compile-time builder validation.

use vstd::prelude::*;

verus! {

/// Marker for a builder field that has been assigned.
#[derive(Debug, Default)]
pub struct Yes;

/// Marker for a builder field that has not been assigned.
#[derive(Debug, Default)]
pub struct No;

/// Any assignment marker.
pub trait ToAssign {
}

/// Marker trait for fields that have been assigned.
pub trait Assigned: ToAssign {
}

/// Marker trait for fields that have not been assigned.
pub trait NotAssigned: ToAssign {
}

impl ToAssign for Yes {
}

impl ToAssign for No {
}

impl Assigned for Yes {
}

impl NotAssigned for No {
}

} // verus!
