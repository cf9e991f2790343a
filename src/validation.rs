use vstd::prelude::*;

verus! {

/// Where in a request an offending value was found.
#[derive(Clone, Copy, Debug, PartialEq, Eq, Structural)]
pub enum ConstraintViolationLocation {
    Body,
    Path,
}

/// The mathematical value of a violation: message, property, location.
pub type ViolationModel = (Seq<char>, Seq<char>, ConstraintViolationLocation);

/// One user-facing description of a failed invariant.
#[derive(Debug)]
pub struct ConstraintViolation {
    pub message: String,
    pub property: String,
    pub location: ConstraintViolationLocation,
}

impl View for ConstraintViolation {
    type V = ViolationModel;

    open spec fn view(&self) -> ViolationModel {
        (self.message@, self.property@, self.location)
    }
}

/// The models of a list of violations, in order.
pub open spec fn violations_view(v: Seq<ConstraintViolation>) -> Seq<ViolationModel> {
    v.map_values(|c: ConstraintViolation| c@)
}

/// Whether some violation of `v` is about `property`.
pub open spec fn mentions_property(v: Seq<ViolationModel>, property: Seq<char>) -> bool {
    exists|i: int| 0 <= i < v.len() && (#[trigger] v[i]).1 == property
}

impl ConstraintViolation {
    pub fn new(
        message: String,
        property: String,
        location: ConstraintViolationLocation,
    ) -> (r: Self)
        ensures
            r@ == (message@, property@, location),
    {
        ConstraintViolation { message, property, location }
    }
}

} // verus!
