//! Mapping a stored record to the view shown through the API.

use vstd::prelude::*;

verus! {

/// A stored record that has a view for the API.
pub trait ViewModel {
    type Model;

    /// Whether `model` shows exactly what this record holds for the API.
    spec fn shown_as(&self, model: &Self::Model) -> bool;

    /// Maps the record to its view.
    fn to_viewmodel(&self) -> (model: Self::Model)
        ensures
            self.shown_as(&model),
    ;
}

} // verus!
