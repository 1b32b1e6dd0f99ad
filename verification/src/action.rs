//! The actions that components produce and that the orchestrator
//! broadcasts.

use vstd::prelude::*;
use crate::geometry::Rect;

verus! {

/// A message produced by a component in answer to input and consumed by
/// every component. The orchestrator carries actions without looking into
/// them; the one it makes itself is `UpdateArea`.
#[derive(Debug, PartialEq, Eq)]
pub enum Action {
    /// The area that the last layout pass was given.
    UpdateArea(Rect),
    /// An action of the application's own, carried through as it is.
    Custom(String),
}

impl Clone for Action {
    /// An equal action.
    fn clone(&self) -> (copy: Action)
        ensures
            copy == *self,
    {
        match self {
            Action::UpdateArea(area) => Action::UpdateArea(*area),
            Action::Custom(payload) => Action::Custom(payload.clone()),
        }
    }
}

} // verus!
