//! The errors of the event model and of the orchestrator.

use vstd::prelude::*;
use crate::component_name::ComponentName;

verus! {

/// What can go wrong in this library.
#[derive(Debug, PartialEq, Eq)]
pub enum AppError {
    /// A key-combination text whose key is neither a named key nor a
    /// single ASCII character; it carries that key's text.
    InvalidEvent(String),
    /// A component that should be registered under a name is not there.
    ComponentMissing(ComponentName),
}

impl Clone for AppError {
    /// An equal error.
    fn clone(&self) -> (copy: AppError)
        ensures
            copy == *self,
    {
        match self {
            AppError::InvalidEvent(text) => AppError::InvalidEvent(text.clone()),
            AppError::ComponentMissing(name) => AppError::ComponentMissing(*name),
        }
    }
}

impl AppError {
    /// Whether this is `InvalidEvent` carrying exactly `text`.
    pub open spec fn is_invalid_event(self, text: Seq<char>) -> bool {
        self matches AppError::InvalidEvent(carried) && carried@ == text
    }
}

} // verus!
