//! The names of the components that the orchestrator owns.

use vstd::prelude::*;

verus! {

/// The name of a component: the key under which the orchestrator holds it.
#[derive(Debug, Clone, Copy, PartialEq, Eq, Hash, Structural)]
pub enum ComponentName {
    TitleBar,
    CoreWindow,
    StatusBar,
}

/// The title that a component is created with.
pub open spec fn component_title(name: ComponentName) -> Seq<char> {
    match name {
        ComponentName::TitleBar => "Tgt"@,
        ComponentName::CoreWindow => "Core Window"@,
        ComponentName::StatusBar => "Status Bar"@,
    }
}

impl ComponentName {
    /// The title that the component of this name is created with.
    pub fn title(self) -> (title: &'static str)
        ensures
            title@ == component_title(self),
    {
        match self {
            ComponentName::TitleBar => "Tgt",
            ComponentName::CoreWindow => "Core Window",
            ComponentName::StatusBar => "Status Bar",
        }
    }
}

} // verus!
