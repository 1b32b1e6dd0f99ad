//! The read-only application context that the orchestrator and its
//! components share.

use vstd::prelude::*;

verus! {

/// The settings of the application that the layout pass reads.
#[derive(Debug, Clone, Copy, PartialEq, Eq, Structural)]
pub struct AppConfig {
    /// Whether the title bar is shown where the area has room for it.
    pub show_title_bar: bool,
    /// Whether the status bar is shown where the area has room for it.
    pub show_status_bar: bool,
}

/// The context that is built once at startup and only read afterwards.
#[derive(Debug, Clone, Copy, PartialEq, Eq, Structural)]
pub struct AppContext {
    app_config: AppConfig,
}

impl AppContext {
    /// The settings that the context was built with.
    pub closed spec fn config(self) -> AppConfig {
        self.app_config
    }

    /// A context with the given settings.
    pub fn new(app_config: AppConfig) -> (context: AppContext)
        ensures
            context.config() == app_config,
    {
        AppContext { app_config }
    }

    /// The settings of the application.
    pub fn app_config(&self) -> (app_config: &AppConfig)
        ensures
            *app_config == self.config(),
    {
        &self.app_config
    }
}

} // verus!
