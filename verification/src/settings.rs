//! What the user has configured.

use vstd::prelude::*;

verus! {

/// What the user has configured. An empty `webapp_url` means that no remote service is
/// configured yet.
#[derive(Debug, Clone)]
pub struct Settings {
    pub webapp_url: String,
    pub always_on_top: bool,
    pub auto_startup: bool,
}

impl Default for Settings {
    /// No remote service, the window kept on top, no start with the system.
    fn default() -> (settings: Settings)
        ensures
            settings.webapp_url@ == Seq::<char>::empty(),
            settings.always_on_top,
            !settings.auto_startup,
    {
        Settings { webapp_url: String::new(), always_on_top: true, auto_startup: false }
    }
}

impl Settings {
    /// Whether a remote service is configured.
    pub open spec fn is_configured(&self) -> bool {
        self.webapp_url@.len() > 0
    }
}

} // verus!
