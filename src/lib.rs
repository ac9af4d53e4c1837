//! Restoring a window's remembered geometry at startup: the stored record is
//! validated field by field and turned into an ordered list of window
//! operations, and the lifecycle rules decide what is reported and when the
//! process ends.
pub mod binary64;
pub mod lifecycle;
pub mod restore;

use vstd::prelude::*;

verus! {

/// Name of the persistent store that holds the settings.
pub const SETTINGS_STORE_NAME: &'static str = "settings.store";

/// Key under which the window state is stored.
pub const WINDOW_STATE_KEY: &'static str = "windowState";

/// Label of the application's single window.
pub const MAIN_WINDOW_LABEL: &'static str = "main";

} // verus!
