//! Installed-application metadata. Enumerating applications and launching
//! them are host-platform concerns that live with the caller; the icon
//! lookup here is the portable fallback, which produces no icon.

use vstd::prelude::*;

verus! {

/// One installed application, as surfaced to the caller.
#[derive(Debug)]
pub struct AppInfo {
    pub name: String,
    pub path: String,
    pub icon: Option<String>,
}

/// Look up an application icon as a base64 data URL. Extracting one needs a
/// platform icon API; without one, no icon is produced.
pub fn extract_icon_as_base64(_exe_path: &str) -> (r: Option<String>)
    ensures
        r is None,
{
    None
}

} // verus!
