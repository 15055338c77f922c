use vstd::prelude::*;
use crate::paths::Platform;
use crate::settings::{Settings, get_default_settings, is_default_settings};

verus! {

/// The settings to use once the stored ones have been read: what decoded, or
/// the defaults when nothing decoded (file missing, truncated or of another
/// schema).
pub fn settings_or_default(decoded: Option<Settings>, p: &Platform) -> (r: Settings)
    requires
        p.well_formed(),
    ensures
        match decoded {
            Some(s) => r == s,
            None => is_default_settings(r, *p),
        },
{
    match decoded {
        Some(s) => s,
        None => get_default_settings(p),
    }
}

/// What saving `next` over `current` asks of the startup entry: `Some(true)`
/// to create it, `Some(false)` to remove it, `None` to leave it.
pub fn autostart_change(current: &Settings, next: &Settings) -> (r: Option<bool>)
    ensures
        r == (if current.auto_start != next.auto_start {
            Some(next.auto_start)
        } else {
            None
        }),
{
    if current.auto_start != next.auto_start {
        Some(next.auto_start)
    } else {
        None
    }
}

} // verus!
