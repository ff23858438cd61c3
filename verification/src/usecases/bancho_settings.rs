//! The maintenance mode switch.
use vstd::prelude::*;

verus! {

/// The setting that holds the maintenance mode.
pub const MAINTENANCE_KEY: &'static str = "bancho_maintenance";

/// Whether a setting's integer value means "on".
pub fn setting_enabled(value_int: i32) -> (b: bool)
    ensures
        b == (value_int != 0),
{
    value_int != 0
}

/// Toggling maintenance: the value to store and whether maintenance is now on.
pub fn maintenance_toggle(value_int: i32) -> (res: (i32, bool))
    ensures
        res == if value_int != 0 { (0i32, false) } else { (1i32, true) },
{
    let is_active = value_int != 0;
    let new_value: i32 = if is_active { 0 } else { 1 };
    (new_value, !is_active)
}

/// Toggling twice restores whether maintenance is on.
pub proof fn lemma_toggle_twice(value_int: i32)
    ensures
        ({
            let once = if value_int != 0 { (0i32, false) } else { (1i32, true) };
            let twice = if once.0 != 0 { (0i32, false) } else { (1i32, true) };
            twice.1 == (value_int != 0)
        }),
{
}

} // verus!
