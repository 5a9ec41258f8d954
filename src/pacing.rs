use crate::command::Command;
use crate::text::{eq_ignore_ascii_case, equals_ignoring_ascii_case};
use vstd::prelude::*;

verus! {

/// Wait after powering the device off, in milliseconds: it takes longest.
pub const POWER_OFF_DELAY_MS: u64 = 60000;

/// Wait after any other power change, in milliseconds.
pub const POWER_CHANGE_DELAY_MS: u64 = 30000;

/// Wait after any other setter, in milliseconds.
pub const SETTLE_DELAY_MS: u64 = 500;

/// Wait after queries, sleeps and stop, in milliseconds.
pub const MIN_DELAY_MS: u64 = 1;

/// The power key.
pub open spec fn power_key() -> Seq<char> {
    seq!['p', 'o', 'w']
}

/// The value that powers the device off.
pub open spec fn off_value() -> Seq<char> {
    seq!['o', 'f', 'f']
}

/// The pause owed after `command` has run, whatever its outcome.
pub open spec fn pacing_spec(command: Command) -> u64 {
    match command {
        Command::Put((key, value)) => {
            if eq_ignore_ascii_case(key@, power_key()) {
                if eq_ignore_ascii_case(value@, off_value()) {
                    POWER_OFF_DELAY_MS
                } else {
                    POWER_CHANGE_DELAY_MS
                }
            } else {
                SETTLE_DELAY_MS
            }
        },
        _ => MIN_DELAY_MS,
    }
}

/// The pause, in milliseconds, that keeps the device's serial interface
/// stable after `command`: power changes need long waits, other setters a
/// short one, everything else next to none.
pub fn pacing_delay_ms(command: &Command) -> (r: u64)
    ensures
        r == pacing_spec(*command),
{
    match command {
        Command::Put((key, value)) => {
            let pow = "pow";
            let off = "off";
            proof {
                reveal_strlit("pow");
                reveal_strlit("off");
            }
            assert(pow@ =~= power_key());
            assert(off@ =~= off_value());
            if equals_ignoring_ascii_case(key.as_str(), pow) {
                if equals_ignoring_ascii_case(value.as_str(), off) {
                    POWER_OFF_DELAY_MS
                } else {
                    POWER_CHANGE_DELAY_MS
                }
            } else {
                SETTLE_DELAY_MS
            }
        },
        _ => MIN_DELAY_MS,
    }
}

} // verus!
