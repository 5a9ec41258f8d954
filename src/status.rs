use crate::text::{has_prefix, starts_with};
use vstd::prelude::*;

verus! {

/// `s` with every leading repetition of `p` removed (nothing for an empty `p`).
pub open spec fn strip_repeated(s: Seq<char>, p: Seq<char>) -> Seq<char>
    decreases s.len(),
{
    if p.len() > 0 && starts_with(s, p) {
        strip_repeated(s.subrange(p.len() as int, s.len() as int), p)
    } else {
        s
    }
}

/// The value part of a device answer such as
/// `SOUR=HDMI`, i.e. the answer with every leading `key=` prefix removed.
pub fn reply_value(reply: &str, prefix: &str) -> (r: String)
    ensures
        r@ == strip_repeated(reply@, prefix@),
{
    let m = prefix.unicode_len();
    let mut rest = reply;
    if m == 0 {
        return String::from_str(reply);
    }
    while has_prefix(rest, prefix)
        invariant
            m == prefix@.len(),
            m > 0,
            strip_repeated(rest@, prefix@) == strip_repeated(reply@, prefix@),
        decreases rest@.len(),
    {
        let n = rest.unicode_len();
        rest = rest.substring_char(m, n);
    }
    String::from_str(rest)
}

/// Cooldown, in seconds, after polling finds that the device turned on.
pub const POWER_ON_COOLDOWN_SECS: u64 = 5;

/// Cooldown, in seconds, after polling finds that the device turned off.
pub const POWER_OFF_COOLDOWN_SECS: u64 = 20;

/// Cooldown, in seconds, after a poll failed, so that retries do not pile up
/// while the device's interface is unstable.
pub const POLL_FAILURE_COOLDOWN_SECS: u64 = 30;

/// The answer with which the device reports that it is on.
pub open spec fn power_on_answer() -> Seq<char> {
    seq!['P', 'O', 'W', '=', 'O', 'N']
}

/// Whether the answer to a power query says that the device is on.
pub fn reports_power_on(answer: &Option<String>) -> (r: bool)
    ensures
        r == (answer matches Some(a) && a@ == power_on_answer()),
{
    match answer {
        None => false,
        Some(a) => {
            let on = "POW=ON";
            proof {
                reveal_strlit("POW=ON");
            }
            assert(on@ =~= power_on_answer());
            if a.as_str().unicode_len() != 6 {
                return false;
            }
            assert(a@.subrange(0, 6) =~= a@);
            has_prefix(a.as_str(), on)
        },
    }
}

/// The sleep, in seconds, that a poller submits when it finds that the power
/// state changed by other means: the device needs time after a transition.
pub fn transition_cooldown_secs(was_on: bool, is_on: bool) -> (r: Option<u64>)
    ensures
        r == if !was_on && is_on {
            Some(POWER_ON_COOLDOWN_SECS)
        } else if was_on && !is_on {
            Some(POWER_OFF_COOLDOWN_SECS)
        } else {
            None::<u64>
        },
{
    if !was_on && is_on {
        Some(POWER_ON_COOLDOWN_SECS)
    } else if was_on && !is_on {
        Some(POWER_OFF_COOLDOWN_SECS)
    } else {
        None
    }
}

} // verus!
