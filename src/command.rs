use std::time::Duration;
use crate::text::{ascii_lowercase, is_ascii_lowercase_of};
use vstd::prelude::*;

verus! {

/// A request for the projector's command worker.
#[derive(Debug)]
pub enum Command {
    /// A pseudo-command that ends the worker loop after it has been answered.
    Stop,
    /// A query: no side effects on the device, a value is expected back.
    Get(String),
    /// A setter `(key, value)` that changes the device's state.
    Put((String, String)),
    /// Blocks the worker for the given time.
    ///
    /// Meant for callers that notice (through their own queries) that the
    /// device changed power state by other means and want to impose the same
    /// cooldown the worker applies after a power change it drove itself.
    Sleep(Duration),
}

impl Clone for Command {
    fn clone(&self) -> (r: Command)
        ensures
            r == *self,
    {
        match self {
            Command::Stop => Command::Stop,
            Command::Get(key) => Command::Get(key.clone()),
            Command::Put((key, value)) => Command::Put((key.clone(), value.clone())),
            Command::Sleep(d) => Command::Sleep(*d),
        }
    }
}

/// Whether `r` queries `key`.
pub open spec fn is_query_of(r: Command, key: Seq<char>) -> bool {
    r matches Command::Get(k) && k@ == key
}

/// Whether `r` sets `key` to `value`.
pub open spec fn is_setter_of(r: Command, key: Seq<char>, value: Seq<char>) -> bool {
    r matches Command::Put((k, v)) && k@ == key && v@ == value
}

impl<'a> From<&'a str> for Command {
    /// A bare key is a query.
    fn from(key: &'a str) -> (r: Command)
        ensures
            r matches Command::Get(k) && k@ == key@,
    {
        Command::get(key)
    }
}

impl<'a> vstd::std_specs::convert::FromSpecImpl<&'a str> for Command {
    open spec fn obeys_from_spec() -> bool {
        false
    }

    open spec fn from_spec(key: &'a str) -> Command {
        choose|r: Command| #[trigger] is_query_of(r, key@)
    }
}

impl<'a, 'b> From<(&'a str, &'b str)> for Command {
    /// A key and a value make a setter.
    fn from(pair: (&'a str, &'b str)) -> (r: Command)
        ensures
            r matches Command::Put((k, v)) && k@ == pair.0@ && v@ == pair.1@,
    {
        Command::set(pair.0, pair.1)
    }
}

impl<'a, 'b> vstd::std_specs::convert::FromSpecImpl<(&'a str, &'b str)> for Command {
    open spec fn obeys_from_spec() -> bool {
        false
    }

    open spec fn from_spec(pair: (&'a str, &'b str)) -> Command {
        choose|r: Command| #[trigger] is_setter_of(r, pair.0@, pair.1@)
    }
}

impl<'a> From<(&'a str, String)> for Command {
    /// A key and an owned value make a setter.
    fn from(pair: (&'a str, String)) -> (r: Command)
        ensures
            r matches Command::Put((k, v)) && k@ == pair.0@ && v@ == pair.1@,
    {
        let (key, value) = pair;
        Command::Put((String::from_str(key), value))
    }
}

impl<'a> vstd::std_specs::convert::FromSpecImpl<(&'a str, String)> for Command {
    open spec fn obeys_from_spec() -> bool {
        false
    }

    open spec fn from_spec(pair: (&'a str, String)) -> Command {
        choose|r: Command| #[trigger] is_setter_of(r, pair.0@, pair.1@)
    }
}

impl Command {
    /// A query for `key`.
    pub fn get(key: &str) -> (r: Command)
        ensures
            r matches Command::Get(k) && k@ == key@,
    {
        Command::Get(String::from_str(key))
    }

    /// A setter of `key` to `value`.
    pub fn set(key: &str, value: &str) -> (r: Command)
        ensures
            r matches Command::Put((k, v)) && k@ == key@ && v@ == value@,
    {
        Command::Put((String::from_str(key), String::from_str(value)))
    }
}

/// The position of the first `=` in `s` at or after `from`, or the length of
/// `s` when there is none.
pub open spec fn find_equals(s: Seq<char>, from: int) -> int
    decreases s.len() - from,
{
    if from < 0 || from >= s.len() {
        s.len() as int
    } else if s[from] == '=' {
        from
    } else {
        find_equals(s, from + 1)
    }
}

/// The command that the text `s` denotes, read as `parse_command` reads it.
pub open spec fn parsed_as(r: Command, s: Seq<char>) -> bool {
    let i = find_equals(s, 0);
    if i == s.len() {
        r matches Command::Get(k) && is_ascii_lowercase_of(k@, s)
    } else {
        let lhs = s.subrange(0, i);
        let rhs = s.subrange(i + 1, s.len() as int);
        if rhs == seq!['?'] {
            r matches Command::Get(k) && is_ascii_lowercase_of(k@, lhs)
        } else {
            r matches Command::Put((k, v)) && is_ascii_lowercase_of(k@, lhs) && is_ascii_lowercase_of(
                v@,
                rhs,
            )
        }
    }
}

/// Reads a command written as `key` or `key=?` (a query) or `key=value` (a
/// setter); key and value are folded to ASCII lower case.
pub fn parse_command(s: &str) -> (r: Command)
    ensures
        parsed_as(r, s@),
{
    let n = s.unicode_len();
    let mut i: usize = 0;
    while i < n && s.get_char(i) != '='
        invariant
            n == s@.len(),
            i <= n,
            find_equals(s@, 0) == find_equals(s@, i as int),
        decreases n - i,
    {
        assert(find_equals(s@, i as int) == find_equals(s@, i + 1));
        i = i + 1;
    }
    if i == n {
        return Command::Get(ascii_lowercase(s));
    }
    assert(find_equals(s@, i as int) == i);
    let lhs = s.substring_char(0, i);
    let rhs = s.substring_char(i + 1, n);
    if rhs.unicode_len() == 1 && rhs.get_char(0) == '?' {
        assert(rhs@ =~= seq!['?']);
        Command::Get(ascii_lowercase(lhs))
    } else {
        assert(rhs@ != seq!['?']) by {
            if rhs@ == seq!['?'] {
                assert(rhs@.len() == 1 && rhs@[0] == '?');
            }
        }
        Command::Put((ascii_lowercase(lhs), ascii_lowercase(rhs)))
    }
}

} // verus!
