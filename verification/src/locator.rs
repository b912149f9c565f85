//! Discovery of the peer's local endpoint.
//!
//! Up to ten well-known candidate endpoints exist, named `discord-ipc-0`
//! through `discord-ipc-9`. They are tried strictly in ascending order; the
//! first that connects wins and no later one is ever attempted; when all ten
//! fail the search reports that no connection was found. The probing itself
//! is the embedding program's: it asks this module for the next candidate to
//! try and reports back whether the attempt succeeded.

use vstd::prelude::*;
use vstd::string::StringExecFns;
use crate::error::Error;

verus! {

/// The well-known name of one candidate endpoint.
pub open spec fn candidate_name_spec(i: int) -> Seq<char> {
    if i == 0 {
        "discord-ipc-0"@
    } else if i == 1 {
        "discord-ipc-1"@
    } else if i == 2 {
        "discord-ipc-2"@
    } else if i == 3 {
        "discord-ipc-3"@
    } else if i == 4 {
        "discord-ipc-4"@
    } else if i == 5 {
        "discord-ipc-5"@
    } else if i == 6 {
        "discord-ipc-6"@
    } else if i == 7 {
        "discord-ipc-7"@
    } else if i == 8 {
        "discord-ipc-8"@
    } else {
        "discord-ipc-9"@
    }
}

/// The well-known name of one candidate endpoint.
pub fn candidate_name(i: usize) -> (r: &'static str)
    requires
        i < 10,
    ensures
        r@ == candidate_name_spec(i as int),
{
    match i {
        0 => "discord-ipc-0",
        1 => "discord-ipc-1",
        2 => "discord-ipc-2",
        3 => "discord-ipc-3",
        4 => "discord-ipc-4",
        5 => "discord-ipc-5",
        6 => "discord-ipc-6",
        7 => "discord-ipc-7",
        8 => "discord-ipc-8",
        _ => "discord-ipc-9",
    }
}

/// The filesystem path of a socket-style candidate under a base directory.
pub fn socket_path(base: &str, i: usize) -> (r: String)
    requires
        i < 10,
    ensures
        r@ == base@ + "/"@ + candidate_name_spec(i as int),
{
    let mut out = base.to_owned();
    out.append("/");
    out.append(candidate_name(i));
    out
}

/// The name of a duplex-pipe candidate under the fixed pipe prefix.
pub fn pipe_name(i: usize) -> (r: String)
    requires
        i < 10,
    ensures
        r@ == "\\\\.\\pipe\\"@ + candidate_name_spec(i as int),
{
    let mut out = String::from_str("\\\\.\\pipe\\");
    out.append(candidate_name(i));
    out
}

/// The base directory for socket-style candidates: the runtime directory
/// when one is set, else the temporary directory, else nothing.
pub fn base_directory(runtime_dir: Option<String>, temp_dir: Option<String>) -> (r: Option<
    String,
>)
    ensures
        runtime_dir is Some ==> r == runtime_dir,
        runtime_dir is None ==> r == temp_dir,
{
    match runtime_dir {
        Some(d) => Some(d),
        None => temp_dir,
    }
}

/// Hands out candidate indices one by one, in ascending order, and never
/// hands one out twice or out of order.
pub struct Locator {
    /// The next candidate index to try.
    pub next_index: usize,
}

impl Locator {
    /// Starts a search at the first candidate.
    pub fn new() -> (l: Locator)
        ensures
            l.next_index == 0,
    {
        Locator { next_index: 0 }
    }

    /// The next candidate index to try: each index from 0 through 9 exactly
    /// once, ascending, then nothing, at which point the search has failed
    /// with no connection found.
    pub fn next_candidate(&mut self) -> (r: Option<usize>)
        ensures
            old(self).next_index < 10 ==> r == Some(old(self).next_index)
                && final(self).next_index == old(self).next_index + 1,
            old(self).next_index >= 10 ==> r is None
                && final(self).next_index == old(self).next_index,
    {
        if self.next_index < 10 {
            let i = self.next_index;
            self.next_index = i + 1;
            Some(i)
        } else {
            None
        }
    }
}

/// Picks the endpoint a search connects to, given which candidates would
/// accept: the lowest available index wins; when none is available the
/// search fails with no connection found, after considering all ten.
pub fn locate(available: &Vec<bool>) -> (r: Result<usize, Error>)
    requires
        available@.len() == 10,
    ensures
        match r {
            Ok(i) => i < 10 && available@[i as int] && (forall|j: int|
                0 <= j < i ==> !available@[j]),
            Err(e) => e == Error::ConnectionNotFound && (forall|j: int|
                0 <= j < 10 ==> !available@[j]),
        },
{
    let mut locator = Locator::new();
    loop
        invariant
            available@.len() == 10,
            locator.next_index <= 10,
            forall|j: int| 0 <= j < locator.next_index ==> !available@[j],
        decreases 10 - locator.next_index,
    {
        match locator.next_candidate() {
            Some(i) => {
                if available[i] {
                    return Ok(i);
                }
            },
            None => {
                return Err(Error::ConnectionNotFound);
            },
        }
    }
}

} // verus!
