//! Server-supervisor decisions: which network address to serve on, whether
//! the machine is connected at all, what counts as a startup failure, and
//! the verdict when the two endpoints finish.
//!
//! The supervisor itself binds sockets and runs tasks outside this library;
//! every choice it makes is taken here, on plain values.

use vstd::prelude::*;

verus! {

/// A network address of this machine, as its plain components.
#[derive(Clone, Copy, PartialEq, Eq, Structural, Debug)]
pub enum HostAddr {
    /// An IPv4 address, one field per octet.
    V4(u8, u8, u8, u8),
    /// An IPv6 address, one field per 16-bit segment.
    V6(u16, u16, u16, u16, u16, u16, u16, u16),
}

impl HostAddr {
    /// A loopback address: `127.0.0.0/8`, or `::1`.
    pub open spec fn spec_is_loopback(self) -> bool {
        match self {
            HostAddr::V4(a, _b, _c, _d) => a == 127,
            HostAddr::V6(a, b, c, d, e, f, g, h) => a == 0 && b == 0 && c == 0 && d == 0 && e == 0
                && f == 0 && g == 0 && h == 1,
        }
    }

    /// Whether this address is a loopback address.
    pub fn is_loopback(&self) -> (r: bool)
        ensures
            r == self.spec_is_loopback(),
    {
        match *self {
            HostAddr::V4(a, _b, _c, _d) => a == 127,
            HostAddr::V6(a, b, c, d, e, f, g, h) => a == 0 && b == 0 && c == 0 && d == 0 && e == 0
                && f == 0 && g == 0 && h == 1,
        }
    }
}

/// Why the service could not come up.
#[derive(Clone, Copy, PartialEq, Eq, Structural, Debug)]
pub enum StartupError {
    /// No usable (non-loopback) network address was found.
    NoAddress,
    /// The asset endpoint could not bind its listener.
    HttpBindFailed,
    /// The realtime endpoint could not bind its listener.
    WsBindFailed,
    /// The asset directory or the address artifact could not be written.
    AssetBootstrapFailed,
}

/// How a completed run ended.
#[derive(Clone, Copy, PartialEq, Eq, Structural, Debug)]
pub enum RunOutcome {
    /// Both endpoints exited without error.
    Graceful,
    /// At least one endpoint exited with an error.
    Crash,
}

/// The machine is connected when some interface has a non-loopback address.
pub fn is_connected(interfaces: &Vec<HostAddr>) -> (r: bool)
    ensures
        r == exists|i: int| 0 <= i < interfaces@.len() && !interfaces@[i].spec_is_loopback(),
{
    let mut i: usize = 0;
    while i < interfaces.len()
        invariant
            i <= interfaces.len(),
            forall|j: int| 0 <= j < i ==> interfaces@[j].spec_is_loopback(),
        decreases interfaces.len() - i,
    {
        if !interfaces[i].is_loopback() {
            return true;
        }
        i = i + 1;
    }
    false
}

/// The address the servers bind to: the first non-loopback interface
/// address, in the order the interfaces were listed; none if every address
/// is loopback.
pub fn select_host_ip(interfaces: &Vec<HostAddr>) -> (r: Option<HostAddr>)
    ensures
        match r {
            Option::Some(a) => exists|i: int|
                {
                    &&& 0 <= i < interfaces@.len()
                    &&& interfaces@[i] == a
                    &&& !a.spec_is_loopback()
                    &&& forall|j: int| 0 <= j < i ==> interfaces@[j].spec_is_loopback()
                },
            Option::None => forall|i: int|
                0 <= i < interfaces@.len() ==> interfaces@[i].spec_is_loopback(),
        },
{
    let mut i: usize = 0;
    while i < interfaces.len()
        invariant
            i <= interfaces.len(),
            forall|j: int| 0 <= j < i ==> interfaces@[j].spec_is_loopback(),
        decreases interfaces.len() - i,
    {
        if !interfaces[i].is_loopback() {
            return Option::Some(interfaces[i]);
        }
        i = i + 1;
    }
    Option::None
}

/// The supervisor's verdict once both endpoints have finished: a crash of
/// either fails the whole run, and only an error-free exit of both is a
/// graceful shutdown.
pub fn run_verdict(http_ok: bool, ws_ok: bool) -> (r: RunOutcome)
    ensures
        r == RunOutcome::Graceful <==> http_ok && ws_ok,
        r == RunOutcome::Crash <==> !(http_ok && ws_ok),
{
    if http_ok && ws_ok {
        RunOutcome::Graceful
    } else {
        RunOutcome::Crash
    }
}

} // verus!
