//! The settings of a socket server.

use vstd::prelude::*;
use crate::json::text;

verus! {

/// The certificate and key with which a server speaks TLS.
#[derive(Clone, Debug)]
pub struct AsyncSocketSecurity {
    pub cert_path: String,
    pub key_path: String,
}

/// The address on which a server listens.
#[derive(Clone, Copy, Debug)]
pub enum BindAddr {
    V4 { octets: [u8; 4], port: u16 },
    V6 { segments: [u16; 8], port: u16, flowinfo: u32, scope_id: u32 },
}

impl BindAddr {
    /// The port of an address.
    pub open spec fn spec_port(self) -> u16 {
        match self {
            BindAddr::V4 { port, .. } => port,
            BindAddr::V6 { port, .. } => port,
        }
    }

    /// The same address with another port.
    pub open spec fn with_port_spec(self, port: u16) -> BindAddr {
        match self {
            BindAddr::V4 { octets, .. } => BindAddr::V4 { octets, port },
            BindAddr::V6 { segments, flowinfo, scope_id, .. } => BindAddr::V6 {
                segments,
                port,
                flowinfo,
                scope_id,
            },
        }
    }

    /// The port of this address.
    pub fn port(&self) -> (p: u16)
        ensures
            p == self.spec_port(),
    {
        match self {
            BindAddr::V4 { port, .. } => *port,
            BindAddr::V6 { port, .. } => *port,
        }
    }

    /// The same address with another port.
    pub fn with_port(self, port: u16) -> (a: BindAddr)
        ensures
            a == self.with_port_spec(port),
            a.spec_port() == port,
    {
        match self {
            BindAddr::V4 { octets, .. } => BindAddr::V4 { octets, port },
            BindAddr::V6 { segments, flowinfo, scope_id, .. } => BindAddr::V6 {
                segments,
                port,
                flowinfo,
                scope_id,
            },
        }
    }
}

/// How long a call waits for its response: whole seconds and the
/// nanoseconds beyond them.
#[derive(Clone, Copy, Debug)]
pub struct Timeout {
    secs: u64,
    nanos: u32,
}

/// The text by which `std::time::Duration` shows a span of `secs` seconds
/// and `nanos` nanoseconds in its `Debug` form.
pub uninterp spec fn duration_debug(secs: u64, nanos: u32) -> Seq<char>;

/// Calls `format!("{:?}", std::time::Duration::new(secs, nanos))`, which
/// does not panic when `nanos` is below a second.
#[verifier::external_body]
fn duration_debug_text(secs: u64, nanos: u32) -> (s: String)
    requires
        nanos < 1_000_000_000,
    ensures
        s@ == duration_debug(secs, nanos),
{
    format!("{:?}", std::time::Duration::new(secs, nanos))
}

impl View for Timeout {
    type V = (u64, u32);

    closed spec fn view(&self) -> (u64, u32) {
        (self.secs, self.nanos)
    }
}

impl Timeout {
    #[verifier::type_invariant]
    spec fn inv(self) -> bool {
        self.nanos < 1_000_000_000
    }

    /// A span of whole seconds.
    pub fn from_secs(secs: u64) -> (t: Timeout)
        ensures
            t@ == (secs, 0u32),
    {
        Timeout { secs, nanos: 0 }
    }

    /// A span of `secs` seconds and `nanos` nanoseconds; whole seconds in
    /// `nanos` are carried into the seconds, as `Duration::new` does. The
    /// seconds must not overflow.
    pub fn new(secs: u64, nanos: u32) -> (t: Timeout)
        requires
            secs + nanos / 1_000_000_000 <= u64::MAX,
        ensures
            t@ == ((secs + nanos / 1_000_000_000) as u64, (nanos % 1_000_000_000) as u32),
    {
        let extra: u32 = nanos / 1_000_000_000;
        let rest: u32 = nanos % 1_000_000_000;
        Timeout { secs: secs + extra as u64, nanos: rest }
    }

    /// The whole seconds of the span.
    pub fn as_secs(&self) -> (s: u64)
        ensures
            s == self@.0,
    {
        self.secs
    }

    /// The nanoseconds of the span beyond its whole seconds.
    pub fn subsec_nanos(&self) -> (n: u32)
        ensures
            n == self@.1,
            n < 1_000_000_000,
    {
        proof {
            use_type_invariant(self);
        }
        self.nanos
    }

    /// The text by which the span is shown.
    pub fn debug_text(&self) -> (s: String)
        ensures
            s@ == duration_debug(self@.0, self@.1),
    {
        proof {
            use_type_invariant(self);
        }
        duration_debug_text(self.secs, self.nanos)
    }
}

/// The settings of a socket server.
#[derive(Clone, Debug)]
pub struct AsyncSocketOptions {
    /// The path under which the server accepts WebSocket connections.
    pub path: String,
    /// The address on which the server listens.
    pub bind_addr: BindAddr,
    /// How long a call waits for its response.
    pub timeout: Timeout,
    pub verbose: bool,
    pub security: Option<AsyncSocketSecurity>,
}

impl AsyncSocketOptions {
    /// The default settings: path `test`, address `127.0.0.1:2000`, a
    /// timeout of one second, not verbose, no TLS.
    pub fn new() -> (o: AsyncSocketOptions)
        ensures
            o.path@ == "test"@,
            o.bind_addr == (BindAddr::V4 { octets: [127u8, 0u8, 0u8, 1u8], port: 2000u16 }),
            o.timeout@ == (1u64, 0u32),
            !o.verbose,
            o.security is None,
    {
        AsyncSocketOptions {
            path: text("test"),
            bind_addr: BindAddr::V4 { octets: [127u8, 0u8, 0u8, 1u8], port: 2000u16 },
            timeout: Timeout::from_secs(1),
            verbose: false,
            security: None,
        }
    }

    /// The same settings with another path.
    pub fn with_path(self, path: &str) -> (o: AsyncSocketOptions)
        ensures
            o.path@ == path@,
            o.bind_addr == self.bind_addr,
            o.timeout == self.timeout,
            o.verbose == self.verbose,
            o.security == self.security,
    {
        AsyncSocketOptions { path: text(path), ..self }
    }

    /// The same settings with another address.
    pub fn with_bind_addr(self, bind_addr: BindAddr) -> (o: AsyncSocketOptions)
        ensures
            o.path == self.path,
            o.bind_addr == bind_addr,
            o.timeout == self.timeout,
            o.verbose == self.verbose,
            o.security == self.security,
    {
        AsyncSocketOptions { bind_addr, ..self }
    }

    /// The same settings with the address on another port.
    pub fn with_port(self, port: u16) -> (o: AsyncSocketOptions)
        ensures
            o.path == self.path,
            o.bind_addr == self.bind_addr.with_port_spec(port),
            o.timeout == self.timeout,
            o.verbose == self.verbose,
            o.security == self.security,
    {
        let bind_addr = self.bind_addr.with_port(port);
        AsyncSocketOptions { bind_addr, ..self }
    }

    /// The same settings with another timeout.
    pub fn with_timeout(self, timeout: Timeout) -> (o: AsyncSocketOptions)
        ensures
            o.path == self.path,
            o.bind_addr == self.bind_addr,
            o.timeout == timeout,
            o.verbose == self.verbose,
            o.security == self.security,
    {
        AsyncSocketOptions { timeout, ..self }
    }

    /// The same settings, verbose or not.
    pub fn with_verbose(self, verbose: bool) -> (o: AsyncSocketOptions)
        ensures
            o.path == self.path,
            o.bind_addr == self.bind_addr,
            o.timeout == self.timeout,
            o.verbose == verbose,
            o.security == self.security,
    {
        AsyncSocketOptions { verbose, ..self }
    }

    /// The same settings, speaking TLS with the given certificate and key.
    pub fn with_security(self, security: AsyncSocketSecurity) -> (o: AsyncSocketOptions)
        ensures
            o.path == self.path,
            o.bind_addr == self.bind_addr,
            o.timeout == self.timeout,
            o.verbose == self.verbose,
            o.security == Some(security),
    {
        AsyncSocketOptions { security: Some(security), ..self }
    }
}

impl Default for AsyncSocketOptions {
    fn default() -> (o: AsyncSocketOptions)
        ensures
            o.path@ == "test"@,
            o.bind_addr == (BindAddr::V4 { octets: [127u8, 0u8, 0u8, 1u8], port: 2000u16 }),
            o.timeout@ == (1u64, 0u32),
            !o.verbose,
            o.security is None,
    {
        AsyncSocketOptions::new()
    }
}

} // verus!
