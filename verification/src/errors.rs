//! The engine's error taxonomy. Fatal categories abort `start` and
//! leave no partial state; non-fatal ones are handled per packet or per
//! flow and never unwind the packet loop.

use vstd::prelude::*;

verus! {

/// Every failure category the engine distinguishes.
#[derive(Clone, Copy, Debug, PartialEq, Eq, Structural)]
pub enum EngineError {
    /// The process lacks administrator or root rights; fatal to start.
    Privilege,
    /// The virtual interface could not be created, read or written;
    /// fatal.
    Device,
    /// A route could not be added or deleted; fatal to start, after
    /// rollback of the routes already added.
    Route,
    /// The proxy engine is not running or not healthy; the flow falls
    /// back to a direct connection.
    ProxyUnavailable,
    /// The SOCKS5 handshake or connect failed; the flow falls back to a
    /// direct connection.
    Socks5Protocol,
    /// The FakeIP pool has no free address left; that one DNS query
    /// fails.
    PoolExhausted,
}

impl EngineError {
    /// Whether the category aborts `start` (as opposed to being handled
    /// per packet or per flow).
    pub open spec fn spec_is_fatal(self) -> bool {
        match self {
            EngineError::Privilege => true,
            EngineError::Device => true,
            EngineError::Route => true,
            EngineError::ProxyUnavailable => false,
            EngineError::Socks5Protocol => false,
            EngineError::PoolExhausted => false,
        }
    }

    #[verifier::when_used_as_spec(spec_is_fatal)]
    pub fn is_fatal(self) -> (r: bool)
        ensures
            r == self.spec_is_fatal(),
    {
        match self {
            EngineError::Privilege => true,
            EngineError::Device => true,
            EngineError::Route => true,
            EngineError::ProxyUnavailable => false,
            EngineError::Socks5Protocol => false,
            EngineError::PoolExhausted => false,
        }
    }

    /// The category's user-visible description.
    pub open spec fn spec_message(self) -> Seq<char> {
        match self {
            EngineError::Privilege => "administrator privileges are required"@,
            EngineError::Device => "the virtual interface failed"@,
            EngineError::Route => "a route could not be changed"@,
            EngineError::ProxyUnavailable => "no healthy proxy endpoint"@,
            EngineError::Socks5Protocol => "the SOCKS5 exchange failed"@,
            EngineError::PoolExhausted => "the FakeIP pool is exhausted"@,
        }
    }

    pub fn message(&self) -> (r: String)
        ensures
            r@ == self.spec_message(),
    {
        match self {
            EngineError::Privilege => String::from_str("administrator privileges are required"),
            EngineError::Device => String::from_str("the virtual interface failed"),
            EngineError::Route => String::from_str("a route could not be changed"),
            EngineError::ProxyUnavailable => String::from_str("no healthy proxy endpoint"),
            EngineError::Socks5Protocol => String::from_str("the SOCKS5 exchange failed"),
            EngineError::PoolExhausted => String::from_str("the FakeIP pool is exhausted"),
        }
    }
}

} // verus!
