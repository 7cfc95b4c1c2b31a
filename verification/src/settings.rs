//! What the client is started with: the relay's address, the local address
//! to forward to, and the pairing token.

use vstd::prelude::*;
use crate::dispatch::{strip_trailing_slashes, PairingContext};
use crate::json::text_of;

verus! {

/// Why the client cannot start.
#[derive(Debug, PartialEq, Eq, Structural, Clone, Copy)]
pub enum StartupError {
    /// No relay address was given.
    NoRelayAddress,
    /// No local address was given.
    NoLocalAddress,
    /// The relay address is no absolute URL.
    BadRelayAddress,
}

/// The relay's address and the pairing context, fixed for the life of the
/// process.
#[derive(Debug)]
pub struct Settings {
    pub relay: String,
    pub context: PairingContext,
}

/// Whether a text is an absolute URL.
pub uninterp spec fn is_absolute_url(text: Seq<char>) -> bool;

/// Calls `Url::parse` of the `url` crate and tells whether it accepted the
/// text, which depends on the text alone.
#[verifier::external_body]
fn parses_as_url(text: &str) -> (r: bool)
    ensures
        r == is_absolute_url(text@),
{
    url::Url::parse(text).is_ok()
}

/// What is wrong with the addresses, if anything: the relay address is
/// looked at first, then the local address, then whether the relay address
/// is a URL.
pub open spec fn startup_error(relay: Option<Seq<char>>, local: Option<Seq<char>>) -> Option<
    StartupError,
> {
    match (relay, local) {
        (None, _) => Some(StartupError::NoRelayAddress),
        (Some(_), None) => Some(StartupError::NoLocalAddress),
        (Some(r), Some(_)) => if is_absolute_url(r) {
            None
        } else {
            Some(StartupError::BadRelayAddress)
        },
    }
}

impl Settings {
    /// Checks the addresses and builds the settings. The relay address is
    /// kept as it is; the local address loses its trailing slashes.
    pub fn new(relay: Option<String>, local: Option<String>, pairing_code: Option<String>) -> (r:
        Result<Settings, StartupError>)
        ensures
            match r {
                Ok(s) => {
                    &&& startup_error(text_of(relay), text_of(local)) is None
                    &&& Some(s.relay@) == text_of(relay)
                    &&& text_of(local) is Some
                    &&& s.context@.target == strip_trailing_slashes(text_of(local)->0)
                    &&& s.context@.code == text_of(pairing_code)
                },
                Err(e) => startup_error(text_of(relay), text_of(local)) == Some(e),
            },
    {
        let relay = match relay {
            Some(r) => r,
            None => {
                return Err(StartupError::NoRelayAddress);
            },
        };
        let local = match local {
            Some(l) => l,
            None => {
                return Err(StartupError::NoLocalAddress);
            },
        };
        if !parses_as_url(relay.as_str()) {
            return Err(StartupError::BadRelayAddress);
        }
        let context = PairingContext::new(local.as_str(), pairing_code);
        Ok(Settings { relay, context })
    }
}

} // verus!
