//! Process-wide immutable configuration: network credentials, the fetch
//! target with its transport mode, the TLS policy, and the named buffer
//! capacities that bound every fetch cycle.

use vstd::prelude::*;

verus! {

/// Largest network identifier the radio accepts, in bytes.
pub const MAX_SSID_BYTES: usize = 32;

/// Capacity of the per-cycle response buffer, sized to the largest expected
/// response body.
pub const RESPONSE_BUFFER_BYTES: usize = 8192;

/// Capacity of each TLS record buffer, sized to the largest TLS record plus
/// framing overhead.
pub const TLS_RECORD_BUFFER_BYTES: usize = 16640;

/// Interval between polls of the address-configuration condition.
pub const ADDRESS_POLL_INTERVAL_MS: u64 = 100;

/// Interval between polls of the link-up condition.
pub const LINK_POLL_INTERVAL_MS: u64 = 500;

/// Pause between two fetch cycles.
pub const FETCH_PERIOD_SECS: u64 = 10;

/// The two retry policies of the system, deliberately distinct: association
/// failures are retried immediately and forever, while any fetch-cycle
/// failure ends the fetch task for good.
#[derive(Clone, Copy, PartialEq, Eq, Structural, Debug)]
pub enum RetryPolicy {
    /// Retry immediately and indefinitely, with no backoff and no limit.
    RetryForever,
    /// Give up on the first failure; no later attempt is ever made.
    FailFast,
}

/// How the transport channel to the target is built, derived from the
/// target's URL scheme.
#[derive(Clone, Copy, PartialEq, Eq, Structural, Debug)]
pub enum TransportMode {
    Plain,
    Tls,
}

/// Whether and how the peer of an encrypted channel is authenticated.
///
/// `EnabledNoVerify` encrypts the channel but never checks the peer's
/// identity: any certificate, including a self-signed one, completes the
/// handshake. This trust gap is a deliberate configuration choice that an
/// integrator must select consciously; see [`crate::fetch::handshake_permitted`].
#[derive(Clone, Copy, PartialEq, Eq, Structural, Debug)]
pub enum TlsPolicy {
    /// The channel is plaintext; no TLS session exists.
    Disabled,
    /// The channel is encrypted, the peer's identity is not checked.
    EnabledNoVerify,
    /// The channel is encrypted and the peer's certificate chain must
    /// verify against the configured trust anchor.
    EnabledVerify,
}

/// Rejected configuration input.
#[derive(Clone, Copy, PartialEq, Eq, Structural, Debug)]
pub enum ConfigError {
    /// The network identifier exceeds [`MAX_SSID_BYTES`].
    SsidTooLong,
    /// The target URL starts with neither `http://` nor `https://`.
    UnsupportedScheme,
}

/// The bytes of the prefix `http://`.
pub open spec fn http_prefix() -> Seq<u8> {
    seq![104u8, 116u8, 116u8, 112u8, 58u8, 47u8, 47u8]
}

/// The bytes of the prefix `https://`.
pub open spec fn https_prefix() -> Seq<u8> {
    seq![104u8, 116u8, 116u8, 112u8, 115u8, 58u8, 47u8, 47u8]
}

/// Whether `url` starts with `https://`.
pub open spec fn is_https_scheme(url: Seq<u8>) -> bool {
    url.len() >= 8 && url.subrange(0, 8) == https_prefix()
}

/// Whether `url` starts with `http://`.
pub open spec fn is_http_scheme(url: Seq<u8>) -> bool {
    url.len() >= 7 && url.subrange(0, 7) == http_prefix()
}

/// The transport mode a URL's scheme selects: `https://` uses TLS,
/// `http://` stays plaintext, anything else is rejected.
pub open spec fn scheme_mode(url: Seq<u8>) -> Option<TransportMode> {
    if is_https_scheme(url) {
        Some(TransportMode::Tls)
    } else if is_http_scheme(url) {
        Some(TransportMode::Plain)
    } else {
        None
    }
}

/// Network credentials: an identifier of at most [`MAX_SSID_BYTES`] bytes
/// and a pre-shared secret. Immutable for the process lifetime.
#[derive(Debug)]
pub struct Credentials {
    pub ssid: Vec<u8>,
    pub secret: Vec<u8>,
}

impl Credentials {
    /// The identifier fits what the radio accepts.
    pub open spec fn wf(&self) -> bool {
        self.ssid@.len() <= MAX_SSID_BYTES
    }

    /// Accepts the credentials exactly when the identifier is short enough.
    pub fn new(ssid: Vec<u8>, secret: Vec<u8>) -> (r: Result<Credentials, ConfigError>)
        ensures
            r is Ok <==> ssid@.len() <= MAX_SSID_BYTES,
            r matches Ok(c) ==> c.ssid@ == ssid@ && c.secret@ == secret@ && c.wf(),
            r is Err ==> r == Err::<Credentials, ConfigError>(ConfigError::SsidTooLong),
    {
        if ssid.len() <= MAX_SSID_BYTES {
            Ok(Credentials { ssid, secret })
        } else {
            Err(ConfigError::SsidTooLong)
        }
    }
}

/// The resource to fetch: its URL and the transport mode its scheme
/// selects. Immutable for the process lifetime.
#[derive(Debug)]
pub struct FetchTarget {
    pub url: Vec<u8>,
    pub mode: TransportMode,
}

impl FetchTarget {
    /// The stored mode is the one the URL's scheme selects.
    pub open spec fn wf(&self) -> bool {
        scheme_mode(self.url@) == Some(self.mode)
    }

    /// Accepts the URL exactly when its scheme is `http` or `https`, and
    /// derives the transport mode from it.
    pub fn from_url(url: Vec<u8>) -> (r: Result<FetchTarget, ConfigError>)
        ensures
            r is Ok <==> scheme_mode(url@) is Some,
            r matches Ok(t) ==> t.url@ == url@ && Some(t.mode) == scheme_mode(url@) && t.wf(),
            r is Err ==> r == Err::<FetchTarget, ConfigError>(ConfigError::UnsupportedScheme),
    {
        match transport_for_url(url.as_slice()) {
            Some(mode) => Ok(FetchTarget { url, mode }),
            None => Err(ConfigError::UnsupportedScheme),
        }
    }
}

/// The TLS policy each transport mode is paired with by default: encrypted
/// targets get an encrypted but unauthenticated channel, plain targets get
/// none.
pub fn default_policy_for(mode: TransportMode) -> (p: TlsPolicy)
    ensures
        mode == TransportMode::Tls ==> p == TlsPolicy::EnabledNoVerify,
        mode == TransportMode::Plain ==> p == TlsPolicy::Disabled,
{
    match mode {
        TransportMode::Tls => TlsPolicy::EnabledNoVerify,
        TransportMode::Plain => TlsPolicy::Disabled,
    }
}

/// Decides the transport mode from the URL's scheme prefix.
pub fn transport_for_url(url: &[u8]) -> (r: Option<TransportMode>)
    ensures
        r == scheme_mode(url@),
{
    if url.len() >= 8 && url[0] == 104 && url[1] == 116 && url[2] == 116 && url[3] == 112
        && url[4] == 115 && url[5] == 58 && url[6] == 47 && url[7] == 47 {
        proof {
            assert(url@.subrange(0, 8) =~= https_prefix());
        }
        Some(TransportMode::Tls)
    } else if url.len() >= 7 && url[0] == 104 && url[1] == 116 && url[2] == 116
        && url[3] == 112 && url[4] == 58 && url[5] == 47 && url[6] == 47 {
        proof {
            assert(url@.subrange(0, 7) =~= http_prefix());
            if is_https_scheme(url@) {
                assert(url@.subrange(0, 8)[4] == url@[4]);
            }
        }
        Some(TransportMode::Plain)
    } else {
        proof {
            if is_https_scheme(url@) {
                assert(forall|j: int| 0 <= j < 8 ==> url@.subrange(0, 8)[j] == url@[j]);
            }
            if is_http_scheme(url@) {
                assert(forall|j: int| 0 <= j < 7 ==> url@.subrange(0, 7)[j] == url@[j]);
            }
        }
        None
    }
}

} // verus!
