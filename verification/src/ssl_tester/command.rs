//! What a TLS test is made of: the options as they were given, how they are
//! read, and the settings that the handshake is to be tried with.

use super::error::{Error, ErrorView};
use crate::text::{decimal_text, lowercase_of, push_decimal, push_text, same_text, to_lowercase};
use vstd::prelude::*;

verus! {

/// A version of the SSL/TLS protocol.
#[derive(Clone, Copy, Debug, PartialEq, Eq, Structural)]
pub enum ProtoVersion {
    Ssl3,
    Tls1,
    Tls1_1,
    Tls1_2,
    Tls1_3,
}

/// Whether the certificate of the peer is verified.
#[derive(Clone, Copy, Debug, PartialEq, Eq, Structural)]
pub enum VerifyMode {
    /// No verification.
    Off,
    /// The peer's certificate is verified.
    Peer,
}

/// A bound on the protocol version as an option gives it: no word on it
/// (`None`), the word that there is no bound (`Some(None)`), or a version.
pub type VersionBound = Option<Option<ProtoVersion>>;

/// `ssl-tester` is a utility that connects to a given target and tests
/// compatibility with a given set of ciphers, protocols, etc.
#[derive(Clone, Debug)]
pub struct Command {
    /// Whether or not certificate verification should be enabled.
    pub tls_verify: VerifyMode,
    /// Depth of certificate verification.
    pub tls_verify_depth: u32,
    /// The lowest supported protocol version.
    pub tls_min_proto_version: VersionBound,
    /// The highest supported protocol version.
    pub tls_max_proto_version: VersionBound,
    /// The highest and lowest supported protocol version.
    pub tls_proto_version: VersionBound,
    /// Disable the use of SNI.
    pub tls_disable_sni: bool,
    /// Disable the use of hostname verification.
    pub tls_disable_hostname_verification: bool,
    /// The domain to use for TLS SNI, if it is different from the host.
    pub tls_sni_domain: Option<String>,
    /// The remote host to connect to.
    pub host: String,
    /// The remote port to connect to.
    pub port: u16,
}

/// The settings that a handshake is tried with.
#[derive(Clone, Debug, PartialEq, Eq)]
pub struct HandshakePlan {
    /// Whether the certificate of the peer is verified.
    pub verify: VerifyMode,
    /// Depth of certificate verification.
    pub verify_depth: u32,
    /// The lowest protocol version to set, where one is to be set.
    pub min_proto_version: VersionBound,
    /// The highest protocol version to set, where one is to be set.
    pub max_proto_version: VersionBound,
    /// Whether the server name is indicated.
    pub use_server_name_indication: bool,
    /// Whether the host name is verified.
    pub verify_hostname: bool,
    /// Where to connect to: host, a colon, port.
    pub address: String,
    /// The domain that the handshake names.
    pub domain: String,
}

/// A handshake plan as a mathematical value.
pub struct HandshakePlanView {
    pub verify: VerifyMode,
    pub verify_depth: u32,
    pub min_proto_version: VersionBound,
    pub max_proto_version: VersionBound,
    pub use_server_name_indication: bool,
    pub verify_hostname: bool,
    pub address: Seq<char>,
    pub domain: Seq<char>,
}

impl View for HandshakePlan {
    type V = HandshakePlanView;

    open spec fn view(&self) -> HandshakePlanView {
        HandshakePlanView {
            verify: self.verify,
            verify_depth: self.verify_depth,
            min_proto_version: self.min_proto_version,
            max_proto_version: self.max_proto_version,
            use_server_name_indication: self.use_server_name_indication,
            verify_hostname: self.verify_hostname,
            address: self.address@,
            domain: self.domain@,
        }
    }
}

/// The protocol version that a lower-case word names: one of the five
/// versions, or no version for the empty word; `None` for any other word.
pub open spec fn proto_version_named(lower: Seq<char>) -> Option<Option<ProtoVersion>> {
    if lower == "sslv3"@ {
        Some(Some(ProtoVersion::Ssl3))
    } else if lower == "tlsv1"@ {
        Some(Some(ProtoVersion::Tls1))
    } else if lower == "tlsv1.1"@ {
        Some(Some(ProtoVersion::Tls1_1))
    } else if lower == "tlsv1.2"@ {
        Some(Some(ProtoVersion::Tls1_2))
    } else if lower == "tlsv1.3"@ {
        Some(Some(ProtoVersion::Tls1_3))
    } else if lower == ""@ {
        Some(None)
    } else {
        None
    }
}

/// The verification mode that a lower-case word names, if any.
pub open spec fn verify_mode_named(lower: Seq<char>) -> Option<VerifyMode> {
    if lower == "none"@ {
        Some(VerifyMode::Off)
    } else if lower == "peer"@ {
        Some(VerifyMode::Peer)
    } else {
        None
    }
}

/// Reads a protocol version from the lower-case form `lower` of the word
/// `given`; the error names the word as it was given.
pub fn proto_version_from(lower: &str, given: &str) -> (r: Result<Option<ProtoVersion>, Error>)
    ensures
        match r {
            Ok(version) => proto_version_named(lower@) == Some(version),
            Err(e) => proto_version_named(lower@) is None && e@
                == (ErrorView::UnknownProtocolVersion { version: given@ }),
        },
{
    if same_text(lower, "sslv3") {
        Ok(Some(ProtoVersion::Ssl3))
    } else if same_text(lower, "tlsv1") {
        Ok(Some(ProtoVersion::Tls1))
    } else if same_text(lower, "tlsv1.1") {
        Ok(Some(ProtoVersion::Tls1_1))
    } else if same_text(lower, "tlsv1.2") {
        Ok(Some(ProtoVersion::Tls1_2))
    } else if same_text(lower, "tlsv1.3") {
        Ok(Some(ProtoVersion::Tls1_3))
    } else if same_text(lower, "") {
        Ok(None)
    } else {
        let mut version = String::new();
        push_text(&mut version, given);
        Err(Error::UnknownProtocolVersion { version })
    }
}

/// Reads a protocol version, whatever the case of its letters. The empty
/// word stands for no version.
pub fn try_parse_proto_version(version: &str) -> (r: Result<Option<ProtoVersion>, Error>)
    ensures
        match r {
            Ok(parsed) => proto_version_named(lowercase_of(version@)) == Some(parsed),
            Err(e) => proto_version_named(lowercase_of(version@)) is None && e@
                == (ErrorView::UnknownProtocolVersion { version: version@ }),
        },
{
    let lower = to_lowercase(version);
    proto_version_from(lower.as_str(), version)
}

/// Reads a verification mode from the lower-case form `lower` of the word
/// `given`; the error names the word as it was given.
pub fn verify_mode_from(lower: &str, given: &str) -> (r: Result<VerifyMode, Error>)
    ensures
        match r {
            Ok(mode) => verify_mode_named(lower@) == Some(mode),
            Err(e) => verify_mode_named(lower@) is None && e@ == (ErrorView::UnknownSslVerifyMode {
                mode: given@,
            }),
        },
{
    if same_text(lower, "none") {
        Ok(VerifyMode::Off)
    } else if same_text(lower, "peer") {
        Ok(VerifyMode::Peer)
    } else {
        let mut mode = String::new();
        push_text(&mut mode, given);
        Err(Error::UnknownSslVerifyMode { mode })
    }
}

/// Reads a verification mode, whatever the case of its letters.
pub fn try_parse_ssl_verify_mode(mode: &str) -> (r: Result<VerifyMode, Error>)
    ensures
        match r {
            Ok(parsed) => verify_mode_named(lowercase_of(mode@)) == Some(parsed),
            Err(e) => verify_mode_named(lowercase_of(mode@)) is None && e@
                == (ErrorView::UnknownSslVerifyMode { mode: mode@ }),
        },
{
    let lower = to_lowercase(mode);
    verify_mode_from(lower.as_str(), mode)
}

/// The two bounds that the options ask for, lower bound first. The option
/// for both bounds at once excludes each of the two others; where it stands
/// alone, it gives both bounds.
pub open spec fn version_bounds(
    min: VersionBound,
    max: VersionBound,
    both: VersionBound,
) -> Result<(VersionBound, VersionBound), ErrorView> {
    if both is Some {
        if min is Some {
            Err(ErrorView::ConflictingOptions("tls-proto-version"@, "tls-min-proto-version"@))
        } else if max is Some {
            Err(ErrorView::ConflictingOptions("tls-proto-version"@, "tls-max-proto-version"@))
        } else {
            Ok((both, both))
        }
    } else {
        Ok((min, max))
    }
}

/// The address to connect to: the host, a colon, and the port in decimal.
pub open spec fn address_text(host: Seq<char>, port: u16) -> Seq<char> {
    host + seq![':'] + decimal_text(port as nat)
}

impl Command {
    /// The two bounds on the protocol version that the options ask for,
    /// lower bound first.
    pub fn proto_bounds(&self) -> (r: Result<(VersionBound, VersionBound), Error>)
        ensures
            match r {
                Ok(bounds) => version_bounds(
                    self.tls_min_proto_version,
                    self.tls_max_proto_version,
                    self.tls_proto_version,
                ) == Ok::<_, ErrorView>(bounds),
                Err(e) => version_bounds(
                    self.tls_min_proto_version,
                    self.tls_max_proto_version,
                    self.tls_proto_version,
                ) == Err::<(VersionBound, VersionBound), _>(e@),
            },
    {
        if self.tls_proto_version.is_some() {
            if self.tls_min_proto_version.is_some() {
                Err(Error::ConflictingOptions("tls-proto-version", "tls-min-proto-version"))
            } else if self.tls_max_proto_version.is_some() {
                Err(Error::ConflictingOptions("tls-proto-version", "tls-max-proto-version"))
            } else {
                Ok((self.tls_proto_version, self.tls_proto_version))
            }
        } else {
            Ok((self.tls_min_proto_version, self.tls_max_proto_version))
        }
    }

    /// The address to connect to.
    pub fn address(&self) -> (address: String)
        ensures
            address@ == address_text(self.host@, self.port),
    {
        let mut address = String::new();
        push_text(&mut address, self.host.as_str());
        address.push(':');
        push_decimal(&mut address, self.port as u64);
        address
    }

    /// The settings that the options ask for.
    pub open spec fn planned(&self) -> Result<HandshakePlanView, ErrorView> {
        match version_bounds(
            self.tls_min_proto_version,
            self.tls_max_proto_version,
            self.tls_proto_version,
        ) {
            Err(e) => Err(e),
            Ok((min, max)) => Ok(
                HandshakePlanView {
                    verify: self.tls_verify,
                    verify_depth: self.tls_verify_depth,
                    min_proto_version: min,
                    max_proto_version: max,
                    use_server_name_indication: !self.tls_disable_sni,
                    verify_hostname: !self.tls_disable_hostname_verification,
                    address: address_text(self.host@, self.port),
                    domain: self.host@,
                },
            ),
        }
    }

    /// The settings to try the handshake with, or the error for options that
    /// exclude each other.
    pub fn plan(&self) -> (r: Result<HandshakePlan, Error>)
        ensures
            match r {
                Ok(plan) => self.planned() == Ok::<_, ErrorView>(plan@),
                Err(e) => self.planned() == Err::<HandshakePlanView, _>(e@),
            },
    {
        match self.proto_bounds() {
            Err(e) => Err(e),
            Ok((min, max)) => Ok(
                HandshakePlan {
                    verify: self.tls_verify,
                    verify_depth: self.tls_verify_depth,
                    min_proto_version: min,
                    max_proto_version: max,
                    use_server_name_indication: !self.tls_disable_sni,
                    verify_hostname: !self.tls_disable_hostname_verification,
                    address: self.address(),
                    domain: self.host.clone(),
                },
            ),
        }
    }
}

} // verus!
