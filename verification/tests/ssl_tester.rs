use miscutils::ssl_tester::command::{
    proto_version_from, try_parse_proto_version, try_parse_ssl_verify_mode, verify_mode_from,
    Command, HandshakePlan, ProtoVersion, VerifyMode,
};
use miscutils::ssl_tester::error::Error;

fn command() -> Command {
    Command {
        tls_verify: VerifyMode::Peer,
        tls_verify_depth: 100,
        tls_min_proto_version: None,
        tls_max_proto_version: None,
        tls_proto_version: None,
        tls_disable_sni: false,
        tls_disable_hostname_verification: false,
        tls_sni_domain: None,
        host: "example.org".to_string(),
        port: 443,
    }
}

fn unknown_version(word: &str) -> Error {
    Error::UnknownProtocolVersion { version: word.to_string() }
}

#[test]
fn protocol_versions_are_read() {
    assert_eq!(try_parse_proto_version("sslv3"), Ok(Some(ProtoVersion::Ssl3)));
    assert_eq!(try_parse_proto_version("tlsv1"), Ok(Some(ProtoVersion::Tls1)));
    assert_eq!(try_parse_proto_version("tlsv1.1"), Ok(Some(ProtoVersion::Tls1_1)));
    assert_eq!(try_parse_proto_version("tlsv1.2"), Ok(Some(ProtoVersion::Tls1_2)));
    assert_eq!(try_parse_proto_version("tlsv1.3"), Ok(Some(ProtoVersion::Tls1_3)));
}

#[test]
fn protocol_versions_are_read_in_any_case() {
    assert_eq!(try_parse_proto_version("SSLv3"), Ok(Some(ProtoVersion::Ssl3)));
    assert_eq!(try_parse_proto_version("TLSv1"), Ok(Some(ProtoVersion::Tls1)));
    assert_eq!(try_parse_proto_version("TLSV1.2"), Ok(Some(ProtoVersion::Tls1_2)));
    assert_eq!(try_parse_proto_version("TlSv1.3"), Ok(Some(ProtoVersion::Tls1_3)));
}

#[test]
fn the_empty_word_is_no_version() {
    assert_eq!(try_parse_proto_version(""), Ok(None));
}

#[test]
fn unknown_protocol_versions_are_named_as_given() {
    for word in ["TLSv1.4", "tls", "sslv2", " tlsv1", "tlsv1.2 ", "1.2"] {
        assert_eq!(try_parse_proto_version(word), Err(unknown_version(word)));
    }
}

#[test]
fn proto_version_from_matches_the_lower_case_word_only() {
    assert_eq!(proto_version_from("tlsv1.2", "TLSv1.2"), Ok(Some(ProtoVersion::Tls1_2)));
    assert_eq!(proto_version_from("", ""), Ok(None));
    assert_eq!(proto_version_from("TLSv1.2", "TLSv1.2"), Err(unknown_version("TLSv1.2")));
    assert_eq!(proto_version_from("nope", "NOPE"), Err(unknown_version("NOPE")));
}

#[test]
fn verify_modes_are_read_in_any_case() {
    assert_eq!(try_parse_ssl_verify_mode("none"), Ok(VerifyMode::Off));
    assert_eq!(try_parse_ssl_verify_mode("peer"), Ok(VerifyMode::Peer));
    assert_eq!(try_parse_ssl_verify_mode("NONE"), Ok(VerifyMode::Off));
    assert_eq!(try_parse_ssl_verify_mode("Peer"), Ok(VerifyMode::Peer));
}

#[test]
fn unknown_verify_modes_are_named_as_given() {
    for word in ["", "yes", "PEERS", "no ne"] {
        assert_eq!(
            try_parse_ssl_verify_mode(word),
            Err(Error::UnknownSslVerifyMode { mode: word.to_string() })
        );
    }
}

#[test]
fn verify_mode_from_matches_the_lower_case_word_only() {
    assert_eq!(verify_mode_from("peer", "PEER"), Ok(VerifyMode::Peer));
    assert_eq!(
        verify_mode_from("PEER", "PEER"),
        Err(Error::UnknownSslVerifyMode { mode: "PEER".to_string() })
    );
}

#[test]
fn bounds_are_taken_as_given() {
    let mut cmd = command();
    assert_eq!(cmd.proto_bounds(), Ok((None, None)));
    cmd.tls_min_proto_version = Some(Some(ProtoVersion::Tls1_1));
    assert_eq!(cmd.proto_bounds(), Ok((Some(Some(ProtoVersion::Tls1_1)), None)));
    cmd.tls_max_proto_version = Some(None);
    assert_eq!(
        cmd.proto_bounds(),
        Ok((Some(Some(ProtoVersion::Tls1_1)), Some(None)))
    );
}

#[test]
fn one_version_gives_both_bounds() {
    let mut cmd = command();
    cmd.tls_proto_version = Some(Some(ProtoVersion::Tls1_2));
    assert_eq!(
        cmd.proto_bounds(),
        Ok((Some(Some(ProtoVersion::Tls1_2)), Some(Some(ProtoVersion::Tls1_2))))
    );
    cmd.tls_proto_version = Some(None);
    assert_eq!(cmd.proto_bounds(), Ok((Some(None), Some(None))));
}

#[test]
fn one_version_excludes_a_lower_bound() {
    let mut cmd = command();
    cmd.tls_proto_version = Some(Some(ProtoVersion::Tls1_2));
    cmd.tls_min_proto_version = Some(Some(ProtoVersion::Tls1));
    assert_eq!(
        cmd.proto_bounds(),
        Err(Error::ConflictingOptions("tls-proto-version", "tls-min-proto-version"))
    );
    // The lower bound is named even where both bounds are given.
    cmd.tls_max_proto_version = Some(Some(ProtoVersion::Tls1_3));
    assert_eq!(
        cmd.proto_bounds(),
        Err(Error::ConflictingOptions("tls-proto-version", "tls-min-proto-version"))
    );
}

#[test]
fn one_version_excludes_an_upper_bound() {
    let mut cmd = command();
    cmd.tls_proto_version = Some(None);
    cmd.tls_max_proto_version = Some(None);
    assert_eq!(
        cmd.proto_bounds(),
        Err(Error::ConflictingOptions("tls-proto-version", "tls-max-proto-version"))
    );
}

#[test]
fn the_address_is_host_colon_port() {
    let mut cmd = command();
    assert_eq!(cmd.address(), "example.org:443");
    cmd.port = 0;
    assert_eq!(cmd.address(), "example.org:0");
    cmd.port = u16::MAX;
    cmd.host = "::1".to_string();
    assert_eq!(cmd.address(), "::1:65535");
}

#[test]
fn the_plan_holds_the_settings() {
    let mut cmd = command();
    cmd.tls_verify = VerifyMode::Off;
    cmd.tls_verify_depth = 3;
    cmd.tls_proto_version = Some(Some(ProtoVersion::Tls1_3));
    cmd.tls_disable_sni = true;
    cmd.port = 8443;
    assert_eq!(
        cmd.plan(),
        Ok(HandshakePlan {
            verify: VerifyMode::Off,
            verify_depth: 3,
            min_proto_version: Some(Some(ProtoVersion::Tls1_3)),
            max_proto_version: Some(Some(ProtoVersion::Tls1_3)),
            use_server_name_indication: false,
            verify_hostname: true,
            address: "example.org:8443".to_string(),
            domain: "example.org".to_string(),
        })
    );
}

#[test]
fn the_plan_fails_on_conflicting_options() {
    let mut cmd = command();
    cmd.tls_proto_version = Some(Some(ProtoVersion::Tls1_3));
    cmd.tls_max_proto_version = Some(Some(ProtoVersion::Tls1_3));
    assert_eq!(
        cmd.plan(),
        Err(Error::ConflictingOptions("tls-proto-version", "tls-max-proto-version"))
    );
}

#[test]
fn by_default_names_are_indicated_and_verified() {
    let plan = command().plan().unwrap();
    assert!(plan.use_server_name_indication);
    assert!(plan.verify_hostname);
    assert_eq!(plan.verify, VerifyMode::Peer);
    assert_eq!(plan.verify_depth, 100);
    assert_eq!(plan.min_proto_version, None);
    assert_eq!(plan.max_proto_version, None);
    let mut cmd = command();
    cmd.tls_disable_hostname_verification = true;
    assert!(!cmd.plan().unwrap().verify_hostname);
}

#[test]
fn ssl_tester_error_messages() {
    assert_eq!(
        Error::InternalError { description: "x".to_string() }.message(),
        "internal error occurred: x"
    );
    assert_eq!(
        unknown_version("TLSv9").message(),
        "unknown SSL/TLS protocol version: TLSv9"
    );
    assert_eq!(
        Error::UnknownSslVerifyMode { mode: "maybe".to_string() }.message(),
        "unknown SSL verify mode: maybe"
    );
    assert_eq!(
        Error::ConflictingOptions("tls-proto-version", "tls-min-proto-version").message(),
        "conflicting options: tls-proto-version and tls-min-proto-version"
    );
}
