use auth_checkpoint::decision::{Decision, Denial, ErrorCode};
use auth_checkpoint::interceptor::{
    begin, ConfigError, InterceptorConfig, PendingCall, SidecarReply, Step, CREDENTIAL_HEADER,
    DEFAULT_CAPACITY, TOKEN_FIELD,
};

fn pending(header: &[u8]) -> PendingCall {
    match begin(Some(header)) {
        Step::CallSidecar(call) => call,
        Step::Respond(denial) => panic!("denied with {:?}", denial),
    }
}

fn denied(header: Option<&[u8]>) -> Denial {
    match begin(header) {
        Step::Respond(denial) => denial,
        Step::CallSidecar(call) => panic!("would call the sidecar with {:?}", call.credential()),
    }
}

#[test]
fn missing_header_is_denied_with_401() {
    let denial = denied(None);
    assert_eq!(denial, Denial { status: 401, code: ErrorCode::AuthError });
    assert_eq!(denial.code.as_str(), "AUTH_ERROR");
    assert_eq!(denial.message(), "Missing 'Authorization' header");
}

#[test]
fn missing_header_body_is_a_graphql_error() {
    assert_eq!(
        denied(None).body(),
        "{\"data\":null,\"errors\":[{\"message\":\"Missing 'Authorization' header\",\"extensions\":{\"code\":\"AUTH_ERROR\"}}]}"
    );
}

#[test]
fn header_that_is_not_text_is_denied_with_400() {
    let denial = denied(Some(&[0x61, 0xff, 0xfe]));
    assert_eq!(denial, Denial { status: 400, code: ErrorCode::BadClientId });
    assert_eq!(denial.code.as_str(), "BAD_CLIENT_ID");
    assert_eq!(denial.message(), "'Authorization' value is not a string");
    assert_eq!(
        denial.body(),
        "{\"data\":null,\"errors\":[{\"message\":\"'Authorization' value is not a string\",\"extensions\":{\"code\":\"BAD_CLIENT_ID\"}}]}"
    );
}

#[test]
fn truncated_utf8_is_not_text() {
    assert_eq!(denied(Some(&[0xc3])).status, 400);
    assert_eq!(denied(Some(&[0xe2, 0x82])).status, 400);
    assert_eq!(denied(Some(&[0xed, 0xa0, 0x80])).status, 400);
    assert_eq!(denied(Some(&[0xc0, 0xaf])).status, 400);
}

#[test]
fn empty_header_counts_as_present() {
    assert_eq!(pending(b"").credential(), "");
}

#[test]
fn credential_is_the_whole_header_value() {
    assert_eq!(pending(b"Bearer abc.def.ghi").credential(), "Bearer abc.def.ghi");
    assert_eq!(pending(b"  spaced\tout ").credential(), "  spaced\tout ");
}

#[test]
fn utf8_beyond_ascii_is_text() {
    assert_eq!(pending("cl\u{e9} \u{20ac} \u{1f511}".as_bytes()).credential(), "cl\u{e9} \u{20ac} \u{1f511}");
    assert_eq!(pending(&[0xc3, 0xa9]).credential(), "\u{e9}");
}

#[test]
fn status_200_lets_the_request_continue() {
    let decision = pending(b"token").conclude(SidecarReply::Status(200));
    assert_eq!(decision, Decision::Continue);
    assert!(decision.is_continue());
}

#[test]
fn status_403_is_passed_on() {
    let decision = pending(b"bad.signature.here").conclude(SidecarReply::Status(403));
    assert_eq!(
        decision,
        Decision::Deny(Denial { status: 403, code: ErrorCode::UnauthorizedRequest })
    );
    assert!(!decision.is_continue());
    match decision {
        Decision::Deny(denial) => {
            assert_eq!(denial.code.as_str(), "UNAUTHORIZED_REQUEST");
            assert_eq!(denial.message(), "Request is not allowed");
            assert_eq!(
                denial.body(),
                "{\"data\":null,\"errors\":[{\"message\":\"Request is not allowed\",\"extensions\":{\"code\":\"UNAUTHORIZED_REQUEST\"}}]}"
            );
        }
        Decision::Continue => panic!("a refused request continued"),
    }
}

#[test]
fn every_other_status_is_passed_on_unchanged() {
    for status in [0u16, 100, 199, 201, 204, 302, 400, 401, 413, 429, 500, 503, 999, u16::MAX] {
        assert_eq!(
            pending(b"token").conclude(SidecarReply::Status(status)),
            Decision::Deny(Denial { status, code: ErrorCode::UnauthorizedRequest })
        );
    }
}

#[test]
fn oversize_body_refused_by_the_sidecar_is_unauthorized() {
    let big = vec![b'a'; 40 * 1024];
    let call = pending(&big);
    assert_eq!(call.credential().len(), 40 * 1024);
    assert_eq!(
        call.conclude(SidecarReply::Status(413)),
        Decision::Deny(Denial { status: 413, code: ErrorCode::UnauthorizedRequest })
    );
}

#[test]
fn unreachable_sidecar_is_a_503() {
    let decision = pending(b"token").conclude(SidecarReply::Unreachable);
    assert_eq!(decision, Decision::Deny(Denial { status: 503, code: ErrorCode::ServiceError }));
    match decision {
        Decision::Deny(denial) => {
            assert_eq!(denial.code.as_str(), "SERVICE_ERROR");
            assert_eq!(denial.message(), "Auth sidecar is unreachable");
            assert_eq!(
                denial.body(),
                "{\"data\":null,\"errors\":[{\"message\":\"Auth sidecar is unreachable\",\"extensions\":{\"code\":\"SERVICE_ERROR\"}}]}"
            );
        }
        Decision::Continue => panic!("continued without the sidecar"),
    }
}

#[test]
fn denial_constructors_fill_the_table() {
    assert_eq!(Denial::missing_header(), Denial { status: 401, code: ErrorCode::AuthError });
    assert_eq!(Denial::not_text(), Denial { status: 400, code: ErrorCode::BadClientId });
    assert_eq!(Denial::unreachable(), Denial { status: 503, code: ErrorCode::ServiceError });
    assert_eq!(Denial::refused(429), Denial { status: 429, code: ErrorCode::UnauthorizedRequest });
}

#[test]
fn body_does_not_echo_the_credential() {
    let secret = b"very-secret-credential";
    let body = match pending(secret).conclude(SidecarReply::Status(403)) {
        Decision::Deny(denial) => denial.body(),
        Decision::Continue => panic!("continued"),
    };
    assert!(!body.contains("very-secret-credential"));
}

#[test]
fn config_accepts_a_url_and_keeps_its_normal_form() {
    let config = InterceptorConfig::new("http://127.0.0.1:8080").unwrap();
    assert_eq!(config.addr(), "http://127.0.0.1:8080/");
    let config = InterceptorConfig::new("HTTP://Sidecar.Example:80/verify").unwrap();
    assert_eq!(config.addr(), "http://sidecar.example/verify");
}

#[test]
fn config_rejects_what_is_no_url() {
    assert_eq!(InterceptorConfig::new("").err(), Some(ConfigError::InvalidUrl));
    assert_eq!(InterceptorConfig::new("not a url").err(), Some(ConfigError::InvalidUrl));
    assert_eq!(InterceptorConfig::new("/relative/path").err(), Some(ConfigError::InvalidUrl));
    assert_eq!(InterceptorConfig::new("http://").err(), Some(ConfigError::InvalidUrl));
}

#[test]
fn config_from_a_parsed_address() {
    let config = InterceptorConfig::from_parsed(Some(String::from("http://sidecar/"))).unwrap();
    assert_eq!(config.addr(), "http://sidecar/");
    assert_eq!(InterceptorConfig::from_parsed(None).err(), Some(ConfigError::InvalidUrl));
}

#[test]
fn wire_names_and_capacity() {
    assert_eq!(TOKEN_FIELD, "token");
    assert_eq!(CREDENTIAL_HEADER, "Authorization");
    assert_eq!(DEFAULT_CAPACITY, 20_000);
}
