use slack_mcp::config::{
    bind_address, credential, default_channel, instructions, transport, ConfigError, Transport,
};
use slack_mcp::text::decimal_string;

fn some(text: &str) -> Option<String> {
    Some(text.to_string())
}

#[test]
fn credential_prefers_the_canonical_variable() {
    assert_eq!(credential(some("bot"), some("alias")).unwrap(), "bot");
    assert_eq!(credential(some("bot"), None).unwrap(), "bot");
    assert_eq!(credential(None, some("alias")).unwrap(), "alias");
    assert_eq!(credential(some(""), some("alias")).unwrap(), "");
}

#[test]
fn credential_is_required() {
    match credential(None, None) {
        Err(ConfigError::MissingToken) => {}
        other => panic!("expected a missing token, got {:?}", other),
    }
}

#[test]
fn default_channel_drops_empty_values() {
    assert_eq!(default_channel(None), None);
    assert_eq!(default_channel(some("")), None);
    assert_eq!(default_channel(some("C1")), some("C1"));
    assert_eq!(default_channel(some(" ")), some(" "));
}

#[test]
fn transport_defaults_to_stdio() {
    assert_eq!(transport(None).unwrap(), Transport::Stdio);
    assert_eq!(transport(some("stdio")).unwrap(), Transport::Stdio);
    assert_eq!(transport(some("sse")).unwrap(), Transport::Sse);
}

#[test]
fn unknown_transport_is_an_error_that_names_it() {
    for value in ["", "http", "STDIO", "sse ", "stdio\n"] {
        match transport(some(value)) {
            Err(error) => {
                assert!(matches!(&error, ConfigError::UnknownTransport { value: v } if v == value));
                assert_eq!(
                    error.message(),
                    format!("Unknown TRANSPORT: '{}'. Use 'stdio' or 'sse'.", value)
                );
            }
            Ok(t) => panic!("{:?} is no transport, got {:?}", value, t),
        }
    }
}

#[test]
fn bind_address_has_defaults() {
    assert_eq!(bind_address(None, None), "127.0.0.1:8080");
    assert_eq!(bind_address(some("0.0.0.0"), None), "0.0.0.0:8080");
    assert_eq!(bind_address(None, some("9000")), "127.0.0.1:9000");
    assert_eq!(bind_address(some("::1"), some("1")), "::1:1");
}

#[test]
fn instructions_name_the_variables() {
    let text = instructions();
    assert!(text.contains("SLACK_BOT_TOKEN"));
    assert!(text.contains("SLACK_TOKEN"));
    assert!(text.contains("SLACK_DEFAULT_CHANNEL"));
}

#[test]
fn decimal_string_writes_numerals() {
    for n in [0u16, 1, 9, 10, 11, 99, 100, 101, 200, 404, 500, 999, 1000, 9999, 10000, 65535] {
        assert_eq!(decimal_string(n), n.to_string());
    }
}

#[test]
fn decimal_string_agrees_with_std_on_every_status() {
    for n in 0..=u16::MAX {
        assert_eq!(decimal_string(n), n.to_string());
    }
}
