use slack_mcp::slack_client::ClientError;
use slack_mcp::status::{status_text, succeeded};

#[test]
fn success_is_the_range_from_200_to_299() {
    for status in 0..=u16::MAX {
        assert_eq!(succeeded(status), (200..=299).contains(&status), "status {}", status);
    }
}

#[test]
fn success_agrees_with_the_http_client() {
    for status in 100..=999u16 {
        let code = reqwest::StatusCode::from_u16(status).expect("a status code");
        assert_eq!(succeeded(status), code.is_success());
    }
}

#[test]
fn status_text_names_code_and_reason() {
    assert_eq!(status_text(200), "200 OK");
    assert_eq!(status_text(404), "404 Not Found");
    assert_eq!(status_text(429), "429 Too Many Requests");
    assert_eq!(status_text(500), "500 Internal Server Error");
    assert_eq!(status_text(503), "503 Service Unavailable");
}

#[test]
fn status_text_without_a_reason() {
    assert_eq!(status_text(599), "599 <unknown status code>");
    assert_eq!(status_text(0), "0 <unknown status code>");
    assert_eq!(status_text(99), "99 <unknown status code>");
    assert_eq!(status_text(1000), "1000 <unknown status code>");
    assert_eq!(status_text(65535), "65535 <unknown status code>");
}

#[test]
fn status_text_is_the_http_client_s_own_rendering() {
    for status in 100..=999u16 {
        let code = reqwest::StatusCode::from_u16(status).expect("a status code");
        assert_eq!(status_text(status), code.to_string());
    }
}

#[test]
fn http_error_message_is_built_from_the_status_text() {
    for status in [301u16, 400, 401, 403, 500, 502] {
        let error = ClientError::Http { status, body: serde_json::Value::Bool(false) };
        assert_eq!(
            error.message(),
            format!("Slack API HTTP error {}: false", status_text(status))
        );
    }
}
