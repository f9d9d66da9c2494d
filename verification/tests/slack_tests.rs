use udrb::pipeline::{RenderError, RenderResult};
use udrb::slack::{
    post_failure, post_success, SlackConfig, SlackParserError, SlackRequestParser,
    SlackResponseType, SlashRequest,
};

fn slash(command: &str, text: &str) -> SlashRequest {
    SlashRequest {
        command: command.to_string(),
        text: text.to_string(),
        response_url: "http://reply.local/cb".to_string(),
        user_id: Some("U1".to_string()),
        channel_name: Some("general".to_string()),
        team_domain: None,
    }
}

#[test]
fn slash_command_becomes_render_request() {
    let (req, msg) = slash("/udrb", "http://example.com/a").render_and_reply();
    let req = req.expect("a well-formed command is accepted");
    assert_eq!(req.url.domain.as_deref(), Some("example.com"));
    assert_eq!(req.slack_callback, "http://reply.local/cb");
    assert_eq!(req.user.as_deref(), Some("U1"));
    assert!(matches!(msg.response_type, SlackResponseType::Ephemeral));
    assert_eq!(msg.blocks[0].elements[0].text.as_deref(), Some("_Downloading, please wait..._"));
}

#[test]
fn foreign_command_gets_usage_note() {
    let (req, msg) = slash("/other", "http://example.com/a").render_and_reply();
    assert!(req.is_none());
    assert_eq!(
        msg.blocks[0].elements[0].text.as_deref(),
        Some("Bad request. Usage: `/udrb http://...`")
    );
}

#[test]
fn unparsable_url_gets_usage_note() {
    let (req, _msg) = slash("/udrb", "not a url").render_and_reply();
    assert!(req.is_none());
}

#[test]
fn failure_note_carries_the_error_message() {
    let msg = post_failure(&RenderError::InvalidUrlError);
    assert!(matches!(msg.response_type, SlackResponseType::Ephemeral));
    assert_eq!(
        msg.blocks[0].elements[0].text.as_deref(),
        Some("Error downloading: URL is not valid.")
    );
}

fn sample_result() -> RenderResult {
    RenderResult {
        title: "A Page".to_string(),
        orig_url: udrb::pipeline::ParsedUrl {
            raw: "https://example.com/a".to_string(),
            scheme: "https".to_string(),
            domain: Some("example.com".to_string()),
            host: Some("example.com".to_string()),
        },
        pdf_url: None,
        png_url: Some("http://files.local/static/s.png".to_string()),
        mhtml_url: None,
        page_info: None,
        user: Some("U1".to_string()),
        channel: None,
        team: None,
    }
}

#[test]
fn success_message_lists_only_captured_artifacts() {
    let msg = post_success(&sample_result());
    assert!(matches!(msg.response_type, SlackResponseType::InChannel));
    assert_eq!(msg.blocks.len(), 3);
    assert_eq!(msg.blocks[0].type_, "header");
    assert_eq!(msg.blocks[0].text.as_ref().unwrap().text, "A Page");
    // Original link plus the screenshot button; no PDF was captured.
    assert_eq!(msg.blocks[1].elements.len(), 2);
    assert_eq!(
        msg.blocks[1].elements[0].url.as_deref(),
        Some("https://example.com/a")
    );
    assert_eq!(
        msg.blocks[1].elements[1].url.as_deref(),
        Some("http://files.local/static/s.png")
    );
    assert_eq!(
        msg.blocks[2].elements[0].image_url.as_deref(),
        Some("https://example.com/favicon.ico")
    );
    assert_eq!(msg.blocks[2].elements[1].text.as_deref(), Some("Shared by <@U1>"));
}

fn parser(secret: Option<&str>, timestamp: i64) -> SlackRequestParser {
    SlackRequestParser {
        timestamp,
        signature: String::new(),
        config: SlackConfig {
            secret: secret.map(|s| s.to_string()),
            max_age_seconds: 120,
        },
    }
}

const BODY: &str = "command=%2Fudrb&text=http%3A%2F%2Fexample.com%2Fa&response_url=http%3A%2F%2Fcb&user_id=U1";

#[test]
fn unauthenticated_body_parses() {
    let p = parser(None, 1000);
    let req = p.parse_slash(BODY, 1050).expect("fresh unauthenticated request passes");
    assert_eq!(req.command, "/udrb");
    assert_eq!(req.text, "http://example.com/a");
    assert_eq!(req.response_url, "http://cb");
    assert_eq!(req.user_id.as_deref(), Some("U1"));
    assert_eq!(req.team_domain, None);
}

#[test]
fn stale_timestamp_is_rejected() {
    let p = parser(None, 1000);
    assert!(matches!(p.parse_slash(BODY, 1121), Err(SlackParserError::TimestampTooDifferent)));
    assert!(matches!(p.parse_slash(BODY, 879), Err(SlackParserError::TimestampTooDifferent)));
    assert!(p.parse_slash(BODY, 1120).is_ok());
}

#[test]
fn missing_required_field_is_rejected() {
    let p = parser(None, 1000);
    assert!(matches!(
        p.parse_slash("command=%2Fudrb&text=x", 1000),
        Err(SlackParserError::BadQueryString)
    ));
}

#[test]
fn valid_signature_is_accepted() {
    let secret = "SECRET-REDACTED";
    let basestring = format!("v0:{}:{}", 1000, BODY);
    let mac = hmac_sha256::HMAC::mac(basestring.as_bytes(), secret.as_bytes());
    let mut p = parser(Some(secret), 1000);
    p.signature = format!("v0={}", hex::encode(mac));
    assert!(p.parse_slash(BODY, 1000).is_ok());
}

#[test]
fn wrong_signature_is_rejected() {
    let secret = "SECRET-REDACTED";
    let mut p = parser(Some(secret), 1000);
    p.signature = format!("v0={}", "00".repeat(32));
    assert!(matches!(p.parse_slash(BODY, 1000), Err(SlackParserError::SignatureInvalid)));
}

#[test]
fn malformed_signature_is_rejected() {
    let secret = "SECRET-REDACTED";
    let mut p = parser(Some(secret), 1000);
    p.signature = "v0=zzzz".to_string();
    assert!(matches!(p.parse_slash(BODY, 1000), Err(SlackParserError::SignatureInvalid)));
    p.signature = "v0=abcd".to_string();
    assert!(matches!(p.parse_slash(BODY, 1000), Err(SlackParserError::SignatureInvalid)));
}
