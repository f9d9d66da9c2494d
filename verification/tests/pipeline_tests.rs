use udrb::pipeline::{
    find_domain, to_public_url, wrap_internal_error, BrowserOp, Config, DomainConfig, OpOutcome,
    RenderError, RenderJob, RenderRequest, StepCommand,
};
use udrb::slack::SlashRequest;

fn plain_policy(pattern: &str) -> DomainConfig {
    DomainConfig::new(
        "test".to_string(),
        pattern.to_string(),
        None,
        None,
        None,
    )
    .expect("pattern compiles")
}

fn config_for(pattern: &str) -> Config {
    Config { hostname: "http://files.local".to_string(), domains: vec![plain_policy(pattern)] }
}

fn request_for(url: &str) -> RenderRequest {
    let slash = SlashRequest {
        command: "/udrb".to_string(),
        text: url.to_string(),
        response_url: "http://cb".to_string(),
        user_id: Some("u1".to_string()),
        channel_name: None,
        team_domain: None,
    };
    slash.render_and_reply().0.expect("test URL parses")
}

#[test]
fn url_parsing_reads_scheme_and_domain() {
    let u = request_for("http://example.com/page").url;
    assert_eq!(u.scheme, "http");
    assert_eq!(u.domain.as_deref(), Some("example.com"));
    assert_eq!(u.host.as_deref(), Some("example.com"));
    assert_eq!(u.raw, "http://example.com/page");
}

#[test]
fn bad_host_pattern_is_rejected() {
    assert!(DomainConfig::new("t".to_string(), "(".to_string(), None, None, None).is_none());
}

#[test]
fn first_matching_domain_wins() {
    let domains = vec![plain_policy("nomatch\\.com"), plain_policy("example\\.com"), plain_policy(".*")];
    assert_eq!(find_domain(&domains, "example.com"), Some(1));
    assert_eq!(find_domain(&domains, "other.org"), Some(2));
    let narrow = vec![plain_policy("only\\.this\\.host")];
    assert_eq!(find_domain(&narrow, "example.com"), None);
}

#[test]
fn non_http_scheme_is_invalid_without_any_browser_action() {
    let (_job, cmd) = RenderJob::start(request_for("ftp://example.com/f"), config_for(".*"));
    match cmd {
        StepCommand::Finish(Err(RenderError::InvalidUrlError)) => {},
        _ => panic!("a non-http(s) scheme is rejected at once"),
    }
}

#[test]
fn unmatched_host_is_unsupported_without_any_navigation() {
    let (_job, cmd) = RenderJob::start(
        request_for("http://other.org/x"),
        config_for("example\\.com"),
    );
    match cmd {
        StepCommand::Finish(Err(RenderError::UnsupportedDomain)) => {},
        _ => panic!("an uncovered host is rejected at once"),
    }
}

#[test]
fn accepted_request_starts_with_navigation() {
    let (job, cmd) = RenderJob::start(request_for("http://example.com/x"), config_for("example\\.com"));
    assert_eq!(job.attempt, 1);
    assert_eq!(job.kills, 0);
    match cmd {
        StepCommand::Drive(BrowserOp::Navigate(url)) => assert_eq!(url, "http://example.com/x"),
        _ => panic!("an accepted request navigates first"),
    }
}

#[test]
fn login_page_is_visited_first() {
    let dc = DomainConfig::new(
        "t".to_string(),
        "example\\.com".to_string(),
        Some("http://example.com/login".to_string()),
        Some("doLogin()".to_string()),
        None,
    )
    .unwrap();
    let config = Config { hostname: "h".to_string(), domains: vec![dc] };
    let (job, cmd) = RenderJob::start(request_for("http://example.com/x"), config);
    match cmd {
        StepCommand::Drive(BrowserOp::Navigate(url)) => assert_eq!(url, "http://example.com/login"),
        _ => panic!("the login page comes first"),
    }
    let (job, cmd) = job.step(OpOutcome::Done);
    match cmd {
        StepCommand::Drive(BrowserOp::RunScript(s)) => assert_eq!(s, "doLogin()"),
        _ => panic!("the login script follows the login page"),
    }
    let (_job, cmd) = job.step(OpOutcome::Done);
    match cmd {
        StepCommand::Drive(BrowserOp::Navigate(url)) => assert_eq!(url, "http://example.com/x"),
        _ => panic!("the requested page follows the login"),
    }
}

#[test]
fn failing_every_attempt_counts_three_attempts_and_two_kills() {
    let (job, cmd) = RenderJob::start(request_for("http://example.com/x"), config_for("example\\.com"));
    assert!(matches!(cmd, StepCommand::Drive(_)));

    let (job, cmd) = job.step(OpOutcome::Failed("boom 1".to_string()));
    assert!(matches!(cmd, StepCommand::Kill));
    let (job, cmd) = job.step(OpOutcome::KillDone);
    assert!(matches!(cmd, StepCommand::Drive(_)));
    assert_eq!(job.attempt, 2);

    let (job, cmd) = job.step(OpOutcome::Failed("boom 2".to_string()));
    assert!(matches!(cmd, StepCommand::Kill));
    let (job, cmd) = job.step(OpOutcome::KillDone);
    assert!(matches!(cmd, StepCommand::Drive(_)));
    assert_eq!(job.attempt, 3);

    let (job, cmd) = job.step(OpOutcome::Failed("boom 3".to_string()));
    assert_eq!(job.attempt, 3);
    assert_eq!(job.kills, 2);
    match cmd {
        StepCommand::Finish(Err(RenderError::InternalError(cause))) => {
            assert_eq!(cause, "boom 3");
        },
        _ => panic!("the last attempt's error is surfaced"),
    }
}

fn drive_to_captures(url: &str, pattern: &str) -> RenderJob {
    let (job, cmd) = RenderJob::start(request_for(url), config_for(pattern));
    assert!(matches!(cmd, StepCommand::Drive(BrowserOp::Navigate(_))));
    let (job, cmd) = job.step(OpOutcome::Done);
    assert!(matches!(cmd, StepCommand::Drive(BrowserOp::GetTitle)));
    let (job, cmd) = job.step(OpOutcome::GotTitle("The Title".to_string()));
    assert!(matches!(cmd, StepCommand::Drive(BrowserOp::CapturePdf)));
    job
}

#[test]
fn screenshot_alone_is_success_with_empty_pdf() {
    let job = drive_to_captures("http://example.com/x", "example\\.com");
    let (job, cmd) = job.step(OpOutcome::Failed("pdf broke".to_string()));
    assert!(matches!(cmd, StepCommand::Drive(BrowserOp::CaptureScreenshot)));
    let (job, cmd) = job.step(OpOutcome::GotShot("abc123.png".to_string()));
    assert!(matches!(cmd, StepCommand::Drive(BrowserOp::CaptureArchive)));
    let (_job, cmd) = job.step(OpOutcome::Failed("archive broke".to_string()));
    match cmd {
        StepCommand::Finish(Ok(result)) => {
            assert_eq!(result.title, "The Title");
            assert_eq!(result.pdf_url, None);
            assert_eq!(result.png_url.as_deref(), Some("http://files.local/static/abc123.png"));
            assert_eq!(result.mhtml_url, None);
            assert_eq!(result.user.as_deref(), Some("u1"));
        },
        _ => panic!("a screenshot alone carries the job"),
    }
}

#[test]
fn no_artifact_fails_despite_archive() {
    let job = drive_to_captures("http://example.com/x", "example\\.com");
    let (job, cmd) = job.step(OpOutcome::Failed("pdf broke".to_string()));
    assert!(matches!(cmd, StepCommand::Drive(BrowserOp::CaptureScreenshot)));
    let (job, cmd) = job.step(OpOutcome::Failed("shot broke".to_string()));
    assert!(matches!(cmd, StepCommand::Drive(BrowserOp::CaptureArchive)));
    let (job, cmd) = job.step(OpOutcome::GotArchive("h/index.html".to_string(), None));
    // The first attempt produced no usable artifact: the browser is killed
    // and the attempt retried, archive or not.
    assert!(matches!(cmd, StepCommand::Kill));
    assert_eq!(job.attempt, 1);
    assert_eq!(job.kills, 1);
}

#[test]
fn full_success_carries_all_artifacts() {
    let job = drive_to_captures("http://example.com/x", "example\\.com");
    let (job, cmd) = job.step(OpOutcome::GotPdf("d.pdf".to_string()));
    assert!(matches!(cmd, StepCommand::Drive(BrowserOp::CaptureScreenshot)));
    let (job, cmd) = job.step(OpOutcome::GotShot("d.png".to_string()));
    assert!(matches!(cmd, StepCommand::Drive(BrowserOp::CaptureArchive)));
    let (_job, cmd) = job.step(OpOutcome::GotArchive("deadbeef/index.html".to_string(), None));
    match cmd {
        StepCommand::Finish(Ok(result)) => {
            assert_eq!(result.pdf_url.as_deref(), Some("http://files.local/static/d.pdf"));
            assert_eq!(result.png_url.as_deref(), Some("http://files.local/static/d.png"));
            assert_eq!(
                result.mhtml_url.as_deref(),
                Some("http://files.local/static/deadbeef/index.html")
            );
            assert_eq!(result.orig_url.raw, "http://example.com/x");
        },
        _ => panic!("all three artifacts succeed"),
    }
}

#[test]
fn public_url_is_exact() {
    assert_eq!(to_public_url("http://h", "f.pdf"), "http://h/static/f.pdf");
}

#[test]
fn error_messages_are_exact() {
    assert_eq!(RenderError::InvalidUrlError.message(), "URL is not valid.");
    assert_eq!(RenderError::UnsupportedDomain.message(), "Domain is not supported.");
    assert_eq!(
        wrap_internal_error("socket closed".to_string()).message(),
        "Internal error (socket closed)"
    );
}
