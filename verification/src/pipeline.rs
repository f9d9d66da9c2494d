//! The render pipeline: one job in, one result or classified error out, with
//! bounded recovery from browser failures. The pipeline is a pure state
//! machine: each step consumes the outcome of the previous browser action and
//! yields the next command — drive the browser, kill it, or finish. The
//! runner outside the library performs the actions (and the fixed sleeps
//! between attempts) and feeds the outcomes back in.

use vstd::prelude::*;

use crate::RETRY_COUNT;
use crate::meta::PageInfo;
use crate::meta::opt_str_view;

verus! {

/// What a URL parses to: its serialization, its scheme, its registrable
/// domain (absent for IP hosts) and its host text. A function of the text
/// alone.
pub uninterp spec fn url_parse_of(s: Seq<char>) -> Option<ParsedUrl>;

/// An absolute URL reduced to what the pipeline reads of it.
pub struct ParsedUrl {
    /// The URL as serialized back by the parser.
    pub raw: String,
    /// The scheme, lowercased by the parser.
    pub scheme: String,
    /// The registrable domain, absent where the host is an IP address or the
    /// URL has no host.
    pub domain: Option<String>,
    /// The host as text, IP addresses included.
    pub host: Option<String>,
}

impl ParsedUrl {
    /// An equal copy.
    pub fn duplicate(&self) -> (r: ParsedUrl)
        ensures
            r == *self,
    {
        ParsedUrl {
            raw: self.raw.clone(),
            scheme: self.scheme.clone(),
            domain: clone_opt_string(&self.domain),
            host: clone_opt_string(&self.host),
        }
    }
}

/// An equal copy of an optional string.
pub fn clone_opt_string(o: &Option<String>) -> (r: Option<String>)
    ensures
        r == *o,
{
    match o {
        Option::Some(s) => Some(s.clone()),
        Option::None => None,
    }
}

/// Relies on url::Url::parse: parses an absolute URL, yielding its
/// serialization, scheme, domain and host; fails exactly where the parser
/// fails. The parse is a function of the text alone.
#[verifier::external_body]
pub(crate) fn parse_url(s: &str) -> (r: Option<ParsedUrl>)
    ensures
        r == url_parse_of(s@),
{
    url::Url::parse(s).ok().map(|u| ParsedUrl {
        raw: u.as_str().to_owned(),
        scheme: u.scheme().to_owned(),
        domain: u.domain().map(|d| d.to_owned()),
        host: u.host_str().map(|h| h.to_owned()),
    })
}

/// Whether a pattern is a valid expression of the regex engine. A function
/// of the pattern alone.
pub uninterp spec fn regex_compiles(pattern: Seq<char>) -> bool;

/// Whether a pattern matches a text under the regex engine. A function of
/// pattern and text alone.
pub uninterp spec fn regex_match_of(pattern: Seq<char>, text: Seq<char>) -> bool;

/// Relies on regex::Regex::new and regex::Regex::is_match: compiles the
/// pattern and tests the text against it; compilation fails exactly where
/// the pattern is invalid, and the match is a function of pattern and text
/// alone.
#[verifier::external_body]
fn regex_is_match(pattern: &str, text: &str) -> (r: Option<bool>)
    ensures
        r is Some <==> regex_compiles(pattern@),
        r matches Some(b) ==> b == regex_match_of(pattern@, text@),
{
    regex::Regex::new(pattern).ok().map(|re| re.is_match(text))
}

/// Relies on regex::Regex::new: whether the pattern compiles.
#[verifier::external_body]
fn regex_valid(pattern: &str) -> (r: bool)
    ensures
        r == regex_compiles(pattern@),
{
    regex::Regex::new(pattern).is_ok()
}

/// The navigation policy of one domain: which hosts it covers, and the
/// optional login page, login script and render-preparation script.
pub struct DomainConfig {
    pub name: String,
    pub host_pattern: String,
    pub login_page: Option<String>,
    pub login_script: Option<String>,
    pub render_script: Option<String>,
}

impl DomainConfig {
    /// A well-formed policy has a compilable host pattern.
    pub open spec fn wf(self) -> bool {
        regex_compiles(self.host_pattern@)
    }

    /// Builds a policy, rejecting a host pattern the regex engine refuses.
    pub fn new(
        name: String,
        host_pattern: String,
        login_page: Option<String>,
        login_script: Option<String>,
        render_script: Option<String>,
    ) -> (r: Option<DomainConfig>)
        ensures
            r is Some <==> regex_compiles(host_pattern@),
            r matches Some(dc) ==> dc == (DomainConfig {
                name,
                host_pattern,
                login_page,
                login_script,
                render_script,
            }),
    {
        if regex_valid(host_pattern.as_str()) {
            Some(DomainConfig { name, host_pattern, login_page, login_script, render_script })
        } else {
            None
        }
    }
}

/// The pipeline's configuration: the public hostname under which stored
/// files are served, and the ordered domain policies, first match winning.
pub struct Config {
    pub hostname: String,
    pub domains: Vec<DomainConfig>,
}

/// The index of the first domain policy matching the host, if any; a policy
/// whose pattern does not compile matches nothing.
pub open spec fn matching_domain(domains: Seq<DomainConfig>, host: Seq<char>) -> Option<int>
    decreases domains.len(),
{
    if domains.len() == 0 {
        None
    } else if regex_compiles(domains.first().host_pattern@) && regex_match_of(
        domains.first().host_pattern@,
        host,
    ) {
        Some(0)
    } else {
        match matching_domain(domains.drop_first(), host) {
            Option::Some(i) => Some(i + 1),
            Option::None => None,
        }
    }
}

/// Finds the first domain policy matching the host.
pub fn find_domain(domains: &Vec<DomainConfig>, host: &str) -> (r: Option<usize>)
    ensures
        match r {
            Option::Some(i) => matching_domain(domains@, host@) == Some(i as int) && i
                < domains@.len(),
            Option::None => matching_domain(domains@, host@) is None,
        },
{
    let n = domains.len();
    proof {
        assert(domains@.skip(0) =~= domains@);
    }
    for i in 0..n
        invariant
            n == domains@.len(),
            matching_domain(domains@, host@) == (match matching_domain(
                domains@.skip(i as int),
                host@,
            ) {
                Option::Some(k) => Some(k + i),
                Option::None => None::<int>,
            }),
    {
        proof {
            assert(domains@.skip(i as int).first() == domains@[i as int]);
            assert(domains@.skip(i as int).drop_first() =~= domains@.skip(i + 1));
        }
        let hit = match regex_is_match(domains[i].host_pattern.as_str(), host) {
            Option::Some(b) => b,
            Option::None => false,
        };
        if hit {
            return Some(i);
        }
    }
    proof {
        assert(domains@.skip(n as int) =~= Seq::<DomainConfig>::empty());
    }
    None
}

/// One render job as handed in by the front-end.
pub struct RenderRequest {
    pub url: ParsedUrl,
    pub slack_callback: String,
    pub user: Option<String>,
    pub channel: Option<String>,
    pub team: Option<String>,
}

/// How a render job fails.
pub enum RenderError {
    /// A transport or browser failure, with its cause; retried.
    InternalError(String),
    /// The request URL is absent, malformed, or not http(s); not retried.
    InvalidUrlError,
    /// No domain policy covers the request host; not retried.
    UnsupportedDomain,
}

impl RenderError {
    /// The message shown to the requester.
    pub fn message(&self) -> (r: String)
        ensures
            r@ == self.spec_message(),
    {
        match self {
            RenderError::InternalError(e) => {
                let mut m = "Internal error (".to_owned();
                m.append(e.as_str());
                m.append(")");
                m
            },
            RenderError::InvalidUrlError => "URL is not valid.".to_owned(),
            RenderError::UnsupportedDomain => "Domain is not supported.".to_owned(),
        }
    }

    /// The message shown to the requester.
    pub open spec fn spec_message(self) -> Seq<char> {
        match self {
            RenderError::InternalError(e) => "Internal error ("@ + e@ + ")"@,
            RenderError::InvalidUrlError => "URL is not valid."@,
            RenderError::UnsupportedDomain => "Domain is not supported."@,
        }
    }
}

/// Wraps a failure cause as a retryable internal error.
pub fn wrap_internal_error(cause: String) -> (r: RenderError)
    ensures
        r == RenderError::InternalError(cause),
{
    RenderError::InternalError(cause)
}

/// A completed render job: the page title, the original URL, the public URLs
/// of whichever artifacts succeeded, the extracted metadata, and the
/// requester identifiers carried through.
pub struct RenderResult {
    pub title: String,
    pub orig_url: ParsedUrl,
    pub pdf_url: Option<String>,
    pub png_url: Option<String>,
    pub mhtml_url: Option<String>,
    pub page_info: Option<PageInfo>,
    pub user: Option<String>,
    pub channel: Option<String>,
    pub team: Option<String>,
}

/// The public URL under which a stored file is served.
pub open spec fn spec_public_url(hostname: Seq<char>, filename: Seq<char>) -> Seq<char> {
    hostname + "/static/"@ + filename
}

/// Renders the public URL of a stored file.
pub fn to_public_url(hostname: &str, filename: &str) -> (r: String)
    ensures
        r@ == spec_public_url(hostname@, filename@),
{
    let mut r = hostname.to_owned();
    r.append("/static/");
    r.append(filename);
    r
}

/// One browser action the runner must perform.
pub enum BrowserOp {
    /// Navigate to the URL, then wait the navigation settle time.
    Navigate(String),
    /// Evaluate the script, then wait the script settle time.
    RunScript(String),
    /// Read the page title.
    GetTitle,
    /// Print the page to PDF and store it.
    CapturePdf,
    /// Capture a full-page screenshot and store it.
    CaptureScreenshot,
    /// Capture the saved-page snapshot and write its archive.
    CaptureArchive,
}

/// What the pipeline asks the runner to do next.
pub enum StepCommand {
    /// Perform this browser action and report its outcome.
    Drive(BrowserOp),
    /// Restart the browser process (failure of the restart itself is
    /// ignored), wait the retry delay, then report `KillDone`.
    Kill,
    /// The job is over; deliver this to the notifier.
    Finish(Result<RenderResult, RenderError>),
}

/// What the runner reports back for one command.
pub enum OpOutcome {
    /// A navigation or script action completed.
    Done,
    /// The action failed, with its cause.
    Failed(String),
    /// The page title.
    GotTitle(String),
    /// The stored PDF's filename.
    GotPdf(String),
    /// The stored screenshot's filename.
    GotShot(String),
    /// The archive's entry path and extracted metadata.
    GotArchive(String, Option<PageInfo>),
    /// The kill request went out and the retry delay has passed.
    KillDone,
}

/// Where one attempt stands: the fixed sequence of login, navigation,
/// scripting, title and the three captures; `AtKill` awaits the browser
/// restart between attempts.
pub enum Stage {
    AtLoginNav,
    AtLoginScript,
    AtMainNav,
    AtRenderScript,
    AtTitle,
    AtPdf,
    AtShot,
    AtArchive,
    AtKill,
    DoneStage,
}

/// One render job in flight.
pub struct RenderJob {
    pub request: RenderRequest,
    pub config: Config,
    pub domain_index: usize,
    /// Attempts started so far; the first attempt is 1.
    pub attempt: u32,
    /// Kill commands issued so far.
    pub kills: u32,
    pub stage: Stage,
    pub title: Option<String>,
    pub pdf_file: Option<String>,
    pub shot_file: Option<String>,
    pub archive: Option<(String, Option<PageInfo>)>,
    pub last_error: Option<String>,
}

impl RenderJob {
    /// A job mid-flight: the chosen policy exists, the attempt budget is
    /// respected, kills never outnumber attempts, and the title is in hand
    /// once the captures begin.
    pub open spec fn wf(self) -> bool {
        &&& self.domain_index < self.config.domains@.len()
        &&& 1 <= self.attempt <= RETRY_COUNT
        &&& if self.stage is AtKill {
            self.kills == self.attempt && self.attempt < RETRY_COUNT
        } else {
            self.kills + 1 == self.attempt
        }
        &&& (self.stage is AtPdf || self.stage is AtShot || self.stage is AtArchive)
            ==> self.title is Some
    }

    /// The policy the job runs under.
    pub open spec fn policy(self) -> DomainConfig {
        self.config.domains@[self.domain_index as int]
    }
}

/// Which outcomes the runner may report at each stage.
pub open spec fn event_fits(stage: Stage, event: OpOutcome) -> bool {
    match stage {
        Stage::AtLoginNav | Stage::AtLoginScript | Stage::AtMainNav | Stage::AtRenderScript =>
            event is Done || event is Failed,
        Stage::AtTitle => event is GotTitle || event is Failed,
        Stage::AtPdf => event is GotPdf || event is Failed,
        Stage::AtShot => event is GotShot || event is Failed,
        Stage::AtArchive => event is GotArchive || event is Failed,
        Stage::AtKill => event is KillDone,
        Stage::DoneStage => false,
    }
}

/// The stage and action every attempt begins with: the login page where the
/// policy has one, else the login script, else the requested page itself.
pub open spec fn attempt_start(request: RenderRequest, dc: DomainConfig) -> (Stage, BrowserOp) {
    if dc.login_page is Some {
        (Stage::AtLoginNav, BrowserOp::Navigate(dc.login_page.unwrap()))
    } else if dc.login_script is Some {
        (Stage::AtLoginScript, BrowserOp::RunScript(dc.login_script.unwrap()))
    } else {
        (Stage::AtMainNav, BrowserOp::Navigate(request.url.raw))
    }
}

/// Everything of `post` but stage, kills, attempt, the partial artifacts and
/// the recorded error is as in `pre`.
pub open spec fn same_identity(pre: RenderJob, post: RenderJob) -> bool {
    &&& post.request == pre.request
    &&& post.config == pre.config
    &&& post.domain_index == pre.domain_index
}

/// The partial artifacts of `post` are as in `pre`.
pub open spec fn same_partials(pre: RenderJob, post: RenderJob) -> bool {
    &&& post.title == pre.title
    &&& post.pdf_file == pre.pdf_file
    &&& post.shot_file == pre.shot_file
    &&& post.archive == pre.archive
}

/// One attempt has failed with the given cause: with budget left the job
/// records the cause, counts a kill and asks for the browser restart; on the
/// last attempt the job finishes with the cause as its internal error.
pub open spec fn failure_rel(
    pre: RenderJob,
    cause: Seq<char>,
    post: RenderJob,
    cmd: StepCommand,
) -> bool {
    if pre.attempt < RETRY_COUNT {
        &&& same_identity(pre, post)
        &&& same_partials(pre, post)
        &&& post.attempt == pre.attempt
        &&& post.kills == pre.kills + 1
        &&& post.stage is AtKill
        &&& post.last_error matches Some(c) && c@ == cause
        &&& cmd is Kill
    } else {
        &&& same_identity(pre, post)
        &&& same_partials(pre, post)
        &&& post.attempt == pre.attempt
        &&& post.kills == pre.kills
        &&& post.stage is DoneStage
        &&& post.last_error == pre.last_error
        &&& cmd matches StepCommand::Finish(r) && r matches Err(e) && e
            matches RenderError::InternalError(c) && c@ == cause
    }
}

/// The job moves on within the attempt: identity, counters and error record
/// unchanged.
pub open spec fn advance_rel(pre: RenderJob, post: RenderJob) -> bool {
    &&& same_identity(pre, post)
    &&& post.attempt == pre.attempt
    &&& post.kills == pre.kills
    &&& post.last_error == pre.last_error
}

/// The result a finished attempt assembles out of the job's partials.
pub open spec fn result_rel(j: RenderJob, res: RenderResult) -> bool {
    &&& res.title == j.title.unwrap()
    &&& res.orig_url == j.request.url
    &&& opt_str_view(res.pdf_url) == (match j.pdf_file {
        Option::Some(f) => Some(spec_public_url(j.config.hostname@, f@)),
        Option::None => None::<Seq<char>>,
    })
    &&& opt_str_view(res.png_url) == (match j.shot_file {
        Option::Some(f) => Some(spec_public_url(j.config.hostname@, f@)),
        Option::None => None::<Seq<char>>,
    })
    &&& opt_str_view(res.mhtml_url) == (match j.archive {
        Option::Some(a) => Some(spec_public_url(j.config.hostname@, a.0@)),
        Option::None => None::<Seq<char>>,
    })
    &&& res.page_info == (match j.archive {
        Option::Some(a) => a.1,
        Option::None => None::<PageInfo>,
    })
    &&& res.user == j.request.user
    &&& res.channel == j.request.channel
    &&& res.team == j.request.team
}

/// The attempt's captures are over: with neither PDF nor screenshot in hand
/// the attempt has failed — the archive alone never carries a job — else the
/// job finishes with a result assembled from whatever succeeded.
pub open spec fn finish_rel(j: RenderJob, post: RenderJob, cmd: StepCommand) -> bool {
    if j.pdf_file is None && j.shot_file is None {
        failure_rel(j, "Failed to capture either PDF or screenshot"@, post, cmd)
    } else {
        &&& same_identity(j, post)
        &&& same_partials(j, post)
        &&& post.attempt == j.attempt
        &&& post.kills == j.kills
        &&& post.last_error == j.last_error
        &&& post.stage is DoneStage
        &&& cmd matches StepCommand::Finish(r) && r matches Ok(res) && result_rel(j, res)
    }
}

/// The complete transition relation of one step: from the job before the
/// event to the job after it and the next command.
pub open spec fn step_rel(pre: RenderJob, event: OpOutcome, post: RenderJob, cmd: StepCommand) -> bool {
    match (pre.stage, event) {
        (Stage::AtLoginNav, OpOutcome::Done) => {
            &&& advance_rel(pre, post)
            &&& same_partials(pre, post)
            &&& if pre.policy().login_script is Some {
                post.stage is AtLoginScript && cmd == StepCommand::Drive(
                    BrowserOp::RunScript(pre.policy().login_script.unwrap()),
                )
            } else {
                post.stage is AtMainNav && cmd == StepCommand::Drive(
                    BrowserOp::Navigate(pre.request.url.raw),
                )
            }
        },
        (Stage::AtLoginScript, OpOutcome::Done) => {
            &&& advance_rel(pre, post)
            &&& same_partials(pre, post)
            &&& post.stage is AtMainNav
            &&& cmd == StepCommand::Drive(BrowserOp::Navigate(pre.request.url.raw))
        },
        (Stage::AtMainNav, OpOutcome::Done) => {
            &&& advance_rel(pre, post)
            &&& same_partials(pre, post)
            &&& if pre.policy().render_script is Some {
                post.stage is AtRenderScript && cmd == StepCommand::Drive(
                    BrowserOp::RunScript(pre.policy().render_script.unwrap()),
                )
            } else {
                post.stage is AtTitle && cmd == StepCommand::Drive(BrowserOp::GetTitle)
            }
        },
        (Stage::AtRenderScript, OpOutcome::Done) => {
            &&& advance_rel(pre, post)
            &&& same_partials(pre, post)
            &&& post.stage is AtTitle
            &&& cmd == StepCommand::Drive(BrowserOp::GetTitle)
        },
        (Stage::AtTitle, OpOutcome::GotTitle(t)) => {
            &&& advance_rel(pre, post)
            &&& post.title == Some(t)
            &&& post.pdf_file == pre.pdf_file
            &&& post.shot_file == pre.shot_file
            &&& post.archive == pre.archive
            &&& post.stage is AtPdf
            &&& cmd == StepCommand::Drive(BrowserOp::CapturePdf)
        },
        (Stage::AtPdf, OpOutcome::GotPdf(f)) => {
            &&& advance_rel(pre, post)
            &&& post.title == pre.title
            &&& post.pdf_file == Some(f)
            &&& post.shot_file == pre.shot_file
            &&& post.archive == pre.archive
            &&& post.stage is AtShot
            &&& cmd == StepCommand::Drive(BrowserOp::CaptureScreenshot)
        },
        (Stage::AtPdf, OpOutcome::Failed(_)) => {
            // A failed PDF capture is soft: the attempt moves on.
            &&& advance_rel(pre, post)
            &&& post.title == pre.title
            &&& post.pdf_file is None
            &&& post.shot_file == pre.shot_file
            &&& post.archive == pre.archive
            &&& post.stage is AtShot
            &&& cmd == StepCommand::Drive(BrowserOp::CaptureScreenshot)
        },
        (Stage::AtShot, OpOutcome::GotShot(f)) => {
            &&& advance_rel(pre, post)
            &&& post.title == pre.title
            &&& post.pdf_file == pre.pdf_file
            &&& post.shot_file == Some(f)
            &&& post.archive == pre.archive
            &&& post.stage is AtArchive
            &&& cmd == StepCommand::Drive(BrowserOp::CaptureArchive)
        },
        (Stage::AtShot, OpOutcome::Failed(_)) => {
            // A failed screenshot capture is soft as well.
            &&& advance_rel(pre, post)
            &&& post.title == pre.title
            &&& post.pdf_file == pre.pdf_file
            &&& post.shot_file is None
            &&& post.archive == pre.archive
            &&& post.stage is AtArchive
            &&& cmd == StepCommand::Drive(BrowserOp::CaptureArchive)
        },
        (Stage::AtArchive, OpOutcome::GotArchive(entry, info)) => {
            exists|j: RenderJob|
                {
                    &&& #[trigger] finish_rel(j, post, cmd)
                    &&& same_identity(pre, j)
                    &&& j.attempt == pre.attempt
                    &&& j.kills == pre.kills
                    &&& j.last_error == pre.last_error
                    &&& j.stage == pre.stage
                    &&& j.title == pre.title
                    &&& j.pdf_file == pre.pdf_file
                    &&& j.shot_file == pre.shot_file
                    &&& j.archive == Some((entry, info))
                }
        },
        (Stage::AtArchive, OpOutcome::Failed(_)) => {
            // A failed archive capture is soft: the attempt's fate rests on
            // the PDF and the screenshot alone.
            exists|j: RenderJob|
                {
                    &&& #[trigger] finish_rel(j, post, cmd)
                    &&& same_identity(pre, j)
                    &&& j.attempt == pre.attempt
                    &&& j.kills == pre.kills
                    &&& j.last_error == pre.last_error
                    &&& j.stage == pre.stage
                    &&& j.title == pre.title
                    &&& j.pdf_file == pre.pdf_file
                    &&& j.shot_file == pre.shot_file
                    &&& j.archive is None
                }
        },
        (Stage::AtKill, OpOutcome::KillDone) => {
            // The browser was restarted and the retry delay has passed: the
            // next attempt starts from a clean slate.
            &&& same_identity(pre, post)
            &&& post.attempt == pre.attempt + 1
            &&& post.kills == pre.kills
            &&& post.last_error == pre.last_error
            &&& post.title is None
            &&& post.pdf_file is None
            &&& post.shot_file is None
            &&& post.archive is None
            &&& {
                let (stage, op) = attempt_start(pre.request, pre.policy());
                post.stage == stage && cmd == StepCommand::Drive(op)
            }
        },
        (_, OpOutcome::Failed(c)) => failure_rel(pre, c@, post, cmd),
        _ => false,
    }
}

/// Whether starting a job yields this job and first command: a request whose
/// URL is not http(s) or carries no domain is invalid at once; a host no
/// policy covers is unsupported at once; neither touches the browser. A
/// covered request starts attempt one.
pub open spec fn start_rel(
    request: RenderRequest,
    config: Config,
    post: RenderJob,
    cmd: StepCommand,
) -> bool {
    if request.url.scheme@ != "http"@ && request.url.scheme@ != "https"@ {
        cmd == StepCommand::Finish(Err::<RenderResult, RenderError>(RenderError::InvalidUrlError))
            && post.stage is DoneStage
    } else {
        match request.url.domain {
            Option::None => cmd == StepCommand::Finish(
                Err::<RenderResult, RenderError>(RenderError::InvalidUrlError),
            ) && post.stage is DoneStage,
            Option::Some(host) => match matching_domain(config.domains@, host@) {
                Option::None => cmd == StepCommand::Finish(
                    Err::<RenderResult, RenderError>(RenderError::UnsupportedDomain),
                ) && post.stage is DoneStage,
                Option::Some(i) => {
                    &&& post.request == request
                    &&& post.config == config
                    &&& post.domain_index == i
                    &&& post.attempt == 1
                    &&& post.kills == 0
                    &&& post.title is None
                    &&& post.pdf_file is None
                    &&& post.shot_file is None
                    &&& post.archive is None
                    &&& post.last_error is None
                    &&& {
                        let (stage, op) = attempt_start(request, post.policy());
                        post.stage == stage && cmd == StepCommand::Drive(op)
                    }
                },
            },
        }
    }
}

impl RenderJob {
    /// Starts one render job: validates the URL and the domain policy, and
    /// issues the first browser action of attempt one. No browser action is
    /// issued for a rejected request.
    pub fn start(request: RenderRequest, config: Config) -> (r: (RenderJob, StepCommand))
        ensures
            start_rel(request, config, r.0, r.1),
            !(r.1 is Finish) ==> r.0.wf() && !(r.0.stage is DoneStage) && !(r.0.stage is AtKill),
            r.1 is Finish ==> r.0.stage is DoneStage,
            r.1 matches StepCommand::Finish(res) ==> res is Err,
    {
        let scheme_ok = crate::strutil::str_eq(request.url.scheme.as_str(), "http")
            || crate::strutil::str_eq(request.url.scheme.as_str(), "https");
        if !scheme_ok {
            let job = RenderJob {
                request,
                config,
                domain_index: 0,
                attempt: 1,
                kills: 0,
                stage: Stage::DoneStage,
                title: None,
                pdf_file: None,
                shot_file: None,
                archive: None,
                last_error: None,
            };
            return (job, StepCommand::Finish(Err(RenderError::InvalidUrlError)));
        }
        let host = match &request.url.domain {
            Option::Some(h) => h.clone(),
            Option::None => {
                let job = RenderJob {
                    request,
                    config,
                    domain_index: 0,
                    attempt: 1,
                    kills: 0,
                    stage: Stage::DoneStage,
                    title: None,
                    pdf_file: None,
                    shot_file: None,
                    archive: None,
                    last_error: None,
                };
                return (job, StepCommand::Finish(Err(RenderError::InvalidUrlError)));
            },
        };
        let domain_index = match find_domain(&config.domains, host.as_str()) {
            Option::Some(i) => i,
            Option::None => {
                let job = RenderJob {
                    request,
                    config,
                    domain_index: 0,
                    attempt: 1,
                    kills: 0,
                    stage: Stage::DoneStage,
                    title: None,
                    pdf_file: None,
                    shot_file: None,
                    archive: None,
                    last_error: None,
                };
                return (job, StepCommand::Finish(Err(RenderError::UnsupportedDomain)));
            },
        };
        let job = RenderJob {
            request,
            config,
            domain_index,
            attempt: 1,
            kills: 0,
            stage: Stage::AtLoginNav,
            title: None,
            pdf_file: None,
            shot_file: None,
            archive: None,
            last_error: None,
        };
        let (job, op) = first_action(job);
        (job, StepCommand::Drive(op))
    }

    /// Consumes the outcome of the previous command and yields the job's
    /// next state and command. Pure: the runner performs every action.
    pub fn step(self, event: OpOutcome) -> (r: (RenderJob, StepCommand))
        requires
            self.wf(),
            !(self.stage is DoneStage),
            event_fits(self.stage, event),
        ensures
            step_rel(self, event, r.0, r.1),
            !(r.1 is Finish) ==> r.0.wf() && !(r.0.stage is DoneStage),
            r.1 is Finish ==> r.0.stage is DoneStage,
    {
        match event {
            OpOutcome::Done => {
                match self.stage {
                    Stage::AtLoginNav => match &self.policy_ref().login_script {
                        Option::Some(s) => {
                            let script = s.clone();
                            let job = RenderJob { stage: Stage::AtLoginScript, ..self };
                            (job, StepCommand::Drive(BrowserOp::RunScript(script)))
                        },
                        Option::None => {
                            let url = self.request.url.raw.clone();
                            let job = RenderJob { stage: Stage::AtMainNav, ..self };
                            (job, StepCommand::Drive(BrowserOp::Navigate(url)))
                        },
                    },
                    Stage::AtLoginScript => {
                        let url = self.request.url.raw.clone();
                        let job = RenderJob { stage: Stage::AtMainNav, ..self };
                        (job, StepCommand::Drive(BrowserOp::Navigate(url)))
                    },
                    Stage::AtMainNav => match &self.policy_ref().render_script {
                        Option::Some(s) => {
                            let script = s.clone();
                            let job = RenderJob { stage: Stage::AtRenderScript, ..self };
                            (job, StepCommand::Drive(BrowserOp::RunScript(script)))
                        },
                        Option::None => {
                            let job = RenderJob { stage: Stage::AtTitle, ..self };
                            (job, StepCommand::Drive(BrowserOp::GetTitle))
                        },
                    },
                    _ => {
                        let job = RenderJob { stage: Stage::AtTitle, ..self };
                        (job, StepCommand::Drive(BrowserOp::GetTitle))
                    },
                }
            },
            OpOutcome::GotTitle(t) => {
                let job = RenderJob { stage: Stage::AtPdf, title: Some(t), ..self };
                (job, StepCommand::Drive(BrowserOp::CapturePdf))
            },
            OpOutcome::GotPdf(f) => {
                let job = RenderJob { stage: Stage::AtShot, pdf_file: Some(f), ..self };
                (job, StepCommand::Drive(BrowserOp::CaptureScreenshot))
            },
            OpOutcome::GotShot(f) => {
                let job = RenderJob { stage: Stage::AtArchive, shot_file: Some(f), ..self };
                (job, StepCommand::Drive(BrowserOp::CaptureArchive))
            },
            OpOutcome::GotArchive(entry, info) => {
                let job = RenderJob { archive: Some((entry, info)), ..self };
                job.finish_attempt()
            },
            OpOutcome::KillDone => {
                let job = RenderJob {
                    attempt: self.attempt + 1,
                    stage: Stage::AtLoginNav,
                    title: None,
                    pdf_file: None,
                    shot_file: None,
                    archive: None,
                    ..self
                };
                let (job, op) = first_action(job);
                (job, StepCommand::Drive(op))
            },
            OpOutcome::Failed(cause) => {
                let is_pdf = match self.stage {
                    Stage::AtPdf => true,
                    _ => false,
                };
                let is_shot = match self.stage {
                    Stage::AtShot => true,
                    _ => false,
                };
                let is_archive = match self.stage {
                    Stage::AtArchive => true,
                    _ => false,
                };
                if is_pdf {
                    let job = RenderJob { stage: Stage::AtShot, pdf_file: None, ..self };
                    (job, StepCommand::Drive(BrowserOp::CaptureScreenshot))
                } else if is_shot {
                    let job = RenderJob { stage: Stage::AtArchive, shot_file: None, ..self };
                    (job, StepCommand::Drive(BrowserOp::CaptureArchive))
                } else if is_archive {
                    let job = RenderJob { archive: None, ..self };
                    job.finish_attempt()
                } else {
                    self.fail_attempt(cause)
                }
            },
        }
    }

    /// A borrow of the job's policy.
    fn policy_ref(&self) -> (r: &DomainConfig)
        requires
            self.domain_index < self.config.domains@.len(),
        ensures
            *r == self.policy(),
    {
        &self.config.domains[self.domain_index]
    }

    /// Ends the attempt after its captures: success needs the PDF or the
    /// screenshot; the archive alone is never enough.
    fn finish_attempt(self) -> (r: (RenderJob, StepCommand))
        requires
            self.wf(),
            !(self.stage is AtKill),
            self.title is Some,
        ensures
            finish_rel(self, r.0, r.1),
            !(r.1 is Finish) ==> r.0.wf() && !(r.0.stage is DoneStage),
            r.1 is Finish ==> r.0.stage is DoneStage,
    {
        let no_pdf = self.pdf_file.is_none();
        let no_shot = self.shot_file.is_none();
        if no_pdf && no_shot {
            self.fail_attempt("Failed to capture either PDF or screenshot".to_owned())
        } else {
            let title = match &self.title {
                Option::Some(t) => t.clone(),
                Option::None => unreached(),
            };
            let pdf_url = match &self.pdf_file {
                Option::Some(f) => Some(
                    to_public_url(self.config.hostname.as_str(), f.as_str()),
                ),
                Option::None => None,
            };
            let png_url = match &self.shot_file {
                Option::Some(f) => Some(
                    to_public_url(self.config.hostname.as_str(), f.as_str()),
                ),
                Option::None => None,
            };
            let mhtml_url = match &self.archive {
                Option::Some(a) => Some(
                    to_public_url(self.config.hostname.as_str(), a.0.as_str()),
                ),
                Option::None => None,
            };
            let page_info = match &self.archive {
                Option::Some(a) => clone_opt_page_info(&a.1),
                Option::None => None,
            };
            let result = RenderResult {
                title,
                orig_url: self.request.url.duplicate(),
                pdf_url,
                png_url,
                mhtml_url,
                page_info,
                user: clone_opt_string(&self.request.user),
                channel: clone_opt_string(&self.request.channel),
                team: clone_opt_string(&self.request.team),
            };
            let job = RenderJob { stage: Stage::DoneStage, ..self };
            (job, StepCommand::Finish(Ok(result)))
        }
    }

    /// The attempt has failed hard: kill and retry with budget left, else
    /// surface the cause.
    fn fail_attempt(self, cause: String) -> (r: (RenderJob, StepCommand))
        requires
            self.wf(),
            !(self.stage is AtKill),
        ensures
            failure_rel(self, cause@, r.0, r.1),
            !(r.1 is Finish) ==> r.0.wf() && !(r.0.stage is DoneStage),
            r.1 is Finish ==> r.0.stage is DoneStage,
    {
        if self.attempt < RETRY_COUNT {
            let job = RenderJob {
                stage: Stage::AtKill,
                kills: self.kills + 1,
                last_error: Some(cause),
                ..self
            };
            (job, StepCommand::Kill)
        } else {
            let job = RenderJob { stage: Stage::DoneStage, ..self };
            (job, StepCommand::Finish(Err(RenderError::InternalError(cause))))
        }
    }
}

/// Replaces the job's stage with the first stage of an attempt and yields
/// the attempt's first action.
fn first_action(job: RenderJob) -> (r: (RenderJob, BrowserOp))
    requires
        job.domain_index < job.config.domains@.len(),
    ensures
        ({
            let (stage, op) = attempt_start(job.request, job.policy());
            &&& r.0.stage == stage
            &&& r.1 == op
            &&& same_identity(job, r.0)
            &&& same_partials(job, r.0)
            &&& r.0.attempt == job.attempt
            &&& r.0.kills == job.kills
            &&& r.0.last_error == job.last_error
            &&& !(r.0.stage is DoneStage)
            &&& !(r.0.stage is AtKill)
            &&& !(r.0.stage is AtPdf) && !(r.0.stage is AtShot) && !(r.0.stage is AtArchive)
        }),
{
    match &job.config.domains[job.domain_index].login_page {
        Option::Some(p) => {
            let page = p.clone();
            let job = RenderJob { stage: Stage::AtLoginNav, ..job };
            (job, BrowserOp::Navigate(page))
        },
        Option::None => {
            match &job.config.domains[job.domain_index].login_script {
                Option::Some(s) => {
                    let script = s.clone();
                    let job = RenderJob { stage: Stage::AtLoginScript, ..job };
                    (job, BrowserOp::RunScript(script))
                },
                Option::None => {
                    let url = job.request.url.raw.clone();
                    let job = RenderJob { stage: Stage::AtMainNav, ..job };
                    (job, BrowserOp::Navigate(url))
                },
            }
        },
    }
}

/// An equal copy of optional page metadata.
fn clone_opt_page_info(o: &Option<PageInfo>) -> (r: Option<PageInfo>)
    ensures
        r == *o,
{
    match o {
        Option::Some(p) => Some(
            PageInfo {
                icon: clone_opt_string(&p.icon),
                description: clone_opt_string(&p.description),
                image: clone_opt_string(&p.image),
                author: clone_opt_string(&p.author),
            },
        ),
        Option::None => None,
    }
}


/// A request whose URL is not http(s), or has no domain, is rejected as
/// invalid at once: the pipeline issues no browser action for it.
pub proof fn lemma_invalid_url_rejected_at_once(
    request: RenderRequest,
    config: Config,
    post: RenderJob,
    cmd: StepCommand,
)
    requires
        start_rel(request, config, post, cmd),
        (request.url.scheme@ != "http"@ && request.url.scheme@ != "https"@)
            || request.url.domain is None,
    ensures
        cmd == StepCommand::Finish(Err::<RenderResult, RenderError>(RenderError::InvalidUrlError)),
        !(cmd is Drive),
        !(cmd is Kill),
{
}

/// A request whose host no domain policy covers is rejected as unsupported
/// at once: the pipeline issues no browser action for it.
pub proof fn lemma_unsupported_domain_rejected_at_once(
    request: RenderRequest,
    config: Config,
    post: RenderJob,
    cmd: StepCommand,
)
    requires
        start_rel(request, config, post, cmd),
        request.url.scheme@ == "http"@ || request.url.scheme@ == "https"@,
        request.url.domain matches Some(host) && matching_domain(config.domains@, host@) is None,
    ensures
        cmd == StepCommand::Finish(
            Err::<RenderResult, RenderError>(RenderError::UnsupportedDomain),
        ),
        !(cmd is Drive),
        !(cmd is Kill),
{
}

/// The retry policy, end to end: when the browser fails at every action, an
/// accepted job runs exactly the full attempt budget, issues exactly one
/// kill between consecutive attempts — one fewer than there are attempts —
/// and surfaces the last attempt's cause as its internal error.
///
/// The trace below is the only shape such a run can take: every attempt
/// opens with a navigation or script action, whose failure ends the attempt
/// at once, so a client that fails every action fails every attempt on its
/// first event.
pub proof fn lemma_failing_client_exhausts_retries(
    request: RenderRequest,
    config: Config,
    j0: RenderJob,
    c0: StepCommand,
    m1: String,
    j1: RenderJob,
    c1: StepCommand,
    j2: RenderJob,
    c2: StepCommand,
    m2: String,
    j3: RenderJob,
    c3: StepCommand,
    j4: RenderJob,
    c4: StepCommand,
    m3: String,
    j5: RenderJob,
    c5: StepCommand,
)
    requires
        start_rel(request, config, j0, c0),
        j0.wf(),
        c0 is Drive,
        step_rel(j0, OpOutcome::Failed(m1), j1, c1),
        step_rel(j1, OpOutcome::KillDone, j2, c2),
        step_rel(j2, OpOutcome::Failed(m2), j3, c3),
        step_rel(j3, OpOutcome::KillDone, j4, c4),
        step_rel(j4, OpOutcome::Failed(m3), j5, c5),
    ensures
        c1 is Kill,
        c2 is Drive,
        c3 is Kill,
        c4 is Drive,
        j4.attempt == RETRY_COUNT,
        j5.kills == RETRY_COUNT - 1,
        c5 matches StepCommand::Finish(r) && r matches Err(e) && e
            matches RenderError::InternalError(c) && c@ == m3@,
{
    assert(j0.attempt == 1 && j0.kills == 0);
    assert(!(j0.stage is AtPdf) && !(j0.stage is AtShot) && !(j0.stage is AtArchive) && !(j0.stage
        is AtKill) && !(j0.stage is DoneStage));
    assert(failure_rel(j0, m1@, j1, c1));
    assert(j1.stage is AtKill && j1.attempt == 1 && j1.kills == 1);
    assert(j2.attempt == 2 && j2.kills == 1);
    assert(!(j2.stage is AtPdf) && !(j2.stage is AtShot) && !(j2.stage is AtArchive) && !(j2.stage
        is AtKill));
    assert(failure_rel(j2, m2@, j3, c3));
    assert(j3.stage is AtKill && j3.attempt == 2 && j3.kills == 2);
    assert(j4.attempt == 3 && j4.kills == 2);
    assert(!(j4.stage is AtPdf) && !(j4.stage is AtShot) && !(j4.stage is AtArchive) && !(j4.stage
        is AtKill));
    assert(failure_rel(j4, m3@, j5, c5));
}

/// The success threshold, one way: with the screenshot in hand and the PDF
/// missing, the attempt succeeds whatever the archive capture did, with an
/// empty PDF reference and a populated screenshot reference.
pub proof fn lemma_screenshot_alone_succeeds(
    pre: RenderJob,
    event: OpOutcome,
    post: RenderJob,
    cmd: StepCommand,
)
    requires
        pre.wf(),
        pre.stage is AtArchive,
        event_fits(pre.stage, event),
        step_rel(pre, event, post, cmd),
        pre.pdf_file is None,
        pre.shot_file is Some,
    ensures
        cmd matches StepCommand::Finish(r) && r matches Ok(res) && res.pdf_url is None
            && res.png_url is Some,
{
    match event {
        OpOutcome::GotArchive(entry, info) => {
            let j = choose|j: RenderJob|
                {
                    &&& #[trigger] finish_rel(j, post, cmd)
                    &&& same_identity(pre, j)
                    &&& j.attempt == pre.attempt
                    &&& j.kills == pre.kills
                    &&& j.last_error == pre.last_error
                    &&& j.stage == pre.stage
                    &&& j.title == pre.title
                    &&& j.pdf_file == pre.pdf_file
                    &&& j.shot_file == pre.shot_file
                    &&& j.archive == Some((entry, info))
                };
            assert(finish_rel(j, post, cmd));
        },
        OpOutcome::Failed(_) => {
            let j = choose|j: RenderJob|
                {
                    &&& #[trigger] finish_rel(j, post, cmd)
                    &&& same_identity(pre, j)
                    &&& j.attempt == pre.attempt
                    &&& j.kills == pre.kills
                    &&& j.last_error == pre.last_error
                    &&& j.stage == pre.stage
                    &&& j.title == pre.title
                    &&& j.pdf_file == pre.pdf_file
                    &&& j.shot_file == pre.shot_file
                    &&& j.archive is None
                };
            assert(finish_rel(j, post, cmd));
        },
        _ => {
            assert(false);
        },
    }
}

/// The success threshold, the other way: with neither the PDF nor the
/// screenshot in hand, the attempt never succeeds, whatever the archive
/// capture did — it retries, or surfaces the no-artifact error.
pub proof fn lemma_no_artifact_never_succeeds(
    pre: RenderJob,
    event: OpOutcome,
    post: RenderJob,
    cmd: StepCommand,
)
    requires
        pre.wf(),
        pre.stage is AtArchive,
        event_fits(pre.stage, event),
        step_rel(pre, event, post, cmd),
        pre.pdf_file is None,
        pre.shot_file is None,
    ensures
        cmd is Kill || (cmd matches StepCommand::Finish(r) && r matches Err(e) && e
            matches RenderError::InternalError(c) && c@
            == "Failed to capture either PDF or screenshot"@),
{
    match event {
        OpOutcome::GotArchive(entry, info) => {
            let j = choose|j: RenderJob|
                {
                    &&& #[trigger] finish_rel(j, post, cmd)
                    &&& same_identity(pre, j)
                    &&& j.attempt == pre.attempt
                    &&& j.kills == pre.kills
                    &&& j.last_error == pre.last_error
                    &&& j.stage == pre.stage
                    &&& j.title == pre.title
                    &&& j.pdf_file == pre.pdf_file
                    &&& j.shot_file == pre.shot_file
                    &&& j.archive == Some((entry, info))
                };
            assert(finish_rel(j, post, cmd));
        },
        OpOutcome::Failed(_) => {
            let j = choose|j: RenderJob|
                {
                    &&& #[trigger] finish_rel(j, post, cmd)
                    &&& same_identity(pre, j)
                    &&& j.attempt == pre.attempt
                    &&& j.kills == pre.kills
                    &&& j.last_error == pre.last_error
                    &&& j.stage == pre.stage
                    &&& j.title == pre.title
                    &&& j.pdf_file == pre.pdf_file
                    &&& j.shot_file == pre.shot_file
                    &&& j.archive is None
                };
            assert(finish_rel(j, post, cmd));
        },
        _ => {
            assert(false);
        },
    }
}


/// Whether a command, if it finishes the job successfully, carries at least
/// one of the PDF and the screenshot.
pub open spec fn finish_carries_artifact(cmd: StepCommand) -> bool {
    match cmd {
        StepCommand::Finish(r) => match r {
            Result::Ok(res) => res.pdf_url is Some || res.png_url is Some,
            Result::Err(_) => true,
        },
        _ => true,
    }
}

/// No job ever completes successfully without at least one of the PDF and
/// the screenshot: whatever step produces a result produced one of them,
/// and the archive alone never suffices.
pub proof fn lemma_result_needs_artifact(
    pre: RenderJob,
    event: OpOutcome,
    post: RenderJob,
    cmd: StepCommand,
)
    requires
        step_rel(pre, event, post, cmd),
    ensures
        finish_carries_artifact(cmd),
{
    match (pre.stage, event) {
        (Stage::AtArchive, OpOutcome::GotArchive(entry, info)) => {
            let j = choose|j: RenderJob|
                {
                    &&& #[trigger] finish_rel(j, post, cmd)
                    &&& same_identity(pre, j)
                    &&& j.attempt == pre.attempt
                    &&& j.kills == pre.kills
                    &&& j.last_error == pre.last_error
                    &&& j.stage == pre.stage
                    &&& j.title == pre.title
                    &&& j.pdf_file == pre.pdf_file
                    &&& j.shot_file == pre.shot_file
                    &&& j.archive == Some((entry, info))
                };
            assert(finish_rel(j, post, cmd));
        },
        (Stage::AtArchive, OpOutcome::Failed(_)) => {
            let j = choose|j: RenderJob|
                {
                    &&& #[trigger] finish_rel(j, post, cmd)
                    &&& same_identity(pre, j)
                    &&& j.attempt == pre.attempt
                    &&& j.kills == pre.kills
                    &&& j.last_error == pre.last_error
                    &&& j.stage == pre.stage
                    &&& j.title == pre.title
                    &&& j.pdf_file == pre.pdf_file
                    &&& j.shot_file == pre.shot_file
                    &&& j.archive is None
                };
            assert(finish_rel(j, post, cmd));
        },
        _ => {},
    }
}

} // verus!
