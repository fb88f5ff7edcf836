use crate::auth::{
    allow_policy, authorize, biscuit_signatures, granted_date_facts, granted_policies, granted_str_facts,
    granted_token, granted_user, granted_users, opt_view, read_token, spec_authenticated, spec_bearer_token,
    spec_date_facts, spec_refusal_error, spec_str_facts, Auth, Grant, Operation, Refusal, ValidBiscuit,
};
use crate::error::{AppError, Denial, Rejection};
use crate::job::{Action, Job, JobKind, Stage};
use vstd::prelude::*;

verus! {

// ---------------------------------------------------------------------------
// The request bodies of the `/v1` endpoints.
// ---------------------------------------------------------------------------

/// The browser viewport, in CSS pixels.
#[derive(Debug, Clone, Copy, PartialEq, Eq, Structural)]
pub struct Viewport {
    pub width: u32,
    pub height: u32,
}

/// What part of a captured page ends up in the image.
#[derive(Debug)]
pub enum Target {
    /// The visible viewport.
    Viewport,
    /// The whole page.
    Page,
    /// The element found by a CSS selector.
    Element { locator: String },
}

impl Target {
    /// A copy of this target.
    pub fn duplicate(&self) -> (t: Target)
        ensures
            t == *self,
    {
        match self {
            Target::Viewport => Target::Viewport,
            Target::Page => Target::Page,
            Target::Element { locator } => Target::Element { locator: locator.clone() },
        }
    }
}

/// The browser a request is rendered in. The device scale factor is a float
/// and stays with the server; the library needs only what it decides on.
#[derive(Debug)]
pub struct Device {
    pub viewport: Viewport,
    /// Extra HTTP headers that the page sends with its requests.
    pub extra_http_headers: Option<Vec<(String, String)>>,
}

/// The body of `/v1/render`: HTML to render.
#[derive(Debug)]
pub struct RenderRequest {
    pub device: Device,
    pub input: String,
}

/// The body of `/v1/capture`: the URL of the page to capture.
#[derive(Debug)]
pub struct CaptureRequest {
    pub device: Device,
    pub input: String,
    pub target: Target,
}

// ---------------------------------------------------------------------------
// Checking the URL of a capture.
// ---------------------------------------------------------------------------

/// What `url::Url::parse` makes of `text`: `None` if it is no URL, else the
/// URL's serialization, its scheme and its host (if it has one).
pub uninterp spec fn url_parts(text: Seq<char>) -> Option<(Seq<char>, Seq<char>, Option<Seq<char>>)>;

/// The parts of a parsed URL, as plain strings.
pub struct UrlParts {
    pub serialization: String,
    pub scheme: String,
    pub host: Option<String>,
}

pub open spec fn opt_str_view(s: Option<String>) -> Option<Seq<char>> {
    match s {
        None => None,
        Some(t) => Some(t@),
    }
}

pub open spec fn parts_view(p: Option<UrlParts>) -> Option<(Seq<char>, Seq<char>, Option<Seq<char>>)> {
    match p {
        None => None,
        Some(u) => Some((u.serialization@, u.scheme@, opt_str_view(u.host))),
    }
}

/// Calls `url::Url::parse`, then `Url::as_str`, `Url::scheme` and
/// `Url::host_str`. Claims: the result is what `url_parts` names.
#[verifier::external_body]
fn parse_url(text: &str) -> (res: Option<UrlParts>)
    ensures
        parts_view(res) == url_parts(text@),
{
    match url::Url::parse(text) {
        Ok(u) => Some(UrlParts {
            serialization: u.as_str().to_string(),
            scheme: u.scheme().to_string(),
            host: u.host_str().map(|h| h.to_string()),
        }),
        Err(_) => None,
    }
}

/// A capture target that the service accepts: the URL to navigate to and
/// the host that authorization is asked about.
pub struct CaptureUrl {
    pub url: String,
    pub hostname: String,
}

/// What the parts of a capture URL yield: an `http` or `https` URL with a
/// non-empty host is accepted (its serialization and host); anything else is
/// a bad request.
pub open spec fn spec_capture_url(parts: Option<(Seq<char>, Seq<char>, Option<Seq<char>>)>) -> Result<(Seq<char>, Seq<char>), AppError> {
    match parts {
        None => Err(AppError::BadRequest(Rejection::InvalidUrl)),
        Some((serialization, scheme, host)) => if scheme != "http"@ && scheme != "https"@ {
            Err(AppError::BadRequest(Rejection::InvalidUrlScheme))
        } else {
            match host {
                Some(h) => if h.len() > 0 {
                    Ok((serialization, h))
                } else {
                    Err(AppError::BadRequest(Rejection::BadUrl))
                },
                None => Err(AppError::BadRequest(Rejection::BadUrl)),
            }
        },
    }
}

/// An `http` or `https` URL with a non-empty host is accepted, with its
/// serialization and exactly that host, whatever the host looks like and
/// whatever the rest of the URL (path, query, fragment) holds; one with an
/// empty or no host is "Bad URL"; one of another scheme is "Invalid URL
/// scheme".
pub proof fn lemma_capture_url_acceptance(serialization: Seq<char>, scheme: Seq<char>, host: Option<Seq<char>>)
    ensures
        (scheme == "http"@ || scheme == "https"@) && (host matches Some(h) && h.len() > 0) ==>
            spec_capture_url(Some((serialization, scheme, host))) == Ok::<(Seq<char>, Seq<char>), AppError>((serialization, host->0)),
        (scheme == "http"@ || scheme == "https"@) && !(host matches Some(h) && h.len() > 0) ==>
            spec_capture_url(Some((serialization, scheme, host))) == Err::<(Seq<char>, Seq<char>), AppError>(AppError::BadRequest(Rejection::BadUrl)),
        !(scheme == "http"@ || scheme == "https"@) ==>
            spec_capture_url(Some((serialization, scheme, host))) == Err::<(Seq<char>, Seq<char>), AppError>(AppError::BadRequest(Rejection::InvalidUrlScheme)),
        spec_capture_url(None) == Err::<(Seq<char>, Seq<char>), AppError>(AppError::BadRequest(Rejection::InvalidUrl)),
{
}

/// Whether a result matches what `spec_capture_url` says.
pub open spec fn capture_url_matches(res: Result<CaptureUrl, AppError>, expected: Result<(Seq<char>, Seq<char>), AppError>) -> bool {
    match expected {
        Ok((url, host)) => res matches Ok(c) && c.url@ == url && c.hostname@ == host,
        Err(e) => res == Err::<CaptureUrl, AppError>(e),
    }
}

/// Checks the parts of a parsed capture URL (see `spec_capture_url`).
pub fn check_capture_url(parts: Option<UrlParts>) -> (res: Result<CaptureUrl, AppError>)
    ensures
        capture_url_matches(res, spec_capture_url(parts_view(parts))),
{
    match parts {
        None => Err(AppError::BadRequest(Rejection::InvalidUrl)),
        Some(p) => {
            let http = "http".to_owned();
            let https = "https".to_owned();
            if !(p.scheme == http) && !(p.scheme == https) {
                return Err(AppError::BadRequest(Rejection::InvalidUrlScheme));
            }
            match p.host {
                Some(h) => {
                    if !h.as_str().is_empty() {
                        Ok(CaptureUrl { url: p.serialization, hostname: h })
                    } else {
                        Err(AppError::BadRequest(Rejection::BadUrl))
                    }
                },
                None => Err(AppError::BadRequest(Rejection::BadUrl)),
            }
        },
    }
}

/// Parses and checks the URL of a capture request (see `spec_capture_url`).
pub fn capture_url(input: &str) -> (res: Result<CaptureUrl, AppError>)
    ensures
        capture_url_matches(res, spec_capture_url(url_parts(input@))),
{
    check_capture_url(parse_url(input))
}

// ---------------------------------------------------------------------------
// Starting the jobs of the `/v1` endpoints.
// ---------------------------------------------------------------------------

/// A request that passed authentication and authorization, with its job.
#[derive(Debug)]
pub struct Started {
    /// The passed authorization, with the user that the token names.
    pub grant: Grant,
    /// What the user was authorized to do.
    pub operation: Operation,
    pub job: Job,
    /// The first action of the job.
    pub action: Action,
}

/// Why a request did not start a job.
#[derive(Debug)]
pub enum RequestError {
    /// The request itself is refused: its header or its URL.
    Invalid(AppError),
    /// The authorizer refused the request's token.
    Refused(Refusal),
}

/// The error a refused request is answered with.
pub open spec fn spec_request_error(e: RequestError) -> AppError {
    match e {
        RequestError::Invalid(a) => a,
        RequestError::Refused(r) => spec_refusal_error(r),
    }
}

impl RequestError {
    /// The error this request is answered with (see `spec_request_error`).
    pub fn error(&self) -> (e: AppError)
        ensures
            e == spec_request_error(*self),
    {
        match self {
            RequestError::Invalid(a) => *a,
            RequestError::Refused(r) => r.error(),
        }
    }
}

/// The error an unauthenticated request is refused with.
pub open spec fn spec_auth_error(header: Option<Seq<u8>>) -> AppError {
    match spec_bearer_token(header) {
        Err(e) => e,
        Ok(_) => AppError::Unauthorized(Denial::Unauthorized),
    }
}

/// The block signatures of the token that a request's header carries.
pub open spec fn request_signatures(header: Option<Seq<u8>>, public_key: Seq<char>) -> Option<Seq<Seq<u8>>> {
    read_token(spec_bearer_token(header)->Ok_0, public_key)
}

/// A job that has just started, waiting to create its browser context.
pub open spec fn fresh_job(job: Job, kind: JobKind, viewport: Viewport, extra_headers: Option<Vec<(String, String)>>, target: Target, input: Seq<char>) -> bool {
    &&& job.kind == kind
    &&& job.viewport == viewport
    &&& job.extra_headers == extra_headers
    &&& job.target == target
    &&& job.input@ == input
    &&& job.stage is CreatingContext
    &&& job.outcome is None
    &&& job.wf()
}

/// A grant from the authorizer of `op` at time `now`, run over the token
/// that the request's header carries; its user is the first answer of the
/// user query.
pub open spec fn granted_to_request(g: Grant, header: Option<Seq<u8>>, public_key: Seq<char>, op: Operation, now: u64) -> bool {
    &&& request_signatures(header, public_key) == Some(biscuit_signatures(granted_token(g)))
    &&& granted_str_facts(g) == spec_str_facts(op)
    &&& granted_date_facts(g) == spec_date_facts(now)
    &&& granted_policies(g) == seq![allow_policy()]
    &&& granted_users(g).len() > 0
    &&& granted_user(g)@ == granted_users(g)[0]@
}

/// A refusal of the request's token by the authorizer with these string
/// facts at time `now`: a refusal naming no user comes only from a passed run of that
/// authorizer over that token whose user query answered none.
pub open spec fn refused_for_request(r: Refusal, header: Option<Seq<u8>>, public_key: Seq<char>, str_facts: Seq<(Seq<char>, Seq<char>)>, now: u64) -> bool {
    r matches Refusal::NoUser(a) ==> {
        &&& request_signatures(header, public_key) == Some(biscuit_signatures(a.approved().token()))
        &&& crate::approval::authorizer_str_facts(a.approved().authorizer()) == str_facts
        &&& crate::approval::authorizer_date_facts(a.approved().authorizer()) == spec_date_facts(now)
        &&& crate::approval::authorizer_policies(a.approved().authorizer()) == seq![allow_policy()]
        &&& a.users().len() == 0
    }
}

/// Handles `/v1/render` up to the browser: authenticates the token,
/// authorizes it for `operation("render")` at time `now`, and starts a job
/// that renders the HTML and shoots the viewport. A token that the
/// authorizer refuses is answered with that refusal, and no job starts.
pub fn render(header: Option<&[u8]>, auth: &Auth, now: u64, req: RenderRequest) -> (res: Result<Started, RequestError>)
    ensures
        !spec_authenticated(opt_view(header), auth.public_key@) ==>
            res == Err::<Started, RequestError>(RequestError::Invalid(spec_auth_error(opt_view(header)))),
        spec_authenticated(opt_view(header), auth.public_key@) ==> (res matches Err(x) ==> x is Refused),
        res matches Err(RequestError::Refused(r)) ==>
            refused_for_request(r, opt_view(header), auth.public_key@, spec_str_facts(Operation::Render), now),
        res matches Ok(s) ==> {
            &&& spec_authenticated(opt_view(header), auth.public_key@)
            &&& s.operation is Render
            &&& granted_to_request(s.grant, opt_view(header), auth.public_key@, Operation::Render, now)
            &&& fresh_job(s.job, JobKind::Render, req.device.viewport, req.device.extra_http_headers,
                    Target::Viewport, req.input@)
            &&& s.action is CreateContext
        },
{
    let token = match ValidBiscuit::from_header(header, auth) {
        Ok(t) => t,
        Err(e) => return Err(RequestError::Invalid(e)),
    };
    let operation = Operation::Render;
    let grant = match authorize(token.0, &operation, now) {
        Ok(g) => g,
        Err(r) => return Err(RequestError::Refused(r)),
    };
    let (job, action) = Job::render(req.device.viewport, req.device.extra_http_headers, req.input);
    Ok(Started { grant, operation, job, action })
}

/// Handles `/v1/capture` up to the browser: authenticates the token, checks
/// the URL, authorizes the token for `operation("capture")` and
/// `hostname(..)` of the URL's host at time `now`, and starts a job that
/// navigates to the URL and shoots the target. A malformed URL is a bad
/// request; a token that the authorizer refuses is answered with that
/// refusal; in both cases no job starts.
pub fn capture(header: Option<&[u8]>, auth: &Auth, now: u64, req: CaptureRequest) -> (res: Result<Started, RequestError>)
    ensures
        !spec_authenticated(opt_view(header), auth.public_key@) ==>
            res == Err::<Started, RequestError>(RequestError::Invalid(spec_auth_error(opt_view(header)))),
        spec_authenticated(opt_view(header), auth.public_key@) ==> match spec_capture_url(url_parts(req.input@)) {
            Err(e) => res == Err::<Started, RequestError>(RequestError::Invalid(e)),
            Ok((_, host)) => {
                &&& res matches Err(x) ==> x is Refused
                &&& res matches Err(RequestError::Refused(r)) ==> refused_for_request(r, opt_view(header),
                        auth.public_key@, seq![("operation"@, "capture"@), ("hostname"@, host)], now)
            },
        },
        res matches Ok(s) ==> {
            &&& spec_authenticated(opt_view(header), auth.public_key@)
            &&& spec_capture_url(url_parts(req.input@)) matches Ok((url, host))
            &&& s.operation matches Operation::Capture { hostname } && hostname@ == host
            &&& granted_to_request(s.grant, opt_view(header), auth.public_key@, s.operation, now)
            &&& granted_str_facts(s.grant) == seq![("operation"@, "capture"@), ("hostname"@, host)]
            &&& fresh_job(s.job, JobKind::Capture, req.device.viewport, req.device.extra_http_headers,
                    req.target, url)
            &&& s.action is CreateContext
        },
{
    let token = match ValidBiscuit::from_header(header, auth) {
        Ok(t) => t,
        Err(e) => return Err(RequestError::Invalid(e)),
    };
    let checked = match capture_url(req.input.as_str()) {
        Ok(c) => c,
        Err(e) => return Err(RequestError::Invalid(e)),
    };
    let operation = Operation::Capture { hostname: checked.hostname };
    let grant = match authorize(token.0, &operation, now) {
        Ok(g) => g,
        Err(r) => return Err(RequestError::Refused(r)),
    };
    let (job, action) = Job::capture(req.device.viewport, req.device.extra_http_headers, req.target, checked.url);
    Ok(Started { grant, operation, job, action })
}

} // verus!
