use vstd::prelude::*;

verus! {

/// Why a request was refused as unauthorized.
#[derive(Debug, Clone, Copy, PartialEq, Eq, Structural)]
pub enum Denial {
    /// No valid token, or the token did not pass the authorizer.
    Unauthorized,
    /// The authorizer passed, but the token names no user.
    MissingUserFact,
}

/// Why a request was refused as malformed.
#[derive(Debug, Clone, Copy, PartialEq, Eq, Structural)]
pub enum Rejection {
    /// The `Authorization` header holds bytes that are not visible ASCII.
    BadHeader,
    /// The capture input is not a URL.
    InvalidUrl,
    /// The capture input is a URL whose scheme is neither `http` nor `https`.
    InvalidUrlScheme,
    /// The capture input is a URL without a (non-empty) host.
    BadUrl,
}

/// Which step of the service failed on its own side.
#[derive(Debug, Clone, Copy, PartialEq, Eq, Structural)]
pub enum Failure {
    CreateBrowserContext,
    CreatePage,
    ConfigureViewport,
    ConfigureExtraHeaders,
    EnableLifecycleEvents,
    CreateEventListener,
    SetContent,
    Screenshot,
    Capture,
}

/// The error a request is answered with.
#[derive(Debug, Clone, Copy, PartialEq, Eq, Structural)]
pub enum AppError {
    Unauthorized(Denial),
    BadRequest(Rejection),
    Internal(Failure),
}

/// The HTTP status code of an error.
pub open spec fn spec_status(e: AppError) -> u16 {
    match e {
        AppError::Unauthorized(_) => 401,
        AppError::BadRequest(_) => 400,
        AppError::Internal(_) => 500,
    }
}

/// The message an error is answered with.
pub open spec fn spec_message(e: AppError) -> Seq<char> {
    match e {
        AppError::Unauthorized(Denial::Unauthorized) => "Unauthorized"@,
        AppError::Unauthorized(Denial::MissingUserFact) => "Missing user fact"@,
        AppError::BadRequest(Rejection::BadHeader) => "Bad Request"@,
        AppError::BadRequest(Rejection::InvalidUrl) => "Invalid URL"@,
        AppError::BadRequest(Rejection::InvalidUrlScheme) => "Invalid URL scheme"@,
        AppError::BadRequest(Rejection::BadUrl) => "Bad URL"@,
        AppError::Internal(Failure::CreateBrowserContext) => "Failed to create browser context"@,
        AppError::Internal(Failure::CreatePage) => "Failed to create page"@,
        AppError::Internal(Failure::ConfigureViewport) => "Failed to configure viewport"@,
        AppError::Internal(Failure::ConfigureExtraHeaders) => "Failed to configure extra HTTP headers"@,
        AppError::Internal(Failure::EnableLifecycleEvents) => "Failed to enable lifecycle events"@,
        AppError::Internal(Failure::CreateEventListener) => "Failed to create event listener"@,
        AppError::Internal(Failure::SetContent) => "Failed to set content"@,
        AppError::Internal(Failure::Screenshot) => "Screenshot failed"@,
        AppError::Internal(Failure::Capture) => "Capture failed"@,
    }
}

/// Every refusal of a malformed request is answered 400, every refused
/// token 401, and every failure on the service's side 500.
pub proof fn lemma_status_classes(e: AppError)
    ensures
        e is BadRequest ==> spec_status(e) == 400,
        e is Unauthorized ==> spec_status(e) == 401,
        e is Internal ==> spec_status(e) == 500,
{
}

impl AppError {
    /// The HTTP status code this error is answered with:
    /// 401 for a refused token, 400 for a malformed request, 500 otherwise.
    pub fn status_code(&self) -> (code: u16)
        ensures
            code == spec_status(*self),
    {
        match self {
            AppError::Unauthorized(_) => 401,
            AppError::BadRequest(_) => 400,
            AppError::Internal(_) => 500,
        }
    }

    /// The message this error is answered with.
    pub fn message(&self) -> (msg: String)
        ensures
            msg@ == spec_message(*self),
    {
        let text: &str = match self {
            AppError::Unauthorized(Denial::Unauthorized) => "Unauthorized",
            AppError::Unauthorized(Denial::MissingUserFact) => "Missing user fact",
            AppError::BadRequest(Rejection::BadHeader) => "Bad Request",
            AppError::BadRequest(Rejection::InvalidUrl) => "Invalid URL",
            AppError::BadRequest(Rejection::InvalidUrlScheme) => "Invalid URL scheme",
            AppError::BadRequest(Rejection::BadUrl) => "Bad URL",
            AppError::Internal(Failure::CreateBrowserContext) => "Failed to create browser context",
            AppError::Internal(Failure::CreatePage) => "Failed to create page",
            AppError::Internal(Failure::ConfigureViewport) => "Failed to configure viewport",
            AppError::Internal(Failure::ConfigureExtraHeaders) => "Failed to configure extra HTTP headers",
            AppError::Internal(Failure::EnableLifecycleEvents) => "Failed to enable lifecycle events",
            AppError::Internal(Failure::CreateEventListener) => "Failed to create event listener",
            AppError::Internal(Failure::SetContent) => "Failed to set content",
            AppError::Internal(Failure::Screenshot) => "Screenshot failed",
            AppError::Internal(Failure::Capture) => "Capture failed",
        };
        text.to_owned()
    }
}

} // verus!
