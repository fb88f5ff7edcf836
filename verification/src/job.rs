//! The steps of a render or capture job, as a state machine: the server
//! performs each action in the browser and hands back what came of it; the
//! machine decides what comes next.
use crate::error::{AppError, Failure};
use crate::v1::{Target, Viewport};
use vstd::prelude::*;

verus! {

/// How long the server waits for the awaited page lifecycle event before it
/// takes the screenshot anyway, in seconds.
pub const LIFECYCLE_WAIT_SECS: u64 = 10;

/// Which endpoint a job serves.
#[derive(Debug, Clone, Copy, PartialEq, Eq, Structural)]
pub enum JobKind {
    Render,
    Capture,
}

/// The step a job is waiting on.
#[derive(Debug, Clone, Copy, PartialEq, Eq, Structural)]
pub enum Stage {
    /// Creating an isolated browser context.
    CreatingContext,
    /// Opening a blank page in the context.
    OpeningPage,
    /// Disposing the context after the page could not be opened.
    DiscardingContext,
    SettingViewport,
    SettingHeaders,
    EnablingLifecycle,
    Listening,
    /// Setting the HTML (render) or navigating to the URL (capture).
    Loading,
    /// Waiting for the awaited lifecycle event.
    Waiting,
    Shooting,
    /// Taking a low-quality screenshot for the logs after a capture failed.
    FallbackShooting,
    Closing,
    Disposing,
    Finished,
}

/// What came of the last action.
#[derive(Debug)]
pub enum Event {
    Succeeded,
    Failed,
    /// A page lifecycle event, by name.
    Lifecycle(String),
    /// The lifecycle event stream ended, or the wait timed out.
    WaitOver,
    /// A screenshot was taken.
    Image(Vec<u8>),
}

/// What the server is to do next.
#[derive(Debug)]
pub enum Action {
    CreateContext,
    OpenPage,
    /// Dispose the browser context; the page was never opened.
    DiscardContext,
    SetViewport { width: u32, height: u32 },
    /// Send these extra HTTP headers with every request of the page.
    SetExtraHeaders(Vec<(String, String)>),
    EnableLifecycleEvents,
    ListenLifecycle,
    SetContent(String),
    Navigate(String),
    /// Wait for the next lifecycle event; when `start_clock` holds, the wait
    /// of `LIFECYCLE_WAIT_SECS` starts now.
    NextLifecycleEvent { start_clock: bool },
    Screenshot(Target),
    FallbackScreenshot,
    ClosePage,
    DisposeContext,
    /// Answer the request: with the image, or with the error.
    Finish(Result<Vec<u8>, AppError>),
    /// Nothing is left to do.
    Halt,
}

/// A render or capture job.
#[derive(Debug)]
pub struct Job {
    pub kind: JobKind,
    pub viewport: Viewport,
    /// The extra HTTP headers still to be set, if any.
    pub extra_headers: Option<Vec<(String, String)>>,
    pub target: Target,
    /// The HTML to render, or the URL to capture.
    pub input: String,
    pub stage: Stage,
    /// What the request will be answered with, once that is decided.
    pub outcome: Option<Result<Vec<u8>, AppError>>,
}

/// The lifecycle event a job waits for before its screenshot.
pub open spec fn awaited_event(kind: JobKind) -> Seq<char> {
    match kind {
        JobKind::Render => "load"@,
        JobKind::Capture => "networkIdle"@,
    }
}

/// The stages in which the job holds a browser context that it must dispose.
pub open spec fn holds_context(stage: Stage) -> bool {
    !(stage is CreatingContext || stage is DiscardingContext || stage is Disposing || stage is Finished)
}

/// The stages in which the job holds an open page that it must close.
pub open spec fn page_open(stage: Stage) -> bool {
    holds_context(stage) && !(stage is OpeningPage) && !(stage is Closing)
}

impl Job {
    /// Well-formedness: a render shoots the viewport, and the outcome is
    /// decided exactly in the stages that clean up before answering.
    pub open spec fn wf(self) -> bool {
        &&& (self.kind is Render ==> self.target is Viewport)
        &&& (self.outcome is Some <==> (self.stage is DiscardingContext || self.stage is Closing
            || self.stage is Disposing))
    }
}

/// The job after a failure of a page step: the page is closed next and the
/// request will be answered with the failure.
pub open spec fn fail_with(job: Job, f: Failure) -> (Job, Action) {
    (Job { stage: Stage::Closing, outcome: Some(Err(AppError::Internal(f))), ..job }, Action::ClosePage)
}

/// The job after the screenshot could not be taken: a render fails; a
/// capture takes a fallback screenshot first.
pub open spec fn screenshot_missed(job: Job) -> (Job, Action) {
    match job.kind {
        JobKind::Render => fail_with(job, Failure::Screenshot),
        JobKind::Capture => (Job { stage: Stage::FallbackShooting, ..job }, Action::FallbackScreenshot),
    }
}

/// The next state of a job and what the server is to do, given what came
/// of the last action.
pub open spec fn spec_next(job: Job, event: Event) -> (Job, Action) {
    match job.stage {
        Stage::CreatingContext => if event is Succeeded {
            (Job { stage: Stage::OpeningPage, ..job }, Action::OpenPage)
        } else {
            (Job { stage: Stage::Finished, outcome: None, ..job },
             Action::Finish(Err(AppError::Internal(Failure::CreateBrowserContext))))
        },
        Stage::OpeningPage => if event is Succeeded {
            (Job { stage: Stage::SettingViewport, ..job },
             Action::SetViewport { width: job.viewport.width, height: job.viewport.height })
        } else {
            (Job { stage: Stage::DiscardingContext, outcome: Some(Err(AppError::Internal(Failure::CreatePage))), ..job },
             Action::DiscardContext)
        },
        Stage::DiscardingContext | Stage::Disposing =>
            (Job { stage: Stage::Finished, outcome: None, ..job }, Action::Finish(job.outcome.unwrap())),
        Stage::SettingViewport => if event is Succeeded {
            if job.extra_headers is Some {
                (Job { stage: Stage::SettingHeaders, extra_headers: None, ..job },
                 Action::SetExtraHeaders(job.extra_headers->0))
            } else {
                (Job { stage: Stage::EnablingLifecycle, ..job }, Action::EnableLifecycleEvents)
            }
        } else {
            fail_with(job, Failure::ConfigureViewport)
        },
        Stage::SettingHeaders => if event is Succeeded {
            (Job { stage: Stage::EnablingLifecycle, ..job }, Action::EnableLifecycleEvents)
        } else {
            fail_with(job, Failure::ConfigureExtraHeaders)
        },
        Stage::EnablingLifecycle => if event is Succeeded {
            (Job { stage: Stage::Listening, ..job }, Action::ListenLifecycle)
        } else {
            fail_with(job, Failure::EnableLifecycleEvents)
        },
        Stage::Listening => if event is Succeeded {
            (Job { stage: Stage::Loading, ..job }, match job.kind {
                JobKind::Render => Action::SetContent(job.input),
                JobKind::Capture => Action::Navigate(job.input),
            })
        } else {
            fail_with(job, Failure::CreateEventListener)
        },
        Stage::Loading => if event is Succeeded {
            (Job { stage: Stage::Waiting, ..job }, Action::NextLifecycleEvent { start_clock: true })
        } else {
            match job.kind {
                JobKind::Render => fail_with(job, Failure::SetContent),
                JobKind::Capture => (Job { stage: Stage::FallbackShooting, ..job }, Action::FallbackScreenshot),
            }
        },
        Stage::Waiting => match event {
            Event::Lifecycle(name) => if name@ == awaited_event(job.kind) {
                (Job { stage: Stage::Shooting, ..job }, Action::Screenshot(job.target))
            } else {
                (job, Action::NextLifecycleEvent { start_clock: false })
            },
            _ => (Job { stage: Stage::Shooting, ..job }, Action::Screenshot(job.target)),
        },
        Stage::Shooting => match event {
            Event::Image(img) => (Job { stage: Stage::Closing, outcome: Some(Ok(img)), ..job }, Action::ClosePage),
            _ => screenshot_missed(job),
        },
        Stage::FallbackShooting => fail_with(job, Failure::Capture),
        Stage::Closing => (Job { stage: Stage::Disposing, ..job }, Action::DisposeContext),
        Stage::Finished => (job, Action::Halt),
    }
}

impl Job {
    /// A new job, waiting to create its browser context.
    pub open spec fn spec_start(kind: JobKind, viewport: Viewport, extra_headers: Option<Vec<(String, String)>>, target: Target, input: String) -> Job {
        Job { kind, viewport, extra_headers, target, input, stage: Stage::CreatingContext, outcome: None }
    }

    /// Starts a render of `html`: it will shoot the viewport once the page
    /// has loaded.
    pub fn render(viewport: Viewport, extra_headers: Option<Vec<(String, String)>>, html: String) -> (res: (Job, Action))
        ensures
            res.0 == Job::spec_start(JobKind::Render, viewport, extra_headers, Target::Viewport, html),
            res.1 is CreateContext,
            res.0.wf(),
    {
        (Job {
            kind: JobKind::Render,
            viewport,
            extra_headers,
            target: Target::Viewport,
            input: html,
            stage: Stage::CreatingContext,
            outcome: None,
        }, Action::CreateContext)
    }

    /// Starts a capture of the page at `url`: it will shoot `target` once
    /// the network is idle.
    pub fn capture(viewport: Viewport, extra_headers: Option<Vec<(String, String)>>, target: Target, url: String) -> (res: (Job, Action))
        ensures
            res.0 == Job::spec_start(JobKind::Capture, viewport, extra_headers, target, url),
            res.1 is CreateContext,
            res.0.wf(),
    {
        (Job {
            kind: JobKind::Capture,
            viewport,
            extra_headers,
            target,
            input: url,
            stage: Stage::CreatingContext,
            outcome: None,
        }, Action::CreateContext)
    }

    /// Whether the job is well formed (see `wf`); every job that the
    /// constructors and `step` hand out is.
    pub fn well_formed(&self) -> (res: bool)
        ensures
            res == self.wf(),
    {
        let target_ok = match self.kind {
            JobKind::Render => match self.target {
                Target::Viewport => true,
                _ => false,
            },
            JobKind::Capture => true,
        };
        let decided = match self.stage {
            Stage::DiscardingContext | Stage::Closing | Stage::Disposing => true,
            _ => false,
        };
        target_ok && (self.outcome.is_some() == decided)
    }

    fn fail(self, f: Failure) -> (res: (Job, Action))
        ensures
            res == fail_with(self, f),
    {
        (Job { stage: Stage::Closing, outcome: Some(Err(AppError::Internal(f))), ..self }, Action::ClosePage)
    }

    /// Moves the job on by what came of its last action (see `spec_next`).
    pub fn step(self, event: Event) -> (res: (Job, Action))
        requires
            self.wf(),
        ensures
            res == spec_next(self, event),
            res.0.wf(),
    {
        let job = self;
        match job.stage {
            Stage::CreatingContext => if let Event::Succeeded = event {
                (Job { stage: Stage::OpeningPage, ..job }, Action::OpenPage)
            } else {
                (Job { stage: Stage::Finished, outcome: None, ..job },
                 Action::Finish(Err(AppError::Internal(Failure::CreateBrowserContext))))
            },
            Stage::OpeningPage => if let Event::Succeeded = event {
                let (width, height) = (job.viewport.width, job.viewport.height);
                (Job { stage: Stage::SettingViewport, ..job }, Action::SetViewport { width, height })
            } else {
                (Job { stage: Stage::DiscardingContext, outcome: Some(Err(AppError::Internal(Failure::CreatePage))), ..job },
                 Action::DiscardContext)
            },
            Stage::DiscardingContext | Stage::Disposing => {
                let mut job = job;
                let outcome = job.outcome;
                match outcome {
                    Some(r) => (Job { stage: Stage::Finished, outcome: None, ..job }, Action::Finish(r)),
                    None => (Job { stage: Stage::Finished, outcome: None, ..job }, Action::Halt),
                }
            },
            Stage::SettingViewport => if let Event::Succeeded = event {
                let mut job = job;
                let headers = job.extra_headers;
                if let Some(h) = headers {
                    (Job { stage: Stage::SettingHeaders, extra_headers: None, ..job }, Action::SetExtraHeaders(h))
                } else {
                    (Job { stage: Stage::EnablingLifecycle, extra_headers: None, ..job }, Action::EnableLifecycleEvents)
                }
            } else {
                job.fail(Failure::ConfigureViewport)
            },
            Stage::SettingHeaders => if let Event::Succeeded = event {
                (Job { stage: Stage::EnablingLifecycle, ..job }, Action::EnableLifecycleEvents)
            } else {
                job.fail(Failure::ConfigureExtraHeaders)
            },
            Stage::EnablingLifecycle => if let Event::Succeeded = event {
                (Job { stage: Stage::Listening, ..job }, Action::ListenLifecycle)
            } else {
                job.fail(Failure::EnableLifecycleEvents)
            },
            Stage::Listening => if let Event::Succeeded = event {
                let input = job.input.clone();
                let action = match job.kind {
                    JobKind::Render => Action::SetContent(input),
                    JobKind::Capture => Action::Navigate(input),
                };
                (Job { stage: Stage::Loading, ..job }, action)
            } else {
                job.fail(Failure::CreateEventListener)
            },
            Stage::Loading => if let Event::Succeeded = event {
                (Job { stage: Stage::Waiting, ..job }, Action::NextLifecycleEvent { start_clock: true })
            } else {
                match job.kind {
                    JobKind::Render => job.fail(Failure::SetContent),
                    JobKind::Capture => (Job { stage: Stage::FallbackShooting, ..job }, Action::FallbackScreenshot),
                }
            },
            Stage::Waiting => {
                let keep_waiting = match &event {
                    Event::Lifecycle(name) => {
                        let awaited = match job.kind {
                            JobKind::Render => "load".to_owned(),
                            JobKind::Capture => "networkIdle".to_owned(),
                        };
                        !(*name == awaited)
                    },
                    _ => false,
                };
                if keep_waiting {
                    (job, Action::NextLifecycleEvent { start_clock: false })
                } else {
                    let target = job.target.duplicate();
                    (Job { stage: Stage::Shooting, ..job }, Action::Screenshot(target))
                }
            },
            Stage::Shooting => match event {
                Event::Image(img) => (Job { stage: Stage::Closing, outcome: Some(Ok(img)), ..job }, Action::ClosePage),
                _ => match job.kind {
                    JobKind::Render => job.fail(Failure::Screenshot),
                    JobKind::Capture => (Job { stage: Stage::FallbackShooting, ..job }, Action::FallbackScreenshot),
                },
            },
            Stage::FallbackShooting => job.fail(Failure::Capture),
            Stage::Closing => (Job { stage: Stage::Disposing, ..job }, Action::DisposeContext),
            Stage::Finished => (job, Action::Halt),
        }
    }
}

/// How far a stage is from the end of the job.
pub open spec fn rank(stage: Stage) -> nat {
    match stage {
        Stage::CreatingContext => 13,
        Stage::OpeningPage => 12,
        Stage::SettingViewport => 11,
        Stage::SettingHeaders => 10,
        Stage::EnablingLifecycle => 9,
        Stage::Listening => 8,
        Stage::Loading => 7,
        Stage::Waiting => 6,
        Stage::Shooting => 5,
        Stage::FallbackShooting => 4,
        Stage::Closing => 3,
        Stage::DiscardingContext => 2,
        Stage::Disposing => 1,
        Stage::Finished => 0,
    }
}

/// Every step keeps a job well formed.
pub proof fn lemma_next_keeps_wf(job: Job, event: Event)
    requires
        job.wf(),
    ensures
        spec_next(job, event).0.wf(),
{
}

/// A job gives up its browser context only by disposing of it, and holds one
/// only after it created one.
pub proof fn lemma_context_lifecycle(job: Job, event: Event)
    requires
        job.wf(),
    ensures
        holds_context(job.stage) && !holds_context(spec_next(job, event).0.stage) ==>
            (spec_next(job, event).1 is DisposeContext || spec_next(job, event).1 is DiscardContext),
        !holds_context(job.stage) && holds_context(spec_next(job, event).0.stage) ==>
            (job.stage is CreatingContext && event is Succeeded && spec_next(job, event).1 is OpenPage),
{
}

/// A job leaves an open page only by closing it.
pub proof fn lemma_page_closed(job: Job, event: Event)
    requires
        job.wf(),
    ensures
        page_open(job.stage) && !page_open(spec_next(job, event).0.stage) ==>
            spec_next(job, event).1 is ClosePage,
{
}

/// A job answers only once it holds no browser context, and is finished then.
pub proof fn lemma_answer_after_cleanup(job: Job, event: Event)
    requires
        job.wf(),
    ensures
        spec_next(job, event).1 is Finish ==> !holds_context(job.stage) && spec_next(job, event).0.stage is Finished,
{
}

/// Once decided, the answer of a job does not change, and it is the answer
/// the job gives when it finishes.
pub proof fn lemma_outcome_kept(job: Job, event: Event)
    requires
        job.wf(),
        job.outcome is Some,
    ensures
        spec_next(job, event).0.outcome == job.outcome || (spec_next(job, event).0.stage is Finished
            && spec_next(job, event).1 == Action::Finish(job.outcome.unwrap())),
{
}

/// A job succeeds only with the screenshot that it took.
pub proof fn lemma_success_is_screenshot(job: Job, event: Event)
    requires
        job.wf(),
    ensures
        spec_next(job, event).1 matches Action::Finish(Ok(img)) ==> job.outcome == Some(Ok::<Vec<u8>, AppError>(img)),
        job.outcome is None ==> (spec_next(job, event).0.outcome matches Some(Ok(img)) ==>
            job.stage is Shooting && event == Event::Image(img)),
{
}

/// A capture that fails once its page started loading fails as "Capture failed".
pub proof fn lemma_capture_failure(job: Job, event: Event)
    requires
        job.wf(),
        job.kind is Capture,
        job.stage is Loading || job.stage is Waiting || job.stage is Shooting || job.stage is FallbackShooting,
    ensures
        spec_next(job, event).0.outcome matches Some(Err(e)) ==> e == AppError::Internal(Failure::Capture),
{
}

/// While waiting, a job keeps waiting exactly on lifecycle events other than
/// the one it awaits; on that one, or when the wait is over, it takes the
/// screenshot of its target.
pub proof fn lemma_waiting(job: Job, event: Event)
    requires
        job.wf(),
        job.stage is Waiting,
    ensures
        spec_next(job, event).0.stage is Waiting <==> (event matches Event::Lifecycle(n) && n@ != awaited_event(job.kind)),
        !(spec_next(job, event).0.stage is Waiting) ==> spec_next(job, event).1 == Action::Screenshot(job.target),
{
}

/// Apart from waiting for lifecycle events, every step brings a job closer to
/// its end; a finished job stays finished and does nothing.
pub proof fn lemma_progress(job: Job, event: Event)
    requires
        job.wf(),
    ensures
        job.stage is Finished ==> spec_next(job, event).0.stage is Finished && spec_next(job, event).1 is Halt,
        !(job.stage is Finished) && !(job.stage is Waiting && spec_next(job, event).0.stage is Waiting) ==>
            rank(spec_next(job, event).0.stage) < rank(job.stage),
{
}

/// Once its page is open, a job sets the page to exactly the viewport it was
/// started with; no step ever changes that viewport.
pub proof fn lemma_viewport_unchanged(job: Job, event: Event)
    requires
        job.wf(),
    ensures
        spec_next(job, event).0.viewport == job.viewport,
        job.stage is OpeningPage && event is Succeeded ==> spec_next(job, event).1
            == (Action::SetViewport { width: job.viewport.width, height: job.viewport.height }),
{
}

/// After the viewport is set, a job with extra headers sets exactly those
/// headers, whatever their number, and a job without goes straight on to
/// enable lifecycle events.
pub proof fn lemma_extra_headers_set(job: Job, headers: Vec<(String, String)>)
    requires
        job.wf(),
        job.stage is SettingViewport,
    ensures
        job.extra_headers == Some(headers) ==> spec_next(job, Event::Succeeded).1 == Action::SetExtraHeaders(headers)
            && spec_next(job, Event::Succeeded).0.stage is SettingHeaders,
        job.extra_headers is None ==> spec_next(job, Event::Succeeded).1 is EnableLifecycleEvents
            && spec_next(job, Event::Succeeded).0.stage is EnablingLifecycle,
{
}

/// The start of every job whose browser steps succeed: it opens a page, sets
/// the requested viewport, sets its extra headers exactly when it was started
/// with some, enables lifecycle events and listens for them.
pub proof fn lemma_successful_start(
    kind: JobKind,
    viewport: Viewport,
    extra_headers: Option<Vec<(String, String)>>,
    target: Target,
    input: String,
)
    requires
        kind is Render ==> target is Viewport,
    ensures ({
        let j0 = Job::spec_start(kind, viewport, extra_headers, target, input);
        let (j1, a1) = spec_next(j0, Event::Succeeded);
        let (j2, a2) = spec_next(j1, Event::Succeeded);
        let (j3, a3) = spec_next(j2, Event::Succeeded);
        let (j4, a4) = spec_next(j3, Event::Succeeded);
        let (j5, a5) = spec_next(j4, Event::Succeeded);
        &&& a1 is OpenPage
        &&& a2 == (Action::SetViewport { width: viewport.width, height: viewport.height })
        &&& match extra_headers {
            Some(h) => a3 == Action::SetExtraHeaders(h) && a4 is EnableLifecycleEvents && a5 is ListenLifecycle
                && j5.stage is Listening,
            None => a3 is EnableLifecycleEvents && a4 is ListenLifecycle && j4.stage is Listening,
        }
    }),
{
}

/// A successful answer: the image, as a PNG.
pub struct Reply {
    pub status: u16,
    pub content_type: String,
    pub body: Vec<u8>,
}

/// The answer to a job that produced `image`: status 200, content type
/// `image/png`, and the image as the body.
pub fn image_reply(image: Vec<u8>) -> (r: Reply)
    ensures
        r.status == 200,
        r.content_type@ == "image/png"@,
        r.body == image,
{
    Reply { status: 200, content_type: "image/png".to_owned(), body: image }
}

} // verus!
